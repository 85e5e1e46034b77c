use vstd::prelude::*;
use vstd::std_specs::convert::FromSpecImpl;
use crate::diagnostic::{Diagnostic, DiagnosticView};
use crate::event::{lemma_boxed_event, says_only, text_of, BuildEvent};
use crate::event_kind::EventKind;
use crate::events::UnhandleableError;
use crate::opaque::error_text;
use crate::options::{DiagnosticOptions, DiagnosticOptionsView};
use crate::severity::Severity;

verus! {

/// One event together with its severity.
///
/// The diagnostic owns its event, and nothing changes the event once the
/// diagnostic is made. The severity begins as `Error`, and the one change
/// that can happen to it is [`BuildDiagnostic::with_severity_warning`].
///
/// `E` is the type through which the event is held. With the default, a
/// boxed `dyn BuildEvent`, diagnostics of events of different types have one
/// type and can stand in one batch.
#[derive(Debug)]
pub struct BuildDiagnostic<E = Box<dyn BuildEvent>> {
    inner: E,
    severity: Severity,
}

impl<E: BuildEvent> BuildDiagnostic<E> {
    /// The event that the diagnostic owns.
    pub closed spec fn event(&self) -> E {
        self.inner
    }

    /// The severity of the diagnostic.
    pub closed spec fn severity_spec(&self) -> Severity {
        self.severity
    }

    /// The diagnostic of the same event with severity `Warning`.
    pub closed spec fn demoted(self) -> Self {
        BuildDiagnostic { inner: self.inner, severity: Severity::Warning }
    }

    /// What every rendering of the diagnostic under `opts` holds: the string
    /// form of the event's kind, the event's message under `opts`, the
    /// severity of the diagnostic, and fields that the event may attach.
    pub open spec fn renders(
        &self,
        opts: DiagnosticOptionsView,
        rendered: DiagnosticView,
    ) -> bool {
        &&& rendered.kind == self.event().kind_spec().name()
        &&& rendered.message == self.event().message_spec(opts)
        &&& rendered.severity == self.severity_spec()
        &&& self.event().may_attach(opts, rendered.fields)
    }

    /// Wraps `event` into a diagnostic with severity `Error`.
    pub fn new_inner(event: E) -> (diagnostic: Self)
        ensures
            diagnostic.event() == event,
            diagnostic.severity_spec() == Severity::Error,
    {
        BuildDiagnostic { inner: event, severity: Severity::Error }
    }

    /// The identifier of the event, if it has one.
    pub fn id(&self) -> (id: Option<String>)
        ensures
            text_of(id) == self.event().id_spec(),
    {
        self.inner.id()
    }

    /// The category of the event.
    pub fn kind(&self) -> (kind: EventKind)
        ensures
            kind == self.event().kind_spec(),
    {
        self.inner.kind()
    }

    /// The name of the subsystem that reported the event, if it names one.
    pub fn exporter(&self) -> (name: Option<String>)
        ensures
            text_of(name) == self.event().exporter_spec(),
    {
        self.inner.exporter()
    }

    /// The severity of the diagnostic.
    pub fn severity(&self) -> (severity: Severity)
        ensures
            severity == self.severity_spec(),
    {
        self.severity
    }

    /// Gives the diagnostic back with severity `Warning`, whatever it was
    /// before. The event is untouched. Nothing leads back to `Error`.
    #[must_use]
    pub fn with_severity_warning(self) -> (diagnostic: Self)
        ensures
            diagnostic == self.demoted(),
            diagnostic.event() == self.event(),
            diagnostic.severity_spec() == Severity::Warning,
    {
        let mut diagnostic = self;
        diagnostic.severity = Severity::Warning;
        diagnostic
    }

    /// Renders the diagnostic under the default options.
    pub fn to_diagnostic(&self) -> (rendered: Diagnostic)
        ensures
            self.renders(DiagnosticOptions::default_view(), rendered@),
            rendered@.severity == self.severity_spec(),
    {
        let opts = DiagnosticOptions::default();
        self.to_diagnostic_with(&opts)
    }

    /// Renders the diagnostic under `opts`: makes the record from the
    /// event's kind, its message under `opts` and the severity, then hands
    /// the record to the event, which may attach fields of its own. The
    /// rendering has the severity of the diagnostic, whatever the event and
    /// the options are.
    pub fn to_diagnostic_with(&self, opts: &DiagnosticOptions) -> (rendered: Diagnostic)
        ensures
            self.renders(opts@, rendered@),
            rendered@.severity == self.severity_spec(),
    {
        let kind = self.inner.kind();
        let mut rendered = Diagnostic::new(
            kind.to_string(),
            self.inner.message(opts),
            self.severity,
        );
        self.inner.on_diagnostic(&mut rendered, opts);
        assert(rendered@.fields.skip(0) =~= rendered@.fields);
        rendered
    }

    /// The textual form of the diagnostic: the event's message under the
    /// default options. Neither severity nor kind shows in it.
    pub fn to_string(&self) -> (text: String)
        ensures
            text@ == self.event().message_spec(DiagnosticOptions::default_view()),
    {
        let opts = DiagnosticOptions::default();
        self.inner.message(&opts)
    }

    /// Demoting gives severity `Warning` and keeps the event, and demoting
    /// what was demoted changes nothing.
    pub proof fn lemma_demotion_idempotent(self)
        ensures
            self.demoted().severity_spec() == Severity::Warning,
            self.demoted().event() == self.event(),
            self.demoted().demoted() == self.demoted(),
    {
    }

    /// Two renderings of one diagnostic under the same options agree in
    /// kind, message and severity.
    pub proof fn lemma_rendering_deterministic(
        &self,
        opts: DiagnosticOptionsView,
        first: DiagnosticView,
        second: DiagnosticView,
    )
        requires
            self.renders(opts, first),
            self.renders(opts, second),
        ensures
            first.kind == second.kind,
            first.message == second.message,
            first.severity == second.severity,
    {
    }

    /// Demoting changes nothing of a rendering but its severity: what the
    /// diagnostic rendered before, the demoted one renders with `Warning`
    /// in place of the severity.
    pub proof fn lemma_demotion_keeps_rendering(
        self,
        opts: DiagnosticOptionsView,
        rendered: DiagnosticView,
    )
        requires
            self.renders(opts, rendered),
        ensures
            self.demoted().renders(
                opts,
                (DiagnosticView { severity: Severity::Warning, ..rendered }),
            ),
    {
    }
}

impl BuildDiagnostic<Box<dyn BuildEvent>> {
    /// Wraps the text of an error that has no event type of its own: the
    /// diagnostic has severity `Error`, and its event is an
    /// [`UnhandleableError`] whose message is `text`.
    pub fn unhandleable_text(text: String) -> (diagnostic: Self)
        ensures
            diagnostic.severity_spec() == Severity::Error,
            says_only(diagnostic.event(), EventKind::UnhandleableError, text@),
    {
        let event: Box<dyn BuildEvent> = Box::new(UnhandleableError::new(text));
        proof {
            lemma_boxed_event(event);
        }
        let diagnostic = BuildDiagnostic::new_inner(event);
        diagnostic
    }

    /// Wraps an error that has no event type of its own. The message of the
    /// event is the text that the error displays, whatever that is.
    pub fn unhandleable_error(err: anyhow::Error) -> (diagnostic: Self)
        ensures
            diagnostic.severity_spec() == Severity::Error,
            diagnostic.event().kind_spec() == EventKind::UnhandleableError,
            exists|text: Seq<char>| says_only(diagnostic.event(), EventKind::UnhandleableError, text),
    {
        let text = error_text(&err);
        Self::unhandleable_text(text)
    }
}

impl From<anyhow::Error> for BuildDiagnostic<Box<dyn BuildEvent>> {
    /// The same as [`BuildDiagnostic::unhandleable_error`].
    fn from(err: anyhow::Error) -> (diagnostic: Self)
        ensures
            diagnostic.severity_spec() == Severity::Error,
            diagnostic.event().kind_spec() == EventKind::UnhandleableError,
            exists|text: Seq<char>| says_only(diagnostic.event(), EventKind::UnhandleableError, text),
    {
        Self::unhandleable_error(err)
    }
}

/// What the conversion gives is stated by the `ensures` of `from`: the text
/// of an error is not a spec function of the error.
impl FromSpecImpl<anyhow::Error> for BuildDiagnostic<Box<dyn BuildEvent>> {
    open spec fn obeys_from_spec() -> bool {
        false
    }

    open spec fn from_spec(err: anyhow::Error) -> Self {
        arbitrary()
    }
}

} // verus!
