use vstd::prelude::*;
use crate::diagnostic::Diagnostic;
use crate::event_kind::EventKind;
use crate::options::{DiagnosticOptions, DiagnosticOptionsView};

verus! {

/// The view of an optional string.
pub open spec fn text_of(text: Option<String>) -> Option<Seq<char>> {
    match text {
        Some(s) => Some(s@),
        None => None,
    }
}

/// What came after `before` in `after`: `None` unless `after` begins with
/// `before`.
pub open spec fn attached<A>(before: Seq<A>, after: Seq<A>) -> Option<Seq<A>> {
    if before.is_prefix_of(after) {
        Some(after.skip(before.len() as int))
    } else {
        None
    }
}

/// What every event can do, whatever its type.
///
/// The spec functions say what the event is: its message under given
/// options, its identifier, its kind, the subsystem it came from and what it
/// may attach to a rendering. They are functions of the event alone, so an
/// event answers the same question the same way each time it is asked. The
/// executable methods return what the spec functions say, and they are
/// defined for every input: rendering cannot fail.
///
/// An event without an identifier or an exporter answers `None`, and one
/// that attaches nothing leaves the diagnostic as it finds it.
pub trait BuildEvent: Send + Sync {
    /// The message of the event under `opts`.
    spec fn message_spec(&self, opts: DiagnosticOptionsView) -> Seq<char>;

    /// The identifier by which the event can be found again; `None` where
    /// the event has none.
    spec fn id_spec(&self) -> Option<Seq<char>>;

    /// The category of the event.
    spec fn kind_spec(&self) -> EventKind;

    /// The name of the subsystem that reported the event; `None` where the
    /// event names none.
    spec fn exporter_spec(&self) -> Option<Seq<char>>;

    /// Whether `fields`, in this order, is something that the event may
    /// attach to a diagnostic rendered from it under `opts`. An event that
    /// attaches nothing admits the empty sequence only.
    spec fn may_attach(
        &self,
        opts: DiagnosticOptionsView,
        fields: Seq<(Seq<char>, Seq<char>)>,
    ) -> bool;

    /// Renders the message. It is defined for every options value.
    fn message(&self, opts: &DiagnosticOptions) -> (text: String)
        ensures
            text@ == self.message_spec(opts@),
    ;

    /// Returns the identifier of the event.
    fn id(&self) -> (id: Option<String>)
        ensures
            text_of(id) == self.id_spec(),
    ;

    /// Returns the category of the event.
    fn kind(&self) -> (kind: EventKind)
        ensures
            kind == self.kind_spec(),
    ;

    /// Returns the name of the subsystem that reported the event.
    fn exporter(&self) -> (name: Option<String>)
        ensures
            text_of(name) == self.exporter_spec(),
    ;

    /// Lets the event attach fields of its own to a diagnostic that was
    /// rendered from it. The event adds fields after those that are there,
    /// and does nothing else: kind, message and severity stay as the
    /// rendering made them.
    fn on_diagnostic(&self, diagnostic: &mut Diagnostic, opts: &DiagnosticOptions)
        ensures
            final(diagnostic)@.kind == old(diagnostic)@.kind,
            final(diagnostic)@.message == old(diagnostic)@.message,
            final(diagnostic)@.severity == old(diagnostic)@.severity,
            attached(old(diagnostic)@.fields, final(diagnostic)@.fields) is Some,
            self.may_attach(
                opts@,
                attached(old(diagnostic)@.fields, final(diagnostic)@.fields).unwrap(),
            ),
    ;
}

/// A boxed event is the event in the box. With `dyn BuildEvent` in the box,
/// events of different types can stand in one collection.
impl<T: BuildEvent + ?Sized> BuildEvent for Box<T> {
    open spec fn message_spec(&self, opts: DiagnosticOptionsView) -> Seq<char> {
        (**self).message_spec(opts)
    }

    open spec fn id_spec(&self) -> Option<Seq<char>> {
        (**self).id_spec()
    }

    open spec fn kind_spec(&self) -> EventKind {
        (**self).kind_spec()
    }

    open spec fn exporter_spec(&self) -> Option<Seq<char>> {
        (**self).exporter_spec()
    }

    open spec fn may_attach(
        &self,
        opts: DiagnosticOptionsView,
        fields: Seq<(Seq<char>, Seq<char>)>,
    ) -> bool {
        (**self).may_attach(opts, fields)
    }

    fn message(&self, opts: &DiagnosticOptions) -> (text: String) {
        (**self).message(opts)
    }

    fn id(&self) -> (id: Option<String>) {
        (**self).id()
    }

    fn kind(&self) -> (kind: EventKind) {
        (**self).kind()
    }

    fn exporter(&self) -> (name: Option<String>) {
        (**self).exporter()
    }

    fn on_diagnostic(&self, diagnostic: &mut Diagnostic, opts: &DiagnosticOptions) {
        (**self).on_diagnostic(diagnostic, opts)
    }
}

/// Whether `event`, of whatever type, says `text` as an event of the kind
/// `kind` and nothing more: it has no identifier and no exporter, its
/// message is `text` under all options, and it attaches nothing.
pub open spec fn says_only<E: BuildEvent>(event: E, kind: EventKind, text: Seq<char>) -> bool {
    &&& event.kind_spec() == kind
    &&& event.id_spec() is None
    &&& event.exporter_spec() is None
    &&& forall|opts: DiagnosticOptionsView| #[trigger] event.message_spec(opts) == text
    &&& forall|opts: DiagnosticOptionsView, fields: Seq<(Seq<char>, Seq<char>)>|
        #[trigger] event.may_attach(opts, fields) <==> fields.len() == 0
}

/// What a boxed event is, it is through the event in the box. This holds
/// for a box of `dyn BuildEvent` as for any other.
pub proof fn lemma_boxed_event<T: BuildEvent + ?Sized>(boxed: Box<T>)
    ensures
        boxed.kind_spec() == (*boxed).kind_spec(),
        boxed.id_spec() == (*boxed).id_spec(),
        boxed.exporter_spec() == (*boxed).exporter_spec(),
        forall|opts: DiagnosticOptionsView| #[trigger]
            boxed.message_spec(opts) == (*boxed).message_spec(opts),
        forall|opts: DiagnosticOptionsView, fields: Seq<(Seq<char>, Seq<char>)>| #[trigger]
            boxed.may_attach(opts, fields) == (*boxed).may_attach(opts, fields),
{
}

} // verus!
