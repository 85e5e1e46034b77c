use vstd::prelude::*;
use crate::diagnostic::Diagnostic;
use crate::event::{says_only, text_of, BuildEvent};
use crate::event_kind::EventKind;
use crate::options::{DiagnosticOptions, DiagnosticOptionsView};

verus! {

/// The event for an error that has no event type of its own. It holds the
/// text of that error and says nothing else of it.
#[derive(Debug)]
pub struct UnhandleableError {
    text: String,
}

impl UnhandleableError {
    /// The text of the error.
    pub closed spec fn text(&self) -> Seq<char> {
        self.text@
    }

    /// Makes the event from the text of the error.
    pub fn new(text: String) -> (event: Self)
        ensures
            event.text() == text@,
            says_only(event, EventKind::UnhandleableError, text@),
    {
        UnhandleableError { text }
    }
}

impl BuildEvent for UnhandleableError {
    open spec fn message_spec(&self, opts: DiagnosticOptionsView) -> Seq<char> {
        self.text()
    }

    open spec fn id_spec(&self) -> Option<Seq<char>> {
        None
    }

    open spec fn kind_spec(&self) -> EventKind {
        EventKind::UnhandleableError
    }

    open spec fn exporter_spec(&self) -> Option<Seq<char>> {
        None
    }

    open spec fn may_attach(
        &self,
        opts: DiagnosticOptionsView,
        fields: Seq<(Seq<char>, Seq<char>)>,
    ) -> bool {
        fields.len() == 0
    }

    fn message(&self, opts: &DiagnosticOptions) -> (text: String) {
        self.text.clone()
    }

    fn id(&self) -> (id: Option<String>) {
        None
    }

    fn kind(&self) -> (kind: EventKind) {
        EventKind::UnhandleableError
    }

    fn exporter(&self) -> (name: Option<String>) {
        None
    }

    fn on_diagnostic(&self, diagnostic: &mut Diagnostic, opts: &DiagnosticOptions)
        ensures
            final(diagnostic)@ == old(diagnostic)@,
    {
        assert(diagnostic@.fields.skip(diagnostic@.fields.len() as int) =~= Seq::empty());
    }
}

/// An event that is given as data: a kind, a fixed message, and what else
/// the producer knows. It is for producers that have no event type of their
/// own. Its message is the same under all options.
#[derive(Debug)]
pub struct PlainEvent {
    kind: EventKind,
    message: String,
    id: Option<String>,
    exporter: Option<String>,
    help: Option<String>,
}

/// What a [`PlainEvent`] stands for in contracts.
pub struct PlainEventView {
    pub kind: EventKind,
    pub message: Seq<char>,
    pub id: Option<Seq<char>>,
    pub exporter: Option<Seq<char>>,
    /// Advice to the reader; a rendering carries it as the field `help`.
    pub help: Option<Seq<char>>,
}

impl View for PlainEvent {
    type V = PlainEventView;

    closed spec fn view(&self) -> PlainEventView {
        PlainEventView {
            kind: self.kind,
            message: self.message@,
            id: text_of(self.id),
            exporter: text_of(self.exporter),
            help: text_of(self.help),
        }
    }
}

/// A copy of an optional string.
fn clone_text(text: &Option<String>) -> (copy: Option<String>)
    ensures
        text_of(copy) == text_of(*text),
{
    match text {
        Some(s) => Some(s.clone()),
        None => None,
    }
}

impl PlainEvent {
    /// The fields that the event attaches to a rendering: the field `help`
    /// where the event holds advice, and none where it holds none.
    pub open spec fn attachment(&self) -> Seq<(Seq<char>, Seq<char>)> {
        match self@.help {
            Some(help) => seq![("help"@, help)],
            None => Seq::empty(),
        }
    }

    /// Makes an event of the given kind and message, without identifier,
    /// exporter or advice.
    pub fn new(kind: EventKind, message: String) -> (event: Self)
        ensures
            event@ == (PlainEventView {
                kind,
                message: message@,
                id: None,
                exporter: None,
                help: None,
            }),
            says_only(event, kind, message@),
    {
        let event = PlainEvent { kind, message, id: None, exporter: None, help: None };
        assert forall|opts: DiagnosticOptionsView, fields: Seq<(Seq<char>, Seq<char>)>|
            #[trigger] event.may_attach(opts, fields) <==> fields.len() == 0 by {
            if fields.len() == 0 {
                assert(fields =~= event.attachment());
            }
        }
        event
    }

    /// Gives the event back with the identifier `id`.
    pub fn with_id(self, id: String) -> (event: Self)
        ensures
            event@ == (PlainEventView { id: Some(id@), ..self@ }),
    {
        let mut event = self;
        event.id = Some(id);
        event
    }

    /// Gives the event back with `name` as the subsystem that reported it.
    pub fn with_exporter(self, name: String) -> (event: Self)
        ensures
            event@ == (PlainEventView { exporter: Some(name@), ..self@ }),
    {
        let mut event = self;
        event.exporter = Some(name);
        event
    }

    /// Gives the event back with the advice `help`.
    pub fn with_help(self, help: String) -> (event: Self)
        ensures
            event@ == (PlainEventView { help: Some(help@), ..self@ }),
    {
        let mut event = self;
        event.help = Some(help);
        event
    }
}

impl BuildEvent for PlainEvent {
    open spec fn message_spec(&self, opts: DiagnosticOptionsView) -> Seq<char> {
        self@.message
    }

    open spec fn id_spec(&self) -> Option<Seq<char>> {
        self@.id
    }

    open spec fn kind_spec(&self) -> EventKind {
        self@.kind
    }

    open spec fn exporter_spec(&self) -> Option<Seq<char>> {
        self@.exporter
    }

    open spec fn may_attach(
        &self,
        opts: DiagnosticOptionsView,
        fields: Seq<(Seq<char>, Seq<char>)>,
    ) -> bool {
        fields == self.attachment()
    }

    fn message(&self, opts: &DiagnosticOptions) -> (text: String) {
        self.message.clone()
    }

    fn id(&self) -> (id: Option<String>) {
        clone_text(&self.id)
    }

    fn kind(&self) -> (kind: EventKind) {
        self.kind
    }

    fn exporter(&self) -> (name: Option<String>) {
        clone_text(&self.exporter)
    }

    fn on_diagnostic(&self, diagnostic: &mut Diagnostic, opts: &DiagnosticOptions)
        ensures
            final(diagnostic)@.fields == old(diagnostic)@.fields + self.attachment(),
    {
        match &self.help {
            Some(help) => {
                diagnostic.add_field("help".to_owned(), help.clone());
                assert(diagnostic@.fields =~= old(diagnostic)@.fields + self.attachment());
            },
            None => {
                assert(diagnostic@.fields =~= old(diagnostic)@.fields + self.attachment());
            },
        }
        assert(diagnostic@.fields.skip(old(diagnostic)@.fields.len() as int)
            =~= self.attachment());
    }
}

} // verus!
