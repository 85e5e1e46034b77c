use vstd::prelude::*;
use crate::severity::Severity;

verus! {

/// One rendered finding: what the output layers print. It is made anew by
/// each rendering and keeps no tie to the diagnostic it was rendered from.
#[derive(Debug)]
pub struct Diagnostic {
    kind: String,
    message: String,
    severity: Severity,
    fields: Vec<(String, String)>,
}

/// What a [`Diagnostic`] stands for in contracts.
pub struct DiagnosticView {
    /// The string form of the event's kind.
    pub kind: Seq<char>,
    /// The event's message.
    pub message: Seq<char>,
    /// The severity of the diagnostic at the time of rendering.
    pub severity: Severity,
    /// What the event attached, as pairs of a name and a value, in the
    /// order of attaching.
    pub fields: Seq<(Seq<char>, Seq<char>)>,
}

/// The pairs of a list of fields, each string taken by its view.
pub open spec fn fields_view(fields: Seq<(String, String)>) -> Seq<(Seq<char>, Seq<char>)> {
    Seq::new(fields.len(), |i: int| (fields[i].0@, fields[i].1@))
}

impl View for Diagnostic {
    type V = DiagnosticView;

    closed spec fn view(&self) -> DiagnosticView {
        DiagnosticView {
            kind: self.kind@,
            message: self.message@,
            severity: self.severity,
            fields: fields_view(self.fields@),
        }
    }
}

impl Diagnostic {
    /// Makes a diagnostic with the three general parts and no attached
    /// field.
    pub fn new(kind: String, message: String, severity: Severity) -> (diagnostic: Self)
        ensures
            diagnostic@ == (DiagnosticView {
                kind: kind@,
                message: message@,
                severity,
                fields: Seq::empty(),
            }),
    {
        let diagnostic = Diagnostic { kind, message, severity, fields: Vec::new() };
        assert(fields_view(diagnostic.fields@) =~= Seq::empty());
        diagnostic
    }

    /// The string form of the event's kind.
    pub fn kind(&self) -> (kind: &str)
        ensures
            kind@ == self@.kind,
    {
        self.kind.as_str()
    }

    /// The event's message.
    pub fn message(&self) -> (message: &str)
        ensures
            message@ == self@.message,
    {
        self.message.as_str()
    }

    /// Whether the finding fails the build.
    pub fn severity(&self) -> (severity: Severity)
        ensures
            severity == self@.severity,
    {
        self.severity
    }

    /// The attached fields, in the order of attaching.
    pub fn fields(&self) -> (fields: &Vec<(String, String)>)
        ensures
            fields_view(fields@) == self@.fields,
    {
        &self.fields
    }

    /// Attaches one more field after those that are there. The three general
    /// parts stay as they are.
    pub fn add_field(&mut self, name: String, value: String)
        ensures
            final(self)@ == (DiagnosticView {
                fields: old(self)@.fields.push((name@, value@)),
                ..old(self)@
            }),
    {
        self.fields.push((name, value));
        assert(fields_view(self.fields@) =~= fields_view(old(self).fields@).push((name@, value@)));
    }
}

} // verus!
