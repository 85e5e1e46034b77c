use vstd::prelude::*;

verus! {

/// The category of an event. The set is closed, so that whoever consumes
/// diagnostics can treat every category without knowing the event types.
#[derive(Debug, Clone, Copy, PartialEq, Eq, Structural)]
pub enum EventKind {
    /// A source file could not be parsed.
    ParseError,
    /// An import could not be resolved to a module.
    UnresolvedImport,
    /// A plugin reported a failure.
    PluginError,
    /// The input uses something that is not supported.
    UnsupportedFeature,
    /// An error that came from the host runtime.
    NapiError,
    /// An error that has no event type of its own.
    UnhandleableError,
}

impl EventKind {
    /// The string form of the kind, as a rendered diagnostic carries it.
    pub open spec fn name(self) -> Seq<char> {
        match self {
            EventKind::ParseError => "PARSE_ERROR"@,
            EventKind::UnresolvedImport => "UNRESOLVED_IMPORT"@,
            EventKind::PluginError => "PLUGIN_ERROR"@,
            EventKind::UnsupportedFeature => "UNSUPPORTED_FEATURE"@,
            EventKind::NapiError => "NAPI_ERROR"@,
            EventKind::UnhandleableError => "UNHANDLEABLE_ERROR"@,
        }
    }

    /// Returns the string form of the kind.
    pub fn to_string(&self) -> (name: String)
        ensures
            name@ == self.name(),
    {
        match self {
            EventKind::ParseError => "PARSE_ERROR".to_owned(),
            EventKind::UnresolvedImport => "UNRESOLVED_IMPORT".to_owned(),
            EventKind::PluginError => "PLUGIN_ERROR".to_owned(),
            EventKind::UnsupportedFeature => "UNSUPPORTED_FEATURE".to_owned(),
            EventKind::NapiError => "NAPI_ERROR".to_owned(),
            EventKind::UnhandleableError => "UNHANDLEABLE_ERROR".to_owned(),
        }
    }

    /// Every kind has a string form of at least one character.
    pub proof fn lemma_name_not_empty(self)
        ensures
            self.name().len() > 0,
    {
        reveal_strlit("PARSE_ERROR");
        reveal_strlit("UNRESOLVED_IMPORT");
        reveal_strlit("PLUGIN_ERROR");
        reveal_strlit("UNSUPPORTED_FEATURE");
        reveal_strlit("NAPI_ERROR");
        reveal_strlit("UNHANDLEABLE_ERROR");
    }

    /// Two kinds with the same string form are the same kind: the string in a
    /// rendered diagnostic tells which kind of event it came from.
    pub proof fn lemma_name_identifies_kind(self, other: EventKind)
        requires
            self.name() == other.name(),
        ensures
            self == other,
    {
        reveal_strlit("PARSE_ERROR");
        reveal_strlit("UNRESOLVED_IMPORT");
        reveal_strlit("PLUGIN_ERROR");
        reveal_strlit("UNSUPPORTED_FEATURE");
        reveal_strlit("NAPI_ERROR");
        reveal_strlit("UNHANDLEABLE_ERROR");
        assert("PARSE_ERROR"@.len() == 11);
        assert("UNRESOLVED_IMPORT"@.len() == 17);
        assert("PLUGIN_ERROR"@.len() == 12);
        assert("UNSUPPORTED_FEATURE"@.len() == 19);
        assert("NAPI_ERROR"@.len() == 10);
        assert("UNHANDLEABLE_ERROR"@.len() == 18);
    }
}

} // verus!
