use build_diagnostic::events::{PlainEvent, UnhandleableError};
use build_diagnostic::{BuildEvent, Diagnostic, DiagnosticOptions, EventKind, Severity};

#[test]
fn each_kind_has_its_string_form() {
    assert_eq!(EventKind::ParseError.to_string(), "PARSE_ERROR");
    assert_eq!(EventKind::UnresolvedImport.to_string(), "UNRESOLVED_IMPORT");
    assert_eq!(EventKind::PluginError.to_string(), "PLUGIN_ERROR");
    assert_eq!(EventKind::UnsupportedFeature.to_string(), "UNSUPPORTED_FEATURE");
    assert_eq!(EventKind::NapiError.to_string(), "NAPI_ERROR");
    assert_eq!(EventKind::UnhandleableError.to_string(), "UNHANDLEABLE_ERROR");
}

#[test]
fn string_forms_of_kinds_differ() {
    let kinds = [
        EventKind::ParseError,
        EventKind::UnresolvedImport,
        EventKind::PluginError,
        EventKind::UnsupportedFeature,
        EventKind::NapiError,
        EventKind::UnhandleableError,
    ];
    for (i, a) in kinds.iter().enumerate() {
        assert!(!a.to_string().is_empty());
        for (j, b) in kinds.iter().enumerate() {
            assert_eq!(a.to_string() == b.to_string(), i == j);
            assert_eq!(a == b, i == j);
        }
    }
}

#[test]
fn severity_is_copied_and_compared() {
    let severity = Severity::Warning;
    let copy = severity;
    assert_eq!(severity, copy);
    assert_ne!(Severity::Error, Severity::Warning);
}

#[test]
fn default_options_have_an_empty_cwd() {
    assert_eq!(DiagnosticOptions::default().cwd, "");
}

#[test]
fn new_diagnostic_has_no_fields() {
    let diagnostic = Diagnostic::new("KIND".to_string(), "words".to_string(), Severity::Warning);
    assert_eq!(diagnostic.kind(), "KIND");
    assert_eq!(diagnostic.message(), "words");
    assert_eq!(diagnostic.severity(), Severity::Warning);
    assert!(diagnostic.fields().is_empty());
}

#[test]
fn add_field_appends_and_keeps_the_rest() {
    let mut diagnostic = Diagnostic::new("KIND".to_string(), "words".to_string(), Severity::Error);
    diagnostic.add_field("span".to_string(), "3:14".to_string());
    diagnostic.add_field("help".to_string(), "try again".to_string());
    diagnostic.add_field("span".to_string(), "3:14".to_string());
    assert_eq!(diagnostic.kind(), "KIND");
    assert_eq!(diagnostic.message(), "words");
    assert_eq!(diagnostic.severity(), Severity::Error);
    assert_eq!(
        diagnostic.fields(),
        &vec![
            ("span".to_string(), "3:14".to_string()),
            ("help".to_string(), "try again".to_string()),
            ("span".to_string(), "3:14".to_string()),
        ]
    );
}

#[test]
fn plain_event_says_what_it_was_given() {
    let opts = DiagnosticOptions::default();
    let event = PlainEvent::new(EventKind::PluginError, "failed".to_string());
    assert_eq!(event.kind(), EventKind::PluginError);
    assert_eq!(event.message(&opts), "failed");
    assert_eq!(event.id(), None);
    assert_eq!(event.exporter(), None);
    let event = event
        .with_id("P7".to_string())
        .with_exporter("plugin-x".to_string())
        .with_help("update the plugin".to_string());
    assert_eq!(event.kind(), EventKind::PluginError);
    assert_eq!(event.message(&opts), "failed");
    assert_eq!(event.id(), Some("P7".to_string()));
    assert_eq!(event.exporter(), Some("plugin-x".to_string()));
}

#[test]
fn plain_event_message_is_the_same_under_all_options() {
    let event = PlainEvent::new(EventKind::ParseError, "fixed".to_string());
    assert_eq!(event.message(&DiagnosticOptions { cwd: "/a".to_string() }), "fixed");
    assert_eq!(event.message(&DiagnosticOptions { cwd: "".to_string() }), "fixed");
}

#[test]
fn plain_event_attaches_its_help_after_what_is_there() {
    let opts = DiagnosticOptions::default();
    let mut diagnostic = Diagnostic::new("K".to_string(), "m".to_string(), Severity::Warning);
    diagnostic.add_field("span".to_string(), "1:1".to_string());
    let event = PlainEvent::new(EventKind::ParseError, "m".to_string())
        .with_help("look here".to_string());
    event.on_diagnostic(&mut diagnostic, &opts);
    assert_eq!(diagnostic.kind(), "K");
    assert_eq!(diagnostic.message(), "m");
    assert_eq!(diagnostic.severity(), Severity::Warning);
    assert_eq!(
        diagnostic.fields(),
        &vec![
            ("span".to_string(), "1:1".to_string()),
            ("help".to_string(), "look here".to_string()),
        ]
    );
}

#[test]
fn plain_event_without_help_attaches_nothing() {
    let opts = DiagnosticOptions::default();
    let mut diagnostic = Diagnostic::new("K".to_string(), "m".to_string(), Severity::Error);
    PlainEvent::new(EventKind::ParseError, "m".to_string()).on_diagnostic(&mut diagnostic, &opts);
    assert!(diagnostic.fields().is_empty());
}

#[test]
fn unhandleable_error_event_says_only_its_text() {
    let opts = DiagnosticOptions { cwd: "/x".to_string() };
    let event = UnhandleableError::new("broken pipe".to_string());
    assert_eq!(event.kind(), EventKind::UnhandleableError);
    assert_eq!(event.message(&opts), "broken pipe");
    assert_eq!(event.id(), None);
    assert_eq!(event.exporter(), None);
    let mut diagnostic = Diagnostic::new("K".to_string(), "m".to_string(), Severity::Error);
    event.on_diagnostic(&mut diagnostic, &opts);
    assert!(diagnostic.fields().is_empty());
    assert_eq!(diagnostic.message(), "m");
}
