//! A uniform way to carry what went wrong, or nearly wrong, in a build.
//!
//! Producers describe each finding as an event: a value that implements
//! [`BuildEvent`]. A [`BuildDiagnostic`] owns one event together with a
//! [`Severity`], a [`BatchedBuildDiagnostic`] collects diagnostics in the order
//! in which they were reported, and rendering turns a diagnostic into a
//! [`Diagnostic`] record for whatever prints it.
//!
//! An error that has no event type of its own becomes an
//! [`UnhandleableError`], so that no failure goes unreported. An error of a
//! Node-API host can stay beside the diagnostic made from it, in a
//! [`NapiDiagnostic`].
//!
//! Every function is verified against its contract. The contracts speak of
//! an event through the spec functions of [`BuildEvent`], and of a
//! diagnostic through [`BuildDiagnostic::event`] and
//! [`BuildDiagnostic::severity_spec`].

pub mod batch;
pub mod build_diagnostic;
pub mod diagnostic;
pub mod event;
pub mod event_kind;
pub mod events;
pub mod napi_diagnostic;
pub mod opaque;
pub mod options;
pub mod severity;

pub use batch::BatchedBuildDiagnostic;
pub use build_diagnostic::BuildDiagnostic;
pub use diagnostic::{Diagnostic, DiagnosticView};
pub use event::BuildEvent;
pub use event_kind::EventKind;
pub use events::{PlainEvent, UnhandleableError};
pub use napi_diagnostic::NapiDiagnostic;
pub use options::{DiagnosticOptions, DiagnosticOptionsView};
pub use severity::Severity;
