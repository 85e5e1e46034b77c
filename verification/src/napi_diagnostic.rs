use vstd::prelude::*;
use crate::build_diagnostic::BuildDiagnostic;
use crate::event::{lemma_boxed_event, says_only, BuildEvent};
use crate::event_kind::EventKind;
use crate::events::PlainEvent;
use crate::severity::Severity;

verus! {

/// A diagnostic together with the error of the host runtime that it was
/// made from, if it was made from one.
///
/// A failure that reaches the build from a Node-API host is reported like
/// any other finding, and the error that carried it is kept beside the
/// diagnostic, so that it can be handed back to the host as it came.
///
/// `H` is the type of the host's errors, `napi::Error` where the build runs
/// under such a host. The library reads nothing from a value of it.
pub struct NapiDiagnostic<H, E = Box<dyn BuildEvent>> {
    diagnostic: BuildDiagnostic<E>,
    napi_error: Option<H>,
}

impl<H, E: BuildEvent> NapiDiagnostic<H, E> {
    /// The diagnostic.
    pub closed spec fn diagnostic_spec(&self) -> BuildDiagnostic<E> {
        self.diagnostic
    }

    /// The host error that the diagnostic was made from; `None` where it
    /// was made from none.
    pub closed spec fn napi_error_spec(&self) -> Option<H> {
        self.napi_error
    }

    /// Takes a diagnostic that no host error stands behind.
    pub fn new(diagnostic: BuildDiagnostic<E>) -> (wrapped: Self)
        ensures
            wrapped.diagnostic_spec() == diagnostic,
            wrapped.napi_error_spec() is None,
    {
        NapiDiagnostic { diagnostic, napi_error: None }
    }

    /// Tells whether a host error stands behind the diagnostic: gives that
    /// error where one does, and the diagnostic itself where none does.
    /// Nothing is changed either way.
    pub fn downcast_napi_error(&self) -> (found: Result<&H, &BuildDiagnostic<E>>)
        ensures
            match found {
                Ok(napi_error) => self.napi_error_spec() == Some(*napi_error),
                Err(diagnostic) => self.napi_error_spec() is None
                    && *diagnostic == self.diagnostic_spec(),
            },
    {
        match &self.napi_error {
            Some(napi_error) => Ok(napi_error),
            None => Err(&self.diagnostic),
        }
    }

    /// Gives the same back with the diagnostic demoted to `Warning`. The
    /// host error stays.
    #[must_use]
    pub fn with_severity_warning(self) -> (wrapped: Self)
        ensures
            wrapped.diagnostic_spec() == self.diagnostic_spec().demoted(),
            wrapped.napi_error_spec() == self.napi_error_spec(),
    {
        NapiDiagnostic {
            diagnostic: self.diagnostic.with_severity_warning(),
            napi_error: self.napi_error,
        }
    }

    /// Gives up the host error and hands the diagnostic out.
    pub fn into_diagnostic(self) -> (diagnostic: BuildDiagnostic<E>)
        ensures
            diagnostic == self.diagnostic_spec(),
    {
        self.diagnostic
    }
}

impl<H> NapiDiagnostic<H, Box<dyn BuildEvent>> {
    /// Wraps an error of the host, given with the reason that it states:
    /// the diagnostic has severity `Error`, its event has the kind
    /// `NapiError` and says `reason` and nothing more, and the error is
    /// kept.
    pub fn napi_error(reason: String, err: H) -> (wrapped: Self)
        ensures
            wrapped.napi_error_spec() == Some(err),
            wrapped.diagnostic_spec().severity_spec() == Severity::Error,
            says_only(wrapped.diagnostic_spec().event(), EventKind::NapiError, reason@),
    {
        let event: Box<dyn BuildEvent> = Box::new(PlainEvent::new(EventKind::NapiError, reason));
        proof {
            lemma_boxed_event(event);
        }
        let diagnostic = BuildDiagnostic::new_inner(event);
        NapiDiagnostic { diagnostic, napi_error: Some(err) }
    }
}

impl<H, E: BuildEvent> core::ops::Deref for NapiDiagnostic<H, E> {
    type Target = BuildDiagnostic<E>;

    /// The diagnostic, which answers as it does without a host error
    /// beside it.
    fn deref(&self) -> (diagnostic: &BuildDiagnostic<E>)
        ensures
            *diagnostic == self.diagnostic_spec(),
    {
        &self.diagnostic
    }
}

} // verus!
