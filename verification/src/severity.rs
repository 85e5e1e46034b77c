use vstd::prelude::*;

verus! {

/// Whether a finding fails the build or is only reported.
#[derive(Debug, Clone, Copy, PartialEq, Eq, Structural)]
pub enum Severity {
    /// The build has failed.
    Error,
    /// The build goes on; the finding is shown beside its result.
    Warning,
}

} // verus!
