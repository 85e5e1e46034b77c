use vstd::prelude::*;
use vstd::std_specs::convert::FromSpecImpl;
use crate::build_diagnostic::BuildDiagnostic;
use crate::event::{says_only, BuildEvent};
use crate::event_kind::EventKind;
use crate::severity::Severity;

verus! {

/// The diagnostics of one build, in the order in which they were reported.
/// A diagnostic may occur more than once, and an empty batch says that
/// there was nothing to report.
#[derive(Debug)]
pub struct BatchedBuildDiagnostic<E = Box<dyn BuildEvent>>(Vec<BuildDiagnostic<E>>);

impl<E> View for BatchedBuildDiagnostic<E> {
    type V = Seq<BuildDiagnostic<E>>;

    /// The diagnostics of the batch, the first reported first.
    open spec fn view(&self) -> Seq<BuildDiagnostic<E>> {
        self.items()@
    }
}

impl<E> BatchedBuildDiagnostic<E> {
    /// The vector that the batch holds.
    pub closed spec fn items(&self) -> Vec<BuildDiagnostic<E>> {
        self.0
    }

    /// The batch that holds `vec`.
    pub closed spec fn of(vec: Vec<BuildDiagnostic<E>>) -> Self {
        BatchedBuildDiagnostic(vec)
    }

    /// Makes a batch of the diagnostics in `vec`, in their order.
    pub fn new(vec: Vec<BuildDiagnostic<E>>) -> (batch: Self)
        ensures
            batch == Self::of(vec),
            batch.items() == vec,
            batch@ == vec@,
    {
        BatchedBuildDiagnostic(vec)
    }

    /// Hands the diagnostics out, in their order.
    pub fn into_vec(self) -> (vec: Vec<BuildDiagnostic<E>>)
        ensures
            vec == self.items(),
            vec@ == self@,
    {
        self.0
    }

    /// The batch changed as the vector that it holds: whatever is done to
    /// the vector through the reference is done to the batch.
    pub fn deref_mut(&mut self) -> (vec: &mut Vec<BuildDiagnostic<E>>)
        ensures
            *vec == old(self).items(),
            final(self).items() == *final(vec),
    {
        &mut self.0
    }

    /// A batch made of a vector hands that vector out again: nothing is
    /// added, lost or moved.
    pub proof fn lemma_round_trip(vec: Vec<BuildDiagnostic<E>>)
        ensures
            Self::of(vec).items() == vec,
            Self::of(vec)@ == vec@,
    {
    }
}

impl<E> Default for BatchedBuildDiagnostic<E> {
    /// The empty batch.
    fn default() -> (batch: Self)
        ensures
            batch@ == Seq::<BuildDiagnostic<E>>::empty(),
    {
        BatchedBuildDiagnostic(Vec::new())
    }
}

impl<E> core::ops::Deref for BatchedBuildDiagnostic<E> {
    type Target = Vec<BuildDiagnostic<E>>;

    /// The batch read as the vector that it holds.
    fn deref(&self) -> (vec: &Vec<BuildDiagnostic<E>>)
        ensures
            *vec == self.items(),
    {
        &self.0
    }
}

impl<E> From<Vec<BuildDiagnostic<E>>> for BatchedBuildDiagnostic<E> {
    /// The batch of the diagnostics in `v`, in their order.
    fn from(v: Vec<BuildDiagnostic<E>>) -> (batch: Self)
        ensures
            batch == Self::of(v),
            batch.items() == v,
            batch@ == v@,
    {
        Self::new(v)
    }
}

impl<E> FromSpecImpl<Vec<BuildDiagnostic<E>>> for BatchedBuildDiagnostic<E> {
    open spec fn obeys_from_spec() -> bool {
        true
    }

    open spec fn from_spec(v: Vec<BuildDiagnostic<E>>) -> Self {
        Self::of(v)
    }
}

impl<E> From<BuildDiagnostic<E>> for BatchedBuildDiagnostic<E> {
    /// The batch that holds `v` and nothing else.
    fn from(v: BuildDiagnostic<E>) -> (batch: Self)
        ensures
            batch@ == seq![v],
    {
        Self::new(vec![v])
    }
}

/// What the conversion gives is stated by the `ensures` of `from`, over the
/// content of the batch: a vector has more to it than its content, so no
/// spec function gives the batch itself.
impl<E> FromSpecImpl<BuildDiagnostic<E>> for BatchedBuildDiagnostic<E> {
    open spec fn obeys_from_spec() -> bool {
        false
    }

    open spec fn from_spec(v: BuildDiagnostic<E>) -> Self {
        arbitrary()
    }
}

impl From<anyhow::Error> for BatchedBuildDiagnostic<Box<dyn BuildEvent>> {
    /// The batch of the one diagnostic that wraps `err` as an error without
    /// an event type of its own.
    fn from(err: anyhow::Error) -> (batch: Self)
        ensures
            batch@.len() == 1,
            batch@[0].severity_spec() == Severity::Error,
            batch@[0].event().kind_spec() == EventKind::UnhandleableError,
            exists|text: Seq<char>| says_only(batch@[0].event(), EventKind::UnhandleableError, text),
    {
        let diagnostic = BuildDiagnostic::unhandleable_error(err);
        let batch = BatchedBuildDiagnostic::from(diagnostic);
        batch
    }
}

/// What the conversion gives is stated by the `ensures` of `from`: the text
/// of an error is not a spec function of the error.
impl FromSpecImpl<anyhow::Error> for BatchedBuildDiagnostic<Box<dyn BuildEvent>> {
    open spec fn obeys_from_spec() -> bool {
        false
    }

    open spec fn from_spec(err: anyhow::Error) -> Self {
        arbitrary()
    }
}

} // verus!
