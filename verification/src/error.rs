//! The failure taxonomy shared by every stage of the engine.

use vstd::prelude::*;

verus! {

/// What went wrong, by the place in the pipeline that noticed it.
#[derive(Clone, Copy, Debug, PartialEq, Eq, Structural)]
pub enum ErrorKind {
    /// Human input that is malformed or out of range, before any network step.
    InvalidInput,
    /// The market identity could not be resolved.
    MarketNotFound,
    /// The chain client could not assemble the order.
    BuildFailed,
    /// The chain rejected the transaction, or the network failed while sending.
    SubmissionFailed,
}

/// A failure together with the collaborator's own words about it.
#[derive(Clone, Debug, PartialEq, Eq)]
pub struct EngineError {
    pub kind: ErrorKind,
    pub detail: String,
}

/// The mathematical value of an [`EngineError`].
pub struct EngineErrorView {
    pub kind: ErrorKind,
    pub detail: Seq<char>,
}

impl View for EngineError {
    type V = EngineErrorView;

    open spec fn view(&self) -> EngineErrorView {
        EngineErrorView { kind: self.kind, detail: self.detail@ }
    }
}

impl EngineError {
    /// An error of the given kind that carries `detail` unchanged.
    pub fn new(kind: ErrorKind, detail: String) -> (e: EngineError)
        ensures
            e@ == (EngineErrorView { kind, detail: detail@ }),
    {
        EngineError { kind, detail }
    }

    /// An error of the given kind whose detail is the text of `detail`.
    pub fn with_text(kind: ErrorKind, detail: &str) -> (e: EngineError)
        ensures
            e@ == (EngineErrorView { kind, detail: detail@ }),
    {
        EngineError { kind, detail: detail.to_owned() }
    }
}

} // verus!
