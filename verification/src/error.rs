//! The failures that end a request.

use vstd::prelude::*;

verus! {

/// Why a request was given up, with a message for the one who sent it. No
/// failure of moderation is among them: a frame that cannot be judged gets a
/// verdict that says so.
#[derive(Clone, Debug, PartialEq, Eq)]
pub enum PipelineError {
    /// The source locator is no absolute URL.
    InvalidInput(String),
    /// The source could not be fetched.
    FetchFailure(String),
    /// The decoder could not be run, or failed.
    ExtractionFailure(String),
}

/// What a [`PipelineError`] holds.
pub enum PipelineErrorView {
    InvalidInput(Seq<char>),
    FetchFailure(Seq<char>),
    ExtractionFailure(Seq<char>),
}

impl PipelineErrorView {
    /// The message of the failure.
    pub open spec fn message(self) -> Seq<char> {
        match self {
            PipelineErrorView::InvalidInput(m) => m,
            PipelineErrorView::FetchFailure(m) => m,
            PipelineErrorView::ExtractionFailure(m) => m,
        }
    }
}

impl View for PipelineError {
    type V = PipelineErrorView;

    open spec fn view(&self) -> PipelineErrorView {
        match self {
            PipelineError::InvalidInput(m) => PipelineErrorView::InvalidInput(m@),
            PipelineError::FetchFailure(m) => PipelineErrorView::FetchFailure(m@),
            PipelineError::ExtractionFailure(m) => PipelineErrorView::ExtractionFailure(m@),
        }
    }
}

impl PipelineError {
    /// The message of the failure.
    pub fn message(&self) -> (r: &str)
        ensures
            r@ == self@.message(),
    {
        match self {
            PipelineError::InvalidInput(m) => m.as_str(),
            PipelineError::FetchFailure(m) => m.as_str(),
            PipelineError::ExtractionFailure(m) => m.as_str(),
        }
    }

    /// A copy of the failure.
    pub fn duplicate(&self) -> (r: PipelineError)
        ensures
            r@ == self@,
    {
        match self {
            PipelineError::InvalidInput(m) => PipelineError::InvalidInput(m.clone()),
            PipelineError::FetchFailure(m) => PipelineError::FetchFailure(m.clone()),
            PipelineError::ExtractionFailure(m) => PipelineError::ExtractionFailure(m.clone()),
        }
    }
}

} // verus!
