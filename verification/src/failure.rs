//! The ways in which a request can fail.

use vstd::prelude::*;

verus! {

/// Why a request could not be served.
#[derive(Debug)]
pub enum Failure {
    /// A call to an upstream service failed, or its answer could not be
    /// read. Holds what the client reported.
    Upstream(String),
    /// The keyword names no emote, neither in the broadcaster's set nor
    /// globally.
    NotFound,
    /// The download, the conversion or the move of an asset failed. Holds
    /// what the step reported.
    Pipeline(String),
    /// The request could not be parsed. Holds the reason.
    MalformedRequest(String),
}

/// What a failure is to the specifications.
pub enum FailureView {
    Upstream(Seq<char>),
    NotFound,
    Pipeline(Seq<char>),
    MalformedRequest(Seq<char>),
}

impl View for Failure {
    type V = FailureView;

    open spec fn view(&self) -> FailureView {
        match self {
            Failure::Upstream(report) => FailureView::Upstream(report@),
            Failure::NotFound => FailureView::NotFound,
            Failure::Pipeline(report) => FailureView::Pipeline(report@),
            Failure::MalformedRequest(reason) => FailureView::MalformedRequest(reason@),
        }
    }
}

impl FailureView {
    /// The text that describes the failure.
    pub open spec fn message(self) -> Seq<char> {
        match self {
            FailureView::Upstream(report) => report,
            FailureView::NotFound => "Emote not found"@,
            FailureView::Pipeline(report) => report,
            FailureView::MalformedRequest(reason) => reason,
        }
    }
}

impl Clone for Failure {
    fn clone(&self) -> (res: Self)
        ensures
            res@ == self@,
    {
        match self {
            Failure::Upstream(report) => Failure::Upstream(report.clone()),
            Failure::NotFound => Failure::NotFound,
            Failure::Pipeline(report) => Failure::Pipeline(report.clone()),
            Failure::MalformedRequest(reason) => Failure::MalformedRequest(reason.clone()),
        }
    }
}

impl Failure {
    /// The text that describes the failure.
    pub fn message(&self) -> (text: String)
        ensures
            text@ == self@.message(),
    {
        match self {
            Failure::Upstream(report) => report.clone(),
            Failure::NotFound => "Emote not found".to_owned(),
            Failure::Pipeline(report) => report.clone(),
            Failure::MalformedRequest(reason) => reason.clone(),
        }
    }
}

} // verus!
