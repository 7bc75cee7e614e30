//! The conditional fetch, as decisions: a download that may carry the
//! token of the last one, so that the source can answer that nothing has
//! changed, and then leaves what is on disk alone.
//!
//! Nothing here touches the disk or the network. `start` names the first
//! step, the caller performs each step and reports what came of it, and
//! `advance` names the next. A step that fails on the caller's side (the
//! network is down, the disk is full) ends the fetch there, with the
//! caller's error.

use vstd::prelude::*;
use crate::template::option_view;

verus! {

/// The status with which a source says that what the token stands for is
/// still current.
pub const NOT_MODIFIED: u16 = 304;

/// What to do with an answer.
#[derive(Debug, PartialEq, Eq)]
pub enum FetchOutcome {
    /// The source did not answer with success: the download has failed
    /// with this status, and nothing is written.
    Rejected { status: u16 },
    /// The bytes on disk are current: nothing is written.
    NotModified,
    /// The answer carries new bytes: they are written over the archive
    /// file, and after them `token`, where there is one, is kept in the
    /// token file.
    Store { token: Option<String> },
}

/// An outcome as plain values.
pub enum FetchOutcomeView {
    Rejected { status: u16 },
    NotModified,
    Store { token: Option<Seq<char>> },
}

impl View for FetchOutcome {
    type V = FetchOutcomeView;

    open spec fn view(&self) -> FetchOutcomeView {
        match *self {
            FetchOutcome::Rejected { status } => FetchOutcomeView::Rejected { status },
            FetchOutcome::NotModified => FetchOutcomeView::NotModified,
            FetchOutcome::Store { token } => FetchOutcomeView::Store { token: option_view(token) },
        }
    }
}

/// The statuses that stand for success.
pub open spec fn is_success_status(status: u16) -> bool {
    200 <= status <= 299
}

/// What an answer with `status` and the token `etag` leads to: "not
/// modified" leaves everything as it is, success is stored, and every
/// other status fails the download.
pub open spec fn response_outcome(status: u16, etag: Option<Seq<char>>) -> FetchOutcomeView {
    if status == NOT_MODIFIED {
        FetchOutcomeView::NotModified
    } else if is_success_status(status) {
        FetchOutcomeView::Store { token: etag }
    } else {
        FetchOutcomeView::Rejected { status }
    }
}

impl FetchOutcomeView {
    /// Whether the archive file is written anew.
    pub open spec fn was_modified(self) -> bool {
        self is Store
    }
}

/// Decides what to do with the answer to a fetch: `status` is the status
/// of the answer, `etag` the token that it carries, if any. A status that
/// is neither success nor "not modified" fails the download; no second
/// attempt is made.
pub fn after_response(status: u16, etag: Option<String>) -> (r: FetchOutcome)
    ensures
        r@ == response_outcome(status, option_view(etag)),
{
    if status == NOT_MODIFIED {
        FetchOutcome::NotModified
    } else if 200 <= status && status <= 299 {
        FetchOutcome::Store { token: etag }
    } else {
        FetchOutcome::Rejected { status }
    }
}

impl FetchOutcome {
    /// Whether the archive file is written anew.
    pub fn was_modified(&self) -> (r: bool)
        ensures
            r == self@.was_modified(),
    {
        match self {
            FetchOutcome::Store { .. } => true,
            _ => false,
        }
    }
}

/// What has to be done next in a fetch.
#[derive(Debug, PartialEq, Eq)]
pub enum FetchStep {
    /// Read the token of the last download, where one is stored and can
    /// be read.
    ReadToken,
    /// Ask the source, on condition of the token where there is one, and
    /// without a condition where there is none.
    Request { if_none_match: Option<String> },
    /// Write the body of the answer over the destination. `etag` is the
    /// token that the answer carries; it is not written yet.
    WriteBody { etag: Option<String> },
    /// The new bytes are in the destination: now keep `token` in the
    /// token file.
    WriteToken { token: String },
    /// The fetch is over; `modified` says whether the destination was
    /// written anew.
    Done { modified: bool },
    /// The download has failed with this status. Nothing was written.
    Failed { status: u16 },
}

/// What came of a step of a fetch.
#[derive(Debug, PartialEq, Eq)]
pub enum FetchEvent {
    /// The token that is stored, if any.
    Token { token: Option<String> },
    /// The source answered with `status`; the answer carries the token
    /// `etag`, or none.
    Response { status: u16, etag: Option<String> },
    /// The body is in the destination, all of it.
    BodyWritten,
    /// The token is in the token file.
    TokenWritten,
}

/// A step of a fetch as plain values.
pub enum FetchStepView {
    ReadToken,
    Request { if_none_match: Option<Seq<char>> },
    WriteBody { etag: Option<Seq<char>> },
    WriteToken { token: Seq<char> },
    Done { modified: bool },
    Failed { status: u16 },
}

/// An event of a fetch as plain values.
pub enum FetchEventView {
    Token { token: Option<Seq<char>> },
    Response { status: u16, etag: Option<Seq<char>> },
    BodyWritten,
    TokenWritten,
}

impl View for FetchStep {
    type V = FetchStepView;

    open spec fn view(&self) -> FetchStepView {
        match *self {
            FetchStep::ReadToken => FetchStepView::ReadToken,
            FetchStep::Request { if_none_match } => FetchStepView::Request {
                if_none_match: option_view(if_none_match),
            },
            FetchStep::WriteBody { etag } => FetchStepView::WriteBody { etag: option_view(etag) },
            FetchStep::WriteToken { token } => FetchStepView::WriteToken { token: token@ },
            FetchStep::Done { modified } => FetchStepView::Done { modified },
            FetchStep::Failed { status } => FetchStepView::Failed { status },
        }
    }
}

impl View for FetchEvent {
    type V = FetchEventView;

    open spec fn view(&self) -> FetchEventView {
        match *self {
            FetchEvent::Token { token } => FetchEventView::Token { token: option_view(token) },
            FetchEvent::Response { status, etag } => FetchEventView::Response {
                status,
                etag: option_view(etag),
            },
            FetchEvent::BodyWritten => FetchEventView::BodyWritten,
            FetchEvent::TokenWritten => FetchEventView::TokenWritten,
        }
    }
}

/// Where a fetch starts. One that is conditional reads the stored token
/// first. One that is not asks the source at once and sends no token,
/// whatever is stored.
pub open spec fn first_fetch_step(conditional: bool) -> FetchStepView {
    if conditional {
        FetchStepView::ReadToken
    } else {
        FetchStepView::Request { if_none_match: None }
    }
}

/// The step to which an outcome leads.
pub open spec fn outcome_step(outcome: FetchOutcomeView) -> FetchStepView {
    match outcome {
        FetchOutcomeView::Rejected { status } => FetchStepView::Failed { status },
        FetchOutcomeView::NotModified => FetchStepView::Done { modified: false },
        FetchOutcomeView::Store { token } => FetchStepView::WriteBody { etag: token },
    }
}

/// The step that follows `step` when `event` came of it; `None` where
/// `event` is not what `step` can end in.
///
/// The request carries the token that was read. An answer that says "not
/// modified" ends the fetch with nothing written; one that is no success
/// fails it with nothing written. A success has its body written, and
/// only when that is done the token that it carries.
pub open spec fn next_fetch_step(step: FetchStepView, event: FetchEventView) -> Option<
    FetchStepView,
> {
    match (step, event) {
        (FetchStepView::ReadToken, FetchEventView::Token { token }) => Some(
            FetchStepView::Request { if_none_match: token },
        ),
        (FetchStepView::Request { .. }, FetchEventView::Response { status, etag }) => Some(
            outcome_step(response_outcome(status, etag)),
        ),
        (FetchStepView::WriteBody { etag: Some(t) }, FetchEventView::BodyWritten) => Some(
            FetchStepView::WriteToken { token: t },
        ),
        (FetchStepView::WriteBody { etag: None }, FetchEventView::BodyWritten) => Some(
            FetchStepView::Done { modified: true },
        ),
        (FetchStepView::WriteToken { .. }, FetchEventView::TokenWritten) => Some(
            FetchStepView::Done { modified: true },
        ),
        _ => None,
    }
}

/// A source that answers "not modified" leaves the destination as it is:
/// the fetch is over at once, and reports no change.
pub proof fn lemma_not_modified_writes_nothing(
    token: Option<Seq<char>>,
    etag: Option<Seq<char>>,
)
    ensures
        next_fetch_step(
            FetchStepView::Request { if_none_match: token },
            FetchEventView::Response { status: NOT_MODIFIED, etag },
        ) == Some(FetchStepView::Done { modified: false }),
{
}

/// Every status that is neither success nor "not modified" fails the
/// download, and a download fails on nothing else. It fails straight
/// from the request: no step that writes lies before it.
pub proof fn lemma_failure_writes_nothing(step: FetchStepView, event: FetchEventView, status: u16)
    ensures
        next_fetch_step(step, event) == Some(FetchStepView::Failed { status }) <==> {
            &&& step is Request
            &&& event matches FetchEventView::Response { status: s, .. }
            &&& s == status
            &&& status != NOT_MODIFIED
            &&& !is_success_status(status)
        },
{
}

/// The token is written only after the body: the step that writes it
/// follows on nothing but the report that the body is in the destination,
/// and it writes the token that the answer carried.
pub proof fn lemma_token_after_body(step: FetchStepView, event: FetchEventView, token: Seq<char>)
    ensures
        next_fetch_step(step, event) == Some(FetchStepView::WriteToken { token }) <==> step
            == (FetchStepView::WriteBody { etag: Some(token) }) && event is BodyWritten,
{
}

/// The body of an answer is written only where the answer is a success.
pub proof fn lemma_body_of_success_only(
    step: FetchStepView,
    event: FetchEventView,
    token: Option<Seq<char>>,
)
    ensures
        next_fetch_step(step, event) == Some(FetchStepView::WriteBody { etag: token }) <==> {
            &&& step is Request
            &&& event matches FetchEventView::Response { status, etag }
            &&& is_success_status(status)
            &&& etag == token
        },
{
}

/// A change is reported only when body and token are written.
pub proof fn lemma_modified_means_stored(step: FetchStepView, event: FetchEventView)
    requires
        next_fetch_step(step, event) == Some(FetchStepView::Done { modified: true }),
    ensures
        (step == (FetchStepView::WriteBody { etag: None }) && event is BodyWritten) || (step
            is WriteToken && event is TokenWritten),
{
}

/// The first step of a fetch. A fetch that is not conditional sends no
/// token, whatever is stored.
pub fn start(conditional: bool) -> (r: FetchStep)
    ensures
        r@ == first_fetch_step(conditional),
{
    if conditional {
        FetchStep::ReadToken
    } else {
        FetchStep::Request { if_none_match: None }
    }
}

/// The step that follows `step`, given what came of it.
pub fn advance(step: FetchStep, event: FetchEvent) -> (r: Option<FetchStep>)
    ensures
        match r {
            Some(next) => next_fetch_step(step@, event@) == Some(next@),
            None => next_fetch_step(step@, event@) is None,
        },
{
    match (step, event) {
        (FetchStep::ReadToken, FetchEvent::Token { token }) => Some(
            FetchStep::Request { if_none_match: token },
        ),
        (FetchStep::Request { .. }, FetchEvent::Response { status, etag }) => {
            match after_response(status, etag) {
                FetchOutcome::Rejected { status } => Some(FetchStep::Failed { status }),
                FetchOutcome::NotModified => Some(FetchStep::Done { modified: false }),
                FetchOutcome::Store { token } => Some(FetchStep::WriteBody { etag: token }),
            }
        },
        (FetchStep::WriteBody { etag: Some(t) }, FetchEvent::BodyWritten) => Some(
            FetchStep::WriteToken { token: t },
        ),
        (FetchStep::WriteBody { etag: None }, FetchEvent::BodyWritten) => Some(
            FetchStep::Done { modified: true },
        ),
        (FetchStep::WriteToken { .. }, FetchEvent::TokenWritten) => Some(
            FetchStep::Done { modified: true },
        ),
        _ => None,
    }
}

} // verus!
