//! Submission: which server is asked, and what follows from its answer.

use vstd::prelude::*;
use vstd::string::StringExecFns;
use serde_json::Value;
use crate::config::WebApiConfig;
use crate::response::{
    error_message, outcome_view, Outcome, OutcomeView, WebApiError, WebApiErrorView,
    STATUS_TOO_MANY_REQUESTS,
};

verus! {

/// Seconds to wait before a submission is repeated after an overload.
pub const RETRY_DELAY_SECS: u64 = 60;

/// One attempt to submit: the server that was picked and the address to post to.
#[derive(Debug)]
pub struct Attempt {
    pub server: String,
    pub url: String,
}

/// What follows from the outcome of one attempt.
#[derive(Debug)]
pub enum SubmitStep {
    /// The server took the request; `reply` is its answer.
    Accepted { server: String, reply: Value },
    /// The submission failed for good, with this message.
    Rejected(String),
    /// The server is overloaded: wait, then pick again and repeat.
    Retry { wait_secs: u64 },
}

/// A `SubmitStep` with its texts as sequences of characters.
pub enum SubmitStepView {
    Accepted { server: Seq<char>, reply: Value },
    Rejected(Seq<char>),
    Retry { wait_secs: u64 },
}

impl View for SubmitStep {
    type V = SubmitStepView;

    open spec fn view(&self) -> SubmitStepView {
        match self {
            SubmitStep::Accepted { server, reply } => SubmitStepView::Accepted {
                server: server@,
                reply: *reply,
            },
            SubmitStep::Rejected(msg) => SubmitStepView::Rejected(msg@),
            SubmitStep::Retry { wait_secs } => SubmitStepView::Retry { wait_secs: *wait_secs },
        }
    }
}

/// The step that an outcome leads to: an answer is accepted, an overload is
/// waited out, and every other error is final.
pub open spec fn submit_step(server: Seq<char>, outcome: OutcomeView) -> SubmitStepView {
    match outcome {
        Ok(reply) => SubmitStepView::Accepted { server, reply },
        Err(WebApiErrorView::StatusError(code)) => if code == STATUS_TOO_MANY_REQUESTS {
            SubmitStepView::Retry { wait_secs: RETRY_DELAY_SECS }
        } else {
            SubmitStepView::Rejected(error_message(WebApiErrorView::StatusError(code)))
        },
        Err(WebApiErrorView::Error(msg)) => SubmitStepView::Rejected(msg),
    }
}

/// The address of a resource on a server: the server's base address followed
/// by the path, with nothing put between them. A base address ends without a
/// slash, and a path begins with one.
pub fn resource_url(server: &str, path: &str) -> (r: String)
    ensures
        r@ == server@ + path@,
{
    String::from_str(server).concat(path)
}

/// Prepares one attempt: picks a server at random among the configured ones
/// and builds the address of `path` on it.
pub fn next_attempt(config: &WebApiConfig, path: &str) -> (r: Attempt)
    requires
        config.wf(),
    ensures
        config.has_server(r.server@),
        r.url@ == r.server@ + path@,
{
    let server = config.pick_server().clone();
    let url = resource_url(server.as_str(), path);
    Attempt { server, url }
}

/// Decides what follows from the outcome of an attempt on `server`.
///
/// An answer ends the submission and is bound to the server that gave it.
/// Status 429 asks for a wait of `RETRY_DELAY_SECS` and another attempt,
/// without any limit on their number. Every other error ends the submission
/// at once.
pub fn webapi_post_pick(server: String, outcome: Outcome) -> (r: SubmitStep)
    ensures
        r@ == submit_step(server@, outcome_view(outcome)),
{
    match outcome {
        Ok(reply) => SubmitStep::Accepted { server, reply },
        Err(WebApiError::Error(msg)) => SubmitStep::Rejected(msg),
        Err(WebApiError::StatusError(code)) => {
            if code == STATUS_TOO_MANY_REQUESTS {
                SubmitStep::Retry { wait_secs: RETRY_DELAY_SECS }
            } else {
                SubmitStep::Rejected(WebApiError::StatusError(code).message())
            }
        },
    }
}

} // verus!
