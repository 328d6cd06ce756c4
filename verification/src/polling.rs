//! The state of a job, as a server reports it, and the polling that follows
//! an accepted submission.

use vstd::prelude::*;
use vstd::string::StringExecFns;
use serde_json::Value;
use crate::json::{json_shape, json_sole_member, json_str, json_text, json_u64};
use crate::json;
use crate::response::{error_message, outcome_view, Outcome, OutcomeView};
use crate::submit::resource_url;
use crate::text::{decimal, decimal_string};

verus! {

/// Seconds between two polls of a job that is still running.
pub const POLL_INTERVAL_SECS: u64 = 30;

/// What a server reports of a job.
#[derive(Debug)]
pub enum PollingState {
    /// The job was taken and has this handle. The answer to a submission.
    Started(u64),
    /// The job is still running. An answer to a poll.
    Pending,
    /// The job is finished, with this result. An answer to a poll.
    Done(Value),
    /// Any other document; the text shows it.
    Unexpected(String),
}

/// A `PollingState` with its text as a sequence of characters.
pub enum PollingStateView {
    Started(u64),
    Pending,
    Done(Value),
    Unexpected(Seq<char>),
}

impl View for PollingState {
    type V = PollingStateView;

    open spec fn view(&self) -> PollingStateView {
        match self {
            PollingState::Started(handle) => PollingStateView::Started(*handle),
            PollingState::Pending => PollingStateView::Pending,
            PollingState::Done(result) => PollingStateView::Done(*result),
            PollingState::Unexpected(shown) => PollingStateView::Unexpected(shown@),
        }
    }
}

/// Whether a document says `Pending`: it is the string `"Pending"`, or an
/// object whose only key is `"Pending"`, with null under it.
pub open spec fn says_pending(v: Value) -> bool {
    ||| json_str(v) == Some("Pending"@)
    ||| (json_sole_member(v, "Pending"@) is Some && json_shape(
        json_sole_member(v, "Pending"@)->0,
    ) is Null)
}

/// The handle that a document reports as started: the unsigned integer under
/// `"Started"`, where that is the only key of an object.
pub open spec fn started_handle(v: Value) -> Option<u64> {
    match json_sole_member(v, "Started"@) {
        Some(handle) => json_u64(handle),
        None => None,
    }
}

/// The state that a document stands for. A state is written as an object
/// with a single key, the state's name, over what the state carries; a state
/// that carries nothing may be written as its bare name. Every other
/// document is unexpected.
pub open spec fn state_of(v: Value) -> PollingStateView {
    if says_pending(v) {
        PollingStateView::Pending
    } else if started_handle(v) is Some {
        PollingStateView::Started(started_handle(v)->0)
    } else if json_sole_member(v, "Done"@) is Some {
        PollingStateView::Done(json_sole_member(v, "Done"@)->0)
    } else {
        PollingStateView::Unexpected(json_text(v))
    }
}

/// A state in words, for error messages.
pub open spec fn describe(state: PollingStateView) -> Seq<char> {
    match state {
        PollingStateView::Started(handle) => "Started("@ + decimal(handle as nat) + ")"@,
        PollingStateView::Pending => "Pending"@,
        PollingStateView::Done(result) => "Done("@ + json_text(result) + ")"@,
        PollingStateView::Unexpected(shown) => shown,
    }
}

/// The member under a key of an object that has this key and no other.
pub fn sole_member(v: &Value, key: &str) -> (r: Option<Value>)
    ensures
        r == json_sole_member(*v, key@),
{
    match json::member_count(v) {
        Some(n) => if n == 1 {
            json::member(v, key)
        } else {
            None
        },
        None => None,
    }
}

impl PollingState {
    /// Reads the state that a document stands for.
    pub fn decode(v: &Value) -> (r: PollingState)
        ensures
            r@ == state_of(*v),
    {
        let named = match json::as_string(v) {
            Some(s) => s == String::from_str("Pending"),
            None => false,
        };
        if named {
            return PollingState::Pending;
        }
        if let Some(unit) = sole_member(v, "Pending") {
            if json::is_null(&unit) {
                return PollingState::Pending;
            }
        }
        if let Some(started) = sole_member(v, "Started") {
            if let Some(handle) = json::as_u64(&started) {
                return PollingState::Started(handle);
            }
        }
        match sole_member(v, "Done") {
            Some(result) => PollingState::Done(result),
            None => PollingState::Unexpected(json::text_of(v)),
        }
    }

    /// The state in words.
    pub fn describe(&self) -> (r: String)
        ensures
            r@ == describe(self@),
    {
        match self {
            PollingState::Started(handle) => {
                let digits = decimal_string(*handle);
                String::from_str("Started(").concat(digits.as_str()).concat(")")
            },
            PollingState::Pending => String::from_str("Pending"),
            PollingState::Done(result) => {
                let shown = json::text_of(result);
                String::from_str("Done(").concat(shown.as_str()).concat(")")
            },
            PollingState::Unexpected(shown) => shown.clone(),
        }
    }
}

/// A job that a server has taken: its handle, bound to that server. Every
/// poll of the job goes to this server.
#[derive(Debug, Clone)]
pub struct Job {
    pub server: String,
    pub handle: u64,
}

/// A `Job` with its server as a sequence of characters.
pub struct JobView {
    pub server: Seq<char>,
    pub handle: u64,
}

impl View for Job {
    type V = JobView;

    open spec fn view(&self) -> JobView {
        JobView { server: self.server@, handle: self.handle }
    }
}

/// The address that the polls of a job go to: the fixed status path
/// `/sys/query_state` on the job's own server.
pub open spec fn poll_target(job: JobView) -> Seq<char> {
    job.server + "/sys/query_state"@
}

/// What the answer to a submission means: a job on the server that answered,
/// or the message of a protocol error where the answer is not `Started`.
pub open spec fn accepted_job(server: Seq<char>, reply: Value) -> Result<JobView, Seq<char>> {
    match state_of(reply) {
        PollingStateView::Started(handle) => Ok(JobView { server, handle }),
        other => Err("webapi_post_polling response error: "@ + describe(other)),
    }
}

/// The view of what `Job::accept` returns.
pub open spec fn job_result_view(r: Result<Job, String>) -> Result<JobView, Seq<char>> {
    match r {
        Ok(job) => Ok(job@),
        Err(msg) => Err(msg@),
    }
}

/// What follows from one poll.
#[derive(Debug)]
pub enum PollStep {
    /// The job has ended: with its result, or with the message of a failure.
    Finished(Result<Value, String>),
    /// The job is still running: wait, then poll the same server again.
    Wait { wait_secs: u64 },
}

/// A `PollStep` with its message as a sequence of characters.
pub enum PollStepView {
    Finished(Result<Value, Seq<char>>),
    Wait { wait_secs: u64 },
}

impl View for PollStep {
    type V = PollStepView;

    open spec fn view(&self) -> PollStepView {
        match self {
            PollStep::Finished(Ok(result)) => PollStepView::Finished(Ok(*result)),
            PollStep::Finished(Err(msg)) => PollStepView::Finished(Err(msg@)),
            PollStep::Wait { wait_secs } => PollStepView::Wait { wait_secs: *wait_secs },
        }
    }
}

/// The step that the outcome of a poll leads to. `Done` ends the job with its
/// result as it came; `Pending` is waited out; every error and every other
/// state ends the job with a message. An overload gets no second try here.
pub open spec fn poll_step(outcome: OutcomeView) -> PollStepView {
    match outcome {
        Err(e) => PollStepView::Finished(Err(error_message(e))),
        Ok(v) => match state_of(v) {
            PollingStateView::Done(result) => PollStepView::Finished(Ok(result)),
            PollingStateView::Pending => PollStepView::Wait { wait_secs: POLL_INTERVAL_SECS },
            other => PollStepView::Finished(Err("poll_state error: "@ + describe(other))),
        },
    }
}

impl Job {
    /// Reads the answer to a submission. It has to be `Started`: then the job
    /// is bound to the server that answered. Any other answer is a protocol
    /// error, and no job exists that could be polled.
    pub fn accept(server: String, reply: &Value) -> (r: Result<Job, String>)
        ensures
            job_result_view(r) == accepted_job(server@, *reply),
    {
        match PollingState::decode(reply) {
            PollingState::Started(handle) => Ok(Job { server, handle }),
            other => {
                let shown = other.describe();
                Err(String::from_str("webapi_post_polling response error: ").concat(shown.as_str()))
            },
        }
    }

    /// The address to poll: always on the server that took the job.
    pub fn poll_url(&self) -> (r: String)
        ensures
            r@ == poll_target(self@),
    {
        resource_url(self.server.as_str(), "/sys/query_state")
    }

    /// The body of a poll: the job's handle as a JSON number.
    pub fn poll_body(&self) -> (r: Value)
        ensures
            json_u64(r) == Some(self.handle),
    {
        json::from_u64(self.handle)
    }
}

/// Decides what follows from the outcome of one poll.
pub fn webapi_post_polling(outcome: Outcome) -> (r: PollStep)
    ensures
        r@ == poll_step(outcome_view(outcome)),
{
    match outcome {
        Err(e) => PollStep::Finished(Err(e.message())),
        Ok(v) => match PollingState::decode(&v) {
            PollingState::Done(result) => PollStep::Finished(Ok(result)),
            PollingState::Pending => PollStep::Wait { wait_secs: POLL_INTERVAL_SECS },
            other => {
                let shown = other.describe();
                PollStep::Finished(Err(String::from_str("poll_state error: ").concat(shown.as_str())))
            },
        },
    }
}

} // verus!
