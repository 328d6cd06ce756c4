//! Whole exchanges, as sequences of outcomes, and what holds of them.
//!
//! The caller runs the loops: it performs an attempt or a poll, hands the
//! outcome to the step function and does what the step says. The functions
//! here say what such a loop comes to on a given sequence of outcomes.

use vstd::prelude::*;
use serde_json::Value;
use crate::json::{json_parse, json_sole_member, json_text};
use crate::polling::{
    accepted_job, describe, poll_step, poll_target, state_of, JobView, PollStepView,
    PollingStateView, POLL_INTERVAL_SECS,
};
use crate::response::{
    error_message, has_err_marker, judge, ExchangeView, OutcomeView, WebApiErrorView, STATUS_OK,
    STATUS_TOO_MANY_REQUESTS,
};
use crate::submit::{submit_step, SubmitStepView, RETRY_DELAY_SECS};

verus! {

/// One attempt as it went: the server that was picked, and the outcome.
pub struct AttemptView {
    pub server: Seq<char>,
    pub outcome: OutcomeView,
}

/// What a submission came to: the seconds waited, and the step that ended it
/// (`None` while every attempt so far met an overload).
pub struct SubmitRun {
    pub waited: nat,
    pub end: Option<SubmitStepView>,
}

/// The submission loop on a sequence of attempts: each overload is waited out
/// and followed by the next attempt; the first other step ends the loop.
pub open spec fn run_submit(attempts: Seq<AttemptView>) -> SubmitRun
    decreases attempts.len(),
{
    if attempts.len() == 0 {
        SubmitRun { waited: 0, end: None }
    } else {
        match submit_step(attempts[0].server, attempts[0].outcome) {
            SubmitStepView::Retry { wait_secs } => {
                let rest = run_submit(attempts.skip(1));
                SubmitRun { waited: wait_secs as nat + rest.waited, end: rest.end }
            },
            step => SubmitRun { waited: 0, end: Some(step) },
        }
    }
}

/// What polling came to: the seconds waited, the addresses polled in order,
/// and the job's end (`None` while every poll so far found it running).
pub struct PollRun {
    pub waited: nat,
    pub requests: Seq<Seq<char>>,
    pub end: Option<Result<Value, Seq<char>>>,
}

/// The polling loop of a job on a sequence of outcomes: each poll goes to the
/// job's address; a running job is waited for and polled again; the first
/// other step ends the loop.
pub open spec fn run_poll(job: JobView, outcomes: Seq<OutcomeView>) -> PollRun
    decreases outcomes.len(),
{
    if outcomes.len() == 0 {
        PollRun { waited: 0, requests: Seq::empty(), end: None }
    } else {
        match poll_step(outcomes[0]) {
            PollStepView::Wait { wait_secs } => {
                let rest = run_poll(job, outcomes.skip(1));
                PollRun {
                    waited: wait_secs as nat + rest.waited,
                    requests: seq![poll_target(job)] + rest.requests,
                    end: rest.end,
                }
            },
            PollStepView::Finished(result) => PollRun {
                waited: 0,
                requests: seq![poll_target(job)],
                end: Some(result),
            },
        }
    }
}

/// What a whole dispatch came to: the seconds waited in both loops, the
/// addresses polled, and the result (`None` while the exchange is not over).
pub struct DispatchRun {
    pub waited: nat,
    pub polls: Seq<Seq<char>>,
    pub result: Option<Result<Value, Seq<char>>>,
}

/// A dispatch on the outcomes of its attempts and of its polls: submission,
/// then the reading of the answer, then polling of the job that it names.
pub open spec fn run_dispatch(attempts: Seq<AttemptView>, polls: Seq<OutcomeView>) -> DispatchRun {
    let submitted = run_submit(attempts);
    match submitted.end {
        Some(SubmitStepView::Accepted { server, reply }) => match accepted_job(server, reply) {
            Ok(job) => {
                let polled = run_poll(job, polls);
                DispatchRun {
                    waited: submitted.waited + polled.waited,
                    polls: polled.requests,
                    result: polled.end,
                }
            },
            Err(msg) => DispatchRun {
                waited: submitted.waited,
                polls: Seq::empty(),
                result: Some(Err(msg)),
            },
        },
        Some(SubmitStepView::Rejected(msg)) => DispatchRun {
            waited: submitted.waited,
            polls: Seq::empty(),
            result: Some(Err(msg)),
        },
        _ => DispatchRun { waited: submitted.waited, polls: Seq::empty(), result: None },
    }
}

/// The outcome of an attempt that met an overload.
pub open spec fn overload() -> OutcomeView {
    Err(WebApiErrorView::StatusError(STATUS_TOO_MANY_REQUESTS))
}

/// A submission that meets `k` overloads and then any other outcome ends with
/// the step of that outcome, on the server of that attempt, after waiting
/// exactly `k` times the retry delay. With an answer as that outcome the
/// submission succeeds.
pub proof fn lemma_overloads_are_waited_out(attempts: Seq<AttemptView>, k: nat)
    requires
        k < attempts.len(),
        forall|i: int| 0 <= i < k ==> (#[trigger] attempts[i]).outcome == overload(),
        attempts[k as int].outcome != overload(),
    ensures
        run_submit(attempts).waited == k * RETRY_DELAY_SECS,
        run_submit(attempts).end == Some(
            submit_step(attempts[k as int].server, attempts[k as int].outcome),
        ),
        attempts[k as int].outcome matches Ok(reply) ==> run_submit(attempts).end == Some(
            (SubmitStepView::Accepted { server: attempts[k as int].server, reply }),
        ),
    decreases k,
{
    if k > 0 {
        let rest = attempts.skip(1);
        assert forall|i: int| 0 <= i < k - 1 implies (#[trigger] rest[i]).outcome == overload() by {
            assert(rest[i] == attempts[i + 1]);
        }
        assert(rest[k - 1] == attempts[k as int]);
        lemma_overloads_are_waited_out(rest, (k - 1) as nat);
    }
}

/// An answer with a status other than 200 and 429 is a `StatusError` with that
/// status, whatever the body; a submission that starts with it is rejected at
/// once, without any wait, whatever would follow.
pub proof fn lemma_other_status_is_final(
    server: Seq<char>,
    status: u16,
    body: Seq<char>,
    later: Seq<AttemptView>,
)
    requires
        status != STATUS_OK,
        status != STATUS_TOO_MANY_REQUESTS,
    ensures
        judge((ExchangeView::Answered { status, body })) == Err::<Value, WebApiErrorView>(
            WebApiErrorView::StatusError(status),
        ),
        ({
            let first = AttemptView {
                server,
                outcome: judge((ExchangeView::Answered { status, body })),
            };
            let run = run_submit(seq![first] + later);
            run.waited == 0 && run.end == Some(
                SubmitStepView::Rejected(error_message(WebApiErrorView::StatusError(status))),
            )
        }),
{
    let first = AttemptView { server, outcome: judge((ExchangeView::Answered { status, body })) };
    assert((seq![first] + later)[0] == first);
}

/// A body whose document has an `"Err"` member is a failure under every
/// status; with status 200 the failure is an `Error` that shows the document,
/// not a `StatusError`.
pub proof fn lemma_err_marker_is_failure(status: u16, body: Seq<char>, v: Value)
    requires
        json_parse(body) == Ok::<Value, serde_json::Error>(v),
        has_err_marker(v),
    ensures
        judge((ExchangeView::Answered { status, body })) is Err,
        status == STATUS_OK ==> judge((ExchangeView::Answered { status, body })) == Err::<
            Value,
            WebApiErrorView,
        >(WebApiErrorView::Error(json_text(v))),
{
}

/// An accepted submission whose answer is not `Started` ends the dispatch
/// with a protocol error, and nothing is polled, whatever the polls would
/// have brought.
pub proof fn lemma_no_poll_without_started(
    attempts: Seq<AttemptView>,
    polls: Seq<OutcomeView>,
    server: Seq<char>,
    reply: Value,
)
    requires
        run_submit(attempts).end == Some((SubmitStepView::Accepted { server, reply })),
        !(state_of(reply) is Started),
    ensures
        run_dispatch(attempts, polls).polls.len() == 0,
        run_dispatch(attempts, polls).result == Some(
            Err::<Value, Seq<char>>(
                "webapi_post_polling response error: "@ + describe(state_of(reply)),
            ),
        ),
{
}

/// Every poll of a job goes to the status path on the server that took the
/// job, however long the job runs and however it ends.
pub proof fn lemma_polls_stay_on_server(job: JobView, outcomes: Seq<OutcomeView>)
    ensures
        forall|i: int|
            0 <= i < run_poll(job, outcomes).requests.len() ==> #[trigger] run_poll(
                job,
                outcomes,
            ).requests[i] == job.server + "/sys/query_state"@,
    decreases outcomes.len(),
{
    if outcomes.len() > 0 {
        lemma_polls_stay_on_server(job, outcomes.skip(1));
    }
}

/// The outcome of a poll that found the job in a given state.
pub open spec fn reports(outcome: OutcomeView, state: PollingStateView) -> bool {
    outcome matches Ok(v) && state_of(v) == state
}

/// A job that is found `Pending` in `k` polls and `Done` in the next ends with
/// the result of that report, unchanged, after exactly `k` waits of the poll
/// interval and `k + 1` polls.
pub proof fn lemma_pending_then_done(
    job: JobView,
    outcomes: Seq<OutcomeView>,
    k: nat,
    result: Value,
)
    requires
        k < outcomes.len(),
        forall|i: int| 0 <= i < k ==> reports(#[trigger] outcomes[i], PollingStateView::Pending),
        reports(outcomes[k as int], PollingStateView::Done(result)),
    ensures
        run_poll(job, outcomes).end == Some(Ok::<Value, Seq<char>>(result)),
        run_poll(job, outcomes).waited == k * POLL_INTERVAL_SECS,
        run_poll(job, outcomes).requests.len() == k + 1,
    decreases k,
{
    if k > 0 {
        let rest = outcomes.skip(1);
        assert forall|i: int| 0 <= i < k - 1 implies reports(
            #[trigger] rest[i],
            PollingStateView::Pending,
        ) by {
            assert(rest[i] == outcomes[i + 1]);
        }
        assert(rest[k - 1] == outcomes[k as int]);
        lemma_pending_then_done(job, rest, (k - 1) as nat, result);
    }
}

/// A dispatch polls no server but the one that took the job: every poll goes
/// to the status path on the server of the accepted attempt.
pub proof fn lemma_dispatch_is_sticky(
    attempts: Seq<AttemptView>,
    polls: Seq<OutcomeView>,
    server: Seq<char>,
    reply: Value,
)
    requires
        run_submit(attempts).end == Some((SubmitStepView::Accepted { server, reply })),
    ensures
        forall|i: int|
            0 <= i < run_dispatch(attempts, polls).polls.len() ==> #[trigger] run_dispatch(
                attempts,
                polls,
            ).polls[i] == server + "/sys/query_state"@,
{
    if let Ok(job) = accepted_job(server, reply) {
        lemma_polls_stay_on_server(job, polls);
    }
}

/// A dispatch whose submission is accepted with `Started`, and whose job is
/// then found `Pending` in `k` polls and `Done` in the next, returns the
/// result of that report, unchanged. It has waited what the submission
/// waited and `k` poll intervals, and has polled `k + 1` times.
pub proof fn lemma_dispatch_returns_result(
    attempts: Seq<AttemptView>,
    polls: Seq<OutcomeView>,
    server: Seq<char>,
    reply: Value,
    k: nat,
    result: Value,
)
    requires
        run_submit(attempts).end == Some((SubmitStepView::Accepted { server, reply })),
        state_of(reply) is Started,
        k < polls.len(),
        forall|i: int| 0 <= i < k ==> reports(#[trigger] polls[i], PollingStateView::Pending),
        reports(polls[k as int], PollingStateView::Done(result)),
    ensures
        run_dispatch(attempts, polls).result == Some(Ok::<Value, Seq<char>>(result)),
        run_dispatch(attempts, polls).waited == run_submit(attempts).waited + k
            * POLL_INTERVAL_SECS,
        run_dispatch(attempts, polls).polls.len() == k + 1,
{
    let job = accepted_job(server, reply)->Ok_0;
    lemma_pending_then_done(job, polls, k, result);
}

/// A submission that has ended stays as it is: attempts that would follow
/// its end are never made and change nothing.
pub proof fn lemma_submit_end_is_final(attempts: Seq<AttemptView>, more: Seq<AttemptView>)
    requires
        run_submit(attempts).end is Some,
    ensures
        run_submit(attempts + more) == run_submit(attempts),
    decreases attempts.len(),
{
    if attempts.len() > 0 {
        assert((attempts + more)[0] == attempts[0]);
        assert((attempts + more).skip(1) =~= attempts.skip(1) + more);
        if submit_step(attempts[0].server, attempts[0].outcome) is Retry {
            lemma_submit_end_is_final(attempts.skip(1), more);
        }
    }
}

/// A job that has ended stays as it is: `Done` and failure are terminal, no
/// poll follows them, and outcomes that would follow change nothing.
pub proof fn lemma_poll_end_is_final(job: JobView, outcomes: Seq<OutcomeView>, more: Seq<OutcomeView>)
    requires
        run_poll(job, outcomes).end is Some,
    ensures
        run_poll(job, outcomes + more) == run_poll(job, outcomes),
    decreases outcomes.len(),
{
    if outcomes.len() > 0 {
        assert((outcomes + more)[0] == outcomes[0]);
        assert((outcomes + more).skip(1) =~= outcomes.skip(1) + more);
        if poll_step(outcomes[0]) is Wait {
            lemma_poll_end_is_final(job, outcomes.skip(1), more);
        }
    }
}

/// Each state has its place: only `Started` answers a submission, and
/// `Started` never answers a poll. A poll goes on after `Pending` alone.
pub proof fn lemma_states_keep_their_place(server: Seq<char>, v: Value)
    ensures
        accepted_job(server, v) is Ok <==> state_of(v) is Started,
        accepted_job(server, v) matches Ok(job) ==> job.server == server,
        state_of(v) is Started ==> poll_step(Ok(v)) == PollStepView::Finished(
            Err("poll_state error: "@ + describe(state_of(v))),
        ),
        poll_step(Ok(v)) is Wait <==> state_of(v) is Pending,
        poll_step(Ok(v)) matches PollStepView::Finished(Ok(_)) <==> state_of(v) is Done,
{
}

/// The result of a finished job is what the report holds under `"Done"`, as
/// it was parsed: a poll hands it on without any change.
pub proof fn lemma_done_passes_through(v: Value)
    requires
        state_of(v) is Done,
    ensures
        json_sole_member(v, "Done"@) is Some,
        poll_step(Ok(v)) == PollStepView::Finished(Ok(json_sole_member(v, "Done"@)->0)),
{
}

} // verus!
