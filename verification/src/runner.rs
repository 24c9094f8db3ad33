//! One check from end to end: the walk, then the rules.
//!
//! A walk that ended with a response is judged by the rules. A walk that
//! ended without one is not: it gives a single verdict that names the
//! failure and the URL requested last.

use crate::checking::{
    check_response, response_outcomes, result_views, status_outcome, status_state,
    CheckParameters, CheckResult, CheckResultView, State,
};
use crate::connection::{
    lemma_stopped_walk_stays, redirect_target, start, step_spec, walk, walk_spec,
    ConnectionConfig, HopEvent, SocketAddress, WalkError, WalkErrorKind, WalkErrorView,
    WalkState, WalkStateView, WalkView,
};
use crate::http::{ClientConfig, FinalResponse, Response};
use crate::output::worst_state;
use vstd::prelude::*;
use vstd::string::StringExecFns;

verus! {

/// The state of a walk that ended without a response: unknown where the
/// name did not resolve or the response was malformed, critical where the
/// connection failed, the deadline passed or the redirects did not end.
pub open spec fn failure_state(kind: WalkErrorKind) -> State {
    match kind {
        WalkErrorKind::Resolution => State::Unknown,
        WalkErrorKind::Protocol => State::Unknown,
        WalkErrorKind::Connection => State::Crit,
        WalkErrorKind::Timeout => State::Crit,
        WalkErrorKind::RedirectLimit => State::Crit,
    }
}

/// The name of a failure in the summary.
pub open spec fn failure_name(kind: WalkErrorKind) -> Seq<char> {
    match kind {
        WalkErrorKind::Resolution => "name resolution failed"@,
        WalkErrorKind::Protocol => "malformed response"@,
        WalkErrorKind::Connection => "connection failed"@,
        WalkErrorKind::Timeout => "timeout"@,
        WalkErrorKind::RedirectLimit => "too many redirects"@,
    }
}

/// The verdict on a walk that ended without a response.
pub open spec fn failure_outcome(error: WalkErrorView) -> CheckResultView {
    CheckResultView {
        state: failure_state(error.kind),
        summary: failure_name(error.kind) + ": "@ + error.target,
        details: None,
    }
}

/// The verdict on a walk that has not ended: a check without an answer
/// knows nothing of its target.
pub open spec fn unfinished_outcome(walk: WalkView) -> CheckResultView {
    CheckResultView { state: State::Unknown, summary: "no response: "@ + walk.url, details: None }
}

/// The verdicts on a walk, at the time `now` in seconds since 1970.
pub open spec fn walk_outcomes(state: WalkStateView, params: CheckParameters, now: u64) -> Seq<
    CheckResultView,
> {
    match state {
        WalkStateView::StoppedOk(response) => response_outcomes(response, params, now),
        WalkStateView::StoppedByPolicy(response) => response_outcomes(response, params, now),
        WalkStateView::StoppedLimit(error) => seq![failure_outcome(error)],
        WalkStateView::Failed(error) => seq![failure_outcome(error)],
        WalkStateView::Following(walk) => seq![unfinished_outcome(walk)],
    }
}

/// The verdict on a walk that ended without a response.
pub fn check_failure(error: &WalkError) -> (r: CheckResult)
    ensures
        r@ == failure_outcome(error@),
{
    let state = match error.kind {
        WalkErrorKind::Resolution => State::Unknown,
        WalkErrorKind::Protocol => State::Unknown,
        WalkErrorKind::Connection => State::Crit,
        WalkErrorKind::Timeout => State::Crit,
        WalkErrorKind::RedirectLimit => State::Crit,
    };
    let name = match error.kind {
        WalkErrorKind::Resolution => "name resolution failed",
        WalkErrorKind::Protocol => "malformed response",
        WalkErrorKind::Connection => "connection failed",
        WalkErrorKind::Timeout => "timeout",
        WalkErrorKind::RedirectLimit => "too many redirects",
    };
    let mut summary = name.to_owned();
    summary.append(": ");
    summary.append(error.target.as_str());
    CheckResult { state, summary, details: None }
}

/// A list that holds one verdict.
fn single(result: CheckResult) -> (r: Vec<CheckResult>)
    ensures
        result_views(r@) == seq![result@],
{
    let mut results: Vec<CheckResult> = Vec::new();
    results.push(result);
    assert(result_views(results@) =~= seq![result@]);
    results
}

/// The verdicts on a walk, at the time `now` in seconds since 1970.
pub fn check_walk(state: &WalkState, params: &CheckParameters, now: u64) -> (r: Vec<CheckResult>)
    ensures
        result_views(r@) == walk_outcomes(state@, *params, now),
{
    match state {
        WalkState::StoppedOk(response) => check_response(response, params, now),
        WalkState::StoppedByPolicy(response) => check_response(response, params, now),
        WalkState::StoppedLimit(error) => single(check_failure(error)),
        WalkState::Failed(error) => single(check_failure(error)),
        WalkState::Following(walk) => {
            let mut summary = "no response: ".to_owned();
            summary.append(walk.url.as_str());
            single(CheckResult { state: State::Unknown, summary, details: None })
        },
    }
}

/// Runs one check against a target whose answers are known in advance:
/// `script` holds what the transport hands back, request by request, and
/// `now` is the time in seconds since 1970.
pub fn collect_checks(
    client_config: &ClientConfig,
    connection_cfg: &ConnectionConfig,
    check_params: &CheckParameters,
    script: Vec<HopEvent>,
    now: u64,
) -> (r: Vec<CheckResult>)
    ensures
        result_views(r@) == walk_outcomes(
            walk_spec(
                *connection_cfg,
                WalkStateView::Following(
                    WalkView { url: client_config.url@, hops: 0, origin: None },
                ),
                script@,
            ),
            *check_params,
            now,
        ),
{
    let end = walk(connection_cfg, start(client_config), script);
    check_walk(&end, check_params, now)
}

/// A walk that ended without a response gives exactly one verdict, and that
/// verdict is critical or unknown: a failed exchange never counts as fine.
pub proof fn lemma_failure_is_never_fine(error: WalkErrorView, params: CheckParameters, now: u64)
    ensures
        walk_outcomes(WalkStateView::Failed(error), params, now) == seq![failure_outcome(error)],
        walk_outcomes(WalkStateView::StoppedLimit(error), params, now) == seq![
            failure_outcome(error),
        ],
        failure_outcome(error).state == State::Crit || failure_outcome(error).state
            == State::Unknown,
        error.kind == WalkErrorKind::Timeout ==> failure_outcome(error).state == State::Crit,
        error.kind == WalkErrorKind::RedirectLimit ==> failure_outcome(error).state == State::Crit,
{
}

/// A target that answers the first request with a response that does not
/// redirect, judged without thresholds, gets the verdict of the status rule
/// alone, and the worst state is the state of its status code: fine for a
/// success, a warning for a client error, critical for a server error.
pub proof fn lemma_single_answer(
    policy: ConnectionConfig,
    url: Seq<char>,
    response: Response,
    peer: SocketAddress,
    params: CheckParameters,
    now: u64,
)
    requires
        redirect_target(response) is None,
        params.page_size is None,
        params.response_time_levels is None,
        params.document_age_levels is None,
    ensures
        ({
            let end = walk_spec(
                policy,
                WalkStateView::Following(WalkView { url, hops: 0, origin: None }),
                seq![HopEvent::Answered(response, peer)],
            );
            let verdicts = walk_outcomes(end, params, now);
            &&& end == WalkStateView::StoppedOk(FinalResponse { response, redirects: 0 })
            &&& verdicts == seq![
                status_outcome(FinalResponse { response, redirects: 0 }, params.onredirect),
            ]
            &&& worst_state(verdicts) == status_state(response.status, params.onredirect)
            &&& 200 <= response.status < 300 ==> worst_state(verdicts) == State::Okay
            &&& 400 <= response.status < 500 ==> worst_state(verdicts) == State::Warn
            &&& 500 <= response.status < 600 ==> worst_state(verdicts) == State::Crit
        }),
{
    let start = WalkView { url, hops: 0, origin: None };
    let events = seq![HopEvent::Answered(response, peer)];
    let last = FinalResponse { response, redirects: 0 };
    assert(events[0] == HopEvent::Answered(response, peer));
    lemma_stopped_walk_stays(policy, step_spec(policy, start, events[0]), events.skip(1));
    assert(walk_spec(policy, WalkStateView::Following(start), events) == WalkStateView::StoppedOk(
        last,
    ));
    assert(response_outcomes(last, params, now) =~= seq![status_outcome(last, params.onredirect)]);
}

} // verus!
