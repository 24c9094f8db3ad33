//! The rules of the HTTP probe.
//!
//! Each rule looks at one aspect of the final response and gives at most one
//! verdict. A rule whose thresholds are not configured gives none, and so
//! does a rule whose data the response does not hold. No rule looks at the
//! verdict of another.

use crate::connection::OnRedirect;
use crate::http::{
    find_header, header_value, standard_reason, status_line, status_line_text, FinalResponse,
    Version,
};
use crate::text::{decimal, decimal_text};
use std::time::Duration;
use vstd::prelude::*;
use vstd::string::StringExecFns;

verus! {

/// How bad a verdict is. The order is `Okay < Warn < Crit < Unknown`.
#[derive(Clone, Copy, Debug, PartialEq, Eq, PartialOrd, Ord, Hash, Structural)]
pub enum State {
    Okay,
    Warn,
    Crit,
    Unknown,
}

impl State {
    /// The place of a state in the order of severity, and the exit code
    /// that monitoring frontends expect for it.
    pub open spec fn rank(self) -> nat {
        match self {
            State::Okay => 0,
            State::Warn => 1,
            State::Crit => 2,
            State::Unknown => 3,
        }
    }

    /// The more severe of two states.
    pub open spec fn spec_worse(self, other: State) -> State {
        if self.rank() >= other.rank() {
            self
        } else {
            other
        }
    }

    /// The name of a state in the output of the probe.
    pub open spec fn spec_name(self) -> Seq<char> {
        match self {
            State::Okay => "OK"@,
            State::Warn => "WARNING"@,
            State::Crit => "CRITICAL"@,
            State::Unknown => "UNKNOWN"@,
        }
    }

    /// The exit code for a state: 0, 1, 2 or 3 in the order of severity.
    pub fn exit_code(&self) -> (r: u8)
        ensures
            r == self.rank(),
    {
        match self {
            State::Okay => 0,
            State::Warn => 1,
            State::Crit => 2,
            State::Unknown => 3,
        }
    }

    /// The more severe of two states.
    pub fn worse(self, other: State) -> (r: State)
        ensures
            r == self.spec_worse(other),
    {
        if self.exit_code() >= other.exit_code() {
            self
        } else {
            other
        }
    }

    /// The name of a state in the output of the probe.
    pub fn name(&self) -> (r: &'static str)
        ensures
            r@ == self.spec_name(),
    {
        match self {
            State::Okay => "OK",
            State::Warn => "WARNING",
            State::Crit => "CRITICAL",
            State::Unknown => "UNKNOWN",
        }
    }
}

/// The verdict of one rule.
#[derive(Debug, PartialEq, Eq)]
pub struct CheckResult {
    pub state: State,
    /// The fragment of the summary line that this verdict contributes.
    pub summary: String,
    /// A line of diagnostics for the detail section, if the rule has one.
    pub details: Option<String>,
}

/// The model of a [`CheckResult`].
pub struct CheckResultView {
    pub state: State,
    pub summary: Seq<char>,
    pub details: Option<Seq<char>>,
}

impl View for CheckResult {
    type V = CheckResultView;

    open spec fn view(&self) -> CheckResultView {
        CheckResultView {
            state: self.state,
            summary: self.summary@,
            details: match self.details {
                Some(d) => Some(d@),
                None => None,
            },
        }
    }
}

impl Clone for CheckResult {
    fn clone(&self) -> (r: Self)
        ensures
            r@ == self@,
    {
        CheckResult {
            state: self.state,
            summary: self.summary.clone(),
            details: match &self.details {
                Some(d) => Some(d.clone()),
                None => None,
            },
        }
    }
}

/// The models of a list of verdicts, in order.
pub open spec fn result_views(results: Seq<CheckResult>) -> Seq<CheckResultView> {
    results.map_values(|r: CheckResult| r@)
}

/// The model of an optional verdict.
pub open spec fn opt_result_view(result: Option<CheckResult>) -> Option<CheckResultView> {
    match result {
        Some(r) => Some(r@),
        None => None,
    }
}

/// The accepted range of a size in bytes, open on either side.
#[derive(Clone, Copy, Debug, PartialEq, Eq, Structural)]
pub struct Bounds {
    pub min: Option<usize>,
    pub max: Option<usize>,
}

impl Bounds {
    /// Bounds are well formed where the lower one is not above the upper.
    pub open spec fn well_formed(self) -> bool {
        self.min matches Some(min) ==> self.max matches Some(max) ==> min <= max
    }

    /// Bounds with the lower one not above the upper; `None` for any other
    /// pair.
    pub fn new(min: Option<usize>, max: Option<usize>) -> (r: Option<Bounds>)
        ensures
            r == if (Bounds { min, max }).well_formed() {
                Some(Bounds { min, max })
            } else {
                None
            },
    {
        match (min, max) {
            (Some(lower), Some(upper)) => if lower <= upper {
                Some(Bounds { min, max })
            } else {
                None
            },
            _ => Some(Bounds { min, max }),
        }
    }

    /// Whether `size` lies within the bounds, each bound included.
    pub open spec fn spec_holds(self, size: usize) -> bool {
        &&& self.min matches Some(min) ==> min <= size
        &&& self.max matches Some(max) ==> size <= max
    }

    /// Whether `size` lies within the bounds, each bound included.
    pub fn holds(&self, size: usize) -> (r: bool)
        ensures
            r == self.spec_holds(size),
    {
        let above = match self.min {
            Some(min) => min <= size,
            None => true,
        };
        let below = match self.max {
            Some(max) => size <= max,
            None => true,
        };
        above && below
    }
}

/// Two thresholds for a measured value. A value that reaches `crit` is
/// critical; one that reaches `warn` and not `crit` is a warning.
#[derive(Clone, Copy, Debug, PartialEq, Eq, Structural)]
pub struct UpperLevels {
    pub warn: u64,
    pub crit: u64,
}

impl UpperLevels {
    /// Levels are well formed where the warning threshold is not above the
    /// critical one.
    pub open spec fn well_formed(self) -> bool {
        self.warn <= self.crit
    }

    /// Levels with the warning threshold not above the critical one; `None`
    /// for any other pair.
    pub fn new(warn: u64, crit: u64) -> (r: Option<UpperLevels>)
        ensures
            r == if warn <= crit {
                Some(UpperLevels { warn, crit })
            } else {
                None
            },
    {
        if warn <= crit {
            Some(UpperLevels { warn, crit })
        } else {
            None
        }
    }

    /// The state of a measured value. The critical threshold is looked at
    /// first, so it decides where `warn` is not below `crit`.
    pub open spec fn spec_evaluate(self, value: u64) -> State {
        if value >= self.crit {
            State::Crit
        } else if value >= self.warn {
            State::Warn
        } else {
            State::Okay
        }
    }

    /// The state of a measured value.
    pub fn evaluate(&self, value: u64) -> (r: State)
        ensures
            r == self.spec_evaluate(value),
    {
        if value >= self.crit {
            State::Crit
        } else if value >= self.warn {
            State::Warn
        } else {
            State::Okay
        }
    }
}

/// The thresholds of one check. A rule without thresholds is not run.
#[derive(Clone, Copy, Debug, PartialEq, Eq)]
pub struct CheckParameters {
    /// How a redirect that was not followed is judged.
    pub onredirect: OnRedirect,
    /// The accepted size of the body in bytes.
    pub page_size: Option<Bounds>,
    /// The thresholds of the response time, in milliseconds.
    pub response_time_levels: Option<UpperLevels>,
    /// The thresholds of the age of the document, in seconds.
    pub document_age_levels: Option<UpperLevels>,
    pub timeout: Duration,
}

impl CheckParameters {
    /// Thresholds are well formed where each pair that is configured is.
    pub open spec fn well_formed(&self) -> bool {
        &&& self.page_size matches Some(bounds) ==> bounds.well_formed()
        &&& self.response_time_levels matches Some(levels) ==> levels.well_formed()
        &&& self.document_age_levels matches Some(levels) ==> levels.well_formed()
    }

    /// Whether the thresholds are well formed.
    pub fn is_well_formed(&self) -> (r: bool)
        ensures
            r == self.well_formed(),
    {
        let size = match self.page_size {
            Some(Bounds { min: Some(min), max: Some(max) }) => min <= max,
            _ => true,
        };
        let time = match self.response_time_levels {
            Some(levels) => levels.warn <= levels.crit,
            None => true,
        };
        let age = match self.document_age_levels {
            Some(levels) => levels.warn <= levels.crit,
            None => true,
        };
        size && time && age
    }
}

/// The state that a status code stands for.
///
/// A success is fine, a client error a warning, a server error critical. A
/// redirect that reaches the rules was not followed: it is judged as the
/// mode says, and is fine in a mode that follows, where it names no
/// location to go to. A code of no class says nothing of the target.
pub open spec fn status_state(status: u16, onredirect: OnRedirect) -> State {
    if 200 <= status < 300 {
        State::Okay
    } else if 300 <= status < 400 {
        match onredirect {
            OnRedirect::Warning => State::Warn,
            OnRedirect::Unknown => State::Unknown,
            _ => State::Okay,
        }
    } else if 400 <= status < 500 {
        State::Warn
    } else if 500 <= status < 600 {
        State::Crit
    } else {
        State::Unknown
    }
}

/// The verdict of the status rule: the state of the code, the status line
/// as the summary, and the request line as the detail.
pub open spec fn status_outcome(response: FinalResponse, onredirect: OnRedirect) -> CheckResultView {
    CheckResultView {
        state: status_state(response.response.status, onredirect),
        summary: status_line_text(
            response.response.version,
            response.response.status,
            standard_reason(response.response.status),
        ),
        details: Some(response.response.request_line@),
    }
}

/// The verdict of the response-time rule, if it is configured.
pub open spec fn response_time_outcome(elapsed_ms: u64, levels: Option<UpperLevels>) -> Option<
    CheckResultView,
> {
    match levels {
        None => None,
        Some(levels) => Some(
            CheckResultView {
                state: levels.spec_evaluate(elapsed_ms),
                summary: "Response time: "@ + decimal_text(elapsed_ms as nat) + " ms"@,
                details: None,
            },
        ),
    }
}

/// The verdict of the page-size rule, if it is configured and the body was
/// fetched. A size out of bounds is a warning, never more.
pub open spec fn page_size_outcome(size: Option<usize>, bounds: Option<Bounds>) -> Option<
    CheckResultView,
> {
    match (size, bounds) {
        (Some(size), Some(bounds)) => Some(
            CheckResultView {
                state: if bounds.spec_holds(size) {
                    State::Okay
                } else {
                    State::Warn
                },
                summary: "Page size: "@ + decimal_text(size as nat) + " Bytes"@,
                details: None,
            },
        ),
        _ => None,
    }
}

/// The age in seconds of a document last modified at `modified`, seen at
/// `now`; zero for a document from the future.
pub open spec fn age(now: u64, modified: u64) -> u64 {
    if now >= modified {
        (now - modified) as u64
    } else {
        0
    }
}

/// What the response says of the time of its last modification.
#[derive(Clone, Copy, Debug, PartialEq, Eq, Structural)]
pub enum Staleness {
    /// The response has no `Last-Modified` field.
    Missing,
    /// The field holds no date.
    Undecodable,
    /// The field holds this date, in seconds since 1970.
    At(u64),
}

/// The verdict of the document-age rule, if it is configured and the
/// response says when the document was last modified. A response that does
/// not is no failure: the rule gives no verdict. A field that holds no
/// date is a malformed response.
pub open spec fn document_age_outcome(now: u64, staleness: Staleness, levels: Option<UpperLevels>)
    -> Option<CheckResultView> {
    match levels {
        None => None,
        Some(levels) => match staleness {
            Staleness::Missing => None,
            Staleness::Undecodable => Some(
                CheckResultView {
                    state: State::Unknown,
                    summary: "Can't decode document age"@,
                    details: None,
                },
            ),
            Staleness::At(modified) => Some(
                CheckResultView {
                    state: levels.spec_evaluate(age(now, modified)),
                    summary: "Document age: "@ + decimal_text(age(now, modified) as nat)
                        + " seconds"@,
                    details: None,
                },
            ),
        },
    }
}

/// The seconds since 1970 of a date in one of the formats of HTTP.
pub uninterp spec fn http_date_seconds(text: Seq<char>) -> Option<u64>;

/// `httpdate::parse_http_date`, with the time it returns counted in whole
/// seconds from `UNIX_EPOCH`: `None` where the text holds no date.
#[verifier::external_body]
pub(crate) fn parse_http_date(text: &str) -> (r: Option<u64>)
    ensures
        r == http_date_seconds(text@),
{
    match httpdate::parse_http_date(text) {
        Ok(time) => match time.duration_since(std::time::UNIX_EPOCH) {
            Ok(since) => Some(since.as_secs()),
            Err(_) => None,
        },
        Err(_) => None,
    }
}

/// What a list of header fields says of the last modification.
pub open spec fn staleness_of(headers: Seq<(String, String)>) -> Staleness {
    match header_value(headers, "last-modified"@) {
        None => Staleness::Missing,
        Some(text) => match http_date_seconds(text) {
            None => Staleness::Undecodable,
            Some(modified) => Staleness::At(modified),
        },
    }
}

/// What a list of header fields says of the last modification.
pub fn staleness(headers: &Vec<(String, String)>) -> (r: Staleness)
    ensures
        r == staleness_of(headers@),
{
    match find_header(headers, "last-modified") {
        None => Staleness::Missing,
        Some(text) => match parse_http_date(text.as_str()) {
            None => Staleness::Undecodable,
            Some(modified) => Staleness::At(modified),
        },
    }
}

/// The status rule. It is always run.
pub fn check_status(response: &FinalResponse, onredirect: OnRedirect) -> (r: CheckResult)
    ensures
        r@ == status_outcome(*response, onredirect),
{
    let status = response.response.status;
    let state = if 200 <= status && status < 300 {
        State::Okay
    } else if 300 <= status && status < 400 {
        match onredirect {
            OnRedirect::Warning => State::Warn,
            OnRedirect::Unknown => State::Unknown,
            _ => State::Okay,
        }
    } else if 400 <= status && status < 500 {
        State::Warn
    } else if 500 <= status && status < 600 {
        State::Crit
    } else {
        State::Unknown
    };
    CheckResult {
        state,
        summary: status_line(response.response.version, status),
        details: Some(response.response.request_line.clone()),
    }
}

/// The response-time rule.
pub fn check_response_time(elapsed_ms: u64, levels: Option<UpperLevels>) -> (r: Option<CheckResult>)
    ensures
        opt_result_view(r) == response_time_outcome(elapsed_ms, levels),
{
    match levels {
        None => None,
        Some(levels) => {
            let mut summary = "Response time: ".to_owned();
            summary.append(decimal(elapsed_ms).as_str());
            summary.append(" ms");
            Some(CheckResult { state: levels.evaluate(elapsed_ms), summary, details: None })
        },
    }
}

/// The page-size rule.
pub fn check_page_size(size: Option<usize>, bounds: Option<Bounds>) -> (r: Option<CheckResult>)
    ensures
        opt_result_view(r) == page_size_outcome(size, bounds),
{
    match (size, bounds) {
        (Some(size), Some(bounds)) => {
            let mut summary = "Page size: ".to_owned();
            summary.append(decimal(size as u64).as_str());
            summary.append(" Bytes");
            let state = if bounds.holds(size) {
                State::Okay
            } else {
                State::Warn
            };
            Some(CheckResult { state, summary, details: None })
        },
        _ => None,
    }
}

/// The document-age rule, for what the response says of its last
/// modification.
pub fn check_document_age_of(now: u64, staleness: Staleness, levels: Option<UpperLevels>) -> (r:
    Option<CheckResult>)
    ensures
        opt_result_view(r) == document_age_outcome(now, staleness, levels),
{
    match levels {
        None => None,
        Some(levels) => match staleness {
            Staleness::Missing => None,
            Staleness::Undecodable => Some(
                CheckResult {
                    state: State::Unknown,
                    summary: "Can't decode document age".to_owned(),
                    details: None,
                },
            ),
            Staleness::At(modified) => {
                let seconds: u64 = if now >= modified {
                    now - modified
                } else {
                    0
                };
                let mut summary = "Document age: ".to_owned();
                summary.append(decimal(seconds).as_str());
                summary.append(" seconds");
                Some(CheckResult { state: levels.evaluate(seconds), summary, details: None })
            },
        },
    }
}

/// The document-age rule, at the time `now` in seconds since 1970.
pub fn check_document_age(
    now: u64,
    headers: &Vec<(String, String)>,
    levels: Option<UpperLevels>,
) -> (r: Option<CheckResult>)
    ensures
        opt_result_view(r) == document_age_outcome(now, staleness_of(headers@), levels),
{
    check_document_age_of(now, staleness(headers), levels)
}

/// The verdict of a rule as a list: one verdict or none.
pub open spec fn listed(outcome: Option<CheckResultView>) -> Seq<CheckResultView> {
    match outcome {
        Some(o) => seq![o],
        None => Seq::empty(),
    }
}

/// The verdicts on a response, in the order of the rules: status, response
/// time, page size, document age.
pub open spec fn response_outcomes(response: FinalResponse, params: CheckParameters, now: u64)
    -> Seq<CheckResultView> {
    seq![status_outcome(response, params.onredirect)] + listed(
        response_time_outcome(response.response.elapsed_ms, params.response_time_levels),
    ) + listed(
        page_size_outcome(
            match response.response.body {
                Some(body) => Some(body@.len() as usize),
                None => None,
            },
            params.page_size,
        ),
    ) + listed(
        document_age_outcome(
            now,
            staleness_of(response.response.headers@),
            params.document_age_levels,
        ),
    )
}

/// Adds the verdict of a rule to a list, if the rule gave one.
fn append_result(results: &mut Vec<CheckResult>, result: Option<CheckResult>)
    ensures
        result_views(final(results)@) == result_views(old(results)@) + listed(
            opt_result_view(result),
        ),
{
    let ghost before = result_views(results@);
    match result {
        Some(r) => {
            results.push(r);
            assert(result_views(results@) =~= before + seq![r@]);
        },
        None => {
            assert(result_views(results@) =~= before + Seq::empty());
        },
    }
}

/// Runs every rule on a response, at the time `now` in seconds since 1970.
pub fn check_response(response: &FinalResponse, params: &CheckParameters, now: u64) -> (r: Vec<
    CheckResult,
>)
    ensures
        result_views(r@) == response_outcomes(*response, *params, now),
{
    let mut results: Vec<CheckResult> = Vec::new();
    results.push(check_status(response, params.onredirect));
    assert(result_views(results@) =~= seq![status_outcome(*response, params.onredirect)]);
    append_result(
        &mut results,
        check_response_time(response.response.elapsed_ms, params.response_time_levels),
    );
    append_result(&mut results, check_page_size(response.body_len(), params.page_size));
    append_result(
        &mut results,
        check_document_age(now, &response.response.headers, params.document_age_levels),
    );
    results
}

/// A value at the critical threshold is critical. A value at the warning
/// threshold is a warning, where the two thresholds differ. A value below
/// the warning threshold is fine.
pub proof fn lemma_levels_at_thresholds(levels: UpperLevels, value: u64)
    requires
        levels.well_formed(),
    ensures
        value == levels.crit ==> levels.spec_evaluate(value) == State::Crit,
        value == levels.warn && levels.warn != levels.crit ==> levels.spec_evaluate(value)
            == State::Warn,
        value < levels.warn ==> levels.spec_evaluate(value) == State::Okay,
{
}

/// The response-time rule judges the elapsed time by its thresholds and
/// gives no verdict without them.
pub proof fn lemma_response_time_rule(elapsed_ms: u64, levels: Option<UpperLevels>)
    ensures
        levels is None <==> response_time_outcome(elapsed_ms, levels) is None,
        levels matches Some(l) ==> response_time_outcome(elapsed_ms, levels)->Some_0.state
            == l.spec_evaluate(elapsed_ms),
{
}

/// A response that does not say when it was last modified contributes no
/// verdict on the age of the document, whatever the thresholds: the list
/// of verdicts is as long as without the rule.
pub proof fn lemma_missing_staleness_is_skipped(
    response: FinalResponse,
    params: CheckParameters,
    now: u64,
)
    requires
        header_value(response.response.headers@, "last-modified"@) is None,
    ensures
        document_age_outcome(
            now,
            staleness_of(response.response.headers@),
            params.document_age_levels,
        ) is None,
        response_outcomes(response, params, now) == response_outcomes(
            response,
            CheckParameters { document_age_levels: None, ..params },
            now,
        ),
{
}

/// A size out of bounds is a warning and never more.
pub proof fn lemma_page_size_never_critical(size: Option<usize>, bounds: Option<Bounds>)
    ensures
        page_size_outcome(size, bounds) matches Some(o) ==> o.state == State::Okay || o.state
            == State::Warn,
{
}

/// The rules do not suppress one another: the status rule always gives the
/// first verdict, and every other rule adds its own or none.
pub proof fn lemma_rules_are_independent(response: FinalResponse, params: CheckParameters, now: u64)
    ensures
        response_outcomes(response, params, now).len() == 1 + listed(
            response_time_outcome(response.response.elapsed_ms, params.response_time_levels),
        ).len() + listed(
            page_size_outcome(
                match response.response.body {
                    Some(body) => Some(body@.len() as usize),
                    None => None,
                },
                params.page_size,
            ),
        ).len() + listed(
            document_age_outcome(
                now,
                staleness_of(response.response.headers@),
                params.document_age_levels,
            ),
        ).len(),
        response_outcomes(response, params, now)[0] == status_outcome(response, params.onredirect),
{
}

} // verus!
