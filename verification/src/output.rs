//! The text that the HTTP probe prints, and the state it ends with.

use crate::checking::{result_views, CheckResult, CheckResultView, State};
use crate::text::{join, joined};
use vstd::prelude::*;
use vstd::seq_lib::{to_multiset_contains, to_multiset_len};
use vstd::string::StringExecFns;

verus! {

/// The most severe state among `results`; `Unknown` where there are none: a
/// check without a verdict has failed.
pub open spec fn worst_state(results: Seq<CheckResultView>) -> State
    decreases results.len(),
{
    if results.len() == 0 {
        State::Unknown
    } else if results.len() == 1 {
        results[0].state
    } else {
        worst_state(results.drop_last()).spec_worse(results.last().state)
    }
}

/// The summaries of `results`, in order.
pub open spec fn summaries(results: Seq<CheckResultView>) -> Seq<Seq<char>> {
    results.map_values(|r: CheckResultView| r.summary)
}

/// The detail lines of `results`: the details of those that have any, in
/// order.
pub open spec fn detail_lines(results: Seq<CheckResultView>) -> Seq<Seq<char>>
    decreases results.len(),
{
    if results.len() == 0 {
        Seq::empty()
    } else {
        match results.last().details {
            Some(d) => detail_lines(results.drop_last()).push(d),
            None => detail_lines(results.drop_last()),
        }
    }
}

/// The summary line: the name of the probe and of the worst state, then,
/// after a dash, the summaries of all verdicts separated by commas.
pub open spec fn summary_line(results: Seq<CheckResultView>) -> Seq<char> {
    if results.len() == 0 {
        "HTTP "@ + worst_state(results).spec_name()
    } else {
        "HTTP "@ + worst_state(results).spec_name() + " - "@ + joined(summaries(results), ", "@)
    }
}

/// The outcome of one check, ready to print.
#[derive(Debug, PartialEq, Eq)]
pub struct Output {
    pub worst_state: State,
    /// The summary line.
    pub summary: String,
    /// The lines of the detail section.
    pub details: Vec<String>,
}

/// The model of an [`Output`].
pub struct OutputView {
    pub worst_state: State,
    pub summary: Seq<char>,
    pub details: Seq<Seq<char>>,
}

impl View for Output {
    type V = OutputView;

    open spec fn view(&self) -> OutputView {
        OutputView {
            worst_state: self.worst_state,
            summary: self.summary@,
            details: self.details@.map_values(|s: String| s@),
        }
    }
}

/// The output for a list of verdicts.
pub open spec fn output_of(results: Seq<CheckResultView>) -> OutputView {
    OutputView {
        worst_state: worst_state(results),
        summary: summary_line(results),
        details: detail_lines(results),
    }
}

/// A text followed by each of `lines` on a line of its own.
pub open spec fn with_lines(text: Seq<char>, lines: Seq<Seq<char>>) -> Seq<char>
    decreases lines.len(),
{
    if lines.len() == 0 {
        text
    } else {
        with_lines(text, lines.drop_last()) + "\n"@ + lines.last()
    }
}

/// The most severe state among `results`.
pub fn worst(results: &Vec<CheckResult>) -> (r: State)
    ensures
        r == worst_state(result_views(results@)),
{
    if results.len() == 0 {
        return State::Unknown;
    }
    let ghost views = result_views(results@);
    let mut state = results[0].state;
    let mut i: usize = 1;
    assert(views.take(1)[0] == views[0]);
    while i < results.len()
        invariant
            1 <= i <= results.len(),
            views == result_views(results@),
            state == worst_state(views.take(i as int)),
        decreases results.len() - i,
    {
        assert(views.take(i + 1).drop_last() =~= views.take(i as int));
        assert(views.take(i + 1).last() == results@[i as int]@);
        state = state.worse(results[i].state);
        i += 1;
    }
    assert(views.take(i as int) =~= views);
    state
}

impl Output {
    /// Reduces the verdicts of a check to its output.
    pub fn from_check_results(check_results: Vec<CheckResult>) -> (r: Self)
        ensures
            r@ == output_of(result_views(check_results@)),
    {
        let ghost views = result_views(check_results@);
        let worst_state = worst(&check_results);
        let mut parts: Vec<String> = Vec::new();
        let mut details: Vec<String> = Vec::new();
        let mut i: usize = 0;
        assert(views.take(0) =~= Seq::empty());
        assert(parts@.map_values(|s: String| s@) =~= summaries(views.take(0)));
        assert(details@.map_values(|s: String| s@) =~= detail_lines(views.take(0)));
        while i < check_results.len()
            invariant
                i <= check_results.len(),
                views == result_views(check_results@),
                parts@.map_values(|s: String| s@) == summaries(views.take(i as int)),
                details@.map_values(|s: String| s@) == detail_lines(views.take(i as int)),
            decreases check_results.len() - i,
        {
            let ghost parts_before = parts@.map_values(|s: String| s@);
            let ghost details_before = details@.map_values(|s: String| s@);
            assert(views.take(i + 1).drop_last() =~= views.take(i as int));
            assert(views.take(i + 1).last() == check_results@[i as int]@);
            parts.push(check_results[i].summary.clone());
            assert(parts@.map_values(|s: String| s@) =~= parts_before.push(
                check_results@[i as int]@.summary,
            ));
            assert(summaries(views.take(i + 1)) =~= summaries(views.take(i as int)).push(
                check_results@[i as int]@.summary,
            ));
            match &check_results[i].details {
                Some(d) => {
                    details.push(d.clone());
                    assert(details@.map_values(|s: String| s@) =~= details_before.push(d@));
                },
                None => {},
            }
            i += 1;
        }
        assert(views.take(i as int) =~= views);
        let mut summary = "HTTP ".to_owned();
        summary.append(worst_state.name());
        if check_results.len() > 0 {
            summary.append(" - ");
            summary.append(join(&parts, ", ").as_str());
        }
        Output { worst_state, summary, details }
    }

    /// The whole text: the summary line, then each detail on its own line.
    pub fn to_string(&self) -> (r: String)
        ensures
            r@ == with_lines(self@.summary, self@.details),
    {
        let ghost lines = self@.details;
        let mut text = self.summary.clone();
        let mut i: usize = 0;
        assert(lines.take(0) =~= Seq::empty());
        while i < self.details.len()
            invariant
                i <= self.details.len(),
                lines == self@.details,
                text@ == with_lines(self@.summary, lines.take(i as int)),
            decreases self.details.len() - i,
        {
            assert(lines.take(i + 1).drop_last() =~= lines.take(i as int));
            assert(lines.take(i + 1).last() == self.details@[i as int]@);
            text.append("\n");
            text.append(self.details[i].as_str());
            i += 1;
        }
        assert(lines.take(i as int) =~= lines);
        text
    }
}

/// No verdict is more severe than the worst state of its list, and where the
/// list is not empty, the worst state is that of one of its verdicts.
pub proof fn lemma_worst_is_maximum(results: Seq<CheckResultView>)
    ensures
        forall|i: int|
            0 <= i < results.len() ==> (#[trigger] results[i]).state.rank() <= worst_state(
                results,
            ).rank(),
        results.len() > 0 ==> exists|i: int|
            0 <= i < results.len() && (#[trigger] results[i]).state == worst_state(results),
    decreases results.len(),
{
    if results.len() == 1 {
        assert(results[0].state == worst_state(results));
    } else if results.len() > 1 {
        let before = results.drop_last();
        lemma_worst_is_maximum(before);
        let k = choose|k: int| 0 <= k < before.len() && (#[trigger] before[k]).state == worst_state(before);
        assert(results[k] == before[k]);
        if worst_state(results) == results.last().state {
            assert(results[results.len() - 1].state == worst_state(results));
        } else {
            assert(results[k].state == worst_state(results));
        }
        assert forall|i: int| 0 <= i < results.len() implies (#[trigger] results[i]).state.rank()
            <= worst_state(results).rank() by {
            if i < before.len() {
                assert(results[i] == before[i]);
            }
        }
    }
}

/// The more severe of two states does not depend on their order.
pub proof fn lemma_worse_is_commutative(a: State, b: State)
    ensures
        a.spec_worse(b) == b.spec_worse(a),
{
}

/// The most severe of three states does not depend on how they are grouped.
pub proof fn lemma_worse_is_associative(a: State, b: State, c: State)
    ensures
        a.spec_worse(b).spec_worse(c) == a.spec_worse(b.spec_worse(c)),
{
}

/// The worst state of two lists put together is the more severe of their
/// worst states, where neither is empty.
pub proof fn lemma_worst_of_concat(a: Seq<CheckResultView>, b: Seq<CheckResultView>)
    requires
        a.len() > 0,
        b.len() > 0,
    ensures
        worst_state(a + b) == worst_state(a).spec_worse(worst_state(b)),
    decreases b.len(),
{
    if b.len() == 1 {
        assert((a + b).drop_last() =~= a);
        assert((a + b).last() == b[0]);
    } else {
        assert((a + b).drop_last() =~= a + b.drop_last());
        assert((a + b).last() == b.last());
        lemma_worst_of_concat(a, b.drop_last());
    }
}

/// The worst state does not depend on the order of the verdicts: two lists
/// that hold the same verdicts the same number of times have the same worst
/// state.
pub proof fn lemma_worst_ignores_order(a: Seq<CheckResultView>, b: Seq<CheckResultView>)
    requires
        a.to_multiset() == b.to_multiset(),
    ensures
        worst_state(a) == worst_state(b),
{
    to_multiset_len(a);
    to_multiset_len(b);
    if a.len() > 0 {
        lemma_worst_is_maximum(a);
        lemma_worst_is_maximum(b);
        let i = choose|i: int| 0 <= i < a.len() && (#[trigger] a[i]).state == worst_state(a);
        let j = choose|j: int| 0 <= j < b.len() && (#[trigger] b[j]).state == worst_state(b);
        to_multiset_contains(a, a[i]);
        to_multiset_contains(b, a[i]);
        to_multiset_contains(a, b[j]);
        to_multiset_contains(b, b[j]);
        assert(a.contains(a[i]));
        assert(b.contains(b[j]));
        let i2 = choose|k: int| 0 <= k < b.len() && b[k] == a[i];
        let j2 = choose|k: int| 0 <= k < a.len() && a[k] == b[j];
        assert(b[i2].state.rank() <= worst_state(b).rank());
        assert(a[j2].state.rank() <= worst_state(a).rank());
    }
}

} // verus!
