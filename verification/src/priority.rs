//! The order in which the states that plugins report are merged.
//!
//! Every plugin reports its state with a priority. What a state of higher
//! priority says stands against what one of lower priority says; of two
//! states of the same priority, the one that arrived first stands.

use crate::data::Data;
use crate::net_state::{merged_states, NetworkState, NetworkStateView};
use crate::route::{RouteEntry, RouteEntryView, RouteRuleEntry, RouteRuleEntryView};
use vstd::prelude::*;

verus! {

/// A reported state with its priority.
pub type Report = (NetworkStateView, u32);

/// The index, at or after `from`, of the first report of lower priority
/// than `prio`; the length of the list when there is none.
pub open spec fn insert_position(sorted: Seq<Report>, prio: u32, from: int) -> int
    decreases sorted.len() - from,
{
    if from < 0 || from >= sorted.len() {
        sorted.len() as int
    } else if sorted[from].1 < prio {
        from
    } else {
        insert_position(sorted, prio, from + 1)
    }
}

/// Reports in order of falling priority, those of equal priority in order of
/// arrival: each report is put behind all reports of its priority or higher
/// that arrived before it.
pub open spec fn by_priority(reports: Seq<Report>) -> Seq<Report>
    decreases reports.len(),
{
    if reports.len() == 0 {
        Seq::empty()
    } else {
        let sorted = by_priority(reports.drop_last());
        sorted.insert(insert_position(sorted, reports.last().1, 0), reports.last())
    }
}

/// The states of a list of reports, last to first.
pub open spec fn states_backwards(reports: Seq<Report>) -> Seq<NetworkStateView> {
    Seq::new(reports.len(), |i: int| reports[reports.len() - 1 - i].0)
}

/// The routes of the first report, at or after `from`, that states routes.
pub open spec fn first_routes(reports: Seq<Report>, from: int) -> Option<Seq<RouteEntryView>>
    decreases reports.len() - from,
{
    if from < 0 || from >= reports.len() {
        None
    } else if reports[from].0.routes is Some {
        reports[from].0.routes
    } else {
        first_routes(reports, from + 1)
    }
}

/// The rules of the first report, at or after `from`, that states rules.
pub open spec fn first_rules(reports: Seq<Report>, from: int) -> Option<Seq<RouteRuleEntryView>>
    decreases reports.len() - from,
{
    if from < 0 || from >= reports.len() {
        None
    } else if reports[from].0.rules is Some {
        reports[from].0.rules
    } else {
        first_rules(reports, from + 1)
    }
}

/// The reported states merged so that higher priority and, at equal
/// priority, earlier arrival prevail: the states are merged from the one
/// of least precedence to the one of most. Routes and rules, which the
/// merging of states leaves alone, are those of the report of most
/// precedence that states them.
pub open spec fn merged_by_priority(reports: Seq<Report>) -> NetworkStateView {
    NetworkStateView {
        routes: first_routes(by_priority(reports), 0),
        rules: first_rules(by_priority(reports), 0),
        ..merged_states(states_backwards(by_priority(reports)))
    }
}

/// `insert_position` stays within the list; every report before it has
/// priority `prio` or higher, and the report at it has lower priority.
pub proof fn lemma_insert_position(sorted: Seq<Report>, prio: u32, from: int)
    requires
        0 <= from <= sorted.len(),
    ensures
        from <= insert_position(sorted, prio, from) <= sorted.len(),
        forall|j: int| from <= j < insert_position(sorted, prio, from) ==> sorted[j].1 >= prio,
        insert_position(sorted, prio, from) < sorted.len() ==> sorted[insert_position(
            sorted,
            prio,
            from,
        )].1 < prio,
    decreases sorted.len() - from,
{
    if from < sorted.len() && sorted[from].1 >= prio {
        lemma_insert_position(sorted, prio, from + 1);
    }
}

/// Whether priorities never rise along the list.
pub open spec fn falling(reports: Seq<Report>) -> bool {
    forall|i: int, j: int| 0 <= i < j < reports.len() ==> reports[i].1 >= reports[j].1
}

/// The order of merging is fixed by the reports alone: `by_priority` holds
/// exactly the reports it was given, each as often as it was given, and
/// priorities never rise along it.
pub proof fn law_merge_order_is_fixed(reports: Seq<Report>)
    ensures
        by_priority(reports).len() == reports.len(),
        falling(by_priority(reports)),
        by_priority(reports).to_multiset() == reports.to_multiset(),
    decreases reports.len(),
{
    if reports.len() == 0 {
        assert(reports =~= Seq::empty());
        assert(by_priority(reports) =~= reports);
    } else {
        let front = reports.drop_last();
        let x = reports.last();
        let sorted = by_priority(front);
        law_merge_order_is_fixed(front);
        lemma_insert_position(sorted, x.1, 0);
        let p = insert_position(sorted, x.1, 0);
        let out = sorted.insert(p, x);
        assert(out == by_priority(reports));
        assert forall|i: int, j: int| 0 <= i < j < out.len() implies out[i].1 >= out[j].1 by {
            if j < p {
                assert(out[i] == sorted[i] && out[j] == sorted[j]);
            } else if j == p {
                assert(out[i] == sorted[i]);
            } else if i < p {
                assert(out[i] == sorted[i] && out[j] == sorted[j - 1]);
            } else if i == p {
                assert(out[j] == sorted[j - 1]);
                assert(sorted[p].1 < x.1);
                if j - 1 > p {
                    assert(sorted[p].1 >= sorted[j - 1].1);
                }
            } else {
                assert(out[i] == sorted[i - 1] && out[j] == sorted[j - 1]);
            }
        }
        vstd::seq_lib::to_multiset_insert(sorted, p, x);
        vstd::seq_lib::to_multiset_build(front, x);
        assert(reports =~= front.push(x));
        assert(out.len() == reports.len());
        assert(out.to_multiset() == sorted.to_multiset().insert(x));
        assert(front.push(x).to_multiset() =~= front.to_multiset().insert(x));
        assert(out.to_multiset() == reports.to_multiset());
    }
}

/// Of two reports of the same priority, the one that arrived first comes
/// first in `by_priority`: a report that arrives is put behind every report
/// of its priority.
pub proof fn law_merge_order_is_stable(reports: Seq<Report>)
    requires
        reports.len() > 0,
    ensures
        ({
            let sorted = by_priority(reports.drop_last());
            let p = insert_position(sorted, reports.last().1, 0);
            &&& 0 <= p <= sorted.len()
            &&& by_priority(reports) == sorted.insert(p, reports.last())
            &&& forall|j: int| 0 <= j < p ==> sorted[j].1 >= reports.last().1
            &&& forall|j: int| p <= j < sorted.len() ==> sorted[j].1 < reports.last().1
        }),
{
    let sorted = by_priority(reports.drop_last());
    let p = insert_position(sorted, reports.last().1, 0);
    lemma_insert_position(sorted, reports.last().1, 0);
    law_merge_order_is_fixed(reports.drop_last());
    assert forall|j: int| p <= j < sorted.len() implies sorted[j].1 < reports.last().1 by {
        if j > p {
            assert(sorted[p].1 >= sorted[j].1);
        }
    }
}

/// Puts reports in order of falling priority, those of equal priority in
/// order of arrival.
pub fn order_by_priority(reports: &Vec<(NetworkState, u32)>) -> (r: Vec<(NetworkState, u32)>)
    ensures
        r.deep_view() == by_priority(reports.deep_view()),
{
    let mut out: Vec<(NetworkState, u32)> = Vec::new();
    let mut i: usize = 0;
    assert(reports.deep_view().take(0) =~= Seq::empty());
    assert(out.deep_view() =~= Seq::empty());
    while i < reports.len()
        invariant
            i <= reports.len(),
            out.len() == i,
            out.deep_view() == by_priority(reports.deep_view().take(i as int)),
        decreases reports.len() - i,
    {
        let ghost before = out.deep_view();
        assert(reports.deep_view().take(i + 1).drop_last() =~= reports.deep_view().take(i as int));
        assert(reports.deep_view().take(i + 1).last() == reports[i as int].deep_view());
        let prio = reports[i].1;
        let mut p: usize = 0;
        while p < out.len() && out[p].1 >= prio
            invariant
                p <= out.len(),
                out.deep_view() == before,
                insert_position(before, prio, 0) == insert_position(before, prio, p as int),
            decreases out.len() - p,
        {
            p += 1;
        }
        out.insert(p, reports[i].dup());
        assert(out.deep_view() =~= before.insert(p as int, reports[i as int].deep_view()));
        i += 1;
    }
    assert(reports.deep_view().take(reports.len() as int) =~= reports.deep_view());
    out
}

/// The routes of the first report that states routes.
fn first_stated_routes(sorted: &Vec<(NetworkState, u32)>) -> (r: Option<Vec<RouteEntry>>)
    ensures
        r.deep_view() == first_routes(sorted.deep_view(), 0),
{
    let mut i: usize = 0;
    while i < sorted.len()
        invariant
            i <= sorted.len(),
            first_routes(sorted.deep_view(), 0) == first_routes(sorted.deep_view(), i as int),
        decreases sorted.len() - i,
    {
        if sorted[i].0.routes.is_some() {
            return sorted[i].0.routes.dup();
        }
        i += 1;
    }
    None
}

/// The rules of the first report that states rules.
fn first_stated_rules(sorted: &Vec<(NetworkState, u32)>) -> (r: Option<Vec<RouteRuleEntry>>)
    ensures
        r.deep_view() == first_rules(sorted.deep_view(), 0),
{
    let mut i: usize = 0;
    while i < sorted.len()
        invariant
            i <= sorted.len(),
            first_rules(sorted.deep_view(), 0) == first_rules(sorted.deep_view(), i as int),
        decreases sorted.len() - i,
    {
        if sorted[i].0.rules.is_some() {
            return sorted[i].0.rules.dup();
        }
        i += 1;
    }
    None
}

/// Merges reported states so that higher priority and, at equal priority,
/// earlier arrival prevail. The result depends on nothing but the reports
/// and the order of their arrival.
pub fn merge_by_priority(reports: &Vec<(NetworkState, u32)>) -> (r: NetworkState)
    ensures
        r@ == merged_by_priority(reports.deep_view()),
{
    let sorted = order_by_priority(reports);
    let mut states: Vec<NetworkState> = Vec::new();
    let mut i: usize = sorted.len();
    while i > 0
        invariant
            i <= sorted.len(),
            states.len() == sorted.len() - i,
            forall|j: int|
                0 <= j < states.len() ==> states[j]@ == (#[trigger] sorted.deep_view()[sorted.len()
                    - 1 - j]).0,
        decreases i,
    {
        i -= 1;
        states.push(sorted[i].0.dup());
    }
    assert(states.deep_view() =~= states_backwards(sorted.deep_view()));
    let mut merged = NetworkState::merge_states(states);
    merged.routes = first_stated_routes(&sorted);
    merged.rules = first_stated_rules(&sorted);
    merged
}

} // verus!
