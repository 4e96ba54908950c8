//! Routes and routing policy rules.

use crate::data::Data;
use crate::error::{verification_failure_view, NipartError, NipartErrorView};
use crate::names::{holds, missing, missing_entries};
use vstd::prelude::*;

verus! {

/// One route.
#[derive(Debug, PartialEq)]
pub struct RouteEntry {
    pub destination: String,
    pub next_hop_iface: String,
    pub next_hop_addr: String,
    pub metric: u32,
}

/// The mathematical value of a [`RouteEntry`].
#[verifier::ext_equal]
pub struct RouteEntryView {
    pub destination: Seq<char>,
    pub next_hop_iface: Seq<char>,
    pub next_hop_addr: Seq<char>,
    pub metric: u32,
}

impl DeepView for RouteEntry {
    type V = RouteEntryView;

    open spec fn deep_view(&self) -> RouteEntryView {
        RouteEntryView {
            destination: self.destination.deep_view(),
            next_hop_iface: self.next_hop_iface.deep_view(),
            next_hop_addr: self.next_hop_addr.deep_view(),
            metric: self.metric.deep_view(),
        }
    }
}

impl View for RouteEntry {
    type V = RouteEntryView;

    open spec fn view(&self) -> RouteEntryView {
        self.deep_view()
    }
}

impl Data for RouteEntry {
    fn same(&self, other: &Self) -> (b: bool) {
        self.destination.same(&other.destination)
            && self.next_hop_iface.same(&other.next_hop_iface)
            && self.next_hop_addr.same(&other.next_hop_addr)
            && self.metric.same(&other.metric)
    }

    fn dup(&self) -> (r: Self) {
        RouteEntry {
            destination: self.destination.dup(),
            next_hop_iface: self.next_hop_iface.dup(),
            next_hop_addr: self.next_hop_addr.dup(),
            metric: self.metric.dup(),
        }
    }
}

/// Desired routes beside the current ones.
#[derive(Debug, PartialEq)]
pub struct MergedRoutes {
    pub desired: Option<Vec<RouteEntry>>,
    pub current: Option<Vec<RouteEntry>>,
}

/// The mathematical value of a [`MergedRoutes`].
#[verifier::ext_equal]
pub struct MergedRoutesView {
    pub desired: Option<Seq<RouteEntryView>>,
    pub current: Option<Seq<RouteEntryView>>,
}

impl DeepView for MergedRoutes {
    type V = MergedRoutesView;

    open spec fn deep_view(&self) -> MergedRoutesView {
        MergedRoutesView {
            desired: self.desired.deep_view(),
            current: self.current.deep_view(),
        }
    }
}

impl View for MergedRoutes {
    type V = MergedRoutesView;

    open spec fn view(&self) -> MergedRoutesView {
        self.deep_view()
    }
}

impl Data for MergedRoutes {
    fn same(&self, other: &Self) -> (b: bool) {
        self.desired.same(&other.desired)
            && self.current.same(&other.current)
    }

    fn dup(&self) -> (r: Self) {
        MergedRoutes {
            desired: self.desired.dup(),
            current: self.current.dup(),
        }
    }
}

/// One routing policy rule.
#[derive(Debug, PartialEq)]
pub struct RouteRuleEntry {
    pub ip_from: String,
    pub ip_to: String,
    /// Incoming interface the rule is bound to; empty when unbound.
    pub iif: String,
    pub route_table: u32,
}

/// The mathematical value of a [`RouteRuleEntry`].
#[verifier::ext_equal]
pub struct RouteRuleEntryView {
    pub ip_from: Seq<char>,
    pub ip_to: Seq<char>,
    pub iif: Seq<char>,
    pub route_table: u32,
}

impl DeepView for RouteRuleEntry {
    type V = RouteRuleEntryView;

    open spec fn deep_view(&self) -> RouteRuleEntryView {
        RouteRuleEntryView {
            ip_from: self.ip_from.deep_view(),
            ip_to: self.ip_to.deep_view(),
            iif: self.iif.deep_view(),
            route_table: self.route_table.deep_view(),
        }
    }
}

impl View for RouteRuleEntry {
    type V = RouteRuleEntryView;

    open spec fn view(&self) -> RouteRuleEntryView {
        self.deep_view()
    }
}

impl Data for RouteRuleEntry {
    fn same(&self, other: &Self) -> (b: bool) {
        self.ip_from.same(&other.ip_from)
            && self.ip_to.same(&other.ip_to)
            && self.iif.same(&other.iif)
            && self.route_table.same(&other.route_table)
    }

    fn dup(&self) -> (r: Self) {
        RouteRuleEntry {
            ip_from: self.ip_from.dup(),
            ip_to: self.ip_to.dup(),
            iif: self.iif.dup(),
            route_table: self.route_table.dup(),
        }
    }
}

/// Desired routing policy rules beside the current ones.
#[derive(Debug, PartialEq)]
pub struct MergedRouteRules {
    pub desired: Option<Vec<RouteRuleEntry>>,
    pub current: Option<Vec<RouteRuleEntry>>,
}

/// The mathematical value of a [`MergedRouteRules`].
#[verifier::ext_equal]
pub struct MergedRouteRulesView {
    pub desired: Option<Seq<RouteRuleEntryView>>,
    pub current: Option<Seq<RouteRuleEntryView>>,
}

impl DeepView for MergedRouteRules {
    type V = MergedRouteRulesView;

    open spec fn deep_view(&self) -> MergedRouteRulesView {
        MergedRouteRulesView {
            desired: self.desired.deep_view(),
            current: self.current.deep_view(),
        }
    }
}

impl View for MergedRouteRules {
    type V = MergedRouteRulesView;

    open spec fn view(&self) -> MergedRouteRulesView {
        self.deep_view()
    }
}

impl Data for MergedRouteRules {
    fn same(&self, other: &Self) -> (b: bool) {
        self.desired.same(&other.desired)
            && self.current.same(&other.current)
    }

    fn dup(&self) -> (r: Self) {
        MergedRouteRules {
            desired: self.desired.dup(),
            current: self.current.dup(),
        }
    }
}

/// The entries of an optional list; none when the list is missing.
pub open spec fn listed<V>(list: Option<Seq<V>>) -> Seq<V> {
    match list {
        Some(l) => l,
        None => Seq::empty(),
    }
}

/// A list as an optional list: `None` for the empty list.
pub open spec fn some_if_any<V>(list: Seq<V>) -> Option<Seq<V>> {
    if list.len() == 0 {
        None
    } else {
        Some(list)
    }
}

/// The first desired route, at or after `from`, that is not bound to an
/// ignored interface and that `current` does not hold, as a failure.
pub open spec fn route_failure(
    desired: Seq<RouteEntryView>,
    current: Seq<RouteEntryView>,
    ignored: Seq<Seq<char>>,
    from: int,
) -> Option<NipartErrorView>
    decreases desired.len() - from,
{
    if from < 0 || from >= desired.len() {
        None
    } else if !ignored.contains(desired[from].next_hop_iface) && !current.contains(desired[from]) {
        Some(verification_failure_view("routes"@, desired[from].destination, "null"@))
    } else {
        route_failure(desired, current, ignored, from + 1)
    }
}

impl MergedRoutesView {
    /// The desired routes that the current state does not hold; `None`
    /// where there is none, and so where no routes are desired.
    pub open spec fn diff(self) -> Option<Seq<RouteEntryView>> {
        some_if_any(missing(listed(self.desired), listed(self.current)))
    }

    /// The first desired route that `current` lacks, as a failure.
    pub open spec fn failure(
        self,
        current: Option<Seq<RouteEntryView>>,
        ignored: Seq<Seq<char>>,
    ) -> Option<NipartErrorView> {
        route_failure(listed(self.desired), listed(current), ignored, 0)
    }
}

impl MergedRoutes {
    /// Lays the desired routes beside the current ones.
    pub fn new(desired: Option<Vec<RouteEntry>>, current: Option<Vec<RouteEntry>>) -> (r: Self)
        ensures
            r@.desired == desired.deep_view(),
            r@.current == current.deep_view(),
    {
        MergedRoutes { desired, current }
    }

    /// The desired routes that the current state does not hold.
    pub fn gen_diff(&self) -> (r: Option<Vec<RouteEntry>>)
        ensures
            r.deep_view() == self@.diff(),
    {
        let empty: Vec<RouteEntry> = Vec::new();
        assert(empty.deep_view() =~= Seq::empty());
        let current = match &self.current {
            Some(c) => c,
            None => &empty,
        };
        let desired = match &self.desired {
            Some(d) => d,
            None => &empty,
        };
        let lacking = missing_entries(desired, current);
        if lacking.len() == 0 {
            None
        } else {
            Some(lacking)
        }
    }

    /// Checks that the state found holds every desired route that is not
    /// bound to one of the ignored interfaces.
    pub fn verify(&self, current: &Option<Vec<RouteEntry>>, ignored_ifaces: &Vec<String>) -> (r:
        Result<(), NipartError>)
        ensures
            match self@.failure(current.deep_view(), ignored_ifaces.deep_view()) {
                None => r is Ok,
                Some(e) => r is Err && r->Err_0@ == e,
            },
    {
        let empty: Vec<RouteEntry> = Vec::new();
        assert(empty.deep_view() =~= Seq::empty());
        let wanted = match &self.desired {
            Some(d) => d,
            None => &empty,
        };
        let found = match current {
            Some(c) => c,
            None => &empty,
        };
        let mut i: usize = 0;
        while i < wanted.len()
            invariant
                i <= wanted.len(),
                wanted.deep_view() == listed(self@.desired),
                found.deep_view() == listed(current.deep_view()),
                route_failure(wanted.deep_view(), found.deep_view(), ignored_ifaces.deep_view(), 0)
                    == route_failure(
                    wanted.deep_view(),
                    found.deep_view(),
                    ignored_ifaces.deep_view(),
                    i as int,
                ),
            decreases wanted.len() - i,
        {
            if !holds(ignored_ifaces, &wanted[i].next_hop_iface) && !holds(found, &wanted[i]) {
                return Err(
                    NipartError::verification_failure(
                        "routes",
                        wanted[i].destination.as_str(),
                        "null",
                    ),
                );
            }
            i += 1;
        }
        Ok(())
    }
}

/// The first desired rule, at or after `from`, that is not bound to an
/// ignored interface and that `current` does not hold, as a failure.
pub open spec fn rule_failure(
    desired: Seq<RouteRuleEntryView>,
    current: Seq<RouteRuleEntryView>,
    ignored: Seq<Seq<char>>,
    from: int,
) -> Option<NipartErrorView>
    decreases desired.len() - from,
{
    if from < 0 || from >= desired.len() {
        None
    } else if !ignored.contains(desired[from].iif) && !current.contains(desired[from]) {
        Some(verification_failure_view("route-rules"@, desired[from].ip_from, "null"@))
    } else {
        rule_failure(desired, current, ignored, from + 1)
    }
}

impl MergedRouteRulesView {
    /// The desired rules that the current state does not hold; `None` where
    /// there is none, and so where no rules are desired.
    pub open spec fn diff(self) -> Option<Seq<RouteRuleEntryView>> {
        some_if_any(missing(listed(self.desired), listed(self.current)))
    }

    /// The first desired rule that `current` lacks, as a failure.
    pub open spec fn failure(
        self,
        current: Option<Seq<RouteRuleEntryView>>,
        ignored: Seq<Seq<char>>,
    ) -> Option<NipartErrorView> {
        rule_failure(listed(self.desired), listed(current), ignored, 0)
    }
}

impl MergedRouteRules {
    /// Lays the desired rules beside the current ones.
    pub fn new(desired: Option<Vec<RouteRuleEntry>>, current: Option<Vec<RouteRuleEntry>>) -> (r:
        Self)
        ensures
            r@.desired == desired.deep_view(),
            r@.current == current.deep_view(),
    {
        MergedRouteRules { desired, current }
    }

    /// The desired rules that the current state does not hold.
    pub fn gen_diff(&self) -> (r: Option<Vec<RouteRuleEntry>>)
        ensures
            r.deep_view() == self@.diff(),
    {
        let empty: Vec<RouteRuleEntry> = Vec::new();
        assert(empty.deep_view() =~= Seq::empty());
        let current = match &self.current {
            Some(c) => c,
            None => &empty,
        };
        let desired = match &self.desired {
            Some(d) => d,
            None => &empty,
        };
        let lacking = missing_entries(desired, current);
        if lacking.len() == 0 {
            None
        } else {
            Some(lacking)
        }
    }

    /// Checks that the state found holds every desired rule that is not
    /// bound to one of the ignored interfaces.
    pub fn verify(
        &self,
        current: &Option<Vec<RouteRuleEntry>>,
        ignored_ifaces: &Vec<String>,
    ) -> (r: Result<(), NipartError>)
        ensures
            match self@.failure(current.deep_view(), ignored_ifaces.deep_view()) {
                None => r is Ok,
                Some(e) => r is Err && r->Err_0@ == e,
            },
    {
        let empty: Vec<RouteRuleEntry> = Vec::new();
        assert(empty.deep_view() =~= Seq::empty());
        let wanted = match &self.desired {
            Some(d) => d,
            None => &empty,
        };
        let found = match current {
            Some(c) => c,
            None => &empty,
        };
        let mut i: usize = 0;
        while i < wanted.len()
            invariant
                i <= wanted.len(),
                wanted.deep_view() == listed(self@.desired),
                found.deep_view() == listed(current.deep_view()),
                rule_failure(wanted.deep_view(), found.deep_view(), ignored_ifaces.deep_view(), 0)
                    == rule_failure(
                    wanted.deep_view(),
                    found.deep_view(),
                    ignored_ifaces.deep_view(),
                    i as int,
                ),
            decreases wanted.len() - i,
        {
            if !holds(ignored_ifaces, &wanted[i].iif) && !holds(found, &wanted[i]) {
                return Err(
                    NipartError::verification_failure(
                        "route-rules",
                        wanted[i].ip_from.as_str(),
                        "null",
                    ),
                );
            }
            i += 1;
        }
        Ok(())
    }
}

} // verus!
