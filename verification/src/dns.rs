//! Resolver configuration.

use crate::data::Data;
use crate::error::{verification_failure_view, NipartError, NipartErrorView};
use crate::names::{join_names, joined};
use vstd::prelude::*;

verus! {

/// Name servers and search domains, in order of preference.
#[derive(Debug, PartialEq)]
pub struct DnsState {
    pub servers: Vec<String>,
    pub searches: Vec<String>,
}

/// The mathematical value of a [`DnsState`].
#[verifier::ext_equal]
pub struct DnsStateView {
    pub servers: Seq<Seq<char>>,
    pub searches: Seq<Seq<char>>,
}

impl DeepView for DnsState {
    type V = DnsStateView;

    open spec fn deep_view(&self) -> DnsStateView {
        DnsStateView {
            servers: self.servers.deep_view(),
            searches: self.searches.deep_view(),
        }
    }
}

impl View for DnsState {
    type V = DnsStateView;

    open spec fn view(&self) -> DnsStateView {
        self.deep_view()
    }
}

impl Data for DnsState {
    fn same(&self, other: &Self) -> (b: bool) {
        self.servers.same(&other.servers)
            && self.searches.same(&other.searches)
    }

    fn dup(&self) -> (r: Self) {
        DnsState {
            servers: self.servers.dup(),
            searches: self.searches.dup(),
        }
    }
}

/// Desired resolver configuration beside the current one.
#[derive(Debug, PartialEq)]
pub struct MergedDnsState {
    pub desired: Option<DnsState>,
    pub current: Option<DnsState>,
}

/// The mathematical value of a [`MergedDnsState`].
#[verifier::ext_equal]
pub struct MergedDnsStateView {
    pub desired: Option<DnsStateView>,
    pub current: Option<DnsStateView>,
}

impl DeepView for MergedDnsState {
    type V = MergedDnsStateView;

    open spec fn deep_view(&self) -> MergedDnsStateView {
        MergedDnsStateView {
            desired: self.desired.deep_view(),
            current: self.current.deep_view(),
        }
    }
}

impl View for MergedDnsState {
    type V = MergedDnsStateView;

    open spec fn view(&self) -> MergedDnsStateView {
        self.deep_view()
    }
}

impl Data for MergedDnsState {
    fn same(&self, other: &Self) -> (b: bool) {
        self.desired.same(&other.desired)
            && self.current.same(&other.current)
    }

    fn dup(&self) -> (r: Self) {
        MergedDnsState {
            desired: self.desired.dup(),
            current: self.current.dup(),
        }
    }
}

impl DnsStateView {
    /// No name server and no search domain.
    pub open spec fn empty() -> DnsStateView {
        DnsStateView { servers: Seq::empty(), searches: Seq::empty() }
    }
}

impl DnsState {
    /// No name server and no search domain.
    pub fn new() -> (r: Self)
        ensures
            r@ == DnsStateView::empty(),
    {
        let r = DnsState { servers: Vec::new(), searches: Vec::new() };
        assert(r@.servers =~= Seq::empty());
        assert(r@.searches =~= Seq::empty());
        r
    }
}

impl MergedDnsStateView {
    /// The first part of the desired resolver configuration that differs
    /// from `current`, as a failure: servers are looked at before search
    /// domains.
    pub open spec fn failure(self, current: DnsStateView) -> Option<NipartErrorView> {
        match self.desired {
            None => None,
            Some(d) => if d.servers != current.servers {
                Some(
                    verification_failure_view(
                        "dns.servers"@,
                        joined(d.servers, ","@),
                        joined(current.servers, ","@),
                    ),
                )
            } else if d.searches != current.searches {
                Some(
                    verification_failure_view(
                        "dns.searches"@,
                        joined(d.searches, ","@),
                        joined(current.searches, ","@),
                    ),
                )
            } else {
                None
            },
        }
    }

    /// Whether a resolver configuration is desired that differs from the
    /// current one; a missing current one counts as empty.
    pub open spec fn is_changed(self) -> bool {
        self.failure(
            match self.current {
                Some(c) => c,
                None => DnsStateView::empty(),
            },
        ) is Some
    }
}

impl MergedDnsState {
    /// Lays the desired resolver configuration beside the current one.
    pub fn new(desired: Option<DnsState>, current: Option<DnsState>) -> (r: Self)
        ensures
            r@.desired == desired.deep_view(),
            r@.current == current.deep_view(),
    {
        MergedDnsState { desired, current }
    }

    /// Compares the desired resolver configuration with the one found.
    pub fn verify(&self, current: DnsState) -> (r: Result<(), NipartError>)
        ensures
            match self@.failure(current@) {
                None => r is Ok,
                Some(e) => r is Err && r->Err_0@ == e,
            },
    {
        let desired = match &self.desired {
            Some(d) => d,
            None => {
                return Ok(());
            },
        };
        if !desired.servers.same(&current.servers) {
            let want = join_names(&desired.servers, ",");
            let found = join_names(&current.servers, ",");
            return Err(
                NipartError::verification_failure("dns.servers", want.as_str(), found.as_str()),
            );
        }
        if !desired.searches.same(&current.searches) {
            let want = join_names(&desired.searches, ",");
            let found = join_names(&current.searches, ",");
            return Err(
                NipartError::verification_failure("dns.searches", want.as_str(), found.as_str()),
            );
        }
        Ok(())
    }

    /// Whether a resolver configuration is desired that differs from the
    /// current one.
    pub fn is_changed(&self) -> (b: bool)
        ensures
            b == self@.is_changed(),
    {
        let current = match &self.current {
            Some(c) => c.dup(),
            None => DnsState::new(),
        };
        self.verify(current).is_err()
    }
}

} // verus!
