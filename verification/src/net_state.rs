//! The network state as a whole.

use crate::data::Data;
use crate::dhcp::{
    NipartDhcpConfig, NipartDhcpConfigV4, NipartDhcpConfigV4View, NipartDhcpConfigV6,
    NipartDhcpConfigV6View, NipartDhcpConfigView,
};
use crate::dns::{DnsState, DnsStateView, MergedDnsState, MergedDnsStateView};
use crate::error::{NipartError, NipartErrorView};
use crate::hostname::{
    HostNameState, HostNameStateView, MergedHostNameState, MergedHostNameStateView,
};
use crate::iface::InterfaceType;
use crate::ifaces::{
    Interface, InterfaceView, Interfaces, InterfacesView, MergedInterfaceView, MergedInterfaces,
    MergedInterfacesView,
};
use crate::names::{missing, missing_entries};
use crate::ovn::{
    MergedOvnConfiguration, MergedOvnConfigurationView, OvnConfiguration, OvnConfigurationView,
};
use crate::ovs::ovsdb_mismatch;
use crate::ovsdb::{
    MergedOvsDbGlobalConfig, MergedOvsDbGlobalConfigView, OvsDbGlobalConfig,
    OvsDbGlobalConfigView,
};
use crate::route::{
    listed, MergedRouteRules, MergedRouteRulesView, MergedRoutes, MergedRoutesView, RouteEntry,
    RouteEntryView, RouteRuleEntry, RouteRuleEntryView,
};
use crate::strmap::{lookup, strmap_remove, without_key};
use vstd::prelude::*;
use vstd::string::StringExecFns;

verus! {

/// A declarative description of the network: what is, or what is wanted.
#[derive(Debug, PartialEq)]
pub struct NetworkState {
    pub description: String,
    pub hostname: Option<HostNameState>,
    pub interfaces: Interfaces,
    pub routes: Option<Vec<RouteEntry>>,
    pub rules: Option<Vec<RouteRuleEntry>>,
    pub dns: Option<DnsState>,
    pub ovsdb: Option<OvsDbGlobalConfig>,
    pub ovn: OvnConfiguration,
}

/// The mathematical value of a [`NetworkState`].
#[verifier::ext_equal]
pub struct NetworkStateView {
    pub description: Seq<char>,
    pub hostname: Option<HostNameStateView>,
    pub interfaces: InterfacesView,
    pub routes: Option<Seq<RouteEntryView>>,
    pub rules: Option<Seq<RouteRuleEntryView>>,
    pub dns: Option<DnsStateView>,
    pub ovsdb: Option<OvsDbGlobalConfigView>,
    pub ovn: OvnConfigurationView,
}

impl DeepView for NetworkState {
    type V = NetworkStateView;

    open spec fn deep_view(&self) -> NetworkStateView {
        NetworkStateView {
            description: self.description.deep_view(),
            hostname: self.hostname.deep_view(),
            interfaces: self.interfaces.deep_view(),
            routes: self.routes.deep_view(),
            rules: self.rules.deep_view(),
            dns: self.dns.deep_view(),
            ovsdb: self.ovsdb.deep_view(),
            ovn: self.ovn.deep_view(),
        }
    }
}

impl View for NetworkState {
    type V = NetworkStateView;

    open spec fn view(&self) -> NetworkStateView {
        self.deep_view()
    }
}

impl Data for NetworkState {
    fn same(&self, other: &Self) -> (b: bool) {
        self.description.same(&other.description)
            && self.hostname.same(&other.hostname)
            && self.interfaces.same(&other.interfaces)
            && self.routes.same(&other.routes)
            && self.rules.same(&other.rules)
            && self.dns.same(&other.dns)
            && self.ovsdb.same(&other.ovsdb)
            && self.ovn.same(&other.ovn)
    }

    fn dup(&self) -> (r: Self) {
        NetworkState {
            description: self.description.dup(),
            hostname: self.hostname.dup(),
            interfaces: self.interfaces.dup(),
            routes: self.routes.dup(),
            rules: self.rules.dup(),
            dns: self.dns.dup(),
            ovsdb: self.ovsdb.dup(),
            ovn: self.ovn.dup(),
        }
    }
}

/// A desired state laid beside the current one, part by part.
#[derive(Debug, PartialEq)]
pub struct MergedNetworkState {
    pub interfaces: MergedInterfaces,
    pub hostname: MergedHostNameState,
    pub dns: MergedDnsState,
    pub routes: MergedRoutes,
    pub rules: MergedRouteRules,
    pub ovsdb: MergedOvsDbGlobalConfig,
    pub ovn: MergedOvnConfiguration,
}

/// The mathematical value of a [`MergedNetworkState`].
#[verifier::ext_equal]
pub struct MergedNetworkStateView {
    pub interfaces: MergedInterfacesView,
    pub hostname: MergedHostNameStateView,
    pub dns: MergedDnsStateView,
    pub routes: MergedRoutesView,
    pub rules: MergedRouteRulesView,
    pub ovsdb: MergedOvsDbGlobalConfigView,
    pub ovn: MergedOvnConfigurationView,
}

impl DeepView for MergedNetworkState {
    type V = MergedNetworkStateView;

    open spec fn deep_view(&self) -> MergedNetworkStateView {
        MergedNetworkStateView {
            interfaces: self.interfaces.deep_view(),
            hostname: self.hostname.deep_view(),
            dns: self.dns.deep_view(),
            routes: self.routes.deep_view(),
            rules: self.rules.deep_view(),
            ovsdb: self.ovsdb.deep_view(),
            ovn: self.ovn.deep_view(),
        }
    }
}

impl View for MergedNetworkState {
    type V = MergedNetworkStateView;

    open spec fn view(&self) -> MergedNetworkStateView {
        self.deep_view()
    }
}

impl Data for MergedNetworkState {
    fn same(&self, other: &Self) -> (b: bool) {
        self.interfaces.same(&other.interfaces)
            && self.hostname.same(&other.hostname)
            && self.dns.same(&other.dns)
            && self.routes.same(&other.routes)
            && self.rules.same(&other.rules)
            && self.ovsdb.same(&other.ovsdb)
            && self.ovn.same(&other.ovn)
    }

    fn dup(&self) -> (r: Self) {
        MergedNetworkState {
            interfaces: self.interfaces.dup(),
            hostname: self.hostname.dup(),
            dns: self.dns.dup(),
            routes: self.routes.dup(),
            rules: self.rules.dup(),
            ovsdb: self.ovsdb.dup(),
            ovn: self.ovn.dup(),
        }
    }
}

impl NetworkStateView {
    /// What keeps this state from being valid, as an error: a fault of its
    /// interfaces or, where they have none, of its database settings.
    /// `None` for a valid state.
    pub open spec fn invalid(self) -> Option<NipartErrorView> {
        if self.interfaces.invalid() is Some {
            self.interfaces.invalid()
        } else {
            match self.ovsdb {
                Some(o) => o.invalid(),
                None => None,
            }
        }
    }

    /// Whether the state is valid: its interfaces are, and so are its
    /// database settings. The collections of a state stand for maps: no
    /// name and no key occurs twice.
    pub open spec fn wf(self) -> bool {
        self.invalid() is None
    }

    /// The state that states nothing.
    pub open spec fn empty() -> NetworkStateView {
        NetworkStateView {
            description: Seq::empty(),
            hostname: None,
            interfaces: InterfacesView { ifaces: Seq::empty() },
            routes: None,
            rules: None,
            dns: None,
            ovsdb: None,
            ovn: OvnConfigurationView { bridge_mappings: None },
        }
    }

    /// This state after merging `other` into it. The resolver
    /// configuration, the database settings and the OVN configuration of
    /// `other`, where it states them, replace what was there; host names
    /// and interfaces are merged part by part; routes, rules and
    /// description stay as they were.
    pub open spec fn updated(self, other: NetworkStateView) -> NetworkStateView {
        NetworkStateView {
            hostname: match other.hostname {
                Some(oh) => Some(
                    match self.hostname {
                        Some(h) => h.updated(oh),
                        None => oh,
                    },
                ),
                None => self.hostname,
            },
            interfaces: self.interfaces.updated(other.interfaces),
            dns: if other.dns is Some {
                other.dns
            } else {
                self.dns
            },
            ovsdb: if other.ovsdb is Some {
                other.ovsdb
            } else {
                self.ovsdb
            },
            ovn: if !other.ovn.is_none() {
                other.ovn
            } else {
                self.ovn
            },
            ..self
        }
    }

    /// The state that a system in this state reaches when all of the
    /// difference `diff` is applied to it: the difference is merged into
    /// the state, and the routes and rules of the difference join those
    /// that were there.
    pub open spec fn with_applied(self, diff: NetworkStateView) -> NetworkStateView {
        NetworkStateView {
            routes: joined_entries(self.routes, diff.routes),
            rules: joined_entries(self.rules, diff.rules),
            ..self.updated(diff)
        }
    }

    /// What is left of this desired state when only the parts that differ
    /// from `current` are kept, or the error that keeps the two from being
    /// laid beside each other.
    pub open spec fn diff(self, current: NetworkStateView) -> Result<
        NetworkStateView,
        NipartErrorView,
    > {
        match MergedNetworkStateView::laid_out(self, current) {
            Err(e) => Err(e),
            Ok(m) => Ok(
                NetworkStateView {
                    interfaces: m.interfaces.diff(),
                    dns: if m.dns.is_changed() {
                        self.dns
                    } else {
                        None
                    },
                    hostname: if m.hostname.is_changed() {
                        self.hostname
                    } else {
                        None
                    },
                    routes: m.routes.diff(),
                    rules: m.rules.diff(),
                    description: if self.description != current.description {
                        self.description
                    } else {
                        Seq::empty()
                    },
                    ovsdb: if m.ovsdb.is_changed {
                        self.ovsdb
                    } else {
                        None
                    },
                    ovn: if m.ovn.is_changed() {
                        self.ovn
                    } else {
                        OvnConfigurationView { bridge_mappings: None }
                    },
                },
            ),
        }
    }
}

/// The entries of `mine` followed by those of `theirs` that `mine` does not
/// hold; `mine` as it is where `theirs` is missing.
pub open spec fn joined_entries<V>(mine: Option<Seq<V>>, theirs: Option<Seq<V>>) -> Option<Seq<V>> {
    match theirs {
        Some(t) => Some(listed(mine) + missing(t, listed(mine))),
        None => mine,
    }
}

/// Lets the entries of `theirs` that `mine` does not hold join `mine`.
fn join_entries<T: Data>(mine: &Option<Vec<T>>, theirs: &Option<Vec<T>>) -> (r: Option<Vec<T>>)
    ensures
        r.deep_view() == joined_entries(mine.deep_view(), theirs.deep_view()),
{
    match theirs {
        Some(t) => {
            let mut all: Vec<T> = match mine {
                Some(m) => m.dup(),
                None => Vec::new(),
            };
            assert(all.deep_view() =~= listed(mine.deep_view()));
            let ghost before = all.deep_view();
            let mut extra = missing_entries(t, &all);
            let ghost extra_view = extra.deep_view();
            all.append(&mut extra);
            assert(all.deep_view() =~= before + extra_view);
            Some(all)
        },
        None => mine.dup(),
    }
}

/// The states of a list merged into the empty state, first to last.
pub open spec fn merged_states(states: Seq<NetworkStateView>) -> NetworkStateView
    decreases states.len(),
{
    if states.len() == 0 {
        NetworkStateView::empty()
    } else {
        merged_states(states.drop_last()).updated(states.last())
    }
}

impl NetworkState {
    /// Checks that the state is valid. Fails with `InvalidArgument` for
    /// the first fault found.
    pub fn validate(&self) -> (r: Result<(), NipartError>)
        ensures
            match self@.invalid() {
                Some(e) => r is Err && r->Err_0@ == e,
                None => r is Ok,
            },
    {
        self.interfaces.validate()?;
        match &self.ovsdb {
            Some(o) => o.validate(),
            None => Ok(()),
        }
    }

    /// Whether the state is valid.
    pub fn is_wf(&self) -> (b: bool)
        ensures
            b == self@.wf(),
    {
        self.validate().is_ok()
    }

    /// The state that states nothing.
    pub fn new() -> (r: Self)
        ensures
            r@ == NetworkStateView::empty(),
            r@.wf(),
    {
        let r = NetworkState {
            description: String::new(),
            hostname: None,
            interfaces: Interfaces::new(),
            routes: None,
            rules: None,
            dns: None,
            ovsdb: None,
            ovn: OvnConfiguration::new(),
        };
        assert(r@.description =~= Seq::empty());
        r
    }

    /// Merges states in the given order: the state that was applied first
    /// stands first, and what a later state says stands against what an
    /// earlier one says.
    pub fn merge_states(states: Vec<NetworkState>) -> (ret: Self)
        ensures
            ret@ == merged_states(states.deep_view()),
            (forall|i: int| 0 <= i < states.len() ==> (#[trigger] states[i])@.wf()) ==> ret@.wf(),
    {
        let mut ret = NetworkState::new();
        let mut i: usize = 0;
        assert(states.deep_view().take(0) =~= Seq::empty());
        while i < states.len()
            invariant
                i <= states.len(),
                ret@ == merged_states(states.deep_view().take(i as int)),
                (forall|i: int| 0 <= i < states.len() ==> (#[trigger] states[i])@.wf())
                    ==> ret@.wf(),
            decreases states.len() - i,
        {
            assert(states.deep_view().take(i + 1).drop_last() =~= states.deep_view().take(i as int));
            assert(states.deep_view().take(i + 1).last() == states[i as int]@);
            ret.update_state(&states[i]);
            i += 1;
        }
        assert(states.deep_view().take(states.len() as int) =~= states.deep_view());
        ret
    }

    /// Merges `other` into this state. A valid state stays valid when a
    /// valid state is merged into it.
    pub fn update_state(&mut self, other: &Self)
        ensures
            final(self)@ == old(self)@.updated(other@),
            old(self)@.wf() && other@.wf() ==> final(self)@.wf(),
    {
        if let Some(other_hostname) = &other.hostname {
            let merged = match &self.hostname {
                Some(h) => {
                    let mut h = h.dup();
                    h.update(other_hostname);
                    h
                },
                None => other_hostname.dup(),
            };
            self.hostname = Some(merged);
        }
        self.interfaces.update(&other.interfaces);
        if other.dns.is_some() {
            self.dns = other.dns.dup();
        }
        if other.ovsdb.is_some() {
            self.ovsdb = other.ovsdb.dup();
        }
        if !other.ovn.is_none() {
            self.ovn = other.ovn.dup();
        }
    }

    /// Applies all of a difference to this state: the difference is merged
    /// into the state, and its routes and rules join those that were
    /// there. This is what a system in this state reaches when its plugins
    /// apply the difference in full.
    pub fn apply_diff(&mut self, diff: &Self)
        ensures
            final(self)@ == old(self)@.with_applied(diff@),
            old(self)@.wf() && diff@.wf() ==> final(self)@.wf(),
    {
        let routes = join_entries(&self.routes, &diff.routes);
        let rules = join_entries(&self.rules, &diff.rules);
        self.update_state(diff);
        self.routes = routes;
        self.rules = rules;
    }

    /// Generates the state that holds only what of this desired state
    /// differs from `current`. Fails, as the laying of the two states
    /// beside each other does, when this state names an interface twice.
    pub fn gen_diff(&self, current: &Self) -> (r: Result<Self, NipartError>)
        ensures
            match self@.diff(current@) {
                Ok(d) => r is Ok && r->Ok_0@ == d,
                Err(e) => r is Err && r->Err_0@ == e,
            },
    {
        let mut ret = NetworkState::new();
        let merged_state = MergedNetworkState::new(self.dup(), current.dup())?;

        ret.interfaces = merged_state.interfaces.gen_diff();
        if merged_state.dns.is_changed() {
            ret.dns = self.dns.dup();
        }
        if merged_state.hostname.is_changed() {
            ret.hostname = self.hostname.dup();
        }
        ret.routes = merged_state.routes.gen_diff();
        ret.rules = merged_state.rules.gen_diff();
        if !self.description.same(&current.description) {
            ret.description = self.description.dup();
        }
        if merged_state.ovsdb.is_changed() {
            ret.ovsdb = self.ovsdb.dup();
        }
        if merged_state.ovn.is_changed() {
            ret.ovn = self.ovn.dup();
        }
        Ok(ret)
    }
}

/// The names of the ignored interfaces that live in the kernel.
pub open spec fn ignored_kernel_names(ignored: Seq<(Seq<char>, InterfaceType)>) -> Seq<Seq<char>>
    decreases ignored.len(),
{
    if ignored.len() == 0 {
        Seq::empty()
    } else {
        let rest = ignored_kernel_names(ignored.drop_last());
        if ignored.last().1.userspace() {
            rest
        } else {
            rest.push(ignored.last().0)
        }
    }
}

impl InterfaceView {
    /// Whether the DHCP settings that matter for this interface ask for no
    /// client identifier and no DUID.
    pub open spec fn dhcp_is_plain(self) -> bool {
        let base = self.base();
        base.can_have_ip() ==> {
            &&& (base.ipv4 matches Some(ip) ==> ip.dhcp_client_id is None)
            &&& (base.ipv6 matches Some(ip) ==> ip.dhcp_duid is None)
        }
    }

    /// The DHCP client settings that follow from this interface. Where it
    /// may hold IP settings: one for each address family it states, with
    /// the client on when the family is enabled and asks for DHCP. Where it
    /// may not: both clients off.
    pub open spec fn dhcp_changes(self) -> Seq<NipartDhcpConfigView> {
        let base = self.base();
        if base.can_have_ip() {
            (match base.ipv4 {
                Some(ip) => seq![
                    NipartDhcpConfigView::V4(
                        NipartDhcpConfigV4View {
                            iface: base.name,
                            enabled: ip.enabled && ip.dhcp == Some(true),
                        },
                    ),
                ],
                None => Seq::empty(),
            }) + (match base.ipv6 {
                Some(ip) => seq![
                    NipartDhcpConfigView::V6(
                        NipartDhcpConfigV6View {
                            iface: base.name,
                            enabled: ip.enabled && ip.dhcp == Some(true),
                        },
                    ),
                ],
                None => Seq::empty(),
            })
        } else {
            seq![
                NipartDhcpConfigView::V4(NipartDhcpConfigV4View { iface: base.name, enabled: false }),
                NipartDhcpConfigView::V6(NipartDhcpConfigV6View { iface: base.name, enabled: false }),
            ]
        }
    }
}

/// The DHCP client settings that follow from what is to be applied of a
/// list of interfaces, in their order.
pub open spec fn dhcp_changes_of(entries: Seq<MergedInterfaceView>) -> Seq<NipartDhcpConfigView>
    decreases entries.len(),
{
    if entries.len() == 0 {
        Seq::empty()
    } else {
        dhcp_changes_of(entries.drop_last()) + match entries.last().for_apply {
            Some(a) => a.dhcp_changes(),
            None => Seq::empty(),
        }
    }
}

impl MergedNetworkStateView {
    /// The desired state laid beside the current one, or the error for a
    /// desired state that is not valid.
    pub open spec fn laid_out(desired: NetworkStateView, current: NetworkStateView) -> Result<
        MergedNetworkStateView,
        NipartErrorView,
    > {
        if desired.invalid() is Some {
            Err(desired.invalid()->0)
        } else {
            Ok(
                MergedNetworkStateView {
                    interfaces: MergedInterfacesView::laid_out(
                        desired.interfaces,
                        current.interfaces,
                    ),
                    hostname: MergedHostNameStateView {
                        desired: desired.hostname,
                        current: current.hostname,
                    },
                    dns: MergedDnsStateView { desired: desired.dns, current: current.dns },
                    routes: MergedRoutesView { desired: desired.routes, current: current.routes },
                    rules: MergedRouteRulesView { desired: desired.rules, current: current.rules },
                    ovsdb: MergedOvsDbGlobalConfigView::laid_out(
                        desired.ovsdb,
                        match current.ovsdb {
                            Some(c) => c,
                            None => OvsDbGlobalConfigView::empty(),
                        },
                    ),
                    ovn: MergedOvnConfigurationView { desired: desired.ovn, current: current.ovn },
                },
            )
        }
    }

    /// Whether every interface that is to be applied has plain DHCP
    /// settings.
    pub open spec fn dhcp_is_plain(self) -> bool {
        forall|i: int|
            0 <= i < self.interfaces.kernel_ifaces.len() ==> (
            #[trigger] self.interfaces.kernel_ifaces[i].for_apply matches Some(a)
                ==> a.dhcp_is_plain())
    }

    /// The first part of the desired state that `current` does not meet, as
    /// a failure. The parts are looked at in this order: host name,
    /// interfaces, routes, rules, resolver configuration, database
    /// settings, OVN configuration. Routes and rules bound to an ignored
    /// kernel interface are passed over.
    pub open spec fn failure(self, current: NetworkStateView) -> Option<NipartErrorView> {
        let ignored = ignored_kernel_names(self.interfaces.ignored_ifaces);
        let hostname = self.hostname.failure(current.hostname);
        let interfaces = self.interfaces.failure(current.interfaces);
        let routes = self.routes.failure(current.routes, ignored);
        let rules = self.rules.failure(current.rules, ignored);
        let dns = self.dns.failure(
            match current.dns {
                Some(c) => c,
                None => DnsStateView::empty(),
            },
        );
        let ovsdb = ovsdb_mismatch(
            self.ovsdb.desired,
            match current.ovsdb {
                Some(c) => c,
                None => OvsDbGlobalConfigView::empty(),
            },
        );
        let ovn = self.ovn.failure(current.ovn);
        if hostname is Some {
            hostname
        } else if interfaces is Some {
            interfaces
        } else if routes is Some {
            routes
        } else if rules is Some {
            rules
        } else if dns is Some {
            dns
        } else if ovsdb is Some {
            ovsdb
        } else {
            ovn
        }
    }
}

impl Interface {
    /// Whether the DHCP settings that matter for this interface ask for no
    /// client identifier and no DUID.
    pub fn dhcp_is_plain(&self) -> (b: bool)
        ensures
            b == self@.dhcp_is_plain(),
    {
        let base = self.base_iface();
        if base.can_have_ip() {
            let v4_plain = match &base.ipv4 {
                Some(ip) => ip.dhcp_client_id.is_none(),
                None => true,
            };
            let v6_plain = match &base.ipv6 {
                Some(ip) => ip.dhcp_duid.is_none(),
                None => true,
            };
            v4_plain && v6_plain
        } else {
            true
        }
    }
}

impl MergedNetworkState {
    /// Lays a desired state beside the current one. Fails with
    /// `InvalidArgument` when the desired state is not valid: when it names
    /// an interface twice, holds a bridge of Open vSwitch of another type,
    /// or gives a database setting twice.
    pub fn new(desired: NetworkState, current: NetworkState) -> (r: Result<Self, NipartError>)
        ensures
            match MergedNetworkStateView::laid_out(desired@, current@) {
                Ok(m) => r is Ok && r->Ok_0@ == m,
                Err(e) => r is Err && r->Err_0@ == e,
            },
    {
        let interfaces = MergedInterfaces::new(desired.interfaces, current.interfaces)?;
        if let Some(ovsdb) = &desired.ovsdb {
            ovsdb.validate()?;
        }
        let cur_ovsdb = match current.ovsdb {
            Some(c) => c,
            None => OvsDbGlobalConfig::new(),
        };
        Ok(
            MergedNetworkState {
                interfaces,
                hostname: MergedHostNameState::new(desired.hostname, current.hostname),
                dns: MergedDnsState::new(desired.dns, current.dns),
                routes: MergedRoutes::new(desired.routes, current.routes),
                rules: MergedRouteRules::new(desired.rules, current.rules),
                ovsdb: MergedOvsDbGlobalConfig::new(desired.ovsdb, cur_ovsdb),
                ovn: MergedOvnConfiguration::new(desired.ovn, current.ovn),
            },
        )
    }

    /// Whether every interface that is to be applied has plain DHCP
    /// settings, which `get_dhcp_changes` asks for.
    pub fn dhcp_is_plain(&self) -> (b: bool)
        ensures
            b == self@.dhcp_is_plain(),
    {
        let ifaces = &self.interfaces.kernel_ifaces;
        let mut i: usize = 0;
        while i < ifaces.len()
            invariant
                i <= ifaces.len(),
                ifaces.deep_view() == self@.interfaces.kernel_ifaces,
                forall|j: int|
                    0 <= j < i ==> (#[trigger] ifaces.deep_view()[j].for_apply matches Some(a)
                        ==> a.dhcp_is_plain()),
            decreases ifaces.len() - i,
        {
            if let Some(a) = &ifaces[i].for_apply {
                if !a.dhcp_is_plain() {
                    assert(ifaces.deep_view()[i as int].for_apply == Some(a@));
                    return false;
                }
            }
            i += 1;
        }
        true
    }

    /// The DHCP client settings that follow from the kernel interfaces that
    /// are to be applied.
    ///
    /// Client identifiers and DUIDs cannot be handed on yet: the interfaces
    /// to be applied must not ask for one.
    pub fn get_dhcp_changes(&self) -> (ret: Vec<NipartDhcpConfig>)
        requires
            self@.dhcp_is_plain(),
        ensures
            ret.deep_view() == dhcp_changes_of(self@.interfaces.kernel_ifaces),
    {
        let mut ret: Vec<NipartDhcpConfig> = Vec::new();
        let ifaces = &self.interfaces.kernel_ifaces;
        let mut i: usize = 0;
        assert(ifaces.deep_view().take(0) =~= Seq::empty());
        assert(ret.deep_view() =~= Seq::empty());
        while i < ifaces.len()
            invariant
                i <= ifaces.len(),
                ret.deep_view() == dhcp_changes_of(ifaces.deep_view().take(i as int)),
            decreases ifaces.len() - i,
        {
            let ghost before = ret.deep_view();
            assert(ifaces.deep_view().take(i + 1).drop_last() =~= ifaces.deep_view().take(i as int));
            assert(ifaces.deep_view().take(i + 1).last() == ifaces[i as int]@);
            if let Some(iface) = &ifaces[i].for_apply {
                let ghost mut mid = before;
                if iface.base_iface().can_have_ip() {
                    if let Some(ipv4) = &iface.base_iface().ipv4 {
                        let dhcp_conf = NipartDhcpConfigV4::new(
                            String::from_str(iface.name()),
                            ipv4.enabled && is_true(&ipv4.dhcp),
                        );
                        ret.push(NipartDhcpConfig::V4(dhcp_conf));
                        proof {
                            mid = ret.deep_view();
                        }
                        assert(mid =~= before + seq![ret[ret.len() - 1]@]);
                    }
                    if let Some(ipv6) = &iface.base_iface().ipv6 {
                        let dhcp_conf = NipartDhcpConfigV6::new(
                            String::from_str(iface.name()),
                            ipv6.enabled && is_true(&ipv6.dhcp),
                        );
                        ret.push(NipartDhcpConfig::V6(dhcp_conf));
                        assert(ret.deep_view() =~= mid + seq![ret[ret.len() - 1]@]);
                    }
                } else {
                    ret.push(
                        NipartDhcpConfig::V4(
                            NipartDhcpConfigV4::new(String::from_str(iface.name()), false),
                        ),
                    );
                    ret.push(
                        NipartDhcpConfig::V6(
                            NipartDhcpConfigV6::new(String::from_str(iface.name()), false),
                        ),
                    );
                }
                assert(ret.deep_view() =~= before + iface@.dhcp_changes());
            } else {
                assert(ret.deep_view() =~= before + Seq::<NipartDhcpConfigView>::empty());
            }
            i += 1;
        }
        assert(ifaces.deep_view().take(ifaces.len() as int) =~= ifaces.deep_view());
        ret
    }

    /// The desired host names, if any are desired.
    pub fn get_desired_hostname(&self) -> (r: Option<&HostNameState>)
        ensures
            r.deep_view() == self@.hostname.desired,
    {
        self.hostname.desired.as_ref()
    }

    /// The names of the ignored interfaces that live in the kernel.
    pub fn ignored_kernel_ifaces(&self) -> (r: Vec<String>)
        ensures
            r.deep_view() == ignored_kernel_names(self@.interfaces.ignored_ifaces),
    {
        let ignored = &self.interfaces.ignored_ifaces;
        let mut out: Vec<String> = Vec::new();
        let mut i: usize = 0;
        assert(ignored.deep_view().take(0) =~= Seq::empty());
        assert(out.deep_view() =~= Seq::empty());
        while i < ignored.len()
            invariant
                i <= ignored.len(),
                out.deep_view() == ignored_kernel_names(ignored.deep_view().take(i as int)),
            decreases ignored.len() - i,
        {
            let ghost before = out.deep_view();
            assert(ignored.deep_view().take(i + 1).drop_last() =~= ignored.deep_view().take(
                i as int,
            ));
            assert(ignored.deep_view().take(i + 1).last() == ignored[i as int].deep_view());
            if !ignored[i].1.is_userspace() {
                out.push(ignored[i].0.dup());
                assert(out.deep_view() =~= before.push(ignored[i as int].0@));
            }
            i += 1;
        }
        assert(ignored.deep_view().take(ignored.len() as int) =~= ignored.deep_view());
        out
    }

    /// Compares the desired state with the state found after applying.
    /// Succeeds when every part is met, else fails with the
    /// `VerificationError` of the first part that is not.
    pub fn verify(&self, current: &NetworkState) -> (r: Result<(), NipartError>)
        ensures
            match self@.failure(current@) {
                None => r is Ok,
                Some(e) => r is Err && r->Err_0@ == e,
            },
    {
        self.hostname.verify(current.hostname.as_ref())?;
        self.interfaces.verify(&current.interfaces)?;
        let ignored_kernel_ifaces = self.ignored_kernel_ifaces();
        self.routes.verify(&current.routes, &ignored_kernel_ifaces)?;
        self.rules.verify(&current.rules, &ignored_kernel_ifaces)?;
        let cur_dns = match &current.dns {
            Some(c) => c.dup(),
            None => DnsState::new(),
        };
        self.dns.verify(cur_dns)?;
        let cur_ovsdb = match &current.ovsdb {
            Some(c) => c.dup(),
            None => OvsDbGlobalConfig::new(),
        };
        self.ovsdb.verify(cur_ovsdb)?;
        self.ovn.verify(&current.ovn)?;
        Ok(())
    }
}

/// Whether an optional flag is set.
fn is_true(flag: &Option<bool>) -> (b: bool)
    ensures
        b == (*flag == Some(true)),
{
    match flag {
        Some(f) => *f,
        None => false,
    }
}

/// The key of the database settings under which OVN keeps its bridge
/// mappings.
pub const OVN_BRIDGE_MAPPINGS_KEY: &'static str = "ovn-bridge-mappings";

impl NetworkStateView {
    /// What the database settings bind the key of the OVN bridge mappings
    /// to, if they hold the key.
    pub open spec fn ovn_mappings_entry(self) -> Option<Option<Seq<char>>> {
        match self.ovsdb {
            Some(o) => match o.external_ids {
                Some(ids) => lookup(ids, OVN_BRIDGE_MAPPINGS_KEY@),
                None => None,
            },
            None => None,
        }
    }

    /// This state without the key of the OVN bridge mappings in its
    /// database settings.
    pub open spec fn without_ovn_mappings_entry(self) -> NetworkStateView {
        match self.ovsdb {
            Some(o) => match o.external_ids {
                Some(ids) => NetworkStateView {
                    ovsdb: Some(
                        OvsDbGlobalConfigView {
                            external_ids: Some(without_key(ids, OVN_BRIDGE_MAPPINGS_KEY@)),
                            ..o
                        },
                    ),
                    ..self
                },
                None => self,
            },
            None => self,
        }
    }

    /// This state after the OVN bridge mappings have moved from the
    /// database settings to the OVN configuration, with the error that the
    /// reading of the mappings met, if it met one. The key leaves the
    /// database settings in any case.
    pub open spec fn isolated_ovn(self) -> (NetworkStateView, Option<NipartErrorView>) {
        let stripped = self.without_ovn_mappings_entry();
        match self.ovn_mappings_entry() {
            Some(Some(text)) => match OvnConfigurationView::parsed(text) {
                Ok(ovn) => (NetworkStateView { ovn, ..stripped }, None),
                Err(e) => (stripped, Some(e)),
            },
            _ => (stripped, None),
        }
    }
}

impl NetworkState {
    /// Moves the OVN bridge mappings out of the database settings, where
    /// Open vSwitch keeps them as text under one key, into the OVN
    /// configuration. Fails with `InvalidArgument` when the text cannot be
    /// read; the key has left the database settings by then.
    pub fn isolate_ovn(&mut self) -> (r: Result<(), NipartError>)
        ensures
            old(self)@.wf() ==> final(self)@.wf(),
            final(self)@ == old(self)@.isolated_ovn().0,
            match old(self)@.isolated_ovn().1 {
                None => r is Ok,
                Some(e) => r is Err && r->Err_0@ == e,
            },
    {
        let key = String::from_str(OVN_BRIDGE_MAPPINGS_KEY);
        let mut removed: Option<Option<String>> = None;
        let mut stripped: Option<OvsDbGlobalConfig> = None;
        if let Some(o) = &self.ovsdb {
            if let Some(ids) = &o.external_ids {
                let mut ids = ids.dup();
                removed = strmap_remove(&mut ids, &key);
                stripped =
                Some(OvsDbGlobalConfig { external_ids: Some(ids), other_config: o.other_config.dup() });
            }
        }
        if stripped.is_some() {
            self.ovsdb = stripped;
        }
        if let Some(Some(ovn_maps_str)) = removed {
            self.ovn = OvnConfiguration::parse(ovn_maps_str.as_str())?;
        }
        Ok(())
    }
}

} // verus!
