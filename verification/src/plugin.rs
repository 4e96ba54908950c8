//! Plugins: their roles and the events exchanged with them.

use crate::data::Data;
use crate::dhcp::{NipartDhcpConfig, NipartDhcpConfigView, NipartDhcpLease, NipartDhcpLeaseView};
use crate::monitor::{
    NipartMonitorEvent, NipartMonitorEventView, NipartMonitorRule, NipartMonitorRuleView,
};
use crate::names::{join_names, joined};
use crate::net_state::{MergedNetworkState, MergedNetworkStateView, NetworkState, NetworkStateView};
use crate::options::{NipartApplyOption, NipartLogLevel, NipartQueryOption};
use vstd::prelude::*;
use vstd::string::StringExecFns;

verus! {

/// A capability that a plugin advertises.
#[derive(Clone, Copy, Debug, PartialEq, Eq, Structural)]
pub enum NipartRole {
    Dhcp,
    QueryAndApply,
    ApplyDhcpLease,
    Ovs,
    Lldp,
    Monitor,
    Config,
}

impl DeepView for NipartRole {
    type V = NipartRole;

    open spec fn deep_view(&self) -> NipartRole {
        *self
    }
}

impl Data for NipartRole {
    fn same(&self, other: &Self) -> (b: bool) {
        *self == *other
    }

    fn dup(&self) -> (r: Self) {
        *self
    }
}

/// Name and roles of a plugin.
#[derive(Debug, PartialEq)]
pub struct NipartPluginInfo {
    pub name: String,
    pub roles: Vec<NipartRole>,
}

/// The mathematical value of a [`NipartPluginInfo`].
#[verifier::ext_equal]
pub struct NipartPluginInfoView {
    pub name: Seq<char>,
    pub roles: Seq<NipartRole>,
}

impl DeepView for NipartPluginInfo {
    type V = NipartPluginInfoView;

    open spec fn deep_view(&self) -> NipartPluginInfoView {
        NipartPluginInfoView {
            name: self.name.deep_view(),
            roles: self.roles.deep_view(),
        }
    }
}

impl View for NipartPluginInfo {
    type V = NipartPluginInfoView;

    open spec fn view(&self) -> NipartPluginInfoView {
        self.deep_view()
    }
}

impl Data for NipartPluginInfo {
    fn same(&self, other: &Self) -> (b: bool) {
        self.name.same(&other.name)
            && self.roles.same(&other.roles)
    }

    fn dup(&self) -> (r: Self) {
        NipartPluginInfo {
            name: self.name.dup(),
            roles: self.roles.dup(),
        }
    }
}

/// The plugin-level payload of an event.
#[derive(Debug, PartialEq)]
pub enum NipartPluginEvent {
    /// No payload of this level.
    Nil,
    Quit,
    QueryPluginInfo,
    QueryPluginInfoReply(NipartPluginInfo),
    ChangeLogLevel(NipartLogLevel),
    QueryLogLevel,
    QueryLogLevelReply(NipartLogLevel),
    QueryNetState(NipartQueryOption),
    QueryRelatedNetState(Box<NetworkState>),
    /// A state and the priority it is merged with.
    QueryNetStateReply(Box<NetworkState>, u32),
    ApplyNetState(Box<MergedNetworkState>, NipartApplyOption),
    ApplyNetStateReply,
    /// Interface names; an empty list asks for all interfaces.
    QueryDhcpConfig(Box<Vec<String>>),
    QueryDhcpConfigReply(Box<Vec<NipartDhcpConfig>>),
    ApplyDhcpConfig(Box<Vec<NipartDhcpConfig>>),
    ApplyDhcpConfigReply,
    /// The DHCP plugin tells the commander of a new lease.
    GotDhcpLease(Box<NipartDhcpLease>),
    /// The commander asks the responsible plugins to apply a lease.
    ApplyDhcpLease(Box<NipartDhcpLease>),
    ApplyDhcpLeaseReply,
    /// No reply is expected.
    RegisterMonitorRule(Box<NipartMonitorRule>),
    /// No reply is expected.
    RemoveMonitorRule(Box<NipartMonitorRule>),
    /// No reply is expected.
    GotMonitorEvent(Box<NipartMonitorEvent>),
}

/// The mathematical value of a [`NipartPluginEvent`].
#[verifier::ext_equal]
pub enum NipartPluginEventView {
    Nil,
    Quit,
    QueryPluginInfo,
    QueryPluginInfoReply(NipartPluginInfoView),
    ChangeLogLevel(NipartLogLevel),
    QueryLogLevel,
    QueryLogLevelReply(NipartLogLevel),
    QueryNetState(NipartQueryOption),
    QueryRelatedNetState(NetworkStateView),
    QueryNetStateReply(NetworkStateView, u32),
    ApplyNetState(MergedNetworkStateView, NipartApplyOption),
    ApplyNetStateReply,
    QueryDhcpConfig(Seq<Seq<char>>),
    QueryDhcpConfigReply(Seq<NipartDhcpConfigView>),
    ApplyDhcpConfig(Seq<NipartDhcpConfigView>),
    ApplyDhcpConfigReply,
    GotDhcpLease(NipartDhcpLeaseView),
    ApplyDhcpLease(NipartDhcpLeaseView),
    ApplyDhcpLeaseReply,
    RegisterMonitorRule(NipartMonitorRuleView),
    RemoveMonitorRule(NipartMonitorRuleView),
    GotMonitorEvent(NipartMonitorEventView),
}

impl DeepView for NipartPluginEvent {
    type V = NipartPluginEventView;

    open spec fn deep_view(&self) -> NipartPluginEventView {
        match self {
            Self::Nil => NipartPluginEventView::Nil,
            Self::Quit => NipartPluginEventView::Quit,
            Self::QueryPluginInfo => NipartPluginEventView::QueryPluginInfo,
            Self::QueryPluginInfoReply(a0) => {
                NipartPluginEventView::QueryPluginInfoReply(a0.deep_view())
            },
            Self::ChangeLogLevel(a0) => NipartPluginEventView::ChangeLogLevel(a0.deep_view()),
            Self::QueryLogLevel => NipartPluginEventView::QueryLogLevel,
            Self::QueryLogLevelReply(a0) => {
                NipartPluginEventView::QueryLogLevelReply(a0.deep_view())
            },
            Self::QueryNetState(a0) => NipartPluginEventView::QueryNetState(a0.deep_view()),
            Self::QueryRelatedNetState(a0) => {
                NipartPluginEventView::QueryRelatedNetState(a0.deep_view())
            },
            Self::QueryNetStateReply(a0, a1) => {
                NipartPluginEventView::QueryNetStateReply(a0.deep_view(), a1.deep_view())
            },
            Self::ApplyNetState(a0, a1) => {
                NipartPluginEventView::ApplyNetState(a0.deep_view(), a1.deep_view())
            },
            Self::ApplyNetStateReply => NipartPluginEventView::ApplyNetStateReply,
            Self::QueryDhcpConfig(a0) => NipartPluginEventView::QueryDhcpConfig(a0.deep_view()),
            Self::QueryDhcpConfigReply(a0) => {
                NipartPluginEventView::QueryDhcpConfigReply(a0.deep_view())
            },
            Self::ApplyDhcpConfig(a0) => NipartPluginEventView::ApplyDhcpConfig(a0.deep_view()),
            Self::ApplyDhcpConfigReply => NipartPluginEventView::ApplyDhcpConfigReply,
            Self::GotDhcpLease(a0) => NipartPluginEventView::GotDhcpLease(a0.deep_view()),
            Self::ApplyDhcpLease(a0) => NipartPluginEventView::ApplyDhcpLease(a0.deep_view()),
            Self::ApplyDhcpLeaseReply => NipartPluginEventView::ApplyDhcpLeaseReply,
            Self::RegisterMonitorRule(a0) => {
                NipartPluginEventView::RegisterMonitorRule(a0.deep_view())
            },
            Self::RemoveMonitorRule(a0) => NipartPluginEventView::RemoveMonitorRule(a0.deep_view()),
            Self::GotMonitorEvent(a0) => NipartPluginEventView::GotMonitorEvent(a0.deep_view()),
        }
    }
}

impl View for NipartPluginEvent {
    type V = NipartPluginEventView;

    open spec fn view(&self) -> NipartPluginEventView {
        self.deep_view()
    }
}

impl Data for NipartPluginEvent {
    fn same(&self, other: &Self) -> (b: bool) {
        match (self, other) {
            (Self::Nil, Self::Nil) => true,
            (Self::Quit, Self::Quit) => true,
            (Self::QueryPluginInfo, Self::QueryPluginInfo) => true,
            (Self::QueryPluginInfoReply(a0), Self::QueryPluginInfoReply(b0)) => a0.same(b0),
            (Self::ChangeLogLevel(a0), Self::ChangeLogLevel(b0)) => a0.same(b0),
            (Self::QueryLogLevel, Self::QueryLogLevel) => true,
            (Self::QueryLogLevelReply(a0), Self::QueryLogLevelReply(b0)) => a0.same(b0),
            (Self::QueryNetState(a0), Self::QueryNetState(b0)) => a0.same(b0),
            (Self::QueryRelatedNetState(a0), Self::QueryRelatedNetState(b0)) => a0.same(b0),
            (Self::QueryNetStateReply(a0, a1), Self::QueryNetStateReply(b0, b1)) => {
                a0.same(b0) && a1.same(b1)
            },
            (Self::ApplyNetState(a0, a1), Self::ApplyNetState(b0, b1)) => {
                a0.same(b0) && a1.same(b1)
            },
            (Self::ApplyNetStateReply, Self::ApplyNetStateReply) => true,
            (Self::QueryDhcpConfig(a0), Self::QueryDhcpConfig(b0)) => a0.same(b0),
            (Self::QueryDhcpConfigReply(a0), Self::QueryDhcpConfigReply(b0)) => a0.same(b0),
            (Self::ApplyDhcpConfig(a0), Self::ApplyDhcpConfig(b0)) => a0.same(b0),
            (Self::ApplyDhcpConfigReply, Self::ApplyDhcpConfigReply) => true,
            (Self::GotDhcpLease(a0), Self::GotDhcpLease(b0)) => a0.same(b0),
            (Self::ApplyDhcpLease(a0), Self::ApplyDhcpLease(b0)) => a0.same(b0),
            (Self::ApplyDhcpLeaseReply, Self::ApplyDhcpLeaseReply) => true,
            (Self::RegisterMonitorRule(a0), Self::RegisterMonitorRule(b0)) => a0.same(b0),
            (Self::RemoveMonitorRule(a0), Self::RemoveMonitorRule(b0)) => a0.same(b0),
            (Self::GotMonitorEvent(a0), Self::GotMonitorEvent(b0)) => a0.same(b0),
            _ => false,
        }
    }

    fn dup(&self) -> (r: Self) {
        match self {
            Self::Nil => Self::Nil,
            Self::Quit => Self::Quit,
            Self::QueryPluginInfo => Self::QueryPluginInfo,
            Self::QueryPluginInfoReply(a0) => Self::QueryPluginInfoReply(a0.dup()),
            Self::ChangeLogLevel(a0) => Self::ChangeLogLevel(a0.dup()),
            Self::QueryLogLevel => Self::QueryLogLevel,
            Self::QueryLogLevelReply(a0) => Self::QueryLogLevelReply(a0.dup()),
            Self::QueryNetState(a0) => Self::QueryNetState(a0.dup()),
            Self::QueryRelatedNetState(a0) => Self::QueryRelatedNetState(a0.dup()),
            Self::QueryNetStateReply(a0, a1) => Self::QueryNetStateReply(a0.dup(), a1.dup()),
            Self::ApplyNetState(a0, a1) => Self::ApplyNetState(a0.dup(), a1.dup()),
            Self::ApplyNetStateReply => Self::ApplyNetStateReply,
            Self::QueryDhcpConfig(a0) => Self::QueryDhcpConfig(a0.dup()),
            Self::QueryDhcpConfigReply(a0) => Self::QueryDhcpConfigReply(a0.dup()),
            Self::ApplyDhcpConfig(a0) => Self::ApplyDhcpConfig(a0.dup()),
            Self::ApplyDhcpConfigReply => Self::ApplyDhcpConfigReply,
            Self::GotDhcpLease(a0) => Self::GotDhcpLease(a0.dup()),
            Self::ApplyDhcpLease(a0) => Self::ApplyDhcpLease(a0.dup()),
            Self::ApplyDhcpLeaseReply => Self::ApplyDhcpLeaseReply,
            Self::RegisterMonitorRule(a0) => Self::RegisterMonitorRule(a0.dup()),
            Self::RemoveMonitorRule(a0) => Self::RemoveMonitorRule(a0.dup()),
            Self::GotMonitorEvent(a0) => Self::GotMonitorEvent(a0.dup()),
        }
    }
}

impl NipartRole {
    /// The word a role is shown as.
    pub open spec fn name_spec(self) -> Seq<char> {
        match self {
            NipartRole::Dhcp => "dhcp"@,
            NipartRole::QueryAndApply => "query_and_apply"@,
            NipartRole::Ovs => "ovs"@,
            NipartRole::Lldp => "lldp"@,
            NipartRole::Monitor => "monitor"@,
            NipartRole::Config => "config"@,
            NipartRole::ApplyDhcpLease => "apply_dhcp_lease"@,
        }
    }

    /// The word this role is shown as.
    pub fn name(&self) -> (s: &'static str)
        ensures
            s@ == self.name_spec(),
    {
        match self {
            NipartRole::Dhcp => "dhcp",
            NipartRole::QueryAndApply => "query_and_apply",
            NipartRole::Ovs => "ovs",
            NipartRole::Lldp => "lldp",
            NipartRole::Monitor => "monitor",
            NipartRole::Config => "config",
            NipartRole::ApplyDhcpLease => "apply_dhcp_lease",
        }
    }
}

impl NipartPluginInfo {
    /// The description of a plugin.
    pub fn new(name: String, roles: Vec<NipartRole>) -> (r: Self)
        ensures
            r@ == (NipartPluginInfoView { name: name@, roles: roles.deep_view() }),
    {
        NipartPluginInfo { name, roles }
    }
}

impl NipartPluginEventView {
    /// Whether the event answers a request of the commander, or tells it of
    /// something a monitor saw.
    pub open spec fn is_reply(self) -> bool {
        match self {
            NipartPluginEventView::QueryPluginInfoReply(_) => true,
            NipartPluginEventView::QueryLogLevelReply(_) => true,
            NipartPluginEventView::QueryNetStateReply(_, _) => true,
            NipartPluginEventView::ApplyNetStateReply => true,
            NipartPluginEventView::QueryDhcpConfigReply(_) => true,
            NipartPluginEventView::ApplyDhcpConfigReply => true,
            NipartPluginEventView::ApplyDhcpLeaseReply => true,
            NipartPluginEventView::GotMonitorEvent(_) => true,
            _ => false,
        }
    }

    /// The text an event is shown as: the name of its kind and, for some
    /// kinds, a colon and what it carries.
    pub open spec fn text(self) -> Seq<char> {
        match self {
            NipartPluginEventView::Nil => "none"@,
            NipartPluginEventView::Quit => "quit"@,
            NipartPluginEventView::QueryPluginInfo => "query_plugin_info"@,
            NipartPluginEventView::QueryPluginInfoReply(_) => "query_plugin_info_reply"@,
            NipartPluginEventView::ChangeLogLevel(l) => "change_log_level:"@ + l.name_spec(),
            NipartPluginEventView::QueryLogLevel => "query_log_level"@,
            NipartPluginEventView::QueryLogLevelReply(_) => "query_log_level_reply"@,
            NipartPluginEventView::QueryNetState(_) => "query_netstate"@,
            NipartPluginEventView::QueryNetStateReply(_, _) => "query_netstate_reply"@,
            NipartPluginEventView::QueryRelatedNetState(_) => "query_related_netstate"@,
            NipartPluginEventView::ApplyNetState(_, _) => "apply_netstate"@,
            NipartPluginEventView::ApplyNetStateReply => "apply_netstate_reply"@,
            NipartPluginEventView::QueryDhcpConfig(_) => "query_dhcp_config"@,
            NipartPluginEventView::QueryDhcpConfigReply(_) => "query_dhcp_config_reply"@,
            NipartPluginEventView::ApplyDhcpConfig(configs) => "apply_dhcp_config:"@ + joined(
                configs.map_values(|c: NipartDhcpConfigView| c.text()),
                ","@,
            ),
            NipartPluginEventView::ApplyDhcpConfigReply => "apply_dhcp_config_reply"@,
            NipartPluginEventView::GotDhcpLease(_) => "got_dhcp_lease"@,
            NipartPluginEventView::ApplyDhcpLease(_) => "apply_dhcp_lease"@,
            NipartPluginEventView::ApplyDhcpLeaseReply => "apply_dhcp_lease_reply"@,
            NipartPluginEventView::RegisterMonitorRule(rule) => "register_monitor_rule:"@
                + rule.text(),
            NipartPluginEventView::RemoveMonitorRule(rule) => "remove_monitor_rule:"@ + rule.text(),
            NipartPluginEventView::GotMonitorEvent(event) => "got_monitor_event:"@ + event.text(),
        }
    }
}

/// Writes the texts of DHCP client settings.
fn dhcp_config_texts(configs: &Vec<NipartDhcpConfig>) -> (r: Vec<String>)
    ensures
        r.deep_view() == configs.deep_view().map_values(|c: NipartDhcpConfigView| c.text()),
{
    let mut out: Vec<String> = Vec::new();
    let mut i: usize = 0;
    while i < configs.len()
        invariant
            i <= configs.len(),
            out.len() == i,
            forall|j: int| 0 <= j < i ==> out[j]@ == (#[trigger] configs[j])@.text(),
        decreases configs.len() - i,
    {
        out.push(configs[i].to_text());
        i += 1;
    }
    assert(out.deep_view() =~= configs.deep_view().map_values(
        |c: NipartDhcpConfigView| c.text(),
    ));
    out
}

impl NipartPluginEvent {
    /// Whether the event answers a request of the commander, or tells it of
    /// something a monitor saw.
    pub fn is_reply(&self) -> (b: bool)
        ensures
            b == self@.is_reply(),
    {
        match self {
            NipartPluginEvent::QueryPluginInfoReply(_) => true,
            NipartPluginEvent::QueryLogLevelReply(_) => true,
            NipartPluginEvent::QueryNetStateReply(_, _) => true,
            NipartPluginEvent::ApplyNetStateReply => true,
            NipartPluginEvent::QueryDhcpConfigReply(_) => true,
            NipartPluginEvent::ApplyDhcpConfigReply => true,
            NipartPluginEvent::ApplyDhcpLeaseReply => true,
            NipartPluginEvent::GotMonitorEvent(_) => true,
            _ => false,
        }
    }

    /// The text this event is shown as.
    pub fn to_text(&self) -> (s: String)
        ensures
            s@ == self@.text(),
    {
        match self {
            NipartPluginEvent::Nil => String::from_str("none"),
            NipartPluginEvent::Quit => String::from_str("quit"),
            NipartPluginEvent::QueryPluginInfo => String::from_str("query_plugin_info"),
            NipartPluginEvent::QueryPluginInfoReply(_) => String::from_str(
                "query_plugin_info_reply",
            ),
            NipartPluginEvent::ChangeLogLevel(l) => {
                let mut s = String::from_str("change_log_level:");
                s.append(l.name());
                s
            },
            NipartPluginEvent::QueryLogLevel => String::from_str("query_log_level"),
            NipartPluginEvent::QueryLogLevelReply(_) => String::from_str("query_log_level_reply"),
            NipartPluginEvent::QueryNetState(_) => String::from_str("query_netstate"),
            NipartPluginEvent::QueryNetStateReply(_, _) => String::from_str("query_netstate_reply"),
            NipartPluginEvent::QueryRelatedNetState(_) => String::from_str(
                "query_related_netstate",
            ),
            NipartPluginEvent::ApplyNetState(_, _) => String::from_str("apply_netstate"),
            NipartPluginEvent::ApplyNetStateReply => String::from_str("apply_netstate_reply"),
            NipartPluginEvent::QueryDhcpConfig(_) => String::from_str("query_dhcp_config"),
            NipartPluginEvent::QueryDhcpConfigReply(_) => String::from_str(
                "query_dhcp_config_reply",
            ),
            NipartPluginEvent::ApplyDhcpConfig(configs) => {
                let mut s = String::from_str("apply_dhcp_config:");
                let texts = dhcp_config_texts(configs);
                let all = join_names(&texts, ",");
                s.append(all.as_str());
                s
            },
            NipartPluginEvent::ApplyDhcpConfigReply => String::from_str("apply_dhcp_config_reply"),
            NipartPluginEvent::GotDhcpLease(_) => String::from_str("got_dhcp_lease"),
            NipartPluginEvent::ApplyDhcpLease(_) => String::from_str("apply_dhcp_lease"),
            NipartPluginEvent::ApplyDhcpLeaseReply => String::from_str("apply_dhcp_lease_reply"),
            NipartPluginEvent::RegisterMonitorRule(rule) => {
                let mut s = String::from_str("register_monitor_rule:");
                let t = rule.to_text();
                s.append(t.as_str());
                s
            },
            NipartPluginEvent::RemoveMonitorRule(rule) => {
                let mut s = String::from_str("remove_monitor_rule:");
                let t = rule.to_text();
                s.append(t.as_str());
                s
            },
            NipartPluginEvent::GotMonitorEvent(event) => {
                let mut s = String::from_str("got_monitor_event:");
                let t = event.to_text();
                s.append(t.as_str());
                s
            },
        }
    }
}

} // verus!
