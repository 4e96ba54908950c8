//! Events: the messages exchanged by users, daemon and plugins.

use crate::data::Data;
use crate::error::{NipartError, NipartErrorView};
use crate::log_entry::{NipartLogEntry, NipartLogEntryView};
use crate::net_state::{NetworkState, NetworkStateView};
use crate::options::{NipartApplyOption, NipartLogLevel, NipartQueryOption};
use crate::plugin::{
    NipartPluginEvent, NipartPluginEventView, NipartPluginInfo, NipartPluginInfoView,
    NipartRole,
};
use crate::text::{decimal, decimal_text};
use crate::uuid::{is_time_ordered, now_v7, IdSource};
use vstd::prelude::*;

verus! {

/// Where an event comes from or goes to.
#[derive(Debug, PartialEq)]
pub enum NipartEventAddress {
    /// The user of the API.
    User,
    /// The plugin of this name.
    Unicast(String),
    Daemon,
    Commander,
    /// The plugin chosen to run DHCP.
    Dhcp,
    /// Every plugin that holds the role.
    Group(NipartRole),
    AllPlugins,
}

/// The mathematical value of a [`NipartEventAddress`].
#[verifier::ext_equal]
pub enum NipartEventAddressView {
    User,
    Unicast(Seq<char>),
    Daemon,
    Commander,
    Dhcp,
    Group(NipartRole),
    AllPlugins,
}

impl DeepView for NipartEventAddress {
    type V = NipartEventAddressView;

    open spec fn deep_view(&self) -> NipartEventAddressView {
        match self {
            Self::User => NipartEventAddressView::User,
            Self::Unicast(a0) => NipartEventAddressView::Unicast(a0.deep_view()),
            Self::Daemon => NipartEventAddressView::Daemon,
            Self::Commander => NipartEventAddressView::Commander,
            Self::Dhcp => NipartEventAddressView::Dhcp,
            Self::Group(a0) => NipartEventAddressView::Group(a0.deep_view()),
            Self::AllPlugins => NipartEventAddressView::AllPlugins,
        }
    }
}

impl View for NipartEventAddress {
    type V = NipartEventAddressView;

    open spec fn view(&self) -> NipartEventAddressView {
        self.deep_view()
    }
}

impl Data for NipartEventAddress {
    fn same(&self, other: &Self) -> (b: bool) {
        match (self, other) {
            (Self::User, Self::User) => true,
            (Self::Unicast(a0), Self::Unicast(b0)) => a0.same(b0),
            (Self::Daemon, Self::Daemon) => true,
            (Self::Commander, Self::Commander) => true,
            (Self::Dhcp, Self::Dhcp) => true,
            (Self::Group(a0), Self::Group(b0)) => a0.same(b0),
            (Self::AllPlugins, Self::AllPlugins) => true,
            _ => false,
        }
    }

    fn dup(&self) -> (r: Self) {
        match self {
            Self::User => Self::User,
            Self::Unicast(a0) => Self::Unicast(a0.dup()),
            Self::Daemon => Self::Daemon,
            Self::Commander => Self::Commander,
            Self::Dhcp => Self::Dhcp,
            Self::Group(a0) => Self::Group(a0.dup()),
            Self::AllPlugins => Self::AllPlugins,
        }
    }
}

/// The user-level payload of an event.
#[derive(Debug, PartialEq)]
pub enum NipartUserEvent {
    /// No payload of this level.
    Nil,
    Quit,
    Error(NipartError),
    QueryPluginInfo,
    QueryPluginInfoReply(Vec<NipartPluginInfo>),
    ChangeLogLevel(NipartLogLevel),
    QueryLogLevel,
    /// The log level of each plugin, by plugin name.
    QueryLogLevelReply(Vec<(String, NipartLogLevel)>),
    QueryNetState(NipartQueryOption),
    QueryNetStateReply(Box<NetworkState>),
    ApplyNetState(Box<NetworkState>, NipartApplyOption),
    ApplyNetStateReply,
    QueryCommits(NipartQueryOption),
    /// An entry of the log of the daemon, for the user to read.
    Log(NipartLogEntry),
}

/// The mathematical value of a [`NipartUserEvent`].
#[verifier::ext_equal]
pub enum NipartUserEventView {
    Nil,
    Quit,
    Error(NipartErrorView),
    QueryPluginInfo,
    QueryPluginInfoReply(Seq<NipartPluginInfoView>),
    ChangeLogLevel(NipartLogLevel),
    QueryLogLevel,
    QueryLogLevelReply(Seq<(Seq<char>, NipartLogLevel)>),
    QueryNetState(NipartQueryOption),
    QueryNetStateReply(NetworkStateView),
    ApplyNetState(NetworkStateView, NipartApplyOption),
    ApplyNetStateReply,
    QueryCommits(NipartQueryOption),
    Log(NipartLogEntryView),
}

impl DeepView for NipartUserEvent {
    type V = NipartUserEventView;

    open spec fn deep_view(&self) -> NipartUserEventView {
        match self {
            Self::Nil => NipartUserEventView::Nil,
            Self::Quit => NipartUserEventView::Quit,
            Self::Error(a0) => NipartUserEventView::Error(a0.deep_view()),
            Self::QueryPluginInfo => NipartUserEventView::QueryPluginInfo,
            Self::QueryPluginInfoReply(a0) => {
                NipartUserEventView::QueryPluginInfoReply(a0.deep_view())
            },
            Self::ChangeLogLevel(a0) => NipartUserEventView::ChangeLogLevel(a0.deep_view()),
            Self::QueryLogLevel => NipartUserEventView::QueryLogLevel,
            Self::QueryLogLevelReply(a0) => NipartUserEventView::QueryLogLevelReply(a0.deep_view()),
            Self::QueryNetState(a0) => NipartUserEventView::QueryNetState(a0.deep_view()),
            Self::QueryNetStateReply(a0) => NipartUserEventView::QueryNetStateReply(a0.deep_view()),
            Self::ApplyNetState(a0, a1) => {
                NipartUserEventView::ApplyNetState(a0.deep_view(), a1.deep_view())
            },
            Self::ApplyNetStateReply => NipartUserEventView::ApplyNetStateReply,
            Self::QueryCommits(a0) => NipartUserEventView::QueryCommits(a0.deep_view()),
            Self::Log(a0) => NipartUserEventView::Log(a0.deep_view()),
        }
    }
}

impl View for NipartUserEvent {
    type V = NipartUserEventView;

    open spec fn view(&self) -> NipartUserEventView {
        self.deep_view()
    }
}

impl Data for NipartUserEvent {
    fn same(&self, other: &Self) -> (b: bool) {
        match (self, other) {
            (Self::Nil, Self::Nil) => true,
            (Self::Quit, Self::Quit) => true,
            (Self::Error(a0), Self::Error(b0)) => a0.same(b0),
            (Self::QueryPluginInfo, Self::QueryPluginInfo) => true,
            (Self::QueryPluginInfoReply(a0), Self::QueryPluginInfoReply(b0)) => a0.same(b0),
            (Self::ChangeLogLevel(a0), Self::ChangeLogLevel(b0)) => a0.same(b0),
            (Self::QueryLogLevel, Self::QueryLogLevel) => true,
            (Self::QueryLogLevelReply(a0), Self::QueryLogLevelReply(b0)) => a0.same(b0),
            (Self::QueryNetState(a0), Self::QueryNetState(b0)) => a0.same(b0),
            (Self::QueryNetStateReply(a0), Self::QueryNetStateReply(b0)) => a0.same(b0),
            (Self::ApplyNetState(a0, a1), Self::ApplyNetState(b0, b1)) => {
                a0.same(b0) && a1.same(b1)
            },
            (Self::ApplyNetStateReply, Self::ApplyNetStateReply) => true,
            (Self::QueryCommits(a0), Self::QueryCommits(b0)) => a0.same(b0),
            (Self::Log(a0), Self::Log(b0)) => a0.same(b0),
            _ => false,
        }
    }

    fn dup(&self) -> (r: Self) {
        match self {
            Self::Nil => Self::Nil,
            Self::Quit => Self::Quit,
            Self::Error(a0) => Self::Error(a0.dup()),
            Self::QueryPluginInfo => Self::QueryPluginInfo,
            Self::QueryPluginInfoReply(a0) => Self::QueryPluginInfoReply(a0.dup()),
            Self::ChangeLogLevel(a0) => Self::ChangeLogLevel(a0.dup()),
            Self::QueryLogLevel => Self::QueryLogLevel,
            Self::QueryLogLevelReply(a0) => Self::QueryLogLevelReply(a0.dup()),
            Self::QueryNetState(a0) => Self::QueryNetState(a0.dup()),
            Self::QueryNetStateReply(a0) => Self::QueryNetStateReply(a0.dup()),
            Self::ApplyNetState(a0, a1) => Self::ApplyNetState(a0.dup(), a1.dup()),
            Self::ApplyNetStateReply => Self::ApplyNetStateReply,
            Self::QueryCommits(a0) => Self::QueryCommits(a0.dup()),
            Self::Log(a0) => Self::Log(a0.dup()),
        }
    }
}

/// A message. After construction it is only read.
#[derive(Debug, PartialEq)]
pub struct NipartEvent {
    pub uuid: u128,
    pub user: NipartUserEvent,
    pub plugin: NipartPluginEvent,
    pub src: NipartEventAddress,
    pub dst: NipartEventAddress,
    /// Timeout in milliseconds.
    pub timeout: u32,
    /// When not zero, delivery is delayed by this many milliseconds. Used for retries.
    pub postpone_millis: u32,
}

/// The mathematical value of a [`NipartEvent`].
#[verifier::ext_equal]
pub struct NipartEventView {
    pub uuid: u128,
    pub user: NipartUserEventView,
    pub plugin: NipartPluginEventView,
    pub src: NipartEventAddressView,
    pub dst: NipartEventAddressView,
    pub timeout: u32,
    pub postpone_millis: u32,
}

impl DeepView for NipartEvent {
    type V = NipartEventView;

    open spec fn deep_view(&self) -> NipartEventView {
        NipartEventView {
            uuid: self.uuid.deep_view(),
            user: self.user.deep_view(),
            plugin: self.plugin.deep_view(),
            src: self.src.deep_view(),
            dst: self.dst.deep_view(),
            timeout: self.timeout.deep_view(),
            postpone_millis: self.postpone_millis.deep_view(),
        }
    }
}

impl View for NipartEvent {
    type V = NipartEventView;

    open spec fn view(&self) -> NipartEventView {
        self.deep_view()
    }
}

impl Data for NipartEvent {
    fn same(&self, other: &Self) -> (b: bool) {
        self.uuid.same(&other.uuid)
            && self.user.same(&other.user)
            && self.plugin.same(&other.plugin)
            && self.src.same(&other.src)
            && self.dst.same(&other.dst)
            && self.timeout.same(&other.timeout)
            && self.postpone_millis.same(&other.postpone_millis)
    }

    fn dup(&self) -> (r: Self) {
        NipartEvent {
            uuid: self.uuid.dup(),
            user: self.user.dup(),
            plugin: self.plugin.dup(),
            src: self.src.dup(),
            dst: self.dst.dup(),
            timeout: self.timeout.dup(),
            postpone_millis: self.postpone_millis.dup(),
        }
    }
}

/// The timeout, in milliseconds, of an event that states none of its own.
pub const DEFAULT_TIMEOUT: u32 = 30000;

impl NipartEventAddressView {
    /// The text an address is shown as.
    pub open spec fn text(self) -> Seq<char> {
        match self {
            NipartEventAddressView::User => "user"@,
            NipartEventAddressView::Unicast(v) => v,
            NipartEventAddressView::Daemon => "daemon"@,
            NipartEventAddressView::Commander => "commander"@,
            NipartEventAddressView::Dhcp => "dhcp"@,
            NipartEventAddressView::Group(v) => "group:"@ + v.name_spec(),
            NipartEventAddressView::AllPlugins => "all_plugins"@,
        }
    }
}

impl NipartEventAddress {
    /// The text this address is shown as.
    pub fn to_text(&self) -> (s: String)
        ensures
            s@ == self@.text(),
    {
        match self {
            NipartEventAddress::User => String::from_str("user"),
            NipartEventAddress::Unicast(v) => v.dup(),
            NipartEventAddress::Daemon => String::from_str("daemon"),
            NipartEventAddress::Commander => String::from_str("commander"),
            NipartEventAddress::Dhcp => String::from_str("dhcp"),
            NipartEventAddress::Group(v) => {
                let mut s = String::from_str("group:");
                s.append(v.name());
                s
            },
            NipartEventAddress::AllPlugins => String::from_str("all_plugins"),
        }
    }
}

impl NipartUserEventView {
    /// The name of the kind of an event.
    pub open spec fn name(self) -> Seq<char> {
        match self {
            NipartUserEventView::Nil => "none"@,
            NipartUserEventView::Quit => "quit"@,
            NipartUserEventView::Error(_) => "error"@,
            NipartUserEventView::QueryPluginInfo => "query_plugin_info"@,
            NipartUserEventView::QueryPluginInfoReply(_) => "query_plugin_info_reply"@,
            NipartUserEventView::ChangeLogLevel(_) => "change_log_level"@,
            NipartUserEventView::QueryLogLevel => "query_log_level"@,
            NipartUserEventView::QueryLogLevelReply(_) => "query_log_level_reply"@,
            NipartUserEventView::QueryNetState(_) => "query_netstate"@,
            NipartUserEventView::QueryNetStateReply(_) => "query_netstate_reply"@,
            NipartUserEventView::ApplyNetState(_, _) => "apply_netstate"@,
            NipartUserEventView::ApplyNetStateReply => "apply_netstate_reply"@,
            NipartUserEventView::QueryCommits(_) => "query_commits"@,
            NipartUserEventView::Log(_) => "log"@,
        }
    }
}

impl NipartUserEvent {
    /// The name of the kind of this event.
    pub fn name(&self) -> (s: &'static str)
        ensures
            s@ == self@.name(),
    {
        match self {
            NipartUserEvent::Nil => "none",
            NipartUserEvent::Quit => "quit",
            NipartUserEvent::Error(_) => "error",
            NipartUserEvent::QueryPluginInfo => "query_plugin_info",
            NipartUserEvent::QueryPluginInfoReply(_) => "query_plugin_info_reply",
            NipartUserEvent::ChangeLogLevel(_) => "change_log_level",
            NipartUserEvent::QueryLogLevel => "query_log_level",
            NipartUserEvent::QueryLogLevelReply(_) => "query_log_level_reply",
            NipartUserEvent::QueryNetState(_) => "query_netstate",
            NipartUserEvent::QueryNetStateReply(_) => "query_netstate_reply",
            NipartUserEvent::ApplyNetState(_, _) => "apply_netstate",
            NipartUserEvent::ApplyNetStateReply => "apply_netstate_reply",
            NipartUserEvent::QueryCommits(_) => "query_commits",
            NipartUserEvent::Log(_) => "log",
        }
    }
}

impl NipartLogEntryView {
    /// The event that carries this entry to the user, under the identifier
    /// of what the entry speaks of and from where it was written.
    pub open spec fn event(self, uuid: u128, src: NipartEventAddressView) -> NipartEventView {
        NipartEventView {
            uuid,
            user: NipartUserEventView::Log(self),
            plugin: NipartPluginEventView::Nil,
            src,
            dst: NipartEventAddressView::User,
            timeout: DEFAULT_TIMEOUT,
            postpone_millis: 0,
        }
    }
}

impl NipartLogEntry {
    /// The event that carries this entry to the user.
    pub fn to_event(self, uuid: u128, src: NipartEventAddress) -> (e: NipartEvent)
        ensures
            e@ == self@.event(uuid, src@),
    {
        NipartEvent {
            uuid,
            user: NipartUserEvent::Log(self),
            plugin: NipartPluginEvent::Nil,
            src,
            dst: NipartEventAddress::User,
            timeout: DEFAULT_TIMEOUT,
            postpone_millis: 0,
        }
    }
}

impl NipartEventView {
    /// Whether the event reports a failure.
    pub open spec fn is_err(self) -> bool {
        self.user is Error
    }

    /// Whether the event is a report of a failure and nothing else: it
    /// carries a failure at the user level and nothing at the plugin
    /// level.
    pub open spec fn reports_failure(self) -> bool {
        self.user is Error && self.plugin is Nil
    }

    /// The text an event is shown as: identifier, payloads, addresses and
    /// timeout, and the delay where there is one.
    pub open spec fn text(self) -> Seq<char> {
        decimal_text(self.uuid as nat) + " user:"@ + self.user.name() + " plugin:"@
            + self.plugin.text() + " src:"@ + self.src.text() + " dst:"@ + self.dst.text()
            + " timeout:"@ + decimal_text(self.timeout as nat) + "ms"@ + (if self.postpone_millis
            > 0 {
            " postpone "@ + decimal_text(self.postpone_millis as nat) + "ms"@
        } else {
            Seq::empty()
        })
    }
}

impl NipartEvent {
    /// Generates an event with a fresh time-ordered identifier and no
    /// delay.
    pub fn new(
        user: NipartUserEvent,
        plugin: NipartPluginEvent,
        src: NipartEventAddress,
        dst: NipartEventAddress,
        timeout: u32,
    ) -> (e: Self)
        ensures
            is_time_ordered(e@.uuid),
            e@ == (NipartEventView {
                uuid: e@.uuid,
                user: user@,
                plugin: plugin@,
                src: src@,
                dst: dst@,
                timeout,
                postpone_millis: 0,
            }),
    {
        NipartEvent { uuid: now_v7(), user, plugin, src, dst, timeout, postpone_millis: 0 }
    }

    /// Whether the event reports a failure.
    pub fn is_err(&self) -> (b: bool)
        ensures
            b == self@.is_err(),
    {
        match self.user {
            NipartUserEvent::Error(_) => true,
            _ => false,
        }
    }

    /// Whether the event is a report of a failure and nothing else.
    pub fn reports_failure(&self) -> (b: bool)
        ensures
            b == self@.reports_failure(),
    {
        self.is_err() && match self.plugin {
            NipartPluginEvent::Nil => true,
            _ => false,
        }
    }

    /// The event itself, or the failure it reports.
    pub fn into_result(self) -> (r: Result<NipartEvent, NipartError>)
        ensures
            match self@.user {
                NipartUserEventView::Error(e) => r is Err && r->Err_0@ == e,
                _ => r is Ok && r->Ok_0@ == self@,
            },
    {
        if let NipartUserEvent::Error(e) = self.user {
            Err(e)
        } else {
            Ok(self)
        }
    }

    /// The event by which the daemon reports a failure to the user.
    pub fn from_error(e: NipartError) -> (ev: Self)
        ensures
            is_time_ordered(ev@.uuid),
            ev@ == (NipartEventView {
                uuid: ev@.uuid,
                user: NipartUserEventView::Error(e@),
                plugin: NipartPluginEventView::Nil,
                src: NipartEventAddressView::Daemon,
                dst: NipartEventAddressView::User,
                timeout: DEFAULT_TIMEOUT,
                postpone_millis: 0,
            }),
    {
        NipartEvent::new(
            NipartUserEvent::Error(e),
            NipartPluginEvent::Nil,
            NipartEventAddress::Daemon,
            NipartEventAddress::User,
            DEFAULT_TIMEOUT,
        )
    }

    /// The text this event is shown as.
    pub fn to_text(&self) -> (s: String)
        ensures
            s@ == self@.text(),
    {
        let mut s = decimal(self.uuid);
        s.append(" user:");
        s.append(self.user.name());
        s.append(" plugin:");
        let plugin = self.plugin.to_text();
        s.append(plugin.as_str());
        s.append(" src:");
        let src = self.src.to_text();
        s.append(src.as_str());
        s.append(" dst:");
        let dst = self.dst.to_text();
        s.append(dst.as_str());
        s.append(" timeout:");
        let timeout = decimal(self.timeout as u128);
        s.append(timeout.as_str());
        s.append("ms");
        if self.postpone_millis > 0 {
            s.append(" postpone ");
            let postpone = decimal(self.postpone_millis as u128);
            s.append(postpone.as_str());
            s.append("ms");
            assert(s@ =~= self@.text());
        } else {
            assert(s@ =~= self@.text());
        }
        s
    }
}

impl From<NipartError> for NipartEvent {
    /// The event by which the daemon reports a failure to the user.
    fn from(e: NipartError) -> (ev: Self)
        ensures
            is_time_ordered(ev@.uuid),
            ev@ == (NipartEventView {
                uuid: ev@.uuid,
                user: NipartUserEventView::Error(e@),
                plugin: NipartPluginEventView::Nil,
                src: NipartEventAddressView::Daemon,
                dst: NipartEventAddressView::User,
                timeout: DEFAULT_TIMEOUT,
                postpone_millis: 0,
            }),
    {
        NipartEvent::from_error(e)
    }
}

impl vstd::std_specs::convert::FromSpecImpl<NipartError> for NipartEvent {
    /// Every event gets an identifier of its own, so the event is no
    /// function of the failure.
    open spec fn obeys_from_spec() -> bool {
        false
    }

    open spec fn from_spec(e: NipartError) -> Self {
        arbitrary()
    }
}

impl NipartEvent {
    /// Generates an event whose identifier is larger than every identifier
    /// that the source handed out before. `None` when the identifiers of
    /// the source are used up.
    pub fn new_in_order(
        ids: &mut IdSource,
        user: NipartUserEvent,
        plugin: NipartPluginEvent,
        src: NipartEventAddress,
        dst: NipartEventAddress,
        timeout: u32,
    ) -> (r: Option<Self>)
        ensures
            old(ids).last() < u128::MAX ==> r is Some,
            old(ids).last() == u128::MAX ==> r is None && final(ids).last() == old(ids).last(),
            r matches Some(e) ==> e@.uuid > old(ids).last() && final(ids).last() == e@.uuid && e@
                == (NipartEventView {
                uuid: e@.uuid,
                user: user@,
                plugin: plugin@,
                src: src@,
                dst: dst@,
                timeout,
                postpone_millis: 0,
            }),
    {
        match ids.next() {
            Some(uuid) => Some(
                NipartEvent { uuid, user, plugin, src, dst, timeout, postpone_millis: 0 },
            ),
            None => None,
        }
    }
}

} // verus!
