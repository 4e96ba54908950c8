//! Workflows: the steps by which the commander serves one request.

use crate::backoff::{backoff, backoff_millis, total_backoff, total_backoff_of};
use crate::data::Data;
use crate::dhcp::{NipartDhcpLease, NipartDhcpLeaseView};
use crate::error::{ErrorKind, NipartError, NipartErrorView};
use crate::event::{
    NipartEvent, NipartEventAddress, NipartEventAddressView, NipartEventView, NipartUserEvent,
    NipartUserEventView, DEFAULT_TIMEOUT,
};
use crate::net_state::{
    dhcp_changes_of, MergedNetworkState, MergedNetworkStateView, NetworkState, NetworkStateView,
};
use crate::options::{NipartApplyOption, NipartLogLevel, NipartQueryOption, NipartStateKind};
use crate::plugin::{
    NipartPluginEvent, NipartPluginEventView, NipartPluginInfo, NipartPluginInfoView,
    NipartRole,
};
use crate::priority::{merge_by_priority, merged_by_priority, Report};
use crate::roles::{count_with_role, PluginRoles};
use vstd::prelude::*;
use vstd::string::StringExecFns;

verus! {

/// Where the service of a request stands.
#[derive(Clone, Copy, Debug, PartialEq, Eq, Structural)]
pub enum WorkFlowState {
    /// The step at the cursor has not been sent to the plugins yet.
    Pending,
    /// The replies to the step at the cursor are complete and wait to be
    /// worked in.
    Running,
    /// The step at the cursor was sent and replies are awaited.
    AwaitingReplies,
    /// Every step is done.
    Done,
    /// The workflow failed.
    Failed(ErrorKind),
}

/// What one step of a workflow asks of the plugins.
#[derive(Clone, Copy, Debug, PartialEq, Eq, Structural)]
pub enum TaskKind {
    /// Ask every plugin to describe itself.
    QueryPluginInfo,
    /// Ask every plugin for its log level.
    QueryLogLevel,
    /// Tell every plugin to log at this level.
    ChangeLogLevel(NipartLogLevel),
    /// Tell every plugin to quit.
    Quit,
    /// Ask the plugins that hold the role for a network state.
    QueryNetState(NipartQueryOption, NipartRole),
    /// Lay the desired state beside the current one. Nothing is sent.
    MergeDesired,
    /// Hand the DHCP client settings to the DHCP plugin.
    ApplyDhcpConfig,
    /// Hand the merged state to the plugins that apply states.
    ApplyNetState(NipartApplyOption),
    /// Ask for the running state again and compare it with what is desired.
    VerifyNetState,
    /// Hand a lease to the plugins that apply leases.
    ApplyDhcpLease,
}

/// The kind of request that a workflow serves.
#[derive(Clone, Copy, Debug, PartialEq, Eq, Structural)]
pub enum WorkFlowKind {
    QueryPluginInfo,
    QueryLogLevel,
    ChangeLogLevel(NipartLogLevel),
    Quit,
    QueryNetState,
    ApplyNetState,
    /// Serves a lease that the DHCP plugin got; no user waits for a reply.
    ApplyDhcpLease,
    QueryCommits,
}

impl DeepView for WorkFlowState {
    type V = WorkFlowState;

    open spec fn deep_view(&self) -> WorkFlowState {
        *self
    }
}

impl Data for WorkFlowState {
    fn same(&self, other: &Self) -> (b: bool) {
        *self == *other
    }

    fn dup(&self) -> (r: Self) {
        *self
    }
}

impl DeepView for TaskKind {
    type V = TaskKind;

    open spec fn deep_view(&self) -> TaskKind {
        *self
    }
}

impl Data for TaskKind {
    fn same(&self, other: &Self) -> (b: bool) {
        *self == *other
    }

    fn dup(&self) -> (r: Self) {
        *self
    }
}

impl DeepView for WorkFlowKind {
    type V = WorkFlowKind;

    open spec fn deep_view(&self) -> WorkFlowKind {
        *self
    }
}

impl Data for WorkFlowKind {
    fn same(&self, other: &Self) -> (b: bool) {
        *self == *other
    }

    fn dup(&self) -> (r: Self) {
        *self
    }
}

/// One step of a workflow: what is asked of the plugins and how many replies are awaited.
#[derive(Clone, Copy, Debug, PartialEq, Eq, Structural)]
pub struct WorkFlowTask {
    pub kind: TaskKind,
    /// The number of replies that complete the step.
    pub expected: usize,
}

impl DeepView for WorkFlowTask {
    type V = WorkFlowTask;

    open spec fn deep_view(&self) -> WorkFlowTask {
        *self
    }
}

impl Data for WorkFlowTask {
    fn same(&self, other: &Self) -> (b: bool) {
        *self == *other
    }

    fn dup(&self) -> (r: Self) {
        *self
    }
}

/// What the steps of a workflow hand on to later steps.
#[derive(Debug, PartialEq)]
pub struct ShareData {
    pub plugin_infos: Vec<NipartPluginInfo>,
    pub log_levels: Vec<(String, NipartLogLevel)>,
    pub desired: Option<NetworkState>,
    pub current: Option<NetworkState>,
    pub merged: Option<MergedNetworkState>,
    pub lease: Option<NipartDhcpLease>,
}

/// The mathematical value of a [`ShareData`].
#[verifier::ext_equal]
pub struct ShareDataView {
    pub plugin_infos: Seq<NipartPluginInfoView>,
    pub log_levels: Seq<(Seq<char>, NipartLogLevel)>,
    pub desired: Option<NetworkStateView>,
    pub current: Option<NetworkStateView>,
    pub merged: Option<MergedNetworkStateView>,
    pub lease: Option<NipartDhcpLeaseView>,
}

impl DeepView for ShareData {
    type V = ShareDataView;

    open spec fn deep_view(&self) -> ShareDataView {
        ShareDataView {
            plugin_infos: self.plugin_infos.deep_view(),
            log_levels: self.log_levels.deep_view(),
            desired: self.desired.deep_view(),
            current: self.current.deep_view(),
            merged: self.merged.deep_view(),
            lease: self.lease.deep_view(),
        }
    }
}

impl View for ShareData {
    type V = ShareDataView;

    open spec fn view(&self) -> ShareDataView {
        self.deep_view()
    }
}

impl Data for ShareData {
    fn same(&self, other: &Self) -> (b: bool) {
        self.plugin_infos.same(&other.plugin_infos)
            && self.log_levels.same(&other.log_levels)
            && self.desired.same(&other.desired)
            && self.current.same(&other.current)
            && self.merged.same(&other.merged)
            && self.lease.same(&other.lease)
    }

    fn dup(&self) -> (r: Self) {
        ShareData {
            plugin_infos: self.plugin_infos.dup(),
            log_levels: self.log_levels.dup(),
            desired: self.desired.dup(),
            current: self.current.dup(),
            merged: self.merged.dup(),
            lease: self.lease.dup(),
        }
    }
}

/// The state of the service of one request.
#[derive(Debug, PartialEq)]
pub struct WorkFlow {
    /// The identifier of the request; every event of the workflow carries it.
    pub uuid: u128,
    pub kind: WorkFlowKind,
    /// The time, in milliseconds, that the request may take.
    pub timeout: u32,
    /// The time, in milliseconds of the commander's clock, at which the workflow fails.
    pub deadline: u64,
    pub tasks: Vec<WorkFlowTask>,
    /// The index of the step that is served now; it never goes down.
    pub cursor: usize,
    pub state: WorkFlowState,
    /// The replies to the step that is served now, in order of arrival.
    pub replies: Vec<NipartEvent>,
    /// The number of times that applying was tried again.
    pub retries: u32,
    /// The sum of the delays of those retries, in milliseconds.
    pub backoff_spent: u32,
}

/// The mathematical value of a [`WorkFlow`].
#[verifier::ext_equal]
pub struct WorkFlowView {
    pub uuid: u128,
    pub kind: WorkFlowKind,
    pub timeout: u32,
    pub deadline: u64,
    pub tasks: Seq<WorkFlowTask>,
    pub cursor: usize,
    pub state: WorkFlowState,
    pub replies: Seq<NipartEventView>,
    pub retries: u32,
    pub backoff_spent: u32,
}

impl DeepView for WorkFlow {
    type V = WorkFlowView;

    open spec fn deep_view(&self) -> WorkFlowView {
        WorkFlowView {
            uuid: self.uuid.deep_view(),
            kind: self.kind.deep_view(),
            timeout: self.timeout.deep_view(),
            deadline: self.deadline.deep_view(),
            tasks: self.tasks.deep_view(),
            cursor: self.cursor.deep_view(),
            state: self.state.deep_view(),
            replies: self.replies.deep_view(),
            retries: self.retries.deep_view(),
            backoff_spent: self.backoff_spent.deep_view(),
        }
    }
}

impl View for WorkFlow {
    type V = WorkFlowView;

    open spec fn view(&self) -> WorkFlowView {
        self.deep_view()
    }
}

impl Data for WorkFlow {
    fn same(&self, other: &Self) -> (b: bool) {
        self.uuid.same(&other.uuid)
            && self.kind.same(&other.kind)
            && self.timeout.same(&other.timeout)
            && self.deadline.same(&other.deadline)
            && self.tasks.same(&other.tasks)
            && self.cursor.same(&other.cursor)
            && self.state.same(&other.state)
            && self.replies.same(&other.replies)
            && self.retries.same(&other.retries)
            && self.backoff_spent.same(&other.backoff_spent)
    }

    fn dup(&self) -> (r: Self) {
        WorkFlow {
            uuid: self.uuid.dup(),
            kind: self.kind.dup(),
            timeout: self.timeout.dup(),
            deadline: self.deadline.dup(),
            tasks: self.tasks.dup(),
            cursor: self.cursor.dup(),
            state: self.state.dup(),
            replies: self.replies.dup(),
            retries: self.retries.dup(),
            backoff_spent: self.backoff_spent.dup(),
        }
    }
}

/// The time, in milliseconds, that a request may take: the timeout it
/// states, or the default where it states none or more than the default.
pub open spec fn effective_timeout(timeout: u32) -> u32 {
    if timeout == 0 || timeout > DEFAULT_TIMEOUT {
        DEFAULT_TIMEOUT
    } else {
        timeout
    }
}

/// The time at which a workflow created at `now` fails.
pub open spec fn deadline_of(now: u64, timeout: u32) -> u64 {
    if now + effective_timeout(timeout) > u64::MAX {
        u64::MAX
    } else {
        (now + effective_timeout(timeout)) as u64
    }
}

/// The role of the plugins that serve a query for a kind of state: the
/// running state is asked of those that query and apply, stored state of
/// the configuration plugin.
pub open spec fn role_for(kind: NipartStateKind) -> NipartRole {
    match kind {
        NipartStateKind::Running => NipartRole::QueryAndApply,
        NipartStateKind::Saved => NipartRole::Config,
        NipartStateKind::PostLastCommit => NipartRole::Config,
    }
}

/// The error of a workflow whose deadline has passed.
pub open spec fn timeout_view() -> NipartErrorView {
    NipartErrorView { kind: ErrorKind::Timeout, msg: "The request was not served in time"@ }
}

/// The error of a workflow that found no further retry to fit its time.
pub open spec fn retries_exhausted_view(last: NipartErrorView) -> NipartErrorView {
    NipartErrorView { kind: ErrorKind::Timeout, msg: "No time is left to retry: "@ + last.msg }
}

/// The error of a workflow that misses what an earlier step should have
/// handed on.
pub open spec fn missing_data_view() -> NipartErrorView {
    NipartErrorView { kind: ErrorKind::Bug, msg: "A step found no data of the step before it"@ }
}

/// The error of a desired state whose DHCP settings cannot be handed on.
pub open spec fn dhcp_not_plain_view() -> NipartErrorView {
    NipartErrorView {
        kind: ErrorKind::InvalidArgument,
        msg: "DHCP client identifiers and DUIDs are not supported"@,
    }
}

/// Where the request of a step is sent.
pub open spec fn task_dst(kind: TaskKind) -> NipartEventAddressView {
    match kind {
        TaskKind::QueryPluginInfo => NipartEventAddressView::AllPlugins,
        TaskKind::QueryLogLevel => NipartEventAddressView::AllPlugins,
        TaskKind::ChangeLogLevel(_) => NipartEventAddressView::AllPlugins,
        TaskKind::Quit => NipartEventAddressView::AllPlugins,
        TaskKind::QueryNetState(_, role) => NipartEventAddressView::Group(role),
        TaskKind::MergeDesired => NipartEventAddressView::Commander,
        TaskKind::ApplyDhcpConfig => NipartEventAddressView::Dhcp,
        TaskKind::ApplyNetState(_) => NipartEventAddressView::Group(NipartRole::QueryAndApply),
        TaskKind::VerifyNetState => NipartEventAddressView::Group(NipartRole::QueryAndApply),
        TaskKind::ApplyDhcpLease => NipartEventAddressView::Group(NipartRole::ApplyDhcpLease),
    }
}

/// What the request of a step carries; `None` for a step that sends
/// nothing.
#[verifier::opaque]
pub open spec fn task_payload(kind: TaskKind, share: ShareDataView) -> Option<
    NipartPluginEventView,
> {
    match kind {
        TaskKind::QueryPluginInfo => Some(NipartPluginEventView::QueryPluginInfo),
        TaskKind::QueryLogLevel => Some(NipartPluginEventView::QueryLogLevel),
        TaskKind::ChangeLogLevel(l) => Some(NipartPluginEventView::ChangeLogLevel(l)),
        TaskKind::Quit => Some(NipartPluginEventView::Quit),
        TaskKind::QueryNetState(opt, _) => Some(NipartPluginEventView::QueryNetState(opt)),
        TaskKind::MergeDesired => None,
        TaskKind::ApplyDhcpConfig => match share.merged {
            Some(m) => if m.dhcp_is_plain() {
                Some(
                    NipartPluginEventView::ApplyDhcpConfig(
                        dhcp_changes_of(m.interfaces.kernel_ifaces),
                    ),
                )
            } else {
                None
            },
            None => None,
        },
        TaskKind::ApplyNetState(opt) => match share.merged {
            Some(m) => Some(NipartPluginEventView::ApplyNetState(m, opt)),
            None => None,
        },
        TaskKind::VerifyNetState => Some(
            NipartPluginEventView::QueryNetState(
                NipartQueryOption { kind: NipartStateKind::Running },
            ),
        ),
        TaskKind::ApplyDhcpLease => match share.lease {
            Some(l) => Some(NipartPluginEventView::ApplyDhcpLease(l)),
            None => None,
        },
    }
}

/// Whether a plugin event answers the request of a step.
pub open spec fn accepts(kind: TaskKind, reply: NipartPluginEventView) -> bool {
    match kind {
        TaskKind::QueryPluginInfo => reply is QueryPluginInfoReply,
        TaskKind::QueryLogLevel => reply is QueryLogLevelReply,
        TaskKind::QueryNetState(_, _) => reply is QueryNetStateReply,
        TaskKind::VerifyNetState => reply is QueryNetStateReply,
        TaskKind::ApplyDhcpConfig => reply is ApplyDhcpConfigReply,
        TaskKind::ApplyNetState(_) => reply is ApplyNetStateReply,
        TaskKind::ApplyDhcpLease => reply is ApplyDhcpLeaseReply,
        _ => false,
    }
}

/// The failure that the first failing reply, at or after `from`, reports.
pub open spec fn first_error(replies: Seq<NipartEventView>, from: int) -> Option<NipartErrorView>
    decreases replies.len() - from,
{
    if from < 0 || from >= replies.len() {
        None
    } else {
        match replies[from].user {
            NipartUserEventView::Error(e) => Some(e),
            _ => first_error(replies, from + 1),
        }
    }
}

/// Whether there are replies and every one reports a failure.
pub open spec fn all_failed(replies: Seq<NipartEventView>) -> bool {
    &&& replies.len() > 0
    &&& forall|i: int| 0 <= i < replies.len() ==> (#[trigger] replies[i]).user is Error
}

/// The plugin descriptions that the replies without failure carry, in order
/// of arrival.
pub open spec fn plugin_infos_of(replies: Seq<NipartEventView>) -> Seq<NipartPluginInfoView>
    decreases replies.len(),
{
    if replies.len() == 0 {
        Seq::empty()
    } else {
        let rest = plugin_infos_of(replies.drop_last());
        match replies.last().plugin {
            NipartPluginEventView::QueryPluginInfoReply(info) => if replies.last().user is Error {
                rest
            } else {
                rest.push(info)
            },
            _ => rest,
        }
    }
}

/// Log levels by plugin name.
pub type Levels = Seq<(Seq<char>, NipartLogLevel)>;

/// The index, at or after `from`, of the level of the plugin `name`; the
/// length of the list when it holds none.
pub open spec fn level_position(levels: Levels, name: Seq<char>, from: int) -> int
    decreases levels.len() - from,
{
    if from < 0 || from >= levels.len() {
        levels.len() as int
    } else if levels[from].0 == name {
        from
    } else {
        level_position(levels, name, from + 1)
    }
}

/// The levels with the level of one plugin set, as in a map: in the place
/// of the level that the plugin had, or at the end where it had none.
pub open spec fn with_level(levels: Levels, name: Seq<char>, level: NipartLogLevel) -> Levels {
    let p = level_position(levels, name, 0);
    if p < levels.len() {
        levels.update(p, (name, level))
    } else {
        levels.push((name, level))
    }
}

/// Whether no plugin has two levels.
pub open spec fn names_unique(levels: Levels) -> bool {
    forall|i: int, j: int| 0 <= i < j < levels.len() ==> levels[i].0 != levels[j].0
}

/// `level_position` finds the first level of the plugin, or runs to the
/// end.
pub proof fn lemma_level_position(levels: Levels, name: Seq<char>, from: int)
    requires
        0 <= from <= levels.len(),
    ensures
        from <= level_position(levels, name, from) <= levels.len(),
        level_position(levels, name, from) < levels.len() ==> levels[level_position(
            levels,
            name,
            from,
        )].0 == name,
        forall|j: int| from <= j < level_position(levels, name, from) ==> (#[trigger] levels[j]).0
            != name,
    decreases levels.len() - from,
{
    if from < levels.len() && levels[from].0 != name {
        lemma_level_position(levels, name, from + 1);
    }
}

/// The log levels that the replies without failure carry, by the name of
/// the plugin that each came from. As in a map, every plugin has one level:
/// a later reply of a plugin stands against an earlier one.
pub open spec fn log_levels_of(replies: Seq<NipartEventView>) -> Levels
    decreases replies.len(),
{
    if replies.len() == 0 {
        Seq::empty()
    } else {
        let rest = log_levels_of(replies.drop_last());
        match replies.last().plugin {
            NipartPluginEventView::QueryLogLevelReply(level) => if replies.last().user is Error {
                rest
            } else {
                with_level(rest, replies.last().src.text(), level)
            },
            _ => rest,
        }
    }
}

/// The answer to a query for log levels names every plugin once.
pub proof fn law_one_level_per_plugin(replies: Seq<NipartEventView>)
    ensures
        names_unique(log_levels_of(replies)),
    decreases replies.len(),
{
    if replies.len() > 0 {
        law_one_level_per_plugin(replies.drop_last());
        let rest = log_levels_of(replies.drop_last());
        let name = replies.last().src.text();
        lemma_level_position(rest, name, 0);
        let all = log_levels_of(replies);
        assert forall|i: int, j: int| 0 <= i < j < all.len() implies all[i].0 != all[j].0 by {
            if all != rest {
                let p = level_position(rest, name, 0);
                if p < rest.len() {
                    assert(all[i].0 == rest[i].0 && all[j].0 == rest[j].0);
                } else {
                    assert(all[i] == rest[i]);
                    if j < rest.len() {
                        assert(all[j] == rest[j]);
                    }
                }
            }
        }
    }
}

/// The states, with their priorities, that the replies without failure
/// carry, in order of arrival.
pub open spec fn reports_of(replies: Seq<NipartEventView>) -> Seq<Report>
    decreases replies.len(),
{
    if replies.len() == 0 {
        Seq::empty()
    } else {
        let rest = reports_of(replies.drop_last());
        match replies.last().plugin {
            NipartPluginEventView::QueryNetStateReply(state, prio) => if replies.last().user
                is Error {
                rest
            } else {
                rest.push((state, prio))
            },
            _ => rest,
        }
    }
}

/// What a step hands on once its replies are complete, or the failure of
/// the step.
///
/// A step that queries fails only when every reply reports a failure, with
/// the first of them; failures beside a success are passed over. A step
/// that applies fails with the first failure that any reply reports. The
/// step that verifies fails when the state reported does not meet the
/// desired one.
#[verifier::opaque]
pub open spec fn folded(
    kind: TaskKind,
    replies: Seq<NipartEventView>,
    share: ShareDataView,
) -> Result<ShareDataView, NipartErrorView> {
    match kind {
        TaskKind::QueryPluginInfo => if all_failed(replies) {
            Err(first_error(replies, 0)->0)
        } else {
            Ok(ShareDataView { plugin_infos: plugin_infos_of(replies), ..share })
        },
        TaskKind::QueryLogLevel => if all_failed(replies) {
            Err(first_error(replies, 0)->0)
        } else {
            Ok(ShareDataView { log_levels: log_levels_of(replies), ..share })
        },
        TaskKind::ChangeLogLevel(_) => Ok(share),
        TaskKind::Quit => Ok(share),
        TaskKind::QueryNetState(_, _) => if all_failed(replies) {
            Err(first_error(replies, 0)->0)
        } else {
            Ok(ShareDataView { current: Some(merged_by_priority(reports_of(replies))), ..share })
        },
        TaskKind::MergeDesired => match (share.desired, share.current) {
            (Some(d), Some(c)) => match MergedNetworkStateView::laid_out(d, c) {
                Ok(m) => if m.dhcp_is_plain() {
                    Ok(ShareDataView { merged: Some(m), ..share })
                } else {
                    Err(dhcp_not_plain_view())
                },
                Err(e) => Err(e),
            },
            _ => Err(missing_data_view()),
        },
        TaskKind::VerifyNetState => if all_failed(replies) {
            Err(first_error(replies, 0)->0)
        } else {
            let found = merged_by_priority(reports_of(replies));
            match share.merged {
                Some(m) => match m.failure(found) {
                    None => Ok(ShareDataView { current: Some(found), ..share }),
                    Some(e) => Err(e),
                },
                None => Err(missing_data_view()),
            }
        },
        _ => match first_error(replies, 0) {
            Some(e) => Err(e),
            None => Ok(share),
        },
    }
}

/// The index, at or after `from`, of the first step that applies a state;
/// the number of steps when there is none.
pub open spec fn apply_index(tasks: Seq<WorkFlowTask>, from: int) -> int
    decreases tasks.len() - from,
{
    if from < 0 || from >= tasks.len() {
        tasks.len() as int
    } else if tasks[from].kind is ApplyNetState {
        from
    } else {
        apply_index(tasks, from + 1)
    }
}

/// A workflow, what its steps hand on, and the events to be sent.
pub struct Outcome {
    pub workflow: WorkFlowView,
    pub share: ShareDataView,
    pub events: Seq<NipartEventView>,
}

impl Outcome {
    /// This outcome with `events` sent before its own.
    pub open spec fn after(self, events: Seq<NipartEventView>) -> Outcome {
        Outcome { events: events + self.events, ..self }
    }
}

impl ShareDataView {
    /// Nothing handed on yet.
    pub open spec fn empty() -> ShareDataView {
        ShareDataView {
            plugin_infos: Seq::empty(),
            log_levels: Seq::empty(),
            desired: None,
            current: None,
            merged: None,
            lease: None,
        }
    }
}

impl WorkFlowView {
    /// A workflow that has served nothing yet.
    pub open spec fn started(
        uuid: u128,
        kind: WorkFlowKind,
        tasks: Seq<WorkFlowTask>,
        timeout: u32,
        now: u64,
    ) -> WorkFlowView {
        WorkFlowView {
            uuid,
            kind,
            timeout: effective_timeout(timeout),
            deadline: deadline_of(now, timeout),
            tasks,
            cursor: 0,
            state: WorkFlowState::Pending,
            replies: Seq::empty(),
            retries: 0,
            backoff_spent: 0,
        }
    }

    /// Whether the workflow has ended, well or not.
    pub open spec fn is_finished(self) -> bool {
        self.state is Done || self.state is Failed
    }

    /// Whether a user waits for the reply of the workflow.
    pub open spec fn replies_to_user(self) -> bool {
        self.kind != WorkFlowKind::ApplyDhcpLease
    }

    /// Whether the account of retries is in order: the time spent on them
    /// is the sum of their delays and lies within the time of the request.
    pub open spec fn wf(self) -> bool {
        &&& self.backoff_spent == total_backoff(self.retries as nat)
        &&& self.backoff_spent <= self.timeout
    }

    /// An event of this workflow, sent by the commander.
    pub open spec fn event(
        self,
        user: NipartUserEventView,
        plugin: NipartPluginEventView,
        dst: NipartEventAddressView,
        postpone: u32,
    ) -> NipartEventView {
        NipartEventView {
            uuid: self.uuid,
            user,
            plugin,
            src: NipartEventAddressView::Commander,
            dst,
            timeout: self.timeout,
            postpone_millis: postpone,
        }
    }

    /// The reply to the user, where one waits.
    pub open spec fn terminal(self, user: NipartUserEventView) -> Seq<NipartEventView> {
        if self.replies_to_user() {
            seq![self.event(user, NipartPluginEventView::Nil, NipartEventAddressView::User, 0)]
        } else {
            Seq::empty()
        }
    }

    /// What the user is told when the workflow has ended well. A request
    /// that asks for no data is answered by its own kind.
    pub open spec fn answer(self, share: ShareDataView) -> NipartUserEventView {
        match self.kind {
            WorkFlowKind::QueryPluginInfo => NipartUserEventView::QueryPluginInfoReply(
                share.plugin_infos,
            ),
            WorkFlowKind::QueryLogLevel => NipartUserEventView::QueryLogLevelReply(
                share.log_levels,
            ),
            WorkFlowKind::ChangeLogLevel(l) => NipartUserEventView::ChangeLogLevel(l),
            WorkFlowKind::Quit => NipartUserEventView::Quit,
            WorkFlowKind::ApplyNetState => NipartUserEventView::ApplyNetStateReply,
            WorkFlowKind::ApplyDhcpLease => NipartUserEventView::Nil,
            _ => NipartUserEventView::QueryNetStateReply(
                match share.current {
                    Some(c) => c,
                    None => NetworkStateView::empty(),
                },
            ),
        }
    }

    /// The workflow failed with `e`.
    pub open spec fn failed(self, share: ShareDataView, e: NipartErrorView) -> Outcome {
        Outcome {
            workflow: WorkFlowView {
                state: WorkFlowState::Failed(e.kind),
                replies: Seq::empty(),
                ..self
            },
            share,
            events: self.terminal(NipartUserEventView::Error(e)),
        }
    }

    /// The workflow ended well.
    pub open spec fn done(self, share: ShareDataView) -> Outcome {
        Outcome {
            workflow: WorkFlowView { state: WorkFlowState::Done, replies: Seq::empty(), ..self },
            share,
            events: self.terminal(self.answer(share)),
        }
    }

    /// The workflow after a verification failed with `e` at time `now`:
    /// where the delay of a further retry ends before the deadline, and
    /// the delays of all retries still fit into the time of the request, a step
    /// that applies the state again, delayed, and a step that verifies
    /// again join the steps, and the first of them is taken up; else the
    /// workflow fails for want of time. No step is ever served twice.
    pub open spec fn retried(self, share: ShareDataView, e: NipartErrorView, now: u64) -> Outcome {
        let delay = backoff_millis(self.retries as nat);
        let at = apply_index(self.tasks, 0);
        if self.backoff_spent + delay <= self.timeout && now + delay < self.deadline
            && self.retries < u32::MAX && at
            < self.tasks.len() && self.cursor < self.tasks.len() && self.tasks.len() <= usize::MAX
            && task_payload(self.tasks[at].kind, share) is Some {
            Outcome {
                workflow: WorkFlowView {
                    tasks: self.tasks.push(self.tasks[at]).push(self.tasks[self.cursor as int]),
                    cursor: self.tasks.len() as usize,
                    state: WorkFlowState::AwaitingReplies,
                    replies: Seq::empty(),
                    retries: (self.retries + 1) as u32,
                    backoff_spent: (self.backoff_spent + delay) as u32,
                    ..self
                },
                share,
                events: seq![
                    self.event(
                        NipartUserEventView::Nil,
                        task_payload(self.tasks[at].kind, share)->0,
                        task_dst(self.tasks[at].kind),
                        delay as u32,
                    ),
                ],
            }
        } else {
            self.failed(share, retries_exhausted_view(e))
        }
    }

    /// The workflow moved on as far as it can without further replies.
    ///
    /// A step that has not been sent is sent, and awaits its replies unless
    /// it expects none. A step whose replies are complete hands on what they
    /// carry, and the next step is taken up; a failure ends the workflow,
    /// but for a failed verification, which is retried. After the last step
    /// the user is answered.
    pub open spec fn advanced(self, share: ShareDataView, now: u64) -> Outcome
        decreases
                self.tasks.len() - self.cursor,
                if self.state is Pending {
                    1int
                } else {
                    0int
                },
    {
        if self.cursor >= self.tasks.len() || self.cursor >= usize::MAX {
            self.done(share)
        } else {
            let task = self.tasks[self.cursor as int];
            match self.state {
                WorkFlowState::Pending => match task_payload(task.kind, share) {
                    Some(p) => {
                        let request = self.event(
                            NipartUserEventView::Nil,
                            p,
                            task_dst(task.kind),
                            0,
                        );
                        if task.expected > 0 {
                            Outcome {
                                workflow: WorkFlowView {
                                    state: WorkFlowState::AwaitingReplies,
                                    replies: Seq::empty(),
                                    ..self
                                },
                                share,
                                events: seq![request],
                            }
                        } else {
                            (WorkFlowView {
                                state: WorkFlowState::Running,
                                replies: Seq::empty(),
                                ..self
                            }).advanced(share, now).after(seq![request])
                        }
                    },
                    None => (WorkFlowView {
                        state: WorkFlowState::Running,
                        replies: Seq::empty(),
                        ..self
                    }).advanced(share, now),
                },
                WorkFlowState::Running => match folded(task.kind, self.replies, share) {
                    Ok(handed_on) => (WorkFlowView {
                        cursor: (self.cursor + 1) as usize,
                        state: WorkFlowState::Pending,
                        replies: Seq::empty(),
                        ..self
                    }).advanced(handed_on, now),
                    Err(e) => if task.kind is VerifyNetState && e.kind
                        == ErrorKind::VerificationError {
                        self.retried(share, e, now)
                    } else {
                        self.failed(share, e)
                    },
                },
                _ => Outcome { workflow: self, share, events: Seq::empty() },
            }
        }
    }

    /// The workflow after the commander has looked at it at time `now`: an
    /// ended workflow stays as it is and sends nothing; one whose deadline
    /// has come fails for want of time; any other moves on.
    pub open spec fn processed(self, share: ShareDataView, now: u64) -> Outcome {
        if self.is_finished() {
            Outcome { workflow: self, share, events: Seq::empty() }
        } else if now >= self.deadline {
            self.failed(share, timeout_view())
        } else {
            self.advanced(share, now)
        }
    }

    /// Whether the workflow takes an event for a reply to the step it
    /// awaits replies to: the event carries the identifier of the workflow
    /// and either answers the request of the step or reports a failure.
    pub open spec fn takes(self, reply: NipartEventView) -> bool {
        &&& self.state is AwaitingReplies
        &&& self.cursor < self.tasks.len()
        &&& reply.uuid == self.uuid
        &&& (accepts(self.tasks[self.cursor as int].kind, reply.plugin)
            || reply.reports_failure())
    }

    /// The workflow after an event was offered to it: a reply it takes is
    /// kept, and when that completes the replies of the step, the step is
    /// ready to be worked in; any other event changes nothing.
    pub open spec fn absorbed(self, reply: NipartEventView) -> WorkFlowView {
        if self.takes(reply) {
            WorkFlowView {
                replies: self.replies.push(reply),
                state: if self.replies.len() + 1 >= self.tasks[self.cursor as int].expected {
                    WorkFlowState::Running
                } else {
                    WorkFlowState::AwaitingReplies
                },
                ..self
            }
        } else {
            self
        }
    }
}

/// The failure that the first failing reply reports.
fn first_error_of(replies: &Vec<NipartEvent>) -> (r: Option<NipartError>)
    ensures
        r.deep_view() == first_error(replies.deep_view(), 0),
{
    let mut i: usize = 0;
    while i < replies.len()
        invariant
            i <= replies.len(),
            first_error(replies.deep_view(), 0) == first_error(replies.deep_view(), i as int),
        decreases replies.len() - i,
    {
        if let NipartUserEvent::Error(e) = &replies[i].user {
            return Some(e.dup());
        }
        i += 1;
    }
    None
}

/// Whether there are replies and every one reports a failure.
fn have_all_failed(replies: &Vec<NipartEvent>) -> (b: bool)
    ensures
        b == all_failed(replies.deep_view()),
{
    if replies.len() == 0 {
        return false;
    }
    let mut i: usize = 0;
    while i < replies.len()
        invariant
            i <= replies.len(),
            replies.len() > 0,
            forall|j: int| 0 <= j < i ==> (#[trigger] replies.deep_view()[j]).user is Error,
        decreases replies.len() - i,
    {
        if !replies[i].is_err() {
            assert(!(replies.deep_view()[i as int].user is Error));
            return false;
        }
        i += 1;
    }
    true
}

/// The plugin descriptions that the replies without failure carry.
fn collect_plugin_infos(replies: &Vec<NipartEvent>) -> (r: Vec<NipartPluginInfo>)
    ensures
        r.deep_view() == plugin_infos_of(replies.deep_view()),
{
    let mut out: Vec<NipartPluginInfo> = Vec::new();
    let mut i: usize = 0;
    assert(replies.deep_view().take(0) =~= Seq::empty());
    assert(out.deep_view() =~= Seq::empty());
    while i < replies.len()
        invariant
            i <= replies.len(),
            out.deep_view() == plugin_infos_of(replies.deep_view().take(i as int)),
        decreases replies.len() - i,
    {
        let ghost before = out.deep_view();
        assert(replies.deep_view().take(i + 1).drop_last() =~= replies.deep_view().take(i as int));
        assert(replies.deep_view().take(i + 1).last() == replies[i as int]@);
        if let NipartPluginEvent::QueryPluginInfoReply(info) = &replies[i].plugin {
            if !replies[i].is_err() {
                out.push(info.dup());
                assert(out.deep_view() =~= before.push(info@));
            }
        }
        i += 1;
    }
    assert(replies.deep_view().take(replies.len() as int) =~= replies.deep_view());
    out
}

/// Sets the level of one plugin, as in a map.
fn set_level(levels: &mut Vec<(String, NipartLogLevel)>, name: String, level: NipartLogLevel)
    ensures
        final(levels).deep_view() == with_level(old(levels).deep_view(), name@, level),
{
    let mut p: usize = 0;
    while p < levels.len() && !levels[p].0.same(&name)
        invariant
            p <= levels.len(),
            levels.deep_view() == old(levels).deep_view(),
            level_position(levels.deep_view(), name@, 0) == level_position(
                levels.deep_view(),
                name@,
                p as int,
            ),
        decreases levels.len() - p,
    {
        p += 1;
    }
    let ghost before = levels.deep_view();
    if p < levels.len() {
        levels.set(p, (name, level));
        assert(levels.deep_view() =~= before.update(p as int, (name@, level)));
    } else {
        levels.push((name, level));
        assert(levels.deep_view() =~= before.push((name@, level)));
    }
}

/// The log levels that the replies without failure carry, by the name of
/// the plugin that each came from.
fn collect_log_levels(replies: &Vec<NipartEvent>) -> (r: Vec<(String, NipartLogLevel)>)
    ensures
        r.deep_view() == log_levels_of(replies.deep_view()),
{
    let mut out: Vec<(String, NipartLogLevel)> = Vec::new();
    let mut i: usize = 0;
    assert(replies.deep_view().take(0) =~= Seq::empty());
    assert(out.deep_view() =~= Seq::empty());
    while i < replies.len()
        invariant
            i <= replies.len(),
            out.deep_view() == log_levels_of(replies.deep_view().take(i as int)),
        decreases replies.len() - i,
    {
        assert(replies.deep_view().take(i + 1).drop_last() =~= replies.deep_view().take(i as int));
        assert(replies.deep_view().take(i + 1).last() == replies[i as int]@);
        if let NipartPluginEvent::QueryLogLevelReply(level) = &replies[i].plugin {
            if !replies[i].is_err() {
                set_level(&mut out, replies[i].src.to_text(), *level);
            }
        }
        i += 1;
    }
    assert(replies.deep_view().take(replies.len() as int) =~= replies.deep_view());
    out
}

/// The states, with their priorities, that the replies without failure
/// carry.
fn collect_reports(replies: &Vec<NipartEvent>) -> (r: Vec<(NetworkState, u32)>)
    ensures
        r.deep_view() == reports_of(replies.deep_view()),
{
    let mut out: Vec<(NetworkState, u32)> = Vec::new();
    let mut i: usize = 0;
    assert(replies.deep_view().take(0) =~= Seq::empty());
    assert(out.deep_view() =~= Seq::empty());
    while i < replies.len()
        invariant
            i <= replies.len(),
            out.deep_view() == reports_of(replies.deep_view().take(i as int)),
        decreases replies.len() - i,
    {
        let ghost before = out.deep_view();
        assert(replies.deep_view().take(i + 1).drop_last() =~= replies.deep_view().take(i as int));
        assert(replies.deep_view().take(i + 1).last() == replies[i as int]@);
        if let NipartPluginEvent::QueryNetStateReply(state, prio) = &replies[i].plugin {
            if !replies[i].is_err() {
                out.push(((**state).dup(), *prio));
                assert(out.deep_view() =~= before.push((state@, *prio)));
            }
        }
        i += 1;
    }
    assert(replies.deep_view().take(replies.len() as int) =~= replies.deep_view());
    out
}

/// The role of the plugins that serve a query for a kind of state.
pub fn role_of(kind: NipartStateKind) -> (r: NipartRole)
    ensures
        r == role_for(kind),
{
    match kind {
        NipartStateKind::Running => NipartRole::QueryAndApply,
        NipartStateKind::Saved => NipartRole::Config,
        NipartStateKind::PostLastCommit => NipartRole::Config,
    }
}

/// Where the request of a step is sent.
fn task_address(kind: TaskKind) -> (r: NipartEventAddress)
    ensures
        r@ == task_dst(kind),
{
    match kind {
        TaskKind::QueryPluginInfo => NipartEventAddress::AllPlugins,
        TaskKind::QueryLogLevel => NipartEventAddress::AllPlugins,
        TaskKind::ChangeLogLevel(_) => NipartEventAddress::AllPlugins,
        TaskKind::Quit => NipartEventAddress::AllPlugins,
        TaskKind::QueryNetState(_, role) => NipartEventAddress::Group(role),
        TaskKind::MergeDesired => NipartEventAddress::Commander,
        TaskKind::ApplyDhcpConfig => NipartEventAddress::Dhcp,
        TaskKind::ApplyNetState(_) => NipartEventAddress::Group(NipartRole::QueryAndApply),
        TaskKind::VerifyNetState => NipartEventAddress::Group(NipartRole::QueryAndApply),
        TaskKind::ApplyDhcpLease => NipartEventAddress::Group(NipartRole::ApplyDhcpLease),
    }
}

/// What the request of a step carries.
fn task_request(kind: TaskKind, share: &ShareData) -> (r: Option<NipartPluginEvent>)
    ensures
        r.deep_view() == task_payload(kind, share@),
{
    reveal(task_payload);
    match kind {
        TaskKind::QueryPluginInfo => Some(NipartPluginEvent::QueryPluginInfo),
        TaskKind::QueryLogLevel => Some(NipartPluginEvent::QueryLogLevel),
        TaskKind::ChangeLogLevel(l) => Some(NipartPluginEvent::ChangeLogLevel(l)),
        TaskKind::Quit => Some(NipartPluginEvent::Quit),
        TaskKind::QueryNetState(opt, _) => Some(NipartPluginEvent::QueryNetState(opt)),
        TaskKind::MergeDesired => None,
        TaskKind::ApplyDhcpConfig => match &share.merged {
            Some(m) => if m.dhcp_is_plain() {
                Some(NipartPluginEvent::ApplyDhcpConfig(Box::new(m.get_dhcp_changes())))
            } else {
                None
            },
            None => None,
        },
        TaskKind::ApplyNetState(opt) => match &share.merged {
            Some(m) => Some(NipartPluginEvent::ApplyNetState(Box::new(m.dup()), opt)),
            None => None,
        },
        TaskKind::VerifyNetState => Some(
            NipartPluginEvent::QueryNetState(NipartQueryOption::running()),
        ),
        TaskKind::ApplyDhcpLease => match &share.lease {
            Some(l) => Some(NipartPluginEvent::ApplyDhcpLease(Box::new(l.dup()))),
            None => None,
        },
    }
}

/// Whether a plugin event answers the request of a step.
fn task_accepts(kind: TaskKind, reply: &NipartPluginEvent) -> (b: bool)
    ensures
        b == accepts(kind, reply@),
{
    match (kind, reply) {
        (TaskKind::QueryPluginInfo, NipartPluginEvent::QueryPluginInfoReply(_)) => true,
        (TaskKind::QueryLogLevel, NipartPluginEvent::QueryLogLevelReply(_)) => true,
        (TaskKind::QueryNetState(_, _), NipartPluginEvent::QueryNetStateReply(_, _)) => true,
        (TaskKind::VerifyNetState, NipartPluginEvent::QueryNetStateReply(_, _)) => true,
        (TaskKind::ApplyDhcpConfig, NipartPluginEvent::ApplyDhcpConfigReply) => true,
        (TaskKind::ApplyNetState(_), NipartPluginEvent::ApplyNetStateReply) => true,
        (TaskKind::ApplyDhcpLease, NipartPluginEvent::ApplyDhcpLeaseReply) => true,
        _ => false,
    }
}

/// Works the replies of a step into what the steps hand on.
#[verifier::rlimit(50)]
fn fold_replies(kind: TaskKind, replies: &Vec<NipartEvent>, share: &mut ShareData) -> (r: Result<
    (),
    NipartError,
>)
    ensures
        match folded(kind, replies.deep_view(), old(share)@) {
            Ok(s) => r is Ok && final(share)@ == s,
            Err(e) => r is Err && r->Err_0@ == e && final(share)@ == old(share)@,
        },
{
    reveal(folded);
    match kind {
        TaskKind::QueryPluginInfo => {
            if have_all_failed(replies) {
                match first_error_of(replies) {
                    Some(e) => Err(e),
                    None => Ok(()),
                }
            } else {
                share.plugin_infos = collect_plugin_infos(replies);
                Ok(())
            }
        },
        TaskKind::QueryLogLevel => {
            if have_all_failed(replies) {
                match first_error_of(replies) {
                    Some(e) => Err(e),
                    None => Ok(()),
                }
            } else {
                share.log_levels = collect_log_levels(replies);
                Ok(())
            }
        },
        TaskKind::ChangeLogLevel(_) => Ok(()),
        TaskKind::Quit => Ok(()),
        TaskKind::QueryNetState(_, _) => {
            if have_all_failed(replies) {
                match first_error_of(replies) {
                    Some(e) => Err(e),
                    None => Ok(()),
                }
            } else {
                let reports = collect_reports(replies);
                share.current = Some(merge_by_priority(&reports));
                Ok(())
            }
        },
        TaskKind::MergeDesired => {
            let merged = match (&share.desired, &share.current) {
                (Some(d), Some(c)) => MergedNetworkState::new(d.dup(), c.dup())?,
                _ => {
                    return Err(
                        NipartError::new(
                            ErrorKind::Bug,
                            String::from_str("A step found no data of the step before it"),
                        ),
                    );
                },
            };
            if merged.dhcp_is_plain() {
                share.merged = Some(merged);
                Ok(())
            } else {
                Err(
                    NipartError::new(
                        ErrorKind::InvalidArgument,
                        String::from_str("DHCP client identifiers and DUIDs are not supported"),
                    ),
                )
            }
        },
        TaskKind::VerifyNetState => {
            if have_all_failed(replies) {
                match first_error_of(replies) {
                    Some(e) => Err(e),
                    None => Ok(()),
                }
            } else {
                let reports = collect_reports(replies);
                let found = merge_by_priority(&reports);
                match &share.merged {
                    Some(m) => {
                        m.verify(&found)?;
                    },
                    None => {
                        return Err(
                            NipartError::new(
                                ErrorKind::Bug,
                                String::from_str("A step found no data of the step before it"),
                            ),
                        );
                    },
                }
                share.current = Some(found);
                Ok(())
            }
        },
        _ => match first_error_of(replies) {
            Some(e) => Err(e),
            None => Ok(()),
        },
    }
}

/// Finds the first step that applies a state.
fn find_apply(tasks: &Vec<WorkFlowTask>) -> (at: usize)
    ensures
        at == apply_index(tasks.deep_view(), 0),
        at <= tasks.len(),
{
    let mut i: usize = 0;
    while i < tasks.len()
        invariant
            i <= tasks.len(),
            apply_index(tasks.deep_view(), 0) == apply_index(tasks.deep_view(), i as int),
        decreases tasks.len() - i,
    {
        if let TaskKind::ApplyNetState(_) = tasks[i].kind {
            return i;
        }
        i += 1;
    }
    i
}

impl ShareData {
    /// Nothing handed on yet.
    pub fn new() -> (r: Self)
        ensures
            r@ == ShareDataView::empty(),
    {
        let r = ShareData {
            plugin_infos: Vec::new(),
            log_levels: Vec::new(),
            desired: None,
            current: None,
            merged: None,
            lease: None,
        };
        assert(r@.plugin_infos =~= Seq::empty());
        assert(r@.log_levels =~= Seq::empty());
        r
    }
}

impl WorkFlow {
    /// A workflow of the given steps that has served nothing yet. It fails
    /// when the clock reaches `now` plus the time the request may take.
    pub fn start(uuid: u128, kind: WorkFlowKind, tasks: Vec<WorkFlowTask>, timeout: u32, now: u64) -> (r:
        Self)
        ensures
            r@ == WorkFlowView::started(uuid, kind, tasks.deep_view(), timeout, now),
            r@.wf(),
            !r@.is_finished(),
    {
        let timeout = if timeout == 0 || timeout > DEFAULT_TIMEOUT {
            DEFAULT_TIMEOUT
        } else {
            timeout
        };
        let deadline = if now > u64::MAX - timeout as u64 {
            u64::MAX
        } else {
            now + timeout as u64
        };
        let r = WorkFlow {
            uuid,
            kind,
            timeout,
            deadline,
            tasks,
            cursor: 0,
            state: WorkFlowState::Pending,
            replies: Vec::new(),
            retries: 0,
            backoff_spent: 0,
        };
        assert(r@.replies =~= Seq::empty());
        r
    }

    /// Whether the workflow has ended, well or not.
    pub fn is_finished(&self) -> (b: bool)
        ensures
            b == self@.is_finished(),
    {
        match self.state {
            WorkFlowState::Done => true,
            WorkFlowState::Failed(_) => true,
            _ => false,
        }
    }

    /// Whether a user waits for the reply of the workflow.
    pub fn replies_to_user(&self) -> (b: bool)
        ensures
            b == self@.replies_to_user(),
    {
        match self.kind {
            WorkFlowKind::ApplyDhcpLease => false,
            _ => true,
        }
    }

    /// An event of this workflow, sent by the commander.
    fn event(
        &self,
        user: NipartUserEvent,
        plugin: NipartPluginEvent,
        dst: NipartEventAddress,
        postpone: u32,
    ) -> (e: NipartEvent)
        ensures
            e@ == self@.event(user@, plugin@, dst@, postpone),
    {
        NipartEvent {
            uuid: self.uuid,
            user,
            plugin,
            src: NipartEventAddress::Commander,
            dst,
            timeout: self.timeout,
            postpone_millis: postpone,
        }
    }

    /// Puts the reply to the user, where one waits, behind `events`.
    fn push_terminal(&self, user: NipartUserEvent, events: &mut Vec<NipartEvent>)
        ensures
            final(events).deep_view() == old(events).deep_view() + self@.terminal(user@),
    {
        if self.replies_to_user() {
            let e = self.event(user, NipartPluginEvent::Nil, NipartEventAddress::User, 0);
            events.push(e);
            assert(events.deep_view() =~= old(events).deep_view() + seq![e@]);
        } else {
            assert(events.deep_view() =~= old(events).deep_view() + Seq::<NipartEventView>::empty());
        }
    }

    /// What the user is told when the workflow has ended well.
    fn answer(&self, share: &ShareData) -> (r: NipartUserEvent)
        ensures
            r@ == self@.answer(share@),
    {
        match self.kind {
            WorkFlowKind::QueryPluginInfo => NipartUserEvent::QueryPluginInfoReply(
                share.plugin_infos.dup(),
            ),
            WorkFlowKind::QueryLogLevel => NipartUserEvent::QueryLogLevelReply(
                share.log_levels.dup(),
            ),
            WorkFlowKind::ChangeLogLevel(l) => NipartUserEvent::ChangeLogLevel(l),
            WorkFlowKind::Quit => NipartUserEvent::Quit,
            WorkFlowKind::ApplyNetState => NipartUserEvent::ApplyNetStateReply,
            WorkFlowKind::ApplyDhcpLease => NipartUserEvent::Nil,
            _ => NipartUserEvent::QueryNetStateReply(
                Box::new(
                    match &share.current {
                        Some(c) => c.dup(),
                        None => NetworkState::new(),
                    },
                ),
            ),
        }
    }

    /// Ends the workflow with the failure `e`.
    fn fail(&mut self, e: NipartError, events: &mut Vec<NipartEvent>)
        ensures
            final(self)@ == (WorkFlowView {
                state: WorkFlowState::Failed(e@.kind),
                replies: Seq::empty(),
                ..old(self)@
            }),
            final(events).deep_view() == old(events).deep_view() + old(self)@.terminal(
                NipartUserEventView::Error(e@),
            ),
    {
        self.state = WorkFlowState::Failed(e.kind);
        self.replies = Vec::new();
        assert(self@.replies =~= Seq::empty());
        self.push_terminal(NipartUserEvent::Error(e), events);
    }

    /// Applies again after a failed verification, or fails for want of
    /// time.
    #[verifier::rlimit(50)]
    fn retry(
        &mut self,
        share: &ShareData,
        e: NipartError,
        events: &mut Vec<NipartEvent>,
        now: u64,
    )
        requires
            old(self)@.wf(),
        ensures
            ({
                let o = old(self)@.retried(share@, e@, now);
                &&& final(self)@ == o.workflow
                &&& final(events).deep_view() == old(events).deep_view() + o.events
            }),
    {
        let delay = backoff(self.retries);
        let at = find_apply(&self.tasks);
        let in_time = now < self.deadline && delay as u64 <= self.deadline - now - 1;
        if delay <= self.timeout - self.backoff_spent && in_time && self.retries < u32::MAX && at
            < self.tasks.len() && self.cursor < self.tasks.len() {
            if let Some(payload) = task_request(self.tasks[at].kind, share) {
                let request = self.event(
                    NipartUserEvent::Nil,
                    payload,
                    task_address(self.tasks[at].kind),
                    delay,
                );
                let apply_again = self.tasks[at];
                let verify_again = self.tasks[self.cursor];
                self.cursor = self.tasks.len();
                self.tasks.push(apply_again);
                self.tasks.push(verify_again);
                assert(self@.tasks =~= old(self)@.tasks.push(apply_again).push(verify_again));
                self.state = WorkFlowState::AwaitingReplies;
                self.replies = Vec::new();
                self.retries = self.retries + 1;
                self.backoff_spent = self.backoff_spent + delay;
                assert(self@.replies =~= Seq::empty());
                events.push(request);
                assert(events.deep_view() =~= old(events).deep_view() + seq![request@]);
                return ;
            }
        }
        let mut msg = String::from_str("No time is left to retry: ");
        msg.append(e.msg());
        self.fail(NipartError::new(ErrorKind::Timeout, msg), events);
    }

    /// Moves the workflow on as far as it can go without further replies
    /// and puts the events to be sent behind `events`.
    #[verifier::rlimit(50)]
    fn advance(&mut self, share: &mut ShareData, events: &mut Vec<NipartEvent>, now: u64)
        requires
            old(self)@.wf(),
        ensures
            ({
                let o = old(self)@.advanced(old(share)@, now);
                &&& final(self)@ == o.workflow
                &&& final(share)@ == o.share
                &&& final(events).deep_view() == old(events).deep_view() + o.events
            }),
            final(self)@.wf(),
        decreases
                old(self)@.tasks.len() - old(self)@.cursor,
                if old(self)@.state is Pending {
                    1int
                } else {
                    0int
                },
    {
        if self.cursor >= self.tasks.len() {
            let answer = self.answer(share);
            self.state = WorkFlowState::Done;
            self.replies = Vec::new();
            assert(self@.replies =~= Seq::empty());
            self.push_terminal(answer, events);
            return ;
        }
        let task = self.tasks[self.cursor];
        assert(task == old(self)@.tasks[old(self)@.cursor as int]);
        match self.state {
            WorkFlowState::Pending => {
                self.replies = Vec::new();
                assert(self@.replies =~= Seq::empty());
                match task_request(task.kind, share) {
                    Some(payload) => {
                        let request = self.event(
                            NipartUserEvent::Nil,
                            payload,
                            task_address(task.kind),
                            0,
                        );
                        events.push(request);
                        let ghost sent = events.deep_view();
                        assert(sent =~= old(events).deep_view() + seq![request@]);
                        if task.expected > 0 {
                            self.state = WorkFlowState::AwaitingReplies;
                        } else {
                            self.state = WorkFlowState::Running;
                            let ghost running = self@;
                            self.advance(share, events, now);
                            assert(events.deep_view() =~= old(events).deep_view() + (seq![
                                request@,
                            ] + running.advanced(old(share)@, now).events));
                        }
                    },
                    None => {
                        self.state = WorkFlowState::Running;
                        self.advance(share, events, now);
                    },
                }
            },
            WorkFlowState::Running => {
                match fold_replies(task.kind, &self.replies, share) {
                    Ok(()) => {
                        self.cursor = self.cursor + 1;
                        self.state = WorkFlowState::Pending;
                        self.replies = Vec::new();
                        assert(self@.replies =~= Seq::empty());
                        self.advance(share, events, now);
                    },
                    Err(e) => {
                        let verification = match (task.kind, e.kind) {
                            (TaskKind::VerifyNetState, ErrorKind::VerificationError) => true,
                            _ => false,
                        };
                        if verification {
                            self.retry(share, e, events, now);
                            proof {
                                let pre = old(self)@;
                                if self@.retries != pre.retries {
                                    assert(total_backoff(self@.retries as nat) == total_backoff(
                                        pre.retries as nat,
                                    ) + backoff_millis(pre.retries as nat));
                                }
                            }
                        } else {
                            self.fail(e, events);
                        }
                    },
                }
            },
            _ => {
                assert(events.deep_view() =~= old(events).deep_view() + Seq::<
                    NipartEventView,
                >::empty());
            },
        }
    }

    /// Looks at the workflow at time `now` and returns the events to be
    /// sent. An ended workflow sends nothing. One whose deadline has come
    /// fails with `Timeout`. Any other moves on as far as it can without
    /// further replies.
    pub fn process(&mut self, share: &mut ShareData, now: u64) -> (events: Vec<NipartEvent>)
        requires
            old(self)@.wf(),
        ensures
            ({
                let o = old(self)@.processed(old(share)@, now);
                &&& final(self)@ == o.workflow
                &&& final(share)@ == o.share
                &&& events.deep_view() == o.events
            }),
            final(self)@.wf(),
    {
        let mut events: Vec<NipartEvent> = Vec::new();
        assert(events.deep_view() =~= Seq::empty());
        if self.is_finished() {
            return events;
        }
        if now >= self.deadline {
            self.fail(
                NipartError::new(
                    ErrorKind::Timeout,
                    String::from_str("The request was not served in time"),
                ),
                &mut events,
            );
            assert(events.deep_view() =~= old(self)@.failed(old(share)@, timeout_view()).events);
            return events;
        }
        self.advance(share, &mut events, now);
        assert(events.deep_view() =~= old(self)@.advanced(old(share)@, now).events);
        events
    }

    /// Whether the workflow takes an event for a reply to the step it
    /// awaits replies to.
    pub fn takes(&self, reply: &NipartEvent) -> (b: bool)
        ensures
            b == self@.takes(reply@),
    {
        let awaiting = match self.state {
            WorkFlowState::AwaitingReplies => true,
            _ => false,
        };
        awaiting && self.cursor < self.tasks.len() && reply.uuid == self.uuid && (task_accepts(
            self.tasks[self.cursor].kind,
            &reply.plugin,
        ) || reply.reports_failure())
    }

    /// Offers an event to the workflow. A reply to the step that awaits
    /// replies is kept, and `true` is returned; any other event is left
    /// alone.
    pub fn add_reply(&mut self, reply: NipartEvent) -> (taken: bool)
        ensures
            taken == old(self)@.takes(reply@),
            final(self)@ == old(self)@.absorbed(reply@),
            old(self)@.wf() ==> final(self)@.wf(),
    {
        if self.takes(&reply) {
            let expected = self.tasks[self.cursor].expected;
            if expected == 0 || self.replies.len() >= expected - 1 {
                self.state = WorkFlowState::Running;
            }
            self.replies.push(reply);
            assert(self@.replies =~= old(self)@.replies.push(reply@));
            true
        } else {
            false
        }
    }
}

/// The one step of a workflow that asks every plugin the same thing.
pub open spec fn single_task(kind: TaskKind, expected: usize) -> Seq<WorkFlowTask> {
    seq![WorkFlowTask { kind, expected }]
}

/// The steps by which a desired state is applied: query the running
/// state, lay the desired state beside it, hand the DHCP settings to the
/// DHCP plugin where there is one, apply, and, unless verification is
/// switched off, query again and compare.
pub open spec fn apply_tasks(
    opt: NipartApplyOption,
    appliers: usize,
    dhcp_plugins: usize,
) -> Seq<WorkFlowTask> {
    seq![
        WorkFlowTask {
            kind: TaskKind::QueryNetState(
                NipartQueryOption { kind: NipartStateKind::Running },
                NipartRole::QueryAndApply,
            ),
            expected: appliers,
        },
        WorkFlowTask { kind: TaskKind::MergeDesired, expected: 0 },
    ] + (if dhcp_plugins > 0 {
        seq![WorkFlowTask { kind: TaskKind::ApplyDhcpConfig, expected: 1 }]
    } else {
        Seq::empty()
    }) + seq![WorkFlowTask { kind: TaskKind::ApplyNetState(opt), expected: appliers }] + (
    if opt.skip_verify {
        Seq::empty()
    } else {
        seq![WorkFlowTask { kind: TaskKind::VerifyNetState, expected: appliers }]
    })
}

impl WorkFlow {
    /// The workflow that asks every plugin to describe itself and answers
    /// the user with the descriptions in order of arrival.
    pub fn new_query_plugin_info(uuid: u128, all_plugins_count: usize, timeout: u32, now: u64) -> (r:
        (WorkFlow, ShareData))
        ensures
            r.0@ == WorkFlowView::started(
                uuid,
                WorkFlowKind::QueryPluginInfo,
                single_task(TaskKind::QueryPluginInfo, all_plugins_count),
                timeout,
                now,
            ),
            r.1@ == ShareDataView::empty(),
            r.0@.wf(),
    {
        let tasks = vec![WorkFlowTask { kind: TaskKind::QueryPluginInfo, expected: all_plugins_count }];
        assert(tasks.deep_view() =~= single_task(TaskKind::QueryPluginInfo, all_plugins_count));
        (WorkFlow::start(uuid, WorkFlowKind::QueryPluginInfo, tasks, timeout, now), ShareData::new())
    }

    /// The workflow that asks every plugin for its log level and answers
    /// the user with the levels by plugin name.
    pub fn new_query_log_level(uuid: u128, all_plugins_count: usize, timeout: u32, now: u64) -> (r:
        (WorkFlow, ShareData))
        ensures
            r.0@ == WorkFlowView::started(
                uuid,
                WorkFlowKind::QueryLogLevel,
                single_task(TaskKind::QueryLogLevel, all_plugins_count),
                timeout,
                now,
            ),
            r.1@ == ShareDataView::empty(),
            r.0@.wf(),
    {
        let tasks = vec![WorkFlowTask { kind: TaskKind::QueryLogLevel, expected: all_plugins_count }];
        assert(tasks.deep_view() =~= single_task(TaskKind::QueryLogLevel, all_plugins_count));
        (WorkFlow::start(uuid, WorkFlowKind::QueryLogLevel, tasks, timeout, now), ShareData::new())
    }

    /// The workflow that tells every plugin to log at `level`. No replies
    /// are awaited, whatever the number of plugins.
    pub fn new_change_log_level(
        level: NipartLogLevel,
        uuid: u128,
        all_plugins_count: usize,
        timeout: u32,
        now: u64,
    ) -> (r: (WorkFlow, ShareData))
        ensures
            r.0@ == WorkFlowView::started(
                uuid,
                WorkFlowKind::ChangeLogLevel(level),
                single_task(TaskKind::ChangeLogLevel(level), 0),
                timeout,
                now,
            ),
            r.1@ == ShareDataView::empty(),
            r.0@.wf(),
    {
        let tasks = vec![WorkFlowTask { kind: TaskKind::ChangeLogLevel(level), expected: 0 }];
        assert(tasks.deep_view() =~= single_task(TaskKind::ChangeLogLevel(level), 0));
        (
            WorkFlow::start(uuid, WorkFlowKind::ChangeLogLevel(level), tasks, timeout, now),
            ShareData::new(),
        )
    }

    /// The workflow that tells every plugin to quit. No replies are
    /// awaited, whatever the number of plugins.
    pub fn new_quit(uuid: u128, all_plugins_count: usize, timeout: u32, now: u64) -> (r: (
        WorkFlow,
        ShareData,
    ))
        ensures
            r.0@ == WorkFlowView::started(
                uuid,
                WorkFlowKind::Quit,
                single_task(TaskKind::Quit, 0),
                timeout,
                now,
            ),
            r.1@ == ShareDataView::empty(),
            r.0@.wf(),
    {
        let tasks = vec![WorkFlowTask { kind: TaskKind::Quit, expected: 0 }];
        assert(tasks.deep_view() =~= single_task(TaskKind::Quit, 0));
        (WorkFlow::start(uuid, WorkFlowKind::Quit, tasks, timeout, now), ShareData::new())
    }

    /// The workflow that asks the plugins that serve the kind of state
    /// asked for, awaits a reply of each, and answers the user with their
    /// states merged by priority.
    pub fn new_query_net_state(
        opt: NipartQueryOption,
        uuid: u128,
        plugin_roles: &PluginRoles,
        timeout: u32,
        now: u64,
    ) -> (r: (WorkFlow, ShareData))
        ensures
            r.0@ == WorkFlowView::started(
                uuid,
                WorkFlowKind::QueryNetState,
                single_task(
                    TaskKind::QueryNetState(opt, role_for(opt.kind)),
                    count_with_role(plugin_roles@.plugins, role_for(opt.kind)) as usize,
                ),
                timeout,
                now,
            ),
            r.1@ == ShareDataView::empty(),
            r.0@.wf(),
    {
        let role = role_of(opt.kind);
        let expected = plugin_roles.role_count(role);
        let tasks = vec![WorkFlowTask { kind: TaskKind::QueryNetState(opt, role), expected }];
        assert(tasks.deep_view() =~= single_task(TaskKind::QueryNetState(opt, role), expected));
        (WorkFlow::start(uuid, WorkFlowKind::QueryNetState, tasks, timeout, now), ShareData::new())
    }

    /// The workflow that serves the commits: as a query of state, but
    /// asked of the configuration plugin alone, whatever state is asked
    /// for.
    pub fn new_query_commits(
        opt: NipartQueryOption,
        uuid: u128,
        plugin_roles: &PluginRoles,
        timeout: u32,
        now: u64,
    ) -> (r: (WorkFlow, ShareData))
        ensures
            r.0@ == WorkFlowView::started(
                uuid,
                WorkFlowKind::QueryCommits,
                single_task(
                    TaskKind::QueryNetState(opt, NipartRole::Config),
                    count_with_role(plugin_roles@.plugins, NipartRole::Config) as usize,
                ),
                timeout,
                now,
            ),
            r.1@ == ShareDataView::empty(),
            r.0@.wf(),
    {
        let expected = plugin_roles.role_count(NipartRole::Config);
        let tasks = vec![
            WorkFlowTask { kind: TaskKind::QueryNetState(opt, NipartRole::Config), expected },
        ];
        assert(tasks.deep_view() =~= single_task(
            TaskKind::QueryNetState(opt, NipartRole::Config),
            expected,
        ));
        (WorkFlow::start(uuid, WorkFlowKind::QueryCommits, tasks, timeout, now), ShareData::new())
    }

    /// The workflow that applies a desired state.
    pub fn new_apply_net_state(
        des: NetworkState,
        opt: NipartApplyOption,
        uuid: u128,
        plugin_roles: &PluginRoles,
        timeout: u32,
        now: u64,
    ) -> (r: (WorkFlow, ShareData))
        ensures
            r.0@ == WorkFlowView::started(
                uuid,
                WorkFlowKind::ApplyNetState,
                apply_tasks(
                    opt,
                    count_with_role(plugin_roles@.plugins, NipartRole::QueryAndApply) as usize,
                    count_with_role(plugin_roles@.plugins, NipartRole::Dhcp) as usize,
                ),
                timeout,
                now,
            ),
            r.1@ == (ShareDataView { desired: Some(des@), ..ShareDataView::empty() }),
            r.0@.wf(),
    {
        let appliers = plugin_roles.role_count(NipartRole::QueryAndApply);
        let dhcp_plugins = plugin_roles.role_count(NipartRole::Dhcp);
        let mut tasks = vec![
            WorkFlowTask {
                kind: TaskKind::QueryNetState(
                    NipartQueryOption::running(),
                    NipartRole::QueryAndApply,
                ),
                expected: appliers,
            },
            WorkFlowTask { kind: TaskKind::MergeDesired, expected: 0 },
        ];
        if dhcp_plugins > 0 {
            tasks.push(WorkFlowTask { kind: TaskKind::ApplyDhcpConfig, expected: 1 });
        }
        tasks.push(WorkFlowTask { kind: TaskKind::ApplyNetState(opt), expected: appliers });
        if !opt.skip_verify {
            tasks.push(WorkFlowTask { kind: TaskKind::VerifyNetState, expected: appliers });
        }
        assert(tasks.deep_view() =~= apply_tasks(opt, appliers, dhcp_plugins));
        let mut share = ShareData::new();
        share.desired = Some(des);
        (WorkFlow::start(uuid, WorkFlowKind::ApplyNetState, tasks, timeout, now), share)
    }

    /// The workflow that hands a lease, which the DHCP plugin got, to the
    /// plugins that apply leases. No user waits for its end.
    pub fn new_apply_dhcp_lease(
        uuid: u128,
        lease: NipartDhcpLease,
        plugin_roles: &PluginRoles,
        timeout: u32,
        now: u64,
    ) -> (r: (WorkFlow, ShareData))
        ensures
            r.0@ == WorkFlowView::started(
                uuid,
                WorkFlowKind::ApplyDhcpLease,
                single_task(
                    TaskKind::ApplyDhcpLease,
                    count_with_role(plugin_roles@.plugins, NipartRole::ApplyDhcpLease) as usize,
                ),
                timeout,
                now,
            ),
            r.1@ == (ShareDataView { lease: Some(lease@), ..ShareDataView::empty() }),
            r.0@.wf(),
    {
        let expected = plugin_roles.role_count(NipartRole::ApplyDhcpLease);
        let tasks = vec![WorkFlowTask { kind: TaskKind::ApplyDhcpLease, expected }];
        assert(tasks.deep_view() =~= single_task(TaskKind::ApplyDhcpLease, expected));
        let mut share = ShareData::new();
        share.lease = Some(lease);
        (WorkFlow::start(uuid, WorkFlowKind::ApplyDhcpLease, tasks, timeout, now), share)
    }
}

impl WorkFlow {
    /// Whether the account of retries is in order, as every workflow made
    /// and changed by the functions of this module has it.
    pub fn is_wf(&self) -> (b: bool)
        ensures
            b == self@.wf(),
    {
        self.backoff_spent as u64 == total_backoff_of(self.retries) && self.backoff_spent
            <= self.timeout
    }
}

} // verus!
