//! The commander: it turns every event that reaches it into work on the
//! queue of workflows and into events to be sent.
//!
//! The commander neither waits nor sends. Whoever runs it hands it each
//! event that arrived, or a tick when none arrived for a while, together
//! with the time, and sends the events it returns.

use crate::dhcp::NipartDhcpLeaseView;
use crate::event::{
    NipartEvent, NipartEventAddress, NipartEventAddressView, NipartEventView, NipartUserEvent,
    NipartUserEventView,
};
use crate::log_entry::{NipartLogEntry, NipartLogEntryView};
use crate::options::NipartLogLevel;
use crate::plugin::{NipartPluginEvent, NipartPluginEventView, NipartRole};
use crate::queue::{Live, WorkFlowQueue, WorkFlowQueueView};
use crate::roles::{count_with_role, PluginRoles, PluginRolesView};
use crate::workflow::{
    apply_tasks, role_for, single_task, ShareDataView, TaskKind, WorkFlow, WorkFlowKind,
    WorkFlowView,
};
use vstd::prelude::*;

verus! {

/// The time, in milliseconds, after which the queue is looked at when no
/// event arrived.
pub const WORKFLOW_QUEUE_CHECK_INTERVAL: u64 = 5000;

/// The workflow that serves the request of a user; `None` for an event that
/// asks for nothing the commander serves.
pub open spec fn workflow_for(event: NipartEventView, roles: PluginRolesView, now: u64) -> Option<
    Live,
> {
    let all = roles.plugins.len() as usize;
    match event.user {
        NipartUserEventView::QueryPluginInfo => Some(
            (
                WorkFlowView::started(
                    event.uuid,
                    WorkFlowKind::QueryPluginInfo,
                    single_task(TaskKind::QueryPluginInfo, all),
                    event.timeout,
                    now,
                ),
                ShareDataView::empty(),
            ),
        ),
        NipartUserEventView::QueryLogLevel => Some(
            (
                WorkFlowView::started(
                    event.uuid,
                    WorkFlowKind::QueryLogLevel,
                    single_task(TaskKind::QueryLogLevel, all),
                    event.timeout,
                    now,
                ),
                ShareDataView::empty(),
            ),
        ),
        NipartUserEventView::ChangeLogLevel(l) => Some(
            (
                WorkFlowView::started(
                    event.uuid,
                    WorkFlowKind::ChangeLogLevel(l),
                    single_task(TaskKind::ChangeLogLevel(l), 0),
                    event.timeout,
                    now,
                ),
                ShareDataView::empty(),
            ),
        ),
        NipartUserEventView::Quit => Some(
            (
                WorkFlowView::started(
                    event.uuid,
                    WorkFlowKind::Quit,
                    single_task(TaskKind::Quit, 0),
                    event.timeout,
                    now,
                ),
                ShareDataView::empty(),
            ),
        ),
        NipartUserEventView::QueryNetState(opt) => Some(
            (
                WorkFlowView::started(
                    event.uuid,
                    WorkFlowKind::QueryNetState,
                    single_task(
                        TaskKind::QueryNetState(opt, role_for(opt.kind)),
                        count_with_role(roles.plugins, role_for(opt.kind)) as usize,
                    ),
                    event.timeout,
                    now,
                ),
                ShareDataView::empty(),
            ),
        ),
        NipartUserEventView::ApplyNetState(des, opt) => Some(
            (
                WorkFlowView::started(
                    event.uuid,
                    WorkFlowKind::ApplyNetState,
                    apply_tasks(
                        opt,
                        count_with_role(roles.plugins, NipartRole::QueryAndApply) as usize,
                        count_with_role(roles.plugins, NipartRole::Dhcp) as usize,
                    ),
                    event.timeout,
                    now,
                ),
                ShareDataView { desired: Some(des), ..ShareDataView::empty() },
            ),
        ),
        NipartUserEventView::QueryCommits(opt) => Some(
            (
                WorkFlowView::started(
                    event.uuid,
                    WorkFlowKind::QueryCommits,
                    single_task(
                        TaskKind::QueryNetState(opt, NipartRole::Config),
                        count_with_role(roles.plugins, NipartRole::Config) as usize,
                    ),
                    event.timeout,
                    now,
                ),
                ShareDataView::empty(),
            ),
        ),
        _ => None,
    }
}

/// The workflow that serves a lease that the DHCP plugin got.
pub open spec fn workflow_for_lease(
    event: NipartEventView,
    lease: NipartDhcpLeaseView,
    roles: PluginRolesView,
    now: u64,
) -> Live {
    (
        WorkFlowView::started(
            event.uuid,
            WorkFlowKind::ApplyDhcpLease,
            single_task(
                TaskKind::ApplyDhcpLease,
                count_with_role(roles.plugins, NipartRole::ApplyDhcpLease) as usize,
            ),
            event.timeout,
            now,
        ),
        ShareDataView { lease: Some(lease), ..ShareDataView::empty() },
    )
}

/// The queue after an event of the user level, and the events to be sent.
/// The report of a failure is offered to the workflow with its identifier,
/// as a reply is. For a request, the workflow that serves it joins the
/// queue. In both cases the queue is looked at. An event that asks for
/// nothing changes nothing.
pub open spec fn after_user_event(
    q: WorkFlowQueueView,
    event: NipartEventView,
    roles: PluginRolesView,
    now: u64,
) -> (WorkFlowQueueView, Seq<NipartEventView>) {
    if event.user is Error {
        q.offered(event).processed(now)
    } else {
        match workflow_for(event, roles, now) {
            Some(live) => q.with(live.0, live.1).processed(now),
            None => (q, Seq::empty()),
        }
    }
}

/// The queue after an event of a plugin, and the events to be sent: a reply
/// is offered to the workflow with its identifier, a lease gets a workflow
/// of its own, and in both cases the queue is looked at. Any other event
/// changes nothing.
pub open spec fn after_plugin_event(
    q: WorkFlowQueueView,
    event: NipartEventView,
    roles: PluginRolesView,
    now: u64,
) -> (WorkFlowQueueView, Seq<NipartEventView>) {
    if event.plugin.is_reply() {
        q.offered(event).processed(now)
    } else {
        match event.plugin {
            NipartPluginEventView::GotDhcpLease(lease) => {
                let live = workflow_for_lease(event, lease, roles, now);
                q.with(live.0, live.1).processed(now)
            },
            _ => (q, Seq::empty()),
        }
    }
}

/// The queue after an event, and the events to be sent. An event with a
/// plugin-level payload is an event of a plugin; any other is the request
/// of a user.
pub open spec fn after_event(
    q: WorkFlowQueueView,
    event: NipartEventView,
    roles: PluginRolesView,
    now: u64,
) -> (WorkFlowQueueView, Seq<NipartEventView>) {
    if !(event.plugin is Nil) {
        after_plugin_event(q, event, roles, now)
    } else {
        after_user_event(q, event, roles, now)
    }
}

/// The event by which the commander tells the user what it does: an entry
/// of the log under the identifier of the event that the entry speaks of.
pub fn log_to_user(uuid: u128, level: NipartLogLevel, message: String) -> (e: NipartEvent)
    ensures
        e@ == (NipartLogEntryView { level, message: message@ }).event(
            uuid,
            NipartEventAddressView::Commander,
        ),
{
    NipartLogEntry::new(level, message).to_event(uuid, NipartEventAddress::Commander)
}

/// Looks at every workflow of the queue at time `now` and returns the
/// events to be sent.
pub fn process_workflow_queue(workflow_queue: &mut WorkFlowQueue, now: u64) -> (events: Vec<
    NipartEvent,
>)
    requires
        old(workflow_queue)@.wf(),
    ensures
        final(workflow_queue)@ == old(workflow_queue)@.processed(now).0,
        events.deep_view() == old(workflow_queue)@.processed(now).1,
        final(workflow_queue)@.wf(),
{
    workflow_queue.process(now)
}

/// Takes an event that reached the commander at time `now` and returns the
/// events to be sent.
pub fn process_event(
    event: NipartEvent,
    workflow_queue: &mut WorkFlowQueue,
    plugin_roles: &PluginRoles,
    now: u64,
) -> (events: Vec<NipartEvent>)
    requires
        old(workflow_queue)@.wf(),
    ensures
        final(workflow_queue)@ == after_event(old(workflow_queue)@, event@, plugin_roles@, now).0,
        events.deep_view() == after_event(old(workflow_queue)@, event@, plugin_roles@, now).1,
        final(workflow_queue)@.wf(),
{
    let is_plugin_event = match &event.plugin {
        NipartPluginEvent::Nil => false,
        _ => true,
    };
    if is_plugin_event {
        process_plugin_event(event, workflow_queue, plugin_roles, now)
    } else {
        process_user_event(event, workflow_queue, plugin_roles, now)
    }
}

/// Takes an event of a plugin: a reply goes to the workflow that awaits
/// it, a lease gets a workflow of its own. Any other event is dropped.
pub fn process_plugin_event(
    event: NipartEvent,
    workflow_queue: &mut WorkFlowQueue,
    plugin_roles: &PluginRoles,
    now: u64,
) -> (events: Vec<NipartEvent>)
    requires
        old(workflow_queue)@.wf(),
    ensures
        final(workflow_queue)@ == after_plugin_event(
            old(workflow_queue)@,
            event@,
            plugin_roles@,
            now,
        ).0,
        events.deep_view() == after_plugin_event(
            old(workflow_queue)@,
            event@,
            plugin_roles@,
            now,
        ).1,
        final(workflow_queue)@.wf(),
{
    if event.plugin.is_reply() {
        workflow_queue.add_reply(event);
        process_workflow_queue(workflow_queue, now)
    } else {
        let uuid = event.uuid;
        let timeout = event.timeout;
        match event.plugin {
            NipartPluginEvent::GotDhcpLease(lease) => {
                let (workflow, share_data) = WorkFlow::new_apply_dhcp_lease(
                    uuid,
                    *lease,
                    plugin_roles,
                    timeout,
                    now,
                );
                workflow_queue.add_workflow(workflow, share_data);
                process_workflow_queue(workflow_queue, now)
            },
            _ => {
                let none: Vec<NipartEvent> = Vec::new();
                assert(none.deep_view() =~= Seq::empty());
                none
            },
        }
    }
}

/// Takes an event of the user level. The report of a failure goes to the
/// workflow that awaits replies under its identifier. For a request, the
/// workflow that serves it joins the queue. An event that asks for nothing
/// the commander serves is dropped.
pub fn process_user_event(
    event: NipartEvent,
    workflow_queue: &mut WorkFlowQueue,
    plugin_roles: &PluginRoles,
    now: u64,
) -> (events: Vec<NipartEvent>)
    requires
        old(workflow_queue)@.wf(),
    ensures
        final(workflow_queue)@ == after_user_event(
            old(workflow_queue)@,
            event@,
            plugin_roles@,
            now,
        ).0,
        events.deep_view() == after_user_event(
            old(workflow_queue)@,
            event@,
            plugin_roles@,
            now,
        ).1,
        final(workflow_queue)@.wf(),
{
    if event.is_err() {
        workflow_queue.add_reply(event);
        return process_workflow_queue(workflow_queue, now);
    }
    let all_plugins_count = plugin_roles.all_plugin_count();
    let uuid = event.uuid;
    let timeout = event.timeout;
    let (workflow, share_data) = match event.user {
        NipartUserEvent::QueryPluginInfo => WorkFlow::new_query_plugin_info(
            uuid,
            all_plugins_count,
            timeout,
            now,
        ),
        NipartUserEvent::QueryLogLevel => WorkFlow::new_query_log_level(
            uuid,
            all_plugins_count,
            timeout,
            now,
        ),
        NipartUserEvent::ChangeLogLevel(l) => WorkFlow::new_change_log_level(
            l,
            uuid,
            all_plugins_count,
            timeout,
            now,
        ),
        NipartUserEvent::Quit => WorkFlow::new_quit(uuid, all_plugins_count, timeout, now),
        NipartUserEvent::QueryNetState(opt) => WorkFlow::new_query_net_state(
            opt,
            uuid,
            plugin_roles,
            timeout,
            now,
        ),
        NipartUserEvent::ApplyNetState(des, opt) => WorkFlow::new_apply_net_state(
            *des,
            opt,
            uuid,
            plugin_roles,
            timeout,
            now,
        ),
        NipartUserEvent::QueryCommits(opt) => WorkFlow::new_query_commits(
            opt,
            uuid,
            plugin_roles,
            timeout,
            now,
        ),
        _ => {
            let none: Vec<NipartEvent> = Vec::new();
            assert(none.deep_view() =~= Seq::empty());
            return none;
        },
    };
    workflow_queue.add_workflow(workflow, share_data);
    process_workflow_queue(workflow_queue, now)
}

} // verus!
