//! Every workflow is served alone. Whatever reaches the commander, and
//! whatever else its queue holds, the events that it sends under the
//! identifier of one workflow are those that this workflow sends when it
//! is offered the same replies and looked at at the same times on its own.
//! So what holds of a workflow on its own holds of it in the queue.

use crate::backoff::total_backoff;
use crate::commander::{after_event, workflow_for, workflow_for_lease};
use crate::event::{NipartEventAddressView, NipartEventView, NipartUserEventView};
use crate::lifecycle::{
    all_carry, law_no_retry_after_deadline, law_one_reply_to_user, law_reply_tells_the_end,
    law_retries_bounded, lemma_processed_in_order, lemma_to_user_one, run, tells_the_end,
    to_user, Stimulus,
};
use crate::plugin::NipartPluginEventView;
use crate::queue::{
    law_identifiers_stay_unique, lemma_processed_all_unique, lemma_workflow_position,
    processed_all, workflow_position, Live, WorkFlowQueueView,
};
use crate::roles::PluginRolesView;
use crate::workflow::{
    all_failed, folded, plugin_infos_of, single_task, task_payload, Outcome, ShareDataView,
    TaskKind, WorkFlowKind, WorkFlowState, WorkFlowView,
};
use vstd::prelude::*;

verus! {

/// What reaches the commander at one time: an event, or the tick when no
/// event came for a while.
pub struct Arrival {
    pub event: Option<NipartEventView>,
    pub now: u64,
}

/// The queue after an arrival, and the events to be sent.
pub open spec fn after_arrival(q: WorkFlowQueueView, a: Arrival, roles: PluginRolesView) -> (
    WorkFlowQueueView,
    Seq<NipartEventView>,
) {
    match a.event {
        Some(e) => after_event(q, e, roles, a.now),
        None => q.processed(a.now),
    }
}

/// The queue after a series of arrivals, and all the events sent.
pub open spec fn queue_run(q: WorkFlowQueueView, roles: PluginRolesView, arrivals: Seq<Arrival>) -> (
    WorkFlowQueueView,
    Seq<NipartEventView>,
)
    decreases arrivals.len(),
{
    if arrivals.len() == 0 {
        (q, Seq::empty())
    } else {
        let before = queue_run(q, roles, arrivals.drop_last());
        let step = after_arrival(before.0, arrivals.last(), roles);
        (step.0, before.1 + step.1)
    }
}

/// The workflow that an event makes the commander create, if it makes it
/// create one: a lease that a plugin got, or the request of a user.
pub open spec fn created_by(e: NipartEventView, roles: PluginRolesView, now: u64) -> Option<Live> {
    if !(e.plugin is Nil) {
        match e.plugin {
            NipartPluginEventView::GotDhcpLease(lease) => Some(
                workflow_for_lease(e, lease, roles, now),
            ),
            _ => None,
        }
    } else if e.user is Error {
        None
    } else {
        workflow_for(e, roles, now)
    }
}

/// Whether an event is offered to the workflows as a reply: it answers a
/// request, or reports a failure.
pub open spec fn offered_as_reply(e: NipartEventView) -> bool {
    if !(e.plugin is Nil) {
        e.plugin.is_reply()
    } else {
        e.user is Error
    }
}

/// Whether an arrival creates a workflow with the identifier.
pub open spec fn creates(a: Arrival, roles: PluginRolesView, uuid: u128) -> bool {
    a.event matches Some(e) && created_by(e, roles, a.now) is Some && e.uuid == uuid
}

/// What an arrival is to each workflow of the queue: a reply that is
/// offered and a look, a look alone, or nothing.
pub open spec fn stimulus_of(a: Arrival, roles: PluginRolesView) -> Option<Stimulus> {
    match a.event {
        None => Some(Stimulus { reply: None, now: a.now }),
        Some(e) => if offered_as_reply(e) {
            Some(Stimulus { reply: Some(e), now: a.now })
        } else if created_by(e, roles, a.now) is Some {
            Some(Stimulus { reply: None, now: a.now })
        } else {
            None
        },
    }
}

/// What a series of arrivals is to each workflow of the queue.
pub open spec fn stimuli_of(arrivals: Seq<Arrival>, roles: PluginRolesView) -> Seq<Stimulus>
    decreases arrivals.len(),
{
    if arrivals.len() == 0 {
        Seq::empty()
    } else {
        let before = stimuli_of(arrivals.drop_last(), roles);
        match stimulus_of(arrivals.last(), roles) {
            Some(s) => before.push(s),
            None => before,
        }
    }
}

/// The events of a list that carry the identifier, in their order.
pub open spec fn sent_for(events: Seq<NipartEventView>, uuid: u128) -> Seq<NipartEventView>
    decreases events.len(),
{
    if events.len() == 0 {
        Seq::empty()
    } else {
        let rest = sent_for(events.drop_last(), uuid);
        if events.last().uuid == uuid {
            rest.push(events.last())
        } else {
            rest
        }
    }
}

/// The events for an identifier of two lists, one after the other.
pub proof fn lemma_sent_for_concat(a: Seq<NipartEventView>, b: Seq<NipartEventView>, uuid: u128)
    ensures
        sent_for(a + b, uuid) == sent_for(a, uuid) + sent_for(b, uuid),
    decreases b.len(),
{
    if b.len() == 0 {
        assert(a + b =~= a);
        assert(sent_for(a, uuid) + sent_for(b, uuid) =~= sent_for(a, uuid));
    } else {
        assert((a + b).drop_last() =~= a + b.drop_last());
        assert((a + b).last() == b.last());
        lemma_sent_for_concat(a, b.drop_last(), uuid);
        let ab = sent_for(a, uuid) + sent_for(b.drop_last(), uuid);
        if b.last().uuid == uuid {
            assert(ab.push(b.last()) =~= sent_for(a, uuid) + sent_for(b.drop_last(), uuid).push(
                b.last(),
            ));
        }
    }
}

/// Events that all carry one identifier are the events for it, and no
/// event of them is for another.
pub proof fn lemma_sent_for_carried(events: Seq<NipartEventView>, carried: u128, uuid: u128)
    requires
        all_carry(events, carried),
    ensures
        carried == uuid ==> sent_for(events, uuid) == events,
        carried != uuid ==> sent_for(events, uuid) == Seq::<NipartEventView>::empty(),
    decreases events.len(),
{
    if events.len() > 0 {
        assert forall|i: int| 0 <= i < events.drop_last().len() implies (
        #[trigger] events.drop_last()[i]).uuid == carried by {
            assert(events.drop_last()[i] == events[i]);
        }
        lemma_sent_for_carried(events.drop_last(), carried, uuid);
        assert(events.last() == events[events.len() - 1]);
        if carried == uuid {
            assert(events.drop_last().push(events.last()) =~= events);
        }
    } else {
        assert(events =~= Seq::<NipartEventView>::empty());
    }
}

/// What a workflow sends at a look carries its identifier, and the
/// workflow keeps its identifier.
pub proof fn lemma_processed_carries(w: WorkFlowView, share: ShareDataView, now: u64)
    ensures
        all_carry(w.processed(share, now).events, w.uuid),
        w.processed(share, now).workflow.uuid == w.uuid,
{
    lemma_processed_in_order(w, share, now);
}

/// Whether a queue serves the workflow `w`, with what its steps hand on:
/// every identifier of the queue occurs once, and the queue holds the
/// workflow as it is, or the workflow has ended and left the queue.
pub open spec fn serves(q: WorkFlowQueueView, w: WorkFlowView, share: ShareDataView) -> bool {
    &&& q.unique()
    &&& {
        ||| exists|k: int| 0 <= k < q.workflows.len() && #[trigger] q.workflows[k] == (w, share)
        ||| w.is_finished() && !q.holds(w.uuid)
    }
}

/// A look at workflows of which none has the identifier sends nothing for
/// it and leaves none with it.
pub proof fn lemma_look_without(ws: Seq<Live>, now: u64, uuid: u128)
    requires
        !(WorkFlowQueueView { workflows: ws }).holds(uuid),
    ensures
        sent_for(processed_all(ws, now).1, uuid) == Seq::<NipartEventView>::empty(),
        !(WorkFlowQueueView { workflows: processed_all(ws, now).0 }).holds(uuid),
    decreases ws.len(),
{
    let q = WorkFlowQueueView { workflows: ws };
    if ws.len() > 0 {
        let front = ws.drop_last();
        let qf = WorkFlowQueueView { workflows: front };
        if qf.holds(uuid) {
            let i = choose|i: int| 0 <= i < front.len() && (#[trigger] front[i]).0.uuid == uuid;
            assert(ws[i] == front[i]);
            assert(q.workflows[i].0.uuid == uuid);
        }
        lemma_look_without(front, now, uuid);
        let last = ws[ws.len() - 1];
        assert(ws.last() == last);
        assert(q.workflows[ws.len() - 1].0.uuid != uuid);
        lemma_processed_carries(last.0, last.1, now);
        let o = last.0.processed(last.1, now);
        lemma_sent_for_carried(o.events, last.0.uuid, uuid);
        let before = processed_all(front, now);
        lemma_sent_for_concat(before.1, o.events, uuid);
        let after = processed_all(ws, now);
        assert(sent_for(after.1, uuid) =~= Seq::<NipartEventView>::empty());
        let qa = WorkFlowQueueView { workflows: after.0 };
        if qa.holds(uuid) {
            let k = choose|k: int| 0 <= k < after.0.len() && (#[trigger] after.0[k]).0.uuid == uuid;
            if k < before.0.len() {
                assert(after.0[k] == before.0[k]);
                assert((WorkFlowQueueView { workflows: before.0 }).workflows[k].0.uuid == uuid);
            }
        }
    }
}

/// A look at workflows of which one has the identifier sends for it what
/// that workflow sends, and keeps that workflow unless it has ended.
#[verifier::rlimit(50)]
pub proof fn lemma_look_with(ws: Seq<Live>, now: u64, i: int)
    requires
        (WorkFlowQueueView { workflows: ws }).unique(),
        0 <= i < ws.len(),
    ensures
        ({
            let o = ws[i].0.processed(ws[i].1, now);
            let after = processed_all(ws, now);
            let qa = WorkFlowQueueView { workflows: after.0 };
            &&& sent_for(after.1, ws[i].0.uuid) == o.events
            &&& o.workflow.is_finished() ==> !qa.holds(ws[i].0.uuid)
            &&& !o.workflow.is_finished() ==> exists|k: int|
                0 <= k < after.0.len() && #[trigger] after.0[k] == (o.workflow, o.share)
        }),
    decreases ws.len(),
{
    let uuid = ws[i].0.uuid;
    let front = ws.drop_last();
    let last = ws[ws.len() - 1];
    assert(ws.last() == last);
    let before = processed_all(front, now);
    let after = processed_all(ws, now);
    let ol = last.0.processed(last.1, now);
    lemma_processed_carries(last.0, last.1, now);
    lemma_sent_for_carried(ol.events, last.0.uuid, uuid);
    lemma_sent_for_concat(before.1, ol.events, uuid);
    let qa = WorkFlowQueueView { workflows: after.0 };
    assert forall|a: int, b: int| 0 <= a < b < front.len() implies front[a].0.uuid
        != front[b].0.uuid by {
        assert(front[a] == ws[a] && front[b] == ws[b]);
    }
    if i < ws.len() - 1 {
        assert(front[i] == ws[i]);
        lemma_look_with(front, now, i);
        assert(last.0.uuid != uuid);
        assert(sent_for(after.1, uuid) =~= sent_for(before.1, uuid));
        let o = ws[i].0.processed(ws[i].1, now);
        if o.workflow.is_finished() {
            if qa.holds(uuid) {
                let k = choose|k: int| 0 <= k < after.0.len() && (#[trigger] after.0[k]).0.uuid
                    == uuid;
                if k < before.0.len() {
                    assert(after.0[k] == before.0[k]);
                    assert((WorkFlowQueueView { workflows: before.0 }).workflows[k].0.uuid
                        == uuid);
                }
            }
        } else {
            let k = choose|k: int| 0 <= k < before.0.len() && #[trigger] before.0[k] == (
                o.workflow,
                o.share,
            );
            assert(after.0[k] == before.0[k]);
        }
    } else {
        let qf = WorkFlowQueueView { workflows: front };
        if qf.holds(uuid) {
            let j = choose|j: int| 0 <= j < front.len() && (#[trigger] front[j]).0.uuid == uuid;
            assert(ws[j] == front[j]);
        }
        lemma_look_without(front, now, uuid);
        assert(sent_for(after.1, uuid) =~= ol.events);
        if ol.workflow.is_finished() {
            assert(after.0 == before.0);
        } else {
            assert(after.0[before.0.len() as int] == (ol.workflow, ol.share));
        }
    }
}

/// A look at a queue that serves a workflow sends for it what the workflow
/// sends at that look, and leaves a queue that serves the workflow as it
/// is after the look.
pub proof fn lemma_look_serves(
    q: WorkFlowQueueView,
    w: WorkFlowView,
    share: ShareDataView,
    now: u64,
)
    requires
        serves(q, w, share),
    ensures
        sent_for(q.processed(now).1, w.uuid) == w.processed(share, now).events,
        serves(q.processed(now).0, w.processed(share, now).workflow, w.processed(share, now).share),
        w.processed(share, now).workflow.uuid == w.uuid,
{
    lemma_processed_all_unique(q.workflows, now);
    lemma_processed_carries(w, share, now);
    lemma_processed_in_order(w, share, now);
    assert(q == WorkFlowQueueView { workflows: q.workflows });
    if exists|k: int| 0 <= k < q.workflows.len() && #[trigger] q.workflows[k] == (w, share) {
        let k = choose|k: int| 0 <= k < q.workflows.len() && #[trigger] q.workflows[k] == (
            w,
            share,
        );
        lemma_look_with(q.workflows, now, k);
    } else {
        lemma_look_without(q.workflows, now, w.uuid);
    }
}

/// Offering an event to a queue that serves a workflow leaves a queue that
/// serves the workflow as it is after the event was offered to it.
pub proof fn lemma_offer_serves(
    q: WorkFlowQueueView,
    w: WorkFlowView,
    share: ShareDataView,
    reply: NipartEventView,
)
    requires
        serves(q, w, share),
    ensures
        serves(q.offered(reply), w.absorbed(reply), share),
        w.absorbed(reply).uuid == w.uuid,
{
    law_identifiers_stay_unique(q, w, share, reply, 0);
    lemma_workflow_position(q.workflows, reply.uuid, 0);
    let p = workflow_position(q.workflows, reply.uuid, 0);
    let q2 = q.offered(reply);
    if exists|k: int| 0 <= k < q.workflows.len() && #[trigger] q.workflows[k] == (w, share) {
        let k = choose|k: int| 0 <= k < q.workflows.len() && #[trigger] q.workflows[k] == (
            w,
            share,
        );
        if reply.uuid == w.uuid {
            assert(p == k) by {
                if p < k {
                    assert(q.workflows[p].0.uuid != q.workflows[k].0.uuid);
                }
            }
            assert(q2.workflows[k] == (w.absorbed(reply), share));
        } else {
            assert(q2.workflows[k] == (w, share));
        }
    } else {
        if q2.holds(w.uuid) {
            let k = choose|k: int| 0 <= k < q2.workflows.len() && (
            #[trigger] q2.workflows[k]).0.uuid == w.uuid;
            assert(q.workflows[k].0.uuid == w.uuid);
        }
    }
}

/// Adding a workflow of another identifier to a queue that serves a
/// workflow leaves a queue that serves it.
pub proof fn lemma_add_serves(
    q: WorkFlowQueueView,
    w: WorkFlowView,
    share: ShareDataView,
    added: Live,
)
    requires
        serves(q, w, share),
        added.0.uuid != w.uuid,
    ensures
        serves(q.with(added.0, added.1), w, share),
{
    law_identifiers_stay_unique(q, added.0, added.1, arbitrary(), 0);
    lemma_workflow_position(q.workflows, added.0.uuid, 0);
    let p = workflow_position(q.workflows, added.0.uuid, 0);
    let q2 = q.with(added.0, added.1);
    if exists|k: int| 0 <= k < q.workflows.len() && #[trigger] q.workflows[k] == (w, share) {
        let k = choose|k: int| 0 <= k < q.workflows.len() && #[trigger] q.workflows[k] == (
            w,
            share,
        );
        assert(q2.workflows[k] == (w, share));
    } else {
        if q2.holds(w.uuid) {
            let k = choose|k: int| 0 <= k < q2.workflows.len() && (
            #[trigger] q2.workflows[k]).0.uuid == w.uuid;
            if k < q.workflows.len() {
                assert(q.workflows[k].0.uuid == w.uuid);
            }
        }
    }
}

/// One arrival at a queue that serves a workflow, where the arrival does
/// not create a workflow with the same identifier: the events sent for
/// the workflow are those that the workflow sends under the stimulus that
/// the arrival is to it.
#[verifier::rlimit(50)]
pub proof fn lemma_arrival_serves(
    q: WorkFlowQueueView,
    w: WorkFlowView,
    share: ShareDataView,
    a: Arrival,
    roles: PluginRolesView,
)
    requires
        serves(q, w, share),
        !creates(a, roles, w.uuid),
    ensures
        ({
            let step = after_arrival(q, a, roles);
            let alone = match stimulus_of(a, roles) {
                Some(s) => (match s.reply {
                    Some(r) => w.absorbed(r),
                    None => w,
                }).processed(share, s.now),
                None => Outcome { workflow: w, share, events: Seq::empty() },
            };
            &&& sent_for(step.1, w.uuid) == alone.events
            &&& serves(step.0, alone.workflow, alone.share)
            &&& alone.workflow.uuid == w.uuid
        }),
{
    match a.event {
        None => {
            lemma_look_serves(q, w, share, a.now);
        },
        Some(e) => {
            if offered_as_reply(e) {
                lemma_offer_serves(q, w, share, e);
                lemma_look_serves(q.offered(e), w.absorbed(e), share, a.now);
            } else {
                match created_by(e, roles, a.now) {
                    Some(live) => {
                        assert(live.0.uuid == e.uuid);
                        lemma_add_serves(q, w, share, live);
                        lemma_look_serves(q.with(live.0, live.1), w, share, a.now);
                    },
                    None => {},
                }
            }
        },
    }
}

/// Every workflow is served alone. Let a queue in which every identifier
/// occurs once hold a workflow, and let none of a series of arrivals
/// create a workflow with the same identifier. Then the events that the
/// commander sends under that identifier over the series are, in their
/// order, the events that the workflow sends on its own under the stimuli
/// that the arrivals are to it; and the queue holds the workflow as it
/// then is, or the workflow has ended and left the queue.
pub proof fn law_served_alone(
    q: WorkFlowQueueView,
    w: WorkFlowView,
    share: ShareDataView,
    roles: PluginRolesView,
    arrivals: Seq<Arrival>,
)
    requires
        serves(q, w, share),
        forall|i: int| 0 <= i < arrivals.len() ==> !creates(#[trigger] arrivals[i], roles, w.uuid),
    ensures
        sent_for(queue_run(q, roles, arrivals).1, w.uuid) == run(
            w,
            share,
            stimuli_of(arrivals, roles),
        ).events,
        serves(
            queue_run(q, roles, arrivals).0,
            run(w, share, stimuli_of(arrivals, roles)).workflow,
            run(w, share, stimuli_of(arrivals, roles)).share,
        ),
        run(w, share, stimuli_of(arrivals, roles)).workflow.uuid == w.uuid,
    decreases arrivals.len(),
{
    if arrivals.len() > 0 {
        let front = arrivals.drop_last();
        let a = arrivals[arrivals.len() - 1];
        assert(arrivals.last() == a);
        assert forall|i: int| 0 <= i < front.len() implies !creates(
            #[trigger] front[i],
            roles,
            w.uuid,
        ) by {
            assert(front[i] == arrivals[i]);
        }
        law_served_alone(q, w, share, roles, front);
        let before = queue_run(q, roles, front);
        let stimuli = stimuli_of(front, roles);
        let alone = run(w, share, stimuli);
        lemma_arrival_serves(before.0, alone.workflow, alone.share, a, roles);
        let step = after_arrival(before.0, a, roles);
        lemma_sent_for_concat(before.1, step.1, w.uuid);
        match stimulus_of(a, roles) {
            Some(s) => {
                assert(stimuli.push(s).drop_last() =~= stimuli);
                assert(stimuli.push(s).last() == s);
            },
            None => {
                assert(alone.events + Seq::<NipartEventView>::empty() =~= alone.events);
            },
        }
    } else {
        assert(sent_for(Seq::<NipartEventView>::empty(), w.uuid) =~= Seq::<
            NipartEventView,
        >::empty());
    }
}

/// One reply to the user, in the queue. Let a queue in which every
/// identifier occurs once hold a workflow that has not ended, and let
/// none of a series of arrivals create a workflow with the same
/// identifier. Then, of all events that the commander sends over the
/// series, at most one is addressed to the user under that identifier. It
/// is sent exactly when the workflow ends, where a user waits for it, and
/// it reports a failure exactly when the workflow failed. A workflow that
/// has ended has left the queue, and one that has not is still held.
pub proof fn law_one_reply_in_queue(
    q: WorkFlowQueueView,
    w: WorkFlowView,
    share: ShareDataView,
    roles: PluginRolesView,
    arrivals: Seq<Arrival>,
)
    requires
        serves(q, w, share),
        !w.is_finished(),
        forall|i: int| 0 <= i < arrivals.len() ==> !creates(#[trigger] arrivals[i], roles, w.uuid),
    ensures
        to_user(sent_for(queue_run(q, roles, arrivals).1, w.uuid)) <= 1,
        to_user(sent_for(queue_run(q, roles, arrivals).1, w.uuid)) == if run(
            w,
            share,
            stimuli_of(arrivals, roles),
        ).workflow.is_finished() && w.replies_to_user() {
            1nat
        } else {
            0nat
        },
        queue_run(q, roles, arrivals).0.holds(w.uuid) <==> !run(
            w,
            share,
            stimuli_of(arrivals, roles),
        ).workflow.is_finished(),
        tells_the_end(run(w, share, stimuli_of(arrivals, roles))),
{
    law_served_alone(q, w, share, roles, arrivals);
    law_one_reply_to_user(w, share, stimuli_of(arrivals, roles));
    law_reply_tells_the_end(w, share, stimuli_of(arrivals, roles));
    let end = run(w, share, stimuli_of(arrivals, roles));
    let qe = queue_run(q, roles, arrivals).0;
    if !end.workflow.is_finished() {
        let k = choose|k: int| 0 <= k < qe.workflows.len() && #[trigger] qe.workflows[k] == (
            end.workflow,
            end.share,
        );
        assert(qe.workflows[k].0.uuid == w.uuid);
    }
    if end.workflow.is_finished() {
        assert(stimuli_of(arrivals, roles).len() > 0);
        lemma_ended_has_left(q, w, share, roles, arrivals);
    }
}

/// A workflow that has ended under at least one look has left the queue.
pub proof fn lemma_ended_has_left(
    q: WorkFlowQueueView,
    w: WorkFlowView,
    share: ShareDataView,
    roles: PluginRolesView,
    arrivals: Seq<Arrival>,
)
    requires
        serves(q, w, share),
        forall|i: int| 0 <= i < arrivals.len() ==> !creates(#[trigger] arrivals[i], roles, w.uuid),
        stimuli_of(arrivals, roles).len() > 0,
        run(w, share, stimuli_of(arrivals, roles)).workflow.is_finished(),
    ensures
        !queue_run(q, roles, arrivals).0.holds(w.uuid),
    decreases arrivals.len(),
{
    let front = arrivals.drop_last();
    let a = arrivals[arrivals.len() - 1];
    assert(arrivals.last() == a);
    assert forall|i: int| 0 <= i < front.len() implies !creates(
        #[trigger] front[i],
        roles,
        w.uuid,
    ) by {
        assert(front[i] == arrivals[i]);
    }
    law_served_alone(q, w, share, roles, front);
    let before = queue_run(q, roles, front);
    let stimuli = stimuli_of(front, roles);
    let alone = run(w, share, stimuli);
    match stimulus_of(a, roles) {
        Some(s) => {
            assert(stimuli.push(s).drop_last() =~= stimuli);
            assert(stimuli.push(s).last() == s);
            let offered = match s.reply {
                Some(r) => alone.workflow.absorbed(r),
                None => alone.workflow,
            };
            // The arrival ends in a look at the queue, and a look leaves no
            // workflow that has ended.
            match a.event {
                None => {
                    lemma_look_leaves_none_ended(before.0, alone.workflow, alone.share, a.now);
                },
                Some(e) => {
                    if offered_as_reply(e) {
                        lemma_offer_serves(before.0, alone.workflow, alone.share, e);
                        lemma_look_leaves_none_ended(
                            before.0.offered(e),
                            alone.workflow.absorbed(e),
                            alone.share,
                            a.now,
                        );
                    } else {
                        let live = created_by(e, roles, a.now)->0;
                        assert(live.0.uuid == e.uuid);
                        lemma_add_serves(before.0, alone.workflow, alone.share, live);
                        lemma_look_leaves_none_ended(
                            before.0.with(live.0, live.1),
                            alone.workflow,
                            alone.share,
                            a.now,
                        );
                    }
                },
            }
        },
        None => {
            lemma_ended_has_left(q, w, share, roles, front);
        },
    }
}

/// After a look, a queue holds no workflow that has ended under the look.
pub proof fn lemma_look_leaves_none_ended(
    q: WorkFlowQueueView,
    w: WorkFlowView,
    share: ShareDataView,
    now: u64,
)
    requires
        serves(q, w, share),
        w.processed(share, now).workflow.is_finished(),
    ensures
        !q.processed(now).0.holds(w.uuid),
{
    assert(q == WorkFlowQueueView { workflows: q.workflows });
    if exists|k: int| 0 <= k < q.workflows.len() && #[trigger] q.workflows[k] == (w, share) {
        let k = choose|k: int| 0 <= k < q.workflows.len() && #[trigger] q.workflows[k] == (
            w,
            share,
        );
        lemma_look_with(q.workflows, now, k);
    } else {
        lemma_look_without(q.workflows, now, w.uuid);
    }
}

/// Retries are bounded, in the queue. Under the conditions of
/// `law_served_alone`, and where the account of retries of the workflow is
/// in order at the start, the delays of all the retries of the workflow
/// add up to no more than the time of its request, whatever else the queue
/// serves; so its retries are as few as those of a workflow on its own.
pub proof fn law_retries_bounded_in_queue(
    q: WorkFlowQueueView,
    w: WorkFlowView,
    share: ShareDataView,
    roles: PluginRolesView,
    arrivals: Seq<Arrival>,
)
    requires
        serves(q, w, share),
        w.wf(),
        forall|i: int| 0 <= i < arrivals.len() ==> !creates(#[trigger] arrivals[i], roles, w.uuid),
    ensures
        ({
            let end = run(w, share, stimuli_of(arrivals, roles)).workflow;
            &&& serves(
                queue_run(q, roles, arrivals).0,
                end,
                run(w, share, stimuli_of(arrivals, roles)).share,
            )
            &&& total_backoff(end.retries as nat) <= w.timeout
            &&& end.retries <= 4 + w.timeout / 5000
            &&& (w.timeout < 7500 ==> end.retries <= 3)
            &&& (w.timeout < 3500 ==> end.retries <= 2)
            &&& (w.timeout < 1500 ==> end.retries <= 1)
            &&& (w.timeout < 500 ==> end.retries == 0)
        }),
{
    law_served_alone(q, w, share, roles, arrivals);
    law_retries_bounded(w, share, stimuli_of(arrivals, roles));
}

/// Nothing after the deadline, in the queue. Let a queue serve a workflow
/// that has not ended, and let an arrival that makes the commander look at
/// the queue come at or after the deadline of the workflow. Then all that
/// is sent under the identifier of the workflow at this arrival is the
/// reply to the user, the workflow leaves the queue, and no later arrival
/// that creates no workflow with the same identifier has anything sent
/// under it.
pub proof fn law_nothing_after_deadline_in_queue(
    q: WorkFlowQueueView,
    w: WorkFlowView,
    share: ShareDataView,
    roles: PluginRolesView,
    at: Arrival,
    later: Seq<Arrival>,
)
    requires
        serves(q, w, share),
        !w.is_finished(),
        !creates(at, roles, w.uuid),
        stimulus_of(at, roles) is Some,
        at.now >= w.deadline,
        forall|i: int| 0 <= i < later.len() ==> !creates(#[trigger] later[i], roles, w.uuid),
    ensures
        ({
            let step = after_arrival(q, at, roles);
            &&& sent_for(step.1, w.uuid).len() == to_user(sent_for(step.1, w.uuid))
            &&& !step.0.holds(w.uuid)
            &&& sent_for(queue_run(step.0, roles, later).1, w.uuid) == Seq::<
                NipartEventView,
            >::empty()
            &&& !queue_run(step.0, roles, later).0.holds(w.uuid)
        }),
{
    lemma_arrival_serves(q, w, share, at, roles);
    let s = stimulus_of(at, roles)->0;
    let offered = match s.reply {
        Some(r) => w.absorbed(r),
        None => w,
    };
    assert(offered.deadline == w.deadline && !offered.is_finished());
    law_no_retry_after_deadline(offered, share, at.now);
    let step = after_arrival(q, at, roles);
    let alone = offered.processed(share, at.now);
    assert(!step.0.holds(w.uuid)) by {
        if exists|k: int|
            0 <= k < step.0.workflows.len() && #[trigger] step.0.workflows[k] == (
                alone.workflow,
                alone.share,
            ) {
            match at.event {
                None => {
                    lemma_look_leaves_none_ended(q, w, share, at.now);
                },
                Some(e) => {
                    if offered_as_reply(e) {
                        lemma_offer_serves(q, w, share, e);
                        lemma_look_leaves_none_ended(q.offered(e), w.absorbed(e), share, at.now);
                    } else {
                        let live = created_by(e, roles, at.now)->0;
                        assert(live.0.uuid == e.uuid);
                        lemma_add_serves(q, w, share, live);
                        lemma_look_leaves_none_ended(q.with(live.0, live.1), w, share, at.now);
                    }
                },
            }
        }
    }
    lemma_gone_stays_gone(step.0, alone.workflow, alone.share, roles, later);
}

/// A workflow that has ended and left the queue has nothing sent for it,
/// and stays out of the queue, while no arrival creates a workflow with
/// its identifier.
pub proof fn lemma_gone_stays_gone(
    q: WorkFlowQueueView,
    w: WorkFlowView,
    share: ShareDataView,
    roles: PluginRolesView,
    arrivals: Seq<Arrival>,
)
    requires
        q.unique(),
        w.is_finished(),
        !q.holds(w.uuid),
        forall|i: int| 0 <= i < arrivals.len() ==> !creates(#[trigger] arrivals[i], roles, w.uuid),
    ensures
        sent_for(queue_run(q, roles, arrivals).1, w.uuid) == Seq::<NipartEventView>::empty(),
        !queue_run(q, roles, arrivals).0.holds(w.uuid),
{
    law_served_alone(q, w, share, roles, arrivals);
    lemma_run_of_ended(w, share, stimuli_of(arrivals, roles));
    let end = run(w, share, stimuli_of(arrivals, roles));
    let qe = queue_run(q, roles, arrivals).0;
    if qe.holds(w.uuid) {
        lemma_ended_stays_out(q, w, share, roles, arrivals);
    }
}

/// A workflow that has ended stays as it is and sends nothing.
pub proof fn lemma_run_of_ended(w: WorkFlowView, share: ShareDataView, stimuli: Seq<Stimulus>)
    requires
        w.is_finished(),
    ensures
        run(w, share, stimuli) == (Outcome { workflow: w, share, events: Seq::empty() }),
    decreases stimuli.len(),
{
    if stimuli.len() > 0 {
        lemma_run_of_ended(w, share, stimuli.drop_last());
        lemma_processed_in_order(w, share, stimuli.last().now);
        assert(Seq::<NipartEventView>::empty() + Seq::<NipartEventView>::empty() =~= Seq::<
            NipartEventView,
        >::empty());
    }
}

/// A queue that holds no workflow with an identifier holds none after
/// arrivals that create none.
pub proof fn lemma_ended_stays_out(
    q: WorkFlowQueueView,
    w: WorkFlowView,
    share: ShareDataView,
    roles: PluginRolesView,
    arrivals: Seq<Arrival>,
)
    requires
        q.unique(),
        w.is_finished(),
        !q.holds(w.uuid),
        forall|i: int| 0 <= i < arrivals.len() ==> !creates(#[trigger] arrivals[i], roles, w.uuid),
    ensures
        !queue_run(q, roles, arrivals).0.holds(w.uuid),
    decreases arrivals.len(),
{
    if arrivals.len() > 0 {
        let front = arrivals.drop_last();
        let a = arrivals[arrivals.len() - 1];
        assert(arrivals.last() == a);
        assert forall|i: int| 0 <= i < front.len() implies !creates(
            #[trigger] front[i],
            roles,
            w.uuid,
        ) by {
            assert(front[i] == arrivals[i]);
        }
        lemma_ended_stays_out(q, w, share, roles, front);
        law_served_alone(q, w, share, roles, front);
        lemma_run_of_ended(w, share, stimuli_of(front, roles));
        let before = queue_run(q, roles, front);
        lemma_arrival_serves(before.0, w, share, a, roles);
        let step = after_arrival(before.0, a, roles);
        match stimulus_of(a, roles) {
            Some(s) => {
                lemma_processed_in_order(w, share, s.now);
            },
            None => {},
        }
        // The workflow as it is after the arrival is the workflow that has
        // ended, and a queue that serves it holds it only as it is.
        if step.0.holds(w.uuid) {
            match a.event {
                None => {
                    assert(before.0 == WorkFlowQueueView { workflows: before.0.workflows });
                    lemma_look_without(before.0.workflows, a.now, w.uuid);
                },
                Some(e) => {
                    if offered_as_reply(e) {
                        lemma_offer_serves(before.0, w, share, e);
                        let q1 = before.0.offered(e);
                        if q1.holds(w.uuid) {
                            let k = choose|k: int| 0 <= k < q1.workflows.len() && (
                            #[trigger] q1.workflows[k]).0.uuid == w.uuid;
                            lemma_workflow_position(before.0.workflows, e.uuid, 0);
                            assert(before.0.workflows[k].0.uuid == w.uuid);
                        }
                        assert(q1 == WorkFlowQueueView { workflows: q1.workflows });
                        lemma_look_without(q1.workflows, a.now, w.uuid);
                    } else {
                        match created_by(e, roles, a.now) {
                            Some(live) => {
                                assert(live.0.uuid == e.uuid);
                                let q1 = before.0.with(live.0, live.1);
                                lemma_workflow_position(before.0.workflows, live.0.uuid, 0);
                                if q1.holds(w.uuid) {
                                    let k = choose|k: int| 0 <= k < q1.workflows.len() && (
                                    #[trigger] q1.workflows[k]).0.uuid == w.uuid;
                                    if k < before.0.workflows.len() {
                                        assert(before.0.workflows[k].0.uuid == w.uuid);
                                    }
                                }
                                assert(q1 == WorkFlowQueueView { workflows: q1.workflows });
                                lemma_look_without(q1.workflows, a.now, w.uuid);
                            },
                            None => {},
                        }
                    }
                },
            }
        }
    }
}

/// A run of the queue, told from its first arrival on.
pub proof fn lemma_queue_run_from_first(
    q: WorkFlowQueueView,
    roles: PluginRolesView,
    first: Arrival,
    later: Seq<Arrival>,
)
    ensures
        queue_run(q, roles, seq![first] + later) == ({
            let step = after_arrival(q, first, roles);
            let rest = queue_run(step.0, roles, later);
            (rest.0, step.1 + rest.1)
        }),
    decreases later.len(),
{
    let all = seq![first] + later;
    let step = after_arrival(q, first, roles);
    if later.len() == 0 {
        assert(later =~= Seq::<Arrival>::empty());
        assert(all.drop_last() =~= Seq::<Arrival>::empty());
        assert(all.last() == first);
        assert(queue_run(q, roles, all.drop_last()) == (q, Seq::<NipartEventView>::empty()));
        assert(queue_run(step.0, roles, later) == (step.0, Seq::<NipartEventView>::empty()));
        assert(Seq::<NipartEventView>::empty() + step.1 =~= step.1);
        assert(step.1 + Seq::<NipartEventView>::empty() =~= step.1);
        assert(queue_run(q, roles, all) == (step.0, Seq::<NipartEventView>::empty() + step.1));
    } else {
        assert(all.drop_last() =~= seq![first] + later.drop_last());
        assert(all.last() == later.last());
        lemma_queue_run_from_first(q, roles, first, later.drop_last());
        let before = queue_run(step.0, roles, later.drop_last());
        let last = after_arrival(before.0, later.last(), roles);
        assert(queue_run(q, roles, all.drop_last()) == (before.0, step.1 + before.1));
        assert(queue_run(q, roles, all) == (last.0, (step.1 + before.1) + last.1));
        assert(queue_run(step.0, roles, later) == (last.0, before.1 + last.1));
        assert((step.1 + before.1) + last.1 =~= step.1 + (before.1 + last.1));
    }
}

/// A run of a workflow, told from its first stimulus on.
pub proof fn lemma_run_from_first(
    w: WorkFlowView,
    share: ShareDataView,
    first: Stimulus,
    later: Seq<Stimulus>,
)
    ensures
        run(w, share, seq![first] + later) == ({
            let offered = match first.reply {
                Some(r) => w.absorbed(r),
                None => w,
            };
            let step = offered.processed(share, first.now);
            run(step.workflow, step.share, later).after(step.events)
        }),
    decreases later.len(),
{
    let all = seq![first] + later;
    let offered = match first.reply {
        Some(r) => w.absorbed(r),
        None => w,
    };
    let step = offered.processed(share, first.now);
    let none = Seq::<NipartEventView>::empty();
    if later.len() == 0 {
        assert(later =~= Seq::<Stimulus>::empty());
        assert(all.drop_last() =~= Seq::<Stimulus>::empty());
        assert(all.last() == first);
        assert(run(w, share, all.drop_last()) == (Outcome { workflow: w, share, events: none }));
        assert(run(step.workflow, step.share, later) == (Outcome {
            workflow: step.workflow,
            share: step.share,
            events: none,
        }));
        assert(none + step.events =~= step.events);
        assert(step.events + none =~= step.events);
        assert(run(w, share, all) == step.after(none));
    } else {
        assert(all.drop_last() =~= seq![first] + later.drop_last());
        assert(all.last() == later.last());
        lemma_run_from_first(w, share, first, later.drop_last());
        let before = run(step.workflow, step.share, later.drop_last());
        let o = match later.last().reply {
            Some(r) => before.workflow.absorbed(r),
            None => before.workflow,
        };
        let last = o.processed(before.share, later.last().now);
        assert(run(w, share, all.drop_last()) == before.after(step.events));
        assert(run(w, share, all) == last.after(step.events + before.events));
        assert(run(step.workflow, step.share, later) == last.after(before.events));
        assert((step.events + before.events) + last.events =~= step.events + (before.events
            + last.events));
    }
}

/// From its creation on, a workflow is served alone. Let an event make the
/// commander create a workflow, in a queue in which every identifier occurs
/// once, and let no later arrival create a workflow with the same
/// identifier. Then the events that the commander sends under that
/// identifier, from this event on, are those that the new workflow sends on
/// its own when it is looked at at the time of its creation and then put
/// under the stimuli that the later arrivals are to it.
pub proof fn law_served_alone_from_creation(
    q: WorkFlowQueueView,
    roles: PluginRolesView,
    e: NipartEventView,
    now: u64,
    later: Seq<Arrival>,
)
    requires
        q.unique(),
        created_by(e, roles, now) is Some,
        forall|i: int| 0 <= i < later.len() ==> !creates(#[trigger] later[i], roles, e.uuid),
    ensures
        ({
            let live = created_by(e, roles, now)->0;
            let arrivals = seq![Arrival { event: Some(e), now }] + later;
            let stimuli = seq![Stimulus { reply: None, now }] + stimuli_of(later, roles);
            let alone = run(live.0, live.1, stimuli);
            &&& live.0.uuid == e.uuid
            &&& !live.0.is_finished()
            &&& live.0.wf()
            &&& sent_for(queue_run(q, roles, arrivals).1, e.uuid) == alone.events
            &&& serves(queue_run(q, roles, arrivals).0, alone.workflow, alone.share)
            &&& to_user(sent_for(queue_run(q, roles, arrivals).1, e.uuid)) == if alone.workflow.is_finished()
                && live.0.replies_to_user() {
                1nat
            } else {
                0nat
            }
        }),
{
    let live = created_by(e, roles, now)->0;
    let first = Arrival { event: Some(e), now };
    let q1 = q.with(live.0, live.1);
    law_identifiers_stay_unique(q, live.0, live.1, e, now);
    lemma_workflow_position(q.workflows, live.0.uuid, 0);
    let p = workflow_position(q.workflows, live.0.uuid, 0);
    assert(serves(q1, live.0, live.1)) by {
        if p < q.workflows.len() {
            assert(q1.workflows[p] == (live.0, live.1));
        } else {
            assert(q1.workflows[q.workflows.len() as int] == (live.0, live.1));
        }
    }
    assert(after_arrival(q, first, roles) == q1.processed(now));
    lemma_queue_run_from_first(q, roles, first, later);
    lemma_look_serves(q1, live.0, live.1, now);
    let step = q1.processed(now);
    let o = live.0.processed(live.1, now);
    law_served_alone(step.0, o.workflow, o.share, roles, later);
    let rest = queue_run(step.0, roles, later);
    lemma_sent_for_concat(step.1, rest.1, e.uuid);
    lemma_run_from_first(live.0, live.1, Stimulus { reply: None, now }, stimuli_of(later, roles));
    law_one_reply_to_user(
        live.0,
        live.1,
        seq![Stimulus { reply: None, now }] + stimuli_of(later, roles),
    );
}


/// The descriptions of the plugins are asked for, in any queue. Let a user
/// ask for them where there is a plugin, and let every identifier occur
/// once in the queue. Then, whatever else the queue holds and sends, the
/// commander sends one event under the identifier of the request, which
/// asks every plugin to describe itself, and none to the user; and the
/// queue holds the workflow of the request, which awaits a reply of every
/// plugin.
pub proof fn law_plugins_asked_in_queue(
    q: WorkFlowQueueView,
    roles: PluginRolesView,
    e: NipartEventView,
    now: u64,
)
    requires
        q.unique(),
        e.user is QueryPluginInfo,
        e.plugin is Nil,
        0 < roles.plugins.len() <= usize::MAX,
        now < u64::MAX,
    ensures
        ({
            let step = after_event(q, e, roles, now);
            let w = WorkFlowView::started(
                e.uuid,
                WorkFlowKind::QueryPluginInfo,
                single_task(TaskKind::QueryPluginInfo, roles.plugins.len() as usize),
                e.timeout,
                now,
            );
            &&& sent_for(step.1, e.uuid) == seq![
                w.event(
                    NipartUserEventView::Nil,
                    NipartPluginEventView::QueryPluginInfo,
                    NipartEventAddressView::AllPlugins,
                    0,
                ),
            ]
            &&& to_user(sent_for(step.1, e.uuid)) == 0
            &&& serves(
                step.0,
                WorkFlowView { state: WorkFlowState::AwaitingReplies, ..w },
                ShareDataView::empty(),
            )
            &&& step.0.holds(e.uuid)
        }),
{
    let live = workflow_for(e, roles, now)->0;
    let q1 = q.with(live.0, live.1);
    law_identifiers_stay_unique(q, live.0, live.1, e, now);
    lemma_workflow_position(q.workflows, live.0.uuid, 0);
    let p = workflow_position(q.workflows, live.0.uuid, 0);
    assert(serves(q1, live.0, live.1)) by {
        if p < q.workflows.len() {
            assert(q1.workflows[p] == (live.0, live.1));
        } else {
            assert(q1.workflows[q.workflows.len() as int] == (live.0, live.1));
        }
    }
    lemma_look_serves(q1, live.0, live.1, now);
    reveal(task_payload);
    let o = live.0.processed(live.1, now);
    assert(o.workflow =~= WorkFlowView { state: WorkFlowState::AwaitingReplies, ..live.0 });
    lemma_to_user_one(o.events[0]);
    assert(o.events =~= seq![o.events[0]]);
    let step = after_event(q, e, roles, now);
    let k = choose|k: int| 0 <= k < step.0.workflows.len() && #[trigger] step.0.workflows[k] == (
        o.workflow,
        o.share,
    );
    assert(step.0.workflows[k].0.uuid == e.uuid);
}

/// The descriptions of the plugins are handed to the user, in any queue.
/// Let a queue in which every identifier occurs once hold a workflow that
/// asked every plugin to describe itself and awaits the last of their
/// replies, and let that reply arrive before the deadline without
/// reporting a failure. Then, whatever else the queue holds and sends, the
/// commander sends one event under the identifier of the workflow: the
/// reply to the user, with the descriptions that the replies without
/// failure carry, in order of arrival. The workflow leaves the queue.
pub proof fn law_plugins_described_in_queue(
    q: WorkFlowQueueView,
    w: WorkFlowView,
    share: ShareDataView,
    roles: PluginRolesView,
    reply: NipartEventView,
    now: u64,
)
    requires
        serves(q, w, share),
        w.kind == WorkFlowKind::QueryPluginInfo,
        w.state is AwaitingReplies,
        w.cursor == 0,
        w.tasks.len() == 1,
        w.tasks[0].kind == TaskKind::QueryPluginInfo,
        w.replies.len() + 1 == w.tasks[0].expected,
        reply.uuid == w.uuid,
        reply.plugin is QueryPluginInfoReply,
        !(reply.user is Error),
        now < w.deadline,
    ensures
        ({
            let step = after_event(q, reply, roles, now);
            let infos = plugin_infos_of(w.replies.push(reply));
            &&& sent_for(step.1, w.uuid) == seq![
                w.event(
                    NipartUserEventView::QueryPluginInfoReply(infos),
                    NipartPluginEventView::Nil,
                    NipartEventAddressView::User,
                    0,
                ),
            ]
            &&& infos == plugin_infos_of(w.replies).push(reply.plugin->QueryPluginInfoReply_0)
            &&& !step.0.holds(w.uuid)
        }),
{
    let a = Arrival { event: Some(reply), now };
    lemma_arrival_serves(q, w, share, a, roles);
    reveal(folded);
    let all = w.replies.push(reply);
    assert(all.drop_last() =~= w.replies);
    assert(all.last() == reply);
    assert(!all_failed(all)) by {
        assert(all[all.len() - 1] == reply);
    }
    let taken = w.absorbed(reply);
    assert(taken.state is Running);
    let o = taken.processed(share, now);
    let handed_on = ShareDataView { plugin_infos: plugin_infos_of(all), ..share };
    let next = WorkFlowView {
        cursor: 1,
        state: WorkFlowState::Pending,
        replies: Seq::empty(),
        ..taken
    };
    assert(taken.advanced(share, now) == next.advanced(handed_on, now));
    assert(next.advanced(handed_on, now) == next.done(handed_on));
    assert(o.workflow.is_finished());
    lemma_offer_serves(q, w, share, reply);
    lemma_look_leaves_none_ended(q.offered(reply), taken, share, now);
}

} // verus!
