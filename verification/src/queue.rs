//! The workflows that are being served.

use crate::data::Data;
use crate::event::{NipartEvent, NipartEventView};
use crate::workflow::{ShareData, ShareDataView, WorkFlow, WorkFlowView};
use vstd::prelude::*;

verus! {

/// The live workflows with what their steps hand on, each identifier once.
#[derive(Debug, PartialEq)]
pub struct WorkFlowQueue {
    pub workflows: Vec<(WorkFlow, ShareData)>,
}

/// The mathematical value of a [`WorkFlowQueue`].
#[verifier::ext_equal]
pub struct WorkFlowQueueView {
    pub workflows: Seq<(WorkFlowView, ShareDataView)>,
}

impl DeepView for WorkFlowQueue {
    type V = WorkFlowQueueView;

    open spec fn deep_view(&self) -> WorkFlowQueueView {
        WorkFlowQueueView {
            workflows: self.workflows.deep_view(),
        }
    }
}

impl View for WorkFlowQueue {
    type V = WorkFlowQueueView;

    open spec fn view(&self) -> WorkFlowQueueView {
        self.deep_view()
    }
}

impl Data for WorkFlowQueue {
    fn same(&self, other: &Self) -> (b: bool) {
        self.workflows.same(&other.workflows)
    }

    fn dup(&self) -> (r: Self) {
        WorkFlowQueue {
            workflows: self.workflows.dup(),
        }
    }
}

/// A workflow with what its steps hand on.
pub type Live = (WorkFlowView, ShareDataView);

/// The index, at or after `from`, of the first workflow with the
/// identifier `uuid`; the length of the list when there is none.
pub open spec fn workflow_position(ws: Seq<Live>, uuid: u128, from: int) -> int
    decreases ws.len() - from,
{
    if from < 0 || from >= ws.len() {
        ws.len() as int
    } else if ws[from].0.uuid == uuid {
        from
    } else {
        workflow_position(ws, uuid, from + 1)
    }
}

/// The workflows that stay after each of a list was looked at at time
/// `now`, and the events they sent, workflow by workflow. A workflow that
/// has ended is retired.
pub open spec fn processed_all(ws: Seq<Live>, now: u64) -> (Seq<Live>, Seq<NipartEventView>)
    decreases ws.len(),
{
    if ws.len() == 0 {
        (Seq::empty(), Seq::empty())
    } else {
        let before = processed_all(ws.drop_last(), now);
        let o = ws.last().0.processed(ws.last().1, now);
        (
            if o.workflow.is_finished() {
                before.0
            } else {
                before.0.push((o.workflow, o.share))
            },
            before.1 + o.events,
        )
    }
}

impl WorkFlowQueueView {
    /// Whether the account of retries of every workflow is in order.
    pub open spec fn wf(self) -> bool {
        forall|i: int| 0 <= i < self.workflows.len() ==> (#[trigger] self.workflows[i]).0.wf()
    }

    /// The queue with a workflow added: in the place of the workflow of the
    /// same identifier, or at the end when there is none.
    pub open spec fn with(self, w: WorkFlowView, share: ShareDataView) -> WorkFlowQueueView {
        let p = workflow_position(self.workflows, w.uuid, 0);
        WorkFlowQueueView {
            workflows: if p < self.workflows.len() {
                self.workflows.update(p, (w, share))
            } else {
                self.workflows.push((w, share))
            },
        }
    }

    /// Whether the queue holds a workflow that takes the event for a reply:
    /// the first workflow with the identifier of the event does.
    pub open spec fn takes(self, reply: NipartEventView) -> bool {
        let p = workflow_position(self.workflows, reply.uuid, 0);
        p < self.workflows.len() && self.workflows[p].0.takes(reply)
    }

    /// The queue after an event was offered to the first workflow with its
    /// identifier. No other workflow sees the event.
    pub open spec fn offered(self, reply: NipartEventView) -> WorkFlowQueueView {
        let p = workflow_position(self.workflows, reply.uuid, 0);
        if p < self.workflows.len() {
            WorkFlowQueueView {
                workflows: self.workflows.update(
                    p,
                    (self.workflows[p].0.absorbed(reply), self.workflows[p].1),
                ),
            }
        } else {
            self
        }
    }

    /// The queue after every workflow was looked at at time `now`.
    pub open spec fn processed(self, now: u64) -> (WorkFlowQueueView, Seq<NipartEventView>) {
        let done = processed_all(self.workflows, now);
        (WorkFlowQueueView { workflows: done.0 }, done.1)
    }
}

/// Looking at workflows keeps the account of retries of each in order.
pub proof fn lemma_processed_all_wf(ws: Seq<Live>, now: u64)
    requires
        forall|i: int| 0 <= i < ws.len() ==> (#[trigger] ws[i]).0.wf(),
    ensures
        forall|i: int|
            0 <= i < processed_all(ws, now).0.len() ==> (#[trigger] processed_all(
                ws,
                now,
            ).0[i]).0.wf(),
    decreases ws.len(),
{
    if ws.len() > 0 {
        let front = ws.drop_last();
        assert forall|i: int| 0 <= i < front.len() implies (#[trigger] front[i]).0.wf() by {
            assert(front[i] == ws[i]);
        }
        lemma_processed_all_wf(front, now);
        assert(ws.last() == ws[ws.len() - 1]);
        crate::lifecycle::lemma_processed_in_order(ws.last().0, ws.last().1, now);
        let before = processed_all(front, now);
        let o = ws.last().0.processed(ws.last().1, now);
        let after = processed_all(ws, now);
        assert forall|i: int| 0 <= i < after.0.len() implies (#[trigger] after.0[i]).0.wf() by {
            if i < before.0.len() {
                assert(after.0[i] == before.0[i]);
            }
        }
    }
}

impl WorkFlowQueue {
    /// An empty queue.
    pub fn new() -> (r: Self)
        ensures
            r@.workflows == Seq::<Live>::empty(),
            r@.wf(),
    {
        let r = WorkFlowQueue { workflows: Vec::new() };
        assert(r@.workflows =~= Seq::empty());
        r
    }

    /// The index of the first workflow with the identifier `uuid`; the
    /// number of workflows when there is none.
    pub fn position(&self, uuid: u128) -> (p: usize)
        ensures
            p == workflow_position(self@.workflows, uuid, 0),
            p <= self.workflows.len(),
    {
        let mut i: usize = 0;
        while i < self.workflows.len()
            invariant
                i <= self.workflows.len(),
                workflow_position(self@.workflows, uuid, 0) == workflow_position(
                    self@.workflows,
                    uuid,
                    i as int,
                ),
            decreases self.workflows.len() - i,
        {
            if self.workflows[i].0.uuid == uuid {
                return i;
            }
            i += 1;
        }
        i
    }

    /// Adds a workflow. A workflow of the same identifier gives way to it.
    pub fn add_workflow(&mut self, workflow: WorkFlow, share_data: ShareData)
        requires
            old(self)@.wf(),
            workflow@.wf(),
        ensures
            final(self)@ == old(self)@.with(workflow@, share_data@),
            final(self)@.wf(),
    {
        let p = self.position(workflow.uuid);
        if p < self.workflows.len() {
            self.workflows.set(p, (workflow, share_data));
            assert(self@.workflows =~= old(self)@.workflows.update(
                p as int,
                (workflow@, share_data@),
            ));
        } else {
            self.workflows.push((workflow, share_data));
            assert(self@.workflows =~= old(self)@.workflows.push((workflow@, share_data@)));
        }
    }

    /// Offers an event to the workflow with its identifier and tells
    /// whether that workflow took it for a reply. An event that no
    /// workflow takes is dropped.
    pub fn add_reply(&mut self, reply: NipartEvent) -> (taken: bool)
        requires
            old(self)@.wf(),
        ensures
            taken == old(self)@.takes(reply@),
            final(self)@ == old(self)@.offered(reply@),
            final(self)@.wf(),
    {
        let p = self.position(reply.uuid);
        if p < self.workflows.len() {
            let ghost reply_view = reply@;
            let ghost before = self@.workflows;
            let (mut workflow, share_data) = self.workflows.remove(p);
            let taken = workflow.add_reply(reply);
            self.workflows.insert(p, (workflow, share_data));
            assert(self@.workflows =~= before.update(
                p as int,
                (before[p as int].0.absorbed(reply_view), before[p as int].1),
            ));
            taken
        } else {
            false
        }
    }

    /// Looks at every workflow at time `now`, retires those that have
    /// ended, and returns the events to be sent, workflow by workflow.
    pub fn process(&mut self, now: u64) -> (events: Vec<NipartEvent>)
        requires
            old(self)@.wf(),
        ensures
            final(self)@ == old(self)@.processed(now).0,
            events.deep_view() == old(self)@.processed(now).1,
            final(self)@.wf(),
    {
        let mut events: Vec<NipartEvent> = Vec::new();
        let mut kept: Vec<(WorkFlow, ShareData)> = Vec::new();
        let ghost all = self@.workflows;
        let ghost mut done: int = 0;
        assert(all.take(0) =~= Seq::empty());
        assert(all.skip(0) =~= all);
        assert(events.deep_view() =~= Seq::empty());
        assert(kept.deep_view() =~= Seq::empty());
        while self.workflows.len() > 0
            invariant
                0 <= done <= all.len(),
                all == old(self)@.workflows,
                self@.workflows == all.skip(done),
                forall|i: int| 0 <= i < all.len() ==> (#[trigger] all[i]).0.wf(),
                kept.deep_view() == processed_all(all.take(done), now).0,
                events.deep_view() == processed_all(all.take(done), now).1,
            decreases self.workflows.len(),
        {
            let ghost kept_before = kept.deep_view();
            let ghost events_before = events.deep_view();
            assert(self@.workflows.len() == self.workflows.len());
            assert(all.skip(done).len() == all.len() - done);
            assert(done < all.len());
            assert(all.take(done + 1).drop_last() =~= all.take(done));
            assert(all.take(done + 1).last() == all[done]);
            assert(all.skip(done)[0] == all[done]);
            let ghost shallow = self.workflows@;
            let ghost deep = self@.workflows;
            let (mut workflow, mut share_data) = self.workflows.remove(0);
            assert(self.workflows@ =~= shallow.remove(0));
            assert((workflow@, share_data@) == deep[0]);
            assert forall|i: int| 0 <= i < self@.workflows.len() implies self@.workflows[i]
                == all.skip(done + 1)[i] by {
                assert(self.workflows@[i] == shallow[i + 1]);
                assert(deep[i + 1] == shallow[i + 1].deep_view());
            }
            assert(self@.workflows =~= all.skip(done + 1));
            let mut sent = workflow.process(&mut share_data, now);
            let ghost sent_view = sent.deep_view();
            events.append(&mut sent);
            assert(events.deep_view() =~= events_before + sent_view);
            if !workflow.is_finished() {
                kept.push((workflow, share_data));
                assert(kept.deep_view() =~= kept_before.push((workflow@, share_data@)));
            }
            proof {
                done = done + 1;
            }
        }
        assert(all.skip(done).len() == 0);
        assert(all.take(done) =~= all);
        proof {
            lemma_processed_all_wf(all, now);
        }
        self.workflows = kept;
        events
    }
}

impl WorkFlowQueue {
    /// Whether the account of retries of every workflow is in order, as a
    /// queue made and changed by the functions of this module has it.
    pub fn is_wf(&self) -> (b: bool)
        ensures
            b == self@.wf(),
    {
        let mut i: usize = 0;
        while i < self.workflows.len()
            invariant
                i <= self.workflows.len(),
                forall|j: int| 0 <= j < i ==> (#[trigger] self@.workflows[j]).0.wf(),
            decreases self.workflows.len() - i,
        {
            if !self.workflows[i].0.is_wf() {
                assert(!self@.workflows[i as int].0.wf());
                return false;
            }
            i += 1;
        }
        true
    }
}

impl WorkFlowQueueView {
    /// Whether every identifier occurs once.
    pub open spec fn unique(self) -> bool {
        forall|i: int, j: int|
            0 <= i < j < self.workflows.len() ==> self.workflows[i].0.uuid
                != self.workflows[j].0.uuid
    }

    /// Whether the queue holds a workflow with the identifier.
    pub open spec fn holds(self, uuid: u128) -> bool {
        exists|i: int| 0 <= i < self.workflows.len() && (#[trigger] self.workflows[i]).0.uuid == uuid
    }
}

/// `workflow_position` finds the first workflow with the identifier, or
/// runs to the end.
pub proof fn lemma_workflow_position(ws: Seq<Live>, uuid: u128, from: int)
    requires
        0 <= from <= ws.len(),
    ensures
        from <= workflow_position(ws, uuid, from) <= ws.len(),
        workflow_position(ws, uuid, from) < ws.len() ==> ws[workflow_position(
            ws,
            uuid,
            from,
        )].0.uuid == uuid,
        forall|j: int| from <= j < workflow_position(ws, uuid, from) ==> (#[trigger] ws[j]).0.uuid != uuid,
    decreases ws.len() - from,
{
    if from < ws.len() && ws[from].0.uuid != uuid {
        lemma_workflow_position(ws, uuid, from + 1);
    }
}

/// The workflows that stay after a look are workflows that were there, and
/// where those had identifiers of their own, these have.
pub proof fn lemma_processed_all_unique(ws: Seq<Live>, now: u64)
    requires
        (WorkFlowQueueView { workflows: ws }).unique(),
    ensures
        (WorkFlowQueueView { workflows: processed_all(ws, now).0 }).unique(),
        forall|k: int|
            0 <= k < processed_all(ws, now).0.len() ==> (WorkFlowQueueView {
                workflows: ws,
            }).holds((#[trigger] processed_all(ws, now).0[k]).0.uuid),
    decreases ws.len(),
{
    if ws.len() > 0 {
        let front = ws.drop_last();
        assert forall|i: int, j: int| 0 <= i < j < front.len() implies front[i].0.uuid
            != front[j].0.uuid by {
            assert(front[i] == ws[i] && front[j] == ws[j]);
        }
        lemma_processed_all_unique(front, now);
        let before = processed_all(front, now).0;
        let after = processed_all(ws, now).0;
        let last = ws[ws.len() - 1];
        assert(ws.last() == last);
        crate::lifecycle::lemma_processed_in_order(last.0, last.1, now);
        let o = last.0.processed(last.1, now);
        assert(o.workflow.uuid == last.0.uuid);
        assert forall|k: int| 0 <= k < after.len() implies (WorkFlowQueueView {
            workflows: ws,
        }).holds((#[trigger] after[k]).0.uuid) by {
            if k < before.len() {
                assert(after[k] == before[k]);
                let i = choose|i: int| 0 <= i < front.len() && (#[trigger] front[i]).0.uuid
                    == before[k].0.uuid;
                assert(ws[i] == front[i]);
            } else {
                assert(after[k].0.uuid == last.0.uuid);
            }
        }
        assert forall|i: int, j: int| 0 <= i < j < after.len() implies after[i].0.uuid
            != after[j].0.uuid by {
            assert(after[i] == before[i]);
            if j < before.len() {
                assert(after[j] == before[j]);
            } else {
                let n = choose|n: int| 0 <= n < front.len() && (#[trigger] front[n]).0.uuid
                    == before[i].0.uuid;
                assert(ws[n] == front[n]);
            }
        }
    }
}

/// Identifiers stay unique. In a queue in which every identifier occurs
/// once, it still does after a workflow was added, after a reply was
/// offered, and after a look. A reply changes no workflow but the one with
/// its identifier.
pub proof fn law_identifiers_stay_unique(
    q: WorkFlowQueueView,
    w: WorkFlowView,
    share: ShareDataView,
    reply: NipartEventView,
    now: u64,
)
    requires
        q.unique(),
    ensures
        q.with(w, share).unique(),
        q.offered(reply).unique(),
        q.processed(now).0.unique(),
        q.offered(reply).workflows.len() == q.workflows.len(),
        forall|i: int|
            0 <= i < q.workflows.len() && (#[trigger] q.workflows[i]).0.uuid != reply.uuid
                ==> q.offered(reply).workflows[i] == q.workflows[i],
{
    lemma_workflow_position(q.workflows, w.uuid, 0);
    lemma_workflow_position(q.workflows, reply.uuid, 0);
    lemma_processed_all_unique(q.workflows, now);
    let added = q.with(w, share).workflows;
    let p = workflow_position(q.workflows, w.uuid, 0);
    assert forall|i: int, j: int| 0 <= i < j < added.len() implies added[i].0.uuid
        != added[j].0.uuid by {
        if p < q.workflows.len() {
            assert(added[i].0.uuid == q.workflows[i].0.uuid);
            assert(added[j].0.uuid == q.workflows[j].0.uuid);
        } else {
            if j < q.workflows.len() {
                assert(added[i] == q.workflows[i] && added[j] == q.workflows[j]);
            } else {
                assert(added[i] == q.workflows[i]);
            }
        }
    }
    let offered = q.offered(reply).workflows;
    assert forall|i: int, j: int| 0 <= i < j < offered.len() implies offered[i].0.uuid
        != offered[j].0.uuid by {
        assert(offered[i].0.uuid == q.workflows[i].0.uuid);
        assert(offered[j].0.uuid == q.workflows[j].0.uuid);
    }
}

} // verus!
