//! What holds of a workflow over its whole life, whatever replies arrive
//! and whenever the commander looks at it.

use crate::backoff::{backoff_millis, law_few_retries_fit, total_backoff};
use crate::event::NipartEventView;
use crate::workflow::{task_dst, task_payload, Outcome, ShareDataView, WorkFlowState, WorkFlowView};
use vstd::prelude::*;

verus! {

/// The number of events of a list that are addressed to the user.
pub open spec fn to_user(events: Seq<NipartEventView>) -> nat
    decreases events.len(),
{
    if events.len() == 0 {
        0
    } else {
        to_user(events.drop_last()) + if events.last().dst is User {
            1nat
        } else {
            0nat
        }
    }
}

/// Whether every event of a list carries the identifier `uuid`.
pub open spec fn all_carry(events: Seq<NipartEventView>, uuid: u128) -> bool {
    forall|i: int| 0 <= i < events.len() ==> (#[trigger] events[i]).uuid == uuid
}

/// The events to the user of two lists, one after the other, are those of
/// the one and those of the other.
pub proof fn lemma_to_user_concat(a: Seq<NipartEventView>, b: Seq<NipartEventView>)
    ensures
        to_user(a + b) == to_user(a) + to_user(b),
    decreases b.len(),
{
    if b.len() == 0 {
        assert(a + b =~= a);
    } else {
        assert((a + b).drop_last() =~= a + b.drop_last());
        assert((a + b).last() == b.last());
        lemma_to_user_concat(a, b.drop_last());
    }
}

/// A list of one event holds one event to the user when it is addressed to
/// the user, else none.
pub proof fn lemma_to_user_one(e: NipartEventView)
    ensures
        to_user(seq![e]) == if e.dst is User {
            1nat
        } else {
            0nat
        },
{
    assert(seq![e].drop_last() =~= Seq::<NipartEventView>::empty());
    assert(to_user(Seq::<NipartEventView>::empty()) == 0);
}

/// Whether `b` is a later state of the workflow `a`: what is asked for
/// stays the same for the whole life of a workflow, steps may join the
/// steps but none leaves or changes, and the cursor never goes back.
pub open spec fn same_request(a: WorkFlowView, b: WorkFlowView) -> bool {
    &&& a.uuid == b.uuid
    &&& a.kind == b.kind
    &&& a.timeout == b.timeout
    &&& a.deadline == b.deadline
    &&& a.tasks.len() <= b.tasks.len()
    &&& forall|i: int| 0 <= i < a.tasks.len() ==> a.tasks[i] == #[trigger] b.tasks[i]
    &&& a.cursor <= b.cursor
}

/// Whether what the user is told fits how the workflow ended: a failure is
/// told of a workflow that failed, with the kind of the failure, and
/// anything else of a workflow that ended well.
pub open spec fn tells_the_end(o: Outcome) -> bool {
    forall|i: int|
        0 <= i < o.events.len() && (#[trigger] o.events[i]).dst is User ==> match o.events[i].user {
            crate::event::NipartUserEventView::Error(err) => o.workflow.state
                == WorkFlowState::Failed(err.kind),
            _ => o.workflow.state is Done,
        }
}

/// Whether an outcome of a workflow `w` that had not ended is in order:
/// the user is told exactly when the workflow ends, and only where a user
/// waits; what the user is told fits how the workflow ended; every event
/// carries the identifier of the workflow; the account of retries stays in
/// order.
pub open spec fn in_order(w: WorkFlowView, o: Outcome) -> bool {
    &&& same_request(w, o.workflow)
    &&& all_carry(o.events, w.uuid)
    &&& tells_the_end(o)
    &&& to_user(o.events) == if o.workflow.is_finished() && w.replies_to_user() {
        1nat
    } else {
        0nat
    }
    &&& (w.wf() ==> o.workflow.wf())
    &&& w.retries <= o.workflow.retries
}

/// A workflow that ends tells the user once, where one waits.
proof fn lemma_ended(w: WorkFlowView, o: Outcome, user: crate::event::NipartUserEventView)
    requires
        o.workflow.is_finished(),
        same_request(w, o.workflow),
        o.workflow.retries == w.retries,
        o.workflow.backoff_spent == w.backoff_spent,
        o.events == w.terminal(user),
        match user {
            crate::event::NipartUserEventView::Error(err) => o.workflow.state
                == WorkFlowState::Failed(err.kind),
            _ => o.workflow.state is Done,
        },
    ensures
        in_order(w, o),
{
    if w.replies_to_user() {
        lemma_to_user_one(o.events[0]);
        assert(o.events =~= seq![o.events[0]]);
    }
}

/// Moving a workflow on keeps everything in order.
#[verifier::rlimit(50)]
pub proof fn lemma_advanced_in_order(w: WorkFlowView, share: ShareDataView, now: u64)
    requires
        !w.is_finished(),
    ensures
        in_order(w, w.advanced(share, now)),
    decreases
            w.tasks.len() - w.cursor,
            if w.state is Pending {
                1int
            } else {
                0int
            },
{
    let o = w.advanced(share, now);
    if w.cursor >= w.tasks.len() || w.cursor >= usize::MAX {
        lemma_ended(w, o, w.answer(share));
    } else {
        let task = w.tasks[w.cursor as int];
        match w.state {
            WorkFlowState::Pending => {
                let running = WorkFlowView {
                    state: WorkFlowState::Running,
                    replies: Seq::empty(),
                    ..w
                };
                match crate::workflow::task_payload(task.kind, share) {
                    Some(p) => {
                        let request = w.event(
                            crate::event::NipartUserEventView::Nil,
                            p,
                            task_dst(task.kind),
                            0,
                        );
                        lemma_to_user_one(request);
                        if task.expected > 0 {
                        } else {
                            lemma_advanced_in_order(running, share, now);
                            let rest = running.advanced(share, now);
                            lemma_to_user_concat(seq![request], rest.events);
                            assert(o == rest.after(seq![request]));
                        }
                    },
                    None => {
                        lemma_advanced_in_order(running, share, now);
                    },
                }
            },
            WorkFlowState::Running => {
                match crate::workflow::folded(task.kind, w.replies, share) {
                    Ok(handed_on) => {
                        let next = WorkFlowView {
                            cursor: (w.cursor + 1) as usize,
                            state: WorkFlowState::Pending,
                            replies: Seq::empty(),
                            ..w
                        };
                        lemma_advanced_in_order(next, handed_on, now);
                    },
                    Err(e) => {
                        if task.kind is VerifyNetState && e.kind
                            == crate::error::ErrorKind::VerificationError {
                            lemma_retried_in_order(w, share, e, now);
                        } else {
                            lemma_ended(w, o, crate::event::NipartUserEventView::Error(e));
                        }
                    },
                }
            },
            _ => {},
        }
    }
}

/// A retry keeps everything in order.
#[verifier::rlimit(50)]
proof fn lemma_retried_in_order(
    w: WorkFlowView,
    share: ShareDataView,
    e: crate::error::NipartErrorView,
    now: u64,
)
    requires
        !w.is_finished(),
    ensures
        in_order(w, w.retried(share, e, now)),
{
    let o = w.retried(share, e, now);
    if o.workflow.is_finished() {
        lemma_ended(
            w,
            o,
            crate::event::NipartUserEventView::Error(crate::workflow::retries_exhausted_view(e)),
        );
    } else {
        lemma_to_user_one(o.events[0]);
        assert(o.events =~= seq![o.events[0]]);
        if w.wf() {
            assert(total_backoff(o.workflow.retries as nat) == total_backoff(w.retries as nat)
                + backoff_millis(w.retries as nat));
        }
    }
}

/// Looking at a workflow keeps everything in order. A workflow that has
/// ended stays as it is and sends nothing more, and a look at or after the
/// deadline ends the workflow.
pub proof fn lemma_processed_in_order(w: WorkFlowView, share: ShareDataView, now: u64)
    ensures
        w.is_finished() ==> w.processed(share, now) == (Outcome {
            workflow: w,
            share,
            events: Seq::empty(),
        }),
        !w.is_finished() ==> in_order(w, w.processed(share, now)),
        now >= w.deadline ==> w.processed(share, now).workflow.is_finished(),
        now >= w.deadline ==> w.processed(share, now).workflow.retries == w.retries,
{
    if !w.is_finished() {
        if now >= w.deadline {
            let o = w.processed(share, now);
            lemma_ended(
                w,
                o,
                crate::event::NipartUserEventView::Error(crate::workflow::timeout_view()),
            );
        } else {
            lemma_advanced_in_order(w, share, now);
        }
    }
}

/// What the commander does to a workflow at one time: it offers a reply,
/// where one came in, and then looks at the workflow.
pub struct Stimulus {
    pub reply: Option<NipartEventView>,
    pub now: u64,
}

/// A workflow after a series of stimuli, with all the events it sent.
pub open spec fn run(w: WorkFlowView, share: ShareDataView, stimuli: Seq<Stimulus>) -> Outcome
    decreases stimuli.len(),
{
    if stimuli.len() == 0 {
        Outcome { workflow: w, share, events: Seq::empty() }
    } else {
        let before = run(w, share, stimuli.drop_last());
        let offered = match stimuli.last().reply {
            Some(r) => before.workflow.absorbed(r),
            None => before.workflow,
        };
        offered.processed(before.share, stimuli.last().now).after(before.events)
    }
}

/// Exactly one reply to the user. Over any series of replies and looks, a
/// workflow that a user waits for sends exactly one event to the user, and
/// it sends it when it ends; a workflow that no user waits for sends none.
/// Every event it sends carries its identifier. It has ended after the
/// first look at or after its deadline.
pub proof fn law_one_reply_to_user(w: WorkFlowView, share: ShareDataView, stimuli: Seq<Stimulus>)
    requires
        !w.is_finished(),
    ensures
        to_user(run(w, share, stimuli).events) == if run(w, share, stimuli).workflow.is_finished()
            && w.replies_to_user() {
            1nat
        } else {
            0nat
        },
        all_carry(run(w, share, stimuli).events, w.uuid),
        same_request(w, run(w, share, stimuli).workflow),
        (exists|i: int| 0 <= i < stimuli.len() && (#[trigger] stimuli[i]).now >= w.deadline)
            ==> run(w, share, stimuli).workflow.is_finished(),
    decreases stimuli.len(),
{
    if stimuli.len() > 0 {
        let front = stimuli.drop_last();
        let before = run(w, share, front);
        law_one_reply_to_user(w, share, front);
        let offered = match stimuli.last().reply {
            Some(r) => before.workflow.absorbed(r),
            None => before.workflow,
        };
        let step = offered.processed(before.share, stimuli.last().now);
        lemma_processed_in_order(offered, before.share, stimuli.last().now);
        lemma_to_user_concat(before.events, step.events);
        assert(run(w, share, stimuli).events == before.events + step.events);
        assert(offered.is_finished() == before.workflow.is_finished());
        if exists|i: int| 0 <= i < stimuli.len() && (#[trigger] stimuli[i]).now >= w.deadline {
            let i = choose|i: int| 0 <= i < stimuli.len() && (#[trigger] stimuli[i]).now
                >= w.deadline;
            if i < front.len() {
                assert(front[i].now >= w.deadline);
            }
        }
    }
}

/// Retries are bounded. Over any series of replies and looks, the delays of
/// the retries of a workflow add up to no more than the time of its
/// request. So the retries are few: their number grows with the logarithm
/// of that time while the delays double, and by one for every five seconds
/// once they have reached the cap.
pub proof fn law_retries_bounded(w: WorkFlowView, share: ShareDataView, stimuli: Seq<Stimulus>)
    requires
        w.wf(),
    ensures
        run(w, share, stimuli).workflow.wf(),
        total_backoff(run(w, share, stimuli).workflow.retries as nat) <= w.timeout,
        w.timeout < 500 ==> run(w, share, stimuli).workflow.retries == 0,
        w.timeout < 1500 ==> run(w, share, stimuli).workflow.retries <= 1,
        w.timeout < 3500 ==> run(w, share, stimuli).workflow.retries <= 2,
        w.timeout < 7500 ==> run(w, share, stimuli).workflow.retries <= 3,
        run(w, share, stimuli).workflow.retries <= 4 + w.timeout / 5000,
        run(w, share, stimuli).workflow.timeout == w.timeout,
    decreases stimuli.len(),
{
    if stimuli.len() > 0 {
        let front = stimuli.drop_last();
        let before = run(w, share, front);
        law_retries_bounded(w, share, front);
        let offered = match stimuli.last().reply {
            Some(r) => before.workflow.absorbed(r),
            None => before.workflow,
        };
        lemma_processed_in_order(offered, before.share, stimuli.last().now);
    }
    let end = run(w, share, stimuli).workflow;
    law_few_retries_fit(end.retries as nat, w.timeout as nat);
}

/// No retry after the deadline. A look at or after the deadline ends the
/// workflow, leaves the number of retries as it is, and sends nothing but
/// the reply to the user.
pub proof fn law_no_retry_after_deadline(w: WorkFlowView, share: ShareDataView, now: u64)
    requires
        !w.is_finished(),
        now >= w.deadline,
    ensures
        w.processed(share, now).workflow.is_finished(),
        w.processed(share, now).workflow.retries == w.retries,
        w.processed(share, now).events.len() == to_user(w.processed(share, now).events),
{
    lemma_processed_in_order(w, share, now);
    let o = w.processed(share, now);
    if w.replies_to_user() {
        lemma_to_user_one(o.events[0]);
        assert(o.events =~= seq![o.events[0]]);
    }
}

/// Whether an event carries exactly one payload: one of the user level or
/// one of the plugin level.
pub open spec fn one_payload(e: NipartEventView) -> bool {
    (e.user is Nil) != (e.plugin is Nil)
}

/// Whether an event that is sent at time `now` fits a deadline: where its
/// delivery is delayed, the delay ends before the deadline.
pub open spec fn in_time(e: NipartEventView, now: u64, deadline: u64) -> bool {
    e.postpone_millis > 0 ==> now + e.postpone_millis < deadline
}

/// Whether every event of a list carries exactly one payload and, sent at
/// time `now`, fits the deadline.
pub open spec fn all_one_payload_in_time(
    events: Seq<NipartEventView>,
    now: u64,
    deadline: u64,
) -> bool {
    forall|i: int|
        0 <= i < events.len() ==> one_payload(#[trigger] events[i]) && in_time(
            events[i],
            now,
            deadline,
        )
}

/// Whether every event of a list carries exactly one payload.
pub open spec fn all_one_payload(events: Seq<NipartEventView>) -> bool {
    forall|i: int| 0 <= i < events.len() ==> one_payload(#[trigger] events[i])
}

/// The request of a step carries a payload.
pub proof fn lemma_request_has_payload(kind: crate::workflow::TaskKind, share: ShareDataView)
    ensures
        task_payload(kind, share) matches Some(p) ==> !(p is Nil),
{
    reveal(task_payload);
}

/// Events that each carry one payload, one list after the other.
proof fn lemma_one_payload_concat(
    a: Seq<NipartEventView>,
    b: Seq<NipartEventView>,
    now: u64,
    deadline: u64,
)
    requires
        all_one_payload_in_time(a, now, deadline),
        all_one_payload_in_time(b, now, deadline),
    ensures
        all_one_payload_in_time(a + b, now, deadline),
{
    assert forall|i: int| 0 <= i < (a + b).len() implies one_payload(#[trigger] (a + b)[i])
        && in_time((a + b)[i], now, deadline) by {
        if i < a.len() {
            assert((a + b)[i] == a[i]);
        } else {
            assert((a + b)[i] == b[i - a.len()]);
        }
    }
}

/// The reply to the user carries the one payload it is given.
proof fn lemma_terminal_one_payload(
    w: WorkFlowView,
    user: crate::event::NipartUserEventView,
    now: u64,
)
    requires
        w.replies_to_user() ==> !(user is Nil),
    ensures
        all_one_payload_in_time(w.terminal(user), now, w.deadline),
{
    let t = w.terminal(user);
    assert forall|i: int| 0 <= i < t.len() implies one_payload(#[trigger] t[i]) && in_time(
        t[i],
        now,
        w.deadline,
    ) by {
        assert(t[i] == t[0]);
    }
}

/// Every event that a workflow sends while it moves on carries exactly one
/// payload, and where it is a retry, its delay ends before the deadline.
#[verifier::rlimit(50)]
pub proof fn lemma_advanced_one_payload(w: WorkFlowView, share: ShareDataView, now: u64)
    ensures
        all_one_payload_in_time(w.advanced(share, now).events, now, w.deadline),
    decreases
            w.tasks.len() - w.cursor,
            if w.state is Pending {
                1int
            } else {
                0int
            },
{
    if w.cursor >= w.tasks.len() || w.cursor >= usize::MAX {
        lemma_terminal_one_payload(w, w.answer(share), now);
    } else {
        let task = w.tasks[w.cursor as int];
        match w.state {
            WorkFlowState::Pending => {
                let running = WorkFlowView {
                    state: WorkFlowState::Running,
                    replies: Seq::empty(),
                    ..w
                };
                lemma_request_has_payload(task.kind, share);
                match task_payload(task.kind, share) {
                    Some(p) => {
                        let request = w.event(
                            crate::event::NipartUserEventView::Nil,
                            p,
                            task_dst(task.kind),
                            0,
                        );
                        assert(one_payload(request) && in_time(request, now, w.deadline));
                        assert(all_one_payload_in_time(seq![request], now, w.deadline)) by {
                            assert forall|i: int| 0 <= i < seq![request].len() implies one_payload(
                                #[trigger] seq![request][i],
                            ) && in_time(seq![request][i], now, w.deadline) by {}
                        }
                        if task.expected > 0 {
                        } else {
                            lemma_advanced_one_payload(running, share, now);
                            lemma_one_payload_concat(
                                seq![request],
                                running.advanced(share, now).events,
                                now,
                                w.deadline,
                            );
                        }
                    },
                    None => {
                        lemma_advanced_one_payload(running, share, now);
                    },
                }
            },
            WorkFlowState::Running => {
                match crate::workflow::folded(task.kind, w.replies, share) {
                    Ok(handed_on) => {
                        let next = WorkFlowView {
                            cursor: (w.cursor + 1) as usize,
                            state: WorkFlowState::Pending,
                            replies: Seq::empty(),
                            ..w
                        };
                        lemma_advanced_one_payload(next, handed_on, now);
                    },
                    Err(e) => {
                        let at = crate::workflow::apply_index(w.tasks, 0);
                        lemma_request_has_payload(w.tasks[at].kind, share);
                        lemma_terminal_one_payload(
                            w,
                            crate::event::NipartUserEventView::Error(e),
                            now,
                        );
                        lemma_terminal_one_payload(
                            w,
                            crate::event::NipartUserEventView::Error(
                                crate::workflow::retries_exhausted_view(e),
                            ),
                            now,
                        );
                        let o = w.advanced(share, now);
                        if task.kind is VerifyNetState && e.kind
                            == crate::error::ErrorKind::VerificationError {
                            assert(o == w.retried(share, e, now));
                            if o.workflow.is_finished() {
                                assert(o.events == w.terminal(
                                    crate::event::NipartUserEventView::Error(
                                        crate::workflow::retries_exhausted_view(e),
                                    ),
                                ));
                            } else {
                                assert(o.events.len() == 1);
                                assert(one_payload(o.events[0]));
                                assert(in_time(o.events[0], now, w.deadline));
                            }
                        } else {
                            assert(o.events == w.terminal(
                                crate::event::NipartUserEventView::Error(e),
                            ));
                        }
                    },
                }
            },
            _ => {},
        }
    }
}

/// One payload per event. Over any series of replies and looks, every
/// event that a workflow sends carries exactly one payload: a request to
/// plugins carries one of the plugin level, the reply to the user one of
/// the user level.
pub proof fn law_one_payload_per_event(
    w: WorkFlowView,
    share: ShareDataView,
    stimuli: Seq<Stimulus>,
)
    ensures
        all_one_payload(run(w, share, stimuli).events),
    decreases stimuli.len(),
{
    if stimuli.len() > 0 {
        let before = run(w, share, stimuli.drop_last());
        law_one_payload_per_event(w, share, stimuli.drop_last());
        let offered = match stimuli.last().reply {
            Some(r) => before.workflow.absorbed(r),
            None => before.workflow,
        };
        law_sent_in_time(offered, before.share, stimuli.last().now);
        let step = offered.processed(before.share, stimuli.last().now);
        let all = before.events + step.events;
        assert forall|i: int| 0 <= i < all.len() implies one_payload(#[trigger] all[i]) by {
            if i < before.events.len() {
                assert(all[i] == before.events[i]);
            } else {
                assert(all[i] == step.events[i - before.events.len()]);
            }
        }
    }
}

/// Nothing is sent past the deadline. What a workflow sends at a look at
/// time `now` carries exactly one payload each, and a retry among it is
/// delayed only so far that the delay ends before the deadline of the
/// workflow.
pub proof fn law_sent_in_time(w: WorkFlowView, share: ShareDataView, now: u64)
    ensures
        all_one_payload_in_time(w.processed(share, now).events, now, w.deadline),
{
    if !w.is_finished() {
        if now < w.deadline {
            lemma_advanced_one_payload(w, share, now);
        } else {
            lemma_terminal_one_payload(
                w,
                crate::event::NipartUserEventView::Error(crate::workflow::timeout_view()),
                now,
            );
        }
    }
}

/// The reply tells how the workflow ended. Over any series of replies and
/// looks, an event to the user carries a failure exactly when the workflow
/// failed, and then the failure is of the kind that the workflow failed
/// with; a workflow that ended well answers with something else.
#[verifier::rlimit(50)]
pub proof fn law_reply_tells_the_end(w: WorkFlowView, share: ShareDataView, stimuli: Seq<Stimulus>)
    requires
        !w.is_finished(),
    ensures
        tells_the_end(run(w, share, stimuli)),
        to_user(run(w, share, stimuli).events) > 0 ==> run(w, share, stimuli).workflow.is_finished(),
    decreases stimuli.len(),
{
    law_one_reply_to_user(w, share, stimuli);
    if stimuli.len() > 0 {
        let front = stimuli.drop_last();
        let before = run(w, share, front);
        law_reply_tells_the_end(w, share, front);
        law_one_reply_to_user(w, share, front);
        let offered = match stimuli.last().reply {
            Some(r) => before.workflow.absorbed(r),
            None => before.workflow,
        };
        let step = offered.processed(before.share, stimuli.last().now);
        lemma_processed_in_order(offered, before.share, stimuli.last().now);
        let end = run(w, share, stimuli);
        assert(end.events == before.events + step.events);
        assert forall|i: int| 0 <= i < end.events.len() && (#[trigger] end.events[i]).dst
            is User implies match end.events[i].user {
            crate::event::NipartUserEventView::Error(err) => end.workflow.state
                == WorkFlowState::Failed(err.kind),
            _ => end.workflow.state is Done,
        } by {
            if i < before.events.len() {
                assert(end.events[i] == before.events[i]);
                lemma_to_user_positive(before.events, i);
                assert(before.workflow.is_finished());
                assert(offered == before.workflow);
                assert(step.workflow == before.workflow);
            } else {
                assert(end.events[i] == step.events[i - before.events.len()]);
                if offered.is_finished() {
                    assert(step.events.len() == 0);
                }
            }
        }
    }
}

/// A list that holds an event to the user holds at least one.
proof fn lemma_to_user_positive(events: Seq<NipartEventView>, i: int)
    requires
        0 <= i < events.len(),
        events[i].dst is User,
    ensures
        to_user(events) > 0,
    decreases events.len(),
{
    if i < events.len() - 1 {
        assert(events.drop_last()[i] == events[i]);
        lemma_to_user_positive(events.drop_last(), i);
    }
}

} // verus!
