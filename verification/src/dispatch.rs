//! The task-dispatch protocol: what travels on the task channel, what the
//! worker does with each message, and what the whole loop delivers.
//!
//! The dispatch layer never looks inside a unit of work. A task is modelled
//! by the rendezvous slot it must answer to (`slot`) and by the value its
//! one invocation will produce (`result`); the worker's obligation is pure
//! routing: deliver exactly that value to exactly that slot, in arrival
//! order, until a shutdown message or the channel's closure.

use vstd::prelude::*;

verus! {

/// One unit of work as the dispatch layer sees it: the identity of the
/// rendezvous slot awaiting the reply, and the value the task's single
/// invocation produces (opaque to the dispatcher; a task's own failure is
/// such a value too).
#[derive(Clone, Copy, Debug, PartialEq, Eq, Structural)]
pub struct Task {
    /// Identifies the rendezvous slot of the caller that submitted the task.
    pub slot: u64,
    /// The value the task's invocation hands to its slot.
    pub result: u64,
}

/// A message on the task channel.
#[derive(Clone, Copy, Debug, PartialEq, Eq, Structural)]
pub enum Msg {
    /// Run this unit of work and reply to its slot.
    Run(Task),
    /// The shutdown sentinel, sent exactly once by the handle's teardown.
    Shutdown,
}

/// What a blocking receive on the task channel came back with.
#[derive(Clone, Copy, Debug, PartialEq, Eq, Structural)]
pub enum RecvOutcome {
    /// A message was delivered.
    Message(Msg),
    /// Every producer is gone; the channel is closed.
    Disconnected,
}

/// What the worker does after one receive.
#[derive(Clone, Copy, Debug, PartialEq, Eq, Structural)]
pub enum WorkerAction {
    /// Invoke the task once; its reply goes to its own slot. Then receive again.
    Execute(Task),
    /// Leave the loop and terminate the thread, releasing the runtime.
    Exit,
}

/// One reply, as placed into a rendezvous slot.
#[derive(Clone, Copy, Debug, PartialEq, Eq, Structural)]
pub struct Reply {
    /// The slot the reply was delivered to.
    pub slot: u64,
    /// The delivered value.
    pub value: u64,
}

/// One turn of the worker loop: a task is executed, anything else —
/// the shutdown sentinel or a closed channel — ends the loop.
pub fn worker_step(r: RecvOutcome) -> (a: WorkerAction)
    ensures
        r matches RecvOutcome::Message(Msg::Run(t)) ==> a == WorkerAction::Execute(t),
        r == RecvOutcome::Message(Msg::Shutdown) ==> a == WorkerAction::Exit,
        r is Disconnected ==> a == WorkerAction::Exit,
{
    match r {
        RecvOutcome::Message(Msg::Run(t)) => WorkerAction::Execute(t),
        RecvOutcome::Message(Msg::Shutdown) => WorkerAction::Exit,
        RecvOutcome::Disconnected => WorkerAction::Exit,
    }
}

/// The tasks the worker accepts from a delivered message sequence: every
/// task before the first shutdown sentinel, in arrival order.
pub open spec fn accepted_tasks(msgs: Seq<Msg>) -> Seq<Task>
    decreases msgs.len(),
{
    if msgs.len() == 0 {
        Seq::empty()
    } else {
        match msgs[0] {
            Msg::Run(t) => seq![t] + accepted_tasks(msgs.drop_first()),
            Msg::Shutdown => Seq::empty(),
        }
    }
}

/// The reply one invocation of a task produces.
pub open spec fn reply_of(t: Task) -> Reply {
    Reply { slot: t.slot, value: t.result }
}

/// Everything the worker loop delivers for a message sequence: one reply
/// per accepted task, in arrival order, each to the task's own slot.
pub open spec fn worker_replies(msgs: Seq<Msg>) -> Seq<Reply> {
    accepted_tasks(msgs).map_values(|t: Task| reply_of(t))
}

/// The worker loop over an already-delivered message sequence: consume
/// messages in order, execute each accepted task, stop at the first
/// shutdown or at the channel's end.
pub fn process_messages(msgs: &Vec<Msg>) -> (replies: Vec<Reply>)
    ensures
        replies@ == worker_replies(msgs@),
{
    let mut replies: Vec<Reply> = Vec::new();
    let mut i: usize = 0;
    proof {
        assert(msgs@.skip(0) =~= msgs@);
        assert(replies@ + worker_replies(msgs@) =~= worker_replies(msgs@));
    }
    loop
        invariant
            i <= msgs@.len(),
            worker_replies(msgs@) == replies@ + worker_replies(msgs@.skip(i as int)),
        decreases msgs@.len() - i,
    {
        if i == msgs.len() {
            proof {
                assert(msgs@.skip(i as int) =~= Seq::<Msg>::empty());
                assert(worker_replies(msgs@) =~= replies@);
            }
            return replies;
        }
        let step = worker_step(RecvOutcome::Message(msgs[i]));
        proof {
            lemma_replies_unfold(msgs@.skip(i as int));
            assert(msgs@.skip(i as int).drop_first() =~= msgs@.skip(i as int + 1));
        }
        match step {
            WorkerAction::Execute(t) => {
                replies.push(Reply { slot: t.slot, value: t.result });
            },
            WorkerAction::Exit => {
                proof {
                    assert(worker_replies(msgs@) =~= replies@);
                }
                return replies;
            },
        }
        i = i + 1;
    }
}

/// Unfolds one step of the loop's delivery: a leading task contributes its
/// own reply and the rest follows; a leading shutdown delivers nothing more.
proof fn lemma_replies_unfold(msgs: Seq<Msg>)
    requires
        msgs.len() > 0,
    ensures
        msgs[0] matches Msg::Run(t) ==> worker_replies(msgs) =~= seq![reply_of(t)]
            + worker_replies(msgs.drop_first()),
        msgs[0] is Shutdown ==> worker_replies(msgs) =~= Seq::<Reply>::empty(),
{
    match msgs[0] {
        Msg::Run(t) => {
            assert(accepted_tasks(msgs) =~= seq![t] + accepted_tasks(msgs.drop_first()));
        },
        Msg::Shutdown => {
            assert(accepted_tasks(msgs) =~= Seq::<Task>::empty());
        },
    }
}

/// Every accepted task receives exactly one reply, the replies come in
/// arrival order, and each carries the value of its own task to that
/// task's own slot.
pub proof fn lemma_replies_match_tasks(msgs: Seq<Msg>)
    ensures
        worker_replies(msgs).len() == accepted_tasks(msgs).len(),
        forall|i: int|
            0 <= i < accepted_tasks(msgs).len() ==> worker_replies(msgs)[i]
                == reply_of(accepted_tasks(msgs)[i]),
{
}

/// No cross-talk: when every caller tags its task with a distinct slot,
/// a reply bearing some task's slot is that task's reply — it stands at
/// the task's own position and carries that task's value, never another
/// caller's.
pub proof fn lemma_no_cross_talk(msgs: Seq<Msg>, i: int, j: int)
    requires
        forall|p: int, q: int|
            0 <= p < accepted_tasks(msgs).len() && 0 <= q < accepted_tasks(msgs).len() && p != q
                ==> accepted_tasks(msgs)[p].slot != accepted_tasks(msgs)[q].slot,
        0 <= i < worker_replies(msgs).len(),
        0 <= j < accepted_tasks(msgs).len(),
        worker_replies(msgs)[i].slot == accepted_tasks(msgs)[j].slot,
    ensures
        i == j,
        worker_replies(msgs)[i].value == accepted_tasks(msgs)[j].result,
{
    lemma_replies_match_tasks(msgs);
}

} // verus!
