//! The queues in which the calls from one source wait for each other.
//!
//! A queue is created by the host, outside of any decision made here. So that only one queue is
//! created for a source, the first user who asks for it is told to create it, and the others wait
//! until it is there.

use crate::tasks::{queued_task, run_posted, AsyncRun, JS_TASK_PRIORITY};
use std::collections::HashMap;
use vstd::prelude::*;
use vstd::std_specs::hash::group_hash_axioms;

verus! {

/// The queue of each source that has one, and the sources whose queue is being created.
pub struct FactoryQueues {
    queues: HashMap<usize, Option<isize>>,
}

impl View for FactoryQueues {
    /// A source is mapped to its queue, or to `None` while its queue is being created.
    type V = Map<usize, Option<isize>>;

    closed spec fn view(&self) -> Map<usize, Option<isize>> {
        self.queues@
    }
}

/// The answer to a user who needs the queue of a source.
#[derive(Clone, Copy, Debug, PartialEq, Eq, Structural)]
pub enum NewQueue {
    /// The source has this queue.
    Found(isize),
    /// The source has no queue: let the task runtime create one with these arguments, and hand
    /// it to `queue_created`.
    Create { priority: usize, flag: bool },
    /// Somebody else is creating the queue: give way to other threads, and ask again.
    Wait,
}

/// The queue of `src`, once it has one.
pub open spec fn queue_of(queues: Map<usize, Option<isize>>, src: usize) -> Option<isize> {
    if queues.contains_key(src) {
        queues[src]
    } else {
        None
    }
}

/// The answer to a user who asks for the queue of `src`.
pub open spec fn queue_answer(queues: Map<usize, Option<isize>>, src: usize) -> NewQueue {
    if !queues.contains_key(src) {
        NewQueue::Create { priority: JS_TASK_PRIORITY, flag: false }
    } else {
        match queues[src] {
            Some(queue) => NewQueue::Found(queue),
            None => NewQueue::Wait,
        }
    }
}

/// The queues once somebody has asked for that of `src`: if there is none, it is being created
/// from now on.
pub open spec fn queue_asked(queues: Map<usize, Option<isize>>, src: usize) -> Map<
    usize,
    Option<isize>,
> {
    if queues.contains_key(src) {
        queues
    } else {
        queues.insert(src, None)
    }
}

/// The queues once `queue` was created for `src`: a queue that `src` has already stays.
pub open spec fn queue_added(
    queues: Map<usize, Option<isize>>,
    src: usize,
    queue: isize,
) -> Map<usize, Option<isize>> {
    if queue_of(queues, src) is Some {
        queues
    } else {
        queues.insert(src, Some(queue))
    }
}

/// The queues once the creation of a queue for `src` came to nothing: a queue that `src` has
/// stays.
pub open spec fn queue_given_up(queues: Map<usize, Option<isize>>, src: usize) -> Map<
    usize,
    Option<isize>,
> {
    if queue_of(queues, src) is Some {
        queues
    } else {
        queues.remove(src)
    }
}

/// The queues without that of `src`. A queue that is being created is not there yet.
pub open spec fn queue_dropped(queues: Map<usize, Option<isize>>, src: usize) -> Map<
    usize,
    Option<isize>,
> {
    if queue_of(queues, src) is Some {
        queues.remove(src)
    } else {
        queues
    }
}

impl FactoryQueues {
    /// No queue at all.
    pub fn new() -> (queues: Self)
        ensures
            queues@ == Map::<usize, Option<isize>>::empty(),
    {
        FactoryQueues { queues: HashMap::new() }
    }
}

/// The queue of `src`, where it has one.
pub fn find_queue(queues: &FactoryQueues, src: usize) -> (queue: Option<isize>)
    ensures
        queue == queue_of(queues@, src),
{
    broadcast use group_hash_axioms;

    match queues.queues.get(&src) {
        Some(queue) => *queue,
        None => None,
    }
}

/// Asks for the queue of `src`. The first who asks has to create it.
pub fn new_queue(queues: &mut FactoryQueues, src: usize) -> (answer: NewQueue)
    ensures
        answer == queue_answer(old(queues)@, src),
        final(queues)@ == queue_asked(old(queues)@, src),
{
    broadcast use group_hash_axioms;

    let found: Option<Option<isize>> = match queues.queues.get(&src) {
        Some(queue) => Some(*queue),
        None => None,
    };
    match found {
        Some(Some(queue)) => NewQueue::Found(queue),
        Some(None) => NewQueue::Wait,
        None => {
            queues.queues.insert(src, None);
            NewQueue::Create { priority: JS_TASK_PRIORITY, flag: false }
        },
    }
}

/// Gives `src` the queue that was created for it and returns the queue that `src` has now.
/// Where `src` has a queue already, `queue` is ignored.
pub fn queue_created(queues: &mut FactoryQueues, src: usize, queue: isize) -> (used: isize)
    ensures
        final(queues)@ == queue_added(old(queues)@, src, queue),
        queue_of(final(queues)@, src) == Some(used),
{
    broadcast use group_hash_axioms;

    match find_queue(queues, src) {
        Some(earlier) => earlier,
        None => {
            queues.queues.insert(src, Some(queue));
            queue
        },
    }
}

/// Gives the creation of a queue for `src` up: the next user who asks for it has to create it.
pub fn queue_not_created(queues: &mut FactoryQueues, src: usize)
    ensures
        final(queues)@ == queue_given_up(old(queues)@, src),
{
    broadcast use group_hash_axioms;

    if find_queue(queues, src).is_none() {
        queues.queues.remove(&src);
        assert(queues@ =~= old(queues)@.remove(src));
    }
}

/// Forgets the queue of `src` and returns the queue that the task runtime has to remove.
pub fn remove_queue(queues: &mut FactoryQueues, src: usize) -> (removed: Option<isize>)
    ensures
        final(queues)@ == queue_dropped(old(queues)@, src),
        removed == queue_of(old(queues)@, src),
{
    broadcast use group_hash_axioms;

    let found = find_queue(queues, src);
    if found.is_some() {
        queues.queues.remove(&src);
        assert(queues@ =~= old(queues)@.remove(src));
    }
    found
}

/// What the removal of `queue` returns, where `done` tells whether the task runtime removed it.
pub fn queue_removed(queue: isize, done: bool) -> (removed: Option<isize>)
    ensures
        removed == if done {
            Some(queue)
        } else {
            None
        },
{
    if done {
        Some(queue)
    } else {
        None
    }
}

/// One use of the queues.
pub enum QueueOp {
    /// `new_queue`.
    Asked { src: usize },
    /// `queue_created`.
    Created { src: usize, queue: isize },
    /// `queue_not_created`.
    GivenUp { src: usize },
    /// `remove_queue`.
    Removed { src: usize },
}

/// The queues after one use.
pub open spec fn queue_changed(queues: Map<usize, Option<isize>>, op: QueueOp) -> Map<
    usize,
    Option<isize>,
> {
    match op {
        QueueOp::Asked { src } => queue_asked(queues, src),
        QueueOp::Created { src, queue } => queue_added(queues, src, queue),
        QueueOp::GivenUp { src } => queue_given_up(queues, src),
        QueueOp::Removed { src } => queue_dropped(queues, src),
    }
}

/// The queues after a history of uses.
pub open spec fn queues_after(queues: Map<usize, Option<isize>>, ops: Seq<QueueOp>) -> Map<
    usize,
    Option<isize>,
>
    decreases ops.len(),
{
    if ops.len() == 0 {
        queues
    } else {
        queue_changed(queues_after(queues, ops.drop_last()), ops.last())
    }
}

/// How often somebody was told to create a queue for `src` in a history of uses.
pub open spec fn queues_created(
    queues: Map<usize, Option<isize>>,
    src: usize,
    ops: Seq<QueueOp>,
) -> nat
    decreases ops.len(),
{
    if ops.len() == 0 {
        0
    } else {
        let before = queues_after(queues, ops.drop_last());
        queues_created(queues, src, ops.drop_last()) + if ops.last() == (QueueOp::Asked { src })
            && queue_answer(before, src) is Create {
            1nat
        } else {
            0nat
        }
    }
}

/// However many users ask for the queue of a source, and however their steps interleave, exactly
/// one of them is told to create it where the source has none yet, and nobody where it has one
/// or one is being created; unless the queue is removed or its creation is given up.
pub proof fn law_one_queue_is_created(
    queues: Map<usize, Option<isize>>,
    src: usize,
    ops: Seq<QueueOp>,
)
    requires
        forall|i: int|
            0 <= i < ops.len() ==> #[trigger] ops[i] != (QueueOp::Removed { src }) && ops[i] != (
            QueueOp::GivenUp { src }) && (ops[i] matches QueueOp::Created { src: to, queue }
                ==> to == src ==> queues_after(queues, ops.take(i)).contains_key(src)),
    ensures
        queues_created(queues, src, ops) == if !queues.contains_key(src) && ops.contains(
            QueueOp::Asked { src },
        ) {
            1nat
        } else {
            0nat
        },
        queues_after(queues, ops).contains_key(src) <==> queues.contains_key(src) || ops.contains(
            QueueOp::Asked { src },
        ),
    decreases ops.len(),
{
    let asked = QueueOp::Asked { src };
    if ops.len() > 0 {
        let before = ops.drop_last();
        assert forall|i: int| 0 <= i < before.len() implies #[trigger] before[i] != (
        QueueOp::Removed { src }) && before[i] != (QueueOp::GivenUp { src }) && (
        before[i] matches QueueOp::Created { src: to, queue } ==> to == src ==> queues_after(
            queues,
            before.take(i),
        ).contains_key(src)) by {
            assert(before[i] == ops[i]);
            assert(before.take(i) =~= ops.take(i));
        }
        law_one_queue_is_created(queues, src, before);
        assert(ops.last() == ops[ops.len() - 1]);
        assert(ops.take(ops.len() - 1) =~= before);
        if before.contains(asked) {
            let i = before.index_of(asked);
            assert(ops[i] == asked);
        }
        if ops.contains(asked) && ops.last() != asked {
            let i = ops.index_of(asked);
            assert(before[i] == asked);
        }
    }
}

/// A source that has a queue keeps that very queue, whatever is asked for, created or removed
/// meanwhile, until its own queue is removed: all who ask get it. So the calls from one source
/// all take their turns in one queue.
pub proof fn law_source_keeps_its_queue(
    queues: Map<usize, Option<isize>>,
    src: usize,
    queue: isize,
    ops: Seq<QueueOp>,
)
    requires
        queue_of(queues, src) == Some(queue),
        forall|i: int| 0 <= i < ops.len() ==> #[trigger] ops[i] != (QueueOp::Removed { src }),
    ensures
        queue_of(queues_after(queues, ops), src) == Some(queue),
        queue_answer(queues_after(queues, ops), src) == NewQueue::Found(queue),
        run_posted(queues_after(queues, ops), Some(src)) == AsyncRun::Cast(queued_task(queue)),
    decreases ops.len(),
{
    if ops.len() > 0 {
        let before = ops.drop_last();
        assert forall|i: int| 0 <= i < before.len() implies #[trigger] before[i] != (
        QueueOp::Removed { src }) by {
            assert(before[i] == ops[i]);
        }
        law_source_keeps_its_queue(queues, src, queue, before);
        assert(ops.last() == ops[ops.len() - 1]);
    }
}

/// What a user who needs the queue of a source is at.
pub enum QueueUser {
    /// The user asks for the queue, for the first time or again.
    Asking,
    /// The user was told to create the queue.
    Creating,
    /// The user has this queue.
    Has { queue: isize },
}

/// Users who need the queue of one source at once.
pub struct QueueRace {
    /// The queues.
    pub queues: Map<usize, Option<isize>>,
    /// What each user is at.
    pub users: Seq<QueueUser>,
    /// How often one of them was told to create the queue.
    pub created: nat,
}

/// One step of one of the users.
pub enum QueueMove {
    /// The user `who` asks for the queue, or hands over the queue `fresh` that they created.
    User { who: int, fresh: isize },
    /// Somebody is busy with another source.
    Other(QueueOp),
}

/// The source that a use is about.
pub open spec fn op_source(op: QueueOp) -> usize {
    match op {
        QueueOp::Asked { src } => src,
        QueueOp::Created { src, queue } => src,
        QueueOp::GivenUp { src } => src,
        QueueOp::Removed { src } => src,
    }
}

/// The users after one step.
pub open spec fn queue_race_moved(race: QueueRace, src: usize, step: QueueMove) -> QueueRace {
    match step {
        QueueMove::User { who, fresh } => match race.users[who] {
            QueueUser::Asking => {
                let queues = queue_asked(race.queues, src);
                match queue_answer(race.queues, src) {
                    NewQueue::Found(queue) => QueueRace {
                        queues,
                        users: race.users.update(who, QueueUser::Has { queue }),
                        ..race
                    },
                    NewQueue::Create { .. } => QueueRace {
                        queues,
                        users: race.users.update(who, QueueUser::Creating),
                        created: race.created + 1,
                    },
                    NewQueue::Wait => QueueRace { queues, ..race },
                }
            },
            QueueUser::Creating => {
                let queues = queue_added(race.queues, src, fresh);
                QueueRace {
                    queues,
                    users: race.users.update(
                        who,
                        QueueUser::Has { queue: queue_of(queues, src)->0 },
                    ),
                    ..race
                }
            },
            QueueUser::Has { queue } => race,
        },
        QueueMove::Other(op) => QueueRace { queues: queue_changed(race.queues, op), ..race },
    }
}

/// `count` users who all start to ask, after a number of steps in whatever order.
pub open spec fn queue_race_after(
    queues: Map<usize, Option<isize>>,
    src: usize,
    count: nat,
    steps: Seq<QueueMove>,
) -> QueueRace
    decreases steps.len(),
{
    if steps.len() == 0 {
        QueueRace { queues, users: Seq::new(count, |i: int| QueueUser::Asking), created: 0 }
    } else {
        queue_race_moved(
            queue_race_after(queues, src, count, steps.drop_last()),
            src,
            steps.last(),
        )
    }
}

/// What holds of users who need the queue of a source that had none.
spec fn queue_race_state(race: QueueRace, src: usize, count: nat) -> bool {
    let users = race.users;
    &&& users.len() == count
    &&& if !race.queues.contains_key(src) {
        &&& race.created == 0
        &&& forall|i: int| 0 <= i < count ==> (#[trigger] users[i]) is Asking
    } else {
        &&& race.created == 1
        &&& match race.queues[src] {
            None => {
                &&& forall|i: int| 0 <= i < count ==> (#[trigger] users[i]) !is Has
                &&& forall|i: int, j: int|
                    0 <= i < count && 0 <= j < count && (#[trigger] users[i]) is Creating && (
                    #[trigger] users[j]) is Creating ==> i == j
            },
            Some(ready) => forall|i: int|
                0 <= i < count ==> match #[trigger] users[i] {
                    QueueUser::Asking => true,
                    QueueUser::Creating => false,
                    QueueUser::Has { queue } => queue == ready,
                },
        }
    }
}

/// However many users need the queue of a source that has none, and however their steps
/// interleave, one queue is created at most, exactly one once a user has it, and all users who
/// have a queue have that one, which is then the queue of the source.
pub proof fn law_racing_users_share_one_queue(
    queues: Map<usize, Option<isize>>,
    src: usize,
    count: nat,
    steps: Seq<QueueMove>,
)
    requires
        !queues.contains_key(src),
        forall|i: int|
            0 <= i < steps.len() ==> match #[trigger] steps[i] {
                QueueMove::User { who, fresh } => 0 <= who < count,
                QueueMove::Other(op) => op_source(op) != src,
            },
    ensures
        ({
            let race = queue_race_after(queues, src, count, steps);
            &&& race.created <= 1
            &&& forall|i: int|
                0 <= i < count ==> ((#[trigger] race.users[i]) matches QueueUser::Has { queue }
                    ==> race.created == 1 && queue_of(race.queues, src) == Some(queue))
        }),
{
    lemma_queue_race(queues, src, count, steps);
}

proof fn lemma_queue_race(
    queues: Map<usize, Option<isize>>,
    src: usize,
    count: nat,
    steps: Seq<QueueMove>,
)
    requires
        !queues.contains_key(src),
        forall|i: int|
            0 <= i < steps.len() ==> match #[trigger] steps[i] {
                QueueMove::User { who, fresh } => 0 <= who < count,
                QueueMove::Other(op) => op_source(op) != src,
            },
    ensures
        queue_race_state(queue_race_after(queues, src, count, steps), src, count),
    decreases steps.len(),
{
    if steps.len() > 0 {
        let before = steps.drop_last();
        assert forall|i: int| 0 <= i < before.len() implies match #[trigger] before[i] {
            QueueMove::User { who, fresh } => 0 <= who < count,
            QueueMove::Other(op) => op_source(op) != src,
        } by {
            assert(before[i] == steps[i]);
        }
        lemma_queue_race(queues, src, count, before);
        let race = queue_race_after(queues, src, count, before);
        let next = queue_race_after(queues, src, count, steps);
        assert(steps.last() == steps[steps.len() - 1]);
        if let QueueMove::User { who, fresh } = steps.last() {
            assert forall|i: int| 0 <= i < count && i != who implies #[trigger] next.users[i]
                == race.users[i] by {}
        }
    }
}

/// A created queue is found by the source that it was created for, and a removed one is not
/// found any more. Other sources notice neither.
pub proof fn law_queue_is_found_until_removed(
    queues: Map<usize, Option<isize>>,
    src: usize,
    queue: isize,
    other: usize,
)
    requires
        other != src,
    ensures
        queue_of(queues, src) is None ==> queue_of(queue_added(queues, src, queue), src) == Some(
            queue,
        ),
        queue_of(queue_dropped(queues, src), src) is None,
        queue_of(queues, src) is Some ==> queue_answer(queue_dropped(queues, src), src) is Create,
        queue_answer(queue_asked(queues, src), other) == queue_answer(queues, other),
        queue_answer(queue_added(queues, src, queue), other) == queue_answer(queues, other),
        queue_answer(queue_given_up(queues, src), other) == queue_answer(queues, other),
        queue_answer(queue_dropped(queues, src), other) == queue_answer(queues, other),
        !queues.contains_key(src) ==> queue_dropped(
            queue_added(queue_asked(queues, src), src, queue),
            src,
        ) == queues,
        !queues.contains_key(src) ==> queue_given_up(queue_asked(queues, src), src) == queues,
{
    if !queues.contains_key(src) {
        let asked = queue_asked(queues, src);
        assert(asked.remove(src) =~= queues);
        assert(queue_added(asked, src, queue).remove(src) =~= queues);
    }
}

/// What a user who asks for the queue of a source is told depends on that source alone: its queue
/// where it has one, to wait while it is being created, and else to create it, with the priority
/// of all tasks and the flag down.
pub proof fn law_answer_tells_the_state_of_the_source(
    queues: Map<usize, Option<isize>>,
    src: usize,
)
    ensures
        queues.contains_key(src) && queues[src] is Some ==> queue_answer(queues, src)
            == NewQueue::Found(queues[src]->0) && queue_of(queues, src) == queues[src],
        queues.contains_key(src) && queues[src] is None ==> queue_answer(queues, src)
            == NewQueue::Wait && queue_of(queues, src) is None,
        !queues.contains_key(src) ==> queue_answer(queues, src) == (NewQueue::Create {
            priority: 100,
            flag: false,
        }) && queue_of(queues, src) is None,
{
}

/// To ask for a queue changes nothing but that a source without one is marked as being served.
pub proof fn law_asking_reserves_the_source(queues: Map<usize, Option<isize>>, src: usize)
    ensures
        queues.contains_key(src) ==> queue_asked(queues, src) == queues,
        !queues.contains_key(src) ==> queue_asked(queues, src) == queues.insert(src, None),
{
}

/// A created queue becomes that of its source, unless the source has one; a creation that came to
/// nothing leaves the source as it was before anybody asked, unless it has a queue.
pub proof fn law_first_created_queue_counts(
    queues: Map<usize, Option<isize>>,
    src: usize,
    queue: isize,
)
    ensures
        queues.contains_key(src) && queues[src] is Some ==> queue_added(queues, src, queue)
            == queues && queue_given_up(queues, src) == queues,
        !(queues.contains_key(src) && queues[src] is Some) ==> queue_added(queues, src, queue)
            == queues.insert(src, Some(queue)) && queue_given_up(queues, src) == queues.remove(src),
{
}

/// A removed queue is gone, and only that one; a source whose queue is still being created is not
/// disturbed.
pub proof fn law_only_a_ready_queue_is_removed(queues: Map<usize, Option<isize>>, src: usize)
    ensures
        queues.contains_key(src) && queues[src] is Some ==> queue_dropped(queues, src)
            == queues.remove(src),
        !(queues.contains_key(src) && queues[src] is Some) ==> queue_dropped(queues, src)
            == queues,
{
}

} // verus!
