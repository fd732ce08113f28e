//! Acting on a machine that a synchronous task has blocked: setting a global variable,
//! answering the blocking call, or throwing an error into it.
//!
//! Each of these is posted as a task to the machine's own queue. The task acts only once the
//! machine is found blocked; until then it posts itself again.

use crate::status::{JSStatus, StatusSwitch};
use crate::tasks::{JsTask, TaskType};
use vstd::prelude::*;

verus! {

/// Why a global variable could not be set during a blocking call.
#[derive(Debug, Clone)]
pub enum BlockError {
    /// A reason that is not known.
    Unknow(String),
    /// The value could not be built, for this reason.
    NewGlobalVar(String),
    /// The variable of this name could not be set.
    SetGlobalVar(String),
}

/// How a blocked machine is woken up.
#[derive(Debug, Clone)]
pub enum WakeJob {
    /// With an answer.
    Reply,
    /// With an error of this reason.
    Throw { reason: String },
}

/// What is done to a blocked machine.
#[derive(Debug, Clone)]
pub enum BlockJob {
    /// Set the global variable of this name.
    SetGlobalVar { name: String },
    /// Wake it up.
    Wake(WakeJob),
}

/// Where a task on a blocked machine stands, and what the host does next.
#[derive(Debug)]
pub enum BlockTask {
    /// Ask whether the machine's status is `WaitBlock`, as `status_asked` says; the reply is
    /// `Answered`.
    CheckWaitBlock(BlockJob),
    /// Ask whether the machine's status is `SingleTask`, as `status_asked` says; the reply is
    /// `Answered`.
    CheckSingleTask(BlockJob),
    /// Ask whether the machine's status is `MultiTask`, as `status_asked` says; the reply is
    /// `Answered`.
    CheckMultiTask { name: String },
    /// Build the value of the variable; the reply is `Built`.
    BuildVar { name: String },
    /// Set the variable to the value that was built; the reply is `Answered`.
    StoreVar { name: String },
    /// Hand this result to the caller's next operation. The task is over.
    Next(Result<(), BlockError>),
    /// Switch the machine's status as `status_switch` says; the reply is `Switched`, with the
    /// status that stood before.
    Switch(WakeJob),
    /// Wake the machine up, with an error or without; the reply is `Performed`.
    Wakeup { error: bool, job: WakeJob },
    /// Build the answer; the reply is `Performed`.
    BuildResult,
    /// Build an error of this reason; the reply is `Performed`.
    NewError { reason: String },
    /// Let the machine go on; the reply is `Performed`.
    Continue,
    /// The machine goes on. The task is over.
    Done,
    /// Post the job once more. The task is over.
    Repost(BlockJob),
}

/// What the host replies to a task on a blocked machine.
#[derive(Debug)]
pub enum BlockEvent {
    /// The answer to a question.
    Answered(bool),
    /// The status that stood before a switch.
    Switched(JSStatus),
    /// Whether a value was built, or why not.
    Built(Result<(), String>),
    /// The action was carried out.
    Performed,
}

/// The stage after `task`, where the host replies with `event`. A reply that does not belong to
/// the stage changes nothing.
pub open spec fn block_following(task: BlockTask, event: BlockEvent) -> BlockTask {
    match (task, event) {
        (BlockTask::CheckWaitBlock(job), BlockEvent::Answered(yes)) => if yes {
            BlockTask::Repost(job)
        } else {
            BlockTask::CheckSingleTask(job)
        },
        (BlockTask::CheckSingleTask(job), BlockEvent::Answered(yes)) => if yes {
            BlockTask::Repost(job)
        } else {
            match job {
                BlockJob::SetGlobalVar { name } => BlockTask::CheckMultiTask { name },
                BlockJob::Wake(job) => BlockTask::Switch(job),
            }
        },
        (BlockTask::CheckMultiTask { name }, BlockEvent::Answered(yes)) => if yes {
            BlockTask::BuildVar { name }
        } else {
            BlockTask::Repost(BlockJob::SetGlobalVar { name })
        },
        (BlockTask::BuildVar { name }, BlockEvent::Built(built)) => match built {
            Ok(_) => BlockTask::StoreVar { name },
            Err(reason) => BlockTask::Next(Err(BlockError::NewGlobalVar(reason))),
        },
        (BlockTask::StoreVar { name }, BlockEvent::Answered(stored)) => if stored {
            BlockTask::Next(Ok(()))
        } else {
            BlockTask::Next(Err(BlockError::SetGlobalVar(name)))
        },
        (BlockTask::Switch(job), BlockEvent::Switched(last)) => if last == JSStatus::MultiTask {
            BlockTask::Wakeup { error: job is Throw, job }
        } else {
            BlockTask::Repost(BlockJob::Wake(job))
        },
        (BlockTask::Wakeup { error, job }, BlockEvent::Performed) => match job {
            WakeJob::Reply => BlockTask::BuildResult,
            WakeJob::Throw { reason } => BlockTask::NewError { reason },
        },
        (BlockTask::BuildResult, BlockEvent::Performed) => BlockTask::Continue,
        (BlockTask::NewError { reason }, BlockEvent::Performed) => BlockTask::Continue,
        (BlockTask::Continue, BlockEvent::Performed) => BlockTask::Done,
        _ => task,
    }
}

/// The status that the host is asked about, at a stage that asks for one.
pub open spec fn block_asks(task: BlockTask) -> Option<JSStatus> {
    match task {
        BlockTask::CheckWaitBlock(_) => Some(JSStatus::WaitBlock),
        BlockTask::CheckSingleTask(_) => Some(JSStatus::SingleTask),
        BlockTask::CheckMultiTask { .. } => Some(JSStatus::MultiTask),
        _ => None,
    }
}

/// The switch that the host performs, at a stage that switches.
pub open spec fn block_switches(task: BlockTask) -> Option<StatusSwitch> {
    match task {
        BlockTask::Switch(_) => Some(
            StatusSwitch { from: JSStatus::MultiTask, to: JSStatus::SingleTask },
        ),
        _ => None,
    }
}

impl BlockTask {
    /// The status that the host is asked about, at a stage that asks for one.
    pub fn status_asked(&self) -> (status: Option<JSStatus>)
        ensures
            status == block_asks(*self),
    {
        match self {
            BlockTask::CheckWaitBlock(_) => Some(JSStatus::WaitBlock),
            BlockTask::CheckSingleTask(_) => Some(JSStatus::SingleTask),
            BlockTask::CheckMultiTask { .. } => Some(JSStatus::MultiTask),
            _ => None,
        }
    }

    /// The switch that the host performs, at a stage that switches.
    pub fn status_switch(&self) -> (switch: Option<StatusSwitch>)
        ensures
            switch == block_switches(*self),
    {
        match self {
            BlockTask::Switch(_) => Some(
                StatusSwitch { from: JSStatus::MultiTask, to: JSStatus::SingleTask },
            ),
            _ => None,
        }
    }

    /// The task that does `job`, at its first stage.
    pub fn start(job: BlockJob) -> (task: BlockTask)
        ensures
            task == BlockTask::CheckWaitBlock(job),
    {
        BlockTask::CheckWaitBlock(job)
    }

    /// Takes a task one stage further, with the host's reply to its present stage.
    pub fn next(self, event: BlockEvent) -> (task: BlockTask)
        ensures
            task == block_following(self, event),
    {
        match (self, event) {
            (BlockTask::CheckWaitBlock(job), BlockEvent::Answered(yes)) => if yes {
                BlockTask::Repost(job)
            } else {
                BlockTask::CheckSingleTask(job)
            },
            (BlockTask::CheckSingleTask(job), BlockEvent::Answered(yes)) => if yes {
                BlockTask::Repost(job)
            } else {
                match job {
                    BlockJob::SetGlobalVar { name } => BlockTask::CheckMultiTask { name },
                    BlockJob::Wake(job) => BlockTask::Switch(job),
                }
            },
            (BlockTask::CheckMultiTask { name }, BlockEvent::Answered(yes)) => if yes {
                BlockTask::BuildVar { name }
            } else {
                BlockTask::Repost(BlockJob::SetGlobalVar { name })
            },
            (BlockTask::BuildVar { name }, BlockEvent::Built(built)) => match built {
                Ok(_) => BlockTask::StoreVar { name },
                Err(reason) => BlockTask::Next(Err(BlockError::NewGlobalVar(reason))),
            },
            (BlockTask::StoreVar { name }, BlockEvent::Answered(stored)) => if stored {
                BlockTask::Next(Ok(()))
            } else {
                BlockTask::Next(Err(BlockError::SetGlobalVar(name)))
            },
            (BlockTask::Switch(job), BlockEvent::Switched(last)) => if last
                == JSStatus::MultiTask {
                let error: bool = match &job {
                    WakeJob::Reply => false,
                    WakeJob::Throw { .. } => true,
                };
                BlockTask::Wakeup { error, job }
            } else {
                BlockTask::Repost(BlockJob::Wake(job))
            },
            (BlockTask::Wakeup { error: _, job }, BlockEvent::Performed) => match job {
                WakeJob::Reply => BlockTask::BuildResult,
                WakeJob::Throw { reason } => BlockTask::NewError { reason },
            },
            (BlockTask::BuildResult, BlockEvent::Performed) => BlockTask::Continue,
            (BlockTask::NewError { reason: _ }, BlockEvent::Performed) => BlockTask::Continue,
            (BlockTask::Continue, BlockEvent::Performed) => BlockTask::Done,
            (task, _) => task,
        }
    }
}

/// How a task gets into the queue of its machine, and what the host does next.
#[derive(Clone, Copy, Debug, PartialEq, Eq)]
pub enum PostStep {
    /// Post the task.
    Cast(JsTask),
    /// Count one more task in the machine's queue.
    AddQueueLen { queue: isize },
    /// Unlock the queue; the reply tells whether that worked.
    Unlock { queue: isize },
    /// The task is posted.
    Posted,
    /// The task is posted, and the host reports that the queue could not be unlocked.
    UnlockFailed,
}

/// The step after `step`, where `ok` is the reply to `Unlock`.
pub open spec fn post_following(step: PostStep, ok: bool) -> PostStep {
    match step {
        PostStep::Cast(task) => match task.queue {
            Some(queue) => PostStep::AddQueueLen { queue },
            None => PostStep::Posted,
        },
        PostStep::AddQueueLen { queue } => PostStep::Unlock { queue },
        PostStep::Unlock { queue } => if ok {
            PostStep::Posted
        } else {
            PostStep::UnlockFailed
        },
        PostStep::Posted => step,
        PostStep::UnlockFailed => step,
    }
}

/// The next step of posting a task. `ok` is the reply to `Unlock`; after any other step it is
/// not looked at.
pub fn post_next(step: PostStep, ok: bool) -> (next: PostStep)
    ensures
        next == post_following(step, ok),
{
    match step {
        PostStep::Cast(task) => match task.queue {
            Some(queue) => PostStep::AddQueueLen { queue },
            None => PostStep::Posted,
        },
        PostStep::AddQueueLen { queue } => PostStep::Unlock { queue },
        PostStep::Unlock { queue: _ } => if ok {
            PostStep::Posted
        } else {
            PostStep::UnlockFailed
        },
        PostStep::Posted => PostStep::Posted,
        PostStep::UnlockFailed => PostStep::UnlockFailed,
    }
}

/// A job on a blocked machine that is on its way.
#[derive(Debug)]
pub struct BlockCall {
    /// How it is posted.
    pub post: PostStep,
    /// What runs once the task runtime reaches it.
    pub task: BlockTask,
}

/// A job that is posted to the machine whose queue is `queue`.
pub open spec fn job_posted(job: BlockJob, queue: isize) -> BlockCall {
    BlockCall {
        post: PostStep::Cast(
            JsTask { kind: TaskType::Sync(false), priority: 0, queue: Some(queue) },
        ),
        task: BlockTask::CheckWaitBlock(job),
    }
}

/// Posts `job` to the machine whose queue is `queue`, for the first time or again.
pub fn post_job(job: BlockJob, queue: isize) -> (call: BlockCall)
    ensures
        call == job_posted(job, queue),
{
    BlockCall {
        post: PostStep::Cast(
            JsTask { kind: TaskType::Sync(false), priority: 0, queue: Some(queue) },
        ),
        task: BlockTask::start(job),
    }
}

/// Sets the global variable `name` of a machine during a blocking call, and then goes on with
/// the caller's next operation.
pub fn block_set_global_var(name: String, queue: isize) -> (call: BlockCall)
    ensures
        call == job_posted(BlockJob::SetGlobalVar { name }, queue),
{
    post_job(BlockJob::SetGlobalVar { name }, queue)
}

/// Answers a blocking call.
pub fn block_reply(queue: isize) -> (call: BlockCall)
    ensures
        call == job_posted(BlockJob::Wake(WakeJob::Reply), queue),
{
    post_job(BlockJob::Wake(WakeJob::Reply), queue)
}

/// Throws an error into a blocking call.
pub fn block_throw(reason: String, queue: isize) -> (call: BlockCall)
    ensures
        call == job_posted(BlockJob::Wake(WakeJob::Throw { reason }), queue),
{
    post_job(BlockJob::Wake(WakeJob::Throw { reason }), queue)
}

/// Whether `event` is a reply to the stage of `task`.
pub open spec fn fits(task: BlockTask, event: BlockEvent) -> bool {
    match task {
        BlockTask::CheckWaitBlock(_) => event is Answered,
        BlockTask::CheckSingleTask(_) => event is Answered,
        BlockTask::CheckMultiTask { .. } => event is Answered,
        BlockTask::BuildVar { .. } => event is Built,
        BlockTask::StoreVar { .. } => event is Answered,
        BlockTask::Switch(_) => event is Switched,
        BlockTask::Wakeup { .. } => event is Performed,
        BlockTask::BuildResult => event is Performed,
        BlockTask::NewError { .. } => event is Performed,
        BlockTask::Continue => event is Performed,
        BlockTask::Next(_) => false,
        BlockTask::Done => false,
        BlockTask::Repost(_) => false,
    }
}

/// How many replies a task takes at most.
pub open spec fn replies_left(task: BlockTask) -> nat {
    match task {
        BlockTask::CheckWaitBlock(_) => 6,
        BlockTask::CheckSingleTask(_) => 5,
        BlockTask::Switch(_) => 4,
        BlockTask::CheckMultiTask { .. } => 3,
        BlockTask::Wakeup { .. } => 3,
        BlockTask::BuildVar { .. } => 2,
        BlockTask::BuildResult => 2,
        BlockTask::NewError { .. } => 2,
        BlockTask::StoreVar { .. } => 1,
        BlockTask::Continue => 1,
        BlockTask::Next(_) => 0,
        BlockTask::Done => 0,
        BlockTask::Repost(_) => 0,
    }
}

/// Every reply that fits brings a task nearer to its end; a task that no reply fits is over.
pub proof fn law_block_task_ends(task: BlockTask, event: BlockEvent)
    ensures
        fits(task, event) ==> replies_left(block_following(task, event)) < replies_left(task),
        !fits(task, event) ==> block_following(task, event) == task,
        replies_left(task) == 0 <==> task is Next || task is Done || task is Repost,
{
}

/// A machine is acted on only after it was found blocked: it is woken up only where the switch
/// found `MultiTask`, and a variable is built only where the machine was said to be in
/// `MultiTask`. A machine that is about to be blocked, or that runs a single task, leads to a
/// new post.
pub proof fn law_only_blocked_machines_are_touched(task: BlockTask, event: BlockEvent)
    requires
        fits(task, event),
    ensures
        block_following(task, event) is Wakeup ==> task is Switch && event
            == BlockEvent::Switched(JSStatus::MultiTask),
        block_following(task, event) is BuildVar ==> task is CheckMultiTask && event
            == BlockEvent::Answered(true),
        block_following(task, event) is StoreVar ==> task is BuildVar,
        block_following(task, event) is Continue ==> task is BuildResult || task is NewError,
        (task is CheckWaitBlock || task is CheckSingleTask) && event == BlockEvent::Answered(true)
            ==> block_following(task, event) is Repost,
{
}

/// A task after the given replies.
pub open spec fn block_after(job: BlockJob, events: Seq<BlockEvent>) -> BlockTask
    decreases events.len(),
{
    if events.len() == 0 {
        BlockTask::CheckWaitBlock(job)
    } else {
        block_following(block_after(job, events.drop_last()), events.last())
    }
}

/// Whether a task at this stage can be one that does `job`.
pub open spec fn works_on(task: BlockTask, job: BlockJob) -> bool {
    match task {
        BlockTask::CheckWaitBlock(of) => of == job,
        BlockTask::CheckSingleTask(of) => of == job,
        BlockTask::Repost(of) => of == job,
        BlockTask::CheckMultiTask { name } => job == (BlockJob::SetGlobalVar { name }),
        BlockTask::BuildVar { name } => job == (BlockJob::SetGlobalVar { name }),
        BlockTask::StoreVar { name } => job == (BlockJob::SetGlobalVar { name }),
        BlockTask::Next(result) => job matches BlockJob::SetGlobalVar { name } && match result {
            Ok(_) => true,
            Err(BlockError::NewGlobalVar(_)) => true,
            Err(BlockError::SetGlobalVar(failed)) => failed == name,
            Err(BlockError::Unknow(_)) => false,
        },
        BlockTask::Switch(of) => job == BlockJob::Wake(of),
        BlockTask::Wakeup { error, job: of } => job == BlockJob::Wake(of) && error == (of is Throw),
        BlockTask::BuildResult => job == BlockJob::Wake(WakeJob::Reply),
        BlockTask::NewError { reason } => job == BlockJob::Wake(WakeJob::Throw { reason }),
        BlockTask::Continue => job is Wake,
        BlockTask::Done => job is Wake,
    }
}

/// Whatever the host replies, a task sticks to its job: it posts the very same job again, it
/// throws the very reason it was given, and it ends with a result that belongs to the job.
pub proof fn law_block_task_sticks_to_its_job(job: BlockJob, events: Seq<BlockEvent>)
    ensures
        works_on(block_after(job, events), job),
    decreases events.len(),
{
    if events.len() > 0 {
        law_block_task_sticks_to_its_job(job, events.drop_last());
    }
}

/// A job that is posted again starts from the same stage as before, in the same way.
pub proof fn law_repost_starts_over(job: BlockJob, queue: isize, events: Seq<BlockEvent>)
    ensures
        block_after(job, events) matches BlockTask::Repost(again) ==> job_posted(again, queue)
            == job_posted(job, queue),
{
    law_block_task_sticks_to_its_job(job, events);
}

/// A posted task goes through casting, counting and unlocking, in this order, on one queue; the
/// queue is unlocked last.
pub proof fn law_posting_order(job: BlockJob, queue: isize, ok: bool, unlocked: bool)
    ensures
        ({
            let cast = job_posted(job, queue).post;
            let count = post_following(cast, ok);
            let unlock = post_following(count, ok);
            &&& cast matches PostStep::Cast(task) && task.queue == Some(queue)
            &&& count == (PostStep::AddQueueLen { queue })
            &&& unlock == (PostStep::Unlock { queue })
            &&& post_following(unlock, unlocked) == if unlocked {
                PostStep::Posted
            } else {
                PostStep::UnlockFailed
            }
        }),
{
}

/// A machine and the requests to wake it up that are pending on it at once.
pub struct Wakers {
    /// The machine's status.
    pub status: JSStatus,
    /// Whether the machine has been blocked.
    pub blocked: bool,
    /// The task of each request.
    pub tasks: Seq<BlockTask>,
}

/// One step of one of those involved.
pub enum WakerMove {
    /// The task of the request `who` goes one stage further, or is posted anew.
    Task { who: int },
    /// The machine changes its status.
    Machine { to: JSStatus },
}

/// What the host replies at a stage of a task on a machine with this status.
pub open spec fn status_reply(status: JSStatus, task: BlockTask) -> BlockEvent {
    match block_asks(task) {
        Some(asked) => BlockEvent::Answered(status == asked),
        None => match block_switches(task) {
            Some(_) => BlockEvent::Switched(status),
            None => BlockEvent::Performed,
        },
    }
}

/// The machine's status after the host has acted at a stage of a task.
pub open spec fn status_after(status: JSStatus, task: BlockTask) -> JSStatus {
    match block_switches(task) {
        Some(switch) => if status == switch.from {
            switch.to
        } else {
            status
        },
        None => status,
    }
}

/// The task of a request after the host has acted on it; a task that ended with a new post of
/// its job starts over.
pub open spec fn task_moved(status: JSStatus, task: BlockTask) -> BlockTask {
    match task {
        BlockTask::Repost(job) => BlockTask::CheckWaitBlock(job),
        _ => block_following(task, status_reply(status, task)),
    }
}

/// Requests to wake a machine up that are all just posted.
pub open spec fn wakers_start(status: JSStatus, jobs: Seq<WakeJob>) -> Wakers {
    Wakers {
        status,
        blocked: status == JSStatus::MultiTask,
        tasks: Seq::new(jobs.len(), |i: int| BlockTask::CheckWaitBlock(BlockJob::Wake(jobs[i]))),
    }
}

/// The machine and the requests after one step.
pub open spec fn wakers_moved(wakers: Wakers, step: WakerMove) -> Wakers {
    match step {
        WakerMove::Task { who } => Wakers {
            status: status_after(wakers.status, wakers.tasks[who]),
            tasks: wakers.tasks.update(who, task_moved(wakers.status, wakers.tasks[who])),
            ..wakers
        },
        WakerMove::Machine { to } => Wakers {
            status: to,
            blocked: wakers.blocked || to == JSStatus::MultiTask,
            ..wakers
        },
    }
}

/// The machine and the requests after a number of steps, in whatever order they are taken.
pub open spec fn wakers_after(status: JSStatus, jobs: Seq<WakeJob>, steps: Seq<WakerMove>) -> Wakers
    decreases steps.len(),
{
    if steps.len() == 0 {
        wakers_start(status, jobs)
    } else {
        wakers_moved(wakers_after(status, jobs, steps.drop_last()), steps.last())
    }
}

/// Whether a step is one of `count` requests, or one of a machine that is blocked once and then
/// stays blocked until it is woken up.
pub open spec fn blocks_once(wakers: Wakers, count: nat, step: WakerMove) -> bool {
    match step {
        WakerMove::Task { who } => 0 <= who < count,
        WakerMove::Machine { to } => wakers.status != JSStatus::MultiTask && (to
            == JSStatus::MultiTask ==> !wakers.blocked),
    }
}

/// Whether all steps are of that kind.
pub open spec fn all_block_once(
    status: JSStatus,
    jobs: Seq<WakeJob>,
    steps: Seq<WakerMove>,
) -> bool {
    forall|i: int|
        0 <= i < steps.len() ==> blocks_once(
            wakers_after(status, jobs, steps.take(i)),
            jobs.len(),
            #[trigger] steps[i],
        )
}

/// Whether a task has got past its switch: it is the one that wakes the machine up.
pub open spec fn past_switch(task: BlockTask) -> bool {
    match task {
        BlockTask::Wakeup { .. } => true,
        BlockTask::BuildResult => true,
        BlockTask::NewError { .. } => true,
        BlockTask::Continue => true,
        BlockTask::Done => true,
        _ => false,
    }
}

/// Whether a machine that was blocked is so no more.
pub open spec fn woken(wakers: Wakers) -> bool {
    wakers.blocked && wakers.status != JSStatus::MultiTask
}

/// What holds of a machine that is blocked once and of the requests that are pending on it.
/// `from_start` tells whether the machine was blocked when they were posted.
spec fn wakers_state(wakers: Wakers, jobs: Seq<WakeJob>, from_start: bool) -> bool {
    let tasks = wakers.tasks;
    &&& tasks.len() == jobs.len()
    &&& wakers.status == JSStatus::MultiTask ==> wakers.blocked
    &&& from_start ==> wakers.blocked
    &&& forall|i: int|
        0 <= i < jobs.len() ==> works_on(#[trigger] tasks[i], BlockJob::Wake(jobs[i]))
    &&& forall|i: int, j: int|
        0 <= i < j < jobs.len() ==> !(past_switch(#[trigger] tasks[i]) && past_switch(
            #[trigger] tasks[j],
        ))
    &&& !woken(wakers) ==> forall|i: int|
        0 <= i < jobs.len() ==> !past_switch(#[trigger] tasks[i]) && (from_start ==> tasks[i]
            !is Repost)
    &&& woken(wakers) ==> exists|i: int| 0 <= i < jobs.len() && past_switch(#[trigger] tasks[i])
}

proof fn lemma_wakers_step(wakers: Wakers, jobs: Seq<WakeJob>, from_start: bool, step: WakerMove)
    requires
        wakers_state(wakers, jobs, from_start),
        blocks_once(wakers, jobs.len(), step),
    ensures
        wakers_state(wakers_moved(wakers, step), jobs, from_start),
{
    let next = wakers_moved(wakers, step);
    if let WakerMove::Task { who } = step {
        let task = wakers.tasks[who];
        assert(works_on(task, BlockJob::Wake(jobs[who])));
        assert forall|i: int| 0 <= i < jobs.len() && i != who implies #[trigger] next.tasks[i]
            == wakers.tasks[i] by {}
        if woken(wakers) {
            let one = choose|i: int| 0 <= i < jobs.len() && past_switch(#[trigger] wakers.tasks[i]);
            assert(past_switch(next.tasks[one]));
        } else if woken(next) {
            assert(past_switch(next.tasks[who]));
        }
    }
}

proof fn lemma_wakers(status: JSStatus, jobs: Seq<WakeJob>, steps: Seq<WakerMove>)
    requires
        all_block_once(status, jobs, steps),
    ensures
        wakers_state(
            wakers_after(status, jobs, steps),
            jobs,
            status == JSStatus::MultiTask,
        ),
    decreases steps.len(),
{
    if steps.len() > 0 {
        let before = steps.drop_last();
        assert forall|i: int| 0 <= i < before.len() implies blocks_once(
            wakers_after(status, jobs, before.take(i)),
            jobs.len(),
            #[trigger] before[i],
        ) by {
            assert(before[i] == steps[i]);
            assert(before.take(i) =~= steps.take(i));
        }
        lemma_wakers(status, jobs, before);
        assert(steps.take(steps.len() - 1) =~= before);
        assert(steps.last() == steps[steps.len() - 1]);
        lemma_wakers_step(
            wakers_after(status, jobs, before),
            jobs,
            status == JSStatus::MultiTask,
            steps.last(),
        );
    }
}

/// Of two or more requests that are pending on a machine that is blocked once, never more than
/// one gets past its switch, however their steps interleave and whenever the machine is blocked.
/// Exactly one does where the machine was blocked and is so no more. All others keep to their
/// own jobs and leave the machine alone.
pub proof fn law_one_request_wakes_the_machine(
    status: JSStatus,
    jobs: Seq<WakeJob>,
    steps: Seq<WakerMove>,
)
    requires
        all_block_once(status, jobs, steps),
    ensures
        ({
            let wakers = wakers_after(status, jobs, steps);
            let tasks = wakers.tasks;
            &&& forall|i: int, j: int|
                0 <= i < jobs.len() && 0 <= j < jobs.len() && past_switch(#[trigger] tasks[i])
                    && past_switch(#[trigger] tasks[j]) ==> i == j
            &&& woken(wakers) <==> exists|i: int|
                0 <= i < jobs.len() && past_switch(#[trigger] tasks[i])
            &&& forall|i: int|
                0 <= i < jobs.len() ==> works_on(#[trigger] tasks[i], BlockJob::Wake(jobs[i]))
        }),
{
    lemma_wakers(status, jobs, steps);
    let tasks = wakers_after(status, jobs, steps).tasks;
    assert forall|i: int, j: int|
        0 <= i < jobs.len() && 0 <= j < jobs.len() && past_switch(#[trigger] tasks[i])
            && past_switch(#[trigger] tasks[j]) implies i == j by {
        if i < j {
            assert(!(past_switch(tasks[i]) && past_switch(tasks[j])));
        } else if j < i {
            assert(!(past_switch(tasks[j]) && past_switch(tasks[i])));
        }
    }
}

/// Requests to wake up a machine that is blocked, and is not blocked again: once all their tasks
/// are over, exactly one of them has woken the machine up and let it go on, and every other ends
/// with a new post of its own job. This holds however their steps interleave.
pub proof fn law_other_requests_are_posted_again(jobs: Seq<WakeJob>, steps: Seq<WakerMove>)
    requires
        jobs.len() > 0,
        all_block_once(JSStatus::MultiTask, jobs, steps),
        forall|i: int|
            0 <= i < jobs.len() ==> replies_left(
                #[trigger] wakers_after(JSStatus::MultiTask, jobs, steps).tasks[i],
            ) == 0,
    ensures
        ({
            let tasks = wakers_after(JSStatus::MultiTask, jobs, steps).tasks;
            exists|one: int|
                {
                    &&& 0 <= one < jobs.len()
                    &&& (#[trigger] tasks[one]) is Done
                    &&& forall|i: int|
                        0 <= i < jobs.len() && i != one ==> #[trigger] tasks[i]
                            == BlockTask::Repost(BlockJob::Wake(jobs[i]))
                }
        }),
{
    let wakers = wakers_after(JSStatus::MultiTask, jobs, steps);
    let tasks = wakers.tasks;
    lemma_wakers(JSStatus::MultiTask, jobs, steps);
    law_one_request_wakes_the_machine(JSStatus::MultiTask, jobs, steps);
    assert(replies_left(tasks[0]) == 0);
    assert(works_on(tasks[0], BlockJob::Wake(jobs[0])));
    assert(woken(wakers));
    let one = choose|i: int| 0 <= i < jobs.len() && past_switch(#[trigger] tasks[i]);
    assert(replies_left(tasks[one]) == 0);
    assert forall|i: int| 0 <= i < jobs.len() && i != one implies #[trigger] tasks[i]
        == BlockTask::Repost(BlockJob::Wake(jobs[i])) by {
        assert(replies_left(tasks[i]) == 0);
        assert(works_on(tasks[i], BlockJob::Wake(jobs[i])));
        assert(!past_switch(tasks[i]));
    }
}

/// The replies to `BuildVar` among those that a task got.
pub open spec fn var_replies(job: BlockJob, events: Seq<BlockEvent>) -> Seq<Result<(), String>>
    decreases events.len(),
{
    if events.len() == 0 {
        Seq::empty()
    } else {
        let before = var_replies(job, events.drop_last());
        match (block_after(job, events.drop_last()), events.last()) {
            (BlockTask::BuildVar { name }, BlockEvent::Built(built)) => before.push(built),
            _ => before,
        }
    }
}

/// The replies to `StoreVar` among those that a task got.
pub open spec fn store_replies(job: BlockJob, events: Seq<BlockEvent>) -> Seq<bool>
    decreases events.len(),
{
    if events.len() == 0 {
        Seq::empty()
    } else {
        let before = store_replies(job, events.drop_last());
        match (block_after(job, events.drop_last()), events.last()) {
            (BlockTask::StoreVar { name }, BlockEvent::Answered(stored)) => before.push(stored),
            _ => before,
        }
    }
}

/// The replies to `BuildVar` in all tasks of a request, one after the other.
pub open spec fn all_var_replies(job: BlockJob, runs: Seq<Seq<BlockEvent>>) -> Seq<
    Result<(), String>,
>
    decreases runs.len(),
{
    if runs.len() == 0 {
        Seq::empty()
    } else {
        all_var_replies(job, runs.drop_last()) + var_replies(job, runs.last())
    }
}

/// The replies to `StoreVar` in all tasks of a request, one after the other.
pub open spec fn all_store_replies(job: BlockJob, runs: Seq<Seq<BlockEvent>>) -> Seq<bool>
    decreases runs.len(),
{
    if runs.len() == 0 {
        Seq::empty()
    } else {
        all_store_replies(job, runs.drop_last()) + store_replies(job, runs.last())
    }
}

/// What a task that sets a variable was told up to its present stage.
proof fn lemma_var_task(name: String, events: Seq<BlockEvent>)
    ensures
        ({
            let job = BlockJob::SetGlobalVar { name };
            let built = var_replies(job, events);
            let stored = store_replies(job, events);
            match block_after(job, events) {
                BlockTask::StoreVar { name } => {
                    &&& built.len() == 1 && built[0] is Ok
                    &&& stored.len() == 0
                },
                BlockTask::Next(Ok(_)) => {
                    &&& built.len() == 1 && built[0] is Ok
                    &&& stored.len() == 1 && stored[0]
                },
                BlockTask::Next(Err(BlockError::NewGlobalVar(reason))) => {
                    &&& built.len() == 1 && built[0] == Err::<(), String>(reason)
                    &&& stored.len() == 0
                },
                BlockTask::Next(Err(_)) => {
                    &&& built.len() == 1 && built[0] is Ok
                    &&& stored.len() == 1 && !stored[0]
                },
                _ => built.len() == 0 && stored.len() == 0,
            }
        }),
    decreases events.len(),
{
    if events.len() > 0 {
        let job = BlockJob::SetGlobalVar { name };
        lemma_var_task(name, events.drop_last());
        law_block_task_sticks_to_its_job(job, events.drop_last());
    }
}

proof fn lemma_reposts_say_nothing(name: String, runs: Seq<Seq<BlockEvent>>)
    requires
        forall|k: int|
            0 <= k < runs.len() ==> block_after(
                BlockJob::SetGlobalVar { name },
                #[trigger] runs[k],
            ) is Repost,
    ensures
        all_var_replies(BlockJob::SetGlobalVar { name }, runs).len() == 0,
        all_store_replies(BlockJob::SetGlobalVar { name }, runs).len() == 0,
    decreases runs.len(),
{
    if runs.len() > 0 {
        let before = runs.drop_last();
        assert forall|k: int| 0 <= k < before.len() implies block_after(
            BlockJob::SetGlobalVar { name },
            #[trigger] before[k],
        ) is Repost by {
            assert(before[k] == runs[k]);
        }
        lemma_reposts_say_nothing(name, before);
        assert(runs.last() == runs[runs.len() - 1]);
        lemma_var_task(name, runs.last());
    }
}

/// A request to set a variable that runs over any number of tasks, of which all but the last end
/// with a new post: its value is built exactly once, in the last task, and stored at most once.
/// The caller's next operation gets a success if and only if the value was built and stored; a
/// value that could not be built is reported with its reason, and a variable that could not be
/// set with its name.
pub proof fn law_variable_is_built_once(name: String, runs: Seq<Seq<BlockEvent>>)
    requires
        runs.len() > 0,
        forall|k: int|
            0 <= k < runs.len() - 1 ==> block_after(
                BlockJob::SetGlobalVar { name },
                #[trigger] runs[k],
            ) is Repost,
        block_after(BlockJob::SetGlobalVar { name }, runs.last()) is Next,
    ensures
        ({
            let job = BlockJob::SetGlobalVar { name };
            let last = block_after(job, runs.last());
            let built = all_var_replies(job, runs);
            let stored = all_store_replies(job, runs);
            &&& built.len() == 1
            &&& built == var_replies(job, runs.last())
            &&& stored == store_replies(job, runs.last())
            &&& (last matches BlockTask::Next(Ok(_))) <==> built[0] is Ok && stored.len() == 1
                && stored[0]
            &&& last == BlockTask::Next(Err(BlockError::SetGlobalVar(name))) <==> built[0] is Ok
                && stored.len() == 1 && !stored[0]
            &&& built[0] matches Err(reason) ==> stored.len() == 0 && last == BlockTask::Next(
                Err(BlockError::NewGlobalVar(reason)),
            )
            &&& last matches BlockTask::Next(Err(BlockError::NewGlobalVar(reason))) ==> built[0]
                == Err::<(), String>(reason)
        }),
{
    let job = BlockJob::SetGlobalVar { name };
    let before = runs.drop_last();
    assert forall|k: int| 0 <= k < before.len() implies block_after(job, #[trigger] before[k])
        is Repost by {
        assert(before[k] == runs[k]);
    }
    lemma_reposts_say_nothing(name, before);
    lemma_var_task(name, runs.last());
    law_block_task_sticks_to_its_job(job, runs.last());
    assert(all_var_replies(job, runs) =~= var_replies(job, runs.last()));
    assert(all_store_replies(job, runs) =~= store_replies(job, runs.last()));
}

/// To set a variable never switches the machine's status, at any stage of any task of the
/// request.
pub proof fn law_setting_a_variable_switches_nothing(name: String, events: Seq<BlockEvent>)
    ensures
        block_switches(block_after(BlockJob::SetGlobalVar { name }, events)) is None,
{
    law_block_task_sticks_to_its_job(BlockJob::SetGlobalVar { name }, events);
}

/// Every job on a blocked machine, whether it sets a variable, answers or throws, and whether it
/// is posted for the first time or again, is cast as a task that takes its turn in the machine's
/// own queue, and starts by asking whether the machine is about to be blocked.
pub proof fn law_jobs_are_posted_in_turn(job: BlockJob, queue: isize, events: Seq<BlockEvent>)
    ensures
        job_posted(job, queue).post == PostStep::Cast(
            JsTask { kind: TaskType::Sync(false), priority: 0, queue: Some(queue) },
        ),
        job_posted(job, queue).task == BlockTask::CheckWaitBlock(job),
        block_after(job, events) matches BlockTask::Repost(again) ==> {
            &&& again == job
            &&& job_posted(again, queue).post == PostStep::Cast(
                JsTask { kind: TaskType::Sync(false), priority: 0, queue: Some(queue) },
            )
        },
{
    law_block_task_sticks_to_its_job(job, events);
}

/// Two jobs are posted alike, whatever they are, if they go to the same queue; only what runs
/// later differs.
pub proof fn law_all_jobs_are_posted_alike(one: BlockJob, other: BlockJob, queue: isize, to: isize)
    ensures
        job_posted(one, queue).post == job_posted(other, queue).post,
        job_posted(one, queue).post == job_posted(one, to).post <==> queue == to,
        job_posted(one, queue).task == job_posted(other, queue).task <==> one == other,
{
    assert(job_posted(one, queue).post->0.queue == Some(queue));
    assert(job_posted(one, to).post->0.queue == Some(to));
    assert(job_posted(one, queue).task->CheckWaitBlock_0 == one);
    assert(job_posted(other, queue).task->CheckWaitBlock_0 == other);
}

/// A task that was cast to a queue is counted in that queue, and that queue is then unlocked; the
/// outcome of the unlocking tells how the posting ends. A task in no queue is posted at once.
pub proof fn law_cast_task_is_counted_and_its_queue_unlocked(
    task: JsTask,
    queue: isize,
    ok: bool,
)
    ensures
        task.queue matches Some(of) ==> post_following(PostStep::Cast(task), ok) == (
        PostStep::AddQueueLen { queue: of }),
        task.queue is None ==> post_following(PostStep::Cast(task), ok) == PostStep::Posted,
        post_following(PostStep::AddQueueLen { queue }, ok) == (PostStep::Unlock { queue }),
        post_following(PostStep::Unlock { queue }, true) == PostStep::Posted,
        post_following(PostStep::Unlock { queue }, false) == PostStep::UnlockFailed,
        post_following(PostStep::Posted, ok) == PostStep::Posted,
        post_following(PostStep::UnlockFailed, ok) == PostStep::UnlockFailed,
{
}

/// A job on a machine that is about to be blocked, or runs a single task, is posted again as it
/// is. On any other machine, a variable is set only if the machine is blocked, and a wake-up goes
/// on to the switch.
pub proof fn law_machine_is_checked_before_it_is_touched(job: BlockJob)
    ensures
        ({
            let first = BlockTask::CheckWaitBlock(job);
            let second = BlockTask::CheckSingleTask(job);
            &&& block_asks(first) == Some(JSStatus::WaitBlock)
            &&& block_asks(second) == Some(JSStatus::SingleTask)
            &&& block_following(first, BlockEvent::Answered(true)) == BlockTask::Repost(job)
            &&& block_following(first, BlockEvent::Answered(false)) == second
            &&& block_following(second, BlockEvent::Answered(true)) == BlockTask::Repost(job)
            &&& match job {
                BlockJob::SetGlobalVar { name } => {
                    let third = BlockTask::CheckMultiTask { name };
                    &&& block_following(second, BlockEvent::Answered(false)) == third
                    &&& block_asks(third) == Some(JSStatus::MultiTask)
                    &&& block_following(third, BlockEvent::Answered(true)) == (
                    BlockTask::BuildVar { name })
                    &&& block_following(third, BlockEvent::Answered(false)) == BlockTask::Repost(
                        job,
                    )
                },
                BlockJob::Wake(wake) => {
                    let third = BlockTask::Switch(wake);
                    &&& block_following(second, BlockEvent::Answered(false)) == third
                    &&& block_switches(third) == Some(
                        StatusSwitch { from: JSStatus::MultiTask, to: JSStatus::SingleTask },
                    )
                },
            }
        }),
{
}

/// A value that was built is stored in the variable of the job; the caller learns the reason why a
/// value was not built, or the name of a variable that was not set.
pub proof fn law_variable_outcome_reaches_the_caller(name: String, reason: String)
    ensures
        block_following(BlockTask::BuildVar { name }, BlockEvent::Built(Ok(()))) == (
        BlockTask::StoreVar { name }),
        block_following(BlockTask::BuildVar { name }, BlockEvent::Built(Err(reason)))
            == BlockTask::Next(Err(BlockError::NewGlobalVar(reason))),
        block_following(
            BlockTask::StoreVar { name },
            BlockEvent::Answered(true),
        ) matches BlockTask::Next(Ok(_)),
        block_following(BlockTask::StoreVar { name }, BlockEvent::Answered(false))
            == BlockTask::Next(Err(BlockError::SetGlobalVar(name))),
{
}

/// A machine that the switch found blocked is woken up, with an error exactly where one is to be
/// thrown; then the answer or the error of the given reason is built, and the machine goes on. A
/// machine that was not blocked is left alone, and the job is posted again.
pub proof fn law_blocked_machine_is_woken_and_goes_on(
    job: WakeJob,
    reason: String,
    error: bool,
    status: JSStatus,
)
    ensures
        status == JSStatus::MultiTask ==> block_following(
            BlockTask::Switch(job),
            BlockEvent::Switched(status),
        ) == (BlockTask::Wakeup { error: job is Throw, job }),
        status != JSStatus::MultiTask ==> block_following(
            BlockTask::Switch(job),
            BlockEvent::Switched(status),
        ) == BlockTask::Repost(BlockJob::Wake(job)),
        block_following(
            BlockTask::Wakeup { error, job: WakeJob::Reply },
            BlockEvent::Performed,
        ) == BlockTask::BuildResult,
        block_following(
            BlockTask::Wakeup { error, job: WakeJob::Throw { reason } },
            BlockEvent::Performed,
        ) == (BlockTask::NewError { reason }),
        block_following(BlockTask::BuildResult, BlockEvent::Performed) == BlockTask::Continue,
        block_following(BlockTask::NewError { reason }, BlockEvent::Performed)
            == BlockTask::Continue,
        block_following(BlockTask::Continue, BlockEvent::Performed) == BlockTask::Done,
{
}

/// A task moves only on the kind of reply that its stage asks for, and a task that is over stays
/// as it is. No stage but those for it asks for the status or switches it.
pub proof fn law_block_task_waits_for_its_reply(task: BlockTask, event: BlockEvent)
    ensures
        (task is CheckWaitBlock || task is CheckSingleTask || task is CheckMultiTask || task
            is StoreVar) && event !is Answered ==> block_following(task, event) == task,
        task is BuildVar && event !is Built ==> block_following(task, event) == task,
        task is Switch && event !is Switched ==> block_following(task, event) == task,
        (task is Wakeup || task is BuildResult || task is NewError || task is Continue) && event
            !is Performed ==> block_following(task, event) == task,
        task is Next || task is Done || task is Repost ==> block_following(task, event) == task,
        block_asks(task) is Some <==> task is CheckWaitBlock || task is CheckSingleTask || task
            is CheckMultiTask,
        task is CheckMultiTask ==> block_asks(task) == Some(JSStatus::MultiTask),
        block_switches(task) is Some <==> task is Switch,
{
}

} // verus!
