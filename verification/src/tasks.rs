//! The tasks that calls are posted as, and what such a task does on its machine.

use crate::meters::Counter;
use crate::queues::{find_queue, queue_of, FactoryQueues};
use vstd::prelude::*;

verus! {

/// The priority of a machine's tasks.
pub const JS_TASK_PRIORITY: usize = 100;

/// How a task is queued by the task runtime.
#[derive(Clone, Copy, Debug, PartialEq, Eq, Structural)]
pub enum TaskType {
    /// Beside all other tasks.
    Async(bool),
    /// In turn with the other tasks of its queue.
    Sync(bool),
}

/// A task as it is handed to the task runtime.
#[derive(Clone, Copy, Debug, PartialEq, Eq, Structural)]
pub struct JsTask {
    /// How the task is queued.
    pub kind: TaskType,
    /// The priority among the tasks of all machines.
    pub priority: usize,
    /// The queue, where the task has to wait its turn.
    pub queue: Option<isize>,
}

/// How a call is posted, and what the host does next.
#[derive(Clone, Copy, Debug, PartialEq, Eq, Structural)]
pub enum AsyncRun {
    /// Get the queue of this source by `new_queue`, and go on with `async_run_queued`.
    NeedQueue { src: usize },
    /// Post the task.
    Cast(JsTask),
    /// Raise this counter by one.
    Count(Counter),
    /// The call is posted.
    Posted,
}

/// The task of a call that has no source: it does not wait for any other.
pub open spec fn free_task() -> JsTask {
    JsTask { kind: TaskType::Async(false), priority: JS_TASK_PRIORITY, queue: None }
}

/// The task of a call from a source: it takes its turn in the queue of that source.
pub open spec fn queued_task(queue: isize) -> JsTask {
    JsTask { kind: TaskType::Sync(true), priority: 0, queue: Some(queue) }
}

/// How a call from `src` is posted, given the queues that exist.
pub open spec fn run_posted(
    queues: Map<usize, Option<isize>>,
    src: Option<usize>,
) -> AsyncRun {
    match src {
        None => AsyncRun::Cast(free_task()),
        Some(id) => match queue_of(queues, id) {
            Some(queue) => AsyncRun::Cast(queued_task(queue)),
            None => AsyncRun::NeedQueue { src: id },
        },
    }
}

/// What follows once the task is posted: the call is counted.
pub open spec fn run_following(run: AsyncRun) -> AsyncRun {
    match run {
        AsyncRun::NeedQueue { .. } => run,
        AsyncRun::Cast(_) => AsyncRun::Count(Counter::VmCallCount),
        AsyncRun::Count(_) => AsyncRun::Posted,
        AsyncRun::Posted => run,
    }
}

/// Decides how a call is posted: beside all others where it has no source, else in the queue of
/// its source.
pub fn async_run(queues: &FactoryQueues, src: Option<usize>) -> (run: AsyncRun)
    ensures
        run == run_posted(queues@, src),
{
    match src {
        None => AsyncRun::Cast(
            JsTask { kind: TaskType::Async(false), priority: JS_TASK_PRIORITY, queue: None },
        ),
        Some(id) => match find_queue(queues, id) {
            Some(queue) => async_run_queued(queue),
            None => AsyncRun::NeedQueue { src: id },
        },
    }
}

/// Decides how a call is posted whose source has this queue.
pub fn async_run_queued(queue: isize) -> (run: AsyncRun)
    ensures
        run == AsyncRun::Cast(queued_task(queue)),
{
    AsyncRun::Cast(JsTask { kind: TaskType::Sync(true), priority: 0, queue: Some(queue) })
}

/// Takes the posting of a call one stage further, once the host has posted the task or raised
/// the counter.
pub fn async_run_next(run: AsyncRun) -> (next: AsyncRun)
    ensures
        next == run_following(run),
{
    match run {
        AsyncRun::NeedQueue { src } => AsyncRun::NeedQueue { src },
        AsyncRun::Cast(_) => AsyncRun::Count(Counter::VmCallCount),
        AsyncRun::Count(_) => AsyncRun::Posted,
        AsyncRun::Posted => AsyncRun::Posted,
    }
}

/// A call is posted as one task and is then counted as one call, whether it has a source or not.
pub proof fn law_posted_call_is_counted_once(
    queues: Map<usize, Option<isize>>,
    src: Option<usize>,
    queue: isize,
)
    ensures
        ({
            let first = match run_posted(queues, src) {
                AsyncRun::NeedQueue { src } => AsyncRun::Cast(queued_task(queue)),
                run => run,
            };
            let second = run_following(first);
            let third = run_following(second);
            &&& first == AsyncRun::Cast(
                match src {
                    None => free_task(),
                    Some(id) => match queue_of(queues, id) {
                        Some(ready) => queued_task(ready),
                        None => queued_task(queue),
                    },
                },
            )
            &&& second == AsyncRun::Count(Counter::VmCallCount)
            &&& third == AsyncRun::Posted
            &&& run_following(third) == third
        }),
{
}

/// What the task of a call does on its machine, one action at a time.
#[derive(Clone, Copy, Debug, PartialEq, Eq)]
pub enum TaskStep {
    /// Make this queue the machine's own.
    SetTasks(isize),
    /// Look the called function up by its name.
    GetLinkFunction,
    /// Build the arguments and reply with their number.
    BuildArgs,
    /// Call the function with so many arguments.
    Call { args_size: usize },
    /// The task is over.
    Done,
}

/// The first action of a task that runs under the lock of a queue, or without one.
pub open spec fn task_first(lock: Option<isize>) -> TaskStep {
    match lock {
        Some(queue) => TaskStep::SetTasks(queue),
        None => TaskStep::GetLinkFunction,
    }
}

/// The action after `step`, where `args_size` is the reply to `BuildArgs`.
pub open spec fn task_following(step: TaskStep, args_size: usize) -> TaskStep {
    match step {
        TaskStep::SetTasks(_) => TaskStep::GetLinkFunction,
        TaskStep::GetLinkFunction => TaskStep::BuildArgs,
        TaskStep::BuildArgs => TaskStep::Call { args_size },
        TaskStep::Call { .. } => TaskStep::Done,
        TaskStep::Done => TaskStep::Done,
    }
}

/// The first action of the task of a call. A task that runs under the lock of a queue gives
/// that queue to its machine first.
pub fn task_start(lock: Option<isize>) -> (step: TaskStep)
    ensures
        step == task_first(lock),
{
    match lock {
        Some(queue) => TaskStep::SetTasks(queue),
        None => TaskStep::GetLinkFunction,
    }
}

/// The next action of the task of a call. `args_size` is the reply to `BuildArgs`; after any
/// other action it is not looked at.
pub fn task_next(step: TaskStep, args_size: usize) -> (next: TaskStep)
    ensures
        next == task_following(step, args_size),
{
    match step {
        TaskStep::SetTasks(_) => TaskStep::GetLinkFunction,
        TaskStep::GetLinkFunction => TaskStep::BuildArgs,
        TaskStep::BuildArgs => TaskStep::Call { args_size },
        TaskStep::Call { .. } => TaskStep::Done,
        TaskStep::Done => TaskStep::Done,
    }
}

/// A task calls its function with exactly the arguments that were built for it, and calls it
/// only after the function was looked up and the arguments were built.
pub proof fn law_task_calls_with_built_args(step: TaskStep, args_size: usize)
    ensures
        task_following(step, args_size) matches TaskStep::Call { args_size: passed } ==> step
            is BuildArgs && passed == args_size,
        task_following(step, args_size) is BuildArgs ==> step is GetLinkFunction,
        task_following(step, args_size) is GetLinkFunction ==> step is SetTasks,
{
}

/// Every task is over after its three actions, or four where it sets its machine's queue.
pub proof fn law_task_ends(lock: Option<isize>, args_size: usize)
    ensures
        ({
            let first = task_first(lock);
            let link = if lock is Some {
                task_following(first, args_size)
            } else {
                first
            };
            let build = task_following(link, args_size);
            let call = task_following(build, args_size);
            &&& lock matches Some(queue) ==> first == TaskStep::SetTasks(queue)
            &&& link == TaskStep::GetLinkFunction
            &&& build == TaskStep::BuildArgs
            &&& call == (TaskStep::Call { args_size })
            &&& task_following(call, args_size) == TaskStep::Done
        }),
{
}

/// A call that has a source is posted, without a priority of its own, as a task that takes its
/// turn in the queue of that source and in no other. While the source has no queue, the call is
/// not posted.
pub proof fn law_calls_from_a_source_take_turns(
    queues: Map<usize, Option<isize>>,
    src: usize,
    queue: isize,
)
    ensures
        queues.contains_key(src) && queues[src] == Some(queue) ==> run_posted(queues, Some(src))
            == AsyncRun::Cast(
            JsTask { kind: TaskType::Sync(true), priority: 0, queue: Some(queue) },
        ),
        !queues.contains_key(src) || queues[src] is None ==> run_posted(queues, Some(src)) == (
        AsyncRun::NeedQueue { src }),
        queued_task(queue) == (JsTask {
            kind: TaskType::Sync(true),
            priority: 0,
            queue: Some(queue),
        }),
{
}

/// A call without a source is posted beside all others, in no queue, whatever queues there are.
pub proof fn law_call_without_source_waits_for_nobody(queues: Map<usize, Option<isize>>)
    ensures
        run_posted(queues, None) == AsyncRun::Cast(
            JsTask { kind: TaskType::Async(false), priority: 100, queue: None },
        ),
        free_task() == (JsTask { kind: TaskType::Async(false), priority: 100, queue: None }),
{
}

/// Only calls without a source are in no queue and beside all others. A call with a source is in
/// the queue of that source.
pub proof fn law_only_calls_without_source_are_in_no_queue(
    queues: Map<usize, Option<isize>>,
    src: Option<usize>,
)
    ensures
        run_posted(queues, src) matches AsyncRun::Cast(task) ==> {
            &&& task.queue is None <==> src is None
            &&& task.kind is Async <==> src is None
            &&& src matches Some(id) ==> queues.contains_key(id) && queues[id] == task.queue
        },
{
}

/// Two calls are posted to the same queue exactly where their sources have the same queue.
pub proof fn law_calls_meet_in_the_queue_of_their_sources(
    queues: Map<usize, Option<isize>>,
    one: usize,
    other: usize,
)
    requires
        queues.contains_key(one) && queues[one] is Some,
        queues.contains_key(other) && queues[other] is Some,
    ensures
        run_posted(queues, Some(one)) == run_posted(queues, Some(other)) <==> queues[one]
            == queues[other],
{
    assert(run_posted(queues, Some(one))->Cast_0.queue == queues[one]);
    assert(run_posted(queues, Some(other))->Cast_0.queue == queues[other]);
}

/// Once its task is posted, a call is counted as a call, and is then posted for good.
pub proof fn law_posting_goes_on(src: usize, task: JsTask, counter: Counter)
    ensures
        run_following(AsyncRun::Cast(task)) == AsyncRun::Count(Counter::VmCallCount),
        run_following(AsyncRun::Count(counter)) == AsyncRun::Posted,
        run_following(AsyncRun::Posted) == AsyncRun::Posted,
        run_following(AsyncRun::NeedQueue { src }) == (AsyncRun::NeedQueue { src }),
{
}

/// The task of a call gives the queue that it holds to its machine, where it holds one, looks the
/// function up, builds the arguments, calls the function with as many as were built, and is over;
/// nothing is left out or done twice.
pub proof fn law_task_takes_each_step_once(queue: isize, args_size: usize, passed: usize)
    ensures
        task_first(Some(queue)) == TaskStep::SetTasks(queue),
        task_first(None) == TaskStep::GetLinkFunction,
        task_following(TaskStep::SetTasks(queue), args_size) == TaskStep::GetLinkFunction,
        task_following(TaskStep::GetLinkFunction, args_size) == TaskStep::BuildArgs,
        task_following(TaskStep::BuildArgs, args_size) == (TaskStep::Call { args_size }),
        task_following(TaskStep::Call { args_size: passed }, args_size) == TaskStep::Done,
        task_following(TaskStep::Done, args_size) == TaskStep::Done,
{
}

} // verus!
