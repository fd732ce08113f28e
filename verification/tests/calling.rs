use std::sync::Arc;
use vm_factory::{
    async_run, async_run_next, async_run_queued, call_failure_for, new_queue, queue_created,
    task_next, task_start, AsyncRun, BuildFailure, BuildStage, CallStage, Counter, FactoryQueues,
    JsTask, TaskStep, TaskType, VMFactory, VmRequest,
};

fn factory(capacity: usize) -> VMFactory<()> {
    VMFactory::new("game", capacity, 0, 0, 0, Arc::new(()))
}

#[test]
fn a_call_takes_the_machine_pooled_last() {
    let mut f = factory(2);
    f.reuse(7);
    f.reuse(8);
    let stage = f.call();
    assert_eq!(stage, CallStage::Run { vm: 8 });
    assert_eq!(f.free_size(), 1);
    assert_eq!(f.scheduling_count(), 0);
    assert_eq!(f.call_step(stage, true), CallStage::Done { vm: 8 });
    assert_eq!(f.scheduling_count(), 1);
    assert_eq!(f.call_step(CallStage::Done { vm: 8 }, true), CallStage::Done { vm: 8 });
    assert_eq!(f.scheduling_count(), 1);
    assert_eq!(f.reset_scheduling_count(), 1);
    assert_eq!(f.scheduling_count(), 0);
}

#[test]
fn two_calls_never_share_a_machine() {
    let mut f = factory(2);
    f.reuse(7);
    assert_eq!(f.call(), CallStage::Run { vm: 7 });
    assert_eq!(f.call(), CallStage::Build(BuildStage::Swap { observed: 0 }));
}

#[test]
fn a_call_without_idle_machine_builds_one() {
    let mut f = factory(1);
    let mut stage = f.call();
    let expected = [
        CallStage::Build(BuildStage::Swap { observed: 0 }),
        CallStage::Build(BuildStage::Create(VmRequest { id: 0, reusable: true })),
        CallStage::Build(BuildStage::NewGlobalTemplate { vm: 0 }),
        CallStage::Build(BuildStage::AllocGlobal { vm: 0 }),
        CallStage::Build(BuildStage::UnlockCollection { vm: 0 }),
        CallStage::Build(BuildStage::UpdateLastHeapSize { vm: 0 }),
        CallStage::Build(BuildStage::Count { vm: 0, counter: Counter::VmCount }),
        CallStage::Run { vm: 0 },
        CallStage::Done { vm: 0 },
    ];
    for wanted in expected {
        assert_eq!(stage, wanted);
        stage = f.call_step(stage, true);
    }
    assert_eq!((f.size(), f.free_size(), f.scheduling_count()), (1, 0, 1));
}

#[test]
fn an_uncounted_machine_is_built_for_each_call() {
    let mut f = factory(0);
    for id in 0..3 {
        let stage = f.call();
        assert_eq!(
            stage,
            CallStage::Build(BuildStage::Create(VmRequest { id, reusable: false }))
        );
    }
    assert_eq!(f.size(), 0);
}

#[test]
fn a_call_on_a_full_factory_fails_and_is_counted() {
    let mut f = factory(1);
    let stage = f.call();
    f.call_step(stage, true);
    assert_eq!(f.call(), CallStage::Failed(BuildFailure::Full { size: 1 }));
    assert_eq!(f.scheduling_count(), 1);
    assert_eq!(
        f.call_failure(),
        "Vm Factory Call Error, new vm failed, factory: \"game\""
    );
}

#[test]
fn a_call_whose_machine_is_refused_fails_and_is_counted_once() {
    let mut f = factory(0);
    let stage = f.call();
    let stage = f.call_step(stage, false);
    assert_eq!(stage, CallStage::Failed(BuildFailure::NotCreated));
    assert_eq!(f.call_step(stage, true), stage);
    assert_eq!(f.scheduling_count(), 1);
}

#[test]
fn a_call_without_source_does_not_wait() {
    let queues = FactoryQueues::new();
    assert_eq!(
        async_run(&queues, None),
        AsyncRun::Cast(JsTask { kind: TaskType::Async(false), priority: 100, queue: None })
    );
}

#[test]
fn calls_from_one_source_wait_in_one_queue() {
    let mut queues = FactoryQueues::new();
    assert_eq!(async_run(&queues, Some(5)), AsyncRun::NeedQueue { src: 5 });
    new_queue(&mut queues, 5);
    assert_eq!(async_run(&queues, Some(5)), AsyncRun::NeedQueue { src: 5 });
    queue_created(&mut queues, 5, -3);
    let task = JsTask { kind: TaskType::Sync(true), priority: 0, queue: Some(-3) };
    assert_eq!(async_run_queued(-3), AsyncRun::Cast(task));
    assert_eq!(async_run(&queues, Some(5)), AsyncRun::Cast(task));
}

#[test]
fn a_posted_call_is_counted_once() {
    let run = async_run(&FactoryQueues::new(), None);
    let run = async_run_next(run);
    assert_eq!(run, AsyncRun::Count(Counter::VmCallCount));
    assert_eq!(async_run_next(run), AsyncRun::Posted);
    assert_eq!(async_run_next(AsyncRun::Posted), AsyncRun::Posted);
    let need = AsyncRun::NeedQueue { src: 5 };
    assert_eq!(async_run_next(need), need);
}

#[test]
fn a_failed_call_names_its_factory() {
    assert_eq!(
        call_failure_for("'game'"),
        "Vm Factory Call Error, new vm failed, factory: 'game'"
    );
}

#[test]
fn schedulings_are_neither_lost_nor_counted_twice() {
    let mut f = factory(0);
    let mut returned = 0;
    for round in 0..7 {
        let stage = f.call();
        f.call_step(stage, false);
        if round % 3 == 1 {
            returned += f.reset_scheduling_count();
        }
    }
    assert_eq!(returned + f.scheduling_count(), 7);
}

#[test]
fn a_machine_built_for_a_call_is_not_one_in_the_pool() {
    let mut f = factory(3);
    let mut built = Vec::new();
    for _ in 0..2 {
        let mut stage = f.call();
        while !matches!(stage, CallStage::Done { .. }) {
            stage = f.call_step(stage, true);
        }
        built.push(stage);
    }
    assert_eq!(built, vec![CallStage::Done { vm: 0 }, CallStage::Done { vm: 1 }]);
    f.reuse(0);
    assert_eq!(f.call(), CallStage::Run { vm: 0 });
}

#[test]
fn a_locked_task_sets_its_queue_first() {
    let mut step = task_start(Some(-3));
    let expected = [
        TaskStep::SetTasks(-3),
        TaskStep::GetLinkFunction,
        TaskStep::BuildArgs,
        TaskStep::Call { args_size: 2 },
        TaskStep::Done,
        TaskStep::Done,
    ];
    for wanted in expected {
        assert_eq!(step, wanted);
        step = task_next(step, 2);
    }
}

#[test]
fn a_task_without_lock_starts_with_its_function() {
    assert_eq!(task_start(None), TaskStep::GetLinkFunction);
}
