use std::sync::Arc;
use vm_factory::{
    build_timer, build_timing, BuildFailure, BuildStage, Counter, Timer, Timing, VMFactory,
    VmRequest,
};

fn factory(capacity: usize, pieces: usize) -> VMFactory<()> {
    let mut f = VMFactory::new("game", capacity, 0, 0, 0, Arc::new(()));
    for piece in 0..pieces {
        f = f.append(Arc::new(vec![piece as u8]));
    }
    f
}

fn walk(f: &mut VMFactory<()>, mut stage: BuildStage, replies: &[bool]) -> BuildStage {
    for reply in replies {
        stage = f.build_step(stage, *reply);
    }
    stage
}

#[test]
fn a_counted_machine_goes_through_the_whole_plan() {
    let mut f = factory(1, 2);
    let mut stage = f.new_vm();
    let expected = [
        BuildStage::Swap { observed: 0 },
        BuildStage::Create(VmRequest { id: 0, reusable: true }),
        BuildStage::Load { vm: 0, index: 0 },
        BuildStage::Await { vm: 0, index: 0 },
        BuildStage::Load { vm: 0, index: 1 },
        BuildStage::Await { vm: 0, index: 1 },
        BuildStage::NewGlobalTemplate { vm: 0 },
        BuildStage::AllocGlobal { vm: 0 },
        BuildStage::UnlockCollection { vm: 0 },
        BuildStage::UpdateLastHeapSize { vm: 0 },
        BuildStage::Count { vm: 0, counter: Counter::VmCount },
        BuildStage::Done { vm: 0 },
        BuildStage::Done { vm: 0 },
    ];
    for wanted in expected {
        assert_eq!(stage, wanted);
        stage = f.build_step(stage, true);
    }
    assert_eq!(f.size(), 1);
}

#[test]
fn an_uncounted_machine_is_created_at_once_and_gets_no_global_object() {
    let mut f = factory(0, 1);
    let mut stage = f.new_vm();
    let expected = [
        BuildStage::Create(VmRequest { id: 0, reusable: false }),
        BuildStage::Load { vm: 0, index: 0 },
        BuildStage::Await { vm: 0, index: 0 },
        BuildStage::UpdateLastHeapSize { vm: 0 },
        BuildStage::Count { vm: 0, counter: Counter::VmCount },
        BuildStage::Done { vm: 0 },
    ];
    for wanted in expected {
        assert_eq!(stage, wanted);
        stage = f.build_step(stage, true);
    }
    assert_eq!(f.size(), 0);
}

#[test]
fn waiting_repeats_until_the_piece_has_run() {
    let mut f = factory(0, 1);
    let stage = f.new_vm();
    let stage = walk(&mut f, stage, &[true, true, false, false, false]);
    assert_eq!(stage, BuildStage::Await { vm: 0, index: 0 });
    assert_eq!(f.build_step(stage, true), BuildStage::UpdateLastHeapSize { vm: 0 });
}

#[test]
fn a_full_factory_builds_nothing() {
    let mut f = factory(1, 0);
    let stage = f.new_vm();
    walk(&mut f, stage, &[true]);
    assert_eq!(f.new_vm(), BuildStage::Failed(BuildFailure::Full { size: 1 }));
    assert_eq!(f.size(), 1);
}

#[test]
fn two_builders_cannot_take_one_slot() {
    let mut f = factory(1, 0);
    let first = f.new_vm();
    let second = f.new_vm();
    let first = f.build_step(first, true);
    let second = f.build_step(second, true);
    assert_eq!(first, BuildStage::Create(VmRequest { id: 0, reusable: true }));
    assert_eq!(second, BuildStage::Failed(BuildFailure::Full { size: 1 }));
    assert_eq!(f.size(), 1);
}

#[test]
fn a_builder_that_was_overtaken_tries_again() {
    let mut f = factory(2, 0);
    let first = f.new_vm();
    let second = f.new_vm();
    f.build_step(first, true);
    let second = f.build_step(second, true);
    assert_eq!(second, BuildStage::Pause { observed: 1 });
    let second = f.build_step(second, true);
    assert_eq!(second, BuildStage::Create(VmRequest { id: 1, reusable: true }));
    assert_eq!(f.size(), 2);
}

#[test]
fn each_refusal_ends_the_build() {
    let refusals = [
        (vec![true, false], BuildFailure::NotCreated),
        (vec![true, true, false], BuildFailure::NotLoaded { index: 0 }),
        (vec![true, true, true, true, false], BuildFailure::NoGlobalTemplate),
        (vec![true, true, true, true, true, false], BuildFailure::NoGlobal),
    ];
    for (replies, cause) in refusals {
        let mut f = factory(1, 1);
        let stage = f.new_vm();
        let stage = walk(&mut f, stage, &replies);
        assert_eq!(stage, BuildStage::Failed(cause));
        assert_eq!(f.build_step(stage, true), BuildStage::Failed(cause));
        assert_eq!(f.size(), 1);
    }
}

#[test]
fn ids_are_distinct_over_all_ways_to_ask_for_a_machine() {
    let mut f = factory(3, 0);
    let first = f.new_vm();
    assert_eq!(f.take().id, 0);
    assert_eq!(f.build_step(first, true), BuildStage::Create(VmRequest { id: 1, reusable: true }));
    assert_eq!(f.take().id, 2);
}

#[test]
fn builds_at_once_fill_the_room_and_no_more() {
    let mut f = factory(3, 1);
    let stage = f.new_vm();
    walk(&mut f, stage, &[true]);
    let mut stages: Vec<BuildStage> = (0..4).map(|_| f.new_vm()).collect();
    for _ in 0..20 {
        for stage in stages.iter_mut() {
            *stage = f.build_step(*stage, true);
        }
    }
    let built = stages.iter().filter(|stage| matches!(stage, BuildStage::Done { .. })).count();
    let full = BuildStage::Failed(BuildFailure::Full { size: 3 });
    let failed = stages.iter().filter(|stage| **stage == full).count();
    assert_eq!((built, failed, f.size()), (2, 2, 3));
}

#[test]
fn the_creation_and_the_loading_of_a_machine_are_measured() {
    assert_eq!(build_timer(), Timer::VmNewTime);
    let mut f = factory(1, 1);
    let mut stage = f.new_vm();
    let mut ended = Vec::new();
    let mut started = Vec::new();
    while !matches!(stage, BuildStage::Done { .. }) {
        let timing = build_timing(stage, true);
        ended.extend(timing.ended);
        started.extend(timing.started);
        stage = f.build_step(stage, true);
    }
    assert_eq!(ended, vec![Timer::VmNewTime, Timer::VmLoadTime]);
    assert_eq!(started, vec![Timer::VmLoadTime]);
    let refused = BuildStage::Create(VmRequest { id: 0, reusable: true });
    assert_eq!(build_timing(refused, false), Timing { ended: None, started: None });
}

#[test]
fn counters_and_timers_have_their_names() {
    assert_eq!(Counter::VmCount.name(), "vm_count");
    assert_eq!(Counter::VmCallCount.name(), "vm_call_count");
    assert_eq!(Counter::VmPushCallbackCount.name(), "vm_push_callback_count");
    assert_eq!(Counter::VmAsyncRequestCount.name(), "vm_async_request_count");
    assert_eq!(Timer::VmNewTime.name(), "vm_new_time");
    assert_eq!(Timer::VmLoadTime.name(), "vm_load_time");
}
