use std::sync::Arc;
use vm_factory::{BuildFailure, BuildStage, CallStage, ProduceError, ProduceStage, VMFactory};

fn factory(capacity: usize) -> VMFactory<()> {
    VMFactory::new("game", capacity, 0, 0, 0, Arc::new(())).append(Arc::new(vec![1]))
}

fn finish(f: &mut VMFactory<()>, mut stage: ProduceStage, reply: bool) -> ProduceStage {
    for _ in 0..1000 {
        stage = f.produce_step(stage, reply);
    }
    stage
}

#[test]
fn producing_fills_the_pool_and_returns_the_number_before() {
    let mut f = factory(5);
    let stage = f.produce(2);
    let stage = finish(&mut f, stage, true);
    assert_eq!(f.produced(&stage), Some(Ok(0)));
    assert_eq!((f.size(), f.free_size()), (2, 2));
    let stage = f.produce(3);
    let stage = finish(&mut f, stage, true);
    assert_eq!(f.produced(&stage), Some(Ok(2)));
    assert_eq!((f.size(), f.free_size()), (5, 5));
    for vm in [4, 3, 2, 1, 0] {
        assert_eq!(f.call(), CallStage::Run { vm });
    }
}

#[test]
fn a_factory_is_registered_once() {
    let mut f = factory(1);
    let stage = f.produce(1);
    assert_eq!(stage, ProduceStage::CheckRegistered { count: 1 });
    assert_eq!(f.produce_step(stage, false), ProduceStage::Register { count: 1 });
    let begun =
        ProduceStage::Build { before: 0, left: 1, stage: BuildStage::Swap { observed: 0 } };
    assert_eq!(f.produce_step(stage, true), begun);
    assert_eq!(f.produce_step(ProduceStage::Register { count: 1 }, false), begun);
}

#[test]
fn producing_nothing_only_registers() {
    let mut f = factory(2);
    let stage = f.produce(1);
    finish(&mut f, stage, true);
    let stage = f.produce(0);
    let stage = f.produce_step(stage, false);
    assert_eq!(stage, ProduceStage::Register { count: 0 });
    let stage = f.produce_step(stage, true);
    assert_eq!(stage, ProduceStage::Done { before: 1 });
    assert_eq!(f.produced(&stage), Some(Ok(1)));
}

#[test]
fn producing_beyond_the_capacity_is_refused() {
    let mut f = factory(3);
    let stage = f.produce(2);
    finish(&mut f, stage, true);
    let stage = f.produce(2);
    let stage = f.produce_step(stage, true);
    assert_eq!(
        stage,
        ProduceStage::Failed(ProduceError::Full { capacity: 3, size: 2, count: 2 })
    );
    assert_eq!(
        f.produced(&stage),
        Some(Err(
            "vm factory full, factory: \"game\", capacity: 3, size: 2, count: 2".to_string()
        ))
    );
    assert_eq!((f.size(), f.free_size()), (2, 2));
}

#[test]
fn an_uncounted_factory_has_no_room_to_produce() {
    let mut f = factory(0);
    let stage = f.produce(usize::MAX);
    let stage = f.produce_step(stage, true);
    assert_eq!(
        stage,
        ProduceStage::Failed(ProduceError::Full { capacity: 0, size: 0, count: usize::MAX })
    );
}

#[test]
fn a_machine_that_cannot_be_built_ends_the_production() {
    let mut f = factory(3);
    let mut stage = f.produce(3);
    let mut pooled = 0;
    loop {
        let mut reply = true;
        if let ProduceStage::FreeGlobal { .. } = stage {
            pooled += 1;
        }
        if let ProduceStage::Build { stage: BuildStage::Load { vm: 1, index: 0 }, .. } = stage {
            reply = false;
        }
        if let ProduceStage::Failed(_) = stage {
            break;
        }
        stage = f.produce_step(stage, reply);
    }
    assert_eq!(
        stage,
        ProduceStage::Failed(ProduceError::NewVm {
            cause: BuildFailure::NotLoaded { index: 0 }
        })
    );
    assert_eq!(
        f.produced(&stage),
        Some(Err("vm factory, new vm failed, factory: \"game\"".to_string()))
    );
    assert_eq!((pooled, f.free_size(), f.size()), (1, 1, 2));
    assert_eq!(f.call(), CallStage::Run { vm: 0 });
}

#[test]
fn an_unfinished_production_has_no_result() {
    let f = factory(1);
    let stage = f.produce(1);
    assert_eq!(f.produced(&stage), None);
}

#[test]
fn numbers_and_names_are_spelled_out_in_messages() {
    let error = ProduceError::Full { capacity: 1024, size: 0, count: usize::MAX };
    assert_eq!(
        error.message("a\"b"),
        format!(
            "vm factory full, factory: \"a\\\"b\", capacity: 1024, size: 0, count: {}",
            usize::MAX
        )
    );
}

#[test]
fn a_message_shows_the_name_as_it_is_given() {
    let full = ProduceError::Full { capacity: 10, size: 9, count: 2 };
    assert_eq!(
        full.message_for("<a>"),
        "vm factory full, factory: <a>, capacity: 10, size: 9, count: 2"
    );
    let refused = ProduceError::NewVm { cause: BuildFailure::NotCreated };
    assert_eq!(refused.message_for("<a>"), "vm factory, new vm failed, factory: <a>");
}

#[test]
fn reset_replaces_machines() {
    let mut f = factory(3);
    let stage = f.produce(3);
    finish(&mut f, stage, true);
    let stage = f.reset(2);
    assert_eq!(f.size(), 1);
    let stage = finish(&mut f, stage, true);
    assert_eq!(f.produced(&stage), Some(Ok(1)));
    assert_eq!((f.size(), f.free_size()), (3, 5));
}

#[test]
fn reset_of_more_than_there_are_finds_no_room() {
    let mut f = factory(3);
    let stage = f.reset(1);
    let stage = f.produce_step(stage, true);
    assert_eq!(
        stage,
        ProduceStage::Failed(ProduceError::Full { capacity: 3, size: usize::MAX, count: 1 })
    );
}
