//! Builds that run at once: how many of them get a machine.

use crate::assembly::{build_next, build_start, plan_len, BuildFailure, BuildStage};
use crate::factory::FactoryView;
use crate::laws::{used, FactoryOp};
use vstd::prelude::*;

verus! {

/// A factory and the builds that run on it at once.
pub struct Race<A> {
    /// The factory.
    pub factory: FactoryView<A>,
    /// The stage of each build; `None` before the build has started.
    pub stages: Seq<Option<BuildStage>>,
}

/// One step of one of the users.
pub enum RaceMove {
    /// The build `who` starts, or goes one stage further. Its host refuses nothing; `ran` tells
    /// whether the bytecode that was loaded last has run by then.
    Build { who: int, ran: bool },
    /// Somebody else uses the factory.
    Other(FactoryOp),
}

/// Whether a use has no part in the number of machines.
pub open spec fn leaves_size(op: FactoryOp) -> bool {
    match op {
        FactoryOp::Take => true,
        FactoryOp::Loader => true,
        FactoryOp::AppendCopied => true,
        FactoryOp::Reuse(_) => true,
        FactoryOp::Collect(_) => true,
        FactoryOp::AddRanCount => true,
        FactoryOp::ResetRanCount => true,
        FactoryOp::ResetSchedulingCount => true,
        _ => false,
    }
}

/// `count` builds that are about to start.
pub open spec fn race_start<A>(f: FactoryView<A>, count: nat) -> Race<A> {
    Race { factory: f, stages: Seq::new(count, |i: int| None) }
}

/// The builds after one step.
pub open spec fn race_moved<A>(race: Race<A>, step: RaceMove) -> Race<A> {
    match step {
        RaceMove::Build { who, ran } => {
            let (factory, stage) = match race.stages[who] {
                None => build_start(race.factory),
                Some(stage) => build_next(race.factory, stage, stage is Await ==> ran),
            };
            Race { factory, stages: race.stages.update(who, Some(stage)) }
        },
        RaceMove::Other(op) => Race { factory: used(race.factory, op), ..race },
    }
}

/// The builds after a number of steps, in whatever order the users take them.
pub open spec fn race_after<A>(race: Race<A>, steps: Seq<RaceMove>) -> Race<A>
    decreases steps.len(),
{
    if steps.len() == 0 {
        race
    } else {
        race_moved(race_after(race, steps.drop_last()), steps.last())
    }
}

/// Whether the steps are those of `count` builds, and of users who have no part in the number of
/// machines.
pub open spec fn steps_of(steps: Seq<RaceMove>, count: nat) -> bool {
    forall|i: int|
        0 <= i < steps.len() ==> match #[trigger] steps[i] {
            RaceMove::Build { who, ran } => 0 <= who < count,
            RaceMove::Other(op) => leaves_size(op),
        }
}

/// Whether a build is over.
pub open spec fn is_over(stage: Option<BuildStage>) -> bool {
    stage matches Some(stage) && (stage is Done || stage is Failed)
}

/// Whether all builds are over.
pub open spec fn all_over(stages: Seq<Option<BuildStage>>) -> bool {
    forall|i: int| 0 <= i < stages.len() ==> is_over(#[trigger] stages[i])
}

/// The sum of what `weight` gives to each build.
pub open spec fn sum_over(
    stages: Seq<Option<BuildStage>>,
    weight: spec_fn(Option<BuildStage>) -> nat,
) -> nat
    decreases stages.len(),
{
    if stages.len() == 0 {
        0
    } else {
        sum_over(stages.drop_last(), weight) + weight(stages.last())
    }
}

/// How many builds have ended with a machine.
pub open spec fn machines_built(stages: Seq<Option<BuildStage>>) -> nat {
    sum_over(
        stages,
        |stage: Option<BuildStage>|
            if stage matches Some(BuildStage::Done { .. }) {
                1nat
            } else {
                0nat
            },
    )
}

/// The smaller of two numbers.
pub open spec fn smaller(a: int, b: int) -> int {
    if a <= b {
        a
    } else {
        b
    }
}

/// One for a build that holds a slot, and zero for any other.
spec fn slots_held() -> spec_fn(Option<BuildStage>) -> nat {
    |stage: Option<BuildStage>|
        match stage {
            None => 0nat,
            Some(BuildStage::Swap { .. }) => 0nat,
            Some(BuildStage::Pause { .. }) => 0nat,
            Some(BuildStage::Failed(_)) => 0nat,
            _ => 1nat,
        }
}

proof fn lemma_sum_update(
    stages: Seq<Option<BuildStage>>,
    weight: spec_fn(Option<BuildStage>) -> nat,
    at: int,
    stage: Option<BuildStage>,
)
    requires
        0 <= at < stages.len(),
    ensures
        sum_over(stages.update(at, stage), weight) + weight(stages[at]) == sum_over(stages, weight)
            + weight(stage),
    decreases stages.len(),
{
    let updated = stages.update(at, stage);
    if at < stages.len() - 1 {
        assert(updated.drop_last() =~= stages.drop_last().update(at, stage));
        lemma_sum_update(stages.drop_last(), weight, at, stage);
    } else {
        assert(updated.drop_last() =~= stages.drop_last());
    }
}

proof fn lemma_sum_none(count: nat, weight: spec_fn(Option<BuildStage>) -> nat)
    requires
        weight(None) == 0,
    ensures
        sum_over(Seq::new(count, |i: int| None), weight) == 0,
    decreases count,
{
    if count > 0 {
        let fewer = (count - 1) as nat;
        lemma_sum_none(fewer, weight);
        assert(Seq::new(count, |i: int| None::<BuildStage>).drop_last() =~= Seq::new(
            fewer,
            |i: int| None,
        ));
    }
}

/// What holds between the factory where the builds began and where they are now.
spec fn race_state<A>(f: FactoryView<A>, count: nat, race: Race<A>) -> bool {
    &&& race.stages.len() == count
    &&& race.factory.capacity == f.capacity
    &&& race.factory.codes == f.codes
    &&& race.factory.size == f.size + sum_over(race.stages, slots_held())
    &&& race.factory.size <= f.capacity
    &&& forall|i: int|
        0 <= i < count ==> match #[trigger] race.stages[i] {
            Some(BuildStage::Failed(cause)) => race.factory.size == f.capacity && cause == (
            BuildFailure::Full { size: f.capacity }),
            Some(BuildStage::Swap { observed }) => observed <= race.factory.size && observed
                < f.capacity,
            Some(BuildStage::Pause { observed }) => observed <= race.factory.size && observed
                < f.capacity,
            Some(BuildStage::Load { vm, index }) => index < f.codes.len(),
            Some(BuildStage::Await { vm, index }) => index < f.codes.len(),
            _ => true,
        }
}

proof fn lemma_race_step<A>(f: FactoryView<A>, count: nat, race: Race<A>, step: RaceMove)
    requires
        race_state(f, count, race),
        f.capacity > 0,
        f.codes.len() <= usize::MAX,
        match step {
            RaceMove::Build { who, ran } => 0 <= who < count,
            RaceMove::Other(op) => leaves_size(op),
        },
    ensures
        race_state(f, count, race_moved(race, step)),
{
    if let RaceMove::Build { who, ran } = step {
        let next = race_moved(race, step);
        lemma_sum_update(race.stages, slots_held(), who, next.stages[who]);
        assert forall|i: int| 0 <= i < count && i != who implies #[trigger] next.stages[i]
            == race.stages[i] by {}
    }
}

proof fn lemma_race<A>(f: FactoryView<A>, count: nat, steps: Seq<RaceMove>)
    requires
        0 < f.capacity,
        f.size <= f.capacity,
        f.codes.len() <= usize::MAX,
        steps_of(steps, count),
    ensures
        race_state(f, count, race_after(race_start(f, count), steps)),
    decreases steps.len(),
{
    if steps.len() == 0 {
        lemma_sum_none(count, slots_held());
    } else {
        let before = steps.drop_last();
        assert(steps_of(before, count)) by {
            assert forall|i: int| 0 <= i < before.len() implies match #[trigger] before[i] {
                RaceMove::Build { who, ran } => 0 <= who < count,
                RaceMove::Other(op) => leaves_size(op),
            } by {
                assert(before[i] == steps[i]);
            }
        }
        lemma_race(f, count, before);
        assert(steps.last() == steps[steps.len() - 1]);
        lemma_race_step(f, count, race_after(race_start(f, count), before), steps.last());
    }
}

proof fn lemma_all_over(stages: Seq<Option<BuildStage>>)
    requires
        all_over(stages),
    ensures
        machines_built(stages) == sum_over(stages, slots_held()),
        machines_built(stages) <= stages.len(),
        machines_built(stages) < stages.len() ==> exists|i: int|
            0 <= i < stages.len() && (#[trigger] stages[i]) matches Some(BuildStage::Failed(_)),
    decreases stages.len(),
{
    if stages.len() > 0 {
        let rest = stages.drop_last();
        assert(all_over(rest)) by {
            assert forall|i: int| 0 <= i < rest.len() implies is_over(#[trigger] rest[i]) by {
                assert(rest[i] == stages[i]);
            }
        }
        lemma_all_over(rest);
        assert(is_over(stages[stages.len() - 1]));
        if machines_built(rest) < rest.len() {
            let i = choose|i: int|
                0 <= i < rest.len() && (#[trigger] rest[i]) matches Some(BuildStage::Failed(_));
            assert(stages[i] matches Some(BuildStage::Failed(_)));
        }
    }
}

/// Of any number of builds that run at once on a factory with room, exactly as many get a machine
/// as there is room for, however their steps interleave, if no host refuses anything and nobody
/// throws machines away meanwhile. The others find the factory full. A slot that was lost to
/// another build is asked for again.
pub proof fn law_builds_at_once_fill_the_room<A>(
    f: FactoryView<A>,
    count: nat,
    steps: Seq<RaceMove>,
)
    requires
        0 < f.capacity,
        f.size <= f.capacity,
        f.codes.len() <= usize::MAX,
        steps_of(steps, count),
        all_over(race_after(race_start(f, count), steps).stages),
    ensures
        ({
            let race = race_after(race_start(f, count), steps);
            &&& machines_built(race.stages) == smaller(count as int, f.capacity - f.size)
            &&& race.factory.size == smaller(f.size + count, f.capacity as int)
            &&& forall|i: int|
                0 <= i < count ==> ((#[trigger] race.stages[i]) matches Some(
                    BuildStage::Failed(cause),
                ) ==> cause == (BuildFailure::Full { size: f.capacity }))
        }),
{
    lemma_race(f, count, steps);
    lemma_all_over(race_after(race_start(f, count), steps).stages);
}

/// How many steps a build has left at most, on a factory with this capacity and so many pieces of
/// bytecode, if it does not have to wait for bytecode to run.
pub open spec fn steps_left(capacity: usize, pieces: nat, stage: Option<BuildStage>) -> nat {
    let plan = plan_len(pieces, capacity);
    match stage {
        None => (plan + capacity + 2) as nat,
        Some(BuildStage::Swap { observed }) => (plan + 1 + capacity - observed) as nat,
        Some(BuildStage::Pause { observed }) => (plan + 1 + capacity - observed) as nat,
        Some(BuildStage::Create(_)) => plan,
        Some(BuildStage::Load { vm, index }) => (plan - 1 - 2 * index) as nat,
        Some(BuildStage::Await { vm, index }) => (plan - 2 - 2 * index) as nat,
        Some(BuildStage::NewGlobalTemplate { .. }) => 5,
        Some(BuildStage::AllocGlobal { .. }) => 4,
        Some(BuildStage::UnlockCollection { .. }) => 3,
        Some(BuildStage::UpdateLastHeapSize { .. }) => 2,
        Some(BuildStage::Count { .. }) => 1,
        Some(BuildStage::Done { .. }) => 0,
        Some(BuildStage::Failed(_)) => 0,
    }
}

/// How many steps all builds together have left at most.
pub open spec fn race_left<A>(race: Race<A>) -> nat {
    sum_over(
        race.stages,
        |stage: Option<BuildStage>|
            steps_left(race.factory.capacity, race.factory.codes.len(), stage),
    )
}

/// Builds that run at once do not keep each other from ending: every step of a build that is not
/// over and does not wait for bytecode to run leaves fewer steps for all of them together, and
/// no step of anybody else leaves more.
pub proof fn law_builds_at_once_end<A>(
    f: FactoryView<A>,
    count: nat,
    steps: Seq<RaceMove>,
    step: RaceMove,
)
    requires
        0 < f.capacity,
        f.size <= f.capacity,
        f.codes.len() <= usize::MAX,
        steps_of(steps.push(step), count),
    ensures
        ({
            let race = race_after(race_start(f, count), steps);
            let next = race_moved(race, step);
            &&& race_left(next) <= race_left(race)
            &&& step matches RaceMove::Build { who, ran } ==> ran && !is_over(race.stages[who])
                ==> race_left(next) < race_left(race)
        }),
{
    let all = steps.push(step);
    assert(steps_of(steps, count)) by {
        assert forall|i: int| 0 <= i < steps.len() implies match #[trigger] steps[i] {
            RaceMove::Build { who, ran } => 0 <= who < count,
            RaceMove::Other(op) => leaves_size(op),
        } by {
            assert(all[i] == steps[i]);
        }
    }
    assert(all[all.len() - 1] == step);
    lemma_race(f, count, steps);
    let race = race_after(race_start(f, count), steps);
    let next = race_moved(race, step);
    let weight = |stage: Option<BuildStage>|
        steps_left(race.factory.capacity, race.factory.codes.len(), stage);
    assert(race_left(next) == sum_over(next.stages, weight));
    if let RaceMove::Build { who, ran } = step {
        lemma_sum_update(race.stages, weight, who, next.stages[who]);
    }
}

} // verus!
