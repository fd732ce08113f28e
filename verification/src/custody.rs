//! Who has which machine, while many users share a factory.

use crate::assembly::{build_next, build_start, id_allocated, stage_vm, BuildStage};
use crate::call::{call_next, call_start, CallStage};
use crate::factory::{pooled, thrown, FactoryView};
use crate::foreign::kept;
use crate::laws::lemma_kept;
use crate::produce::{produce_next, ProduceStage};
use vstd::prelude::*;

verus! {

/// What one user of a factory is at.
pub enum Work {
    /// A build that was started by `new_vm`.
    Build(BuildStage),
    /// A production.
    Produce(ProduceStage),
    /// A call.
    Call(CallStage),
    /// A machine that `take` asked for.
    Taken { vm: usize },
    /// The machine was put back.
    Returned,
}

/// A factory and all that its users are at.
pub struct World<A> {
    /// The factory.
    pub factory: FactoryView<A>,
    /// What each user is at.
    pub works: Seq<Work>,
}

/// One step of one of the users. Uses of the factory that have no part in which machine is where,
/// such as those of its counters, are left out.
pub enum WorldMove {
    /// A user starts a build.
    NewVm,
    /// A user starts a production.
    Produce { count: usize },
    /// A user starts to reset machines.
    Reset { count: usize },
    /// A user starts a call.
    Call,
    /// A user takes a machine.
    Take,
    /// The user `who` goes one stage further, after this reply of the host.
    Step { who: int, ok: bool },
    /// The user `who` puts the machine back that they got from a build, a call or `take`.
    Return { who: int },
    /// A user tidies the pool; these are the answers of the handler.
    Collect { removed: Seq<bool> },
    /// A user stops counting machines.
    Throw { count: usize },
}

/// The machine that is in a user's hands.
pub open spec fn held(work: Work) -> Option<usize> {
    match work {
        Work::Build(stage) => stage_vm(stage),
        Work::Produce(ProduceStage::Build { before, left, stage }) => stage_vm(stage),
        Work::Produce(ProduceStage::FreeGlobal { before, left, vm }) => Some(vm),
        Work::Produce(_) => None,
        Work::Call(CallStage::Build(stage)) => stage_vm(stage),
        Work::Call(CallStage::Run { vm }) => Some(vm),
        Work::Call(CallStage::Done { vm }) => Some(vm),
        Work::Call(CallStage::Failed(_)) => None,
        Work::Taken { vm } => Some(vm),
        Work::Returned => None,
    }
}

/// The machine that a user may put back.
pub open spec fn to_return(work: Work) -> Option<usize> {
    match work {
        Work::Build(BuildStage::Done { vm }) => Some(vm),
        Work::Call(CallStage::Done { vm }) => Some(vm),
        Work::Taken { vm } => Some(vm),
        _ => None,
    }
}

/// The factory and a user's work after one step of it.
pub open spec fn work_stepped<A>(f: FactoryView<A>, work: Work, ok: bool) -> (
    FactoryView<A>,
    Work,
) {
    match work {
        Work::Build(stage) => {
            let (g, next) = build_next(f, stage, ok);
            (g, Work::Build(next))
        },
        Work::Produce(stage) => {
            let (g, next) = produce_next(f, stage, ok);
            (g, Work::Produce(next))
        },
        Work::Call(stage) => {
            let (g, next) = call_next(f, stage, ok);
            (g, Work::Call(next))
        },
        Work::Taken { vm } => (f, work),
        Work::Returned => (f, work),
    }
}

/// All users after one step of one of them.
pub open spec fn world_moved<A>(world: World<A>, step: WorldMove) -> World<A> {
    let f = world.factory;
    let works = world.works;
    match step {
        WorldMove::NewVm => {
            let (factory, stage) = build_start(f);
            World { factory, works: works.push(Work::Build(stage)) }
        },
        WorldMove::Produce { count } => World {
            works: works.push(Work::Produce(ProduceStage::CheckRegistered { count })),
            ..world
        },
        WorldMove::Reset { count } => World {
            factory: thrown(f, count),
            works: works.push(Work::Produce(ProduceStage::CheckRegistered { count })),
        },
        WorldMove::Call => {
            let (factory, stage) = call_start(f);
            World { factory, works: works.push(Work::Call(stage)) }
        },
        WorldMove::Take => World {
            factory: id_allocated(f),
            works: works.push(Work::Taken { vm: f.alloc_id }),
        },
        WorldMove::Step { who, ok } => if 0 <= who < works.len() {
            let (factory, work) = work_stepped(f, works[who], ok);
            World { factory, works: works.update(who, work) }
        } else {
            world
        },
        WorldMove::Return { who } => if 0 <= who < works.len() {
            match to_return(works[who]) {
                Some(vm) => World {
                    factory: pooled(f, vm),
                    works: works.update(who, Work::Returned),
                },
                None => world,
            }
        } else {
            world
        },
        WorldMove::Collect { removed } => World {
            factory: FactoryView { pool: kept(f.pool, removed), ..f },
            ..world
        },
        WorldMove::Throw { count } => World { factory: thrown(f, count), ..world },
    }
}

/// All users after a number of steps, in whatever order they take them.
pub open spec fn world_after<A>(world: World<A>, steps: Seq<WorldMove>) -> World<A>
    decreases steps.len(),
{
    if steps.len() == 0 {
        world
    } else {
        world_moved(world_after(world, steps.drop_last()), steps.last())
    }
}

/// How many ids are used up by a number of steps.
pub open spec fn ids_used<A>(world: World<A>, steps: Seq<WorldMove>) -> nat
    decreases steps.len(),
{
    if steps.len() == 0 {
        0
    } else {
        let before = world_after(world, steps.drop_last());
        ids_used(world, steps.drop_last()) + if world_moved(before, steps.last()).factory.alloc_id
            != before.factory.alloc_id {
            1nat
        } else {
            0nat
        }
    }
}

/// The machine in the hands of each user.
pub open spec fn hands(works: Seq<Work>) -> Seq<Option<usize>> {
    Seq::new(works.len(), |i: int| held(works[i]))
}

/// All machines, those in the pool and those in somebody's hands, are different, and their ids
/// are below `bound`.
pub open spec fn kept_apart(pool: Seq<usize>, hands: Seq<Option<usize>>, bound: int) -> bool {
    &&& forall|p: int| 0 <= p < pool.len() ==> #[trigger] pool[p] < bound
    &&& forall|p: int, q: int| 0 <= p < q < pool.len() ==> #[trigger] pool[p] != #[trigger] pool[q]
    &&& forall|i: int|
        0 <= i < hands.len() ==> ((#[trigger] hands[i]) matches Some(vm) ==> vm < bound)
    &&& forall|i: int, p: int|
        0 <= i < hands.len() && 0 <= p < pool.len() ==> #[trigger] hands[i] != Some(
            #[trigger] pool[p],
        )
    &&& forall|i: int, j: int|
        0 <= i < j < hands.len() && (#[trigger] hands[i]) is Some ==> hands[i]
            != #[trigger] hands[j]
}

/// Every machine is in one place only, once in the pool or in the hands of one user, and its id
/// has been allocated.
pub open spec fn well_kept<A>(world: World<A>) -> bool {
    kept_apart(world.factory.pool, hands(world.works), world.factory.alloc_id as int)
}

/// What one step of a user's work does to the machines: the user keeps theirs, or loses it, or
/// puts it into the pool; a user with empty hands may get a new one.
proof fn lemma_work_step<A>(f: FactoryView<A>, work: Work, ok: bool)
    ensures
        ({
            let (g, next) = work_stepped(f, work, ok);
            let stays = g.alloc_id == f.alloc_id;
            let fresh = g.alloc_id == id_allocated(f).alloc_id && held(next) == Some(f.alloc_id);
            ||| g.pool == f.pool && stays && (held(next) == held(work) || held(next) is None)
            ||| g.pool == f.pool && fresh && held(work) is None
            ||| held(work) is Some && g.pool == f.pool.push(held(work)->0) && (fresh || (stays
                && held(next) is None))
        }),
{
}

proof fn lemma_apart_update(
    pool: Seq<usize>,
    hands: Seq<Option<usize>>,
    bound: int,
    who: int,
    next: Option<usize>,
)
    requires
        kept_apart(pool, hands, bound),
        0 <= who < hands.len(),
        next == hands[who] || next is None,
    ensures
        kept_apart(pool, hands.update(who, next), bound),
{
    let after = hands.update(who, next);
    assert forall|i: int| 0 <= i < after.len() implies (#[trigger] after[i]) is None || after[i]
        == hands[i] by {}
}

proof fn lemma_apart_fresh(pool: Seq<usize>, hands: Seq<Option<usize>>, bound: usize, who: int)
    requires
        kept_apart(pool, hands, bound as int),
        0 <= who < hands.len(),
    ensures
        kept_apart(pool, hands.update(who, Some(bound)), bound + 1),
{
    let after = hands.update(who, Some(bound));
    assert forall|i: int| 0 <= i < after.len() && i != who implies #[trigger] after[i]
        == hands[i] by {}
}

proof fn lemma_apart_pooled(pool: Seq<usize>, hands: Seq<Option<usize>>, bound: int, who: int)
    requires
        kept_apart(pool, hands, bound),
        0 <= who < hands.len(),
        hands[who] is Some,
    ensures
        kept_apart(pool.push(hands[who]->0), hands.update(who, None), bound),
{
    let after = hands.update(who, None);
    let filled = pool.push(hands[who]->0);
    assert forall|i: int| 0 <= i < after.len() && i != who implies #[trigger] after[i]
        == hands[i] by {}
    assert forall|i: int, p: int|
        0 <= i < after.len() && 0 <= p < filled.len() implies #[trigger] after[i] != Some(
        #[trigger] filled[p],
    ) by {
        if i != who {
            assert(after[i] == hands[i]);
            if p < pool.len() {
                assert(filled[p] == pool[p]);
            }
        }
    }
}

proof fn lemma_apart_push(pool: Seq<usize>, hands: Seq<Option<usize>>, bound: int)
    requires
        kept_apart(pool, hands, bound),
    ensures
        kept_apart(pool, hands.push(None), bound),
{
    let after = hands.push(None);
    assert forall|i: int| 0 <= i < after.len() implies (#[trigger] after[i]) is None || (i
        < hands.len() && after[i] == hands[i]) by {}
}

proof fn lemma_apart_unpooled(pool: Seq<usize>, hands: Seq<Option<usize>>, bound: int, who: int)
    requires
        kept_apart(pool, hands, bound),
        0 <= who < hands.len(),
        hands[who] is None,
        pool.len() > 0,
    ensures
        kept_apart(pool.drop_last(), hands.update(who, Some(pool.last())), bound),
{
    let after = hands.update(who, Some(pool.last()));
    let rest = pool.drop_last();
    assert(pool.last() == pool[pool.len() - 1]);
    assert forall|i: int| 0 <= i < after.len() && i != who implies #[trigger] after[i]
        == hands[i] by {}
    assert forall|p: int| 0 <= p < rest.len() implies #[trigger] rest[p] == pool[p] by {}
    assert forall|i: int, p: int|
        0 <= i < after.len() && 0 <= p < rest.len() implies #[trigger] after[i] != Some(
        #[trigger] rest[p],
    ) by {
        assert(rest[p] == pool[p]);
        if i != who {
            assert(after[i] == hands[i]);
        }
    }
}

proof fn lemma_apart_collected(
    pool: Seq<usize>,
    hands: Seq<Option<usize>>,
    bound: int,
    removed: Seq<bool>,
)
    requires
        kept_apart(pool, hands, bound),
    ensures
        kept_apart(kept(pool, removed), hands, bound),
{
    let rest = kept(pool, removed);
    lemma_kept(pool, removed);
    assert forall|p: int| 0 <= p < rest.len() implies pool.contains(#[trigger] rest[p]) by {
        assert(rest.contains(rest[p]));
    }
    assert(pool.no_duplicates());
}

/// One step keeps every machine in one place, as long as there is an id left.
proof fn lemma_well_kept_step<A>(world: World<A>, step: WorldMove)
    requires
        well_kept(world),
        world.factory.alloc_id < usize::MAX || world_moved(world, step).factory.alloc_id
            == world.factory.alloc_id,
    ensures
        well_kept(world_moved(world, step)),
        world_moved(world, step).factory.alloc_id == world.factory.alloc_id || world_moved(
            world,
            step,
        ).factory.alloc_id == world.factory.alloc_id + 1,
{
    let f = world.factory;
    let before = hands(world.works);
    let bound = f.alloc_id as int;
    let next = world_moved(world, step);
    let after = hands(next.works);
    let joined = before.push(None);
    let newest = world.works.len() as int;
    lemma_apart_push(f.pool, before, bound);
    match step {
        WorldMove::Step { who, ok } => if 0 <= who < world.works.len() {
            lemma_work_step(f, world.works[who], ok);
            let work = next.works[who];
            assert(after =~= before.update(who, held(work)));
            let (g, _) = work_stepped(f, world.works[who], ok);
            if g.pool == f.pool {
                if g.alloc_id == f.alloc_id {
                    lemma_apart_update(f.pool, before, bound, who, held(work));
                } else {
                    lemma_apart_fresh(f.pool, before, f.alloc_id, who);
                }
            } else {
                lemma_apart_pooled(f.pool, before, bound, who);
                let emptied = before.update(who, None);
                assert(after =~= emptied.update(who, held(work)));
                if g.alloc_id != f.alloc_id {
                    lemma_apart_fresh(g.pool, emptied, f.alloc_id, who);
                }
            }
        },
        WorldMove::Return { who } => if 0 <= who < world.works.len() {
            if to_return(world.works[who]) is Some {
                assert(after =~= before.update(who, None));
                lemma_apart_pooled(f.pool, before, bound, who);
            }
        },
        WorldMove::Collect { removed } => {
            lemma_apart_collected(f.pool, before, bound, removed);
        },
        WorldMove::Throw { count } => {},
        WorldMove::Take => {
            assert(after =~= joined.update(newest, Some(f.alloc_id)));
            lemma_apart_fresh(f.pool, joined, f.alloc_id, newest);
        },
        _ => {
            assert(after =~= joined.update(newest, held(next.works[newest])));
            if next.factory.alloc_id != f.alloc_id {
                lemma_apart_fresh(f.pool, joined, f.alloc_id, newest);
            } else if step is Call && f.pool.len() > 0 {
                lemma_apart_unpooled(f.pool, joined, bound, newest);
            }
        },
    }
}

/// However many users share a factory, and however their steps interleave, every machine stays in
/// one place only: once in the pool, or in the hands of one user. So a machine that is built for a
/// user is none of those in the pool or in another user's hands. This holds as long as the ids
/// have not been used up.
pub proof fn law_every_machine_has_one_place<A>(world: World<A>, steps: Seq<WorldMove>)
    requires
        well_kept(world),
        world.factory.alloc_id + ids_used(world, steps) <= usize::MAX,
    ensures
        well_kept(world_after(world, steps)),
        world_after(world, steps).factory.alloc_id == world.factory.alloc_id + ids_used(
            world,
            steps,
        ),
    decreases steps.len(),
{
    if steps.len() > 0 {
        law_every_machine_has_one_place(world, steps.drop_last());
        lemma_well_kept_step(world_after(world, steps.drop_last()), steps.last());
    }
}

/// Two calls never run on the same machine, and a machine that a call runs on is in nobody
/// else's reach, until it is put back.
pub proof fn law_called_machine_is_exclusive<A>(
    world: World<A>,
    steps: Seq<WorldMove>,
    one: int,
    other: int,
)
    requires
        well_kept(world),
        world.factory.alloc_id + ids_used(world, steps) <= usize::MAX,
        0 <= one < world_after(world, steps).works.len(),
        0 <= other < world_after(world, steps).works.len(),
        one != other,
    ensures
        ({
            let after = world_after(world, steps);
            held(after.works[one]) matches Some(vm) ==> {
                &&& held(after.works[other]) != Some(vm)
                &&& !after.factory.pool.contains(vm)
            }
        }),
{
    law_every_machine_has_one_place(world, steps);
    let after = world_after(world, steps);
    assert(hands(after.works)[one] == held(after.works[one]));
    assert(hands(after.works)[other] == held(after.works[other]));
}

/// In a new factory nothing is out of place.
pub proof fn law_new_factory_is_well_kept<A>(f: FactoryView<A>)
    requires
        f.pool.len() == 0,
    ensures
        well_kept(World { factory: f, works: Seq::empty() }),
{
}

} // verus!
