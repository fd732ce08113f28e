//! Building machines ahead of time and pooling them.

use crate::assembly::{
    build_next, build_start, id_allocated, later_id, plan_len, plan_stage, stage_vm, BuildFailure,
    BuildStage, VmRequest,
};
use crate::factory::{pooled, thrown, FactoryView, VMFactory};
use crate::foreign::{debug_text, quoted};
use crate::text::{decimal, decimal_text};
use vstd::prelude::*;
use vstd::string::StringExecFns;

verus! {

/// Why machines could not be produced.
#[derive(Clone, Copy, Debug, PartialEq, Eq, Structural)]
pub enum ProduceError {
    /// `count` more machines beside the `size` that exist would exceed the capacity.
    Full { capacity: usize, size: usize, count: usize },
    /// A machine could not be built.
    NewVm { cause: BuildFailure },
}

/// Where the production of machines stands, and what the host does next.
#[derive(Clone, Copy, Debug, PartialEq, Eq)]
pub enum ProduceStage {
    /// Look the factory up by its name in the register; the reply tells whether it is there.
    CheckRegistered { count: usize },
    /// Enter the factory into the register under its name.
    Register { count: usize },
    /// Do what `stage` says; the reply is the one it asks for. `left` machines are missing yet,
    /// this one included.
    Build { before: usize, left: usize, stage: BuildStage },
    /// Force the new machine to release its global object.
    FreeGlobal { before: usize, left: usize, vm: usize },
    /// The machines are pooled; so many machines existed before the first was built.
    Done { before: usize },
    /// No further machine is built. Those that were pooled stay in the pool.
    Failed(ProduceError),
}

/// What follows on a stage of the build of one machine.
pub open spec fn produce_built(before: usize, left: usize, stage: BuildStage) -> ProduceStage {
    match stage {
        BuildStage::Done { vm } => ProduceStage::FreeGlobal { before, left, vm },
        BuildStage::Failed(cause) => ProduceStage::Failed(ProduceError::NewVm { cause }),
        _ => ProduceStage::Build { before, left, stage },
    }
}

/// What follows once the factory is registered: nothing is to be built, or there is no room, or
/// the first machine is started.
pub open spec fn produce_begun<A>(f: FactoryView<A>, count: usize) -> (
    FactoryView<A>,
    ProduceStage,
) {
    if count == 0 {
        (f, ProduceStage::Done { before: f.size })
    } else if f.size + count > f.capacity {
        (
            f,
            ProduceStage::Failed(
                ProduceError::Full { capacity: f.capacity, size: f.size, count },
            ),
        )
    } else {
        let (started, stage) = build_start(f);
        (started, produce_built(f.size, count, stage))
    }
}

/// One step of a production: the factory and the stage after `stage`, where `ok` is what the
/// action of `stage` returned.
pub open spec fn produce_next<A>(f: FactoryView<A>, stage: ProduceStage, ok: bool) -> (
    FactoryView<A>,
    ProduceStage,
) {
    match stage {
        ProduceStage::CheckRegistered { count } => if ok {
            produce_begun(f, count)
        } else {
            (f, ProduceStage::Register { count })
        },
        ProduceStage::Register { count } => produce_begun(f, count),
        ProduceStage::Build { before, left, stage } => {
            let (built, next) = build_next(f, stage, ok);
            (built, produce_built(before, left, next))
        },
        ProduceStage::FreeGlobal { before, left, vm } => if left <= 1 {
            (pooled(f, vm), ProduceStage::Done { before })
        } else {
            let (started, next) = build_start(pooled(f, vm));
            (started, produce_built(before, (left - 1) as usize, next))
        },
        ProduceStage::Done { before } => (f, stage),
        ProduceStage::Failed(error) => (f, stage),
    }
}

/// The message of an error that a factory ran into whose name is shown as `shown`.
pub open spec fn produce_text(shown: Seq<char>, error: ProduceError) -> Seq<char> {
    match error {
        ProduceError::Full { capacity, size, count } => {
            "vm factory full, factory: "@ + shown + ", capacity: "@ + decimal(capacity as nat)
                + ", size: "@ + decimal(size as nat) + ", count: "@ + decimal(count as nat)
        },
        ProduceError::NewVm { cause } => "vm factory, new vm failed, factory: "@ + shown,
    }
}

/// The message of an error that the factory called `name` ran into.
pub open spec fn produce_message(name: Seq<char>, error: ProduceError) -> Seq<char> {
    produce_text(debug_text(name), error)
}

fn produce_after_build(before: usize, left: usize, stage: BuildStage) -> (next: ProduceStage)
    ensures
        next == produce_built(before, left, stage),
{
    match stage {
        BuildStage::Done { vm } => ProduceStage::FreeGlobal { before, left, vm },
        BuildStage::Failed(cause) => ProduceStage::Failed(ProduceError::NewVm { cause }),
        _ => ProduceStage::Build { before, left, stage },
    }
}

impl ProduceError {
    /// The message of this error, for the factory with the given name.
    pub fn message(&self, name: &str) -> (message: String)
        ensures
            message@ == produce_message(name@, *self),
    {
        self.message_for(quoted(name).as_str())
    }

    /// The message of this error, for a factory whose name is shown as `shown`.
    pub fn message_for(&self, shown: &str) -> (message: String)
        ensures
            message@ == produce_text(shown@, *self),
    {
        match *self {
            ProduceError::Full { capacity, size, count } => {
                "vm factory full, factory: ".to_string().concat(shown).concat(
                    ", capacity: ",
                ).concat(decimal_text(capacity).as_str()).concat(", size: ").concat(
                    decimal_text(size).as_str(),
                ).concat(", count: ").concat(decimal_text(count).as_str())
            },
            ProduceError::NewVm { cause: _ } => {
                "vm factory, new vm failed, factory: ".to_string().concat(shown)
            },
        }
    }
}

impl<A> VMFactory<A> {
    /// Starts producing `count` machines for the pool. The host first makes sure that the
    /// factory is registered, whatever `count` is.
    ///
    /// A production ends with the number of machines that existed before the first was built.
    pub fn produce(&self, count: usize) -> (stage: ProduceStage)
        ensures
            stage == (ProduceStage::CheckRegistered { count }),
    {
        ProduceStage::CheckRegistered { count }
    }

    /// Takes a production one stage further. `ok` is what the action of `stage` returned; where
    /// the action returns nothing, it is not looked at.
    pub fn produce_step(&mut self, stage: ProduceStage, ok: bool) -> (next: ProduceStage)
        ensures
            (final(self)@, next) == produce_next(old(self)@, stage, ok),
    {
        match stage {
            ProduceStage::CheckRegistered { count } => if ok {
                self.begin_production(count)
            } else {
                ProduceStage::Register { count }
            },
            ProduceStage::Register { count } => self.begin_production(count),
            ProduceStage::Build { before, left, stage } => {
                let next = self.build_step(stage, ok);
                produce_after_build(before, left, next)
            },
            ProduceStage::FreeGlobal { before, left, vm } => {
                self.reuse(vm);
                if left <= 1 {
                    ProduceStage::Done { before }
                } else {
                    let next = self.new_vm();
                    produce_after_build(before, left - 1, next)
                }
            },
            ProduceStage::Done { before } => ProduceStage::Done { before },
            ProduceStage::Failed(error) => ProduceStage::Failed(error),
        }
    }

    fn begin_production(&mut self, count: usize) -> (next: ProduceStage)
        ensures
            (final(self)@, next) == produce_begun(old(self)@, count),
    {
        let before: usize = self.size();
        let capacity: usize = self.capacity();
        if count == 0 {
            ProduceStage::Done { before }
        } else if count > capacity || before > capacity - count {
            ProduceStage::Failed(ProduceError::Full { capacity, size: before, count })
        } else {
            let next = self.new_vm();
            produce_after_build(before, count, next)
        }
    }

    /// Stops counting `count` machines and starts producing as many anew. The number wraps
    /// where more machines leave than were counted.
    pub fn reset(&mut self, count: usize) -> (stage: ProduceStage)
        ensures
            final(self)@ == thrown(old(self)@, count),
            stage == (ProduceStage::CheckRegistered { count }),
    {
        self.throw(count);
        self.produce(count)
    }

    /// What a finished production returns, or `None` while it goes on.
    pub fn produced(&self, stage: &ProduceStage) -> (result: Option<Result<usize, String>>)
        ensures
            match *stage {
                ProduceStage::Done { before } => result == Some(Ok::<usize, String>(before)),
                ProduceStage::Failed(error) => result matches Some(Err(message)) && message@
                    == produce_message(self@.name, error),
                _ => result is None,
            },
    {
        match *stage {
            ProduceStage::Done { before } => Some(Ok(before)),
            ProduceStage::Failed(error) => Some(Err(error.message(self.name().as_str()))),
            _ => None,
        }
    }
}

/// A production after the given replies, while nobody else uses the factory.
pub open spec fn produce_after<A>(f: FactoryView<A>, stage: ProduceStage, replies: Seq<bool>) -> (
    FactoryView<A>,
    ProduceStage,
)
    decreases replies.len(),
{
    if replies.len() == 0 {
        (f, stage)
    } else {
        let (g, reached) = produce_after(f, stage, replies.drop_last());
        produce_next(g, reached, replies.last())
    }
}

/// The ids of `count` machines that are built one after the other, beginning with `first`.
pub open spec fn ids_from(first: usize, count: nat) -> Seq<usize> {
    Seq::new(count, |i: int| later_id(first, i) as usize)
}

/// The factory after `count` machines were built and pooled.
pub open spec fn stocked<A>(f: FactoryView<A>, count: nat) -> FactoryView<A> {
    FactoryView {
        size: (f.size + count) as usize,
        alloc_id: later_id(f.alloc_id, count as int) as usize,
        pool: f.pool + ids_from(f.alloc_id, count),
        ..f
    }
}

/// The factory after a slot was claimed and an id allocated for one more machine.
pub open spec fn slot_taken<A>(f: FactoryView<A>) -> FactoryView<A> {
    id_allocated(FactoryView { size: (f.size + 1) as usize, ..f })
}

/// What holds between `f`, where a production of `count` machines began, and where it is now.
spec fn production_state<A>(
    f: FactoryView<A>,
    count: usize,
    g: FactoryView<A>,
    stage: ProduceStage,
) -> bool {
    match stage {
        ProduceStage::CheckRegistered { count: c } => g == f && c == count,
        ProduceStage::Register { count: c } => g == f && c == count,
        ProduceStage::Build { before, left, stage } => {
            let base = stocked(f, (count - left) as nat);
            &&& f.size + count <= f.capacity
            &&& before == f.size
            &&& 1 <= left <= count
            &&& match stage_vm(stage) {
                Some(vm) => g == slot_taken(base) && vm == base.alloc_id,
                None => g == base && (stage is Swap || stage is Pause),
            }
        },
        ProduceStage::FreeGlobal { before, left, vm } => {
            let base = stocked(f, (count - left) as nat);
            &&& f.size + count <= f.capacity
            &&& before == f.size
            &&& 1 <= left <= count
            &&& g == slot_taken(base)
            &&& vm == base.alloc_id
        },
        ProduceStage::Done { before } => before == f.size && g == stocked(f, count as nat),
        ProduceStage::Failed(error) => match error {
            ProduceError::Full { capacity, size, count: c } => {
                &&& g == f
                &&& count > 0
                &&& f.size + count > f.capacity
                &&& capacity == f.capacity
                &&& size == f.size
                &&& c == count
            },
            ProduceError::NewVm { cause } => {
                &&& f.size + count <= f.capacity
                &&& exists|built: nat|
                    built < count && g == slot_taken(#[trigger] stocked(f, built))
            },
        },
    }
}

proof fn lemma_stocked_next<A>(f: FactoryView<A>, count: nat)
    requires
        f.size + count + 1 <= f.capacity,
    ensures
        pooled(slot_taken(stocked(f, count)), stocked(f, count).alloc_id) == stocked(f, count + 1),
{
    let g = pooled(slot_taken(stocked(f, count)), stocked(f, count).alloc_id);
    assert(g.pool =~= f.pool + ids_from(f.alloc_id, count + 1));
}

proof fn lemma_stocked_none<A>(f: FactoryView<A>)
    ensures
        stocked(f, 0) == f,
{
    assert(stocked(f, 0).pool =~= f.pool);
}

proof fn lemma_production_step<A>(
    f: FactoryView<A>,
    count: usize,
    g: FactoryView<A>,
    stage: ProduceStage,
    ok: bool,
)
    requires
        production_state(f, count, g, stage),
    ensures
        production_state(f, count, produce_next(g, stage, ok).0, produce_next(g, stage, ok).1),
{
    lemma_stocked_none(f);
    if let ProduceStage::FreeGlobal { before, left, vm } = stage {
        lemma_stocked_next(f, (count - left) as nat);
    }
}

proof fn lemma_production<A>(f: FactoryView<A>, count: usize, replies: Seq<bool>)
    ensures
        production_state(
            f,
            count,
            produce_after(f, ProduceStage::CheckRegistered { count }, replies).0,
            produce_after(f, ProduceStage::CheckRegistered { count }, replies).1,
        ),
    decreases replies.len(),
{
    if replies.len() > 0 {
        lemma_production(f, count, replies.drop_last());
        let (g, stage) = produce_after(
            f,
            ProduceStage::CheckRegistered { count },
            replies.drop_last(),
        );
        lemma_production_step(f, count, g, stage, replies.last());
    }
}

/// A production that ends well has built exactly `count` machines: so many more are counted, so
/// many fresh ids are used up, and these machines lie on top of the pool. It returns how many
/// machines existed before. A production for which there is no room changes nothing. A production
/// that ends because a machine could not be built leaves those in the pool that were built before
/// it, fewer than `count`; the slot and the id of the failed one stay taken.
pub proof fn law_production_fills_the_pool<A>(f: FactoryView<A>, count: usize, replies: Seq<bool>)
    ensures
        ({
            let (g, stage) = produce_after(f, ProduceStage::CheckRegistered { count }, replies);
            &&& stage is Done ==> stage == (ProduceStage::Done { before: f.size }) && g == stocked(
                f,
                count as nat,
            )
            &&& stage matches ProduceStage::Failed(ProduceError::Full { .. }) ==> g == f && f.size
                + count > f.capacity
            &&& stage matches ProduceStage::Failed(ProduceError::NewVm { .. }) ==> exists|
                built: nat,
            |
                {
                    &&& built < count
                    &&& g == slot_taken(#[trigger] stocked(f, built))
                    &&& g.pool == f.pool + ids_from(f.alloc_id, built)
                }
        }),
{
    lemma_production(f, count, replies);
    let (g, stage) = produce_after(f, ProduceStage::CheckRegistered { count }, replies);
    if stage matches ProduceStage::Failed(ProduceError::NewVm { .. }) {
        let built = choose|built: nat|
            built < count && g == slot_taken(#[trigger] stocked(f, built));
        assert(g.pool == f.pool + ids_from(f.alloc_id, built));
    }
}

/// A production after `steps` replies of `true`, while nobody else uses the factory.
pub open spec fn produce_willing<A>(f: FactoryView<A>, stage: ProduceStage, steps: nat) -> (
    FactoryView<A>,
    ProduceStage,
)
    decreases steps,
{
    if steps == 0 {
        (f, stage)
    } else {
        let (g, reached) = produce_willing(f, stage, (steps - 1) as nat);
        produce_next(g, reached, true)
    }
}

proof fn lemma_willing_sum<A>(f: FactoryView<A>, stage: ProduceStage, first: nat, then: nat)
    ensures
        produce_willing(f, stage, first + then) == produce_willing(
            produce_willing(f, stage, first).0,
            produce_willing(f, stage, first).1,
            then,
        ),
    decreases then,
{
    if then > 0 {
        lemma_willing_sum(f, stage, first, (then - 1) as nat);
    }
}

/// The steps that one machine takes: its slot, the actions of its plan, and its pooling.
pub open spec fn machine_steps<A>(f: FactoryView<A>) -> nat {
    plan_len(f.codes.len(), f.capacity) + 2
}

proof fn lemma_willing_build<A>(f: FactoryView<A>, before: usize, left: usize, at: nat)
    requires
        f.codes.len() <= usize::MAX,
        f.size < f.capacity,
        at <= plan_len(f.codes.len(), f.capacity),
    ensures
        produce_willing(
            f,
            ProduceStage::Build { before, left, stage: BuildStage::Swap { observed: f.size } },
            at + 1,
        ) == (
            slot_taken(f),
            produce_built(
                before,
                left,
                plan_stage(
                    f.codes.len(),
                    f.capacity,
                    VmRequest { id: f.alloc_id, reusable: true },
                    at as int,
                ),
            ),
        ),
    decreases at,
{
    let start = ProduceStage::Build {
        before,
        left,
        stage: BuildStage::Swap { observed: f.size },
    };
    if at == 0 {
        assert(produce_willing(f, start, 0) == (f, start));
    } else {
        lemma_willing_build(f, before, left, (at - 1) as nat);
    }
}

proof fn lemma_willing_machines<A>(f: FactoryView<A>, before: usize, left: usize)
    requires
        f.codes.len() <= usize::MAX,
        f.size + left <= f.capacity,
        left >= 1,
    ensures
        produce_willing(
            f,
            ProduceStage::Build { before, left, stage: BuildStage::Swap { observed: f.size } },
            left as nat * machine_steps(f),
        ).1 == (ProduceStage::Done { before }),
    decreases left,
{
    let start = ProduceStage::Build {
        before,
        left,
        stage: BuildStage::Swap { observed: f.size },
    };
    let plan = plan_len(f.codes.len(), f.capacity);
    lemma_willing_build(f, before, left, plan);
    let pooled_f = pooled(slot_taken(f), f.alloc_id);
    assert(produce_willing(f, start, (plan + 1) as nat).1 == (ProduceStage::FreeGlobal {
        before,
        left,
        vm: f.alloc_id,
    }));
    let (g, next) = produce_willing(f, start, machine_steps(f));
    if left == 1 {
        assert(left as nat * machine_steps(f) == machine_steps(f)) by (nonlinear_arith)
            requires
                left == 1,
        ;
        assert(next == (ProduceStage::Done { before }));
    } else {
        let fewer = (left - 1) as usize;
        assert(g == pooled_f);
        assert(next == (ProduceStage::Build {
            before,
            left: fewer,
            stage: BuildStage::Swap { observed: g.size },
        }));
        lemma_willing_machines(g, before, fewer);
        let all = left as nat * machine_steps(f);
        let rest = fewer as nat * machine_steps(f);
        assert(all == machine_steps(f) + rest) by (nonlinear_arith)
            requires
                all == left as nat * machine_steps(f),
                rest == fewer as nat * machine_steps(f),
                fewer == left - 1,
        ;
        lemma_willing_sum(f, start, machine_steps(f), rest);
    }
}

/// A production for which there is room, by a host that refuses nothing while nobody else uses
/// the factory, ends well.
pub proof fn law_production_with_room_succeeds<A>(f: FactoryView<A>, count: usize)
    requires
        f.codes.len() <= usize::MAX,
        count == 0 || f.size + count <= f.capacity,
    ensures
        produce_willing(
            f,
            ProduceStage::CheckRegistered { count },
            1 + count as nat * machine_steps(f),
        ).1 == (ProduceStage::Done { before: f.size }),
{
    let start = ProduceStage::CheckRegistered { count };
    let rest = count as nat * machine_steps(f);
    assert(produce_willing(f, start, 0) == (f, start));
    let (g, next) = produce_willing(f, start, 1);
    lemma_willing_sum(f, start, 1, rest);
    if count == 0 {
        assert(rest == 0) by (nonlinear_arith)
            requires
                rest == count as nat * machine_steps(f),
                count == 0,
        ;
    } else {
        lemma_willing_machines(f, f.size, count);
    }
}

/// To reset machines is to throw them away and to produce as many: where the production ends
/// well, the number of machines is what it was.
pub proof fn law_reset_restores_the_number<A>(f: FactoryView<A>, count: usize, replies: Seq<bool>)
    requires
        count <= f.size,
    ensures
        ({
            let (g, stage) = produce_after(
                thrown(f, count),
                ProduceStage::CheckRegistered { count },
                replies,
            );
            stage is Done ==> g.size == f.size && stage == (ProduceStage::Done {
                before: (f.size - count) as usize,
            })
        }),
{
    lemma_production(thrown(f, count), count, replies);
}

/// A production that finds its factory registered, or has registered it, begins: it is done at
/// once where nothing is to be produced, fails where the machines would exceed the capacity, and
/// else goes for the first slot. None of this changes the factory. A production that does not
/// find its factory registered registers it first.
pub proof fn law_production_begins_where_there_is_room<A>(
    f: FactoryView<A>,
    count: usize,
    ok: bool,
)
    ensures
        produce_next(f, ProduceStage::CheckRegistered { count }, false) == (
            f,
            ProduceStage::Register { count },
        ),
        ({
            let begun = (
                f,
                if count == 0 {
                    ProduceStage::Done { before: f.size }
                } else if f.size + count > f.capacity {
                    ProduceStage::Failed(
                        ProduceError::Full { capacity: f.capacity, size: f.size, count },
                    )
                } else {
                    ProduceStage::Build {
                        before: f.size,
                        left: count,
                        stage: BuildStage::Swap { observed: f.size },
                    }
                },
            );
            &&& produce_next(f, ProduceStage::CheckRegistered { count }, true) == begun
            &&& produce_next(f, ProduceStage::Register { count }, ok) == begun
        }),
{
}

/// A build for a production does to the factory what any build does. The machine that was built
/// is released and then pooled; a build that fails ends the production with its cause.
pub proof fn law_production_builds_its_machines<A>(
    f: FactoryView<A>,
    before: usize,
    left: usize,
    stage: BuildStage,
    ok: bool,
)
    ensures
        ({
            let (built, reached) = build_next(f, stage, ok);
            let (g, next) = produce_next(f, ProduceStage::Build { before, left, stage }, ok);
            &&& g == built
            &&& match reached {
                BuildStage::Done { vm } => next == (ProduceStage::FreeGlobal { before, left, vm }),
                BuildStage::Failed(cause) => next == ProduceStage::Failed(
                    ProduceError::NewVm { cause },
                ),
                _ => next == (ProduceStage::Build { before, left, stage: reached }),
            }
        }),
{
}

/// A machine that was built is put on top of the pool. If it was the last one, the production is
/// done, and returns how many machines existed before; else one machine less is missing, and the
/// next build starts where there is a slot.
pub proof fn law_produced_machine_is_pooled<A>(
    f: FactoryView<A>,
    before: usize,
    left: usize,
    vm: usize,
    ok: bool,
)
    ensures
        ({
            let (g, next) = produce_next(f, ProduceStage::FreeGlobal { before, left, vm }, ok);
            &&& g.pool == f.pool.push(vm)
            &&& g == (FactoryView { pool: g.pool, alloc_id: g.alloc_id, ..f })
            &&& left > 1 && f.capacity == 0 || g.alloc_id == f.alloc_id
            &&& left <= 1 ==> next == (ProduceStage::Done { before })
            &&& left > 1 && f.capacity > 0 && f.size < f.capacity ==> next == (
            ProduceStage::Build {
                before,
                left: (left - 1) as usize,
                stage: BuildStage::Swap { observed: f.size },
            })
            &&& left > 1 && f.capacity > 0 && f.size >= f.capacity ==> next
                == ProduceStage::Failed(
                ProduceError::NewVm { cause: BuildFailure::Full { size: f.size } },
            )
            &&& left > 1 && f.capacity == 0 ==> {
                &&& next == (ProduceStage::Build {
                    before,
                    left: (left - 1) as usize,
                    stage: BuildStage::Create(VmRequest { id: f.alloc_id, reusable: false }),
                })
                &&& f.alloc_id < usize::MAX ==> g.alloc_id == f.alloc_id + 1
                &&& f.alloc_id == usize::MAX ==> g.alloc_id == 0
            }
        }),
{
}

/// A production that is over stays as it is.
pub proof fn law_finished_production_stays<A>(
    f: FactoryView<A>,
    before: usize,
    error: ProduceError,
    ok: bool,
)
    ensures
        produce_next(f, ProduceStage::Done { before }, ok) == (f, ProduceStage::Done { before }),
        produce_next(f, ProduceStage::Failed(error), ok) == (f, ProduceStage::Failed(error)),
{
}

/// A message names the factory as it is shown, behind words that tell the error; where there was
/// no room, it goes on with the capacity, the number of machines and the number that was asked
/// for, in this order.
pub proof fn law_message_tells_the_error(
    name: Seq<char>,
    shown: Seq<char>,
    capacity: usize,
    size: usize,
    count: usize,
    cause: BuildFailure,
)
    ensures
        produce_text(shown, ProduceError::Full { capacity, size, count })
            == "vm factory full, factory: "@ + shown + ", capacity: "@ + decimal(capacity as nat)
            + ", size: "@ + decimal(size as nat) + ", count: "@ + decimal(count as nat),
        produce_text(shown, ProduceError::NewVm { cause })
            == "vm factory, new vm failed, factory: "@ + shown,
        produce_message(name, ProduceError::Full { capacity, size, count }) == produce_text(
            debug_text(name),
            ProduceError::Full { capacity, size, count },
        ),
        produce_message(name, ProduceError::NewVm { cause }) == produce_text(
            debug_text(name),
            ProduceError::NewVm { cause },
        ),
{
}

} // verus!
