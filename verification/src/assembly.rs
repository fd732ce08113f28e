//! Building one machine: claiming a slot, creating the machine, loading its bytecode and
//! preparing its global object.
//!
//! A build is a walk through stages. Each stage names one action of the host; what the action
//! returned leads to the next stage. Between two stages other users of the factory may act.

use crate::factory::{counted_up, FactoryView};
use crate::foreign::atom_text;
use crate::meters::{build_timed, Counter, Timer};
use pi_atom::Atom;
use std::sync::Arc;
use vstd::prelude::*;

verus! {

/// The machine that the host is asked to create.
#[derive(Clone, Copy, Debug, PartialEq, Eq, Structural)]
pub struct VmRequest {
    /// The id of the machine.
    pub id: usize,
    /// Whether the machine goes back to its factory when it is done.
    pub reusable: bool,
}

/// What the host hands to the engine to create a machine.
pub struct VmCreation<A> {
    /// The id of the machine.
    pub id: usize,
    /// The name of its factory.
    pub name: Atom,
    /// The grant of native objects.
    pub auth: Arc<A>,
    /// The flag that a machine gets that goes back to its factory when it is done. Beside the
    /// flag it gets a handle of the factory. Any other machine gets neither.
    pub reuse: Option<bool>,
}

/// Whether `creation` is how the factory has the machine of `request` created: under the
/// request's id, with the factory's name and grant, and, where it is reused, with its flag down.
pub open spec fn creates<A>(
    f: FactoryView<A>,
    request: VmRequest,
    creation: VmCreation<A>,
) -> bool {
    &&& creation.id == request.id
    &&& atom_text(creation.name) == f.name
    &&& *creation.auth == f.auth
    &&& creation.reuse == if request.reusable {
        Some(false)
    } else {
        None
    }
}

/// Why a build ended without a machine.
#[derive(Clone, Copy, Debug, PartialEq, Eq, Structural)]
pub enum BuildFailure {
    /// All slots were taken; `size` machines existed.
    Full { size: usize },
    /// The machine could not be created.
    NotCreated,
    /// The machine did not accept the piece of bytecode at `index`.
    NotLoaded { index: usize },
    /// The template of the global object could not be made.
    NoGlobalTemplate,
    /// The global object could not be allocated.
    NoGlobal,
}

/// Where a build stands, and what the host does next.
#[derive(Clone, Copy, Debug, PartialEq, Eq, Structural)]
pub enum BuildStage {
    /// Nothing to do: the next step claims a slot, if `observed` machines exist still.
    Swap { observed: usize },
    /// Give way to other threads for a moment: the number of machines had changed.
    Pause { observed: usize },
    /// Create the machine as the factory's `creation` says; the reply tells whether it exists.
    Create(VmRequest),
    /// Load the piece of bytecode at `index`; the reply tells whether it was accepted.
    Load { vm: usize, index: usize },
    /// See whether the machine ran the piece at `index`; the reply tells. After a `false`, give
    /// way to other threads before asking again.
    Await { vm: usize, index: usize },
    /// Make the template of the global object; the reply tells whether that worked.
    NewGlobalTemplate { vm: usize },
    /// Replace the global object by one made from the template; the reply tells whether that
    /// worked.
    AllocGlobal { vm: usize },
    /// Let the machine's collector run from now on.
    UnlockCollection { vm: usize },
    /// Let the machine note its heap size.
    UpdateLastHeapSize { vm: usize },
    /// Raise this counter by one.
    Count { vm: usize, counter: Counter },
    /// The machine is ready.
    Done { vm: usize },
    /// There is no machine.
    Failed(BuildFailure),
}

/// The factory once its next id is used up.
pub open spec fn id_allocated<A>(f: FactoryView<A>) -> FactoryView<A> {
    FactoryView { alloc_id: counted_up(f.alloc_id), ..f }
}

/// The id that is allocated `steps` allocations after `first`.
pub open spec fn later_id(first: usize, steps: int) -> int {
    if first + steps <= usize::MAX {
        first + steps
    } else {
        first + steps - usize::MAX - 1
    }
}

/// How a build starts: machines that are not counted are created at once; a counted one needs a
/// free slot.
pub open spec fn build_start<A>(f: FactoryView<A>) -> (FactoryView<A>, BuildStage) {
    if f.capacity == 0 {
        (id_allocated(f), BuildStage::Create(VmRequest { id: f.alloc_id, reusable: false }))
    } else if f.size >= f.capacity {
        (f, BuildStage::Failed(BuildFailure::Full { size: f.size }))
    } else {
        (f, BuildStage::Swap { observed: f.size })
    }
}

/// The attempt to claim a slot after `observed` machines were seen. It succeeds only while that
/// number stands and is below the capacity.
pub open spec fn slot_claimed<A>(f: FactoryView<A>, observed: usize) -> (
    FactoryView<A>,
    BuildStage,
) {
    if f.size >= f.capacity {
        (f, BuildStage::Failed(BuildFailure::Full { size: f.size }))
    } else if f.size == observed {
        (
            id_allocated(FactoryView { size: (f.size + 1) as usize, ..f }),
            BuildStage::Create(VmRequest { id: f.alloc_id, reusable: true }),
        )
    } else {
        (f, BuildStage::Pause { observed: f.size })
    }
}

/// The stage in which `vm` loads the piece at `index`. Behind the last piece, a counted machine
/// gets its global object, and any other is ready but for its heap size.
pub open spec fn load_stage<A>(f: FactoryView<A>, vm: usize, index: int) -> BuildStage {
    if index < f.codes.len() {
        BuildStage::Load { vm, index: index as usize }
    } else if f.capacity > 0 {
        BuildStage::NewGlobalTemplate { vm }
    } else {
        BuildStage::UpdateLastHeapSize { vm }
    }
}

/// One step of a build: the factory and the stage after `stage`, where `ok` is what the action
/// of `stage` returned.
pub open spec fn build_next<A>(f: FactoryView<A>, stage: BuildStage, ok: bool) -> (
    FactoryView<A>,
    BuildStage,
) {
    match stage {
        BuildStage::Swap { observed } => slot_claimed(f, observed),
        BuildStage::Pause { observed } => slot_claimed(f, observed),
        BuildStage::Create(request) => (
            f,
            if ok {
                load_stage(f, request.id, 0)
            } else {
                BuildStage::Failed(BuildFailure::NotCreated)
            },
        ),
        BuildStage::Load { vm, index } => (
            f,
            if ok {
                BuildStage::Await { vm, index }
            } else {
                BuildStage::Failed(BuildFailure::NotLoaded { index })
            },
        ),
        BuildStage::Await { vm, index } => (
            f,
            if ok {
                load_stage(f, vm, index + 1)
            } else {
                stage
            },
        ),
        BuildStage::NewGlobalTemplate { vm } => (
            f,
            if ok {
                BuildStage::AllocGlobal { vm }
            } else {
                BuildStage::Failed(BuildFailure::NoGlobalTemplate)
            },
        ),
        BuildStage::AllocGlobal { vm } => (
            f,
            if ok {
                BuildStage::UnlockCollection { vm }
            } else {
                BuildStage::Failed(BuildFailure::NoGlobal)
            },
        ),
        BuildStage::UnlockCollection { vm } => (f, BuildStage::UpdateLastHeapSize { vm }),
        BuildStage::UpdateLastHeapSize { vm } => (
            f,
            BuildStage::Count { vm, counter: Counter::VmCount },
        ),
        BuildStage::Count { vm, counter } => (f, BuildStage::Done { vm }),
        BuildStage::Done { vm } => (f, stage),
        BuildStage::Failed(failure) => (f, stage),
    }
}

/// The machine that a build is about, once it has been asked for.
pub open spec fn stage_vm(stage: BuildStage) -> Option<usize> {
    match stage {
        BuildStage::Create(request) => Some(request.id),
        BuildStage::Load { vm, index } => Some(vm),
        BuildStage::Await { vm, index } => Some(vm),
        BuildStage::NewGlobalTemplate { vm } => Some(vm),
        BuildStage::AllocGlobal { vm } => Some(vm),
        BuildStage::UnlockCollection { vm } => Some(vm),
        BuildStage::UpdateLastHeapSize { vm } => Some(vm),
        BuildStage::Count { vm, counter } => Some(vm),
        BuildStage::Done { vm } => Some(vm),
        _ => None,
    }
}

/// Whether the action of `stage` has been carried out once the host replied `ok`.
pub open spec fn action_done(stage: BuildStage, ok: bool) -> bool {
    match stage {
        BuildStage::Create(_) => ok,
        BuildStage::Load { .. } => ok,
        BuildStage::Await { .. } => ok,
        BuildStage::NewGlobalTemplate { .. } => ok,
        BuildStage::AllocGlobal { .. } => ok,
        BuildStage::UnlockCollection { .. } => true,
        BuildStage::UpdateLastHeapSize { .. } => true,
        BuildStage::Count { .. } => true,
        _ => false,
    }
}

/// The stage of a build after `steps`. Each step sees the factory as other users have left it
/// by then, and comes with the host's reply.
pub open spec fn stage_after<A>(start: BuildStage, steps: Seq<(FactoryView<A>, bool)>) -> BuildStage
    decreases steps.len(),
{
    if steps.len() == 0 {
        start
    } else {
        build_next(
            steps.last().0,
            stage_after(start, steps.drop_last()),
            steps.last().1,
        ).1
    }
}

/// How many actions of a build have been carried out after `steps`.
pub open spec fn actions_after<A>(start: BuildStage, steps: Seq<(FactoryView<A>, bool)>) -> nat
    decreases steps.len(),
{
    if steps.len() == 0 {
        0
    } else {
        let before = stage_after(start, steps.drop_last());
        actions_after(start, steps.drop_last()) + if action_done(before, steps.last().1) {
            1nat
        } else {
            0nat
        }
    }
}

/// How many actions it takes to build a machine from `pieces` pieces of bytecode.
pub open spec fn plan_len(pieces: nat, capacity: usize) -> nat {
    if capacity > 0 {
        2 * pieces + 6
    } else {
        2 * pieces + 3
    }
}

/// The plan of a build, stage by stage: the machine is created; each piece of bytecode is
/// loaded, in order, and has run before the next one is loaded; a counted machine gets its
/// global object and has its collector unlocked; the heap size is noted; the machine is counted;
/// the machine is ready.
pub open spec fn plan_stage(
    pieces: nat,
    capacity: usize,
    request: VmRequest,
    at: int,
) -> BuildStage {
    let vm = request.id;
    let behind = at - (2 * pieces + 1);
    if at <= 0 {
        BuildStage::Create(request)
    } else if behind < 0 {
        if (at - 1) % 2 == 0 {
            BuildStage::Load { vm, index: ((at - 1) / 2) as usize }
        } else {
            BuildStage::Await { vm, index: ((at - 1) / 2) as usize }
        }
    } else if capacity > 0 && behind == 0 {
        BuildStage::NewGlobalTemplate { vm }
    } else if capacity > 0 && behind == 1 {
        BuildStage::AllocGlobal { vm }
    } else if capacity > 0 && behind == 2 {
        BuildStage::UnlockCollection { vm }
    } else if at + 2 == plan_len(pieces, capacity) {
        BuildStage::UpdateLastHeapSize { vm }
    } else if at + 1 == plan_len(pieces, capacity) {
        BuildStage::Count { vm, counter: Counter::VmCount }
    } else {
        BuildStage::Done { vm }
    }
}

/// A build that has not failed stands exactly where its plan stands after as many actions as
/// were carried out, whatever the host replied and whatever others did to the factory's
/// counters and pool meanwhile.
pub proof fn law_build_follows_plan<A>(
    codes: Seq<Seq<u8>>,
    capacity: usize,
    request: VmRequest,
    steps: Seq<(FactoryView<A>, bool)>,
)
    requires
        codes.len() <= usize::MAX,
        forall|i: int|
            0 <= i < steps.len() ==> (#[trigger] steps[i]).0.codes == codes && steps[i].0.capacity
                == capacity,
    ensures
        stage_after(BuildStage::Create(request), steps) is Failed || {
            &&& actions_after(BuildStage::Create(request), steps) <= plan_len(
                codes.len(),
                capacity,
            )
            &&& stage_after(BuildStage::Create(request), steps) == plan_stage(
                codes.len(),
                capacity,
                request,
                actions_after(BuildStage::Create(request), steps) as int,
            )
        },
    decreases steps.len(),
{
    if steps.len() > 0 {
        let before = steps.drop_last();
        assert forall|i: int| 0 <= i < before.len() implies (#[trigger] before[i]).0.codes == codes
            && before[i].0.capacity == capacity by {
            assert(before[i] == steps[i]);
        }
        law_build_follows_plan(codes, capacity, request, before);
        assert(steps.last() == steps[steps.len() - 1]);
    }
}

/// A machine that is handed out is the one that was created, and every action of the plan has
/// been carried out on it: all bytecode was loaded and has run.
pub proof fn law_ready_machine_is_complete<A>(
    codes: Seq<Seq<u8>>,
    capacity: usize,
    request: VmRequest,
    steps: Seq<(FactoryView<A>, bool)>,
)
    requires
        codes.len() <= usize::MAX,
        forall|i: int|
            0 <= i < steps.len() ==> (#[trigger] steps[i]).0.codes == codes && steps[i].0.capacity
                == capacity,
        stage_after(BuildStage::Create(request), steps) is Done,
    ensures
        stage_after(BuildStage::Create(request), steps) == (BuildStage::Done { vm: request.id }),
        actions_after(BuildStage::Create(request), steps) == plan_len(codes.len(), capacity),
{
    law_build_follows_plan(codes, capacity, request, steps);
}

/// A host that refuses nothing gets its machine after exactly as many actions as the plan has.
pub proof fn law_willing_host_gets_machine<A>(
    codes: Seq<Seq<u8>>,
    capacity: usize,
    request: VmRequest,
    steps: Seq<(FactoryView<A>, bool)>,
)
    requires
        codes.len() <= usize::MAX,
        steps.len() <= plan_len(codes.len(), capacity),
        forall|i: int|
            0 <= i < steps.len() ==> (#[trigger] steps[i]).0.codes == codes && steps[i].0.capacity
                == capacity && steps[i].1,
    ensures
        stage_after(BuildStage::Create(request), steps) == plan_stage(
            codes.len(),
            capacity,
            request,
            steps.len() as int,
        ),
        steps.len() == plan_len(codes.len(), capacity) ==> stage_after(
            BuildStage::Create(request),
            steps,
        ) == (BuildStage::Done { vm: request.id }),
    decreases steps.len(),
{
    if steps.len() > 0 {
        let before = steps.drop_last();
        assert forall|i: int| 0 <= i < before.len() implies (#[trigger] before[i]).0.codes == codes
            && before[i].0.capacity == capacity && before[i].1 by {
            assert(before[i] == steps[i]);
        }
        law_willing_host_gets_machine(codes, capacity, request, before);
        assert(steps.last() == steps[steps.len() - 1]);
    }
}

/// How often a build has raised `counter` after `steps`.
pub open spec fn raised_after<A>(
    start: BuildStage,
    steps: Seq<(FactoryView<A>, bool)>,
    counter: Counter,
) -> nat
    decreases steps.len(),
{
    if steps.len() == 0 {
        0
    } else {
        let before = stage_after(start, steps.drop_last());
        raised_after(start, steps.drop_last(), counter) + if before matches BuildStage::Count {
            vm,
            counter: raised,
        } && raised == counter {
            1nat
        } else {
            0nat
        }
    }
}

/// How many spans of `timer` a build has measured after `steps`.
pub open spec fn spans_after<A>(
    start: BuildStage,
    steps: Seq<(FactoryView<A>, bool)>,
    timer: Timer,
) -> nat
    decreases steps.len(),
{
    if steps.len() == 0 {
        0
    } else {
        let before = stage_after(start, steps.drop_last());
        spans_after(start, steps.drop_last(), timer) + if build_timed(before, steps.last().1).ended
            == Some(timer) {
            1nat
        } else {
            0nat
        }
    }
}

/// A machine that is ready has been counted exactly once, as a machine and as nothing else, and
/// its creation and its loading have been measured exactly once. A build without a machine counts
/// nothing and measures no loading.
pub proof fn law_ready_machine_is_counted_once<A>(
    request: VmRequest,
    steps: Seq<(FactoryView<A>, bool)>,
    counter: Counter,
)
    ensures
        ({
            let start = BuildStage::Create(request);
            let stage = stage_after(start, steps);
            &&& raised_after(start, steps, counter) == if stage is Done && counter
                == Counter::VmCount {
                1nat
            } else {
                0nat
            }
            &&& spans_after(start, steps, Timer::VmLoadTime) == if stage is Done || stage is Count {
                1nat
            } else {
                0nat
            }
            &&& stage !is Failed ==> spans_after(start, steps, Timer::VmNewTime) == if stage
                is Create {
                0nat
            } else {
                1nat
            }
            &&& stage !is Swap && stage !is Pause
            &&& stage matches BuildStage::Count { vm, counter: raised } ==> raised
                == Counter::VmCount
        }),
    decreases steps.len(),
{
    if steps.len() > 0 {
        law_ready_machine_is_counted_once(request, steps.drop_last(), counter);
    }
}

/// A build fails only where a slot is missing or the host refuses an action; from then on it
/// stays failed. A build that is done stays done.
pub proof fn law_build_failure<A>(f: FactoryView<A>, stage: BuildStage, ok: bool)
    ensures
        build_next(f, stage, ok).1 is Failed && stage !is Failed ==> {
            ||| !ok && (stage is Create || stage is Load || stage is NewGlobalTemplate
                || stage is AllocGlobal)
            ||| f.size >= f.capacity && (stage is Swap || stage is Pause)
        },
        stage is Failed || stage is Done ==> build_next(f, stage, ok) == (f, stage),
{
}

/// A machine is counted exactly where it is reusable, and that is where the capacity is not
/// zero. A build asks for its machine once. The slot is claimed in the same step, and never given
/// back by the build.
pub proof fn law_counted_machines_are_reused<A>(f: FactoryView<A>, stage: BuildStage, ok: bool)
    ensures
        build_start(f).1 matches BuildStage::Create(request) ==> {
            &&& f.capacity == 0
            &&& request == (VmRequest { id: f.alloc_id, reusable: false })
            &&& build_start(f).0.size == f.size
        },
        build_next(f, stage, ok).1 matches BuildStage::Create(request) ==> {
            &&& stage is Swap || stage is Pause
            &&& f.capacity > 0
            &&& request == (VmRequest { id: f.alloc_id, reusable: true })
            &&& build_next(f, stage, ok).0.size == f.size + 1
        },
        build_next(f, stage, ok).1 !is Create ==> build_next(f, stage, ok).0 == f,
{
}

/// A machine is created under the id that was asked for, with the name and the grant of its
/// factory; it gets a flag, which is down, exactly where it is reused.
pub proof fn law_machine_is_created_for_its_factory<A>(
    f: FactoryView<A>,
    request: VmRequest,
    creation: VmCreation<A>,
)
    requires
        creates(f, request, creation),
    ensures
        creation.id == request.id,
        atom_text(creation.name) == f.name,
        *creation.auth == f.auth,
        request.reusable ==> creation.reuse == Some(false),
        !request.reusable ==> creation.reuse is None,
{
}

/// To allocate an id uses up the next one and changes nothing else.
pub proof fn law_allocated_id_is_used_up<A>(f: FactoryView<A>)
    ensures
        id_allocated(f) == (FactoryView { alloc_id: id_allocated(f).alloc_id, ..f }),
        f.alloc_id < usize::MAX ==> id_allocated(f).alloc_id == f.alloc_id + 1,
        f.alloc_id == usize::MAX ==> id_allocated(f).alloc_id == 0,
{
}

/// A build on a factory that counts its machines fails at once where all slots are taken, and
/// otherwise goes for the slot behind those it sees, with nothing changed yet. On a factory that
/// does not count, the machine is asked for at once, under the next id and not to be reused.
pub proof fn law_build_starts_with_what_it_sees<A>(f: FactoryView<A>)
    ensures
        f.capacity > 0 && f.size >= f.capacity ==> build_start(f) == (
            f,
            BuildStage::Failed(BuildFailure::Full { size: f.size }),
        ),
        f.capacity > 0 && f.size < f.capacity ==> build_start(f) == (
            f,
            BuildStage::Swap { observed: f.size },
        ),
        f.capacity == 0 ==> build_start(f).1 == BuildStage::Create(
            VmRequest { id: f.alloc_id, reusable: false },
        ),
        f.capacity == 0 ==> build_start(f).0 == (FactoryView {
            alloc_id: build_start(f).0.alloc_id,
            ..f
        }),
        f.capacity == 0 && f.alloc_id < usize::MAX ==> build_start(f).0.alloc_id == f.alloc_id + 1,
        f.capacity == 0 && f.alloc_id == usize::MAX ==> build_start(f).0.alloc_id == 0,
{
}

/// An attempt to claim a slot, the first or a later one, takes the slot exactly if there is one
/// and nobody was faster: one more machine is counted, and it is asked for under the next id, to
/// be reused. Where somebody was faster, the attempt is repeated with what is seen now; where no
/// slot is left, the build fails. Then nothing changes.
pub proof fn law_slot_goes_to_who_saw_it_free<A>(
    f: FactoryView<A>,
    stage: BuildStage,
    observed: usize,
    ok: bool,
)
    requires
        stage == (BuildStage::Swap { observed }) || stage == (BuildStage::Pause { observed }),
    ensures
        ({
            let (g, next) = build_next(f, stage, ok);
            &&& f.size >= f.capacity ==> g == f && next == BuildStage::Failed(
                BuildFailure::Full { size: f.size },
            )
            &&& f.size < f.capacity && f.size != observed ==> g == f && next == (
            BuildStage::Pause { observed: f.size })
            &&& f.size < f.capacity && f.size == observed ==> {
                &&& next == BuildStage::Create(VmRequest { id: f.alloc_id, reusable: true })
                &&& g == (FactoryView { size: g.size, alloc_id: g.alloc_id, ..f })
                &&& g.size == f.size + 1
                &&& f.alloc_id < usize::MAX ==> g.alloc_id == f.alloc_id + 1
                &&& f.alloc_id == usize::MAX ==> g.alloc_id == 0
            }
        }),
{
}

/// A machine that exists loads the first piece of bytecode, and one that has run a piece loads the
/// piece behind it. Behind the last piece a machine that is counted gets the template of its
/// global object, and any other has its heap size noted.
pub proof fn law_pieces_are_loaded_one_after_the_other<A>(
    f: FactoryView<A>,
    request: VmRequest,
    vm: usize,
    index: usize,
)
    ensures
        ({
            let created = build_next(f, BuildStage::Create(request), true);
            let ran = build_next(f, BuildStage::Await { vm, index }, true);
            &&& created.0 == f && ran.0 == f
            &&& f.codes.len() > 0 ==> created.1 == (BuildStage::Load {
                vm: request.id,
                index: 0,
            })
            &&& f.codes.len() == 0 && f.capacity > 0 ==> created.1 == (
            BuildStage::NewGlobalTemplate { vm: request.id })
            &&& f.codes.len() == 0 && f.capacity == 0 ==> created.1 == (
            BuildStage::UpdateLastHeapSize { vm: request.id })
            &&& index + 1 < f.codes.len() ==> ran.1 == (BuildStage::Load {
                vm,
                index: (index + 1) as usize,
            })
            &&& index + 1 >= f.codes.len() && f.capacity > 0 ==> ran.1 == (
            BuildStage::NewGlobalTemplate { vm })
            &&& index + 1 >= f.codes.len() && f.capacity == 0 ==> ran.1 == (
            BuildStage::UpdateLastHeapSize { vm })
        }),
{
}

/// A piece that was accepted is waited for until it has run, on the same machine.
pub proof fn law_loaded_piece_is_awaited<A>(f: FactoryView<A>, vm: usize, index: usize)
    ensures
        build_next(f, BuildStage::Load { vm, index }, true) == (
            f,
            BuildStage::Await { vm, index },
        ),
        build_next(f, BuildStage::Await { vm, index }, false) == (
            f,
            BuildStage::Await { vm, index },
        ),
{
}

/// A counted machine gets its template, then its global object, then has its collector unlocked;
/// every machine then has its heap size noted, is counted, and is ready. All this is done to one
/// machine and leaves the factory alone.
pub proof fn law_machine_is_prepared_in_order<A>(
    f: FactoryView<A>,
    vm: usize,
    counter: Counter,
    ok: bool,
)
    ensures
        build_next(f, BuildStage::NewGlobalTemplate { vm }, true) == (
            f,
            BuildStage::AllocGlobal { vm },
        ),
        build_next(f, BuildStage::AllocGlobal { vm }, true) == (
            f,
            BuildStage::UnlockCollection { vm },
        ),
        build_next(f, BuildStage::UnlockCollection { vm }, ok) == (
            f,
            BuildStage::UpdateLastHeapSize { vm },
        ),
        build_next(f, BuildStage::UpdateLastHeapSize { vm }, ok) == (
            f,
            BuildStage::Count { vm, counter: Counter::VmCount },
        ),
        build_next(f, BuildStage::Count { vm, counter }, ok) == (f, BuildStage::Done { vm }),
        build_next(f, BuildStage::Done { vm }, ok) == (f, BuildStage::Done { vm }),
{
}

/// A refusal ends the build at once and names what was refused. The factory stays as it is: the
/// slot and the id of the machine stay used. A build that failed stays failed.
pub proof fn law_refusal_ends_the_build<A>(
    f: FactoryView<A>,
    request: VmRequest,
    vm: usize,
    index: usize,
    failure: BuildFailure,
    ok: bool,
)
    ensures
        build_next(f, BuildStage::Create(request), false) == (
            f,
            BuildStage::Failed(BuildFailure::NotCreated),
        ),
        build_next(f, BuildStage::Load { vm, index }, false) == (
            f,
            BuildStage::Failed(BuildFailure::NotLoaded { index }),
        ),
        build_next(f, BuildStage::NewGlobalTemplate { vm }, false) == (
            f,
            BuildStage::Failed(BuildFailure::NoGlobalTemplate),
        ),
        build_next(f, BuildStage::AllocGlobal { vm }, false) == (
            f,
            BuildStage::Failed(BuildFailure::NoGlobal),
        ),
        build_next(f, BuildStage::Failed(failure), ok) == (f, BuildStage::Failed(failure)),
{
}

/// The pieces that a machine accepted during a build, in order.
pub open spec fn pieces_loaded<A>(
    start: BuildStage,
    steps: Seq<(FactoryView<A>, bool)>,
) -> Seq<int>
    decreases steps.len(),
{
    if steps.len() == 0 {
        Seq::empty()
    } else {
        let before = pieces_loaded(start, steps.drop_last());
        match stage_after(start, steps.drop_last()) {
            BuildStage::Load { vm, index } => if steps.last().1 {
                before.push(index as int)
            } else {
                before
            },
            _ => before,
        }
    }
}

/// The pieces that a machine has run during a build, in order.
pub open spec fn pieces_run<A>(start: BuildStage, steps: Seq<(FactoryView<A>, bool)>) -> Seq<int>
    decreases steps.len(),
{
    if steps.len() == 0 {
        Seq::empty()
    } else {
        let before = pieces_run(start, steps.drop_last());
        match stage_after(start, steps.drop_last()) {
            BuildStage::Await { vm, index } => if steps.last().1 {
                before.push(index as int)
            } else {
                before
            },
            _ => before,
        }
    }
}

/// The numbers below `count`, in order.
pub open spec fn numbers_below(count: int) -> Seq<int> {
    Seq::new(count as nat, |i: int| i)
}

/// Whatever the host replies and whatever others do meanwhile, a machine runs the pieces of
/// bytecode in their order, each once and each before the next one is loaded; a machine that is
/// ready, or past its loading, has run them all.
pub proof fn law_ready_machine_has_run_all_pieces<A>(
    codes: Seq<Seq<u8>>,
    request: VmRequest,
    steps: Seq<(FactoryView<A>, bool)>,
)
    requires
        codes.len() <= usize::MAX,
        forall|i: int| 0 <= i < steps.len() ==> (#[trigger] steps[i]).0.codes == codes,
    ensures
        ({
            let start = BuildStage::Create(request);
            let loaded = pieces_loaded(start, steps);
            let run = pieces_run(start, steps);
            match stage_after(start, steps) {
                BuildStage::Create(of) => of == request && loaded.len() == 0 && run.len() == 0,
                BuildStage::Load { vm, index } => {
                    &&& vm == request.id && index < codes.len()
                    &&& loaded == numbers_below(index as int)
                    &&& run == numbers_below(index as int)
                },
                BuildStage::Await { vm, index } => {
                    &&& vm == request.id && index < codes.len()
                    &&& loaded == numbers_below(index + 1)
                    &&& run == numbers_below(index as int)
                },
                BuildStage::Failed(_) => true,
                BuildStage::Swap { .. } => false,
                BuildStage::Pause { .. } => false,
                stage => {
                    &&& stage_vm(stage) == Some(request.id)
                    &&& loaded == numbers_below(codes.len() as int)
                    &&& run == numbers_below(codes.len() as int)
                },
            }
        }),
    decreases steps.len(),
{
    if steps.len() > 0 {
        let start = BuildStage::Create(request);
        let before = steps.drop_last();
        assert forall|i: int| 0 <= i < before.len() implies (#[trigger] before[i]).0.codes
            == codes by {
            assert(before[i] == steps[i]);
        }
        law_ready_machine_has_run_all_pieces(codes, request, before);
        assert(steps.last() == steps[steps.len() - 1]);
        match stage_after(start, before) {
            BuildStage::Create(_) => {
                assert(pieces_loaded(start, steps) =~= numbers_below(0));
                assert(pieces_run(start, steps) =~= numbers_below(0));
            },
            BuildStage::Load { vm, index } => {
                assert(numbers_below(index as int).push(index as int) =~= numbers_below(index + 1));
            },
            BuildStage::Await { vm, index } => {
                assert(numbers_below(index as int).push(index as int) =~= numbers_below(index + 1));
            },
            _ => {},
        }
    }
}

} // verus!
