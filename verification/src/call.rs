//! Calling a function on a machine: an idle one where there is one, else one that is built for
//! the call.

use crate::assembly::{
    build_next, build_start, id_allocated, plan_len, plan_stage, BuildFailure, BuildStage,
    VmRequest,
};
use crate::factory::{counted_up, pooled, scheduled, unpooled, FactoryView, VMFactory};
use crate::foreign::{debug_text, quoted};
use vstd::prelude::*;
use vstd::string::StringExecFns;

verus! {

/// Where a call stands, and what the host does next.
#[derive(Clone, Copy, Debug, PartialEq, Eq)]
pub enum CallStage {
    /// Do what the stage of the build says; the reply is the one it asks for.
    Build(BuildStage),
    /// Post the call to the machine.
    Run { vm: usize },
    /// The call is posted.
    Done { vm: usize },
    /// There is no machine to call: panic with the factory's `call_failure`.
    Failed(BuildFailure),
}

/// What follows on a stage of the build of the machine to call.
pub open spec fn call_built<A>(f: FactoryView<A>, stage: BuildStage) -> (
    FactoryView<A>,
    CallStage,
) {
    match stage {
        BuildStage::Done { vm } => (f, CallStage::Run { vm }),
        BuildStage::Failed(cause) => (scheduled(f), CallStage::Failed(cause)),
        _ => (f, CallStage::Build(stage)),
    }
}

/// How a call starts: with the machine that was pooled last, or with a build where the pool is
/// empty.
pub open spec fn call_start<A>(f: FactoryView<A>) -> (FactoryView<A>, CallStage) {
    if f.pool.len() > 0 {
        (unpooled(f), CallStage::Run { vm: f.pool.last() })
    } else {
        let (started, stage) = build_start(f);
        call_built(started, stage)
    }
}

/// One step of a call: the factory and the stage after `stage`, where `ok` is what the action
/// of `stage` returned.
pub open spec fn call_next<A>(f: FactoryView<A>, stage: CallStage, ok: bool) -> (
    FactoryView<A>,
    CallStage,
) {
    match stage {
        CallStage::Build(stage) => {
            let (built, next) = build_next(f, stage, ok);
            call_built(built, next)
        },
        CallStage::Run { vm } => (scheduled(f), CallStage::Done { vm }),
        CallStage::Done { vm } => (f, stage),
        CallStage::Failed(cause) => (f, stage),
    }
}

impl<A> VMFactory<A> {
    /// Starts a call.
    pub fn call(&mut self) -> (stage: CallStage)
        ensures
            (final(self)@, stage) == call_start(old(self)@),
    {
        match self.take_idle() {
            Some(vm) => CallStage::Run { vm },
            None => {
                let next = self.new_vm();
                self.call_after_build(next)
            },
        }
    }

    /// Takes a call one stage further. `ok` is what the action of `stage` returned; where the
    /// action returns nothing, it is not looked at.
    pub fn call_step(&mut self, stage: CallStage, ok: bool) -> (next: CallStage)
        ensures
            (final(self)@, next) == call_next(old(self)@, stage, ok),
    {
        match stage {
            CallStage::Build(stage) => {
                let next = self.build_step(stage, ok);
                self.call_after_build(next)
            },
            CallStage::Run { vm } => {
                self.add_scheduling_count();
                CallStage::Done { vm }
            },
            CallStage::Done { vm } => CallStage::Done { vm },
            CallStage::Failed(cause) => CallStage::Failed(cause),
        }
    }

    fn call_after_build(&mut self, stage: BuildStage) -> (next: CallStage)
        ensures
            (final(self)@, next) == call_built(old(self)@, stage),
    {
        match stage {
            BuildStage::Done { vm } => CallStage::Run { vm },
            BuildStage::Failed(cause) => {
                self.add_scheduling_count();
                CallStage::Failed(cause)
            },
            _ => CallStage::Build(stage),
        }
    }

    /// What a call says that found no machine.
    pub fn call_failure(&self) -> (message: String)
        ensures
            message@ == call_failure_text(debug_text(self@.name)),
    {
        call_failure_for(quoted(self.name().as_str()).as_str())
    }
}

/// What a call says that found no machine, where the factory's name is shown as `shown`.
pub open spec fn call_failure_text(shown: Seq<char>) -> Seq<char> {
    "Vm Factory Call Error, new vm failed, factory: "@ + shown
}

/// What a call says that found no machine, where the factory's name is shown as `shown`.
pub fn call_failure_for(shown: &str) -> (message: String)
    ensures
        message@ == call_failure_text(shown@),
{
    "Vm Factory Call Error, new vm failed, factory: ".to_string().concat(shown)
}

/// A call is counted as one scheduling in the step that ends it, well or not, and in no other.
pub proof fn law_call_is_counted_once<A>(f: FactoryView<A>, stage: CallStage, ok: bool)
    ensures
        ({
            let (g, next) = call_start(f);
            g.scheduling_count == if next is Failed {
                counted_up(f.scheduling_count)
            } else {
                f.scheduling_count
            }
        }),
        ({
            let (g, next) = call_next(f, stage, ok);
            let over = stage is Done || stage is Failed;
            &&& over ==> g == f && next == stage
            &&& !over ==> g.scheduling_count == if next is Done || next is Failed {
                counted_up(f.scheduling_count)
            } else {
                f.scheduling_count
            }
        }),
{
}

/// The machine that was put back last is the one that the next call gets, and the pool is then
/// as it was before.
pub proof fn law_last_pooled_is_called_first<A>(f: FactoryView<A>, vm: usize)
    ensures
        call_start(pooled(f, vm)) == (f, CallStage::Run { vm }),
{
    assert(f.pool.push(vm).drop_last() =~= f.pool);
}

/// No machine is built for a call while one is idle.
pub proof fn law_idle_machines_are_used_first<A>(f: FactoryView<A>)
    ensures
        f.pool.len() > 0 <==> call_start(f).1 is Run,
        f.pool.len() > 0 ==> call_start(f).0 == unpooled(f),
{
}

/// A call after `steps` replies of `true`, while nobody else uses the factory.
pub open spec fn call_willing<A>(f: FactoryView<A>, steps: nat) -> (FactoryView<A>, CallStage)
    decreases steps,
{
    if steps == 0 {
        call_start(f)
    } else {
        let (g, reached) = call_willing(f, (steps - 1) as nat);
        call_next(g, reached, true)
    }
}

/// The factory once the machine of a call has been asked for.
pub open spec fn asked_for<A>(f: FactoryView<A>) -> FactoryView<A> {
    if f.capacity == 0 {
        id_allocated(f)
    } else {
        id_allocated(FactoryView { size: (f.size + 1) as usize, ..f })
    }
}

proof fn lemma_willing_call<A>(f: FactoryView<A>, at: nat)
    requires
        f.pool.len() == 0,
        f.capacity == 0 || f.size < f.capacity,
        f.codes.len() <= usize::MAX,
        at <= plan_len(f.codes.len(), f.capacity),
    ensures
        call_willing(
            f,
            if f.capacity == 0 {
                at
            } else {
                at + 1
            },
        ) == call_built(
            asked_for(f),
            plan_stage(
                f.codes.len(),
                f.capacity,
                VmRequest { id: f.alloc_id, reusable: f.capacity > 0 },
                at as int,
            ),
        ),
    decreases at,
{
    if at == 0 {
        assert(call_willing(f, 0) == call_start(f));
    } else {
        lemma_willing_call(f, (at - 1) as nat);
    }
}

/// A call that finds no idle machine, but room for one more, gets a machine built for it by a
/// host that refuses nothing, and is posted to that machine.
pub proof fn law_call_with_room_succeeds<A>(f: FactoryView<A>)
    requires
        f.pool.len() == 0,
        f.capacity == 0 || f.size < f.capacity,
        f.codes.len() <= usize::MAX,
    ensures
        ({
            let plan = plan_len(f.codes.len(), f.capacity);
            let steps = if f.capacity == 0 {
                plan + 1
            } else {
                plan + 2
            };
            call_willing(f, steps) == (
                scheduled(asked_for(f)),
                CallStage::Done { vm: f.alloc_id },
            )
        }),
{
    lemma_willing_call(f, plan_len(f.codes.len(), f.capacity));
}

/// A call that finds neither an idle machine nor room for one more fails at once; only the
/// scheduling is counted.
pub proof fn law_call_without_room_fails<A>(f: FactoryView<A>)
    requires
        f.pool.len() == 0,
        f.capacity > 0,
        f.size >= f.capacity,
    ensures
        call_start(f) == (
            scheduled(f),
            CallStage::Failed(BuildFailure::Full { size: f.size }),
        ),
{
}

/// A call takes the machine on top of the pool, and only that one leaves the pool. With an empty
/// pool it fails at once where machines are counted and all slots are taken, and that is counted;
/// else it starts to build a machine, and is not counted yet.
pub proof fn law_call_starts_with_the_pool<A>(f: FactoryView<A>)
    ensures
        ({
            let (g, stage) = call_start(f);
            let n = f.pool.len();
            &&& n > 0 ==> {
                &&& stage == (CallStage::Run { vm: f.pool[n - 1] })
                &&& g == (FactoryView { pool: f.pool.subrange(0, n - 1), ..f })
            }
            &&& n == 0 && f.capacity > 0 && f.size >= f.capacity ==> {
                &&& stage == CallStage::Failed(BuildFailure::Full { size: f.size })
                &&& g == (FactoryView { scheduling_count: g.scheduling_count, ..f })
                &&& f.scheduling_count < usize::MAX ==> g.scheduling_count == f.scheduling_count
                    + 1
                &&& f.scheduling_count == usize::MAX ==> g.scheduling_count == 0
            }
            &&& n == 0 && f.capacity > 0 && f.size < f.capacity ==> {
                &&& stage == CallStage::Build(BuildStage::Swap { observed: f.size })
                &&& g == f
            }
            &&& n == 0 && f.capacity == 0 ==> {
                &&& stage == CallStage::Build(
                    BuildStage::Create(VmRequest { id: f.alloc_id, reusable: false }),
                )
                &&& g == (FactoryView { alloc_id: g.alloc_id, ..f })
                &&& f.alloc_id < usize::MAX ==> g.alloc_id == f.alloc_id + 1
                &&& f.alloc_id == usize::MAX ==> g.alloc_id == 0
            }
        }),
{
    if f.pool.len() > 0 {
        assert(f.pool.drop_last() =~= f.pool.subrange(0, f.pool.len() - 1));
    }
}

/// A build for a call does to the factory what any build does, and the call is posted to the
/// machine that was built. A build that fails ends the call with its cause, and is counted as one
/// scheduling.
pub proof fn law_call_gets_the_machine_that_was_built<A>(
    f: FactoryView<A>,
    stage: BuildStage,
    ok: bool,
)
    ensures
        ({
            let (built, reached) = build_next(f, stage, ok);
            let (g, next) = call_next(f, CallStage::Build(stage), ok);
            match reached {
                BuildStage::Done { vm } => g == built && next == (CallStage::Run { vm }),
                BuildStage::Failed(cause) => {
                    &&& next == CallStage::Failed(cause)
                    &&& g == (FactoryView { scheduling_count: g.scheduling_count, ..built })
                    &&& built.scheduling_count < usize::MAX ==> g.scheduling_count
                        == built.scheduling_count + 1
                    &&& built.scheduling_count == usize::MAX ==> g.scheduling_count == 0
                },
                _ => g == built && next == CallStage::Build(reached),
            }
        }),
{
}

/// A call that is posted to its machine is counted as one scheduling, and is done with that
/// machine. A call that is over changes nothing any more.
pub proof fn law_posted_call_is_done<A>(
    f: FactoryView<A>,
    vm: usize,
    cause: BuildFailure,
    ok: bool,
)
    ensures
        ({
            let (g, next) = call_next(f, CallStage::Run { vm }, ok);
            &&& next == (CallStage::Done { vm })
            &&& g == (FactoryView { scheduling_count: g.scheduling_count, ..f })
            &&& f.scheduling_count < usize::MAX ==> g.scheduling_count == f.scheduling_count + 1
            &&& f.scheduling_count == usize::MAX ==> g.scheduling_count == 0
        }),
        call_next(f, CallStage::Done { vm }, ok) == (f, CallStage::Done { vm }),
        call_next(f, CallStage::Failed(cause), ok) == (f, CallStage::Failed(cause)),
{
}

/// What a failed call says ends with the name of the factory as it is shown, behind the same words
/// for all factories.
pub proof fn law_failed_call_says_which_factory(shown: Seq<char>)
    ensures
        call_failure_text(shown) == "Vm Factory Call Error, new vm failed, factory: "@ + shown,
{
}

} // verus!
