//! What holds of a factory whatever its users do, in whatever order their steps interleave.

use crate::assembly::{build_next, build_start, id_allocated, later_id, BuildStage, VmRequest};
use crate::call::{call_next, call_start, CallStage};
use crate::factory::{codes_lent, counted_up, pooled, thrown, FactoryView};
use crate::foreign::kept;
use crate::produce::{produce_next, ProduceStage};
use vstd::prelude::*;

verus! {

/// One use of a factory by one of its users.
pub enum FactoryOp {
    /// `new_vm`.
    NewVm,
    /// `build_step`.
    BuildStep(BuildStage, bool),
    /// `produce_step`.
    ProduceStep(ProduceStage, bool),
    /// `call`.
    Call,
    /// `call_step`.
    CallStep(CallStage, bool),
    /// `take`.
    Take,
    /// `loader`.
    Loader,
    /// `append_shared`, by one of several handles of the factory.
    AppendCopied,
    /// `reuse`.
    Reuse(usize),
    /// `collect`, with the answers of its handler.
    Collect(Seq<bool>),
    /// `throw`, or the first step of `reset`.
    Throw(usize),
    /// `add_ran_count`.
    AddRanCount,
    /// `reset_ran_count`.
    ResetRanCount,
    /// `reset_scheduling_count`.
    ResetSchedulingCount,
}

/// The factory after one use.
pub open spec fn used<A>(f: FactoryView<A>, op: FactoryOp) -> FactoryView<A> {
    match op {
        FactoryOp::NewVm => build_start(f).0,
        FactoryOp::BuildStep(stage, ok) => build_next(f, stage, ok).0,
        FactoryOp::ProduceStep(stage, ok) => produce_next(f, stage, ok).0,
        FactoryOp::Call => call_start(f).0,
        FactoryOp::CallStep(stage, ok) => call_next(f, stage, ok).0,
        FactoryOp::Take => id_allocated(f),
        FactoryOp::Loader => codes_lent(f),
        FactoryOp::AppendCopied => f,
        FactoryOp::Reuse(vm) => pooled(f, vm),
        FactoryOp::Collect(removed) => FactoryView { pool: kept(f.pool, removed), ..f },
        FactoryOp::Throw(count) => thrown(f, count),
        FactoryOp::AddRanCount => FactoryView { ran_count: counted_up(f.ran_count), ..f },
        FactoryOp::ResetRanCount => FactoryView { ran_count: 0, ..f },
        FactoryOp::ResetSchedulingCount => FactoryView { scheduling_count: 0, ..f },
    }
}

/// The factory after a history of uses.
pub open spec fn used_all<A>(f: FactoryView<A>, ops: Seq<FactoryOp>) -> FactoryView<A>
    decreases ops.len(),
{
    if ops.len() == 0 {
        f
    } else {
        used(used_all(f, ops.drop_last()), ops.last())
    }
}

/// Nobody throws more machines away than are counted at that moment.
pub open spec fn throws_covered<A>(f: FactoryView<A>, ops: Seq<FactoryOp>) -> bool {
    forall|i: int|
        0 <= i < ops.len() ==> ((#[trigger] ops[i]) matches FactoryOp::Throw(count) ==> count
            <= used_all(f, ops.take(i)).size)
}

proof fn lemma_throws_covered_before<A>(f: FactoryView<A>, ops: Seq<FactoryOp>)
    requires
        ops.len() > 0,
        throws_covered(f, ops),
    ensures
        throws_covered(f, ops.drop_last()),
{
    let before = ops.drop_last();
    assert forall|i: int| 0 <= i < before.len() implies ((
    #[trigger] before[i]) matches FactoryOp::Throw(count) ==> count <= used_all(
        f,
        before.take(i),
    ).size) by {
        assert(before[i] == ops[i]);
        assert(before.take(i) =~= ops.take(i));
    }
}

/// Where machines are counted, no more exist than the capacity allows.
pub open spec fn within_capacity<A>(f: FactoryView<A>) -> bool {
    f.capacity > 0 ==> f.size <= f.capacity
}

/// However the uses of a factory interleave, the number of counted machines never exceeds the
/// capacity, and the factory's settings and bytecode stay as they are.
pub proof fn law_capacity_is_never_exceeded<A>(f: FactoryView<A>, ops: Seq<FactoryOp>)
    requires
        within_capacity(f),
        throws_covered(f, ops),
    ensures
        within_capacity(used_all(f, ops)),
        same_settings(f, used_all(f, ops)),
    decreases ops.len(),
{
    if ops.len() > 0 {
        let before = ops.drop_last();
        lemma_throws_covered_before(f, ops);
        law_capacity_is_never_exceeded(f, before);
        assert(ops.take(ops.len() - 1) =~= before);
        assert(ops.last() == ops[ops.len() - 1]);
    }
}

/// Two views of a factory with the same name, settings, bytecode and grant.
pub open spec fn same_settings<A>(f: FactoryView<A>, g: FactoryView<A>) -> bool {
    &&& f.name == g.name
    &&& f.capacity == g.capacity
    &&& f.max_reused_count == g.max_reused_count
    &&& f.heap_size == g.heap_size
    &&& f.max_heap_size == g.max_heap_size
    &&& f.codes == g.codes
    &&& f.auth == g.auth
}

/// A factory that does not count its machines never counts any.
pub proof fn law_uncounted_stays_uncounted<A>(f: FactoryView<A>, ops: Seq<FactoryOp>)
    requires
        f.capacity == 0,
        f.size == 0,
        throws_covered(f, ops),
    ensures
        used_all(f, ops).size == 0,
        used_all(f, ops).capacity == 0,
    decreases ops.len(),
{
    if ops.len() > 0 {
        let before = ops.drop_last();
        lemma_throws_covered_before(f, ops);
        law_uncounted_stays_uncounted(f, before);
        assert(ops.take(ops.len() - 1) =~= before);
        assert(ops.last() == ops[ops.len() - 1]);
    }
}

/// The machine that is asked for at a stage of a build.
pub open spec fn stage_request(stage: BuildStage) -> Option<VmRequest> {
    match stage {
        BuildStage::Create(request) => Some(request),
        _ => None,
    }
}

/// The machine that is asked for by one use.
pub open spec fn request_made<A>(f: FactoryView<A>, op: FactoryOp) -> Option<VmRequest> {
    match op {
        FactoryOp::NewVm => stage_request(build_start(f).1),
        FactoryOp::BuildStep(stage, ok) => stage_request(build_next(f, stage, ok).1),
        FactoryOp::ProduceStep(stage, ok) => match produce_next(f, stage, ok).1 {
            ProduceStage::Build { before, left, stage } => stage_request(stage),
            _ => None,
        },
        FactoryOp::Call => match call_start(f).1 {
            CallStage::Build(stage) => stage_request(stage),
            _ => None,
        },
        FactoryOp::CallStep(stage, ok) => match call_next(f, stage, ok).1 {
            CallStage::Build(stage) => stage_request(stage),
            _ => None,
        },
        FactoryOp::Take => Some(VmRequest { id: f.alloc_id, reusable: false }),
        _ => None,
    }
}

/// The ids of the machines that are asked for in a history of uses, in order.
pub open spec fn ids_asked_for<A>(f: FactoryView<A>, ops: Seq<FactoryOp>) -> Seq<usize>
    decreases ops.len(),
{
    if ops.len() == 0 {
        Seq::empty()
    } else {
        let ids = ids_asked_for(f, ops.drop_last());
        match request_made(used_all(f, ops.drop_last()), ops.last()) {
            Some(request) => ids.push(request.id),
            None => ids,
        }
    }
}

/// However the uses of a factory interleave, machines are asked for under one id after the other:
/// the k-th machine has the k-th id behind the one that the factory started with.
pub proof fn law_ids_are_handed_out_in_order<A>(f: FactoryView<A>, ops: Seq<FactoryOp>)
    requires
        ids_asked_for(f, ops).len() <= usize::MAX,
    ensures
        used_all(f, ops).alloc_id == later_id(f.alloc_id, ids_asked_for(f, ops).len() as int),
        forall|k: int|
            0 <= k < ids_asked_for(f, ops).len() ==> #[trigger] ids_asked_for(f, ops)[k]
                == later_id(f.alloc_id, k),
        f.alloc_id == 0 ==> forall|k: int|
            0 <= k < ids_asked_for(f, ops).len() ==> #[trigger] ids_asked_for(f, ops)[k] == k,
    decreases ops.len(),
{
    if ops.len() > 0 {
        law_ids_are_handed_out_in_order(f, ops.drop_last());
    }
}

/// However the uses of a factory interleave, no two machines are asked for under the same id,
/// as long as the ids have not been used up.
pub proof fn law_ids_are_distinct<A>(f: FactoryView<A>, ops: Seq<FactoryOp>)
    requires
        ids_asked_for(f, ops).len() <= usize::MAX,
    ensures
        ids_asked_for(f, ops).no_duplicates(),
{
    law_ids_are_handed_out_in_order(f, ops);
}

/// Whether a use ends a call, well or not.
pub open spec fn ends_call<A>(f: FactoryView<A>, op: FactoryOp) -> bool {
    match op {
        FactoryOp::Call => call_start(f).1 is Failed,
        FactoryOp::CallStep(stage, ok) => {
            let next = call_next(f, stage, ok).1;
            stage !is Done && stage !is Failed && (next is Done || next is Failed)
        },
        _ => false,
    }
}

/// How many calls end in a history of uses.
pub open spec fn calls_ended<A>(f: FactoryView<A>, ops: Seq<FactoryOp>) -> nat
    decreases ops.len(),
{
    if ops.len() == 0 {
        0
    } else {
        calls_ended(f, ops.drop_last()) + if ends_call(
            used_all(f, ops.drop_last()),
            ops.last(),
        ) {
            1nat
        } else {
            0nat
        }
    }
}

/// What the resets of the count of schedulings return in a history of uses, summed up.
pub open spec fn schedulings_returned<A>(f: FactoryView<A>, ops: Seq<FactoryOp>) -> nat
    decreases ops.len(),
{
    if ops.len() == 0 {
        0
    } else {
        schedulings_returned(f, ops.drop_last()) + if ops.last() is ResetSchedulingCount {
            used_all(f, ops.drop_last()).scheduling_count as nat
        } else {
            0nat
        }
    }
}

/// No scheduling is lost, and none is counted twice: what the resets returned and what is counted
/// now add up to the calls that have ended, beside those counted at the start.
pub proof fn law_schedulings_add_up<A>(f: FactoryView<A>, ops: Seq<FactoryOp>)
    requires
        f.scheduling_count + calls_ended(f, ops) <= usize::MAX,
    ensures
        schedulings_returned(f, ops) + used_all(f, ops).scheduling_count == f.scheduling_count
            + calls_ended(f, ops),
    decreases ops.len(),
{
    if ops.len() > 0 {
        law_schedulings_add_up(f, ops.drop_last());
    }
}

/// How many runs are counted in a history of uses.
pub open spec fn runs_added(ops: Seq<FactoryOp>) -> nat
    decreases ops.len(),
{
    if ops.len() == 0 {
        0
    } else {
        runs_added(ops.drop_last()) + if ops.last() is AddRanCount {
            1nat
        } else {
            0nat
        }
    }
}

/// What the resets of the count of runs return in a history of uses, summed up.
pub open spec fn runs_returned<A>(f: FactoryView<A>, ops: Seq<FactoryOp>) -> nat
    decreases ops.len(),
{
    if ops.len() == 0 {
        0
    } else {
        runs_returned(f, ops.drop_last()) + if ops.last() is ResetRanCount {
            used_all(f, ops.drop_last()).ran_count as nat
        } else {
            0nat
        }
    }
}

/// No finished run is lost, and none is counted twice: what the resets returned and what is
/// counted now add up to the runs that were counted, beside those counted at the start.
pub proof fn law_runs_add_up<A>(f: FactoryView<A>, ops: Seq<FactoryOp>)
    requires
        f.ran_count + runs_added(ops) <= usize::MAX,
    ensures
        runs_returned(f, ops) + used_all(f, ops).ran_count == f.ran_count + runs_added(ops),
    decreases ops.len(),
{
    if ops.len() > 0 {
        law_runs_add_up(f, ops.drop_last());
    }
}

pub(crate) proof fn lemma_kept(values: Seq<usize>, removed: Seq<bool>)
    ensures
        forall|value: usize| #[trigger]
            kept(values, removed).contains(value) ==> values.contains(value),
        values.no_duplicates() ==> kept(values, removed).no_duplicates(),
    decreases values.len(),
{
    if values.len() > 0 {
        let rest = values.drop_last();
        let stay = kept(rest, removed.drop_last());
        lemma_kept(rest, removed.drop_last());
        assert forall|value: usize| #[trigger]
            kept(values, removed).contains(value) implies values.contains(value) by {
            if stay.contains(value) {
                assert(rest.contains(value));
                let i = rest.index_of(value);
                assert(values[i] == value);
            } else {
                let i = kept(values, removed).index_of(value);
                if i < stay.len() {
                    assert(stay[i] == value);
                }
                assert(value == values.last());
                assert(values[values.len() - 1] == value);
            }
        }
        if values.no_duplicates() {
            assert(rest.no_duplicates());
            assert(!rest.contains(values.last()));
            assert(!stay.contains(values.last()));
            assert forall|i: int, j: int|
                0 <= i < j < kept(values, removed).len() implies kept(values, removed)[i] != kept(
                values,
                removed,
            )[j] by {
                assert(kept(values, removed)[i] == stay[i]);
                assert(stay.contains(stay[i]));
                if j < stay.len() {
                    assert(kept(values, removed)[j] == stay[j]);
                }
            }
        }
    }
}

/// Whether a use puts `vm` into the pool.
pub open spec fn returns_machine(op: FactoryOp, vm: usize) -> bool {
    match op {
        FactoryOp::Reuse(back) => back == vm,
        FactoryOp::ProduceStep(ProduceStage::FreeGlobal { before, left, vm: built }, _) => built
            == vm,
        _ => false,
    }
}

/// A machine that was taken out of the pool is not handed out again, however the uses of the
/// factory interleave, until somebody puts it back.
pub proof fn law_machine_in_use_is_not_handed_out<A>(
    f: FactoryView<A>,
    vm: usize,
    ops: Seq<FactoryOp>,
)
    requires
        !f.pool.contains(vm),
        forall|i: int| 0 <= i < ops.len() ==> !returns_machine(#[trigger] ops[i], vm),
    ensures
        !used_all(f, ops).pool.contains(vm),
        call_start(used_all(f, ops)).1 != (CallStage::Run { vm }),
    decreases ops.len(),
{
    if ops.len() > 0 {
        let before = ops.drop_last();
        assert forall|i: int| 0 <= i < before.len() implies !returns_machine(
            #[trigger] before[i],
            vm,
        ) by {
            assert(before[i] == ops[i]);
        }
        law_machine_in_use_is_not_handed_out(f, vm, before);
        let g = used_all(f, before);
        let op = ops[ops.len() - 1];
        assert(!returns_machine(op, vm));
        if let FactoryOp::Collect(removed) = op {
            lemma_kept(g.pool, removed);
        }
        let h = used(g, op);
        assert(!h.pool.contains(vm)) by {
            if h.pool.contains(vm) {
                let i = h.pool.index_of(vm);
                assert(h.pool[i] == vm);
                if i < g.pool.len() && op !is Collect {
                    assert(g.pool[i] == vm);
                }
            }
        }
    }
    let g = used_all(f, ops);
    if g.pool.len() > 0 {
        assert(g.pool.contains(g.pool[g.pool.len() - 1]));
    }
}

} // verus!
