//! The factory itself: its settings, its counters, its bytecode and its pool of idle machines.
//!
//! A machine is known by the id that it was allocated under. The host keeps the machines
//! themselves; the factory decides which id is handed out, pooled or built next.

use crate::assembly::{
    build_next, build_start, creates, id_allocated, load_stage, slot_claimed, BuildFailure,
    BuildStage, VmCreation, VmRequest,
};
use crate::foreign::{
    atom_copy, atom_str, atom_text, intern, kept, sole_owner, stack_collect, stack_new,
    stack_pop, stack_push, stack_size, stacked,
};
use crate::meters::Counter;
use crate::loader::{LoaderView, VMFactoryLoader};
use pi_atom::Atom;
use pi_lfstack::LFStack;
use std::sync::Arc;
use vstd::prelude::*;

verus! {

/// The bytes of one piece of bytecode, shared by all that load it.
pub type Code = Arc<Vec<u8>>;

/// The bytecode of a factory: its own until a loader borrows it, and shared from then on.
enum CodeStore {
    Own(Vec<Code>),
    Shared(Arc<Vec<Code>>),
}

impl CodeStore {
    spec fn pieces(self) -> Seq<Code> {
        match self {
            CodeStore::Own(codes) => codes@,
            CodeStore::Shared(codes) => codes@,
        }
    }

    fn len(&self) -> (len: usize)
        ensures
            len == self.pieces().len(),
    {
        match self {
            CodeStore::Own(codes) => codes.len(),
            CodeStore::Shared(codes) => codes.len(),
        }
    }

    fn get(&self, index: usize) -> (code: Code)
        requires
            index < self.pieces().len(),
        ensures
            code == self.pieces()[index as int],
    {
        match self {
            CodeStore::Own(codes) => codes[index].clone(),
            CodeStore::Shared(codes) => codes[index].clone(),
        }
    }
}

/// A factory of virtual machines that all load the same bytecode.
///
/// A capacity of zero means that machines are not counted and not reused. `A` is the grant of
/// native objects that every machine is created with; the factory only passes it on.
pub struct VMFactory<A> {
    name: Atom,
    capacity: usize,
    size: usize,
    alloc_id: usize,
    max_reused_count: usize,
    heap_size: usize,
    max_heap_size: usize,
    codes: CodeStore,
    pool: LFStack<usize>,
    scheduling_count: usize,
    ran_count: usize,
    auth: Arc<A>,
}

/// What a factory holds, as plain values.
pub struct FactoryView<A> {
    /// The factory's name.
    pub name: Seq<char>,
    /// How many machines may exist at once; zero where they are not counted.
    pub capacity: usize,
    /// How many machines are counted as existing.
    pub size: usize,
    /// The id that the next machine is allocated.
    pub alloc_id: usize,
    /// How often a machine may be reused.
    pub max_reused_count: usize,
    /// The heap that a machine starts with.
    pub heap_size: usize,
    /// The heap at which a machine releases what it can.
    pub max_heap_size: usize,
    /// The bytecode that a machine loads, in order.
    pub codes: Seq<Seq<u8>>,
    /// Whether the bytecode has been lent to a loader.
    pub lent: bool,
    /// The ids of the idle machines; the last one is handed out next.
    pub pool: Seq<usize>,
    /// How often a machine was scheduled since the count was last reset.
    pub scheduling_count: usize,
    /// How often a machine finished running since the count was last reset.
    pub ran_count: usize,
    /// The grant of native objects.
    pub auth: A,
}

/// The value of an atomic counter that holds `count` after one is added: it wraps.
pub open spec fn counted_up(count: usize) -> usize {
    if count == usize::MAX {
        0
    } else {
        (count + 1) as usize
    }
}

/// The value of an atomic counter that holds `count` after `less` is taken off: it wraps.
pub open spec fn counted_down(count: usize, less: usize) -> usize {
    if less <= count {
        (count - less) as usize
    } else {
        (count - less + usize::MAX + 1) as usize
    }
}

/// The factory with one more piece of bytecode behind the others.
pub open spec fn code_added<A>(f: FactoryView<A>, code: Seq<u8>) -> FactoryView<A> {
    FactoryView { codes: f.codes.push(code), ..f }
}

/// The factory once it has lent its bytecode to a loader.
pub open spec fn codes_lent<A>(f: FactoryView<A>) -> FactoryView<A> {
    FactoryView { lent: true, ..f }
}

/// The factory with one more scheduling counted.
pub open spec fn scheduled<A>(f: FactoryView<A>) -> FactoryView<A> {
    FactoryView { scheduling_count: counted_up(f.scheduling_count), ..f }
}

/// The factory with `vm` on top of its pool.
pub open spec fn pooled<A>(f: FactoryView<A>, vm: usize) -> FactoryView<A> {
    FactoryView { pool: f.pool.push(vm), ..f }
}

/// The factory without the machine on top of its pool.
pub open spec fn unpooled<A>(f: FactoryView<A>) -> FactoryView<A> {
    FactoryView { pool: f.pool.drop_last(), ..f }
}

/// The factory once it no longer counts `count` of its machines.
pub open spec fn thrown<A>(f: FactoryView<A>, count: usize) -> FactoryView<A> {
    FactoryView { size: counted_down(f.size, count), ..f }
}

/// The bytes of each piece of bytecode.
pub open spec fn code_bytes(codes: Seq<Code>) -> Seq<Seq<u8>> {
    Seq::new(codes.len(), |i: int| codes[i]@)
}

impl<A> View for VMFactory<A> {
    type V = FactoryView<A>;

    closed spec fn view(&self) -> FactoryView<A> {
        FactoryView {
            name: atom_text(self.name),
            capacity: self.capacity,
            size: self.size,
            alloc_id: self.alloc_id,
            max_reused_count: self.max_reused_count,
            heap_size: self.heap_size,
            max_heap_size: self.max_heap_size,
            codes: code_bytes(self.codes.pieces()),
            lent: self.codes is Shared,
            pool: stacked(self.pool),
            scheduling_count: self.scheduling_count,
            ran_count: self.ran_count,
            auth: *self.auth,
        }
    }
}

/// Adds `code` behind the bytecode that `sole` lends, and drops it where nothing is lent.
pub fn add_code(sole: Option<&mut Vec<Code>>, code: Code)
    ensures
        match sole {
            Some(codes) => final(codes)@ == codes@.push(code),
            None => true,
        },
{
    match sole {
        None => {},
        Some(codes) => {
            codes.push(code);
        },
    }
}

impl<A> VMFactory<A> {
    /// A factory with the given settings, no bytecode, and no machine yet. `size` is the number
    /// of machines that may exist at once.
    pub fn new(
        name: &str,
        size: usize,
        max_reused_count: usize,
        heap_size: usize,
        max_heap_size: usize,
        auth: Arc<A>,
    ) -> (factory: Self)
        ensures
            factory@ == (FactoryView {
                name: name@,
                capacity: size,
                size: 0,
                alloc_id: 0,
                max_reused_count,
                heap_size,
                max_heap_size,
                codes: Seq::empty(),
                lent: false,
                pool: Seq::empty(),
                scheduling_count: 0,
                ran_count: 0,
                auth: *auth,
            }),
    {
        let factory = VMFactory {
            name: intern(name),
            capacity: size,
            size: 0,
            alloc_id: 0,
            max_reused_count,
            heap_size,
            max_heap_size,
            codes: CodeStore::Own(Vec::new()),
            pool: stack_new(),
            scheduling_count: 0,
            ran_count: 0,
            auth,
        };
        assert(factory@.codes =~= Seq::<Seq<u8>>::empty());
        factory
    }

    /// Adds a piece of bytecode behind the others. Where the bytecode has been lent to a loader,
    /// it is added only if no loader of this factory exists any more; else the factory stays as
    /// it is.
    pub fn append(self, code: Code) -> (factory: Self)
        ensures
            !self@.lent ==> factory@ == code_added(self@, code@),
            self@.lent ==> factory@ == self@ || factory@ == code_added(self@, code@),
    {
        let mut factory = self;
        factory.append_shared(true, code);
        factory
    }

    /// Adds a piece of bytecode, as `append` does, to a factory that is reached through handles.
    /// `sole` tells whether the handle that asks is the only one: a factory of which copies exist
    /// gains no code.
    pub fn append_shared(&mut self, sole: bool, code: Code)
        ensures
            !sole ==> final(self)@ == old(self)@,
            sole && !old(self)@.lent ==> final(self)@ == code_added(old(self)@, code@),
            sole && old(self)@.lent ==> final(self)@ == old(self)@ || final(self)@ == code_added(
                old(self)@,
                code@,
            ),
    {
        let ghost before = self.codes.pieces();
        if sole {
            match &mut self.codes {
                CodeStore::Own(codes) => codes.push(code),
                CodeStore::Shared(codes) => add_code(sole_owner(codes), code),
            }
            assert(code_bytes(before.push(code)) =~= code_bytes(before).push(code@));
        }
    }

    /// The factory's name.
    pub fn name(&self) -> (name: String)
        ensures
            name@ == self@.name,
    {
        atom_str(&self.name).to_string()
    }

    /// How many machines may exist at once.
    pub fn capacity(&self) -> (capacity: usize)
        ensures
            capacity == self@.capacity,
    {
        self.capacity
    }

    /// How many machines are counted as existing.
    pub fn size(&self) -> (size: usize)
        ensures
            size == self@.size,
    {
        self.size
    }

    /// How many machines are idle in the pool.
    pub fn free_size(&self) -> (size: usize)
        ensures
            size == self@.pool.len(),
    {
        stack_size(&self.pool)
    }

    /// How often a machine may be reused. It is looked at once the machine's heap has reached
    /// its limit.
    pub fn max_reused_count(&self) -> (count: usize)
        ensures
            count == self@.max_reused_count,
    {
        self.max_reused_count
    }

    /// The heap that a machine starts with.
    pub fn heap_size(&self) -> (size: usize)
        ensures
            size == self@.heap_size,
    {
        self.heap_size
    }

    /// The heap at which a machine releases what it can.
    pub fn max_heap_size(&self) -> (size: usize)
        ensures
            size == self@.max_heap_size,
    {
        self.max_heap_size
    }

    /// How often a machine was scheduled. That covers both waiting in a queue and running.
    pub fn scheduling_count(&self) -> (count: usize)
        ensures
            count == self@.scheduling_count,
    {
        self.scheduling_count
    }

    /// Counts one more scheduling.
    pub(crate) fn add_scheduling_count(&mut self)
        ensures
            final(self)@ == scheduled(old(self)@),
    {
        self.scheduling_count = self.scheduling_count.wrapping_add(1);
    }

    /// Sets the count of schedulings back to zero and returns what it was.
    pub fn reset_scheduling_count(&mut self) -> (last: usize)
        ensures
            last == old(self)@.scheduling_count,
            final(self)@ == (FactoryView { scheduling_count: 0, ..old(self)@ }),
    {
        let last: usize = self.scheduling_count;
        self.scheduling_count = 0;
        last
    }

    /// How often a machine finished running.
    pub fn ran_count(&self) -> (count: usize)
        ensures
            count == self@.ran_count,
    {
        self.ran_count
    }

    /// Counts one more finished run.
    pub fn add_ran_count(&mut self)
        ensures
            final(self)@ == (FactoryView {
                ran_count: counted_up(old(self)@.ran_count),
                ..old(self)@
            }),
    {
        self.ran_count = self.ran_count.wrapping_add(1);
    }

    /// Sets the count of finished runs back to zero and returns what it was.
    pub fn reset_ran_count(&mut self) -> (last: usize)
        ensures
            last == old(self)@.ran_count,
            final(self)@ == (FactoryView { ran_count: 0, ..old(self)@ }),
    {
        let last: usize = self.ran_count;
        self.ran_count = 0;
        last
    }

    /// Puts a machine into the pool.
    pub fn reuse(&mut self, vm: usize)
        ensures
            final(self)@ == pooled(old(self)@, vm),
    {
        stack_push(&mut self.pool, vm);
    }

    /// Takes the machine that was pooled last out of the pool, so that only one caller has it.
    pub(crate) fn take_idle(&mut self) -> (idle: Option<usize>)
        ensures
            match idle {
                Some(vm) => {
                    &&& old(self)@.pool.len() > 0
                    &&& vm == old(self)@.pool.last()
                    &&& final(self)@ == unpooled(old(self)@)
                },
                None => old(self)@.pool.len() == 0 && final(self)@ == old(self)@,
            },
    {
        stack_pop(&mut self.pool)
    }

    /// Stops counting `count` machines and returns how many were counted before. The number
    /// wraps where more machines leave than were counted.
    pub fn throw(&mut self, count: usize) -> (last: usize)
        ensures
            last == old(self)@.size,
            final(self)@ == thrown(old(self)@, count),
    {
        let last: usize = self.size;
        self.size = last.wrapping_sub(count);
        last
    }

    /// How the machine of `request` is created: with this factory's name and its grant of native
    /// objects.
    pub fn creation(&self, request: VmRequest) -> (creation: VmCreation<A>)
        ensures
            creates(self@, request, creation),
    {
        VmCreation {
            id: request.id,
            name: atom_copy(&self.name),
            auth: self.auth.clone(),
            reuse: if request.reusable {
                Some(false)
            } else {
                None
            },
        }
    }

    /// The machine to create for a caller who wants one without bytecode that is not reused.
    pub fn take(&mut self) -> (creation: VmCreation<A>)
        ensures
            creates(
                old(self)@,
                VmRequest { id: old(self)@.alloc_id, reusable: false },
                creation,
            ),
            final(self)@ == id_allocated(old(self)@),
    {
        let request = self.allocate(false);
        self.creation(request)
    }

    /// Tidies the pool: every idle machine is shown to `handler` once, and those for which it
    /// answers `true` leave the pool.
    pub fn collect<F: Fn(usize) -> bool + 'static>(&mut self, handler: F)
        requires
            forall|vm: usize|
                old(self)@.pool.contains(vm) ==> #[trigger] handler.requires((vm,)),
        ensures
            exists|removed: Seq<bool>|
                #![trigger kept(old(self)@.pool, removed)]
                {
                    &&& removed.len() == old(self)@.pool.len()
                    &&& forall|i: int|
                        0 <= i < removed.len() ==> handler.ensures(
                            (old(self)@.pool[i],),
                            #[trigger] removed[i],
                        )
                    &&& final(self)@ == (FactoryView {
                        pool: kept(old(self)@.pool, removed),
                        ..old(self)@
                    })
                },
    {
        stack_collect(&mut self.pool, handler);
        proof {
            let removed = choose|removed: Seq<bool>|
                #![trigger kept(old(self)@.pool, removed)]
                {
                    &&& removed.len() == old(self)@.pool.len()
                    &&& forall|i: int|
                        0 <= i < removed.len() ==> handler.ensures(
                            (old(self)@.pool[i],),
                            #[trigger] removed[i],
                        )
                    &&& self@.pool == kept(old(self)@.pool, removed)
                };
            assert(self@ == (FactoryView { pool: kept(old(self)@.pool, removed), ..old(self)@ }));
        }
    }

    /// Starts building a machine that loads all bytecode.
    ///
    /// Where machines are counted, a slot has to be free; it is claimed by the first
    /// `build_step`.
    pub fn new_vm(&mut self) -> (stage: BuildStage)
        ensures
            (final(self)@, stage) == build_start(old(self)@),
    {
        if self.capacity == 0 {
            BuildStage::Create(self.allocate(false))
        } else if self.size >= self.capacity {
            BuildStage::Failed(BuildFailure::Full { size: self.size })
        } else {
            BuildStage::Swap { observed: self.size }
        }
    }

    /// Takes a build one stage further. `ok` is what the action of `stage` returned; where the
    /// action returns nothing, it is not looked at.
    pub fn build_step(&mut self, stage: BuildStage, ok: bool) -> (next: BuildStage)
        ensures
            (final(self)@, next) == build_next(old(self)@, stage, ok),
    {
        match stage {
            BuildStage::Swap { observed } => self.claim_slot(observed),
            BuildStage::Pause { observed } => self.claim_slot(observed),
            BuildStage::Create(request) => if ok {
                self.load_from(request.id, 0)
            } else {
                BuildStage::Failed(BuildFailure::NotCreated)
            },
            BuildStage::Load { vm, index } => if ok {
                BuildStage::Await { vm, index }
            } else {
                BuildStage::Failed(BuildFailure::NotLoaded { index })
            },
            BuildStage::Await { vm, index } => if !ok {
                BuildStage::Await { vm, index }
            } else if index < self.codes.len() {
                self.load_from(vm, index + 1)
            } else {
                self.load_from(vm, index)
            },
            BuildStage::NewGlobalTemplate { vm } => if ok {
                BuildStage::AllocGlobal { vm }
            } else {
                BuildStage::Failed(BuildFailure::NoGlobalTemplate)
            },
            BuildStage::AllocGlobal { vm } => if ok {
                BuildStage::UnlockCollection { vm }
            } else {
                BuildStage::Failed(BuildFailure::NoGlobal)
            },
            BuildStage::UnlockCollection { vm } => BuildStage::UpdateLastHeapSize { vm },
            BuildStage::UpdateLastHeapSize { vm } => BuildStage::Count {
                vm,
                counter: Counter::VmCount,
            },
            BuildStage::Count { vm, counter: _ } => BuildStage::Done { vm },
            BuildStage::Done { vm } => BuildStage::Done { vm },
            BuildStage::Failed(failure) => BuildStage::Failed(failure),
        }
    }

    /// Allocates the next id.
    fn allocate(&mut self, reusable: bool) -> (request: VmRequest)
        ensures
            request == (VmRequest { id: old(self)@.alloc_id, reusable }),
            final(self)@ == id_allocated(old(self)@),
    {
        let id: usize = self.alloc_id;
        self.alloc_id = id.wrapping_add(1);
        VmRequest { id, reusable }
    }

    /// Compares the number of machines with `observed` and, where it still is that, counts one
    /// more.
    fn claim_slot(&mut self, observed: usize) -> (stage: BuildStage)
        ensures
            (final(self)@, stage) == slot_claimed(old(self)@, observed),
    {
        let size: usize = self.size;
        if size >= self.capacity {
            BuildStage::Failed(BuildFailure::Full { size })
        } else if size == observed {
            self.size = size + 1;
            BuildStage::Create(self.allocate(true))
        } else {
            BuildStage::Pause { observed: size }
        }
    }

    /// The stage in which `vm` loads the piece at `index`, or goes on behind the last one.
    fn load_from(&self, vm: usize, index: usize) -> (stage: BuildStage)
        ensures
            stage == load_stage(self@, vm, index as int),
    {
        if index < self.codes.len() {
            BuildStage::Load { vm, index }
        } else if self.capacity > 0 {
            BuildStage::NewGlobalTemplate { vm }
        } else {
            BuildStage::UpdateLastHeapSize { vm }
        }
    }

    /// The piece of bytecode at `index`.
    pub fn code(&self, index: usize) -> (code: Option<Code>)
        ensures
            match code {
                Some(code) => index < self@.codes.len() && code@ == self@.codes[index as int],
                None => index >= self@.codes.len(),
            },
    {
        if index < self.codes.len() {
            Some(self.codes.get(index))
        } else {
            None
        }
    }

    /// A loader that feeds this factory's bytecode to a machine, piece by piece. The loader
    /// shares the bytecode with the factory.
    pub fn loader(&mut self) -> (loader: VMFactoryLoader)
        ensures
            loader@ == (LoaderView { offset: 0, codes: old(self)@.codes }),
            final(self)@ == codes_lent(old(self)@),
    {
        let mut store = CodeStore::Own(Vec::new());
        std::mem::swap(&mut store, &mut self.codes);
        let shared = match store {
            CodeStore::Own(codes) => Arc::new(codes),
            CodeStore::Shared(codes) => codes,
        };
        self.codes = CodeStore::Shared(shared.clone());
        VMFactoryLoader::over(shared)
    }
}

/// To add a piece of bytecode makes the pieces one more, however many there were: the new one
/// comes last, all others stay where they are, and nothing else of the factory changes.
pub proof fn law_added_piece_comes_last<A>(f: FactoryView<A>, code: Seq<u8>)
    ensures
        ({
            let g = code_added(f, code);
            &&& g.codes.len() == f.codes.len() + 1
            &&& g.codes[f.codes.len() as int] == code
            &&& forall|i: int| 0 <= i < f.codes.len() ==> #[trigger] g.codes[i] == f.codes[i]
            &&& g == (FactoryView { codes: g.codes, ..f })
        }),
{
}

/// The factory after these pieces were added, one after the other.
pub open spec fn codes_added<A>(f: FactoryView<A>, codes: Seq<Seq<u8>>) -> FactoryView<A>
    decreases codes.len(),
{
    if codes.len() == 0 {
        f
    } else {
        code_added(codes_added(f, codes.drop_last()), codes.last())
    }
}

/// Any number of pieces that are added to a factory stand in it behind the earlier ones, all of
/// them, each once and in the order in which they were added.
pub proof fn law_added_pieces_keep_their_order<A>(f: FactoryView<A>, codes: Seq<Seq<u8>>)
    ensures
        codes_added(f, codes).codes == f.codes + codes,
        codes_added(f, codes) == (FactoryView { codes: f.codes + codes, ..f }),
    decreases codes.len(),
{
    if codes.len() == 0 {
        assert(f.codes + codes =~= f.codes);
    } else {
        let before = codes.drop_last();
        law_added_pieces_keep_their_order(f, before);
        law_added_piece_comes_last(codes_added(f, before), codes.last());
        assert(codes_added(f, codes).codes =~= f.codes + codes);
    }
}

/// To lend the bytecode changes nothing but that it is lent.
pub proof fn law_lending_changes_nothing_else<A>(f: FactoryView<A>)
    ensures
        codes_lent(f) == (FactoryView { lent: true, ..f }),
{
}

/// A machine that is put into the pool lies on top of all others; the one on top is the one that
/// leaves it. The others stay in their order, and nothing else of the factory changes.
pub proof fn law_pool_is_a_stack<A>(f: FactoryView<A>, vm: usize)
    ensures
        ({
            let g = pooled(f, vm);
            &&& g.pool.len() == f.pool.len() + 1
            &&& g.pool[f.pool.len() as int] == vm
            &&& forall|i: int| 0 <= i < f.pool.len() ==> #[trigger] g.pool[i] == f.pool[i]
            &&& g == (FactoryView { pool: g.pool, ..f })
        }),
        f.pool.len() > 0 ==> {
            let g = unpooled(f);
            &&& g.pool.len() == f.pool.len() - 1
            &&& forall|i: int| 0 <= i < g.pool.len() ==> #[trigger] g.pool[i] == f.pool[i]
            &&& g == (FactoryView { pool: g.pool, ..f })
        },
{
}

/// A counter goes up by one, and starts again at zero behind the largest number.
pub proof fn law_counter_goes_up_by_one(count: usize)
    ensures
        count < usize::MAX ==> counted_up(count) == count + 1,
        count == usize::MAX ==> counted_up(count) == 0,
{
}

/// What is taken off a counter and what is left of it add up to what it was, or, where more is
/// taken off than there was, to that and one whole round of the counter.
pub proof fn law_counter_goes_down_by_what_is_taken_off(count: usize, less: usize)
    ensures
        less <= count ==> counted_down(count, less) + less == count,
        less > count ==> counted_down(count, less) + less == count + usize::MAX + 1,
{
}

/// A scheduling raises the count of schedulings by one, and a throw lowers the number of machines
/// by as many as are thrown; neither changes anything else.
pub proof fn law_counting_changes_one_number<A>(f: FactoryView<A>, count: usize)
    ensures
        scheduled(f) == (FactoryView { scheduling_count: scheduled(f).scheduling_count, ..f }),
        f.scheduling_count < usize::MAX ==> scheduled(f).scheduling_count == f.scheduling_count + 1,
        f.scheduling_count == usize::MAX ==> scheduled(f).scheduling_count == 0,
        thrown(f, count) == (FactoryView { size: thrown(f, count).size, ..f }),
        count <= f.size ==> thrown(f, count).size + count == f.size,
        count > f.size ==> thrown(f, count).size + count == f.size + usize::MAX + 1,
{
}

} // verus!
