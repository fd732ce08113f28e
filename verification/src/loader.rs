//! Feeding a factory's bytecode to a machine that was taken without it.

use crate::factory::{code_bytes, Code};
use std::sync::Arc;
use vstd::prelude::*;

verus! {

/// Hands a factory's bytecode to a machine, one piece at a time.
pub struct VMFactoryLoader {
    offset: usize,
    top: usize,
    codes: Arc<Vec<Code>>,
}

/// What a loader holds, as plain values.
pub struct LoaderView {
    /// How many pieces have been loaded.
    pub offset: nat,
    /// All pieces, in the order in which they are loaded.
    pub codes: Seq<Seq<u8>>,
}

/// Where the loading of one piece stands, and what the host does next.
#[derive(Clone, Copy, Debug, PartialEq, Eq, Structural)]
pub enum LoadStage {
    /// Load the loader's `code` into the machine; the reply tells whether it was accepted.
    Load,
    /// See whether the machine ran the piece; the reply tells. After a `false`, give way to
    /// other threads before asking again.
    Await,
    /// The loader went on to the next piece.
    Loaded,
    /// All pieces had been loaded before.
    Exhausted,
}

/// The loader behind the piece at its offset.
pub open spec fn piece_passed(v: LoaderView) -> LoaderView {
    if v.offset < v.codes.len() {
        LoaderView { offset: v.offset + 1, ..v }
    } else {
        v
    }
}

/// How the loading of the next piece starts.
pub open spec fn load_start(v: LoaderView) -> LoadStage {
    if v.offset >= v.codes.len() {
        LoadStage::Exhausted
    } else {
        LoadStage::Load
    }
}

/// One step of loading: the loader and the stage after `stage`, where `ok` is what the action
/// of `stage` returned. A piece that the machine does not accept is passed over.
pub open spec fn load_following(v: LoaderView, stage: LoadStage, ok: bool) -> (
    LoaderView,
    LoadStage,
) {
    match stage {
        LoadStage::Load => if ok {
            (v, LoadStage::Await)
        } else {
            (piece_passed(v), LoadStage::Loaded)
        },
        LoadStage::Await => if ok {
            (piece_passed(v), LoadStage::Loaded)
        } else {
            (v, LoadStage::Await)
        },
        LoadStage::Loaded => (v, stage),
        LoadStage::Exhausted => (v, stage),
    }
}

impl View for VMFactoryLoader {
    type V = LoaderView;

    closed spec fn view(&self) -> LoaderView {
        LoaderView { offset: self.offset as nat, codes: code_bytes(self.codes@) }
    }
}

impl Clone for VMFactoryLoader {
    fn clone(&self) -> (copy: Self)
        ensures
            copy@ == self@,
    {
        proof {
            use_type_invariant(self);
        }
        VMFactoryLoader { offset: self.offset, top: self.top, codes: self.codes.clone() }
    }
}

impl VMFactoryLoader {
    #[verifier::type_invariant]
    spec fn within_codes(self) -> bool {
        self.offset <= self.top && self.top == self.codes@.len()
    }

    pub(crate) fn over(codes: Arc<Vec<Code>>) -> (loader: Self)
        ensures
            loader@ == (LoaderView { offset: 0, codes: code_bytes(codes@) }),
    {
        let top: usize = codes.len();
        VMFactoryLoader { offset: 0, top, codes }
    }

    /// Starts loading the next piece into a machine.
    pub fn load_next(&self) -> (stage: LoadStage)
        ensures
            stage == load_start(self@),
    {
        proof {
            use_type_invariant(self);
        }
        if self.offset >= self.top {
            LoadStage::Exhausted
        } else {
            LoadStage::Load
        }
    }

    /// Takes the loading of a piece one stage further. `ok` is what the action of `stage`
    /// returned.
    pub fn load_step(&mut self, stage: LoadStage, ok: bool) -> (next: LoadStage)
        ensures
            (final(self)@, next) == load_following(old(self)@, stage, ok),
    {
        match stage {
            LoadStage::Load => if ok {
                LoadStage::Await
            } else {
                self.pass();
                LoadStage::Loaded
            },
            LoadStage::Await => if ok {
                self.pass();
                LoadStage::Loaded
            } else {
                LoadStage::Await
            },
            LoadStage::Loaded => LoadStage::Loaded,
            LoadStage::Exhausted => LoadStage::Exhausted,
        }
    }

    fn pass(&mut self)
        ensures
            final(self)@ == piece_passed(old(self)@),
    {
        proof {
            use_type_invariant(&*self);
        }
        if self.offset < self.top {
            self.offset = self.offset + 1;
        }
    }

    /// The piece to load next, unless all have been loaded.
    pub fn code(&self) -> (code: Option<Code>)
        ensures
            match code {
                Some(code) => self@.offset < self@.codes.len() && code@
                    == self@.codes[self@.offset as int],
                None => self@.offset >= self@.codes.len(),
            },
    {
        proof {
            use_type_invariant(self);
        }
        if self.offset < self.top {
            Some(self.codes[self.offset].clone())
        } else {
            None
        }
    }
}

/// A loader and the stage of the present piece after the given replies.
pub open spec fn load_after(v: LoaderView, stage: LoadStage, replies: Seq<bool>) -> (
    LoaderView,
    LoadStage,
)
    decreases replies.len(),
{
    if replies.len() == 0 {
        (v, stage)
    } else {
        let (w, reached) = load_after(v, stage, replies.drop_last());
        load_following(w, reached, replies.last())
    }
}

/// Whatever the machine replies, a round of loading passes exactly one piece, and only once the
/// round is over.
pub proof fn law_round_passes_one_piece(v: LoaderView, replies: Seq<bool>)
    ensures
        ({
            let (w, stage) = load_after(v, load_start(v), replies);
            w == if stage is Loaded {
                piece_passed(v)
            } else {
                v
            }
        }),
        load_after(v, load_start(v), replies).1 is Exhausted <==> v.offset >= v.codes.len(),
    decreases replies.len(),
{
    if replies.len() > 0 {
        law_round_passes_one_piece(v, replies.drop_last());
    }
}

/// A loader after a number of rounds.
pub open spec fn rounds_passed(v: LoaderView, rounds: nat) -> LoaderView
    decreases rounds,
{
    if rounds == 0 {
        v
    } else {
        piece_passed(rounds_passed(v, (rounds - 1) as nat))
    }
}

/// A loader hands out the pieces in their order, each one once, and is exhausted right behind
/// the last one.
pub proof fn law_loader_passes_each_piece_once(v: LoaderView, rounds: nat)
    requires
        v.offset <= v.codes.len(),
    ensures
        rounds_passed(v, rounds).codes == v.codes,
        v.offset + rounds <= v.codes.len() ==> rounds_passed(v, rounds).offset == v.offset + rounds,
        load_start(rounds_passed(v, rounds)) is Exhausted <==> v.offset + rounds >= v.codes.len(),
    decreases rounds,
{
    if rounds > 0 {
        law_loader_passes_each_piece_once(v, (rounds - 1) as nat);
    }
}

/// A piece that the machine accepts is not passed before the machine has run it: the loader waits,
/// unchanged, and asks as often as it takes.
pub proof fn law_accepted_piece_is_awaited(v: LoaderView)
    ensures
        load_following(v, LoadStage::Load, true) == (v, LoadStage::Await),
        load_following(v, LoadStage::Await, false) == (v, LoadStage::Await),
{
}

/// A piece that the machine has run, or does not accept, is behind the loader: the next round is
/// about the piece after it. All pieces stay as they are.
pub proof fn law_loader_goes_on_to_the_next_piece(v: LoaderView)
    requires
        v.offset < v.codes.len(),
    ensures
        load_following(v, LoadStage::Await, true) == (
            LoaderView { offset: v.offset + 1, codes: v.codes },
            LoadStage::Loaded,
        ),
        load_following(v, LoadStage::Load, false) == (
            LoaderView { offset: v.offset + 1, codes: v.codes },
            LoadStage::Loaded,
        ),
{
}

/// A loader that is behind its last piece stays there, and a round that is over stays over.
pub proof fn law_finished_loader_stays(v: LoaderView, stage: LoadStage, ok: bool)
    ensures
        v.offset >= v.codes.len() ==> load_following(v, stage, ok).0 == v,
        v.offset >= v.codes.len() && stage is Await && ok ==> load_following(v, stage, ok).1
            == LoadStage::Loaded,
        v.offset >= v.codes.len() && stage is Load && !ok ==> load_following(v, stage, ok).1
            == LoadStage::Loaded,
        stage is Loaded || stage is Exhausted ==> load_following(v, stage, ok) == (v, stage),
{
}

/// There is a piece to load exactly as long as not all pieces are behind the loader.
pub proof fn law_loader_loads_while_pieces_are_left(v: LoaderView)
    ensures
        v.offset < v.codes.len() ==> load_start(v) == LoadStage::Load,
        v.offset >= v.codes.len() ==> load_start(v) == LoadStage::Exhausted,
{
}

/// Whatever the machine replies, a piece that it accepted is passed exactly when it said
/// afterwards that the piece has run. Until then the loader stands where it stood.
pub proof fn law_accepted_piece_has_run_before_it_is_passed(v: LoaderView, replies: Seq<bool>)
    requires
        v.offset < v.codes.len(),
        replies.len() > 0,
        replies[0],
    ensures
        ({
            let (w, stage) = load_after(v, LoadStage::Load, replies);
            let ran = exists|i: int| 1 <= i < replies.len() && #[trigger] replies[i];
            &&& stage is Loaded <==> ran
            &&& stage is Await <==> !ran
            &&& w.codes == v.codes
            &&& w.offset == v.offset + if ran {
                1int
            } else {
                0int
            }
        }),
    decreases replies.len(),
{
    let before = replies.drop_last();
    if before.len() == 0 {
        assert(load_after(v, LoadStage::Load, before) == (v, LoadStage::Load));
        assert(replies.last() == replies[0]);
    } else {
        assert(before[0] == replies[0]);
        law_accepted_piece_has_run_before_it_is_passed(v, before);
        assert(replies.last() == replies[replies.len() - 1]);
        if exists|i: int| 1 <= i < before.len() && #[trigger] before[i] {
            let i = choose|i: int| 1 <= i < before.len() && #[trigger] before[i];
            assert(replies[i]);
        } else {
            assert forall|i: int| 1 <= i < replies.len() && #[trigger] replies[i] implies i
                == replies.len() - 1 by {
                if i < before.len() {
                    assert(before[i]);
                }
            }
        }
    }
}

} // verus!
