//! What the library takes from other crates and from std without proving it: interned
//! strings (`pi_atom`), the stack behind the pool of idle machines (`pi_lfstack`), the test
//! for sole ownership of an `Arc`, and the quoted form of a string.

use pi_atom::Atom;
use pi_lfstack::{CollectResult, LFStack};
use std::sync::Arc;
use vstd::prelude::*;

verus! {

#[verifier::external_type_specification]
#[verifier::external_body]
pub struct ExAtom(Atom);

#[verifier::external_type_specification]
#[verifier::external_body]
#[verifier::reject_recursive_types(T)]
pub struct ExLFStack<T: 'static>(LFStack<T>);

/// The characters that an interned string holds.
pub uninterp spec fn atom_text(atom: Atom) -> Seq<char>;

/// The values on a stack, from the bottom to the top.
pub uninterp spec fn stacked(stack: LFStack<usize>) -> Seq<usize>;

/// The quoted and escaped form in which `{:?}` shows a string.
pub uninterp spec fn debug_text(text: Seq<char>) -> Seq<char>;

/// Calls `<pi_atom::Atom as From<&str>>::from`, which interns `text`: the atom holds the same
/// characters.
#[verifier::external_body]
pub(crate) fn intern(text: &str) -> (atom: Atom)
    ensures
        atom_text(atom) == text@,
{
    Atom::from(text)
}

/// Calls `pi_atom::Atom::as_str`, which borrows the characters that the atom holds.
#[verifier::external_body]
pub(crate) fn atom_str(atom: &Atom) -> (text: &str)
    ensures
        text@ == atom_text(*atom),
{
    atom.as_str()
}

/// Calls `<pi_atom::Atom as Clone>::clone`, which shares the interned string: the copy holds the
/// same characters.
#[verifier::external_body]
pub(crate) fn atom_copy(atom: &Atom) -> (copy: Atom)
    ensures
        atom_text(copy) == atom_text(*atom),
{
    atom.clone()
}

/// Calls `pi_lfstack::LFStack::new`: the new stack is empty.
#[verifier::external_body]
pub(crate) fn stack_new() -> (stack: LFStack<usize>)
    ensures
        stacked(stack) == Seq::<usize>::empty(),
{
    LFStack::new()
}

/// Calls `pi_lfstack::LFStack::size`: the height counts the values on the stack.
#[verifier::external_body]
pub(crate) fn stack_size(stack: &LFStack<usize>) -> (height: usize)
    ensures
        height == stacked(*stack).len(),
{
    stack.size()
}

/// Calls `pi_lfstack::LFStack::push`, which puts `value` on top. The stack changes behind a
/// shared reference; taking it by `&mut` keeps the change visible to the caller's proof.
#[verifier::external_body]
pub(crate) fn stack_push(stack: &mut LFStack<usize>, value: usize)
    ensures
        stacked(*final(stack)) == stacked(*old(stack)).push(value),
{
    stack.push(value)
}

/// Calls `pi_lfstack::LFStack::pop`, which takes the value on top, or gives `None` where the
/// stack is empty.
#[verifier::external_body]
pub(crate) fn stack_pop(stack: &mut LFStack<usize>) -> (top: Option<usize>)
    ensures
        match top {
            Some(value) => {
                &&& stacked(*old(stack)).len() > 0
                &&& value == stacked(*old(stack)).last()
                &&& stacked(*final(stack)) == stacked(*old(stack)).drop_last()
            },
            None => {
                &&& stacked(*old(stack)).len() == 0
                &&& stacked(*final(stack)) == stacked(*old(stack))
            },
        },
{
    stack.pop()
}

/// What stays of `values` once those with a `true` beside them in `removed` have left, in the
/// order in which they stood.
pub open spec fn kept(values: Seq<usize>, removed: Seq<bool>) -> Seq<usize>
    decreases values.len(),
{
    if values.len() == 0 {
        Seq::empty()
    } else if removed.last() {
        kept(values.drop_last(), removed.drop_last())
    } else {
        kept(values.drop_last(), removed.drop_last()).push(values.last())
    }
}

/// Calls `pi_lfstack::LFStack::collect_from_top`, which asks `handler` about every value on the
/// stack once, from the top down, removes those for which it answers `true`, and leaves the
/// others where they are.
#[verifier::external_body]
pub(crate) fn stack_collect<F: Fn(usize) -> bool + 'static>(
    stack: &mut LFStack<usize>,
    handler: F,
)
    requires
        forall|value: usize|
            stacked(*old(stack)).contains(value) ==> #[trigger] handler.requires((value,)),
    ensures
        exists|removed: Seq<bool>|
            #![trigger kept(stacked(*old(stack)), removed)]
            {
                &&& removed.len() == stacked(*old(stack)).len()
                &&& forall|i: int|
                    0 <= i < removed.len() ==> handler.ensures(
                        (stacked(*old(stack))[i],),
                        #[trigger] removed[i],
                    )
                &&& stacked(*final(stack)) == kept(stacked(*old(stack)), removed)
            },
{
    stack.collect_from_top(
        Arc::new(move |value: &mut usize| CollectResult::Continue(handler(*value))),
    )
}

/// Calls `std::sync::Arc::get_mut`. Whether other owners exist at that moment decides the
/// outcome, so both outcomes are described: a borrow of the shared vector, through which it is
/// changed in place, or `None` with nothing changed.
#[verifier::external_body]
pub(crate) fn sole_owner(shared: &mut Arc<Vec<Arc<Vec<u8>>>>) -> (sole: Option<
    &mut Vec<Arc<Vec<u8>>>,
>)
    ensures
        match sole {
            Some(owned) => *owned == **old(shared) && **final(shared) == *final(owned),
            None => *final(shared) == *old(shared),
        },
{
    Arc::get_mut(shared)
}

/// Formats with `{:?}`, std's `Debug` for `str`, which quotes and escapes the text.
#[verifier::external_body]
pub(crate) fn quoted(text: &str) -> (shown: String)
    ensures
        shown@ == debug_text(text@),
{
    format!("{:?}", text)
}

/// Where the values stood that have no `true` beside them.
proof fn lemma_kept_positions(values: Seq<usize>, removed: Seq<bool>) -> (at: Seq<int>)
    requires
        removed.len() == values.len(),
    ensures
        at.len() == kept(values, removed).len(),
        forall|k: int|
            0 <= k < at.len() ==> 0 <= #[trigger] at[k] < values.len() && !removed[at[k]] && kept(
                values,
                removed,
            )[k] == values[at[k]],
        forall|j: int, k: int| 0 <= j < k < at.len() ==> #[trigger] at[j] < #[trigger] at[k],
        forall|i: int| 0 <= i < values.len() && !(#[trigger] removed[i]) ==> at.contains(i),
    decreases values.len(),
{
    if values.len() == 0 {
        Seq::empty()
    } else {
        let rest = lemma_kept_positions(values.drop_last(), removed.drop_last());
        let last = values.len() - 1;
        let stay = kept(values.drop_last(), removed.drop_last());
        assert forall|k: int| 0 <= k < rest.len() implies 0 <= #[trigger] rest[k] < last
            && !removed[rest[k]] && stay[k] == values[rest[k]] by {
            assert(removed.drop_last()[rest[k]] == removed[rest[k]]);
        }
        assert forall|i: int|
            0 <= i < last && !(#[trigger] removed[i]) implies rest.contains(i) by {
            assert(!removed.drop_last()[i]);
        }
        if removed.last() {
            rest
        } else {
            let at = rest.push(last);
            assert forall|i: int|
                0 <= i < values.len() && !(#[trigger] removed[i]) implies at.contains(i) by {
                if i < last {
                    let k = rest.index_of(i);
                    assert(at[k] == i);
                } else {
                    assert(at[rest.len() as int] == i);
                }
            }
            at
        }
    }
}

/// Exactly those values stay that have no `true` beside them, each as often as it stood there, and
/// they stay in their order.
pub proof fn law_kept_values_keep_their_order(values: Seq<usize>, removed: Seq<bool>)
    requires
        removed.len() == values.len(),
    ensures
        exists|at: Seq<int>|
            {
                &&& #[trigger] at.len() == kept(values, removed).len()
                &&& forall|k: int|
                    0 <= k < at.len() ==> 0 <= #[trigger] at[k] < values.len() && !removed[at[k]]
                        && kept(values, removed)[k] == values[at[k]]
                &&& forall|j: int, k: int|
                    0 <= j < k < at.len() ==> #[trigger] at[j] < #[trigger] at[k]
                &&& forall|i: int|
                    0 <= i < values.len() && !(#[trigger] removed[i]) ==> at.contains(i)
            },
{
    let at = lemma_kept_positions(values, removed);
    assert(at.len() == kept(values, removed).len());
}

} // verus!
