//! The channel through which machines send asynchronous requests to registered handlers.

use crate::foreign::{atom_str, atom_text};
use crate::meters::Counter;
use pi_atom::Atom;
use vstd::prelude::*;

verus! {

/// The handlers that are registered for asynchronous requests, by name, and the gray value of
/// the channel. `H` is a handler; the channel only keeps it.
pub struct VMChannelMap<H> {
    gray: usize,
    entries: Vec<(Atom, H)>,
}

/// What a channel holds, as plain values.
#[verifier::ext_equal]
pub struct ChannelsView<H> {
    /// The gray value.
    pub gray: usize,
    /// The handler of each name that has one.
    pub handlers: Map<Seq<char>, H>,
}

/// The handler that requests to `name` go to.
pub open spec fn handler_of<H>(v: ChannelsView<H>, name: Seq<char>) -> Option<H> {
    if v.handlers.contains_key(name) {
        Some(v.handlers[name])
    } else {
        None
    }
}

/// The channel with `handler` registered under `name`.
pub open spec fn registered<H>(v: ChannelsView<H>, name: Seq<char>, handler: H) -> ChannelsView<
    H,
> {
    ChannelsView { handlers: v.handlers.insert(name, handler), ..v }
}

/// The channel without a handler for `name`.
pub open spec fn unregistered<H>(v: ChannelsView<H>, name: Seq<char>) -> ChannelsView<H> {
    ChannelsView { handlers: v.handlers.remove(name), ..v }
}

/// The handlers of a list of entries, by name.
pub open spec fn handler_map<H>(entries: Seq<(Atom, H)>) -> Map<Seq<char>, H>
    decreases entries.len(),
{
    if entries.len() == 0 {
        Map::empty()
    } else {
        handler_map(entries.drop_last()).insert(atom_text(entries.last().0), entries.last().1)
    }
}

/// No name occurs twice.
pub open spec fn names_distinct<H>(entries: Seq<(Atom, H)>) -> bool {
    forall|i: int, j: int|
        0 <= i < j < entries.len() ==> atom_text(#[trigger] entries[i].0) != atom_text(
            #[trigger] entries[j].0,
        )
}

/// `name` is the name of one of the entries.
spec fn names_one<H>(entries: Seq<(Atom, H)>, name: Seq<char>) -> bool {
    exists|i: int| 0 <= i < entries.len() && atom_text(#[trigger] entries[i].0) == name
}

proof fn lemma_handler_map<H>(entries: Seq<(Atom, H)>)
    requires
        names_distinct(entries),
    ensures
        forall|name: Seq<char>| #[trigger]
            handler_map(entries).contains_key(name) <==> names_one(entries, name),
        forall|i: int|
            0 <= i < entries.len() ==> handler_map(entries)[atom_text(#[trigger] entries[i].0)]
                == entries[i].1,
        handler_map(entries).dom().finite(),
        handler_map(entries).dom().len() == entries.len(),
    decreases entries.len(),
{
    if entries.len() > 0 {
        let rest = entries.drop_last();
        let last = atom_text(entries.last().0);
        lemma_handler_map(rest);
        assert(!names_one(rest, last));
        assert forall|name: Seq<char>| #[trigger]
            handler_map(entries).contains_key(name) <==> names_one(entries, name) by {
            if names_one(rest, name) {
                let i = choose|i: int|
                    0 <= i < rest.len() && atom_text(#[trigger] rest[i].0) == name;
                assert(atom_text(entries[i].0) == name);
            }
            if name == last {
                assert(atom_text(entries[entries.len() - 1].0) == name);
            }
            if names_one(entries, name) && name != last {
                let i = choose|i: int|
                    0 <= i < entries.len() && atom_text(#[trigger] entries[i].0) == name;
                assert(atom_text(rest[i].0) == name);
            }
        }
        assert forall|i: int| 0 <= i < entries.len() implies handler_map(
            entries,
        )[atom_text(#[trigger] entries[i].0)] == entries[i].1 by {
            if i < rest.len() {
                assert(entries[i] == rest[i]);
                assert(handler_map(rest)[atom_text(rest[i].0)] == rest[i].1);
            }
        }
        assert(handler_map(entries).dom() =~= handler_map(rest).dom().insert(last));
    }
}

proof fn lemma_handler_map_remove<H>(entries: Seq<(Atom, H)>, at: int)
    requires
        names_distinct(entries),
        0 <= at < entries.len(),
    ensures
        names_distinct(entries.remove(at)),
        handler_map(entries.remove(at)) == handler_map(entries).remove(
            atom_text(entries[at].0),
        ),
{
    let rest = entries.remove(at);
    let name = atom_text(entries[at].0);
    assert(names_distinct(rest)) by {
        assert forall|i: int, j: int| 0 <= i < j < rest.len() implies atom_text(
            #[trigger] rest[i].0,
        ) != atom_text(#[trigger] rest[j].0) by {
            let before_i = if i < at { i } else { i + 1 };
            let before_j = if j < at { j } else { j + 1 };
            assert(rest[i] == entries[before_i]);
            assert(rest[j] == entries[before_j]);
        }
    }
    lemma_handler_map(entries);
    lemma_handler_map(rest);
    assert forall|other: Seq<char>| #[trigger]
        handler_map(rest).contains_key(other) <==> handler_map(entries).remove(
            name,
        ).contains_key(other) by {
        if names_one(rest, other) {
            let i = choose|i: int|
                0 <= i < rest.len() && atom_text(#[trigger] rest[i].0) == other;
            let before = if i < at { i } else { i + 1 };
            assert(rest[i] == entries[before]);
            assert(atom_text(entries[before].0) == other);
        }
        if names_one(entries, other) && other != name {
            let i = choose|i: int|
                0 <= i < entries.len() && atom_text(#[trigger] entries[i].0) == other;
            let after = if i < at { i } else { i - 1 };
            assert(rest[after] == entries[i]);
            assert(atom_text(rest[after].0) == other);
        }
    }
    assert forall|other: Seq<char>| #[trigger]
        handler_map(rest).contains_key(other) implies handler_map(rest)[other] == handler_map(
        entries,
    ).remove(name)[other] by {
        assert(names_one(rest, other));
        let i = choose|i: int| 0 <= i < rest.len() && atom_text(#[trigger] rest[i].0) == other;
        let before = if i < at { i } else { i + 1 };
        assert(rest[i] == entries[before]);
        assert(handler_map(rest)[atom_text(rest[i].0)] == rest[i].1);
        assert(handler_map(entries)[atom_text(entries[before].0)] == entries[before].1);
    }
    assert(handler_map(rest) =~= handler_map(entries).remove(name));
}

/// Whether two atoms hold the same characters.
fn same_name(left: &Atom, right: &Atom) -> (same: bool)
    ensures
        same == (atom_text(*left) == atom_text(*right)),
{
    let left = atom_str(left).to_string();
    let right = atom_str(right).to_string();
    left.eq(&right)
}

impl<H> View for VMChannelMap<H> {
    type V = ChannelsView<H>;

    closed spec fn view(&self) -> ChannelsView<H> {
        ChannelsView { gray: self.gray, handlers: handler_map(self.entries@) }
    }
}

impl<H> VMChannelMap<H> {
    #[verifier::type_invariant]
    spec fn one_handler_per_name(self) -> bool {
        names_distinct(self.entries@)
    }

    /// A channel without handlers.
    pub fn new(gray: usize) -> (channels: Self)
        ensures
            channels@ == (ChannelsView::<H> { gray, handlers: Map::empty() }),
    {
        VMChannelMap { gray, entries: Vec::new() }
    }

    /// Where the entry of `name` stands.
    fn position(&self, name: &Atom) -> (at: Option<usize>)
        ensures
            match at {
                Some(at) => at < self.entries@.len() && atom_text(self.entries@[at as int].0)
                    == atom_text(*name),
                None => !names_one(self.entries@, atom_text(*name)),
            },
    {
        let mut at: usize = 0;
        while at < self.entries.len()
            invariant
                at <= self.entries@.len(),
                forall|i: int|
                    0 <= i < at ==> atom_text(#[trigger] self.entries@[i].0) != atom_text(*name),
            decreases self.entries@.len() - at,
        {
            if same_name(&self.entries[at].0, name) {
                return Some(at);
            }
            at = at + 1;
        }
        None
    }
}

/// The gray value of the channel.
pub fn get_channels_gray<H>(channels: &VMChannelMap<H>) -> (gray: usize)
    ensures
        gray == channels@.gray,
{
    channels.gray
}

/// Sets the gray value of the channel and returns the one before.
pub fn set_channels_gray<H>(channels: &mut VMChannelMap<H>, gray: usize) -> (last: usize)
    ensures
        last == old(channels)@.gray,
        final(channels)@ == (ChannelsView { gray, ..old(channels)@ }),
{
    proof {
        use_type_invariant(&*channels);
    }
    let last: usize = channels.gray;
    channels.gray = gray;
    last
}

/// How many names have a handler.
pub fn get_async_request_size<H>(channels: &VMChannelMap<H>) -> (size: usize)
    ensures
        channels@.handlers.dom().finite(),
        size == channels@.handlers.dom().len(),
{
    proof {
        use_type_invariant(channels);
        lemma_handler_map(channels.entries@);
    }
    channels.entries.len()
}

/// Registers `handler` under `name` and returns the handler that it replaces.
pub fn register_async_request<H>(
    channels: &mut VMChannelMap<H>,
    name: Atom,
    handler: H,
) -> (last: Option<H>)
    ensures
        final(channels)@ == registered(old(channels)@, atom_text(name), handler),
        last == handler_of(old(channels)@, atom_text(name)),
{
    let ghost before = channels.entries@;
    let last = take_entry(channels, &name);
    let ghost text = atom_text(name);
    let ghost between = channels.entries@;
    let mut entries: Vec<(Atom, H)> = Vec::new();
    proof {
        use_type_invariant(&*channels);
        lemma_handler_map(between);
    }
    std::mem::swap(&mut entries, &mut channels.entries);
    entries.push((name, handler));
    proof {
        assert(entries@.drop_last() =~= between);
        assert(!handler_map(between).contains_key(text));
        assert(names_distinct(entries@)) by {
            assert forall|i: int, j: int| 0 <= i < j < entries@.len() implies atom_text(
                #[trigger] entries@[i].0,
            ) != atom_text(#[trigger] entries@[j].0) by {
                assert(entries@[i] == between[i]);
                if j < between.len() {
                    assert(entries@[j] == between[j]);
                } else {
                    assert(!names_one(between, text));
                }
            }
        }
        assert(handler_map(entries@) =~= handler_map(before).insert(text, handler));
    }
    channels.entries = entries;
    last
}

/// Takes the handler of `name` off the channel and returns it.
pub fn unregister_async_request<H>(channels: &mut VMChannelMap<H>, name: Atom) -> (last: Option<
    H,
>)
    ensures
        final(channels)@ == unregistered(old(channels)@, atom_text(name)),
        last == handler_of(old(channels)@, atom_text(name)),
{
    take_entry(channels, &name)
}

fn take_entry<H>(channels: &mut VMChannelMap<H>, name: &Atom) -> (last: Option<H>)
    ensures
        final(channels)@ == unregistered(old(channels)@, atom_text(*name)),
        last == handler_of(old(channels)@, atom_text(*name)),
{
    let ghost before = channels.entries@;
    proof {
        use_type_invariant(&*channels);
        lemma_handler_map(before);
    }
    match channels.position(name) {
        None => {
            assert(handler_map(before).remove(atom_text(*name)) =~= handler_map(before));
            None
        },
        Some(at) => {
            proof {
                lemma_handler_map_remove(before, at as int);
            }
            let mut entries: Vec<(Atom, H)> = Vec::new();
            std::mem::swap(&mut entries, &mut channels.entries);
            let entry: (Atom, H) = entries.remove(at);
            assert(names_one(before, atom_text(*name)));
            channels.entries = entries;
            Some(entry.1)
        },
    }
}

/// What the host does for a request.
pub struct AsyncRequest<'a, H> {
    /// Raise this counter by one, whether the request is taken or refused.
    pub counter: Counter,
    /// Hand the request to this handler. Without one the request is refused.
    pub handler: Option<&'a H>,
}

/// Sends a request to `name`.
pub fn async_request<'a, H>(channels: &'a VMChannelMap<H>, name: &Atom) -> (request: AsyncRequest<
    'a,
    H,
>)
    ensures
        request.counter == Counter::VmAsyncRequestCount,
        match request.handler {
            Some(handler) => handler_of(channels@, atom_text(*name)) == Some(*handler),
            None => handler_of(channels@, atom_text(*name)) is None,
        },
{
    proof {
        use_type_invariant(channels);
        lemma_handler_map(channels.entries@);
    }
    let handler = match channels.position(name) {
        Some(at) => {
            assert(names_one(channels.entries@, atom_text(*name)));
            Some(&channels.entries[at].1)
        },
        None => None,
    };
    AsyncRequest { counter: Counter::VmAsyncRequestCount, handler }
}

/// Requests go to the handler that was registered last under their name, and to none once it
/// was unregistered. Other names, and the gray value, are not touched by either.
pub proof fn law_requests_reach_the_registered_handler<H>(
    v: ChannelsView<H>,
    name: Seq<char>,
    handler: H,
    other: Seq<char>,
)
    requires
        other != name,
    ensures
        handler_of(registered(v, name, handler), name) == Some(handler),
        handler_of(unregistered(v, name), name) is None,
        handler_of(registered(v, name, handler), other) == handler_of(v, other),
        handler_of(unregistered(v, name), other) == handler_of(v, other),
        registered(v, name, handler).gray == v.gray,
        unregistered(v, name).gray == v.gray,
{
}

/// To unregister a handler undoes its registration under a name that had none. The number of
/// registered names goes up and down accordingly, and stays where a handler is replaced.
pub proof fn law_unregister_undoes_register<H>(v: ChannelsView<H>, name: Seq<char>, handler: H)
    requires
        v.handlers.dom().finite(),
    ensures
        handler_of(v, name) is None ==> unregistered(registered(v, name, handler), name) == v,
        registered(v, name, handler).handlers.dom().len() == v.handlers.dom().len() + if handler_of(
            v,
            name,
        ) is None {
            1int
        } else {
            0int
        },
        unregistered(v, name).handlers.dom().len() == v.handlers.dom().len() - if handler_of(
            v,
            name,
        ) is None {
            0int
        } else {
            1int
        },
{
    assert(registered(v, name, handler).handlers.dom() =~= v.handlers.dom().insert(name));
    assert(unregistered(v, name).handlers.dom() =~= v.handlers.dom().remove(name));
    if handler_of(v, name) is None {
        assert(unregistered(registered(v, name, handler), name).handlers =~= v.handlers);
    }
}

/// A name has a handler exactly where one is registered under it, and then that one.
pub proof fn law_name_has_the_handler_in_the_table<H>(v: ChannelsView<H>, name: Seq<char>)
    ensures
        v.handlers.contains_key(name) ==> handler_of(v, name) == Some(v.handlers[name]),
        !v.handlers.contains_key(name) ==> handler_of(v, name) is None,
{
}

/// To register a handler puts it into the table in place of the one before, and to unregister a
/// name takes it out; nothing else changes.
pub proof fn law_table_changes_at_one_name<H>(v: ChannelsView<H>, name: Seq<char>, handler: H)
    ensures
        registered(v, name, handler) == (ChannelsView {
            gray: v.gray,
            handlers: v.handlers.insert(name, handler),
        }),
        unregistered(v, name) == (ChannelsView {
            gray: v.gray,
            handlers: v.handlers.remove(name),
        }),
{
}

} // verus!
