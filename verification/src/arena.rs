//! The store behind the registry: a generational arena of connection entries.
//!
//! Nothing in this file is proved. What the arena holds is named by two
//! functions, and each wrapper states over them what the arena's method does.

use vstd::prelude::*;
use generational_arena::Arena;
use generational_arena::Index;
use crate::handle::SocketHandle;
use crate::handle::SocketKind;

verus! {

/// One live connection: the script object it serves and the sending end of
/// its outbound channel. Dropping the entry drops the sender, which is how
/// the backend task learns that the connection was closed.
pub struct Socket {
    pub(crate) target: SocketKind,
    pub(crate) sender: async_channel::Sender<Vec<u8>>,
}

/// `generational_arena::Arena`. Its inside is not looked at: what it holds
/// is named by [`arena_targets`] and [`arena_generation`].
#[verifier::external_type_specification]
#[verifier::external_body]
#[verifier::reject_recursive_types(T)]
pub struct ExArena<T>(Arena<T>);

/// The registry without any entry.
pub open spec fn no_sockets() -> Map<SocketHandle, SocketKind> {
    Map::empty()
}

/// The occupied slots of the arena: each handle (slot index and the
/// generation stored in the slot) with the target of the entry in it.
pub uninterp spec fn arena_targets(arena: Arena<Socket>) -> Map<SocketHandle, SocketKind>;

/// The arena's generation counter: it starts at zero, tags every entry
/// inserted, and goes up by one with every entry removed.
pub uninterp spec fn arena_generation(arena: Arena<Socket>) -> u64;

/// `Arena::new`: an arena without entries, at generation zero.
#[verifier::external_body]
pub(crate) fn arena_new() -> (arena: Arena<Socket>)
    ensures
        arena_targets(arena) == no_sockets(),
        arena_generation(arena) == 0,
{
    Arena::new()
}

/// `Arena::insert`: puts the entry into a free slot and returns the slot's
/// index tagged with the current generation. No occupied slot has that
/// index, the other entries stay, and the generation is unchanged.
#[verifier::external_body]
pub(crate) fn arena_insert(arena: &mut Arena<Socket>, socket: Socket) -> (handle: SocketHandle)
    ensures
        !arena_targets(*old(arena)).dom().contains(handle),
        handle.generation == arena_generation(*old(arena)),
        arena_targets(*final(arena)) == arena_targets(*old(arena)).insert(handle, socket.target),
        arena_generation(*final(arena)) == arena_generation(*old(arena)),
{
    let (index, generation) = arena.insert(socket).into_raw_parts();
    SocketHandle { index, generation }
}

/// `Arena::get`: the entry in the handle's slot, if the slot is occupied and
/// holds the handle's generation.
#[verifier::external_body]
pub(crate) fn arena_get(arena: &Arena<Socket>, handle: SocketHandle) -> (found: Option<&Socket>)
    ensures
        found.is_some() == arena_targets(*arena).dom().contains(handle),
        found.is_some() ==> found.unwrap().target == arena_targets(*arena)[handle],
{
    arena.get(Index::from_raw_parts(handle.index, handle.generation))
}

/// `Arena::remove`: takes the entry out of the handle's slot, if the slot is
/// occupied and holds the handle's generation, and then adds one to the
/// generation counter; otherwise changes nothing. The counter is a `u64`
/// that the arena increments with `+=`, so a removal at the last value is
/// left out.
#[verifier::external_body]
pub(crate) fn arena_remove(arena: &mut Arena<Socket>, handle: SocketHandle) -> (removed: Option<Socket>)
    requires
        arena_targets(*old(arena)).dom().contains(handle) ==> arena_generation(*old(arena)) < u64::MAX,
    ensures
        removed.is_some() == arena_targets(*old(arena)).dom().contains(handle),
        removed.is_some() ==> removed.unwrap().target == arena_targets(*old(arena))[handle],
        arena_targets(*final(arena)) == arena_targets(*old(arena)).remove(handle),
        arena_generation(*final(arena)) == arena_generation(*old(arena)) + if removed.is_some() { 1int } else { 0int },
{
    arena.remove(Index::from_raw_parts(handle.index, handle.generation))
}

} // verus!
