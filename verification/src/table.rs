//! The table of registered commands, a generational arena.

use vstd::prelude::*;

use generational_arena::{Arena, Index};

use crate::command::Command;
use crate::pid::Pid;
use crate::status::EntryState;

verus! {

/// A registered command and its state.
#[derive(Debug)]
pub struct Entry {
    /// What to run.
    pub command: Command,
    /// Where it stands.
    pub state: EntryState,
}

/// Registered commands, each under its handle.
pub type Entries = Map<Pid, Entry>;

/// The generational arena of `generational_arena`.
#[verifier::external_type_specification]
#[verifier::external_body]
#[verifier::reject_recursive_types(Item)]
pub struct ExArena<Item>(Arena<Item>);

/// What the arena holds, each value under its handle.
pub uninterp spec fn arena_entries(arena: Arena<Entry>) -> Entries;

/// The arena's current generation: how many values were removed from it.
pub uninterp spec fn arena_generation(arena: Arena<Entry>) -> nat;

/// The arena's free slots, the next one to be taken first.
pub uninterp spec fn arena_free(arena: Arena<Entry>) -> Seq<nat>;

/// The slot that the next value is put in, when `held` values are held and the slots of `free`
/// are free: the first free one, or where none is free, the one behind all others.
pub open spec fn slot_taken(free: Seq<nat>, held: nat) -> nat {
    if free.len() > 0 {
        free[0]
    } else {
        held
    }
}

/// The slots that are free once the next value is put in: the other free ones, or where none
/// was free, those of the new slots that are left. There are as many new slots as there were
/// slots before, and at least one.
pub open spec fn slots_left(free: Seq<nat>, held: nat) -> Seq<nat> {
    if free.len() > 0 {
        free.drop_first()
    } else if held == 0 {
        Seq::empty()
    } else {
        Seq::new((held - 1) as nat, |i: int| (held + 1 + i) as nat)
    }
}

/// Calls `Arena::new`: the arena is empty, with four slots, and in generation zero.
#[verifier::external_body]
pub(crate) fn arena_new() -> (res: Arena<Entry>)
    ensures
        arena_entries(res) == Entries::empty(),
        arena_generation(res) == 0,
        arena_free(res) == seq![0nat, 1nat, 2nat, 3nat],
{
    Arena::new()
}

/// Calls `Arena::insert`: the value is put in the first free slot, under a handle of the
/// current generation. The arena grows where it is full; that memory suffices is not stated.
#[verifier::external_body]
pub(crate) fn arena_insert(arena: &mut Arena<Entry>, entry: Entry) -> (res: Pid)
    ensures
        res.generation() == arena_generation(*old(arena)),
        res.slot() == slot_taken(arena_free(*old(arena)), arena_entries(*old(arena)).len()),
        arena_entries(*final(arena)) == arena_entries(*old(arena)).insert(res, entry),
        arena_generation(*final(arena)) == arena_generation(*old(arena)),
        arena_free(*final(arena)) == slots_left(
            arena_free(*old(arena)),
            arena_entries(*old(arena)).len(),
        ),
{
    let (slot, generation) = arena.insert(entry).into_raw_parts();
    Pid(slot, generation)
}

/// Calls `Arena::get`: the value under the handle, where the arena holds one.
#[verifier::external_body]
pub(crate) fn arena_get(arena: &Arena<Entry>, pid: Pid) -> (res: Option<&Entry>)
    ensures
        res is Some <==> arena_entries(*arena).contains_key(pid),
        res is Some ==> *res->0 == arena_entries(*arena)[pid],
{
    arena.get(Index::from_raw_parts(pid.0, pid.1))
}

/// Calls `Arena::get_mut`: the place of the value under the handle, where the arena holds one.
/// What is written there is what the arena holds afterwards.
#[verifier::external_body]
pub(crate) fn arena_get_mut(arena: &mut Arena<Entry>, pid: Pid) -> (res: Option<&mut Entry>)
    ensures
        res is Some <==> arena_entries(*old(arena)).contains_key(pid),
        res is Some ==> *res->0 == arena_entries(*old(arena))[pid],
        arena_entries(*final(arena)) == (match res {
            Some(entry) => arena_entries(*old(arena)).insert(pid, *final(entry)),
            None => arena_entries(*old(arena)),
        }),
        arena_generation(*final(arena)) == arena_generation(*old(arena)),
        arena_free(*final(arena)) == arena_free(*old(arena)),
{
    arena.get_mut(Index::from_raw_parts(pid.0, pid.1))
}

/// Calls `Arena::remove`: the value under the handle is taken out, where the arena holds one,
/// its slot is the next to be taken, and the next generation begins. The generation is counted
/// in a `u64` and must not be at its end.
#[verifier::external_body]
pub(crate) fn arena_remove(arena: &mut Arena<Entry>, pid: Pid) -> (res: Option<Entry>)
    requires
        arena_generation(*old(arena)) < u64::MAX,
    ensures
        res is Some <==> arena_entries(*old(arena)).contains_key(pid),
        res is Some ==> res->0 == arena_entries(*old(arena))[pid],
        arena_entries(*final(arena)) == arena_entries(*old(arena)).remove(pid),
        arena_generation(*final(arena)) == arena_generation(*old(arena)) + (if res is Some {
            1nat
        } else {
            0nat
        }),
        arena_free(*final(arena)) == (if res is Some {
            seq![pid.slot()] + arena_free(*old(arena))
        } else {
            arena_free(*old(arena))
        }),
{
    arena.remove(Index::from_raw_parts(pid.0, pid.1))
}

/// Whether the handles stand in ascending order of their slots.
pub open spec fn slots_ascend(pids: Seq<Pid>) -> bool {
    forall|i: int, j: int|
        0 <= i < j < pids.len() ==> (#[trigger] pids[i]).slot() < (#[trigger] pids[j]).slot()
}

/// Calls `Arena::iter` and keeps the handles: those of all values in the arena, in ascending
/// order of their slots.
#[verifier::external_body]
pub(crate) fn arena_pids(arena: &Arena<Entry>) -> (res: Vec<Pid>)
    ensures
        slots_ascend(res@),
        forall|pid: Pid|
            arena_entries(*arena).contains_key(pid) <==> #[trigger] res@.contains(pid),
{
    arena.iter().map(|item| item.0.into_raw_parts()).map(|raw| Pid(raw.0, raw.1)).collect()
}

} // verus!
