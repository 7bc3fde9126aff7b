//! A block of memory slots with a permission for each slot.

use vstd::prelude::*;
use std::collections::HashMap;

verus! {

broadcast use vstd::std_specs::hash::group_hash_axioms;

/// The number of slots of a memory buffer.
pub const BLOCK_SIZE: usize = 32;

/// What may be done with a memory slot.
#[derive(Copy, Clone, Debug, PartialEq, Eq, Structural)]
pub enum Permission {
    ReadOnly,
    ReadWrite,
}

/// What a memory buffer is, to its contracts: the value of each slot and the
/// permissions that were set.
pub struct MemoryState {
    pub slots: Seq<u16>,
    pub permissions: Map<usize, Permission>,
}

impl MemoryState {
    /// The permission of slot `idx`: `ReadWrite` unless one was set.
    pub open spec fn permission_at(self, idx: usize) -> Permission {
        if self.permissions.contains_key(idx) {
            self.permissions[idx]
        } else {
            Permission::ReadWrite
        }
    }

    /// The state after every slot from `start` up to `end` got `perm`.
    pub open spec fn with_permissions(self, start: usize, end: usize, perm: Permission) -> MemoryState {
        MemoryState {
            permissions: Map::new(
                |idx: usize| start <= idx < end || self.permissions.contains_key(idx),
                |idx: usize|
                    if start <= idx < end {
                        perm
                    } else {
                        self.permissions[idx]
                    },
            ),
            ..self
        }
    }

    /// Whether a write to slot `idx` is carried out.
    pub open spec fn writable(self, idx: usize) -> bool {
        idx < BLOCK_SIZE && self.permission_at(idx) != Permission::ReadOnly
    }
}

/// A fixed block of memory slots, each with a permission.
pub struct MemoryBuffer {
    buffer: [u16; 32],
    permissions: HashMap<usize, Permission>,
}

impl View for MemoryBuffer {
    type V = MemoryState;

    closed spec fn view(&self) -> MemoryState {
        MemoryState { slots: self.buffer@, permissions: self.permissions@ }
    }
}

impl MemoryBuffer {
    /// Create a new memory buffer: every slot holds zero, no permission is set.
    pub fn new() -> (created: MemoryBuffer)
        ensures
            created@.slots == Seq::new(BLOCK_SIZE as nat, |idx: int| 0u16),
            created@.permissions == Map::<usize, Permission>::empty(),
    {
        let created = MemoryBuffer { buffer: [0u16; 32], permissions: HashMap::new() };
        assert(created.buffer@ =~= Seq::new(BLOCK_SIZE as nat, |idx: int| 0u16));
        created
    }

    /// Every buffer has `BLOCK_SIZE` slots.
    pub proof fn lemma_slot_count(&self)
        ensures
            self@.slots.len() == BLOCK_SIZE,
    {
    }

    /// Mark every memory slot as being read-only.
    pub fn make_read_only(&mut self)
        ensures
            final(self)@ == old(self)@.with_permissions(0, BLOCK_SIZE, Permission::ReadOnly),
    {
        self.change_permissions(0, BLOCK_SIZE, Permission::ReadOnly);
    }

    /// Mark all of the memory slots between `start` and `end` as having the
    /// given permission.
    pub fn change_permissions(&mut self, start: usize, end: usize, perm: Permission)
        ensures
            final(self)@ == old(self)@.with_permissions(start, end, perm),
    {
        let mut idx: usize = start;
        assert(self@.permissions =~= old(self)@.with_permissions(start, start, perm).permissions);
        while idx < end
            invariant
                start <= idx,
                idx <= end || idx == start,
                self@ == old(self)@.with_permissions(start, idx, perm),
            decreases end - idx,
        {
            self.permissions.insert(idx, perm);
            assert(self@.permissions =~= old(self)@.with_permissions(
                start,
                (idx + 1) as usize,
                perm,
            ).permissions);
            idx = idx + 1;
        }
        assert(self@.permissions =~= old(self)@.with_permissions(start, end, perm).permissions);
    }

    /// Return the permission for the given slot, defaulting to ReadWrite if
    /// no explicit permission has been set.
    pub fn permission_at(&self, idx: usize) -> (perm: Permission)
        ensures
            perm == self@.permission_at(idx),
    {
        match self.permissions.get(&idx) {
            Some(perm) => *perm,
            None => Permission::ReadWrite,
        }
    }

    /// Write a value to the given slot. Returns Err, and changes nothing, if
    /// there is no such slot or it does not have ReadWrite permission.
    pub fn write_memory_at(&mut self, idx: usize, val: u16) -> (result: Result<(), ()>)
        ensures
            result is Ok <==> old(self)@.writable(idx),
            result is Ok ==> final(self)@ == (MemoryState {
                slots: old(self)@.slots.update(idx as int, val),
                ..old(self)@
            }),
            result is Err ==> final(self)@ == old(self)@,
    {
        if idx >= BLOCK_SIZE {
            return Err(());
        }
        if self.permission_at(idx) != Permission::ReadOnly {
            self.buffer[idx] = val;
            Ok(())
        } else {
            Err(())
        }
    }

    /// Write a value to the slot that `idx` falls on when the slots are
    /// counted round and round. Returns Err, and changes nothing, if that
    /// slot does not have ReadWrite permission.
    pub fn write_memory_wrapped(&mut self, idx: usize, val: u16) -> (result: Result<(), ()>)
        ensures
            result is Ok <==> old(self)@.writable((idx % BLOCK_SIZE) as usize),
            result is Ok ==> final(self)@ == (MemoryState {
                slots: old(self)@.slots.update(idx as int % BLOCK_SIZE as int, val),
                ..old(self)@
            }),
            result is Err ==> final(self)@ == old(self)@,
    {
        let idx = idx % BLOCK_SIZE;
        if self.permission_at(idx) != Permission::ReadOnly {
            self.buffer[idx] = val;
            Ok(())
        } else {
            Err(())
        }
    }

    /// Read the value of the given slot. Returns Err if there is no such slot.
    pub fn read_memory_at(&mut self, idx: usize) -> (result: Result<u16, ()>)
        ensures
            final(self)@ == old(self)@,
            result is Ok <==> idx < BLOCK_SIZE,
            result is Ok ==> result == Ok::<u16, ()>(old(self)@.slots[idx as int]),
    {
        if idx >= BLOCK_SIZE {
            Err(())
        } else {
            Ok(self.buffer[idx])
        }
    }

    /// The size of this memory buffer.
    pub fn size(&self) -> (size: usize)
        ensures
            size == BLOCK_SIZE,
    {
        BLOCK_SIZE
    }
}

/// Once every slot was made read-only, no write is carried out, whatever
/// slot it names.
pub proof fn lemma_read_only_refuses_writes(state: MemoryState, idx: usize)
    ensures
        !state.with_permissions(0, BLOCK_SIZE, Permission::ReadOnly).writable(idx),
{
}

/// Setting permissions leaves the values of the slots alone, and the
/// permissions of the slots outside the range as they were.
pub proof fn lemma_permissions_outside_range(
    state: MemoryState,
    start: usize,
    end: usize,
    perm: Permission,
    idx: usize,
)
    requires
        idx < start || idx >= end,
    ensures
        state.with_permissions(start, end, perm).slots == state.slots,
        state.with_permissions(start, end, perm).permission_at(idx) == state.permission_at(idx),
{
}

} // verus!
