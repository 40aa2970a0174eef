//! The boxed-task registry and the per-class placement of suspended
//! computations.
//!
//! A suspended computation is referenced only through an erased address by
//! the time its storage must be released, so a bounded side table records,
//! for each placed address, which arena the bytes came from.  The table is a
//! `heapless::LinearMap` with a fixed capacity of sixteen entries — more
//! concurrently placed computations than the protocol should ever allow.

use vstd::prelude::*;

use crate::arena::{can_fit, spec_allocate, spec_release, Arena, ArenaModel, Region};
use crate::result::Error;

verus! {

/// Which resource class's arena a placement came from.
#[derive(Clone, Copy, PartialEq, Eq, Structural, Debug)]
pub enum AllocedFor {
    Button,
    ConsoleWrite,
    ConsoleRead,
}

/// The word under which each arena tag is stored in the side table.
pub open spec fn spec_tag_code(tag: AllocedFor) -> usize {
    match tag {
        AllocedFor::Button => 0usize,
        AllocedFor::ConsoleWrite => 1usize,
        AllocedFor::ConsoleRead => 2usize,
    }
}

/// Encodes an arena tag as its table word.
pub fn tag_code(tag: AllocedFor) -> (r: usize)
    ensures
        r == spec_tag_code(tag),
{
    match tag {
        AllocedFor::Button => 0,
        AllocedFor::ConsoleWrite => 1,
        AllocedFor::ConsoleRead => 2,
    }
}

/// Decodes a table word back to its arena tag.
pub fn tag_from_code(code: usize) -> (r: Option<AllocedFor>)
    ensures
        r matches Some(tag) ==> spec_tag_code(tag) == code,
        code <= 2 ==> r is Some,
        code > 2 ==> r is None,
{
    match code {
        0 => Some(AllocedFor::Button),
        1 => Some(AllocedFor::ConsoleWrite),
        2 => Some(AllocedFor::ConsoleRead),
        _ => None,
    }
}

/// How many placements the side table can record at once.
pub const REGISTRY_CAPACITY: usize = 16;

/// The bounded side table, held behind an opaque boundary: a
/// `heapless::LinearMap` from placed address to arena-tag word, with a
/// fixed capacity of sixteen entries.
#[verifier::external_body]
pub struct TagTable {
    inner: heapless::LinearMap<usize, usize, REGISTRY_CAPACITY>,
}

/// The entries the table holds, as a map from address to tag word.
pub uninterp spec fn tag_table_entries(t: TagTable) -> Map<usize, usize>;

/// A table with nothing recorded.
pub open spec fn no_entries() -> Map<usize, usize> {
    Map::empty()
}

/// Relies on `heapless::LinearMap::new`: creates an empty map.
#[verifier::external_body]
fn tag_table_new() -> (t: TagTable)
    ensures
        tag_table_entries(t) == no_entries(),
        tag_table_entries(t).dom().finite(),
{
    TagTable { inner: heapless::LinearMap::new() }
}

/// Relies on `heapless::LinearMap::insert`: an existing key has its value
/// swapped and returned; a new key is pushed unless the map already holds
/// its full sixteen entries, in which case the pair comes back as the error
/// and nothing changes.
#[verifier::external_body]
fn tag_table_insert(t: &mut TagTable, key: usize, value: usize) -> (r: Result<
    Option<usize>,
    (usize, usize),
>)
    ensures
        tag_table_entries(*old(t)).dom().contains(key) ==> (
            r matches Ok(prev) && prev == Some(tag_table_entries(*old(t))[key])
            && tag_table_entries(*final(t)) == tag_table_entries(*old(t)).insert(key, value)
        ),
        !tag_table_entries(*old(t)).dom().contains(key)
            && tag_table_entries(*old(t)).dom().len() < REGISTRY_CAPACITY ==> (
            r matches Ok(prev) && prev is None
            && tag_table_entries(*final(t)) == tag_table_entries(*old(t)).insert(key, value)
        ),
        !tag_table_entries(*old(t)).dom().contains(key)
            && tag_table_entries(*old(t)).dom().len() >= REGISTRY_CAPACITY ==> (
            r matches Err(kv) && kv == (key, value)
            && tag_table_entries(*final(t)) == tag_table_entries(*old(t))
        ),
        tag_table_entries(*final(t)).dom().finite(),
{
    t.inner.insert(key, value)
}

/// Relies on `heapless::LinearMap::get`: returns the value stored under the
/// key, if any.
#[verifier::external_body]
fn tag_table_get(t: &TagTable, key: usize) -> (r: Option<usize>)
    ensures
        tag_table_entries(*t).dom().contains(key) ==> r == Some(tag_table_entries(*t)[key]),
        !tag_table_entries(*t).dom().contains(key) ==> r is None,
{
    t.inner.get(&key).copied()
}

/// Relies on `heapless::LinearMap::remove`: deletes the entry under the key
/// and returns its value, if any.
#[verifier::external_body]
fn tag_table_remove(t: &mut TagTable, key: usize) -> (r: Option<usize>)
    ensures
        tag_table_entries(*old(t)).dom().contains(key) ==> (
            r == Some(tag_table_entries(*old(t))[key])
            && tag_table_entries(*final(t)) == tag_table_entries(*old(t)).remove(key)
        ),
        !tag_table_entries(*old(t)).dom().contains(key) ==> (
            r is None && tag_table_entries(*final(t)) == tag_table_entries(*old(t))
        ),
        tag_table_entries(*final(t)).dom().finite(),
{
    t.inner.remove(&key)
}

/// The boxed-task registry: records, for each allocated suspended-
/// computation address, which arena it came from.
pub struct BoxedTaskRegistry {
    table: TagTable,
}

impl BoxedTaskRegistry {
    /// The recorded mapping from address to arena tag.
    pub closed spec fn view(&self) -> Map<usize, AllocedFor> {
        tag_table_entries(self.table).map_values(|code: usize| decode_tag(code))
    }

    /// Every stored word decodes to a tag, and the table stays finite and
    /// within its fixed capacity.
    pub closed spec fn wf(&self) -> bool {
        &&& tag_table_entries(self.table).dom().finite()
        &&& tag_table_entries(self.table).dom().len() <= REGISTRY_CAPACITY
        &&& forall|k: usize|
            tag_table_entries(self.table).dom().contains(k)
                ==> #[trigger] tag_table_entries(self.table)[k] <= 2
    }

    /// How many placements are recorded.
    pub open spec fn len_spec(&self) -> nat {
        self.view().dom().len()
    }

    /// An empty registry.
    pub fn new() -> (r: BoxedTaskRegistry)
        ensures
            r.wf(),
            r.view() == Map::<usize, AllocedFor>::empty(),
    {
        let r = BoxedTaskRegistry { table: tag_table_new() };
        proof {
            assert(r.view() =~= Map::<usize, AllocedFor>::empty());
        }
        r
    }

    /// Records that `address` was placed from `tag`'s arena.  Fails with
    /// `ENOMEM` when the bounded table is already full — a bug signal, since
    /// it means more concurrent suspended computations than the protocol
    /// allows.
    pub fn register(&mut self, address: usize, tag: AllocedFor) -> (r: Result<(), Error>)
        requires
            old(self).wf(),
        ensures
            final(self).wf(),
            old(self).view().dom().contains(address) || old(self).len_spec() < REGISTRY_CAPACITY ==> (
                r == Ok::<(), Error>(())
                && final(self).view() == old(self).view().insert(address, tag)
            ),
            !old(self).view().dom().contains(address) && old(self).len_spec() >= REGISTRY_CAPACITY ==> (
                r == Err::<(), Error>(Error::ENOMEM) && final(self).view() == old(self).view()
            ),
    {
        let code = tag_code(tag);
        let r = tag_table_insert(&mut self.table, address, code);
        proof {
            assert(tag_table_entries(self.table).dom() =~= self.view().dom());
            if r is Ok {
                assert(self.view() =~= old(self).view().insert(address, tag));
                if !old(self).view().dom().contains(address) {
                    vstd::set_lib::lemma_len_subset(
                        old(self).view().dom(),
                        self.view().dom(),
                    );
                }
            } else {
                assert(self.view() =~= old(self).view());
            }
        }
        match r {
            Ok(_) => Ok(()),
            Err(_) => Err(Error::ENOMEM),
        }
    }

    /// Looks up which arena `address` was placed from, without deleting the
    /// record.
    pub fn resolve(&self, address: usize) -> (r: Option<AllocedFor>)
        requires
            self.wf(),
        ensures
            self.view().dom().contains(address) ==> r == Some(self.view()[address]),
            !self.view().dom().contains(address) ==> r is None,
    {
        match tag_table_get(&self.table, address) {
            None => None,
            Some(code) => tag_from_code(code),
        }
    }

    /// Deletes the record for `address` and returns its arena tag; used
    /// exactly once, when the suspended computation's storage is released.
    pub fn resolve_and_remove(&mut self, address: usize) -> (r: Option<AllocedFor>)
        requires
            old(self).wf(),
        ensures
            final(self).wf(),
            old(self).view().dom().contains(address) ==> (
                r == Some(old(self).view()[address])
                && final(self).view() == old(self).view().remove(address)
            ),
            !old(self).view().dom().contains(address) ==> (
                r is None && final(self).view() == old(self).view()
            ),
    {
        let r = tag_table_remove(&mut self.table, address);
        proof {
            assert(tag_table_entries(self.table).dom() =~= self.view().dom());
            if old(self).view().dom().contains(address) {
                assert(self.view() =~= old(self).view().remove(address));
                vstd::set_lib::lemma_len_subset(
                    self.view().dom(),
                    old(self).view().dom(),
                );
            } else {
                assert(self.view() =~= old(self).view());
            }
        }
        match r {
            None => None,
            Some(code) => tag_from_code(code),
        }
    }
}

/// The tag a stored word decodes to; words above the valid range never
/// occur in a well-formed registry.
pub open spec fn decode_tag(code: usize) -> AllocedFor {
    if code == 0 {
        AllocedFor::Button
    } else if code == 1 {
        AllocedFor::ConsoleWrite
    } else {
        AllocedFor::ConsoleRead
    }
}

/// The three per-class arenas and the registry that ties placed addresses
/// back to them.  Each arena's extent begins at its own base address, the
/// three carved back to back out of one reservation, so a placed address
/// names its arena unambiguously.
pub struct TaskStore {
    button_arena: Arena,
    write_arena: Arena,
    read_arena: Arena,
    write_base: usize,
    read_base: usize,
    registry: BoxedTaskRegistry,
}

impl TaskStore {
    /// The arena serving a class.
    pub closed spec fn arena_spec(&self, tag: AllocedFor) -> Arena {
        match tag {
            AllocedFor::Button => self.button_arena,
            AllocedFor::ConsoleWrite => self.write_arena,
            AllocedFor::ConsoleRead => self.read_arena,
        }
    }

    /// The address at which a class's extent begins.
    pub closed spec fn base_spec(&self, tag: AllocedFor) -> usize {
        match tag {
            AllocedFor::Button => 0usize,
            AllocedFor::ConsoleWrite => self.write_base,
            AllocedFor::ConsoleRead => self.read_base,
        }
    }

    /// The recorded placements.
    pub closed spec fn registry_spec(&self) -> Map<usize, AllocedFor> {
        self.registry.view()
    }

    /// All three arenas and the registry are well-formed, and the three
    /// extents sit back to back within the address space.
    pub closed spec fn wf(&self) -> bool {
        &&& self.button_arena.wf()
        &&& self.write_arena.wf()
        &&& self.read_arena.wf()
        &&& self.registry.wf()
        &&& self.write_base == self.button_arena.capacity_spec()
        &&& self.read_base == self.write_base + self.write_arena.capacity_spec()
        &&& self.read_base + self.read_arena.capacity_spec() <= usize::MAX
    }

    /// Fresh empty arenas of the given byte capacities, one per resource
    /// class — suspended computations of different resources never compete
    /// for the same arena — carved back to back, and an empty registry.
    pub fn new(button_capacity: usize, write_capacity: usize, read_capacity: usize) -> (r:
        TaskStore)
        requires
            button_capacity + write_capacity + read_capacity <= usize::MAX,
        ensures
            r.wf(),
            r.registry_spec() == Map::<usize, AllocedFor>::empty(),
            r.arena_spec(AllocedFor::Button).capacity_spec() == button_capacity,
            r.arena_spec(AllocedFor::ConsoleWrite).capacity_spec() == write_capacity,
            r.arena_spec(AllocedFor::ConsoleRead).capacity_spec() == read_capacity,
            r.base_spec(AllocedFor::Button) == 0,
            r.base_spec(AllocedFor::ConsoleWrite) == button_capacity,
            r.base_spec(AllocedFor::ConsoleRead) == button_capacity + write_capacity,
            r.arena_spec(AllocedFor::Button).model() == (ArenaModel {
                capacity: button_capacity,
                next: 0,
                live: Seq::<Region>::empty(),
            }),
            r.arena_spec(AllocedFor::ConsoleWrite).model() == (ArenaModel {
                capacity: write_capacity,
                next: 0,
                live: Seq::<Region>::empty(),
            }),
            r.arena_spec(AllocedFor::ConsoleRead).model() == (ArenaModel {
                capacity: read_capacity,
                next: 0,
                live: Seq::<Region>::empty(),
            }),
    {
        TaskStore {
            button_arena: Arena::new(button_capacity),
            write_arena: Arena::new(write_capacity),
            read_arena: Arena::new(read_capacity),
            write_base: button_capacity,
            read_base: button_capacity + write_capacity,
            registry: BoxedTaskRegistry::new(),
        }
    }

    /// Places a suspended computation of `size` bytes in `tag`'s arena and
    /// records the placement under its address — the arena's base plus the
    /// extent's offset.  A request that fits the arena while the registry
    /// has room succeeds.  It fails with `ENOMEM` when the arena cannot
    /// satisfy the request or the registry is full; a placement the
    /// registry cannot record is released again, so a failure changes
    /// nothing lasting in the arena's accounting.
    #[verifier::rlimit(50)]
    pub fn place(&mut self, tag: AllocedFor, size: usize) -> (r: Result<usize, Error>)
        requires
            old(self).wf(),
        ensures
            final(self).wf(),
            forall|t: AllocedFor| #[trigger] final(self).base_spec(t) == old(self).base_spec(t),
            can_fit(old(self).arena_spec(tag).model(), size)
                && old(self).registry_spec().dom().len() < REGISTRY_CAPACITY ==> r is Ok,
            r matches Ok(address) ==> (
                address == old(self).base_spec(tag) + old(self).arena_spec(tag).model().next
                && final(self).arena_spec(tag).model() == spec_allocate(
                    old(self).arena_spec(tag).model(),
                    size,
                ).0
                && spec_allocate(old(self).arena_spec(tag).model(), size).1 is Ok
                && final(self).registry_spec() == old(self).registry_spec().insert(address, tag)
                && (forall|other: AllocedFor|
                    other != tag ==> #[trigger] final(self).arena_spec(other)
                        == old(self).arena_spec(other))
            ),
            r matches Err(e) ==> (
                e == Error::ENOMEM
                && final(self).registry_spec() == old(self).registry_spec()
                && (forall|other: AllocedFor|
                    #[trigger] final(self).arena_spec(other).model().live
                        == old(self).arena_spec(other).model().live)
            ),
    {
        let base = match tag {
            AllocedFor::Button => 0,
            AllocedFor::ConsoleWrite => self.write_base,
            AllocedFor::ConsoleRead => self.read_base,
        };
        let arena = match tag {
            AllocedFor::Button => &mut self.button_arena,
            AllocedFor::ConsoleWrite => &mut self.write_arena,
            AllocedFor::ConsoleRead => &mut self.read_arena,
        };
        let offset = match arena.allocate(size) {
            Ok(offset) => offset,
            Err(e) => {
                return Err(e);
            },
        };
        let address = base + offset;
        match self.registry.register(address, tag) {
            Ok(()) => Ok(address),
            Err(e) => {
                let arena = match tag {
                    AllocedFor::Button => &mut self.button_arena,
                    AllocedFor::ConsoleWrite => &mut self.write_arena,
                    AllocedFor::ConsoleRead => &mut self.read_arena,
                };
                let _ = arena.release(offset, size);
                proof {
                    crate::arena::lemma_allocate_release_restores(
                        old(self).arena_spec(tag).model(),
                        size,
                    );
                }
                Err(e)
            },
        }
    }

    /// Releases the placement at `address`, whose extent was `size` bytes:
    /// resolves which arena it came from, returns the bytes to that arena,
    /// and deletes the record — each placed address exactly once.  A
    /// recorded address whose extent matches a live allocation of its arena
    /// succeeds.  It fails with `EINVAL` when the address was never placed
    /// or the extent does not match, changing nothing.
    #[verifier::rlimit(50)]
    pub fn release(&mut self, address: usize, size: usize) -> (r: Result<AllocedFor, Error>)
        requires
            old(self).wf(),
        ensures
            final(self).wf(),
            forall|t: AllocedFor| #[trigger] final(self).base_spec(t) == old(self).base_spec(t),
            ({
                let tag = old(self).registry_spec()[address];
                old(self).registry_spec().dom().contains(address)
                    && address >= old(self).base_spec(tag)
                    && spec_release(
                    old(self).arena_spec(tag).model(),
                    (address - old(self).base_spec(tag)) as usize,
                    size,
                ).1 is Ok
            }) ==> r is Ok,
            r matches Ok(tag) ==> (
                old(self).registry_spec().dom().contains(address)
                && tag == old(self).registry_spec()[address]
                && address >= old(self).base_spec(tag)
                && (final(self).arena_spec(tag).model(), Ok::<(), Error>(()))
                    == spec_release(
                    old(self).arena_spec(tag).model(),
                    (address - old(self).base_spec(tag)) as usize,
                    size,
                )
                && final(self).registry_spec() == old(self).registry_spec().remove(address)
                && (forall|other: AllocedFor|
                    other != tag ==> #[trigger] final(self).arena_spec(other)
                        == old(self).arena_spec(other))
            ),
            r matches Err(e) ==> (
                e == Error::EINVAL
                && final(self).registry_spec() == old(self).registry_spec()
                && (forall|t: AllocedFor|
                    #[trigger] final(self).arena_spec(t).model()
                        == old(self).arena_spec(t).model())
            ),
    {
        let tag = match self.registry.resolve(address) {
            Some(tag) => tag,
            None => {
                return Err(Error::EINVAL);
            },
        };
        let base = match tag {
            AllocedFor::Button => 0,
            AllocedFor::ConsoleWrite => self.write_base,
            AllocedFor::ConsoleRead => self.read_base,
        };
        if address < base {
            return Err(Error::EINVAL);
        }
        let offset = address - base;
        let arena = match tag {
            AllocedFor::Button => &mut self.button_arena,
            AllocedFor::ConsoleWrite => &mut self.write_arena,
            AllocedFor::ConsoleRead => &mut self.read_arena,
        };
        match arena.release(offset, size) {
            Ok(()) => {
                let _ = self.registry.resolve_and_remove(address);
                Ok(tag)
            },
            Err(e) => Err(e),
        }
    }
}

} // verus!
