//! The runtime that hosts one plugin: its state, the backing store behind its
//! address space, and access to the memory domains "ROM" and "System Bus".

use vstd::prelude::*;
use vstd::slice::{slice_subrange, slice_to_vec};
use crate::memory::{accepted, region_bytes, region_in_store, store_after_write, Memory};
use crate::memory_map::{lemma_translate_inside, translation, DescriptorView};
use crate::state::{State, StateView};

verus! {

/// Version of the plugin interface that this runtime speaks.
pub const EXPECTED_LIB_RETRO_VERSION: u32 = 1;

/// Name of the domain that holds the content image.
pub open spec fn rom_domain() -> Seq<char> {
    "ROM"@
}

/// Name of the domain that is the plugin's live address space.
pub open spec fn system_bus_domain() -> Seq<char> {
    "System Bus"@
}

/// A memory domain of the runtime.
#[derive(Clone, Copy, Debug, PartialEq, Eq, Structural)]
pub enum Domain {
    /// The content image, read-only, addressed from 0.
    Rom,
    /// The plugin's live address space.
    SystemBus,
}

impl Domain {
    /// The domain called `name`, if there is one. Names are case sensitive.
    pub fn from_name(name: &str) -> (r: Option<Domain>)
        ensures
            r == Self::named(name@),
    {
        proof {
            lemma_domain_names_differ();
        }
        if crate::text::same_text(name, "ROM") {
            Some(Domain::Rom)
        } else if crate::text::same_text(name, "System Bus") {
            Some(Domain::SystemBus)
        } else {
            None
        }
    }

    /// The domain called `name`, if there is one.
    pub open spec fn named(name: Seq<char>) -> Option<Domain> {
        if name == rom_domain() {
            Some(Domain::Rom)
        } else if name == system_bus_domain() {
            Some(Domain::SystemBus)
        } else {
            None
        }
    }
}

/// The two domain names are different names.
pub proof fn lemma_domain_names_differ()
    ensures
        rom_domain() != system_bus_domain(),
        rom_domain().len() == 3,
        system_bus_domain().len() == 10,
{
    reveal_strlit("ROM");
    reveal_strlit("System Bus");
    assert(rom_domain().len() != system_bus_domain().len());
}

/// The bytes of `rom` from `address` on, at most `size` of them.
pub open spec fn rom_bytes(rom: Seq<u8>, address: int, size: int) -> Seq<u8> {
    let start = if address <= rom.len() { address } else { rom.len() as int };
    let end = if address + size <= rom.len() { address + size } else { rom.len() as int };
    rom.subrange(start, end)
}

/// What a read of the live address space returns: the bytes of the region
/// that `address` translates to, and nothing where it does not translate.
pub open spec fn bus_bytes(
    map: Seq<DescriptorView>,
    store: Seq<Seq<u8>>,
    address: int,
    max_len: int,
) -> Seq<u8> {
    match translation(map, address, max_len) {
        Some(region) => region_bytes(store, region),
        None => Seq::empty(),
    }
}

/// How many of the bytes offered to a write of the live address space are
/// taken.
pub open spec fn bus_accepted(
    map: Seq<DescriptorView>,
    store: Seq<Seq<u8>>,
    address: int,
    bytes: Seq<u8>,
) -> int {
    match translation(map, address, bytes.len() as int) {
        Some(region) => accepted(store, region, bytes.len() as int),
        None => 0,
    }
}

/// The store after a write of `bytes` at `address`.
pub open spec fn bus_after_write(
    map: Seq<DescriptorView>,
    store: Seq<Seq<u8>>,
    address: int,
    bytes: Seq<u8>,
) -> Seq<Seq<u8>> {
    match translation(map, address, bytes.len() as int) {
        Some(region) => store_after_write(store, region, bytes),
        None => store,
    }
}

/// The mathematical content of a [`Core`].
pub ghost struct CoreView {
    pub state: StateView,
    pub store: Seq<Seq<u8>>,
}

impl CoreView {
    /// What a read of `size` bytes at `address` of `domain` returns.
    pub open spec fn domain_bytes(self, domain: Domain, address: int, size: int) -> Seq<u8> {
        match domain {
            Domain::Rom => rom_bytes(self.state.rom, address, size),
            Domain::SystemBus => bus_bytes(self.state.memory_map, self.store, address, size),
        }
    }

    /// How many bytes a write of `bytes` at `address` of `domain` takes.
    pub open spec fn domain_accepted(self, domain: Domain, address: int, bytes: Seq<u8>) -> int {
        match domain {
            Domain::Rom => 0,
            Domain::SystemBus => bus_accepted(self.state.memory_map, self.store, address, bytes),
        }
    }

    /// The runtime after a write of `bytes` at `address` of `domain`.
    pub open spec fn after_write(self, domain: Domain, address: int, bytes: Seq<u8>) -> CoreView {
        match domain {
            Domain::Rom => self,
            Domain::SystemBus => CoreView {
                store: bus_after_write(self.state.memory_map, self.store, address, bytes),
                ..self
            },
        }
    }
}

/// The runtime's view of one loaded plugin.
#[derive(Debug)]
pub struct Core {
    state: State,
    memory: Memory,
}

impl View for Core {
    type V = CoreView;

    closed spec fn view(&self) -> CoreView {
        CoreView { state: self.state@, store: self.memory@ }
    }
}

impl Core {
    /// A runtime over `state` whose descriptors name the buffers of
    /// `memory`.
    pub fn new(state: State, memory: Memory) -> (r: Core)
        ensures
            r@ == (CoreView { state: state@, store: memory@ }),
    {
        Core { state, memory }
    }

    /// The state of the owning thread.
    pub fn state(&self) -> (r: &State)
        ensures
            r@ == self@.state,
    {
        &self.state
    }

    /// The backing store.
    pub fn memory(&self) -> (r: &Memory)
        ensures
            r@ == self@.store,
    {
        &self.memory
    }

    /// The state of the owning thread, to be changed in place.
    pub fn state_mut(&mut self) -> (r: &mut State)
        ensures
            r@ == old(self)@.state,
            final(self)@ == (CoreView { state: final(r)@, store: old(self)@.store }),
    {
        &mut self.state
    }

    /// The backing store, to be changed in place.
    pub fn memory_mut(&mut self) -> (r: &mut Memory)
        ensures
            r@ == old(self)@.store,
            final(self)@ == (CoreView { state: old(self)@.state, store: final(r)@ }),
    {
        &mut self.memory
    }

    /// Gives the state and the store back, as when the plugin unloads.
    pub fn into_parts(self) -> (r: (State, Memory))
        ensures
            r.0@ == self@.state,
            r.1@ == self@.store,
    {
        (self.state, self.memory)
    }

    /// The content image.
    pub fn rom(&self) -> (r: &[u8])
        ensures
            r@ == self@.state.rom,
    {
        self.state.rom.as_slice()
    }

    /// The hash of the content image, as cached at load.
    pub fn get_sha1_romhash(&self) -> (r: String)
        ensures
            r@ == self@.state.sha1_romhash,
    {
        self.state.sha1_romhash.clone()
    }

    /// Reads at most `max_len` bytes of the live address space from
    /// `address` on. The result is shorter than `max_len` where the
    /// descriptor that resolves `address` ends earlier, and empty where no
    /// descriptor resolves it.
    pub fn get_memory(&self, address: usize, max_len: usize) -> (r: Vec<u8>)
        ensures
            r@ == bus_bytes(self@.state.memory_map, self@.store, address as int, max_len as int),
    {
        match self.state.memory_map.translate(address, max_len) {
            Some(region) => self.memory.read(region),
            None => Vec::new(),
        }
    }

    /// Writes the leading bytes of `bytes` to the live address space at
    /// `address`, as many as the descriptor that resolves `address` has room
    /// for, and returns their number.
    pub fn write_memory(&mut self, address: usize, bytes: &[u8]) -> (r: usize)
        ensures
            r == bus_accepted(
                old(self)@.state.memory_map,
                old(self)@.store,
                address as int,
                bytes@,
            ),
            final(self)@ == old(self)@.after_write(Domain::SystemBus, address as int, bytes@),
    {
        match self.state.memory_map.translate(address, bytes.len()) {
            Some(region) => self.memory.write(region, bytes),
            None => 0,
        }
    }

    /// Reads at most `size` bytes of the content image from `address` on.
    pub fn read_rom(&self, address: usize, size: usize) -> (r: Vec<u8>)
        ensures
            r@ == rom_bytes(self@.state.rom, address as int, size as int),
    {
        let rom = self.state.rom.as_slice();
        let start = if address <= rom.len() { address } else { rom.len() };
        let end = if size <= rom.len() - start { start + size } else { rom.len() };
        slice_to_vec(slice_subrange(rom, start, end))
    }

    /// Reads at most `size` bytes of `domain` from `address` on. A read past
    /// the end of the domain is truncated, possibly to nothing.
    pub fn read_domain(&self, domain: Domain, address: usize, size: usize) -> (r: Vec<u8>)
        ensures
            r@ == self@.domain_bytes(domain, address as int, size as int),
    {
        match domain {
            Domain::Rom => self.read_rom(address, size),
            Domain::SystemBus => self.get_memory(address, size),
        }
    }

    /// Writes `bytes` to `domain` at `address` and returns how many bytes
    /// were written. The content image is read-only and takes none.
    pub fn write_domain(&mut self, domain: Domain, address: usize, bytes: &[u8]) -> (r: usize)
        ensures
            r == old(self)@.domain_accepted(domain, address as int, bytes@),
            final(self)@ == old(self)@.after_write(domain, address as int, bytes@),
    {
        match domain {
            Domain::Rom => 0,
            Domain::SystemBus => self.write_memory(address, bytes),
        }
    }
}

/// An access that asks for more bytes than remain in the descriptor that
/// resolves its address is cut to what remains: where only `k` bytes remain,
/// a read returns exactly `k` bytes and a write takes exactly `k`, changes
/// those `k` bytes of the backing buffer, and nothing else.
pub proof fn lemma_bus_access_truncates(
    map: Seq<DescriptorView>,
    store: Seq<Seq<u8>>,
    i: int,
    address: int,
    bytes: Seq<u8>,
)
    requires
        0 <= i < map.len(),
        map[i].wf(),
        map[i].contains(address),
        forall|j: int| 0 <= j < i ==> !#[trigger] map[j].contains(address),
        map[i].buffer < store.len(),
        map[i].offset + map[i].len <= store[map[i].buffer as int].len(),
        map[i].len - (address - map[i].start) < bytes.len() <= usize::MAX,
    ensures
        ({
            let k = map[i].len - (address - map[i].start);
            let at = map[i].offset + (address - map[i].start);
            let buffer = map[i].buffer as int;
            let after = bus_after_write(map, store, address, bytes);
            &&& bus_bytes(map, store, address, bytes.len() as int) == store[buffer].subrange(
                at,
                at + k,
            )
            &&& bus_bytes(map, store, address, bytes.len() as int).len() == k
            &&& bus_accepted(map, store, address, bytes) == k
            &&& after.len() == store.len()
            &&& forall|b: int| 0 <= b < store.len() && b != buffer ==> after[b] == store[b]
            &&& after[buffer].len() == store[buffer].len()
            &&& forall|p: int|
                0 <= p < store[buffer].len() ==> #[trigger] after[buffer][p] == if at <= p < at
                    + k {
                    bytes[p - at]
                } else {
                    store[buffer][p]
                }
        }),
{
    lemma_translate_inside(map, i, address, bytes.len() as int);
    let region = translation(map, address, bytes.len() as int)->0;
    assert(region_in_store(store, region));
}

/// A read of the content image returns the bytes from `address` up to
/// `address + size` or the end of the image, whichever comes first: `size`
/// bytes where that many remain, and the `k` that remain where `k < size`.
pub proof fn lemma_rom_read_truncates(rom: Seq<u8>, address: int, size: int)
    requires
        0 <= address,
        0 <= size,
    ensures
        address + size <= rom.len() ==> rom_bytes(rom, address, size).len() == size,
        address <= rom.len() < address + size ==> rom_bytes(rom, address, size).len() == rom.len()
            - address,
        rom.len() < address ==> rom_bytes(rom, address, size).len() == 0,
        forall|p: int|
            0 <= p < rom_bytes(rom, address, size).len() ==> #[trigger] rom_bytes(
                rom,
                address,
                size,
            )[p] == rom[address + p],
{
}

} // verus!
