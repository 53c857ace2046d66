//! The address space of a loaded plugin: an ordered list of descriptors, each
//! mapping a range of logical addresses onto a segment of a backing buffer.
//!
//! Descriptors never hold pointers. A descriptor names its backing buffer by
//! an index into the arena that the runtime keeps (see `memory`), so a
//! translation is a plain value that stays meaningful, and harmless, after
//! the plugin is gone.

use vstd::prelude::*;

verus! {

/// The result of a translation: `len` bytes of buffer `buffer`, starting
/// `offset` bytes into it.
#[derive(Clone, Copy, Debug, PartialEq, Eq, Structural)]
pub struct Region {
    pub buffer: usize,
    pub offset: usize,
    pub len: usize,
}

/// The mathematical content of a [`Descriptor`].
pub ghost struct DescriptorView {
    pub flags: u64,
    pub buffer: usize,
    pub offset: usize,
    pub start: usize,
    pub select: usize,
    pub disconnect: usize,
    pub len: usize,
    pub address_space: Seq<char>,
}

impl DescriptorView {
    /// The machine limits every descriptor respects: neither the end of the
    /// logical range nor the end of the mapped segment leaves `usize`.
    pub open spec fn wf(self) -> bool {
        &&& self.start + self.len <= usize::MAX
        &&& self.offset + self.len <= usize::MAX
    }

    /// Whether the descriptor resolves `addr`: its select mask is zero and
    /// `addr` lies in `[start, start + len)`.
    pub open spec fn contains(self, addr: int) -> bool {
        &&& self.select == 0
        &&& self.start <= addr < self.start + self.len
    }

    /// Where `addr` lands in the backing buffer, and how many of the
    /// `max_len` bytes asked for remain in range. Meaningful where
    /// `contains(addr)`.
    pub open spec fn region(self, addr: int, max_len: int) -> Region {
        let skipped = addr - self.start;
        let remaining = self.len - skipped;
        Region {
            buffer: self.buffer,
            offset: (self.offset + skipped) as usize,
            len: (if remaining <= max_len { remaining } else { max_len }) as usize,
        }
    }
}

/// Index of the first descriptor at or after `from` that resolves `addr`.
pub open spec fn first_match_from(ds: Seq<DescriptorView>, addr: int, from: int) -> Option<int>
    decreases ds.len() - from,
{
    if from < 0 || from >= ds.len() {
        None
    } else if ds[from].contains(addr) {
        Some(from)
    } else {
        first_match_from(ds, addr, from + 1)
    }
}

/// Index of the first descriptor, in registration order, that resolves
/// `addr`.
pub open spec fn first_match(ds: Seq<DescriptorView>, addr: int) -> Option<int> {
    first_match_from(ds, addr, 0)
}

/// What `translate` yields: the region of the first matching descriptor.
pub open spec fn translation(ds: Seq<DescriptorView>, addr: int, max_len: int) -> Option<Region> {
    match first_match(ds, addr) {
        Some(i) => Some(ds[i].region(addr, max_len)),
        None => None,
    }
}

/// The most of `len` bytes that a range from `start`, mapped from `offset`
/// on, can hold before the addresses end.
pub open spec fn fitting(len: usize, start: usize, offset: usize) -> usize {
    let by_range = if len <= usize::MAX - start {
        len
    } else {
        (usize::MAX - start) as usize
    };
    if by_range <= usize::MAX - offset {
        by_range
    } else {
        (usize::MAX - offset) as usize
    }
}

/// A mapping rule from a contiguous range of logical addresses to a region of
/// one backing buffer.
#[derive(Debug)]
pub struct Descriptor {
    flags: u64,
    buffer: usize,
    offset: usize,
    start: usize,
    select: usize,
    disconnect: usize,
    len: usize,
    address_space: String,
}

impl View for Descriptor {
    type V = DescriptorView;

    closed spec fn view(&self) -> DescriptorView {
        DescriptorView {
            flags: self.flags,
            buffer: self.buffer,
            offset: self.offset,
            start: self.start,
            select: self.select,
            disconnect: self.disconnect,
            len: self.len,
            address_space: self.address_space@,
        }
    }
}

impl Descriptor {
    #[verifier::type_invariant]
    closed spec fn inv(self) -> bool {
        self@.wf()
    }

    /// Builds a descriptor from the fields of a plugin's descriptor table
    /// entry, with `buffer` standing for the entry's base pointer. Returns
    /// `None` exactly when the logical range or the mapped segment would
    /// reach past the largest address.
    pub fn new(
        flags: u64,
        buffer: usize,
        offset: usize,
        start: usize,
        select: usize,
        disconnect: usize,
        len: usize,
        address_space: String,
    ) -> (r: Option<Descriptor>)
        ensures
            r is Some <==> start + len <= usize::MAX && offset + len <= usize::MAX,
            r matches Some(d) ==> d@ == (DescriptorView {
                flags,
                buffer,
                offset,
                start,
                select,
                disconnect,
                len,
                address_space: address_space@,
            }),
    {
        if len > usize::MAX - start || len > usize::MAX - offset {
            return None;
        }
        Some(Descriptor { flags, buffer, offset, start, select, disconnect, len, address_space })
    }

    /// The most of `len` bytes that a range from `start`, mapped from
    /// `offset` on, can hold before the addresses end.
    pub fn fit(len: usize, start: usize, offset: usize) -> (r: usize)
        ensures
            r == fitting(len, start, offset),
    {
        let mut len = len;
        if len > usize::MAX - start {
            len = usize::MAX - start;
        }
        if len > usize::MAX - offset {
            len = usize::MAX - offset;
        }
        len
    }

    /// Builds a descriptor as `new` does, but from any numbers: a range or
    /// segment that would reach past the largest address is cut where the
    /// addresses end.
    pub fn fitted(
        flags: u64,
        buffer: usize,
        offset: usize,
        start: usize,
        select: usize,
        disconnect: usize,
        len: usize,
        address_space: String,
    ) -> (r: Descriptor)
        ensures
            r@ == (DescriptorView {
                flags,
                buffer,
                offset,
                start,
                select,
                disconnect,
                len: fitting(len, start, offset),
                address_space: address_space@,
            }),
    {
        let mut len = len;
        if len > usize::MAX - start {
            len = usize::MAX - start;
        }
        if len > usize::MAX - offset {
            len = usize::MAX - offset;
        }
        Descriptor { flags, buffer, offset, start, select, disconnect, len, address_space }
    }

    /// Flags the plugin set on the descriptor.
    pub fn flags(&self) -> (r: u64)
        ensures
            r == self@.flags,
    {
        self.flags
    }

    /// Arena index of the backing buffer.
    pub fn buffer(&self) -> (r: usize)
        ensures
            r == self@.buffer,
    {
        self.buffer
    }

    /// Offset of the mapped segment inside the backing buffer.
    pub fn offset(&self) -> (r: usize)
        ensures
            r == self@.offset,
    {
        self.offset
    }

    /// First logical address of the range.
    pub fn start(&self) -> (r: usize)
        ensures
            r == self@.start,
    {
        self.start
    }

    /// One past the last logical address of the range.
    pub fn end(&self) -> (r: usize)
        ensures
            r == self@.start + self@.len,
    {
        proof {
            use_type_invariant(self);
        }
        self.start + self.len
    }

    /// The select mask. Only a descriptor whose mask is zero resolves
    /// addresses.
    pub fn select(&self) -> (r: usize)
        ensures
            r == self@.select,
    {
        self.select
    }

    /// The disconnect mask.
    pub fn disconnect(&self) -> (r: usize)
        ensures
            r == self@.disconnect,
    {
        self.disconnect
    }

    /// Number of bytes in the range.
    pub fn len(&self) -> (r: usize)
        ensures
            r == self@.len,
    {
        self.len
    }

    /// Label of the address space the descriptor belongs to.
    pub fn address_space(&self) -> (r: &str)
        ensures
            r@ == self@.address_space,
    {
        self.address_space.as_str()
    }

    /// Whether this descriptor resolves `addr`.
    pub fn contains_address(&self, addr: usize) -> (r: bool)
        ensures
            r == self@.contains(addr as int),
    {
        if self.select != 0 {
            return false;
        }
        self.start <= addr && addr < self.end()
    }

    /// Translates `addr` through this descriptor alone: the region holding
    /// at most `max_len` bytes from `addr` on, or `None` where the descriptor
    /// does not resolve `addr`.
    pub fn translate(&self, addr: usize, max_len: usize) -> (r: Option<Region>)
        ensures
            r == if self@.contains(addr as int) {
                Some(self@.region(addr as int, max_len as int))
            } else {
                None
            },
    {
        if !self.contains_address(addr) {
            return None;
        }
        proof {
            use_type_invariant(self);
        }
        let skipped = addr - self.start;
        let remaining = self.len - skipped;
        let len = if remaining <= max_len { remaining } else { max_len };
        Some(Region { buffer: self.buffer, offset: self.offset + skipped, len })
    }
}

/// The views of a vector of descriptors.
pub open spec fn descriptor_views(descriptors: Seq<Descriptor>) -> Seq<DescriptorView> {
    Seq::new(descriptors.len(), |i: int| descriptors[i]@)
}

/// An ordered sequence of descriptors. Built once per content load and
/// immutable afterwards.
#[derive(Debug)]
pub struct MemoryMap {
    descriptors: Vec<Descriptor>,
}

impl View for MemoryMap {
    type V = Seq<DescriptorView>;

    closed spec fn view(&self) -> Seq<DescriptorView> {
        descriptor_views(self.descriptors@)
    }
}

impl MemoryMap {
    /// The map without descriptors, under which no address resolves.
    pub fn empty() -> (r: MemoryMap)
        ensures
            r@ == Seq::<DescriptorView>::empty(),
    {
        let r = MemoryMap { descriptors: Vec::new() };
        assert(r@ =~= Seq::<DescriptorView>::empty());
        r
    }

    /// The map holding `descriptors` in the order given.
    pub fn from_descriptors(descriptors: Vec<Descriptor>) -> (r: MemoryMap)
        ensures
            r@ == descriptor_views(descriptors@),
    {
        MemoryMap { descriptors }
    }

    /// Number of descriptors.
    pub fn len(&self) -> (r: usize)
        ensures
            r == self@.len(),
    {
        self.descriptors.len()
    }

    /// The descriptor registered at position `index`.
    pub fn get(&self, index: usize) -> (r: Option<&Descriptor>)
        ensures
            r is Some <==> index < self@.len(),
            r matches Some(d) ==> d@ == self@[index as int],
    {
        if index < self.descriptors.len() {
            Some(&self.descriptors[index])
        } else {
            None
        }
    }

    /// Position of the first descriptor, in registration order, that
    /// resolves `addr`.
    pub fn find_index(&self, addr: usize) -> (r: Option<usize>)
        ensures
            match r {
                Some(i) => first_match(self@, addr as int) == Some(i as int),
                None => first_match(self@, addr as int) is None,
            },
    {
        let mut i: usize = 0;
        while i < self.descriptors.len()
            invariant
                i <= self.descriptors@.len(),
                self@.len() == self.descriptors@.len(),
                first_match(self@, addr as int) == first_match_from(self@, addr as int, i as int),
            decreases self.descriptors@.len() - i,
        {
            if self.descriptors[i].contains_address(addr) {
                return Some(i);
            }
            i += 1;
        }
        None
    }

    /// The first descriptor, in registration order, that resolves `addr`.
    pub fn find_descriptor(&self, addr: usize) -> (r: Option<&Descriptor>)
        ensures
            match r {
                Some(d) => first_match(self@, addr as int) matches Some(i) && d@ == self@[i],
                None => first_match(self@, addr as int) is None,
            },
    {
        match self.find_index(addr) {
            Some(i) => {
                proof {
                    lemma_first_match(self@, addr as int);
                }
                Some(&self.descriptors[i])
            },
            None => None,
        }
    }

    /// Resolves a logical address: scans the descriptors in registration
    /// order and returns, for the first one that contains `addr`, the region
    /// of its backing buffer that holds at most `max_len` bytes from `addr`
    /// on. `None` where no descriptor resolves `addr`.
    pub fn translate(&self, addr: usize, max_len: usize) -> (r: Option<Region>)
        ensures
            r == translation(self@, addr as int, max_len as int),
    {
        proof {
            lemma_first_match(self@, addr as int);
        }
        match self.find_descriptor(addr) {
            Some(d) => d.translate(addr, max_len),
            None => None,
        }
    }
}

/// Largest address that a non-zero mask can select: all bits set from the
/// mask's highest set bit down. Zero for the zero mask.
pub open spec fn mask_ceiling(mask: nat) -> nat
    decreases mask,
{
    if mask == 0 {
        0
    } else {
        2 * mask_ceiling(mask / 2) + 1
    }
}

/// `mask_ceiling(mask)` is at least `mask`.
pub proof fn lemma_mask_ceiling_covers(mask: nat)
    ensures
        mask <= mask_ceiling(mask),
    decreases mask,
{
    if mask != 0 {
        lemma_mask_ceiling_covers(mask / 2);
    }
}

/// Whether `n` is of the form `2^k - 1`.
pub open spec fn is_all_ones(n: nat) -> bool
    decreases n,
{
    n == 0 || (n % 2 == 1 && is_all_ones(n / 2))
}

/// The ceiling of a mask has every bit set below its highest.
pub proof fn lemma_mask_ceiling_all_ones(mask: nat)
    ensures
        is_all_ones(mask_ceiling(mask)),
    decreases mask,
{
    if mask != 0 {
        lemma_mask_ceiling_all_ones(mask / 2);
        assert((2 * mask_ceiling(mask / 2) + 1) / 2 == mask_ceiling(mask / 2));
    }
}

proof fn lemma_pow2_minus_one_all_ones(k: nat)
    ensures
        is_all_ones((vstd::arithmetic::power2::pow2(k) - 1) as nat),
    decreases k,
{
    vstd::arithmetic::power2::lemma_pow2_pos(k);
    if k == 0 {
        vstd::arithmetic::power2::lemma2_to64();
    } else {
        lemma_pow2_minus_one_all_ones((k - 1) as nat);
        vstd::arithmetic::power2::lemma_pow2_unfold(k);
        vstd::arithmetic::power2::lemma_pow2_pos((k - 1) as nat);
        let h = vstd::arithmetic::power2::pow2((k - 1) as nat);
        assert((2 * h - 1) / 2 == h - 1);
        assert((2 * h - 1) % 2 == 1);
    }
}

proof fn lemma_usize_max_all_ones()
    ensures
        is_all_ones(usize::MAX as nat),
{
    vstd::arithmetic::power2::lemma2_to64();
    vstd::arithmetic::power2::lemma2_to64_rest();
    if usize::MAX == 0xffff_ffff {
        lemma_pow2_minus_one_all_ones(32);
    } else {
        lemma_pow2_minus_one_all_ones(64);
    }
}

proof fn lemma_all_ones_gap(a: nat, b: nat)
    requires
        is_all_ones(a),
        is_all_ones(b),
        a < b,
    ensures
        2 * a + 1 <= b,
    decreases b,
{
    if a != 0 {
        lemma_all_ones_gap(a / 2, b / 2);
    }
}

/// The highest address under `mask`: every bit set from the mask's highest
/// set bit down, and 0 for the zero mask.
pub fn highest_address_from_mask(mask: usize) -> (r: usize)
    ensures
        r == mask_ceiling(mask as nat),
{
    let mut rest: usize = mask;
    let mut acc: usize = 0;
    assert(mask_ceiling(rest as nat) * (acc + 1) + acc == mask_ceiling(mask as nat))
        by (nonlinear_arith)
        requires
            acc == 0,
            rest == mask,
    ;
    assert(rest * (acc + 1) <= mask) by (nonlinear_arith)
        requires
            acc == 0,
            rest == mask,
    ;
    while rest != 0
        invariant
            is_all_ones(acc as nat),
            rest * (acc + 1) <= mask,
            mask_ceiling(mask as nat) == mask_ceiling(rest as nat) * (acc + 1) + acc,
        decreases rest,
    {
        proof {
            let c = mask_ceiling((rest / 2) as nat);
            let h = rest / 2;
            assert(acc + 1 <= rest * (acc + 1)) by (nonlinear_arith)
                requires
                    rest >= 1,
            ;
            lemma_usize_max_all_ones();
            lemma_all_ones_gap(acc as nat, usize::MAX as nat);
            assert((2 * acc + 1) / 2 == acc);
            assert((2 * c + 1) * (acc + 1) + acc == c * ((2 * acc + 1) + 1) + (2 * acc + 1))
                by (nonlinear_arith);
            assert(h * ((2 * acc + 1) + 1) <= rest * (acc + 1)) by (nonlinear_arith)
                requires
                    2 * h <= rest,
            ;
        }
        acc = 2 * acc + 1;
        rest = rest / 2;
    }
    assert(mask_ceiling(rest as nat) * (acc + 1) == 0) by (nonlinear_arith)
        requires
            mask_ceiling(rest as nat) == 0,
    ;
    acc
}

/// The first match is the only index that resolves `addr` with no earlier
/// descriptor resolving it.
pub proof fn lemma_first_match(ds: Seq<DescriptorView>, addr: int)
    ensures
        match first_match(ds, addr) {
            Some(i) => 0 <= i < ds.len() && ds[i].contains(addr) && forall|j: int|
                0 <= j < i ==> !#[trigger] ds[j].contains(addr),
            None => forall|j: int| 0 <= j < ds.len() ==> !#[trigger] ds[j].contains(addr),
        },
{
    lemma_first_match_from(ds, addr, 0);
}

proof fn lemma_first_match_from(ds: Seq<DescriptorView>, addr: int, from: int)
    requires
        0 <= from,
    ensures
        match first_match_from(ds, addr, from) {
            Some(i) => from <= i < ds.len() && ds[i].contains(addr) && forall|j: int|
                from <= j < i ==> !#[trigger] ds[j].contains(addr),
            None => forall|j: int| from <= j < ds.len() ==> !#[trigger] ds[j].contains(addr),
        },
    decreases ds.len() - from,
{
    if from < ds.len() && !ds[from].contains(addr) {
        lemma_first_match_from(ds, addr, from + 1);
    }
}

/// Every address inside a resolvable descriptor translates to that
/// descriptor's buffer, offset by `offset + (addr - start)`, with length
/// `min(len - (addr - start), max_len)`, provided no earlier descriptor
/// claims the address first.
pub proof fn lemma_translate_inside(ds: Seq<DescriptorView>, i: int, addr: int, max_len: int)
    requires
        0 <= i < ds.len(),
        ds[i].select == 0,
        ds[i].start <= addr < ds[i].start + ds[i].len,
        forall|j: int| 0 <= j < i ==> !#[trigger] ds[j].contains(addr),
        ds[i].wf(),
        0 <= max_len <= usize::MAX,
    ensures
        translation(ds, addr, max_len) matches Some(region) && {
            &&& region.buffer == ds[i].buffer
            &&& region.offset == ds[i].offset + (addr - ds[i].start)
            &&& region.len == vstd::math::min(ds[i].len - (addr - ds[i].start), max_len)
        },
{
    lemma_first_match(ds, addr);
    assert(ds[i].contains(addr));
}

/// An address outside every descriptor's range has no translation.
pub proof fn lemma_translate_outside(ds: Seq<DescriptorView>, addr: int, max_len: int)
    requires
        forall|j: int|
            0 <= j < ds.len() ==> !(#[trigger] ds[j].start <= addr < ds[j].start + ds[j].len),
    ensures
        translation(ds, addr, max_len) is None,
{
    lemma_first_match(ds, addr);
}

/// A descriptor whose select mask is not zero is present in the map but
/// never the one that resolves an address.
pub proof fn lemma_selecting_descriptor_never_matches(ds: Seq<DescriptorView>, addr: int)
    ensures
        first_match(ds, addr) matches Some(i) ==> ds[i].select == 0,
{
    lemma_first_match(ds, addr);
}

/// One entry of a plugin's descriptor table, as plain numbers. `base` is
/// the address of the buffer that the entry maps from, 0 where it has none.
#[derive(Debug)]
pub struct RawDescriptor {
    pub flags: u64,
    pub base: usize,
    pub offset: usize,
    pub start: usize,
    pub select: usize,
    pub disconnect: usize,
    pub len: usize,
    pub address_space: String,
}

/// A buffer of the plugin: where it lies, and how many bytes of it the
/// descriptors reach.
#[derive(Clone, Copy, Debug, PartialEq, Eq, Structural)]
pub struct BufferExtent {
    pub base: usize,
    pub len: usize,
}

/// How far into its buffer an entry reaches: to the end of its segment, and
/// nowhere where it has no buffer.
pub open spec fn reach(entry: RawDescriptor) -> usize {
    if entry.base == 0 {
        0
    } else {
        (entry.offset + fitting(entry.len, entry.start, entry.offset)) as usize
    }
}

/// Index of the first buffer at or after `from` that lies at `base`.
pub open spec fn buffer_at_from(buffers: Seq<BufferExtent>, base: usize, from: int) -> Option<int>
    decreases buffers.len() - from,
{
    if from < 0 || from >= buffers.len() {
        None
    } else if buffers[from].base == base {
        Some(from)
    } else {
        buffer_at_from(buffers, base, from + 1)
    }
}

/// Index of the buffer that lies at `base`.
pub open spec fn buffer_at(buffers: Seq<BufferExtent>, base: usize) -> Option<int> {
    buffer_at_from(buffers, base, 0)
}

/// The buffers once an entry at `base` that reaches `len` bytes is counted:
/// a buffer already known reaches at least as far as the entry; a new one
/// goes last.
pub open spec fn with_entry(buffers: Seq<BufferExtent>, base: usize, len: usize) -> Seq<
    BufferExtent,
> {
    match buffer_at(buffers, base) {
        Some(at) => buffers.update(
            at,
            BufferExtent {
                base,
                len: if buffers[at].len >= len {
                    buffers[at].len
                } else {
                    len
                },
            },
        ),
        None => buffers.push(BufferExtent { base, len }),
    }
}

/// The buffers that the first `n` entries of a descriptor table map from,
/// in the order in which the table first names them. Entries with the same
/// base share a buffer, which reaches as far as the farthest of them.
pub open spec fn buffers_of(raw: Seq<RawDescriptor>, n: int) -> Seq<BufferExtent>
    decreases n,
{
    if n <= 0 {
        seq![]
    } else {
        with_entry(buffers_of(raw, n - 1), raw[n - 1].base, reach(raw[n - 1]))
    }
}

/// The descriptor that an entry of the table becomes: its numbers as they
/// are, but for the length, which is cut where the addresses end, and with
/// the index of its buffer in place of the base.
pub open spec fn described(entry: RawDescriptor, buffers: Seq<BufferExtent>) -> DescriptorView {
    DescriptorView {
        flags: entry.flags,
        buffer: buffer_at(buffers, entry.base)->0 as usize,
        offset: entry.offset,
        start: entry.start,
        select: entry.select,
        disconnect: entry.disconnect,
        len: fitting(entry.len, entry.start, entry.offset),
        address_space: entry.address_space@,
    }
}

/// The first buffer at a base is the only index before which no buffer lies
/// at that base.
pub proof fn lemma_buffer_at(buffers: Seq<BufferExtent>, base: usize, from: int)
    requires
        0 <= from,
    ensures
        match buffer_at_from(buffers, base, from) {
            Some(at) => from <= at < buffers.len() && buffers[at].base == base && forall|k: int|
                from <= k < at ==> (#[trigger] buffers[k]).base != base,
            None => forall|k: int| from <= k < buffers.len() ==> (#[trigger] buffers[k]).base != base,
        },
    decreases buffers.len() - from,
{
    if from < buffers.len() && buffers[from].base != base {
        lemma_buffer_at(buffers, base, from + 1);
    }
}

/// Counting an entry moves no buffer: a base keeps the index it has, and
/// the base of the entry has one afterwards.
pub proof fn lemma_with_entry_keeps(
    buffers: Seq<BufferExtent>,
    base: usize,
    len: usize,
    other: usize,
)
    ensures
        buffer_at(buffers, other) is Some ==> buffer_at(with_entry(buffers, base, len), other)
            == buffer_at(buffers, other),
        buffer_at(with_entry(buffers, base, len), base) is Some,
{
    let after = with_entry(buffers, base, len);
    lemma_buffer_at(buffers, base, 0);
    lemma_buffer_at(buffers, other, 0);
    lemma_buffer_at(after, other, 0);
    lemma_buffer_at(after, base, 0);
    match buffer_at(buffers, base) {
        Some(at) => {
            assert(after[at].base == base);
            assert forall|k: int| 0 <= k < buffers.len() implies (#[trigger] after[k]).base
                == buffers[k].base by {}
        },
        None => {
            assert(after[buffers.len() as int].base == base);
            assert forall|k: int| 0 <= k < buffers.len() implies (#[trigger] after[k]) == buffers[k] by {}
        },
    }
    if buffer_at(buffers, other) is Some {
        let at = buffer_at(buffers, other)->0;
        assert(after[at].base == other);
        match buffer_at(after, other) {
            Some(found) => {
                if found < at {
                    assert(buffers[found].base != other);
                    assert(after[found].base == other);
                } else if found > at {
                    assert(after[at].base != other);
                }
            },
            None => {
                assert(after[at].base != other);
            },
        }
    }
}

/// Every entry of the table has its buffer among the buffers of the table,
/// at the index it had when the table first named its base.
pub proof fn lemma_buffers_cover(raw: Seq<RawDescriptor>, n: int, i: int)
    requires
        0 <= i < n <= raw.len(),
    ensures
        buffer_at(buffers_of(raw, n), raw[i].base) is Some,
        buffer_at(buffers_of(raw, n), raw[i].base) == buffer_at(buffers_of(raw, i + 1), raw[i].base),
    decreases n,
{
    if n == i + 1 {
        lemma_with_entry_keeps(buffers_of(raw, n - 1), raw[n - 1].base, reach(raw[n - 1]), raw[i].base);
    } else {
        lemma_buffers_cover(raw, n - 1, i);
        lemma_with_entry_keeps(buffers_of(raw, n - 1), raw[n - 1].base, reach(raw[n - 1]), raw[i].base);
    }
}

fn find_buffer(buffers: &Vec<BufferExtent>, base: usize) -> (r: Option<usize>)
    ensures
        match r {
            Some(at) => buffer_at(buffers@, base) == Some(at as int) && at < buffers@.len(),
            None => buffer_at(buffers@, base) is None,
        },
{
    let mut i: usize = 0;
    while i < buffers.len()
        invariant
            i <= buffers@.len(),
            buffer_at(buffers@, base) == buffer_at_from(buffers@, base, i as int),
        decreases buffers@.len() - i,
    {
        if buffers[i].base == base {
            return Some(i);
        }
        i += 1;
    }
    None
}

impl MemoryMap {
    /// Reads a plugin's descriptor table: the map of its descriptors, in the
    /// order of the table, and the buffers that they map from. A descriptor
    /// names its buffer by the buffer's place among these.
    pub fn from_raw(raw: Vec<RawDescriptor>) -> (r: (MemoryMap, Vec<BufferExtent>))
        ensures
            r.1@ == buffers_of(raw@, raw@.len() as int),
            r.0@ == Seq::new(raw@.len(), |i: int| described(raw@[i], r.1@)),
    {
        let mut buffers: Vec<BufferExtent> = Vec::new();
        let mut i: usize = 0;
        while i < raw.len()
            invariant
                i <= raw@.len(),
                buffers@ == buffers_of(raw@, i as int),
            decreases raw@.len() - i,
        {
            let entry = &raw[i];
            let fitted = Descriptor::fit(entry.len, entry.start, entry.offset);
            let len = if entry.base == 0 { 0 } else { entry.offset + fitted };
            match find_buffer(&buffers, entry.base) {
                Some(at) => {
                    let known = buffers[at];
                    let longer = if known.len >= len { known.len } else { len };
                    buffers.set(at, BufferExtent { base: entry.base, len: longer });
                },
                None => {
                    buffers.push(BufferExtent { base: entry.base, len });
                },
            }
            i += 1;
        }
        let mut descriptors: Vec<Descriptor> = Vec::new();
        let mut i: usize = 0;
        while i < raw.len()
            invariant
                i <= raw@.len(),
                buffers@ == buffers_of(raw@, raw@.len() as int),
                descriptors@.len() == i,
                forall|k: int| 0 <= k < i ==> (#[trigger] descriptors@[k])@ == described(raw@[k], buffers@),
            decreases raw@.len() - i,
        {
            let entry = &raw[i];
            proof {
                lemma_buffers_cover(raw@, raw@.len() as int, i as int);
            }
            let buffer = match find_buffer(&buffers, entry.base) {
                Some(at) => at,
                None => 0,
            };
            descriptors.push(
                Descriptor::fitted(
                    entry.flags,
                    buffer,
                    entry.offset,
                    entry.start,
                    entry.select,
                    entry.disconnect,
                    entry.len,
                    entry.address_space.clone(),
                ),
            );
            i += 1;
        }
        let map = MemoryMap { descriptors };
        assert(map@ =~= Seq::new(raw@.len(), |i: int| described(raw@[i], buffers@)));
        (map, buffers)
    }
}

} // verus!
