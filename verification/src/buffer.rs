use vstd::prelude::*;

use crate::strategy::ALIGNMENT;
use crate::traits::{ReadBuffer, WriteBuffer};

verus! {

/// `Vec::as_ptr` of std, and `pointer::addr` on what it returns: the address
/// of the first of `bytes`. Where the allocator puts the bytes is not for
/// this library to say, so nothing is claimed of the result.
#[verifier::external_body]
fn address_of(bytes: &Vec<u8>) -> (address: usize) {
    bytes.as_ptr().addr()
}

/// Whether `address` is a multiple of the alignment.
pub open spec fn is_aligned(address: int) -> bool {
    address % (ALIGNMENT as int) == 0
}

/// The number of bytes from `address` to the first aligned address that is
/// not below it.
pub open spec fn alignment_offset(address: int) -> int {
    (ALIGNMENT - address % (ALIGNMENT as int)) % (ALIGNMENT as int)
}

/// The offset from an address leads to an aligned address, and to the first
/// one.
pub proof fn lemma_alignment_offset(address: int)
    requires
        0 <= address,
    ensures
        0 <= alignment_offset(address) < ALIGNMENT,
        is_aligned(address + alignment_offset(address)),
        forall|offset: int|
            0 <= offset < alignment_offset(address) ==> !is_aligned(#[trigger] (address + offset)),
{
}

/// Returns the number of bytes from `address` to the first aligned address
/// that is not below it.
fn offset_to_align(address: usize) -> (offset: usize)
    ensures
        offset == alignment_offset(address as int),
        offset < ALIGNMENT,
{
    (ALIGNMENT - address % ALIGNMENT) % ALIGNMENT
}

/// `Vec::as_mut_slice` of std: the bytes of a vector as a slice to write to.
/// A slice cannot change its length, so the vector holds as many bytes when
/// the borrow ends as it did before, which the contract that vstd gives the
/// method leaves open.
#[verifier::external_body]
fn as_region(bytes: &mut Vec<u8>) -> (region: &mut [u8])
    ensures
        region@ == old(bytes)@,
        final(region)@.len() == region@.len(),
        final(bytes)@ == final(region)@,
{
    bytes.as_mut_slice()
}

/// A buffer of fixed capacity to start a negotiation with.
///
/// The buffer owns `CAPACITY` bytes. What it offers is what is left of them
/// from the first aligned address on, and nothing where `CAPACITY` is less
/// than the alignment. A buffer of zero bytes is legal: it sends the
/// negotiation straight to a buffer of its own making.
pub struct StackBuffer<const CAPACITY: usize> {
    final_size: u32,
    address: usize,
    offset: usize,
    stack: Vec<u8>,
}

impl<const CAPACITY: usize> StackBuffer<CAPACITY> {
    /// The address of the first of the bytes that the buffer owns.
    pub closed spec fn address(&self) -> usize {
        self.address
    }

    /// The number of leading bytes that are skipped to align the region.
    pub closed spec fn offset(&self) -> usize {
        self.offset
    }

    /// All the bytes that the buffer owns.
    pub closed spec fn bytes(&self) -> Seq<u8> {
        self.stack@
    }

    /// The size that the buffer was last finalized with.
    pub closed spec fn committed(&self) -> u32 {
        self.final_size
    }

    /// The bytes from the aligned start to the end of the buffer.
    pub open spec fn aligned(&self) -> Seq<u8> {
        self.bytes().subrange(self.offset() as int, CAPACITY as int)
    }

    /// What every buffer satisfies: it owns `CAPACITY` bytes, and it skips
    /// as many of them as it takes to reach an aligned address, or all of
    /// them where they are fewer than the alignment.
    pub open spec fn valid(&self) -> bool {
        &&& CAPACITY <= u32::MAX
        &&& self.bytes().len() == CAPACITY
        &&& self.offset() == if CAPACITY >= ALIGNMENT {
            alignment_offset(self.address() as int)
        } else {
            CAPACITY as int
        }
    }

    /// A buffer that offers anything at all offers it from an aligned
    /// address on, and leaves fewer bytes unused than the alignment.
    pub proof fn lemma_region_is_aligned(&self)
        requires
            self.valid(),
        ensures
            self.offset() <= CAPACITY,
            CAPACITY >= ALIGNMENT <==> CAPACITY - self.offset() > 0,
            CAPACITY >= ALIGNMENT ==> is_aligned(self.address() + self.offset())
                && self.offset() < ALIGNMENT,
    {
        lemma_alignment_offset(self.address() as int);
    }

    /// The buffer is as it is made: valid, and with nothing committed.
    pub open spec fn fresh(&self) -> bool {
        self.valid() && self.committed() == 0
    }

    /// Constructs a buffer that owns `CAPACITY` bytes and holds nothing.
    pub fn new() -> (buffer: Self)
        requires
            CAPACITY <= u32::MAX,
        ensures
            buffer.fresh(),
    {
        Self::default()
    }
}

impl<const CAPACITY: usize> Default for StackBuffer<CAPACITY> {
    /// Constructs a buffer that owns `CAPACITY` bytes and holds nothing. It
    /// is a buffer to negotiate in where `CAPACITY` can be counted as a
    /// capacity.
    fn default() -> (buffer: Self)
        ensures
            CAPACITY <= u32::MAX ==> buffer.fresh(),
    {
        let stack = vec![0u8; CAPACITY];
        let address = address_of(&stack);
        let offset = if CAPACITY >= ALIGNMENT {
            offset_to_align(address)
        } else {
            CAPACITY
        };
        Self { final_size: 0, address, offset, stack }
    }
}

impl<const CAPACITY: usize> ReadBuffer for StackBuffer<CAPACITY> {
    open spec fn readable(&self) -> Option<Seq<u8>> {
        if CAPACITY >= ALIGNMENT {
            Some(self.aligned())
        } else {
            None
        }
    }

    open spec fn stored(&self) -> u32 {
        if CAPACITY >= ALIGNMENT {
            self.committed()
        } else {
            0
        }
    }

    open spec fn readable_requires(&self) -> bool {
        self.valid()
    }

    fn read_buffer(&self) -> (view: (Option<&[u8]>, u32)) {
        if CAPACITY >= ALIGNMENT {
            let (_, aligned) = self.stack.as_slice().split_at(self.offset);
            (Some(aligned), self.final_size)
        } else {
            (None, 0)
        }
    }
}

impl<const CAPACITY: usize> WriteBuffer for StackBuffer<CAPACITY> {
    open spec fn wf(&self) -> bool {
        self.valid()
    }

    open spec fn spec_capacity(&self) -> u32 {
        (CAPACITY - self.offset()) as u32
    }

    open spec fn final_size(&self) -> u32 {
        self.committed()
    }

    open spec fn region(&self) -> Seq<u8> {
        self.aligned()
    }

    open spec fn region_address(&self) -> int {
        self.address() + self.offset()
    }

    proof fn lemma_views(&self) {
        self.lemma_region_is_aligned();
    }

    fn capacity(&self) -> (capacity: u32) {
        (CAPACITY - self.offset) as u32
    }

    fn set_final_size(&mut self, final_size: u32) {
        self.final_size = final_size;
    }

    fn write_buffer(&mut self) -> (region: &mut [u8]) {
        let offset = self.offset;
        let (_, aligned) = as_region(&mut self.stack).split_at_mut(offset);
        aligned
    }
}

/// The account of the bytes that a negotiation has allocated: how many it
/// holds, and the most that it has held at any one moment.
///
/// Only the making of a [`HeapBuffer`] adds to what is held, and only the
/// giving up of one takes from it.
pub struct HeapLedger {
    live: u64,
    peak: u64,
}

impl HeapLedger {
    /// The number of bytes that are held.
    pub closed spec fn live(&self) -> nat {
        self.live as nat
    }

    /// The most bytes that have been held at any one moment.
    pub closed spec fn peak(&self) -> nat {
        self.peak as nat
    }

    /// Never more is held than the most that has been held.
    pub open spec fn wf(&self) -> bool {
        self.live() <= self.peak()
    }

    /// The most that can be counted.
    pub open spec fn limit() -> nat {
        u64::MAX as nat
    }

    /// Starts an account with nothing held.
    pub fn new() -> (ledger: Self)
        ensures
            ledger.wf(),
            ledger.live() == 0,
            ledger.peak() == 0,
    {
        Self { live: 0, peak: 0 }
    }

    /// Returns the number of bytes that are held.
    pub fn held(&self) -> (bytes: u64)
        ensures
            bytes == self.live(),
    {
        self.live
    }

    /// Returns the most bytes that have been held at any one moment.
    pub fn peak_held(&self) -> (bytes: u64)
        ensures
            bytes == self.peak(),
    {
        self.peak
    }

    /// Books `bytes` bytes that have just been allocated.
    fn take(&mut self, bytes: usize)
        requires
            old(self).wf(),
            old(self).live() + bytes <= Self::limit(),
        ensures
            final(self).wf(),
            final(self).live() == old(self).live() + bytes,
            final(self).peak() == larger_of(old(self).peak(), final(self).live()),
    {
        self.live = self.live + bytes as u64;
        if self.peak < self.live {
            self.peak = self.live;
        }
    }

    /// Books `bytes` bytes that are just about to be given back.
    fn give(&mut self, bytes: usize)
        requires
            old(self).wf(),
            bytes <= old(self).live(),
        ensures
            final(self).wf(),
            final(self).live() == old(self).live() - bytes,
            final(self).peak() == old(self).peak(),
    {
        self.live = self.live - bytes as u64;
    }
}

/// The larger of two numbers.
pub open spec fn larger_of(a: nat, b: nat) -> nat {
    if a >= b {
        a
    } else {
        b
    }
}

/// A buffer of exactly the capacity asked for, made when the negotiation has
/// outgrown its first buffer.
///
/// The buffer is one allocation of as many bytes as the capacity says where
/// the allocator hands out aligned bytes, as allocators do. Where it does
/// not, the allocation is given back and made again with just enough bytes
/// more to find an aligned start within it.
pub struct HeapBuffer {
    capacity: u32,
    final_size: u32,
    address: usize,
    offset: usize,
    bytes: Vec<u8>,
}

impl HeapBuffer {
    /// The number of bytes that the buffer was made with.
    pub closed spec fn spec_capacity(&self) -> u32 {
        self.capacity
    }

    /// The size that the buffer was last finalized with.
    pub closed spec fn final_size(&self) -> u32 {
        self.final_size
    }

    /// The address of the first of the bytes that are allocated.
    pub closed spec fn address(&self) -> usize {
        self.address
    }

    /// The number of leading bytes that are skipped to align the region.
    pub closed spec fn offset(&self) -> usize {
        self.offset
    }

    /// All the bytes that are allocated.
    pub closed spec fn bytes(&self) -> Seq<u8> {
        self.bytes@
    }

    /// The number of bytes that are allocated.
    pub open spec fn allocated(&self) -> nat {
        self.bytes().len()
    }

    /// The bytes of the buffer: as many as the capacity says, from the
    /// aligned start on.
    pub open spec fn region(&self) -> Seq<u8> {
        self.bytes().subrange(self.offset() as int, self.offset() + self.spec_capacity())
    }

    /// The address of the first byte of the region.
    pub open spec fn region_address(&self) -> int {
        self.address() + self.offset()
    }

    /// Whether nothing stands in the way of aligning a buffer of `capacity`
    /// bytes: the bytes and the padding can be counted.
    pub open spec fn can_align(capacity: u32) -> bool {
        capacity + ALIGNMENT - 1 <= usize::MAX
    }

    /// What every buffer satisfies: the region lies within the allocation;
    /// nothing is allocated but the region, or the region and the padding
    /// that it took to align it; and the region starts at an aligned address
    /// wherever the padding can be counted.
    pub open spec fn wf(&self) -> bool {
        &&& self.offset() + self.spec_capacity() <= self.allocated()
        &&& self.offset() < ALIGNMENT
        &&& self.allocated() == self.spec_capacity() || self.allocated() == self.spec_capacity()
            + ALIGNMENT - 1
        &&& Self::can_align(self.spec_capacity()) ==> is_aligned(self.region_address())
    }

    /// Makes a buffer of `capacity` bytes that holds nothing, and books what
    /// is allocated for it. Where a first allocation is not aligned, it is
    /// given back before the second is made, so that what is held on top of
    /// what was held before is never more than the buffer that is returned.
    pub fn new(capacity: u32, ledger: &mut HeapLedger) -> (buffer: Self)
        requires
            old(ledger).wf(),
            old(ledger).live() + capacity + ALIGNMENT <= HeapLedger::limit(),
        ensures
            buffer.wf(),
            buffer.spec_capacity() == capacity,
            buffer.final_size() == 0,
            final(ledger).wf(),
            final(ledger).live() == old(ledger).live() + buffer.allocated(),
            final(ledger).peak() == larger_of(old(ledger).peak(), final(ledger).live()),
    {
        let exact = capacity as usize;
        let mut bytes = vec![0u8; exact];
        ledger.take(exact);
        let mut address = address_of(&bytes);
        let mut offset = offset_to_align(address);
        proof {
            lemma_alignment_offset(address as int);
        }
        if offset > 0 {
            if exact <= usize::MAX - (ALIGNMENT - 1) {
                // Give the bytes back before asking for more, so that the
                // two allocations are never held together.
                ledger.give(exact);
                bytes = Vec::new();
                bytes = vec![0u8; exact + (ALIGNMENT - 1)];
                ledger.take(exact + (ALIGNMENT - 1));
                address = address_of(&bytes);
                offset = offset_to_align(address);
                proof {
                    lemma_alignment_offset(address as int);
                }
            } else {
                offset = 0;
            }
        }
        Self { capacity, final_size: 0, address, offset, bytes }
    }

    /// Gives the buffer up, and books what is given back.
    pub fn free(self, ledger: &mut HeapLedger)
        requires
            old(ledger).wf(),
            self.allocated() <= old(ledger).live(),
        ensures
            final(ledger).wf(),
            final(ledger).live() == old(ledger).live() - self.allocated(),
            final(ledger).peak() == old(ledger).peak(),
    {
        ledger.give(self.bytes.len());
    }

    /// Returns the number of bytes that can be written.
    pub fn capacity(&self) -> (capacity: u32)
        ensures
            capacity == self.spec_capacity(),
    {
        self.capacity
    }

    /// Records how many elements the buffer holds, which are no more than
    /// it has bytes to write to.
    pub fn set_final_size(&mut self, final_size: u32)
        requires
            final_size <= old(self).spec_capacity(),
        ensures
            final(self).final_size() == final_size,
            final(self).spec_capacity() == old(self).spec_capacity(),
            final(self).region() == old(self).region(),
            final(self).allocated() == old(self).allocated(),
            final(self).address() == old(self).address(),
            final(self).offset() == old(self).offset(),
    {
        self.final_size = final_size;
    }

    /// Returns the writable region: the bytes of the buffer.
    pub fn write_buffer(&mut self) -> (region: &mut [u8])
        requires
            old(self).wf(),
        ensures
            region@ == old(self).region(),
            final(region)@.len() == region@.len(),
            final(self).wf(),
            final(self).region() == final(region)@,
            final(self).spec_capacity() == old(self).spec_capacity(),
            final(self).final_size() == old(self).final_size(),
            final(self).allocated() == old(self).allocated(),
            final(self).address() == old(self).address(),
            final(self).offset() == old(self).offset(),
    {
        let offset = self.offset;
        let capacity = self.capacity as usize;
        let (_, tail) = as_region(&mut self.bytes).split_at_mut(offset);
        let (region, _) = tail.split_at_mut(capacity);
        region
    }

    /// Returns the bytes of the buffer, starting with the data, and the
    /// number of elements stored. Only a buffer that holds something is
    /// read.
    pub fn read_buffer(&self) -> (view: (Option<&[u8]>, u32))
        requires
            self.wf(),
            self.final_size() > 0,
        ensures
            view.0 is Some,
            view.0->0@ == self.region(),
            view.1 == self.final_size(),
    {
        let (_, tail) = self.bytes.as_slice().split_at(self.offset);
        let (region, _) = tail.split_at(self.capacity as usize);
        (Some(region), self.final_size)
    }
}

} // verus!
