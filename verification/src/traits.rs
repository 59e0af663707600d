use vstd::prelude::*;

use crate::base::FillBufferResult;
use crate::buffer::is_aligned;

verus! {

/// Chooses the capacity of the next buffer after an attempt that was too
/// small.
///
/// A strategy is a pure function of its three arguments. It is only ever asked
/// when the desired capacity exceeds the current one, and it must answer with
/// a capacity that is strictly larger than the current one. Whoever
/// implements the trait owes that to the negotiations that use it.
pub trait GrowStrategy {
    /// The capacity this strategy chooses.
    spec fn capacity_for(&self, tries: nat, current_capacity: nat, desired_capacity: nat) -> nat;

    /// Returns the capacity, in bytes, of the buffer to use for the next
    /// attempt.
    ///
    /// `tries` counts the attempts made so far, starting at one.
    /// `desired_capacity` is either the capacity the call asked for, or a
    /// lower bound on it where the call only reports how much it stored.
    fn next_capacity(&self, tries: usize, current_capacity: u32, desired_capacity: u32) -> (capacity: u32)
        requires
            current_capacity < desired_capacity,
        ensures
            capacity == self.capacity_for(tries as nat, current_capacity as nat, desired_capacity as nat),
            capacity > current_capacity,
    ;
}

/// The size that a call needs, or has stored, in the units of that call.
pub trait NeededSize {
    /// The size currently recorded.
    spec fn spec_needed_size(&self) -> u32;

    /// Returns the size currently recorded.
    fn needed_size(&self) -> (size: u32)
        ensures
            size == self.spec_needed_size(),
    ;

    /// Records `value` as the size stored, or as the size to try next.
    fn set_needed_size(&mut self, value: u32)
        ensures
            final(self).spec_needed_size() == value,
    ;
}

/// Conversion between the capacity of a buffer, in bytes, and a size in the
/// units that a call counts in.
pub trait RawToInternal {
    /// The number of units that fit into `capacity` bytes.
    spec fn size_of(capacity: u32) -> u32;

    /// The number of bytes that `size` units take, or the largest capacity
    /// if they take more.
    spec fn capacity_of(size: u32) -> u32;

    /// Converts a capacity in bytes to a size in units.
    fn capacity_to_size(value: u32) -> (size: u32)
        ensures
            size == Self::size_of(value),
    ;

    /// Converts a size in units to a capacity in bytes.
    fn size_to_capacity(value: u32) -> (capacity: u32)
        ensures
            capacity == Self::capacity_of(value),
    ;

    /// The units that fit into a buffer do fit into it; more units never
    /// take fewer bytes; units take no fewer bytes than there are units;
    /// and only zero units take zero bytes.
    proof fn lemma_units(capacity: u32, smaller: u32, larger: u32)
        ensures
            Self::capacity_of(Self::size_of(capacity)) <= capacity,
            smaller <= larger ==> Self::capacity_of(smaller) <= Self::capacity_of(larger),
            smaller <= Self::capacity_of(smaller),
            smaller > 0 ==> Self::capacity_of(smaller) > 0,
            Self::capacity_of(0) == 0,
    ;
}

/// Read access to a buffer once a negotiation is over.
pub trait ReadBuffer {
    /// What a buffer has to satisfy to be read.
    spec fn readable_requires(&self) -> bool;

    /// The bytes that can be read, if the buffer has any to offer.
    spec fn readable(&self) -> Option<Seq<u8>>;

    /// The number of elements stored.
    spec fn stored(&self) -> u32;

    /// Returns the readable bytes, starting with the data, and the number of
    /// elements stored.
    fn read_buffer(&self) -> (view: (Option<&[u8]>, u32))
        requires
            self.readable_requires(),
        ensures
            view.1 == self.stored(),
            view.0 is Some == self.readable() is Some,
            view.0 is Some ==> view.0->0@ == self.readable()->0,
    ;
}

/// A buffer that a call can write into.
pub trait WriteBuffer: ReadBuffer {
    /// What every buffer of this type satisfies.
    spec fn wf(&self) -> bool;

    /// The number of bytes that can be written.
    spec fn spec_capacity(&self) -> u32;

    /// The size that the buffer was last finalized with.
    spec fn final_size(&self) -> u32;

    /// The bytes of the writable region.
    spec fn region(&self) -> Seq<u8>;

    /// The address of the first byte of the writable region.
    spec fn region_address(&self) -> int;

    /// What holds between the write side and the read side of a buffer: the
    /// region is as long as the capacity says; a buffer with capacity reads
    /// as its region and its final size; and its region starts at an
    /// aligned address.
    proof fn lemma_views(&self)
        requires
            self.wf(),
        ensures
            self.readable_requires(),
            self.region().len() == self.spec_capacity(),
            self.spec_capacity() > 0 ==> self.readable() == Some(self.region()) && self.stored()
                == self.final_size(),
            self.spec_capacity() > 0 ==> is_aligned(self.region_address()),
    ;

    /// Returns the number of bytes that can be written.
    fn capacity(&self) -> (capacity: u32)
        requires
            self.wf(),
        ensures
            capacity == self.spec_capacity(),
    ;

    /// Records how many elements the buffer holds, which are no more than
    /// it has bytes to write to.
    fn set_final_size(&mut self, final_size: u32)
        requires
            old(self).wf(),
            final_size <= old(self).spec_capacity(),
        ensures
            final(self).wf(),
            final(self).final_size() == final_size,
            final(self).spec_capacity() == old(self).spec_capacity(),
            final(self).region() == old(self).region(),
            final(self).region_address() == old(self).region_address(),
    ;

    /// Returns the writable region, whose start is aligned wherever the
    /// region is not empty. What is written to it is what the buffer holds
    /// afterwards.
    fn write_buffer(&mut self) -> (region: &mut [u8])
        requires
            old(self).wf(),
        ensures
            region@ == old(self).region(),
            final(region)@.len() == region@.len(),
            final(self).wf(),
            final(self).region() == final(region)@,
            final(self).spec_capacity() == old(self).spec_capacity(),
            final(self).final_size() == old(self).final_size(),
            final(self).region_address() == old(self).region_address(),
    ;
}

/// Turns the outcome of one attempt into the action to take.
///
/// A handler is a pure function of the outcome and of the size recorded
/// when it is asked.
pub trait ToResult {
    /// Whether this outcome, together with the size recorded, is one that
    /// the handler defines.
    spec fn defined(&self, needed_size: u32) -> bool;

    /// The action that this outcome calls for, or the terminal error that it
    /// is.
    spec fn action(&self, needed_size: u32) -> FillBufferResult;

    /// The size that is recorded once the outcome is classified.
    spec fn next_size(&self, needed_size: u32) -> u32;

    /// Tells whether `to_result` may be called with this size recorded.
    fn is_defined(&self, needed_size: u32) -> (defined: bool)
        ensures
            defined == self.defined(needed_size),
    ;

    /// Classifies the outcome, and records in `needed_size` the size
    /// stored, or the size to make room for.
    fn to_result<N: NeededSize>(&self, needed_size: &mut N) -> (result: FillBufferResult)
        requires
            self.defined(old(needed_size).spec_needed_size()),
        ensures
            result == self.action(old(needed_size).spec_needed_size()),
            final(needed_size).spec_needed_size() == self.next_size(
                old(needed_size).spec_needed_size(),
            ),
    ;
}

/// The unit of calls that count in bytes: a size is a capacity.
pub struct Bytes {}

impl RawToInternal for Bytes {
    open spec fn size_of(capacity: u32) -> u32 {
        capacity
    }

    open spec fn capacity_of(size: u32) -> u32 {
        size
    }

    fn capacity_to_size(value: u32) -> (size: u32) {
        value
    }

    fn size_to_capacity(value: u32) -> (capacity: u32) {
        value
    }

    proof fn lemma_units(capacity: u32, smaller: u32, larger: u32) {
    }
}

} // verus!
