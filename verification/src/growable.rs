use core::marker::PhantomData;
use vstd::prelude::*;

use crate::base::{FillBufferAction, FillBufferError};
use crate::buffer::{is_aligned, larger_of, HeapBuffer, HeapLedger};
use crate::strategy::ALIGNMENT;
use crate::traits::{GrowStrategy, NeededSize, RawToInternal, ReadBuffer, ToResult, WriteBuffer};

verus! {

/// The one buffer that a negotiation writes to at a time.
pub enum ActiveBuffer<'sb, WB: WriteBuffer> {
    /// A buffer of the negotiation's own making.
    Heap(HeapBuffer),
    /// The buffer that the caller supplied.
    Initial(&'sb mut WB),
    /// No buffer: the state between giving up one buffer and making the
    /// next.
    PendingSwitch,
}

impl<'sb, WB: WriteBuffer> ActiveBuffer<'sb, WB> {
    /// There is a buffer, and it is well formed.
    pub open spec fn usable(&self) -> bool {
        match self {
            ActiveBuffer::Heap(h) => h.wf(),
            ActiveBuffer::Initial(wb) => wb.wf(),
            ActiveBuffer::PendingSwitch => false,
        }
    }

    /// The number of bytes that can be written.
    pub open spec fn capacity(&self) -> u32 {
        match self {
            ActiveBuffer::Heap(h) => h.spec_capacity(),
            ActiveBuffer::Initial(wb) => wb.spec_capacity(),
            ActiveBuffer::PendingSwitch => 0,
        }
    }

    /// The size that the buffer was last finalized with.
    pub open spec fn final_size(&self) -> u32 {
        match self {
            ActiveBuffer::Heap(h) => h.final_size(),
            ActiveBuffer::Initial(wb) => wb.final_size(),
            ActiveBuffer::PendingSwitch => 0,
        }
    }

    /// The bytes of the writable region.
    pub open spec fn region(&self) -> Seq<u8> {
        match self {
            ActiveBuffer::Heap(h) => h.region(),
            ActiveBuffer::Initial(wb) => wb.region(),
            ActiveBuffer::PendingSwitch => Seq::empty(),
        }
    }

    /// The address of the first byte of the writable region.
    pub open spec fn region_address(&self) -> int {
        match self {
            ActiveBuffer::Heap(h) => h.region_address(),
            ActiveBuffer::Initial(wb) => wb.region_address(),
            ActiveBuffer::PendingSwitch => 0,
        }
    }

    /// Whether the region is known to start at an aligned address, which it
    /// is unless it is as large as an address can count.
    pub open spec fn can_align(&self) -> bool {
        match self {
            ActiveBuffer::Heap(h) => HeapBuffer::can_align(h.spec_capacity()),
            ActiveBuffer::Initial(_) => true,
            ActiveBuffer::PendingSwitch => true,
        }
    }

    /// The number of bytes that the negotiation itself has allocated.
    pub open spec fn held(&self) -> nat {
        match self {
            ActiveBuffer::Heap(h) => h.allocated(),
            ActiveBuffer::Initial(_) => 0,
            ActiveBuffer::PendingSwitch => 0,
        }
    }

    /// What the negotiation has allocated is its one buffer: the capacity
    /// of that buffer and, at most, the padding that it took to align it.
    pub open spec fn holds_its_buffer(&self) -> bool {
        self.capacity() <= self.held() < self.capacity() + ALIGNMENT
    }

    /// Records in the buffer how many elements it holds, which are no more
    /// than it has bytes to write to.
    pub fn set_final_size(&mut self, final_size: u32)
        requires
            old(self).usable(),
            final_size <= old(self).capacity(),
        ensures
            final(self).usable(),
            final(self).final_size() == final_size,
            final(self).capacity() == old(self).capacity(),
            final(self).region() == old(self).region(),
            final(self).region_address() == old(self).region_address(),
            final(self).held() == old(self).held(),
            (*final(self) is Heap) == (*old(self) is Heap),
    {
        match self {
            ActiveBuffer::Heap(h) => h.set_final_size(final_size),
            ActiveBuffer::Initial(wb) => wb.set_final_size(final_size),
            ActiveBuffer::PendingSwitch => {},
        }
    }
}

/// The active buffer of a negotiation together with the strategy that sizes
/// its successors and the number of times it has been replaced.
pub struct BufferStrategy<'gs, 'sb, WB: WriteBuffer, GS: GrowStrategy> {
    active_buffer: ActiveBuffer<'sb, WB>,
    grow_strategy: &'gs GS,
    tries: usize,
    ledger: HeapLedger,
}

impl<'gs, 'sb, WB: WriteBuffer, GS: GrowStrategy> BufferStrategy<'gs, 'sb, WB, GS> {
    /// The buffer that is written to.
    pub closed spec fn active(&self) -> ActiveBuffer<'sb, WB> {
        self.active_buffer
    }

    /// The strategy that sizes the next buffer.
    pub closed spec fn strategy(&self) -> GS {
        *self.grow_strategy
    }

    /// The number of times the buffer has been replaced by a larger one.
    pub closed spec fn tries(&self) -> usize {
        self.tries
    }

    /// The account of what the negotiation has allocated.
    pub closed spec fn ledger(&self) -> HeapLedger {
        self.ledger
    }

    /// The account is in order, and what it says is held is what the active
    /// buffer takes.
    pub open spec fn booked(&self) -> bool {
        self.ledger().wf() && self.ledger().live() == self.active().held()
    }

    /// There is a usable buffer, and it has been replaced no more often
    /// than it holds bytes.
    pub open spec fn wf(&self) -> bool {
        self.active().usable() && self.tries() <= self.active().capacity() && self.booked()
    }

    /// The two differ at most in what the bytes of the region are.
    pub open spec fn same_but_region(&self, other: &Self) -> bool {
        &&& self.active().capacity() == other.active().capacity()
        &&& self.active().final_size() == other.active().final_size()
        &&& self.active().region_address() == other.active().region_address()
        &&& self.active().held() == other.active().held()
        &&& self.active() is Heap == other.active() is Heap
        &&& self.active() is PendingSwitch == other.active() is PendingSwitch
        &&& self.strategy() == other.strategy()
        &&& self.tries() == other.tries()
        &&& self.ledger() == other.ledger()
    }

    /// The two are the same in all that a negotiation reads.
    pub open spec fn same(&self, other: &Self) -> bool {
        self.same_but_region(other) && self.active().region() == other.active().region()
    }

    /// Starts with the caller's buffer and no replacement made.
    pub fn new(initial: &'sb mut WB, grow_strategy: &'gs GS) -> (strategy: Self)
        requires
            old(initial).wf(),
        ensures
            strategy.wf(),
            strategy.active() is Initial,
            strategy.active().capacity() == old(initial).spec_capacity(),
            strategy.active() matches ActiveBuffer::Initial(buffer) && *buffer == *old(initial)
                && *final(buffer) == *final(initial),
            strategy.active().final_size() == old(initial).final_size(),
            strategy.active().region() == old(initial).region(),
            strategy.active().region_address() == old(initial).region_address(),
            strategy.active().held() == 0,
            strategy.strategy() == *grow_strategy,
            strategy.tries() == 0,
            strategy.ledger().peak() == 0,
    {
        Self {
            active_buffer: ActiveBuffer::Initial(initial),
            grow_strategy,
            tries: 0,
            ledger: HeapLedger::new(),
        }
    }

    /// Returns the number of bytes that can be written.
    pub fn capacity(&self) -> (capacity: u32)
        requires
            self.wf(),
        ensures
            capacity == self.active().capacity(),
    {
        match &self.active_buffer {
            ActiveBuffer::Heap(h) => h.capacity(),
            ActiveBuffer::Initial(wb) => wb.capacity(),
            ActiveBuffer::PendingSwitch => 0,
        }
    }

    /// Returns the number of times the buffer has been replaced.
    pub fn replaced(&self) -> (tries: usize)
        ensures
            tries == self.tries(),
    {
        self.tries
    }

    /// Gives up the active buffer. What the negotiation had allocated is
    /// given back, and is booked as given back.
    pub fn release(&mut self)
        requires
            old(self).booked(),
        ensures
            final(self).active() is PendingSwitch,
            final(self).booked(),
            final(self).ledger().live() == 0,
            final(self).ledger().peak() == old(self).ledger().peak(),
            final(self).strategy() == old(self).strategy(),
            final(self).tries() == old(self).tries(),
    {
        let mut given_up = ActiveBuffer::PendingSwitch;
        core::mem::swap(&mut self.active_buffer, &mut given_up);
        match given_up {
            ActiveBuffer::Heap(h) => h.free(&mut self.ledger),
            _ => {},
        }
    }

    /// Makes a buffer of `capacity` bytes the active one. There must be no
    /// active buffer: the one before has to be given up first.
    pub fn install(&mut self, capacity: u32)
        requires
            old(self).active() is PendingSwitch,
            old(self).booked(),
            old(self).tries() <= capacity,
        ensures
            final(self).wf(),
            final(self).active() is Heap,
            final(self).active().capacity() == capacity,
            final(self).active().final_size() == 0,
            final(self).active().holds_its_buffer(),
            final(self).ledger().peak() == larger_of(
                old(self).ledger().peak(),
                final(self).active().held(),
            ),
            final(self).strategy() == old(self).strategy(),
            final(self).tries() == old(self).tries(),
    {
        self.active_buffer = ActiveBuffer::Heap(HeapBuffer::new(capacity, &mut self.ledger));
    }

    /// Replaces the active buffer by one of the capacity that the strategy
    /// chooses, where `desired_capacity` is more than the active buffer
    /// offers; does nothing where it is not. The buffer before is given up
    /// before its successor is made, so that the most that the negotiation
    /// has ever held is the most that it held before or what the successor
    /// takes, and not the two together.
    pub fn grow(&mut self, desired_capacity: u32)
        requires
            old(self).wf(),
        ensures
            final(self).wf(),
            final(self).strategy() == old(self).strategy(),
            desired_capacity <= old(self).active().capacity() ==> final(self).same(old(self)),
            desired_capacity > old(self).active().capacity() ==> {
                &&& final(self).tries() == old(self).tries() + 1
                &&& final(self).active() is Heap
                &&& final(self).active().final_size() == 0
                &&& final(self).active().capacity() == old(self).strategy().capacity_for(
                    final(self).tries() as nat,
                    old(self).active().capacity() as nat,
                    desired_capacity as nat,
                )
                &&& final(self).active().capacity() > old(self).active().capacity()
                &&& final(self).active().holds_its_buffer()
                &&& final(self).ledger().peak() == larger_of(
                    old(self).ledger().peak(),
                    final(self).active().held(),
                )
            },
    {
        let current_capacity = self.capacity();
        if desired_capacity > current_capacity {
            self.tries = self.tries + 1;
            let adjusted_capacity = self.grow_strategy.next_capacity(
                self.tries,
                current_capacity,
                desired_capacity,
            );
            // A strategy keeps its word; one that does not leaves the buffer
            // as it is.
            if adjusted_capacity > current_capacity {
                self.release();
                self.install(adjusted_capacity);
            }
        }
    }

    /// Returns the writable region of the active buffer.
    pub fn raw_buffer(&mut self) -> (region: &mut [u8])
        requires
            old(self).wf(),
        ensures
            region@ == old(self).active().region(),
            final(region)@.len() == region@.len(),
            final(self).wf(),
            final(self).active().region() == final(region)@,
            final(self).same_but_region(old(self)),
    {
        match &mut self.active_buffer {
            ActiveBuffer::Heap(h) => h.write_buffer(),
            ActiveBuffer::Initial(wb) => wb.write_buffer(),
            ActiveBuffer::PendingSwitch => &mut [],
        }
    }
}

/// What is left of the active buffer when the negotiation is over.
pub enum PassiveBuffer<'sb, WB: WriteBuffer> {
    /// A buffer of the negotiation's own making, which holds data.
    Heap(HeapBuffer),
    /// The buffer that the caller supplied.
    Initial(&'sb WB),
    /// No buffer, because there is no data.
    Empty,
}

/// The read-only buffer that a negotiation ends in.
///
/// It holds the data that the call stored, or nothing at all where the call
/// had no data to give.
pub struct FrozenBuffer<'sb, WB: WriteBuffer> {
    passive_buffer: PassiveBuffer<'sb, WB>,
}

impl<'sb, WB: WriteBuffer> FrozenBuffer<'sb, WB> {
    #[verifier::type_invariant]
    spec fn inv(&self) -> bool {
        match self.passive_buffer {
            PassiveBuffer::Heap(h) => h.wf() && h.final_size() > 0,
            PassiveBuffer::Initial(wb) => wb.readable_requires(),
            PassiveBuffer::Empty => true,
        }
    }

    /// The bytes that can be read, if there are any.
    pub closed spec fn readable(&self) -> Option<Seq<u8>> {
        match self.passive_buffer {
            PassiveBuffer::Heap(h) => Some(h.region()),
            PassiveBuffer::Initial(wb) => wb.readable(),
            PassiveBuffer::Empty => None,
        }
    }

    /// The number of elements stored.
    pub closed spec fn stored(&self) -> u32 {
        match self.passive_buffer {
            PassiveBuffer::Heap(h) => h.final_size(),
            PassiveBuffer::Initial(wb) => wb.stored(),
            PassiveBuffer::Empty => 0,
        }
    }

    /// This is what `negotiation` freezes to: it reports the size that was
    /// committed and, where that is above zero, reads as the region of the
    /// active buffer; where it is zero there is nothing to read.
    pub open spec fn is_freeze_of<GS: GrowStrategy, IT: RawToInternal>(
        &self,
        negotiation: &GrowableBuffer<'_, 'sb, WB, GS, IT>,
    ) -> bool {
        &&& self.stored() == negotiation.final_size()
        &&& negotiation.final_size() > 0 ==> self.readable() == Some(negotiation.region())
        &&& negotiation.final_size() == 0 ==> self.readable() is None
    }

    /// Returns the bytes of the buffer, starting with the data, and the
    /// number of elements stored. There are no bytes to return where the
    /// negotiation ended without data, or in a buffer too small to align.
    pub fn read_buffer(&self) -> (view: (Option<&[u8]>, u32))
        ensures
            view.1 == self.stored(),
            view.0 is Some == self.readable() is Some,
            view.0 is Some ==> view.0->0@ == self.readable()->0,
    {
        proof {
            use_type_invariant(self);
        }
        match &self.passive_buffer {
            PassiveBuffer::Heap(h) => h.read_buffer(),
            PassiveBuffer::Initial(wb) => wb.read_buffer(),
            PassiveBuffer::Empty => (None, 0),
        }
    }

    /// Returns the bytes of the buffer, starting with the data, if there
    /// are any.
    pub fn pointer(&self) -> (bytes: Option<&[u8]>)
        ensures
            bytes is Some == self.readable() is Some,
            bytes is Some ==> bytes->0@ == self.readable()->0,
    {
        self.read_buffer().0
    }

    /// Returns the number of elements stored.
    pub fn size(&self) -> (size: u32)
        ensures
            size == self.stored(),
    {
        self.read_buffer().1
    }
}

/// A negotiation: a buffer to write to, which is replaced by a larger one
/// as often as an attempt finds it too small, and the size that the last
/// attempt committed.
///
/// `IT` names the unit that the call counts sizes in.
pub struct GrowableBuffer<'gs, 'sb, WB: WriteBuffer, GS: GrowStrategy, IT: RawToInternal> {
    final_size: u32,
    buffer_strategy: BufferStrategy<'gs, 'sb, WB, GS>,
    unit: PhantomData<IT>,
}

impl<'gs, 'sb, WB: WriteBuffer, GS: GrowStrategy, IT: RawToInternal> GrowableBuffer<
    'gs,
    'sb,
    WB,
    GS,
    IT,
> {
    /// The size that the last attempt committed; zero where none did.
    pub closed spec fn final_size(&self) -> u32 {
        self.final_size
    }

    /// The active buffer with its strategy.
    pub closed spec fn buffers(&self) -> BufferStrategy<'gs, 'sb, WB, GS> {
        self.buffer_strategy
    }

    /// The number of bytes that can be written.
    pub open spec fn capacity(&self) -> u32 {
        self.buffers().active().capacity()
    }

    /// The bytes of the writable region.
    pub open spec fn region(&self) -> Seq<u8> {
        self.buffers().active().region()
    }

    /// The number of times the buffer has been replaced by a larger one.
    pub open spec fn tries(&self) -> usize {
        self.buffers().tries()
    }

    /// The number of bytes that the negotiation itself has allocated.
    pub open spec fn held(&self) -> nat {
        self.buffers().active().held()
    }

    /// The most bytes that the negotiation itself has had allocated at any
    /// one moment.
    pub open spec fn peak(&self) -> nat {
        self.buffers().ledger().peak()
    }

    /// The number of the attempt that is made next, counted from one: one
    /// more than the number of times the buffer has been replaced, as far as
    /// the counter reaches.
    pub open spec fn attempt(&self) -> usize {
        if self.tries() < usize::MAX {
            (self.tries() + 1) as usize
        } else {
            usize::MAX
        }
    }

    /// Whether `size` elements fit into the active buffer.
    pub open spec fn fits(&self, size: u32) -> bool {
        IT::capacity_of(size) <= self.capacity()
    }

    /// The buffers are well formed, and what was committed fits into the
    /// active one.
    pub open spec fn wf(&self) -> bool {
        self.buffers().wf() && self.fits(self.final_size())
    }

    /// This is a negotiation that starts in the buffer `initial` with the
    /// strategy `grow_strategy`: it writes to that buffer as it was handed
    /// in, has not replaced it, has nothing committed and has nothing
    /// allocated.
    pub open spec fn starts_in(&self, initial: WB, grow_strategy: GS) -> bool {
        &&& self.wf()
        &&& self.final_size() == 0
        &&& self.tries() == 0
        &&& self.held() == 0
        &&& self.peak() == 0
        &&& self.capacity() == initial.spec_capacity()
        &&& self.region() == initial.region()
        &&& self.buffers().strategy() == grow_strategy
        &&& self.buffers().active() matches ActiveBuffer::Initial(active) && *active == initial
        &&& self.buffers().active().final_size() == initial.final_size()
        &&& self.buffers().active().region_address() == initial.region_address()
    }

    /// This is `before` with `size` committed.
    pub open spec fn committed(&self, before: &Self, size: u32) -> bool {
        self.final_size() == size && self.buffers() == before.buffers()
    }

    /// This is `before` with room made for `size` elements: unchanged where
    /// they fit into the buffer of `before`; else with a buffer of the
    /// negotiation's own, of the capacity that the strategy chooses, which
    /// is more than before.
    pub open spec fn grown(&self, before: &Self, size: u32) -> bool {
        &&& self.final_size() == before.final_size()
        &&& self.buffers().strategy() == before.buffers().strategy()
        &&& before.fits(size) ==> self.buffers().same(&before.buffers())
        &&& !before.fits(size) ==> {
            &&& self.tries() == before.tries() + 1
            &&& self.buffers().active() is Heap
            &&& self.buffers().active().final_size() == 0
            &&& self.capacity() == before.buffers().strategy().capacity_for(
                self.tries() as nat,
                before.capacity() as nat,
                IT::capacity_of(size) as nat,
            )
            &&& self.capacity() > before.capacity()
            &&& self.buffers().active().holds_its_buffer()
            &&& self.peak() == larger_of(before.peak(), self.held())
        }
    }

    /// Starts a negotiation in the buffer `initial`, with `grow_strategy` to
    /// size the buffers that follow it. A buffer without capacity sends the
    /// first attempt straight on to a buffer of the negotiation's own.
    pub fn new(initial: &'sb mut WB, grow_strategy: &'gs GS) -> (buffer: Self)
        requires
            old(initial).wf(),
        ensures
            buffer.starts_in(*old(initial), *grow_strategy),
            buffer.buffers().active() matches ActiveBuffer::Initial(active) && *final(active)
                == *final(initial),
    {
        proof {
            IT::lemma_units(0, 0, 0);
        }
        Self {
            final_size: 0,
            buffer_strategy: BufferStrategy::new(initial, grow_strategy),
            unit: PhantomData,
        }
    }

    /// Ends the negotiation. Where a size above zero was committed, the
    /// result reads as the active buffer with that size; else it is empty,
    /// whatever the active buffer was.
    pub fn freeze(self) -> (frozen: FrozenBuffer<'sb, WB>)
        requires
            self.wf(),
        ensures
            frozen.is_freeze_of(&self),
    {
        let GrowableBuffer { final_size, buffer_strategy, .. } = self;
        let passive_buffer = if final_size > 0 {
            proof {
                IT::lemma_units(0, final_size, final_size);
            }
            let mut active_buffer = buffer_strategy.active_buffer;
            active_buffer.set_final_size(final_size);
            match active_buffer {
                ActiveBuffer::Heap(h) => PassiveBuffer::Heap(h),
                ActiveBuffer::Initial(wb) => {
                    proof {
                        wb.lemma_views();
                    }
                    PassiveBuffer::Initial(&*wb)
                },
                ActiveBuffer::PendingSwitch => PassiveBuffer::Empty,
            }
        } else {
            PassiveBuffer::Empty
        };
        FrozenBuffer { passive_buffer }
    }

    /// Starts an attempt: forgets what was committed and hands out the
    /// argument for the call, with the capacity of the active buffer as its
    /// size.
    pub fn argument(&mut self) -> (argument: Argument<'_, 'gs, 'sb, WB, GS, IT>)
        requires
            old(self).wf(),
        ensures
            argument.wf(),
            argument.parent.final_size() == 0,
            argument.parent.buffers().same(&old(self).buffers()),
            argument.size == IT::size_of(old(self).capacity()),
            argument.tries == old(self).attempt(),
            *final(self) == *final(argument.parent),
    {
        proof {
            IT::lemma_units(0, 0, 0);
        }
        self.final_size = 0;
        let capacity = self.buffer_strategy.capacity();
        let replaced = self.buffer_strategy.replaced();
        let tries = if replaced < usize::MAX {
            replaced + 1
        } else {
            replaced
        };
        Argument { parent: self, size: IT::capacity_to_size(capacity), tries }
    }

    /// Makes room for `size` elements, by the rule of
    /// [`BufferStrategy::grow`].
    pub fn grow(&mut self, size: u32)
        requires
            old(self).wf(),
        ensures
            final(self).wf(),
            final(self).grown(old(self), size),
    {
        self.buffer_strategy.grow(IT::size_to_capacity(size));
    }

    /// Commits `size` elements, which have to fit into the active buffer.
    pub fn set_final_size(&mut self, size: u32)
        requires
            old(self).wf(),
            old(self).fits(size),
        ensures
            final(self).wf(),
            final(self).committed(old(self), size),
    {
        self.final_size = size;
    }

    /// Returns the writable region of the active buffer.
    pub fn raw_buffer(&mut self) -> (region: &mut [u8])
        requires
            old(self).wf(),
        ensures
            region@ == old(self).region(),
            final(region)@.len() == region@.len(),
            final(self).wf(),
            final(self).region() == final(region)@,
            final(self).final_size() == old(self).final_size(),
            final(self).buffers().same_but_region(&old(self).buffers()),
    {
        self.buffer_strategy.raw_buffer()
    }

    /// Returns the number of bytes that the negotiation itself has
    /// allocated.
    pub fn allocated(&self) -> (bytes: u64)
        requires
            self.wf(),
        ensures
            bytes == self.held(),
    {
        self.buffer_strategy.ledger.held()
    }

    /// Returns the most bytes that the negotiation itself has had allocated
    /// at any one moment.
    pub fn peak_allocated(&self) -> (bytes: u64)
        ensures
            bytes == self.peak(),
    {
        self.buffer_strategy.ledger.peak_held()
    }

    /// Tells whether `size` elements fit into the active buffer.
    pub fn has_room_for(&self, size: u32) -> (fits: bool)
        requires
            self.wf(),
        ensures
            fits == self.fits(size),
    {
        IT::size_to_capacity(size) <= self.buffer_strategy.capacity()
    }
}

/// Committing a size that fits and then freezing yields a buffer that reports
/// exactly that size and that has bytes to read, those of the active buffer,
/// if and only if the size is above zero.
pub proof fn law_commit_then_freeze<'gs, 'sb, WB: WriteBuffer, GS: GrowStrategy, IT: RawToInternal>(
    before: GrowableBuffer<'gs, 'sb, WB, GS, IT>,
    after: GrowableBuffer<'gs, 'sb, WB, GS, IT>,
    frozen: FrozenBuffer<'sb, WB>,
    size: u32,
)
    requires
        before.wf(),
        before.fits(size),
        after.committed(&before, size),
        frozen.is_freeze_of(&after),
    ensures
        frozen.stored() == size,
        frozen.readable() is Some <==> size > 0,
        size > 0 ==> frozen.readable() == Some(before.region()),
{
}

/// Freezing after an attempt that found no data yields a buffer that reports
/// a size of zero and has nothing to read, whatever the active buffer is.
pub proof fn law_no_data_then_freeze<'gs, 'sb, WB: WriteBuffer, GS: GrowStrategy, IT: RawToInternal>(
    before: GrowableBuffer<'gs, 'sb, WB, GS, IT>,
    after: GrowableBuffer<'gs, 'sb, WB, GS, IT>,
    frozen: FrozenBuffer<'sb, WB>,
)
    requires
        after.committed(&before, 0),
        frozen.is_freeze_of(&after),
    ensures
        frozen.stored() == 0,
        frozen.readable() is None,
{
}

/// The region that a negotiation hands to a call starts at an aligned address
/// wherever it is not empty.
pub proof fn law_region_is_aligned<'gs, 'sb, WB: WriteBuffer, GS: GrowStrategy, IT: RawToInternal>(
    negotiation: GrowableBuffer<'gs, 'sb, WB, GS, IT>,
)
    requires
        negotiation.wf(),
        negotiation.capacity() > 0,
        negotiation.buffers().active().can_align(),
    ensures
        is_aligned(negotiation.buffers().active().region_address()),
{
    match negotiation.buffers().active() {
        ActiveBuffer::Initial(wb) => {
            wb.lemma_views();
        },
        _ => {},
    }
}

/// What a negotiation has allocated is its active buffer and nothing else:
/// nothing while it writes to the caller's buffer; and while it writes to a
/// buffer of its own, the capacity of that buffer and, at most, the padding
/// that it took to align it.
pub proof fn law_held_is_active_buffer<'gs, 'sb, WB: WriteBuffer, GS: GrowStrategy, IT: RawToInternal>(
    negotiation: GrowableBuffer<'gs, 'sb, WB, GS, IT>,
)
    requires
        negotiation.wf(),
    ensures
        negotiation.held() == 0 || negotiation.buffers().active().holds_its_buffer(),
        negotiation.held() < negotiation.capacity() + ALIGNMENT,
{
}

/// Making room never has a negotiation hold two buffers of its own at once:
/// the most that it has ever held is, after as before, the most that it held
/// at one moment, or what its one new buffer takes, which is the capacity
/// of that buffer and at most the padding that it took to align it.
pub proof fn law_peak_is_largest_buffer<'gs, 'sb, WB: WriteBuffer, GS: GrowStrategy, IT: RawToInternal>(
    before: GrowableBuffer<'gs, 'sb, WB, GS, IT>,
    after: GrowableBuffer<'gs, 'sb, WB, GS, IT>,
    size: u32,
)
    requires
        before.wf(),
        after.wf(),
        after.grown(&before, size),
    ensures
        after.held() <= after.peak(),
        after.peak() == larger_of(before.peak(), after.held()),
        after.peak() <= larger_of(before.peak(), (after.capacity() + ALIGNMENT - 1) as nat),
{
}

/// How an attempt ends whose call had the outcome `outcome`, in the
/// negotiation `negotiation` and with `size` recorded: with an error where the
/// outcome is undefined or terminal or commits more than the buffer holds;
/// else with the word whether the negotiation is over, which it is unless the
/// buffer has to grow.
pub open spec fn settlement<
    'gs,
    'sb,
    WB: WriteBuffer,
    GS: GrowStrategy,
    IT: RawToInternal,
    WR: ToResult,
>(outcome: WR, negotiation: GrowableBuffer<'gs, 'sb, WB, GS, IT>, size: u32) -> Result<
    bool,
    FillBufferError,
> {
    if !outcome.defined(size) {
        Err(FillBufferError::Undefined)
    } else {
        match outcome.action(size) {
            Err(error) => Err(error),
            Ok(FillBufferAction::Commit) => if negotiation.fits(outcome.next_size(size)) {
                Ok(true)
            } else {
                Err(FillBufferError::Overrun)
            },
            Ok(FillBufferAction::NoData) => Ok(true),
            Ok(FillBufferAction::Grow) => Ok(false),
        }
    }
}

/// What one attempt hands to the call: the region to write to, and the
/// size, which holds the capacity of the region when the attempt starts
/// and which the call, or the handler of its outcome, overwrites with the
/// size stored or needed.
///
/// An argument borrows its negotiation, so there is one at a time, and each
/// of `commit`, `commit_no_data`, `grow` and `apply` uses it up.
pub struct Argument<'gb, 'gs, 'sb, WB: WriteBuffer, GS: GrowStrategy, IT: RawToInternal> {
    /// The negotiation that the attempt belongs to.
    pub parent: &'gb mut GrowableBuffer<'gs, 'sb, WB, GS, IT>,
    /// The size, in the units of the call.
    pub size: u32,
    /// The number of this attempt, counted from one.
    pub tries: usize,
}

impl<'gb, 'gs, 'sb, WB: WriteBuffer, GS: GrowStrategy, IT: RawToInternal> Argument<
    'gb,
    'gs,
    'sb,
    WB,
    GS,
    IT,
> {
    /// The negotiation is well formed.
    pub open spec fn wf(&self) -> bool {
        self.parent.wf()
    }

    /// Whether the size fits into the active buffer, so that it can be
    /// committed.
    pub open spec fn fits(&self) -> bool {
        self.parent.fits(self.size)
    }

    /// Tells whether the size fits into the active buffer.
    pub fn can_commit(&self) -> (fits: bool)
        requires
            self.wf(),
        ensures
            fits == self.fits(),
    {
        self.parent.has_room_for(self.size)
    }

    /// Does what `fill_buffer_action` says: commits the size, grows the
    /// buffer, or commits that there is no data. Returns whether the
    /// negotiation is over, which it is unless the buffer had to grow.
    pub fn apply(self, fill_buffer_action: FillBufferAction) -> (done: bool)
        requires
            self.wf(),
            fill_buffer_action == FillBufferAction::Commit ==> self.fits(),
        ensures
            done == (fill_buffer_action != FillBufferAction::Grow),
            final(self.parent).wf(),
            fill_buffer_action == FillBufferAction::Commit ==> final(self.parent).committed(
                old(self.parent),
                self.size,
            ),
            fill_buffer_action == FillBufferAction::NoData ==> final(self.parent).committed(
                old(self.parent),
                0,
            ),
            fill_buffer_action == FillBufferAction::Grow ==> final(self.parent).grown(
                old(self.parent),
                self.size,
            ),
    {
        match fill_buffer_action {
            FillBufferAction::Commit => {
                self.commit();
                true
            },
            FillBufferAction::Grow => {
                self.grow();
                false
            },
            FillBufferAction::NoData => {
                self.commit_no_data();
                true
            },
        }
    }

    /// Commits the size: the data that the call stored is ready to be read.
    pub fn commit(self)
        requires
            self.wf(),
            self.fits(),
        ensures
            final(self.parent).wf(),
            final(self.parent).committed(old(self.parent), self.size),
    {
        self.parent.set_final_size(self.size);
    }

    /// Commits a size of zero: the call succeeded and had no data to give.
    pub fn commit_no_data(self)
        requires
            self.wf(),
        ensures
            final(self.parent).wf(),
            final(self.parent).committed(old(self.parent), 0),
    {
        proof {
            IT::lemma_units(0, 0, 0);
        }
        self.parent.set_final_size(0);
    }

    /// Makes room for as many elements as the size says.
    pub fn grow(self)
        requires
            self.wf(),
        ensures
            final(self.parent).wf(),
            final(self.parent).grown(old(self.parent), self.size),
    {
        self.parent.grow(self.size);
    }

    /// Returns the region that the call writes to.
    pub fn pointer(&mut self) -> (region: &mut [u8])
        requires
            old(self).wf(),
        ensures
            region@ == old(self).parent.region(),
            final(region)@.len() == region@.len(),
            final(self).wf(),
            final(self).parent.region() == final(region)@,
            final(self).parent.final_size() == old(self).parent.final_size(),
            final(self).parent.buffers().same_but_region(&old(self).parent.buffers()),
            final(self).size == old(self).size,
            final(self).tries == old(self).tries,
            *final(final(self).parent) == *final(old(self).parent),
    {
        self.parent.raw_buffer()
    }

    /// Returns the size for the call to read and to overwrite.
    pub fn size(&mut self) -> (size: &mut u32)
        ensures
            *size == old(self).size,
            final(self).size == *final(size),
            final(self).tries == old(self).tries,
            *final(self).parent == *old(self).parent,
            *final(final(self).parent) == *final(old(self).parent),
    {
        &mut self.size
    }

    /// Returns the region and the size together, for a call that takes
    /// both.
    pub fn parts(&mut self) -> (parts: (&mut [u8], &mut u32))
        requires
            old(self).wf(),
        ensures
            parts.0@ == old(self).parent.region(),
            final(parts.0)@.len() == parts.0@.len(),
            *parts.1 == old(self).size,
            final(self).wf(),
            final(self).parent.region() == final(parts.0)@,
            final(self).parent.final_size() == old(self).parent.final_size(),
            final(self).parent.buffers().same_but_region(&old(self).parent.buffers()),
            final(self).size == *final(parts.1),
            final(self).tries == old(self).tries,
            *final(final(self).parent) == *final(old(self).parent),
    {
        (self.parent.raw_buffer(), &mut self.size)
    }

    /// Classifies the outcome of the call and acts on it. Returns whether
    /// the negotiation is over.
    ///
    /// The negotiation is left as it was where the outcome is one that its
    /// handler leaves undefined, where it is a terminal error, and where it
    /// commits a size that does not fit into the buffer.
    pub fn settle<WR: ToResult>(self, outcome: &WR) -> (result: Result<bool, FillBufferError>)
        requires
            self.wf(),
        ensures
            final(self.parent).wf(),
            result == settlement(*outcome, *old(self.parent), self.size),
            result is Err ==> *final(self.parent) == *old(self.parent),
            result is Ok ==> match outcome.action(self.size) {
                Ok(FillBufferAction::Commit) => final(self.parent).committed(
                    old(self.parent),
                    outcome.next_size(self.size),
                ),
                Ok(FillBufferAction::NoData) => final(self.parent).committed(old(self.parent), 0),
                Ok(FillBufferAction::Grow) => final(self.parent).grown(
                    old(self.parent),
                    outcome.next_size(self.size),
                ),
                Err(_) => false,
            },
    {
        let mut argument = self;
        if !outcome.is_defined(argument.size) {
            return Err(FillBufferError::Undefined);
        }
        let mut size = argument.size;
        let action = match outcome.to_result(&mut size) {
            Ok(action) => action,
            Err(error) => {
                return Err(error);
            },
        };
        argument.size = size;
        match action {
            FillBufferAction::Commit => {
                if !argument.can_commit() {
                    return Err(FillBufferError::Overrun);
                }
            },
            _ => {},
        }
        Ok(argument.apply(action))
    }

    /// Returns the number of this attempt, counted from one.
    pub fn tries(&self) -> (tries: usize)
        ensures
            tries == self.tries,
    {
        self.tries
    }
}

impl<'gb, 'gs, 'sb, WB: WriteBuffer, GS: GrowStrategy, IT: RawToInternal> NeededSize for Argument<
    'gb,
    'gs,
    'sb,
    WB,
    GS,
    IT,
> {
    open spec fn spec_needed_size(&self) -> u32 {
        self.size
    }

    /// Returns the size: the capacity of the region before the call, and
    /// after it what the call has put there.
    fn needed_size(&self) -> (size: u32) {
        self.size
    }

    /// Sets the size to the number of elements stored, or to the number to
    /// make room for.
    fn set_needed_size(&mut self, value: u32)
        ensures
            final(self).tries == old(self).tries,
            *final(self).parent == *old(self).parent,
            *final(final(self).parent) == *final(old(self).parent),
    {
        self.size = value;
    }
}

impl NeededSize for u32 {
    open spec fn spec_needed_size(&self) -> u32 {
        *self
    }

    fn needed_size(&self) -> (size: u32) {
        *self
    }

    fn set_needed_size(&mut self, value: u32) {
        *self = value;
    }
}

} // verus!
