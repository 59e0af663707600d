use vstd::prelude::*;

use crate::traits::GrowStrategy;

verus! {

/// Alignment, in bytes, that every buffer handed to a call satisfies.
pub const ALIGNMENT: usize = 16;

/// Width, in bytes, of one UTF-16 code unit.
pub const SIZE_OF_WCHAR: u32 = 2;

/// The largest capacity a buffer can have.
pub open spec fn max_capacity() -> int {
    u32::MAX as int
}

/// `value` rounded up to the next multiple of `unit`.
pub open spec fn round_up(value: int, unit: int) -> int {
    ((value + unit - 1) / unit) * unit
}

/// `value`, or the largest capacity if `value` exceeds it.
pub open spec fn clamp_capacity(value: int) -> int {
    if value > max_capacity() {
        max_capacity()
    } else {
        value
    }
}

/// The larger of two integers.
pub open spec fn larger(a: int, b: int) -> int {
    if a >= b {
        a
    } else {
        b
    }
}

/// The capacity chosen by the strategies that work in units of sixteen
/// bytes: `desired` plus `extra` bytes of headroom, rounded up to a multiple
/// of sixteen, multiplied by `scale`; never less than `desired` or `floor`,
/// and never more than the largest capacity.
pub open spec fn nibble_capacity(desired: int, extra: int, scale: int, floor: int) -> int {
    clamp_capacity(larger(larger(round_up(desired + extra, 16) * scale, desired), floor))
}

/// The capacity chosen by [`GrowToNearestQuarterKibi`]: `desired` plus room
/// to align the buffer, rounded up to a multiple of 256, and never more than
/// the largest capacity.
pub open spec fn quarter_kibi_capacity(desired: int) -> int {
    clamp_capacity(round_up(desired + ALIGNMENT as int, 256))
}

/// `round_up(value, unit)` is the least multiple of `unit` that is not below
/// `value`.
pub proof fn lemma_round_up_is_least_multiple(value: int, unit: int)
    requires
        0 <= value,
        0 < unit,
    ensures
        round_up(value, unit) % unit == 0,
        value <= round_up(value, unit) < value + unit,
        forall|m: int| m % unit == 0 && value <= m ==> round_up(value, unit) <= #[trigger] (m / unit) * unit,
{
    let q = (value + unit - 1) / unit;
    assert(q * unit <= value + unit - 1 < q * unit + unit) by (nonlinear_arith)
        requires
            q == (value + unit - 1) / unit,
            0 < unit,
    ;
    assert((q * unit) % unit == 0) by (nonlinear_arith)
        requires
            0 < unit,
    ;
    assert forall|m: int| m % unit == 0 && value <= m implies round_up(value, unit) <= #[trigger] (m
        / unit) * unit by {
        let k = m / unit;
        assert(k * unit == m) by (nonlinear_arith)
            requires
                k == m / unit,
                m % unit == 0,
                0 < unit,
        ;
        assert(q <= k) by (nonlinear_arith)
            requires
                q * unit < value + unit,
                value <= k * unit,
                0 < unit,
        ;
        assert(q * unit <= k * unit) by (nonlinear_arith)
            requires
                q <= k,
                0 < unit,
        ;
    }
}

/// The capacity that the strategies in units of sixteen bytes choose is never
/// below the desired one, nor below the floor as far as a capacity can reach
/// it. So it exceeds every current capacity that is below the desired one.
pub proof fn law_nibble_capacity_grows(current: int, desired: int, extra: int, scale: int, floor: int)
    requires
        0 <= desired <= max_capacity(),
        0 <= extra,
        1 <= scale,
    ensures
        desired <= nibble_capacity(desired, extra, scale, floor) <= max_capacity(),
        clamp_capacity(floor) <= nibble_capacity(desired, extra, scale, floor),
        current < desired ==> current < nibble_capacity(desired, extra, scale, floor),
{
}

/// Without scaling or a floor, and short of the largest capacity, the
/// capacity chosen is the least multiple of sixteen that holds the desired
/// capacity and the headroom.
pub proof fn law_nibble_capacity_is_next_multiple(desired: int, extra: int)
    requires
        0 <= desired,
        0 <= extra,
        round_up(desired + extra, 16) <= max_capacity(),
    ensures
        nibble_capacity(desired, extra, 1, 0) == round_up(desired + extra, 16),
        nibble_capacity(desired, extra, 1, 0) % 16 == 0,
        desired + extra <= nibble_capacity(desired, extra, 1, 0) < desired + extra + 16,
{
    lemma_round_up_is_least_multiple(desired + extra, 16);
}

/// The capacity that [`GrowToNearestQuarterKibi`] chooses is never below the
/// desired one. So it exceeds every current capacity that is below the
/// desired one. Short of the largest capacity it is a multiple of 256 that
/// leaves room for aligning the data.
pub proof fn law_quarter_kibi_capacity_grows(current: int, desired: int)
    requires
        0 <= desired <= max_capacity(),
    ensures
        desired <= quarter_kibi_capacity(desired) <= max_capacity(),
        current < desired ==> current < quarter_kibi_capacity(desired),
        round_up(desired + ALIGNMENT as int, 256) <= max_capacity() ==> {
            &&& quarter_kibi_capacity(desired) % 256 == 0
            &&& desired + ALIGNMENT <= quarter_kibi_capacity(desired) < desired + ALIGNMENT + 256
        },
{
    lemma_round_up_is_least_multiple(desired + ALIGNMENT as int, 256);
}

/// The shared core of the strategies that work in units of sixteen bytes.
struct GrowToNearestNibbleWithExtra {
    /// Bytes of headroom added to the desired capacity before rounding.
    extra: u64,
    /// Factor applied to the rounded capacity.
    scale: u64,
    /// Capacity below which the strategy never goes.
    floor: u64,
}

impl GrowToNearestNibbleWithExtra {
    spec fn wf(&self) -> bool {
        self.extra <= 0xffff && 1 <= self.scale <= 0xffff
    }

    fn new(extra: u64, scale: u64, floor: u64) -> (strategy: Self)
        requires
            extra <= 0xffff,
            1 <= scale <= 0xffff,
        ensures
            strategy.wf(),
            strategy.extra == extra,
            strategy.scale == scale,
            strategy.floor == floor,
    {
        Self { extra, scale, floor }
    }

    fn next_capacity(&self, desired_capacity: u32) -> (capacity: u32)
        requires
            self.wf(),
        ensures
            capacity == nibble_capacity(
                desired_capacity as int,
                self.extra as int,
                self.scale as int,
                self.floor as int,
            ),
            capacity >= desired_capacity,
    {
        // All arithmetic is done in 64 bits, where none of it can overflow,
        // and only the end result is brought back into 32 bits.
        let desired: u64 = desired_capacity as u64;
        let bumped_nibbles: u64 = (desired + self.extra + 15) / 16;
        assert(bumped_nibbles * 16 <= 0x1_0001_0000) by (nonlinear_arith)
            requires
                bumped_nibbles == (desired + self.extra + 15) / 16,
                desired <= 0xffff_ffff,
                self.extra <= 0xffff,
        ;
        assert(bumped_nibbles * 16 * self.scale <= 0x1_0001_0000 * 0xffff) by (nonlinear_arith)
            requires
                bumped_nibbles * 16 <= 0x1_0001_0000,
                self.scale <= 0xffff,
        ;
        let scaled_bytes: u64 = bumped_nibbles * 16 * self.scale;
        let mut target: u64 = scaled_bytes;
        if target < desired {
            target = desired;
        }
        if target < self.floor {
            target = self.floor;
        }
        if target > 0xffff_ffff {
            target = 0xffff_ffff;
        }
        target as u32
    }
}

/// Rounds the desired capacity up to the next multiple of sixteen.
///
/// Suited to small binary data whose needed size the call reports and which
/// is unlikely to change between attempts.
pub struct GrowToNearestNibble {
    inner: GrowToNearestNibbleWithExtra,
}

impl GrowToNearestNibble {
    #[verifier::type_invariant]
    spec fn wf(&self) -> bool {
        self.inner.wf() && self.inner.extra == 0 && self.inner.scale == 1 && self.inner.floor == 0
    }

    /// Makes the strategy: no headroom, no scaling, no floor.
    pub fn new() -> (strategy: Self)
        ensures
            strategy.extra() == 0,
            strategy.scale() == 1,
            strategy.floor() == 0,
    {
        Self { inner: GrowToNearestNibbleWithExtra::new(0, 1, 0) }
    }

    /// The bytes of headroom that are added to the desired capacity before
    /// it is rounded.
    pub closed spec fn extra(&self) -> u64 {
        self.inner.extra
    }

    /// The factor that the rounded capacity is multiplied by.
    pub closed spec fn scale(&self) -> u64 {
        self.inner.scale
    }

    /// The capacity below which the strategy never goes.
    pub closed spec fn floor(&self) -> u64 {
        self.inner.floor
    }

}

impl Default for GrowToNearestNibble {
    fn default() -> (strategy: Self)
        ensures
            strategy.extra() == 0,
            strategy.scale() == 1,
            strategy.floor() == 0,
    {
        Self::new()
    }
}

impl GrowStrategy for GrowToNearestNibble {
    open spec fn capacity_for(&self, tries: nat, current_capacity: nat, desired_capacity: nat) -> nat {
        nibble_capacity(desired_capacity as int, 0, 1, 0) as nat
    }

    fn next_capacity(&self, tries: usize, current_capacity: u32, desired_capacity: u32) -> (capacity: u32) {
        proof {
            use_type_invariant(self);
        }
        self.inner.next_capacity(desired_capacity)
    }
}

/// The strategy of choice for small binary data.
pub type GrowForSmallBinary = GrowToNearestNibble;

/// Adds room for one terminating code unit to the desired capacity, then
/// rounds up to the next multiple of sixteen.
///
/// Suited to text whose needed size the call reports: the extra code unit
/// covers a call that forgets to count the terminator.
pub struct GrowToNearestNibbleWithNull {
    inner: GrowToNearestNibbleWithExtra,
}

impl GrowToNearestNibbleWithNull {
    #[verifier::type_invariant]
    spec fn wf(&self) -> bool {
        self.inner.wf() && self.inner.extra == SIZE_OF_WCHAR && self.inner.scale == 1
            && self.inner.floor == 0
    }

    /// Makes the strategy: headroom for one code unit, no scaling, no
    /// floor.
    pub fn new() -> (strategy: Self)
        ensures
            strategy.extra() == SIZE_OF_WCHAR,
            strategy.scale() == 1,
            strategy.floor() == 0,
    {
        Self { inner: GrowToNearestNibbleWithExtra::new(SIZE_OF_WCHAR as u64, 1, 0) }
    }

    /// The bytes of headroom that are added to the desired capacity before
    /// it is rounded.
    pub closed spec fn extra(&self) -> u64 {
        self.inner.extra
    }

    /// The factor that the rounded capacity is multiplied by.
    pub closed spec fn scale(&self) -> u64 {
        self.inner.scale
    }

    /// The capacity below which the strategy never goes.
    pub closed spec fn floor(&self) -> u64 {
        self.inner.floor
    }

}

impl Default for GrowToNearestNibbleWithNull {
    fn default() -> (strategy: Self)
        ensures
            strategy.extra() == SIZE_OF_WCHAR,
            strategy.scale() == 1,
            strategy.floor() == 0,
    {
        Self::new()
    }
}

impl GrowStrategy for GrowToNearestNibbleWithNull {
    open spec fn capacity_for(&self, tries: nat, current_capacity: nat, desired_capacity: nat) -> nat {
        nibble_capacity(desired_capacity as int, SIZE_OF_WCHAR as int, 1, 0) as nat
    }

    fn next_capacity(&self, tries: usize, current_capacity: u32, desired_capacity: u32) -> (capacity: u32) {
        proof {
            use_type_invariant(self);
        }
        self.inner.next_capacity(desired_capacity)
    }
}

/// The strategy of choice for text of a size that the call reports.
pub type GrowForStaticText = GrowToNearestNibbleWithNull;

/// Adds room for one terminating code unit to the desired capacity, rounds up
/// to the next multiple of sixteen and doubles the result; never goes below
/// `FLOOR`.
///
/// Suited to calls that only report how much they stored, so that the needed
/// capacity has to be guessed.
pub struct GrowByDoubleWithNull<const FLOOR: u64> {
    inner: GrowToNearestNibbleWithExtra,
}

impl<const FLOOR: u64> GrowByDoubleWithNull<FLOOR> {
    #[verifier::type_invariant]
    spec fn wf(&self) -> bool {
        self.inner.wf() && self.inner.extra == SIZE_OF_WCHAR && self.inner.scale == 2
            && self.inner.floor == FLOOR
    }

    /// Makes the strategy: headroom for one code unit, doubling, and
    /// `FLOOR` as the floor.
    pub fn new() -> (strategy: Self)
        ensures
            strategy.extra() == SIZE_OF_WCHAR,
            strategy.scale() == 2,
            strategy.floor() == FLOOR,
    {
        Self { inner: GrowToNearestNibbleWithExtra::new(SIZE_OF_WCHAR as u64, 2, FLOOR) }
    }

    /// The bytes of headroom that are added to the desired capacity before
    /// it is rounded.
    pub closed spec fn extra(&self) -> u64 {
        self.inner.extra
    }

    /// The factor that the rounded capacity is multiplied by.
    pub closed spec fn scale(&self) -> u64 {
        self.inner.scale
    }

    /// The capacity below which the strategy never goes.
    pub closed spec fn floor(&self) -> u64 {
        self.inner.floor
    }

}

impl<const FLOOR: u64> Default for GrowByDoubleWithNull<FLOOR> {
    fn default() -> (strategy: Self)
        ensures
            strategy.extra() == SIZE_OF_WCHAR,
            strategy.scale() == 2,
            strategy.floor() == FLOOR,
    {
        Self::new()
    }
}

impl<const FLOOR: u64> GrowStrategy for GrowByDoubleWithNull<FLOOR> {
    open spec fn capacity_for(&self, tries: nat, current_capacity: nat, desired_capacity: nat) -> nat {
        nibble_capacity(desired_capacity as int, SIZE_OF_WCHAR as int, 2, FLOOR as int) as nat
    }

    fn next_capacity(&self, tries: usize, current_capacity: u32, desired_capacity: u32) -> (capacity: u32) {
        proof {
            use_type_invariant(self);
        }
        self.inner.next_capacity(desired_capacity)
    }
}

/// The strategy of choice for calls that return what they stored.
pub type GrowForStoredIsReturned<const FLOOR: u64> = GrowByDoubleWithNull<FLOOR>;

/// Adds room for aligning the buffer to the desired capacity, then rounds up
/// to the next multiple of 256.
///
/// Suited to large binary data whose needed size the call reports and which
/// may change between attempts.
pub struct GrowToNearestQuarterKibi {}

impl GrowToNearestQuarterKibi {
    pub fn new() -> (strategy: Self) {
        Self {  }
    }
}

impl Default for GrowToNearestQuarterKibi {
    fn default() -> (strategy: Self) {
        Self::new()
    }
}

impl GrowStrategy for GrowToNearestQuarterKibi {
    open spec fn capacity_for(&self, tries: nat, current_capacity: nat, desired_capacity: nat) -> nat {
        quarter_kibi_capacity(desired_capacity as int) as nat
    }

    fn next_capacity(&self, tries: usize, current_capacity: u32, desired_capacity: u32) -> (capacity: u32) {
        let desired: u64 = desired_capacity as u64;
        let quarter_kibis: u64 = (desired + 255 + ALIGNMENT as u64) / 256;
        assert(desired <= quarter_kibis * 256 <= 0x1_0000_0200) by (nonlinear_arith)
            requires
                quarter_kibis == (desired + 255 + 16) / 256,
                desired <= 0xffff_ffff,
        ;
        let bytes: u64 = quarter_kibis * 256;
        if bytes > 0xffff_ffff {
            0xffff_ffff
        } else {
            bytes as u32
        }
    }
}

} // verus!
