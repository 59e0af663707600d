use vstd::prelude::*;
use windows::Win32::Foundation::{
    ERROR_BUFFER_OVERFLOW, ERROR_INSUFFICIENT_BUFFER, ERROR_NO_DATA, NO_ERROR,
};

use crate::base::{FillBufferAction, FillBufferError, FillBufferResult};
use crate::growable::FrozenBuffer;
use crate::strategy::{ALIGNMENT, SIZE_OF_WCHAR};
use crate::traits::{NeededSize, RawToInternal, ToResult, WriteBuffer};
use crate::winstr::{lemma_utf16_of_is_injective, utf16_of};

verus! {

/// A good capacity, in bytes, to start with where a call returns the name of
/// something: room for the longest user name and its terminator, and for
/// aligning the buffer.
pub const CAPACITY_FOR_NAMES: usize = (257 * 2) + ALIGNMENT;

/// A good capacity, in bytes, to start with where a call returns a file
/// system path: room for a path of the classic maximum length, and for
/// aligning the buffer.
pub const CAPACITY_FOR_PATHS: usize = (260 * 2) + ALIGNMENT;

/// `CAPACITY_FOR_PATHS` as the floor of a strategy.
pub const FLOOR_FOR_PATHS: u64 = (260 * 2) + 16;

/// The status code of a call that succeeded.
pub const STATUS_SUCCESS: u32 = 0;

/// The status code of a call that was handed too small a buffer, in the
/// first of its two forms.
pub const STATUS_INSUFFICIENT_BUFFER: u32 = 122;

/// The status code of a call that was handed too small a buffer, in the
/// second of its two forms.
pub const STATUS_BUFFER_OVERFLOW: u32 = 111;

/// The status code of a call that has no data to give.
pub const STATUS_NO_DATA: u32 = 232;

/// `NO_ERROR` of the `windows` crate, as a number.
#[verifier::external_body]
fn no_error() -> (code: u32)
    ensures
        code == STATUS_SUCCESS,
{
    NO_ERROR.0
}

/// `ERROR_INSUFFICIENT_BUFFER` of the `windows` crate, as a number.
#[verifier::external_body]
fn error_insufficient_buffer() -> (code: u32)
    ensures
        code == STATUS_INSUFFICIENT_BUFFER,
{
    ERROR_INSUFFICIENT_BUFFER.0
}

/// `ERROR_BUFFER_OVERFLOW` of the `windows` crate, as a number.
#[verifier::external_body]
fn error_buffer_overflow() -> (code: u32)
    ensures
        code == STATUS_BUFFER_OVERFLOW,
{
    ERROR_BUFFER_OVERFLOW.0
}

/// `ERROR_NO_DATA` of the `windows` crate, as a number.
#[verifier::external_body]
fn error_no_data() -> (code: u32)
    ensures
        code == STATUS_NO_DATA,
{
    ERROR_NO_DATA.0
}

/// What a status code calls for when `needed_size` is the size that the call
/// reported: success commits, or reports no data where the size is zero;
/// either form of "buffer too small" grows the buffer; "no data" reports no
/// data; every other code is a terminal error and is passed on as it is.
pub open spec fn status_action(code: u32, needed_size: u32) -> FillBufferResult {
    if code == STATUS_SUCCESS {
        if needed_size == 0 {
            Ok(FillBufferAction::NoData)
        } else {
            Ok(FillBufferAction::Commit)
        }
    } else if code == STATUS_INSUFFICIENT_BUFFER || code == STATUS_BUFFER_OVERFLOW {
        Ok(FillBufferAction::Grow)
    } else if code == STATUS_NO_DATA {
        Ok(FillBufferAction::NoData)
    } else {
        Err(FillBufferError::Os(code))
    }
}

/// The outcome of a call that returns a status code and reports the size
/// that it stored or needs through its size argument.
#[derive(Debug)]
pub struct RvIsError(u32);

impl RvIsError {
    /// The status code that the call returned.
    pub closed spec fn code(&self) -> u32 {
        self.0
    }

    /// Wraps the status code that a call returned.
    pub fn new(value: u32) -> (outcome: Self)
        ensures
            outcome.code() == value,
    {
        RvIsError(value)
    }
}

impl ToResult for RvIsError {
    open spec fn defined(&self, needed_size: u32) -> bool {
        true
    }

    open spec fn action(&self, needed_size: u32) -> FillBufferResult {
        status_action(self.code(), needed_size)
    }

    open spec fn next_size(&self, needed_size: u32) -> u32 {
        needed_size
    }

    fn is_defined(&self, needed_size: u32) -> (defined: bool) {
        true
    }

    fn to_result<N: NeededSize>(&self, needed_size: &mut N) -> (result: FillBufferResult) {
        let code = self.0;
        if code == no_error() {
            if needed_size.needed_size() == 0 {
                Ok(FillBufferAction::NoData)
            } else {
                Ok(FillBufferAction::Commit)
            }
        } else if code == error_insufficient_buffer() || code == error_buffer_overflow() {
            Ok(FillBufferAction::Grow)
        } else if code == error_no_data() {
            Ok(FillBufferAction::NoData)
        } else {
            Err(FillBufferError::Os(code))
        }
    }
}

/// Twice `value`, or the largest number where that is more.
pub open spec fn saturating_double(value: u32) -> u32 {
    if value > u32::MAX / 2 {
        u32::MAX
    } else {
        (value * 2) as u32
    }
}

/// Whether a call that stored `stored` elements and left the status
/// `last_error` behind, in a buffer of room for `needed_size` elements, did
/// something that is known of such calls: it stored nothing; or it stored
/// less than there was room for; or it filled the buffer to the last element
/// and said that the buffer was too small.
pub open spec fn stored_defined(stored: u32, last_error: u32, needed_size: u32) -> bool {
    ||| stored == 0
    ||| stored < needed_size
    ||| stored == needed_size && last_error == STATUS_INSUFFICIENT_BUFFER
}

/// What such a call calls for. Nothing stored is no data after a success;
/// else a buffer without room has to grow; else the status is a terminal
/// error. Less than a full buffer is committed. A full buffer has to grow.
pub open spec fn stored_action(stored: u32, last_error: u32, needed_size: u32) -> FillBufferResult {
    if stored == 0 {
        if last_error == STATUS_SUCCESS {
            Ok(FillBufferAction::NoData)
        } else if needed_size == 0 {
            Ok(FillBufferAction::Grow)
        } else {
            Err(FillBufferError::Os(last_error))
        }
    } else if stored < needed_size {
        Ok(FillBufferAction::Commit)
    } else {
        Ok(FillBufferAction::Grow)
    }
}

/// The size recorded after such a call: what was stored, where that is
/// committed; one element, where a buffer without room has to grow; twice
/// what was stored, as far as that can be counted, where a full buffer has
/// to grow; and else the size as it was.
pub open spec fn stored_next_size(stored: u32, last_error: u32, needed_size: u32) -> u32 {
    if stored == 0 {
        if last_error != STATUS_SUCCESS && needed_size == 0 {
            1
        } else {
            needed_size
        }
    } else if stored < needed_size {
        stored
    } else {
        saturating_double(stored)
    }
}

/// The outcome of a call that returns the number of elements that it
/// stored, together with the status that the call left behind.
#[derive(Debug)]
pub struct RvIsSize(u32, u32);

impl RvIsSize {
    /// The number of elements that the call stored.
    pub closed spec fn stored(&self) -> u32 {
        self.0
    }

    /// The status that the call left behind.
    pub closed spec fn last_error(&self) -> u32 {
        self.1
    }

    /// Wraps the number of elements that a call stored and the status that
    /// it left behind.
    pub fn new(value: u32, last_error: u32) -> (outcome: Self)
        ensures
            outcome.stored() == value,
            outcome.last_error() == last_error,
    {
        RvIsSize(value, last_error)
    }
}

impl ToResult for RvIsSize {
    open spec fn defined(&self, needed_size: u32) -> bool {
        stored_defined(self.stored(), self.last_error(), needed_size)
    }

    open spec fn action(&self, needed_size: u32) -> FillBufferResult {
        stored_action(self.stored(), self.last_error(), needed_size)
    }

    open spec fn next_size(&self, needed_size: u32) -> u32 {
        stored_next_size(self.stored(), self.last_error(), needed_size)
    }

    fn is_defined(&self, needed_size: u32) -> (defined: bool) {
        self.0 == 0 || self.0 < needed_size || (self.0 == needed_size && self.1
            == error_insufficient_buffer())
    }

    fn to_result<N: NeededSize>(&self, needed_size: &mut N) -> (result: FillBufferResult) {
        let ns = needed_size.needed_size();
        if self.0 == 0 {
            if self.1 == no_error() {
                Ok(FillBufferAction::NoData)
            } else if ns == 0 {
                // The buffer has no room at all: ask for some, and leave it
                // to the strategy to choose how much.
                needed_size.set_needed_size(1);
                Ok(FillBufferAction::Grow)
            } else {
                Err(FillBufferError::Os(self.1))
            }
        } else if self.0 < ns {
            needed_size.set_needed_size(self.0);
            Ok(FillBufferAction::Commit)
        } else {
            let doubled = if self.0 > u32::MAX / 2 {
                u32::MAX
            } else {
                self.0 * 2
            };
            needed_size.set_needed_size(doubled);
            Ok(FillBufferAction::Grow)
        }
    }
}

/// `PWSTR` of the `windows` crate, the pointer to UTF-16 text that calls
/// take. It stands for the unit of such calls, and nothing is known of what
/// a value of it holds.
#[verifier::external_type_specification]
#[verifier::external_body]
pub struct ExPwstr(windows::core::PWSTR);

/// The unit of calls that count in UTF-16 code units.
impl RawToInternal for windows::core::PWSTR {
    open spec fn size_of(capacity: u32) -> u32 {
        capacity / SIZE_OF_WCHAR
    }

    open spec fn capacity_of(size: u32) -> u32 {
        saturating_double(size)
    }

    fn capacity_to_size(value: u32) -> (size: u32) {
        value / SIZE_OF_WCHAR
    }

    fn size_to_capacity(value: u32) -> (capacity: u32) {
        if value > u32::MAX / SIZE_OF_WCHAR {
            u32::MAX
        } else {
            value * SIZE_OF_WCHAR
        }
    }

    proof fn lemma_units(capacity: u32, smaller: u32, larger: u32) {
    }
}

/// The first `count` UTF-16 code units that `bytes` hold, each in two bytes
/// with the low byte first.
pub open spec fn code_units(bytes: Seq<u8>, count: nat) -> Seq<u16> {
    Seq::new(count, |i: int| (bytes[2 * i] as int + 256 * bytes[2 * i + 1] as int) as u16)
}

/// `units` without the terminator at their end, if there is one.
pub open spec fn without_terminator(units: Seq<u16>) -> Seq<u16> {
    if units.len() > 0 && units.last() == 0 {
        units.drop_last()
    } else {
        units
    }
}

/// Whether `units` are the code units of a text.
pub open spec fn is_utf16(units: Seq<u16>) -> bool {
    exists|text: Seq<char>| #[trigger] utf16_of(text) == units
}

/// The text that `units` are the code units of, or nothing where they are
/// those of no text.
pub open spec fn utf16_text(units: Seq<u16>) -> Option<Seq<char>> {
    if is_utf16(units) {
        Some(choose|text: Seq<char>| #[trigger] utf16_of(text) == units)
    } else {
        None
    }
}

/// A text is the text of its code units.
pub proof fn lemma_utf16_text_of_code_units(text: Seq<char>)
    ensures
        utf16_text(utf16_of(text)) == Some(text),
{
    let units = utf16_of(text);
    assert(is_utf16(units));
    lemma_utf16_of_is_injective(choose|other: Seq<char>| #[trigger] utf16_of(other) == units, text);
}

/// Whether a code unit is a surrogate, which is a character only together
/// with its other half.
pub open spec fn is_surrogate(unit: u16) -> bool {
    0xd800 <= unit <= 0xdfff
}

/// Whether two code units are a high surrogate and a low surrogate, which
/// together are one character.
pub open spec fn is_pair(high: u16, low: u16) -> bool {
    0xd800 <= high <= 0xdbff && 0xdc00 <= low <= 0xdfff
}

/// The text that `units` are the code units of, with the replacement
/// character in place of every surrogate that has not its other half with
/// it.
pub open spec fn utf16_text_lossy(units: Seq<u16>) -> Seq<char>
    decreases units.len(),
{
    if units.len() == 0 {
        Seq::empty()
    } else if !is_surrogate(units[0]) {
        seq![units[0] as char] + utf16_text_lossy(units.skip(1))
    } else if units.len() >= 2 && is_pair(units[0], units[1]) {
        seq![(0x1_0000 + (units[0] - 0xd800) * 0x400 + (units[1] - 0xdc00)) as char]
            + utf16_text_lossy(units.skip(2))
    } else {
        seq!['\u{fffd}'] + utf16_text_lossy(units.skip(1))
    }
}

/// `String::from_utf16` of std: decodes `units`, and fails on invalid data.
/// What it returns is a text with `units` as its code units; it fails where
/// there is no such text.
#[verifier::external_body]
fn decode_utf16(units: &Vec<u16>) -> (text: Option<String>)
    ensures
        text matches Some(valid) ==> utf16_of(valid@) == units@,
        text is None ==> !is_utf16(units@),
{
    match String::from_utf16(units) {
        Ok(text) => Some(text),
        Err(_) => None,
    }
}

/// `String::from_utf16_lossy` of std: decodes `units`, and replaces invalid
/// data, which is every surrogate that has not its other half with it, by
/// the replacement character. Where nothing is invalid, nothing is
/// replaced, and `units` are the code units of what it returns.
#[verifier::external_body]
fn decode_utf16_lossy(units: &Vec<u16>) -> (text: String)
    ensures
        text@ == utf16_text_lossy(units@),
        is_utf16(units@) ==> utf16_of(text@) == units@,
{
    String::from_utf16_lossy(units)
}

/// What a text, or the code units in its place, holds.
pub open spec fn text_view(text: Result<String, Vec<u16>>) -> Result<Seq<char>, Seq<u16>> {
    match text {
        Ok(valid) => Ok(valid@),
        Err(units) => Err(units@),
    }
}

impl<'sb, WB: WriteBuffer> FrozenBuffer<'sb, WB> {
    /// The UTF-16 code units that the buffer holds, without a terminator at
    /// their end, where sizes count code units. There are none where nothing
    /// is stored, and none where the buffer has not the bytes for what it
    /// says is stored.
    pub open spec fn wide(&self) -> Option<Seq<u16>> {
        match self.readable() {
            Some(bytes) => if self.stored() > 0 && 2 * self.stored() <= bytes.len() {
                Some(without_terminator(code_units(bytes, self.stored() as nat)))
            } else {
                None
            },
            None => None,
        }
    }

    /// What the buffer holds as text. Nothing stored is the empty text.
    /// Code units of a text are that text. Code units of no text are
    /// replaced as far as they are invalid where `lossy_ok` is set, and are
    /// handed back as they are, in place of a text, where it is not.
    pub open spec fn text(&self, lossy_ok: bool) -> Result<Seq<char>, Seq<u16>> {
        match self.wide() {
            Some(units) => match utf16_text(units) {
                Some(text) => Ok(text),
                None => if lossy_ok {
                    Ok(utf16_text_lossy(units))
                } else {
                    Err(units)
                },
            },
            None => Ok(Seq::empty()),
        }
    }

    /// Returns the UTF-16 code units that the buffer holds, without a
    /// terminator at their end.
    pub fn to_wide(&self) -> (units: Option<Vec<u16>>)
        ensures
            units is Some == self.wide() is Some,
            units is Some ==> units->0@ == self.wide()->0,
    {
        let (pointer, size) = self.read_buffer();
        if size == 0 {
            return None;
        }
        match pointer {
            None => None,
            Some(bytes) => {
                let count = size as usize;
                let length = bytes.len();
                if length / 2 < count {
                    return None;
                }
                let mut units: Vec<u16> = Vec::new();
                let mut i: usize = 0;
                while i < count
                    invariant
                        i <= count,
                        2 * count <= length == bytes@.len(),
                        units@ == code_units(bytes@, i as nat),
                    decreases count - i,
                {
                    let low: u16 = bytes[2 * i] as u16;
                    let high: u16 = bytes[2 * i + 1] as u16;
                    units.push(low + 256 * high);
                    i = i + 1;
                    assert(units@ =~= code_units(bytes@, i as nat));
                }
                if units[count - 1] == 0 {
                    units.pop();
                }
                assert(units@ =~= without_terminator(code_units(bytes@, count as nat)));
                Some(units)
            },
        }
    }

    /// Returns what the buffer holds as text, or the code units themselves
    /// where they are not valid UTF-16 and `lossy_ok` is not set.
    pub fn to_string(&self, lossy_ok: bool) -> (text: Result<String, Vec<u16>>)
        ensures
            text_view(text) == self.text(lossy_ok),
    {
        match self.to_wide() {
            Some(units) => {
                if lossy_ok {
                    let text = decode_utf16_lossy(&units);
                    proof {
                        if is_utf16(units@) {
                            lemma_utf16_text_of_code_units(text@);
                        }
                    }
                    Ok(text)
                } else {
                    match decode_utf16(&units) {
                        Some(text) => {
                            proof {
                                lemma_utf16_text_of_code_units(text@);
                            }
                            Ok(text)
                        },
                        None => Err(units),
                    }
                }
            },
            None => Ok(String::new()),
        }
    }
}

} // verus!
