use vstd::prelude::*;
use vstd::string::StringSliceAdditionalSpecFns;

verus! {

/// The UTF-16 code units of one character: the character itself where it
/// fits into one unit, else a high and a low surrogate.
pub open spec fn utf16_of_char(c: char) -> Seq<u16> {
    let scalar = c as u32;
    if scalar < 0x1_0000 {
        seq![scalar as u16]
    } else {
        seq![
            (0xd800 + (scalar - 0x1_0000) / 0x400) as u16,
            (0xdc00 + (scalar - 0x1_0000) % 0x400) as u16,
        ]
    }
}

/// The UTF-16 code units of a text: those of its characters, one after the
/// other.
pub open spec fn utf16_of(text: Seq<char>) -> Seq<u16>
    decreases text.len(),
{
    if text.len() == 0 {
        Seq::empty()
    } else {
        utf16_of(text.drop_last()) + utf16_of_char(text.last())
    }
}

/// Why a text cannot be handed to a call.
#[derive(Debug, Clone, Copy, PartialEq, Eq, Structural)]
pub enum WindowsStringError {
    /// The text holds a NUL, which would end it early.
    InteriorNul,
}

/// No two texts have the same code units.
pub proof fn lemma_utf16_of_is_injective(a: Seq<char>, b: Seq<char>)
    requires
        utf16_of(a) == utf16_of(b),
    ensures
        a == b,
    decreases a.len(),
{
    if a.len() == 0 {
        if b.len() > 0 {
            vstd::utf8::char_is_scalar(b.last());
            assert(utf16_of(b).len() > 0);
        }
        assert(a =~= b);
    } else if b.len() == 0 {
        vstd::utf8::char_is_scalar(a.last());
        assert(utf16_of(a).len() > 0);
    } else {
        let first = a.last();
        let second = b.last();
        let units = utf16_of(a);
        let front_a = utf16_of(a.drop_last());
        let front_b = utf16_of(b.drop_last());
        vstd::utf8::char_is_scalar(first);
        vstd::utf8::char_is_scalar(second);
        assert(units == front_a + utf16_of_char(first));
        assert(units == front_b + utf16_of_char(second));
        // The last code unit tells whether the last character takes one
        // code unit or two: only the second of two is a low surrogate.
        let last = units.last();
        assert(last == utf16_of_char(first).last());
        assert(last == utf16_of_char(second).last());
        assert((first as u32) < 0x1_0000 <==> !(0xdc00 <= last <= 0xdfff));
        assert((second as u32) < 0x1_0000 <==> !(0xdc00 <= last <= 0xdfff));
        if (first as u32) < 0x1_0000 {
            assert(first as u32 == second as u32);
            assert(front_a =~= units.drop_last());
            assert(front_b =~= units.drop_last());
        } else {
            let high = units[units.len() - 2];
            assert(high == utf16_of_char(first)[0]);
            assert(high == utf16_of_char(second)[0]);
            assert(first as u32 == second as u32);
            assert(front_a =~= units.take(units.len() - 2));
            assert(front_b =~= units.take(units.len() - 2));
        }
        vstd::utf8::char_u32_cast(first, first as u32);
        vstd::utf8::char_u32_cast(second, second as u32);
        assert(first == second);
        lemma_utf16_of_is_injective(a.drop_last(), b.drop_last());
        assert(a =~= a.drop_last().push(first));
        assert(b =~= b.drop_last().push(second));
    }
}

/// The code units of a text as a call takes them: with a terminator at
/// their end.
pub open spec fn terminated(text: Seq<char>) -> Seq<u16> {
    utf16_of(text).push(0u16)
}

/// Whether a text holds a NUL.
pub open spec fn has_nul(text: Seq<char>) -> bool {
    exists|i: int| 0 <= i < text.len() && text[i] == '\0'
}

/// The code units of a text without a NUL are none of them zero, so that the
/// terminator is where the first zero is.
pub proof fn law_terminator_is_first_zero(text: Seq<char>)
    requires
        !has_nul(text),
    ensures
        forall|i: int| 0 <= i < utf16_of(text).len() ==> #[trigger] utf16_of(text)[i] != 0,
        terminated(text).last() == 0,
    decreases text.len(),
{
    if text.len() > 0 {
        let front = text.drop_last();
        assert forall|i: int| 0 <= i < front.len() implies front[i] != '\0' by {
            assert(text[i] == front[i]);
        }
        law_terminator_is_first_zero(front);
        let last = text.last();
        assert(last == text[text.len() - 1]);
        assert(last != '\0');
        vstd::utf8::char_is_scalar(last);
        if last as u32 == 0 {
            vstd::utf8::char_u32_cast(last, 0u32);
            vstd::utf8::char_u32_cast('\0', 0u32);
        }
        assert(last as u32 != 0);
        let units = utf16_of_char(last);
        assert(forall|j: int| 0 <= j < units.len() ==> units[j] != 0);
        assert forall|i: int| 0 <= i < utf16_of(text).len() implies #[trigger] utf16_of(text)[i]
            != 0 by {
            if i >= utf16_of(front).len() {
                assert(utf16_of(text)[i] == units[i - utf16_of(front).len()]);
            } else {
                assert(utf16_of(text)[i] == utf16_of(front)[i]);
            }
        }
    }
}

/// A text with one more character at its end has the bytes of that character
/// more.
pub proof fn lemma_bytes_of_push(text: Seq<char>, c: char)
    ensures
        vstd::utf8::encode_utf8(text.push(c)).len() == vstd::utf8::encode_utf8(text).len()
            + vstd::utf8::encode_scalar(c as u32).len(),
    decreases text.len(),
{
    if text.len() == 0 {
        assert(text.push(c).drop_first() == Seq::<char>::empty());
        assert(vstd::utf8::encode_utf8(Seq::<char>::empty()).len() == 0);
    } else {
        assert(text.push(c).drop_first() == text.drop_first().push(c));
        lemma_bytes_of_push(text.drop_first(), c);
    }
}

/// A text never takes more UTF-16 code units than it takes bytes in UTF-8.
pub proof fn lemma_code_units_fit_bytes(text: Seq<char>)
    ensures
        utf16_of(text).len() <= vstd::utf8::encode_utf8(text).len(),
    decreases text.len(),
{
    if text.len() > 0 {
        let front = text.drop_last();
        let last = text.last();
        lemma_code_units_fit_bytes(front);
        assert(text == front.push(last));
        lemma_bytes_of_push(front, last);
        vstd::utf8::char_is_scalar(last);
    }
}

/// The first characters of a text never take more bytes than the whole of
/// it.
pub proof fn lemma_prefix_has_fewer_bytes(text: Seq<char>, count: int)
    requires
        0 <= count <= text.len(),
    ensures
        vstd::utf8::encode_utf8(text.take(count)).len() <= vstd::utf8::encode_utf8(text).len(),
    decreases text.len() - count,
{
    if count < text.len() {
        lemma_prefix_has_fewer_bytes(text, count + 1);
        assert(text.take(count + 1) == text.take(count).push(text[count]));
        lemma_bytes_of_push(text.take(count), text[count]);
    } else {
        assert(text.take(count) == text);
    }
}

/// Returns the terminated code units of `s`, or an error where `s` holds a
/// NUL.
fn encode_terminated(s: &str) -> (result: Result<Vec<u16>, WindowsStringError>)
    ensures
        result is Err <==> has_nul(s@),
        result matches Ok(units) ==> units@ == terminated(s@),
{
    broadcast use vstd::string::group_string_axioms;

    let mut units: Vec<u16> = Vec::new();
    for c in it: s.chars()
        invariant
            it.seq() == s@,
            units@ == utf16_of(s@.take(it.index() as int)),
            forall|i: int| 0 <= i < it.index() ==> s@[i] != '\0',
    {
        assert(c == s@[it.index() as int]);
        assert(s@.take(it.index() + 1).drop_last() == s@.take(it.index() as int));
        assert(s@.take(it.index() + 1).last() == c);
        proof {
            vstd::utf8::char_is_scalar(c);
        }
        if c == '\0' {
            return Err(WindowsStringError::InteriorNul);
        }
        let scalar = c as u32;
        if scalar < 0x1_0000 {
            units.push(scalar as u16);
        } else {
            units.push((0xd800 + (scalar - 0x1_0000) / 0x400) as u16);
            units.push((0xdc00 + (scalar - 0x1_0000) % 0x400) as u16);
        }
        assert(units@ == utf16_of(s@.take(it.index() as int)) + utf16_of_char(c));
    }
    assert(s@.take(s@.len() as int) == s@);
    units.push(0);
    Ok(units)
}

/// A text as UTF-16 code units with a terminator at their end, ready to be
/// handed to a call. The code units are kept in place where the text is
/// short enough for `STACK_BUFFER_SIZE` of them, and on the heap where it is
/// not.
pub struct WindowsString<const STACK_BUFFER_SIZE: usize> {
    heap: Option<Vec<u16>>,
    stack: [u16; STACK_BUFFER_SIZE],
    stored: usize,
}

impl<const STACK_BUFFER_SIZE: usize> WindowsString<STACK_BUFFER_SIZE> {
    #[verifier::type_invariant]
    spec fn inv(&self) -> bool {
        self.heap is None ==> self.stored <= STACK_BUFFER_SIZE
    }

    /// The code units of the text, with their terminator.
    pub closed spec fn wide(&self) -> Seq<u16> {
        match self.heap {
            Some(units) => units@,
            None => self.stack@.take(self.stored as int),
        }
    }

    /// Whether the code units are kept on the heap.
    pub closed spec fn on_heap(&self) -> bool {
        self.heap is Some
    }

    /// Converts `s` to terminated UTF-16 code units. They are kept in place
    /// where `s` has fewer bytes than there is room for code units, and on
    /// the heap where it has not.
    ///
    /// Returns an error where `s` holds a NUL.
    pub fn new(s: &str) -> (result: Result<Self, WindowsStringError>)
        ensures
            result is Err <==> has_nul(s@),
            result matches Ok(string) ==> string.wide() == terminated(s@),
            result matches Ok(string) ==> (string.on_heap() <==> s.spec_bytes().len()
                >= STACK_BUFFER_SIZE),
            result matches Ok(string) ==> (!string.on_heap() ==> terminated(s@).len()
                <= STACK_BUFFER_SIZE),
    {
        broadcast use vstd::string::group_string_axioms;

        let mut stack = [0u16; STACK_BUFFER_SIZE];
        let bytes = s.as_bytes().len();
        if bytes < STACK_BUFFER_SIZE {
            // A character never takes more code units than it takes bytes,
            // so there is room in place for all of them and the terminator.
            let mut stored: usize = 0;
            for c in it: s.chars()
                invariant
                    it.seq() == s@,
                    bytes == s.spec_bytes().len(),
                    bytes < STACK_BUFFER_SIZE,
                    stored <= bytes,
                    stored == utf16_of(s@.take(it.index() as int)).len(),
                    stack@.take(stored as int) == utf16_of(s@.take(it.index() as int)),
                    forall|i: int| 0 <= i < it.index() ==> s@[i] != '\0',
            {
                assert(c == s@[it.index() as int]);
                assert(s@.take(it.index() + 1).drop_last() == s@.take(it.index() as int));
                assert(s@.take(it.index() + 1).last() == c);
                proof {
                    vstd::utf8::char_is_scalar(c);
                    lemma_code_units_fit_bytes(s@.take(it.index() + 1));
                    lemma_prefix_has_fewer_bytes(s@, it.index() + 1);
                }
                if c == '\0' {
                    return Err(WindowsStringError::InteriorNul);
                }
                let scalar = c as u32;
                let ghost before = stack@;
                if scalar < 0x1_0000 {
                    stack[stored] = scalar as u16;
                    stored = stored + 1;
                    assert(stack@.take(stored as int) == before.take(stored - 1) + utf16_of_char(
                        c,
                    ));
                } else {
                    stack[stored] = (0xd800 + (scalar - 0x1_0000) / 0x400) as u16;
                    stack[stored + 1] = (0xdc00 + (scalar - 0x1_0000) % 0x400) as u16;
                    stored = stored + 2;
                    assert(stack@.take(stored as int) == before.take(stored - 2) + utf16_of_char(
                        c,
                    ));
                }
            }
            assert(s@.take(s@.len() as int) == s@);
            let ghost before = stack@;
            stack[stored] = 0;
            assert(stack@.take(stored + 1) == before.take(stored as int).push(0u16));
            return Ok(Self { heap: None, stack, stored: stored + 1 });
        }
        match encode_terminated(s) {
            Ok(units) => Ok(Self { heap: Some(units), stack, stored: 0 }),
            Err(error) => Err(error),
        }
    }

    /// Takes `units` as the code units of a text and adds the terminator.
    ///
    /// Returns an error where one of `units` is zero.
    pub fn from_wide(units: &[u16]) -> (result: Result<Self, WindowsStringError>)
        ensures
            result is Err <==> units@.contains(0u16),
            result matches Ok(string) ==> string.wide() == units@.push(0u16),
            result matches Ok(string) ==> (string.on_heap() <==> units@.len()
                >= STACK_BUFFER_SIZE),
    {
        let mut stack = [0u16; STACK_BUFFER_SIZE];
        let mut heap: Vec<u16> = Vec::new();
        let in_place = units.len() < STACK_BUFFER_SIZE;
        let mut i: usize = 0;
        while i < units.len()
            invariant
                i <= units@.len(),
                in_place == (units@.len() < STACK_BUFFER_SIZE),
                in_place ==> stack@.take(i as int) == units@.take(i as int),
                !in_place ==> heap@ == units@.take(i as int),
                forall|j: int| 0 <= j < i ==> units@[j] != 0,
            decreases units@.len() - i,
        {
            let unit = units[i];
            if unit == 0 {
                return Err(WindowsStringError::InteriorNul);
            }
            if in_place {
                let ghost before = stack@;
                stack[i] = unit;
                assert(stack@.take(i + 1) == before.take(i as int).push(unit));
            } else {
                heap.push(unit);
            }
            assert(units@.take(i + 1) == units@.take(i as int).push(unit));
            i = i + 1;
        }
        assert(units@.take(units@.len() as int) == units@);
        assert(!units@.contains(0u16));
        if in_place {
            let ghost before = stack@;
            stack[i] = 0;
            assert(stack@.take(i + 1) == before.take(i as int).push(0u16));
            Ok(Self { heap: None, stack, stored: i + 1 })
        } else {
            heap.push(0);
            Ok(Self { heap: Some(heap), stack, stored: 0 })
        }
    }

    /// Returns the code units of the text, with their terminator.
    pub fn as_wide(&self) -> (units: &[u16])
        ensures
            units@ == self.wide(),
    {
        proof {
            use_type_invariant(self);
        }
        match &self.heap {
            Some(units) => units.as_slice(),
            None => {
                let (units, _) = self.stack.as_slice().split_at(self.stored);
                units
            },
        }
    }
}

/// A text as terminated UTF-16 code units, with room in place for a file
/// system path of the classic maximum length.
pub struct WindowsPathString {}

impl WindowsPathString {
    /// Converts `s` to terminated UTF-16 code units.
    ///
    /// Returns an error where `s` holds a NUL.
    pub fn new(s: &str) -> (result: Result<WindowsString<260>, WindowsStringError>)
        ensures
            result is Err <==> has_nul(s@),
            result matches Ok(string) ==> string.wide() == terminated(s@),
            result matches Ok(string) ==> (string.on_heap() <==> s.spec_bytes().len() >= 260),
    {
        WindowsString::<260>::new(s)
    }
}

} // verus!
