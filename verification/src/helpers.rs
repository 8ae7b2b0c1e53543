//! Wide strings: the UTF-16 text that the wallpaper provider hands out and
//! takes, held as owned code units and converted to and from `String` here.

use vstd::prelude::*;

verus! {

/// An owned copy of a provider string: UTF-16 code units in a buffer that a
/// NUL unit may end. A buffer without units stands for the null string.
#[derive(Debug, PartialEq, Eq)]
pub struct WideString {
    pub units: Vec<u16>,
}

impl View for WideString {
    type V = Seq<u16>;

    open spec fn view(&self) -> Seq<u16> {
        self.units@
    }
}

/// Index of the first NUL unit, or the length where there is none.
pub open spec fn nul_position(units: Seq<u16>) -> nat
    decreases units.len(),
{
    if units.len() == 0 || units[0] == 0 {
        0
    } else {
        1 + nul_position(units.skip(1))
    }
}

/// The units that make up the text: all that come before the first NUL.
pub open spec fn wide_text(units: Seq<u16>) -> Seq<u16> {
    units.take(nul_position(units) as int)
}

pub open spec fn is_high_surrogate(unit: u16) -> bool {
    0xD800 <= unit <= 0xDBFF
}

pub open spec fn is_low_surrogate(unit: u16) -> bool {
    0xDC00 <= unit <= 0xDFFF
}

pub open spec fn is_surrogate(unit: u16) -> bool {
    0xD800 <= unit <= 0xDFFF
}

/// The code point that a surrogate pair stands for.
pub open spec fn surrogate_pair_value(high: u16, low: u16) -> int {
    0x10000 + (high - 0xD800) * 0x400 + (low - 0xDC00)
}

/// Puts `first` in front of a decoded rest, where there is one.
pub open spec fn decoded_after(first: char, rest: Option<Seq<char>>) -> Option<Seq<char>> {
    match rest {
        Some(tail) => Some(seq![first] + tail),
        None => None,
    }
}

/// UTF-16 decoding: a unit outside the surrogate range is its own code
/// point, a high surrogate followed by a low one is a pair, and any other
/// surrogate makes the whole sequence undecodable.
pub open spec fn utf16_decode(units: Seq<u16>) -> Option<Seq<char>>
    decreases units.len(),
{
    if units.len() == 0 {
        Some(Seq::empty())
    } else if !is_surrogate(units[0]) {
        decoded_after(units[0] as char, utf16_decode(units.skip(1)))
    } else if is_high_surrogate(units[0]) && units.len() >= 2 && is_low_surrogate(units[1]) {
        decoded_after(
            surrogate_pair_value(units[0], units[1]) as char,
            utf16_decode(units.skip(2)),
        )
    } else {
        None
    }
}

/// The one or two units that encode `c`.
pub open spec fn utf16_encode_char(c: char) -> Seq<u16> {
    if (c as u32) < 0x10000 {
        seq![(c as u32) as u16]
    } else {
        seq![
            (0xD800 + ((c as u32) - 0x10000) / 0x400) as u16,
            (0xDC00 + ((c as u32) - 0x10000) % 0x400) as u16,
        ]
    }
}

/// UTF-16 encoding of a text, character by character.
pub open spec fn utf16_encode(text: Seq<char>) -> Seq<u16>
    decreases text.len(),
{
    if text.len() == 0 {
        Seq::empty()
    } else {
        utf16_encode_char(text[0]) + utf16_encode(text.skip(1))
    }
}

/// The view of an optional string.
pub open spec fn text_of(text: Option<String>) -> Option<Seq<char>> {
    match text {
        Some(s) => Some(s@),
        None => None,
    }
}

/// `char::from_u32`: a scalar value, which is any code point outside the
/// surrogate range and not above 0x10FFFF, gives that character; every other
/// number gives `None`.
#[verifier::external_body]
fn char_from_u32(value: u32) -> (c: Option<char>)
    ensures
        c == (if value <= 0xD7FF || 0xE000 <= value <= 0x10FFFF {
            Some(value as char)
        } else {
            None::<char>
        }),
{
    char::from_u32(value)
}

/// `String::push`: the character is appended to the end of the string.
#[verifier::external_body]
fn push_char(text: &mut String, c: char)
    ensures
        final(text)@ == old(text)@.push(c),
{
    text.push(c)
}

/// Counts the units before the first NUL.
pub fn text_len(units: &[u16]) -> (len: usize)
    ensures
        len == nul_position(units@),
        len <= units.len(),
{
    let mut i: usize = 0;
    assert(units@.skip(0) =~= units@);
    while i < units.len() && units[i] != 0
        invariant
            i <= units.len(),
            nul_position(units@) == i + nul_position(units@.skip(i as int)),
        decreases units.len() - i,
    {
        assert(units@.skip(i as int).skip(1) =~= units@.skip(i + 1));
        i += 1;
    }
    i
}

/// Decodes UTF-16 units into a string; `None` where a surrogate stands alone.
pub fn decode_utf16(units: &[u16]) -> (text: Option<String>)
    ensures
        text_of(text) == utf16_decode(units@),
{
    let mut out = String::new();
    let mut i: usize = 0;
    proof {
        assert(units@.skip(0) =~= units@);
        assert forall|tail: Seq<char>| out@ + tail =~= tail by {}
    }
    while i < units.len()
        invariant
            i <= units.len(),
            utf16_decode(units@) == match utf16_decode(units@.skip(i as int)) {
                Some(rest) => Some(out@ + rest),
                None => None,
            },
        decreases units.len() - i,
    {
        let ghost rest = units@.skip(i as int);
        let unit = units[i];
        if unit < 0xD800 || unit > 0xDFFF {
            match char_from_u32(unit as u32) {
                Some(c) => {
                    proof {
                        assert(rest.skip(1) =~= units@.skip(i + 1));
                        assert forall|tail: Seq<char>| out@.push(c) + tail =~= out@ + (seq![c] + tail) by {}
                    }
                    push_char(&mut out, c);
                    i += 1;
                },
                None => {
                    return None;
                },
            }
        } else if unit <= 0xDBFF && i + 1 < units.len() && 0xDC00 <= units[i + 1] && units[i + 1]
            <= 0xDFFF {
            let low = units[i + 1];
            let value: u32 = 0x10000 + (unit - 0xD800) as u32 * 0x400 + (low - 0xDC00) as u32;
            match char_from_u32(value) {
                Some(c) => {
                    proof {
                        assert(rest.skip(2) =~= units@.skip(i + 2));
                        assert forall|tail: Seq<char>| out@.push(c) + tail =~= out@ + (seq![c] + tail) by {}
                    }
                    push_char(&mut out, c);
                    i += 2;
                },
                None => {
                    return None;
                },
            }
        } else {
            return None;
        }
    }
    assert(out@ + Seq::<char>::empty() =~= out@);
    Some(out)
}

/// Encodes a text as UTF-16 units, without a terminator.
pub fn encode_utf16(text: &str) -> (units: Vec<u16>)
    ensures
        units@ == utf16_encode(text@),
{
    let mut units: Vec<u16> = Vec::new();
    proof {
        assert(text@.skip(0) =~= text@);
        assert(units@ + utf16_encode(text@) =~= utf16_encode(text@));
    }
    for c in it: text.chars()
        invariant
            it.seq() == text@,
            units@ + utf16_encode(text@.skip(it.index())) == utf16_encode(text@),
    {
        let ghost before = units@;
        let ghost rest = utf16_encode(text@.skip(it.index() + 1));
        let value: u32 = c as u32;
        proof {
            assert(text@.skip(it.index()).skip(1) =~= text@.skip(it.index() + 1));
        }
        if value < 0x10000 {
            units.push(value as u16);
        } else {
            units.push((0xD800 + (value - 0x10000) / 0x400) as u16);
            units.push((0xDC00 + (value - 0x10000) % 0x400) as u16);
        }
        assert(units@ + rest =~= before + (utf16_encode_char(c) + rest));
    }
    assert(units@ + Seq::<u16>::empty() =~= units@);
    units
}

impl WideString {
    /// The text that the buffer holds: its units up to the first NUL,
    /// decoded. `None` where they do not decode.
    pub open spec fn text(&self) -> Option<Seq<char>> {
        utf16_decode(wide_text(self@))
    }

    /// Reads the buffer as text; `None` where a surrogate stands alone
    /// before the first NUL.
    pub fn to_text(&self) -> (text: Option<String>)
        ensures
            text_of(text) == self.text(),
    {
        let units = self.units.as_slice();
        let len = text_len(units);
        decode_utf16(&units[0..len])
    }

    /// A copy that is fit to hand to the provider: the units of the text,
    /// then one NUL.
    pub fn to_terminated(&self) -> (wide: WideString)
        ensures
            wide@ == wide_text(self@) + seq![0u16],
    {
        let source = self.units.as_slice();
        let len = text_len(source);
        let mut units: Vec<u16> = Vec::new();
        let mut i: usize = 0;
        while i < len
            invariant
                i <= len <= source.len(),
                units@ == source@.take(i as int),
            decreases len - i,
        {
            units.push(source[i]);
            assert(units@ =~= source@.take(i + 1));
            i += 1;
        }
        units.push(0);
        WideString { units }
    }
}

/// Conversion of a provider string into owned text.
pub trait IntoString: Sized {
    /// The text that the value holds, where it holds one.
    spec fn held_text(self) -> Option<Seq<char>>;

    /// The held text as a `String`.
    fn into_string(self) -> (text: String)
        requires
            self.held_text() is Some,
        ensures
            self.held_text() == Some(text@),
    ;
}

impl IntoString for WideString {
    open spec fn held_text(self) -> Option<Seq<char>> {
        self.text()
    }

    fn into_string(self) -> (text: String) {
        if self.units.len() == 0 {
            String::new()
        } else {
            self.to_text().unwrap()
        }
    }
}

/// Conversion of text into a wide string that the provider may write to.
pub trait IntoPWSTR: Sized {
    /// The units of the wide string that the value converts to.
    spec fn wide_units(self) -> Seq<u16>;

    /// The value as a NUL-terminated wide string.
    fn into_pwstr(self) -> (wide: WideString)
        ensures
            wide@ == self.wide_units(),
    ;
}

/// Conversion of text into a wide string that the provider only reads.
pub trait IntoPCWSTR: Sized {
    /// The units of the wide string that the value converts to.
    spec fn const_wide_units(self) -> Seq<u16>;

    /// The value as a NUL-terminated wide string.
    fn into_pcwstr(self) -> (wide: WideString)
        ensures
            wide@ == self.const_wide_units(),
    ;
}

/// Encodes `text` and appends the terminator.
fn encode_terminated(text: &str) -> (wide: WideString)
    ensures
        wide@ == terminated(text@),
{
    let mut units = encode_utf16(text);
    units.push(0);
    WideString { units }
}

impl IntoPWSTR for String {
    open spec fn wide_units(self) -> Seq<u16> {
        terminated(self@)
    }

    fn into_pwstr(self) -> (wide: WideString) {
        encode_terminated(self.as_str())
    }
}

impl IntoPCWSTR for String {
    open spec fn const_wide_units(self) -> Seq<u16> {
        terminated(self@)
    }

    fn into_pcwstr(self) -> (wide: WideString) {
        encode_terminated(self.as_str())
    }
}

impl IntoPWSTR for &str {
    open spec fn wide_units(self) -> Seq<u16> {
        terminated(self@)
    }

    fn into_pwstr(self) -> (wide: WideString) {
        encode_terminated(self)
    }
}

impl IntoPCWSTR for &str {
    open spec fn const_wide_units(self) -> Seq<u16> {
        terminated(self@)
    }

    fn into_pcwstr(self) -> (wide: WideString) {
        encode_terminated(self)
    }
}

/// A text without the NUL character.
pub open spec fn nul_free(text: Seq<char>) -> bool {
    forall|i: int| 0 <= i < text.len() ==> text[i] as u32 != 0
}

/// The units of `text` followed by the NUL terminator.
pub open spec fn terminated(text: Seq<char>) -> Seq<u16> {
    utf16_encode(text) + seq![0u16]
}

/// The two units of a character above the basic plane are a high and a low
/// surrogate that stand for its code point.
pub proof fn lemma_encode_pair(c: char)
    requires
        c as u32 >= 0x10000,
    ensures
        utf16_encode_char(c).len() == 2,
        is_high_surrogate(utf16_encode_char(c)[0]),
        is_low_surrogate(utf16_encode_char(c)[1]),
        surrogate_pair_value(utf16_encode_char(c)[0], utf16_encode_char(c)[1]) == c as u32,
{
    vstd::utf8::char_is_scalar(c);
    let offset = (c as u32) - 0x10000;
    assert(0 <= offset <= 0xFFFFF);
    assert(0 <= offset / 0x400 <= 0x3FF);
    assert(0 <= offset % 0x400 <= 0x3FF);
    assert(offset == (offset / 0x400) * 0x400 + offset % 0x400);
}

/// Decoding an encoded text gives the text back.
pub proof fn lemma_decode_encode(text: Seq<char>)
    ensures
        utf16_decode(utf16_encode(text)) == Some(text),
    decreases text.len(),
{
    if text.len() == 0 {
        assert(text =~= Seq::empty());
    } else {
        let c = text[0];
        let rest = text.skip(1);
        let tail = utf16_encode(rest);
        let units = utf16_encode(text);
        lemma_decode_encode(rest);
        assert(seq![c] + rest =~= text);
        let head = utf16_encode_char(c);
        assert(units == head + tail);
        vstd::utf8::char_is_scalar(c);
        if (c as u32) < 0x10000 {
            assert(units[0] == head[0]);
            assert(units.skip(1) =~= tail);
            vstd::utf8::char_u32_cast(c, c as u32);
            assert(units[0] as char == c);
        } else {
            lemma_encode_pair(c);
            assert(units[0] == head[0] && units[1] == head[1]);
            assert(units.skip(2) =~= tail);
            vstd::utf8::char_u32_cast(c, c as u32);
            assert(surrogate_pair_value(units[0], units[1]) as char == c);
        }
    }
}

/// Encoding a text without NUL characters produces no NUL unit.
pub proof fn lemma_encode_nul_free(text: Seq<char>)
    requires
        nul_free(text),
    ensures
        forall|i: int| 0 <= i < utf16_encode(text).len() ==> utf16_encode(text)[i] != 0,
    decreases text.len(),
{
    if text.len() > 0 {
        let rest = text.skip(1);
        assert(nul_free(rest)) by {
            assert forall|i: int| 0 <= i < rest.len() implies rest[i] as u32 != 0 by {
                assert(rest[i] == text[i + 1]);
            }
        }
        lemma_encode_nul_free(rest);
        let head = utf16_encode_char(text[0]);
        let tail = utf16_encode(rest);
        vstd::utf8::char_is_scalar(text[0]);
        if text[0] as u32 >= 0x10000 {
            lemma_encode_pair(text[0]);
        }
        assert(forall|i: int| 0 <= i < head.len() ==> head[i] != 0);
        assert forall|i: int| 0 <= i < utf16_encode(text).len() implies utf16_encode(text)[i]
            != 0 by {
            if i < head.len() {
                assert((head + tail)[i] == head[i]);
            } else {
                assert((head + tail)[i] == tail[i - head.len()]);
            }
        }
    }
}

/// Where no unit of `units` is NUL, the text of `units` followed by a NUL
/// and anything after it is `units`.
pub proof fn lemma_text_before_terminator(units: Seq<u16>, after: Seq<u16>)
    requires
        forall|i: int| 0 <= i < units.len() ==> units[i] != 0,
    ensures
        nul_position(units + seq![0u16] + after) == units.len(),
        wide_text(units + seq![0u16] + after) == units,
    decreases units.len(),
{
    let whole = units + seq![0u16] + after;
    if units.len() == 0 {
        assert(whole[0] == 0);
        assert(whole.take(0) =~= units);
    } else {
        let rest = units.skip(1);
        assert(whole[0] == units[0]);
        assert(whole.skip(1) =~= rest + seq![0u16] + after);
        assert forall|i: int| 0 <= i < rest.len() implies rest[i] != 0 by {
            assert(rest[i] == units[i + 1]);
        }
        lemma_text_before_terminator(rest, after);
        assert(nul_position(whole) == units.len());
        assert(whole.take(units.len() as int) =~= units);
    }
}

/// The text of a buffer lies within the buffer and holds no NUL.
pub proof fn lemma_text_nul_free(units: Seq<u16>)
    ensures
        nul_position(units) <= units.len(),
        wide_text(units).len() == nul_position(units),
        forall|i: int| 0 <= i < wide_text(units).len() ==> wide_text(units)[i] != 0,
    decreases units.len(),
{
    if units.len() > 0 && units[0] != 0 {
        let rest = units.skip(1);
        lemma_text_nul_free(rest);
        assert forall|i: int| 0 <= i < wide_text(units).len() implies wide_text(units)[i]
            != 0 by {
            if i > 0 {
                assert(wide_text(units)[i] == wide_text(rest)[i - 1]);
            }
        }
    }
}

/// Terminating the text of a buffer does not change the text.
pub proof fn lemma_terminated_text(units: Seq<u16>)
    ensures
        wide_text(wide_text(units) + seq![0u16]) == wide_text(units),
{
    lemma_text_nul_free(units);
    lemma_text_before_terminator(wide_text(units), Seq::empty());
    assert(wide_text(units) + seq![0u16] + Seq::<u16>::empty() =~= wide_text(units) + seq![0u16]);
}

/// A text without NUL characters, encoded and terminated, reads back as
/// itself.
pub proof fn lemma_wide_round_trip(text: Seq<char>)
    requires
        nul_free(text),
    ensures
        utf16_decode(wide_text(terminated(text))) == Some(text),
{
    lemma_encode_nul_free(text);
    lemma_text_before_terminator(utf16_encode(text), Seq::empty());
    assert(utf16_encode(text) + seq![0u16] + Seq::<u16>::empty() =~= terminated(text));
    lemma_decode_encode(text);
}

} // verus!
