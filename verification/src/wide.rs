//! UTF-16 text, as the Windows interfaces take and give it.

use vstd::prelude::*;

verus! {

/// `char::from_u32` gives the character with the given code, or nothing if there is none: codes
/// end at 10FFFF (hexadecimal), and those from D800 to DFFF belong to no character.
pub assume_specification[ char::from_u32 ](code: u32) -> (c: Option<char>)
    ensures
        c == (if code < 0xD800 || 0xE000 <= code <= 0x10FFFF {
            Some(code as char)
        } else {
            None
        }),
;

/// The UTF-16 code units of a character.
pub open spec fn utf16_units(c: char) -> Seq<u16> {
    let code = c as int;
    if code < 0x10000 {
        seq![code as u16]
    } else {
        seq![
            (0xD800 + (code - 0x10000) / 0x400) as u16,
            (0xDC00 + (code - 0x10000) % 0x400) as u16,
        ]
    }
}

/// The UTF-16 code units of a text.
pub open spec fn utf16(s: Seq<char>) -> Seq<u16>
    decreases s.len(),
{
    if s.len() == 0 {
        Seq::empty()
    } else {
        utf16(s.drop_last()) + utf16_units(s.last())
    }
}

/// The UTF-16 code units of a text with a terminating zero.
pub open spec fn wide_null(s: Seq<char>) -> Seq<u16> {
    utf16(s).push(0)
}

/// Whether a code unit is the first half of a pair.
pub open spec fn is_high_surrogate(u: u16) -> bool {
    0xD800 <= u < 0xDC00
}

/// Whether a code unit is the second half of a pair.
pub open spec fn is_low_surrogate(u: u16) -> bool {
    0xDC00 <= u < 0xE000
}

/// Whether the text's next character takes two code units.
pub open spec fn starts_with_pair(units: Seq<u16>) -> bool {
    units.len() >= 2 && is_high_surrogate(units[0]) && is_low_surrogate(units[1])
}

/// The text's next character. Half a pair alone gives the replacement character.
pub open spec fn first_char(units: Seq<u16>) -> char {
    if starts_with_pair(units) {
        (0x10000 + (units[0] - 0xD800) * 0x400 + (units[1] - 0xDC00)) as char
    } else if is_high_surrogate(units[0]) || is_low_surrogate(units[0]) {
        0xFFFD as char
    } else {
        units[0] as char
    }
}

/// The text that UTF-16 code units stand for.
pub open spec fn utf16_text(units: Seq<u16>) -> Seq<char>
    decreases units.len(),
{
    if units.len() == 0 {
        Seq::empty()
    } else if starts_with_pair(units) {
        seq![first_char(units)] + utf16_text(units.skip(2))
    } else {
        seq![first_char(units)] + utf16_text(units.skip(1))
    }
}

proof fn lemma_utf16_front(s: Seq<char>)
    requires
        s.len() > 0,
    ensures
        utf16(s) == utf16_units(s[0]) + utf16(s.skip(1)),
    decreases s.len(),
{
    if s.len() == 1 {
        assert(s.drop_last() =~= Seq::<char>::empty());
        assert(s.skip(1) =~= Seq::<char>::empty());
        assert(utf16(s) =~= utf16_units(s[0]));
        assert(utf16_units(s[0]) + utf16(s.skip(1)) =~= utf16_units(s[0]));
    } else {
        lemma_utf16_front(s.drop_last());
        assert(s.drop_last().skip(1) =~= s.skip(1).drop_last());
        assert(s.skip(1).last() == s.last());
        assert(utf16(s) =~= utf16_units(s[0]) + utf16(s.skip(1)));
    }
}

proof fn lemma_units_of_char(c: char)
    ensures
        utf16_units(c).len() == 1 ==> !is_high_surrogate(utf16_units(c)[0]) && !is_low_surrogate(
            utf16_units(c)[0],
        ) && utf16_units(c)[0] as char == c,
        utf16_units(c).len() != 1 ==> utf16_units(c).len() == 2 && is_high_surrogate(
            utf16_units(c)[0],
        ) && is_low_surrogate(utf16_units(c)[1]) && (0x10000 + (utf16_units(c)[0] - 0xD800) * 0x400
            + (utf16_units(c)[1] - 0xDC00)) as char == c,
{
    let code = c as int;
    if code >= 0x10000 {
        let h = (code - 0x10000) / 0x400;
        let l = (code - 0x10000) % 0x400;
        assert(0 <= h < 0x400);
        assert(h * 0x400 + l == code - 0x10000);
    }
}

/// Decoding the UTF-16 form of a text gives the text back.
pub proof fn utf16_reads_back(s: Seq<char>)
    ensures
        utf16_text(utf16(s)) == s,
    decreases s.len(),
{
    if s.len() > 0 {
        lemma_utf16_front(s);
        utf16_reads_back(s.skip(1));
        let units = utf16(s);
        let first = utf16_units(s[0]);
        lemma_units_of_char(s[0]);
        assert(units[0] == first[0]);
        if first.len() == 2 {
            assert(units[1] == first[1]);
            assert(starts_with_pair(units));
            assert(units.skip(2) =~= utf16(s.skip(1)));
        } else {
            assert(!is_high_surrogate(units[0]) && !is_low_surrogate(units[0]));
            assert(units.skip(1) =~= utf16(s.skip(1)));
        }
        assert(seq![s[0]] + s.skip(1) =~= s);
    }
}

/// Appends the UTF-16 code units of a character.
fn push_units(units: &mut Vec<u16>, c: char)
    ensures
        final(units)@ == old(units)@ + utf16_units(c),
{
    let code: u32 = c as u32;
    if code < 0x10000 {
        units.push(code as u16);
    } else {
        units.push((0xD800 + (code - 0x10000) / 0x400) as u16);
        units.push((0xDC00 + (code - 0x10000) % 0x400) as u16);
    }
    assert(units@ =~= old(units)@ + utf16_units(c));
}

/// The UTF-16 code units of a text with a terminating zero.
pub fn to_wide_null(s: &str) -> (units: Vec<u16>)
    ensures
        units@ == wide_null(s@),
{
    let len: usize = s.unicode_len();
    let mut units: Vec<u16> = Vec::new();
    let mut i: usize = 0;
    while i < len
        invariant
            len == s@.len(),
            i <= len,
            units@ == utf16(s@.take(i as int)),
        decreases len - i,
    {
        push_units(&mut units, s.get_char(i));
        i = i + 1;
        assert(s@.take(i as int).drop_last() =~= s@.take(i - 1));
    }
    assert(s@.take(len as int) =~= s@);
    units.push(0);
    units
}

/// The character with the given code.
fn char_of(code: u32) -> (c: char)
    requires
        code < 0xD800 || 0xE000 <= code <= 0x10FFFF,
    ensures
        c as int == code,
{
    match char::from_u32(code) {
        Some(c) => c,
        None => '?',
    }
}

/// The text that UTF-16 code units stand for, with the replacement character for what is no text.
pub fn from_wide(units: &[u16]) -> (text: String)
    ensures
        text@ == utf16_text(units@),
{
    let mut text = String::new();
    let len: usize = units.len();
    let mut i: usize = 0;
    assert(units@.skip(0) =~= units@);
    while i < len
        invariant
            len == units@.len(),
            i <= len,
            text@ + utf16_text(units@.skip(i as int)) == utf16_text(units@),
        decreases len - i,
    {
        let ghost rest = units@.skip(i as int);
        let ghost before = text@;
        let u: u16 = units[i];
        assert(rest[0] == u);
        if 0xD800 <= u && u < 0xDC00 && i + 1 < len && 0xDC00 <= units[i + 1] && units[i + 1]
            < 0xE000 {
            assert(rest[1] == units@[i + 1]);
            let code: u32 = 0x10000 + (u - 0xD800) as u32 * 0x400 + (units[i + 1] - 0xDC00) as u32;
            text.push(char_of(code));
            i = i + 2;
            assert(rest.skip(2) =~= units@.skip(i as int));
        } else {
            assert(i + 1 < len ==> rest[1] == units@[i + 1]);
            if 0xD800 <= u && u < 0xE000 {
                text.push('\u{FFFD}');
            } else {
                text.push(char_of(u as u32));
            }
            i = i + 1;
            assert(rest.skip(1) =~= units@.skip(i as int));
        }
        assert(text@ =~= before + seq![first_char(rest)]);
        assert(text@ + utf16_text(units@.skip(i as int)) =~= before + utf16_text(rest));
    }
    assert(units@.skip(len as int) =~= Seq::<u16>::empty());
    assert(text@ + utf16_text(Seq::<u16>::empty()) =~= text@);
    text
}

/// A text that is written in UTF-16 and read again, without its terminating zero, is the same text.
pub proof fn wide_texts_are_read_back(text: &str, units: Vec<u16>, kept: &[u16], read: String)
    requires
        call_ensures(to_wide_null, (text,), units),
        kept@ == units@.drop_last(),
        call_ensures(from_wide, (kept,), read),
    ensures
        units@.len() >= 1,
        units@.last() == 0,
        read@ == text@,
{
    utf16_reads_back(text@);
    assert(units@.drop_last() =~= utf16(text@));
}

proof fn lemma_text_in_two_parts(a: Seq<u16>, b: Seq<u16>)
    requires
        a.len() > 0 && b.len() > 0 ==> !(is_high_surrogate(a.last()) && is_low_surrogate(b[0])),
    ensures
        utf16_text(a + b) == utf16_text(a) + utf16_text(b),
    decreases a.len(),
{
    let whole = a + b;
    if a.len() == 0 {
        assert(whole =~= b);
        assert(utf16_text(a) + utf16_text(b) =~= utf16_text(b));
    } else {
        if starts_with_pair(a) {
            assert(starts_with_pair(whole));
            assert(whole.skip(2) =~= a.skip(2) + b);
            lemma_text_in_two_parts(a.skip(2), b);
        } else {
            if a.len() == 1 && b.len() > 0 {
                assert(whole[1] == b[0]);
            }
            assert(!starts_with_pair(whole));
            assert(whole.skip(1) =~= a.skip(1) + b);
            lemma_text_in_two_parts(a.skip(1), b);
        }
        assert(utf16_text(whole) =~= utf16_text(a) + utf16_text(b));
    }
}

/// Code units are read one after the other: what stands before a place where no pair is cut apart,
/// and then what comes after it. A unit that is no half of a pair is its own character, a half
/// alone is the replacement character, and a pair is one character beyond the first 65536.
pub proof fn units_are_read_in_order(
    before: &[u16],
    after: &[u16],
    all: &[u16],
    first: String,
    rest: String,
    text: String,
)
    requires
        all@ == before@ + after@,
        before@.len() > 0 && after@.len() > 0 ==> !(0xD800 <= before@.last() < 0xDC00 && 0xDC00
            <= after@[0] < 0xE000),
        call_ensures(from_wide, (before,), first),
        call_ensures(from_wide, (after,), rest),
        call_ensures(from_wide, (all,), text),
    ensures
        text@ == first@ + rest@,
        before@.len() == 0 ==> first@.len() == 0,
        before@.len() == 1 ==> first@.len() == 1,
        before@.len() == 1 && !(0xD800 <= before@[0] < 0xE000) ==> first@[0] as int == before@[0],
        before@.len() == 1 && 0xD800 <= before@[0] < 0xE000 ==> first@[0] as int == 0xFFFD,
        before@.len() == 2 && 0xD800 <= before@[0] < 0xDC00 && 0xDC00 <= before@[1] < 0xE000
            ==> first@.len() == 1 && first@[0] as int == 0x10000 + (before@[0] - 0xD800) * 0x400 + (
        before@[1] - 0xDC00),
{
    lemma_text_in_two_parts(before@, after@);
    reveal_with_fuel(utf16_text, 2);
}

/// Each character takes one code unit, or two if it lies beyond the first 65536.
pub proof fn characters_take_one_or_two_units(text: &str, units: Vec<u16>)
    requires
        call_ensures(to_wide_null, (text,), units),
    ensures
        text@.len() == 0 ==> units@.len() == 1,
        text@.len() == 1 && (text@[0] as int) < 0x10000 ==> units@.len() == 2 && units@[0]
            == text@[0] as int,
        text@.len() == 1 && text@[0] as int >= 0x10000 ==> units@.len() == 3,
        text@.len() + 1 <= units@.len() <= 2 * text@.len() + 1,
{
    reveal_with_fuel(utf16, 2);
    if text@.len() == 1 {
        assert(utf16(text@.drop_last()) =~= Seq::<u16>::empty());
        assert(text@.last() == text@[0]);
        lemma_units_of_char(text@[0]);
    }
    lemma_number_of_units(text@);
}

proof fn lemma_number_of_units(s: Seq<char>)
    ensures
        s.len() <= utf16(s).len() <= 2 * s.len(),
    decreases s.len(),
{
    if s.len() > 0 {
        lemma_number_of_units(s.drop_last());
    }
}

} // verus!
