//! Text building blocks: decimal numerals, joined and blank texts, paths.

use vstd::prelude::*;

verus! {

/// `String::push` appends the given character to the end of the string.
pub assume_specification[ String::push ](s: &mut String, ch: char)
    ensures
        final(s)@ == old(s)@.push(ch),
;

/// The character of a decimal digit.
pub open spec fn digit_char(d: nat) -> char {
    (48 + d) as char
}

/// The decimal numeral of a number, without leading zeros.
pub open spec fn decimal(n: nat) -> Seq<char>
    decreases n,
{
    if n < 10 {
        seq![digit_char(n)]
    } else {
        decimal(n / 10).push(digit_char(n % 10))
    }
}

/// The number that a decimal numeral stands for.
pub open spec fn numeral_value(s: Seq<char>) -> nat
    decreases s.len(),
{
    if s.len() == 0 {
        0
    } else {
        numeral_value(s.drop_last()) * 10 + ((s.last() as nat) - 48) as nat
    }
}

/// Reading a decimal numeral gives back the number it was written for.
pub proof fn decimal_reads_back(n: nat)
    ensures
        numeral_value(decimal(n)) == n,
    decreases n,
{
    if n < 10 {
        let s = decimal(n);
        assert(s.drop_last() =~= Seq::<char>::empty());
        assert(s.last() == digit_char(n));
        assert(numeral_value(s.drop_last()) == 0);
    } else {
        decimal_reads_back(n / 10);
        let s = decimal(n);
        assert(s.drop_last() =~= decimal(n / 10));
    }
}

/// Appends the decimal numeral of `n`.
pub fn push_decimal(s: &mut String, n: u64)
    ensures
        final(s)@ == old(s)@ + decimal(n as nat),
    decreases n,
{
    if n >= 10 {
        push_decimal(s, n / 10);
    }
    s.push((48u8 + (n % 10) as u8) as char);
}

/// The decimal numeral of `n`.
pub fn decimal_string(n: u64) -> (s: String)
    ensures
        s@ == decimal(n as nat),
{
    let mut s = String::new();
    push_decimal(&mut s, n);
    s
}

/// `n` zeros.
pub open spec fn zeros(n: nat) -> Seq<char> {
    Seq::new(n, |i: int| '0')
}

/// The decimal numeral of a number, filled up with zeros on the left to a width.
pub open spec fn zero_padded(n: nat, width: nat) -> Seq<char> {
    if decimal(n).len() < width {
        zeros((width - decimal(n).len()) as nat) + decimal(n)
    } else {
        decimal(n)
    }
}

/// Appends the decimal numeral of `n`, filled up with zeros to `width`.
pub fn push_padded(s: &mut String, n: u64, width: usize)
    ensures
        final(s)@ == old(s)@ + zero_padded(n as nat, width as nat),
{
    let numeral = decimal_string(n);
    let len: usize = numeral.as_str().unicode_len();
    let ghost before = s@;
    let mut i: usize = len;
    while i < width
        invariant
            len == decimal(n as nat).len(),
            i >= len,
            i <= width || i == len,
            s@ == before + zeros((i - len) as nat),
        decreases width - i,
    {
        s.push('0');
        i = i + 1;
        assert(s@ =~= before + zeros((i - len) as nat));
    }
    s.append(numeral.as_str());
    proof {
        assert(before + zeros(0) =~= before);
        assert(s@ =~= before + zero_padded(n as nat, width as nat));
    }
}

/// A number with a comma between each group of three digits, counted from the right.
pub open spec fn grouped(n: nat) -> Seq<char>
    decreases n,
{
    if n < 1000 {
        decimal(n)
    } else {
        grouped(n / 1000) + ","@ + zero_padded(n % 1000, 3)
    }
}

/// A text without its commas.
pub open spec fn without_commas(s: Seq<char>) -> Seq<char>
    decreases s.len(),
{
    if s.len() == 0 {
        s
    } else if s.last() == ',' {
        without_commas(s.drop_last())
    } else {
        without_commas(s.drop_last()).push(s.last())
    }
}

proof fn lemma_decimal_shape(n: nat)
    ensures
        decimal(n).len() >= 1,
        forall|i: int| 0 <= i < decimal(n).len() ==> 48 <= (#[trigger] decimal(n)[i]) as int <= 57,
        n < 1000 ==> decimal(n).len() <= 3,
        n < 100 ==> decimal(n).len() <= 2,
        n < 10 ==> decimal(n).len() == 1,
        n >= 100 ==> decimal(n).len() >= 3,
        n >= 10 ==> decimal(n).len() >= 2,
    decreases n,
{
    if n >= 10 {
        lemma_decimal_shape(n / 10);
    }
}

proof fn lemma_three_digits(n: nat)
    requires
        n < 1000,
    ensures
        zero_padded(n, 3) == seq![
            digit_char(n / 100),
            digit_char(n / 10 % 10),
            digit_char(n % 10),
        ],
{
    reveal_with_fuel(decimal, 3);
    if n < 10 {
        assert(zeros(2) + decimal(n) =~= seq!['0', '0', digit_char(n)]);
    } else if n < 100 {
        assert(zeros(1) + decimal(n) =~= seq!['0', digit_char(n / 10), digit_char(n % 10)]);
    } else {
        assert(decimal(n) =~= seq![
            digit_char(n / 100),
            digit_char(n / 10 % 10),
            digit_char(n % 10),
        ]);
    }
}

proof fn lemma_decimal_split(n: nat)
    requires
        n >= 1000,
    ensures
        decimal(n) == decimal(n / 1000) + zero_padded(n % 1000, 3),
{
    lemma_three_digits(n % 1000);
    reveal_with_fuel(decimal, 4);
    assert(n / 10 / 10 == n / 100);
    assert(n / 10 / 10 / 10 == n / 1000);
    assert(n % 1000 / 100 == n / 100 % 10);
    assert(n % 1000 / 10 % 10 == n / 10 % 10);
    assert(n % 1000 % 10 == n % 10);
    assert(decimal(n) =~= decimal(n / 1000) + zero_padded(n % 1000, 3));
}

proof fn lemma_append_without_comma(a: Seq<char>, b: Seq<char>)
    requires
        forall|i: int| 0 <= i < b.len() ==> b[i] != ',',
    ensures
        without_commas(a + b) == without_commas(a) + b,
    decreases b.len(),
{
    if b.len() == 0 {
        assert(a + b =~= a);
        assert(without_commas(a) + b =~= without_commas(a));
    } else {
        lemma_append_without_comma(a, b.drop_last());
        assert((a + b).drop_last() =~= a + b.drop_last());
        assert(without_commas(a) + b =~= (without_commas(a) + b.drop_last()).push(b.last()));
    }
}

/// Without its commas, a grouped number is its decimal numeral.
pub proof fn grouping_only_adds_commas(n: nat)
    ensures
        without_commas(grouped(n)) == decimal(n),
    decreases n,
{
    lemma_decimal_shape(n);
    if n < 1000 {
        lemma_append_without_comma(Seq::empty(), decimal(n));
        assert(Seq::<char>::empty() + decimal(n) =~= decimal(n));
    } else {
        grouping_only_adds_commas(n / 1000);
        lemma_decimal_split(n);
        lemma_three_digits(n % 1000);
        reveal_strlit(",");
        let head = grouped(n / 1000);
        let tail = zero_padded(n % 1000, 3);
        lemma_append_without_comma(head + ","@, tail);
        assert((head + ","@).drop_last() =~= head);
    }
}

/// Counted from the right, every fourth character of a grouped number is a comma and the others are
/// digits; the first character is a digit.
pub proof fn every_fourth_is_a_comma(n: nat)
    ensures
        grouped(n).len() >= 1,
        grouped(n).len() % 4 != 0,
        forall|i: int| 0 <= i < grouped(n).len() ==> {
            if (grouped(n).len() - i) % 4 == 0 {
                #[trigger] grouped(n)[i] == ','
            } else {
                48 <= grouped(n)[i] as int <= 57
            }
        },
    decreases n,
{
    lemma_decimal_shape(n);
    if n >= 1000 {
        every_fourth_is_a_comma(n / 1000);
        lemma_three_digits(n % 1000);
        reveal_strlit(",");
        let head = grouped(n / 1000);
        let whole = grouped(n);
        assert(whole.len() == head.len() + 4);
        assert forall|i: int| 0 <= i < whole.len() implies {
            if (whole.len() - i) % 4 == 0 {
                #[trigger] whole[i] == ','
            } else {
                48 <= whole[i] as int <= 57
            }
        } by {
            if i < head.len() {
                assert(whole[i] == head[i]);
                assert((whole.len() - i) % 4 == (head.len() - i) % 4);
            }
        }
    }
}

/// Appends `n` with a comma between each group of three digits.
pub fn push_grouped(s: &mut String, n: u64)
    ensures
        final(s)@ == old(s)@ + grouped(n as nat),
    decreases n,
{
    if n < 1000 {
        push_decimal(s, n);
    } else {
        let ghost before = s@;
        push_grouped(s, n / 1000);
        s.append(",");
        push_padded(s, n % 1000, 3);
        assert(s@ =~= before + grouped(n as nat));
    }
}

/// Whether two texts are the same.
pub fn same_text(a: &str, b: &str) -> (same: bool)
    ensures
        same == (a@ == b@),
{
    a.to_owned() == b.to_owned()
}

/// The character of a hexadecimal digit, with small letters.
pub open spec fn hex_char(d: nat) -> char {
    if d < 10 {
        (48 + d) as char
    } else {
        (87 + d) as char
    }
}

/// The character of a hexadecimal digit, with capital letters.
pub open spec fn hex_capital(d: nat) -> char {
    if d < 10 {
        (48 + d) as char
    } else {
        (55 + d) as char
    }
}

/// The hexadecimal numeral of a number, with capital letters and without leading zeros.
pub open spec fn hex(n: nat) -> Seq<char>
    decreases n,
{
    if n < 16 {
        seq![hex_capital(n)]
    } else {
        hex(n / 16).push(hex_capital(n % 16))
    }
}

/// Appends the hexadecimal numeral of `n`.
pub fn push_hex(s: &mut String, n: u32)
    ensures
        final(s)@ == old(s)@ + hex(n as nat),
    decreases n,
{
    if n >= 16 {
        push_hex(s, n / 16);
    }
    let d: u8 = (n % 16) as u8;
    if d < 10 {
        s.push((48u8 + d) as char);
    } else {
        s.push((55u8 + d) as char);
    }
}

/// What stands before the last backslash of a path, if there is one.
pub open spec fn directory_of(path: Seq<char>) -> Option<Seq<char>>
    decreases path.len(),
{
    if path.len() == 0 {
        None
    } else if path.last() == '\\' {
        Some(path.drop_last())
    } else {
        directory_of(path.drop_last())
    }
}

/// The directory part of a path: what stands before the last backslash, if there is one.
pub fn directory_part(path: &str) -> (dir: Option<String>)
    ensures
        match dir {
            Some(d) => directory_of(path@) == Some(d@),
            None => directory_of(path@) is None,
        },
{
    let mut i: usize = path.unicode_len();
    assert(path@.take(i as int) =~= path@);
    while i > 0
        invariant
            i <= path@.len(),
            directory_of(path@.take(i as int)) == directory_of(path@),
        decreases i,
    {
        assert(path@.take(i as int).drop_last() =~= path@.take(i - 1));
        if path.get_char(i - 1) == '\\' {
            assert(path@.subrange(0, i - 1) =~= path@.take(i - 1));
            return Some(path.substring_char(0, i - 1).to_owned());
        }
        i = i - 1;
    }
    None
}

/// How many folders are selected, in words.
pub open spec fn folders_selected(count: nat) -> Seq<char> {
    decimal(count) + " folder"@ + (if count == 1 {
        ""@
    } else {
        "s"@
    }) + " selected"@
}

/// How many folders are selected, in words.
pub fn folders_selected_text(count: usize) -> (text: String)
    ensures
        text@ == folders_selected(count as nat),
{
    let mut text = decimal_string(count as u64);
    text.append(" folder");
    text.append(
        if count == 1 {
            ""
        } else {
            "s"
        },
    );
    text.append(" selected");
    text
}

/// Texts by their contents.
pub open spec fn texts_view(texts: Seq<String>) -> Seq<Seq<char>> {
    Seq::new(texts.len(), |i: int| texts[i]@)
}

/// The contents of a text that may be missing.
pub open spec fn text_view(text: Option<String>) -> Option<Seq<char>> {
    match text {
        Some(t) => Some(t@),
        None => None,
    }
}

/// Texts one after the other, with a separator between them.
pub open spec fn joined(parts: Seq<Seq<char>>, separator: Seq<char>) -> Seq<char>
    decreases parts.len(),
{
    if parts.len() == 0 {
        Seq::empty()
    } else if parts.len() == 1 {
        parts[0]
    } else {
        joined(parts.drop_last(), separator) + separator + parts.last()
    }
}

/// Texts one after the other, with a separator between them.
pub fn join_texts(parts: &Vec<String>, separator: &str) -> (text: String)
    ensures
        text@ == joined(texts_view(parts@), separator@),
{
    let mut text = String::new();
    let mut i: usize = 0;
    let ghost all = texts_view(parts@);
    while i < parts.len()
        invariant
            i <= parts.len(),
            all == texts_view(parts@),
            text@ == joined(all.take(i as int), separator@),
        decreases parts.len() - i,
    {
        if i > 0 {
            text.append(separator);
        }
        text.append(parts[i].as_str());
        i = i + 1;
        assert(all.take(i as int).drop_last() =~= all.take(i - 1));
        assert(all.take(i as int).last() == parts@[i - 1]@);
        assert(text@ =~= joined(all.take(i as int), separator@));
    }
    assert(all.take(i as int) =~= all);
    text
}

/// Whether a text consists of decimal digits.
pub open spec fn all_digits(s: Seq<char>) -> bool {
    forall|i: int| 0 <= i < s.len() ==> '0' <= #[trigger] s[i] <= '9'
}

/// A text without a plus sign at its beginning.
pub open spec fn without_plus(s: Seq<char>) -> Seq<char> {
    if s.len() > 0 && s[0] == '+' {
        s.skip(1)
    } else {
        s
    }
}

/// The 32-bit number that a text stands for: digits, with or without a plus sign before them.
pub open spec fn parsed_u32(s: Seq<char>) -> Option<u32> {
    let digits = without_plus(s);
    if digits.len() > 0 && all_digits(digits) && numeral_value(digits) <= u32::MAX {
        Some(numeral_value(digits) as u32)
    } else {
        None
    }
}

proof fn lemma_prefix_value(s: Seq<char>, i: int)
    requires
        0 <= i <= s.len(),
    ensures
        numeral_value(s.take(i)) <= numeral_value(s),
    decreases s.len(),
{
    if i == s.len() {
        assert(s.take(i) =~= s);
    } else {
        lemma_prefix_value(s.drop_last(), i);
        assert(s.drop_last().take(i) =~= s.take(i));
    }
}

/// A number is read back from its decimal numeral.
pub proof fn parsing_reads_decimals(n: u32)
    ensures
        parsed_u32(decimal(n as nat)) == Some(n),
{
    lemma_decimal_shape(n as nat);
    decimal_reads_back(n as nat);
    let s = decimal(n as nat);
    assert(48 <= s[0] as int <= 57);
    assert(s[0] != '+');
    assert forall|i: int| 0 <= i < s.len() implies '0' <= #[trigger] s[i] <= '9' by {
        assert(48 <= s[i] as int <= 57);
    }
}

/// The 32-bit number that a text stands for, if it stands for one.
pub fn parse_u32(s: &str) -> (n: Option<u32>)
    ensures
        n == parsed_u32(s@),
{
    let len: usize = s.unicode_len();
    let start: usize = if len > 0 && s.get_char(0) == '+' {
        1
    } else {
        0
    };
    let ghost digits = without_plus(s@);
    assert(digits =~= s@.skip(start as int));
    if start == len {
        return None;
    }
    let mut value: u64 = 0;
    let mut i: usize = start;
    while i < len
        invariant
            len == s@.len(),
            start <= i <= len,
            start < len,
            digits == s@.skip(start as int),
            digits == without_plus(s@),
            value == numeral_value(digits.take(i - start)),
            value <= u32::MAX,
            all_digits(digits.take(i - start)),
        decreases len - i,
    {
        let c: char = s.get_char(i);
        assert(c == digits[i - start]);
        if c < '0' || c > '9' {
            return None;
        }
        let ghost before = digits.take(i - start);
        let ghost after = digits.take(i + 1 - start);
        assert(after.drop_last() =~= before);
        assert(after.last() == c);
        value = value * 10 + (c as u32 - 48) as u64;
        assert(value == numeral_value(after));
        assert(all_digits(after)) by {
            assert forall|j: int| 0 <= j < after.len() implies '0' <= #[trigger] after[j] <= '9' by {
                if j < before.len() {
                    assert(after[j] == before[j]);
                }
            }
        }
        if value > u32::MAX as u64 {
            proof {
                lemma_prefix_value(digits, i + 1 - start);
            }
            return None;
        }
        i = i + 1;
    }
    assert(digits.take(len - start) =~= digits);
    Some(value as u32)
}

/// A character with capital letters of the ASCII range made small.
pub open spec fn ascii_lower(c: char) -> char {
    if 'A' <= c <= 'Z' {
        (c as int + 32) as char
    } else {
        c
    }
}

/// Whether two texts differ at most in whether letters of the ASCII range are capital.
pub open spec fn same_ignoring_case(a: Seq<char>, b: Seq<char>) -> bool {
    a.len() == b.len() && forall|i: int|
        0 <= i < a.len() ==> ascii_lower(#[trigger] a[i]) == ascii_lower(b[i])
}

/// A character with capital letters of the ASCII range made small.
fn lower(c: char) -> (l: char)
    ensures
        l == ascii_lower(c),
{
    if 'A' <= c && c <= 'Z' {
        (c as u8 + 32) as char
    } else {
        c
    }
}

/// Whether two texts differ at most in whether letters of the ASCII range are capital.
pub fn eq_ignore_ascii_case(a: &str, b: &str) -> (same: bool)
    ensures
        same == same_ignoring_case(a@, b@),
{
    let len: usize = a.unicode_len();
    if len != b.unicode_len() {
        return false;
    }
    let mut i: usize = 0;
    while i < len
        invariant
            len == a@.len(),
            len == b@.len(),
            i <= len,
            forall|j: int| 0 <= j < i ==> ascii_lower(#[trigger] a@[j]) == ascii_lower(b@[j]),
        decreases len - i,
    {
        if lower(a.get_char(i)) != lower(b.get_char(i)) {
            assert(ascii_lower(a@[i as int]) != ascii_lower(b@[i as int]));
            return false;
        }
        i = i + 1;
    }
    true
}

/// The characters that Unicode gives the property `White_Space`.
pub open spec fn is_white_space(c: char) -> bool {
    let code = c as u32;
    ||| 0x09 <= code <= 0x0d
    ||| code == 0x20
    ||| code == 0x85
    ||| code == 0xa0
    ||| code == 0x1680
    ||| 0x2000 <= code <= 0x200a
    ||| code == 0x2028
    ||| code == 0x2029
    ||| code == 0x202f
    ||| code == 0x205f
    ||| code == 0x3000
}

/// `char::is_whitespace` tells whether a character has the Unicode property `White_Space`.
pub assume_specification[ char::is_whitespace ](c: char) -> (white: bool)
    ensures
        white == is_white_space(c),
;

/// Whether a text holds nothing but white space.
pub open spec fn blank(s: Seq<char>) -> bool {
    forall|i: int| 0 <= i < s.len() ==> is_white_space(#[trigger] s[i])
}

/// Whether a text holds nothing but white space: whether nothing is left when it is trimmed.
pub fn is_blank(s: &str) -> (is: bool)
    ensures
        is == blank(s@),
{
    let len: usize = s.unicode_len();
    let mut i: usize = 0;
    while i < len
        invariant
            i <= len == s@.len(),
            forall|j: int| 0 <= j < i ==> is_white_space(#[trigger] s@[j]),
        decreases len - i,
    {
        let c: char = s.get_char(i);
        if !c.is_whitespace() {
            return false;
        }
        i = i + 1;
    }
    true
}

/// Whether a text is a drive without a directory, such as `C:`.
pub open spec fn is_drive(s: Seq<char>) -> bool {
    s.len() == 2 && s[1] == ':' && ('a' <= s[0] <= 'z' || 'A' <= s[0] <= 'Z')
}

/// The path of what has the given name in a directory. A backslash parts the two where the
/// directory is not empty, does not end in a separator and is not a mere drive.
pub open spec fn path_in(directory: Seq<char>, name: Seq<char>) -> Seq<char> {
    if directory.len() == 0 || directory.last() == '\\' || directory.last() == '/' || is_drive(
        directory,
    ) {
        directory + name
    } else {
        directory + "\\"@ + name
    }
}

/// The path of what has the given name in a directory. The name is a single one: no path that
/// starts at a drive or a root.
pub fn join_path(directory: &str, name: &str) -> (path: String)
    ensures
        path@ == path_in(directory@, name@),
{
    let len: usize = directory.unicode_len();
    let mut path = directory.to_owned();
    if len > 0 {
        let end: char = directory.get_char(len - 1);
        let first: char = directory.get_char(0);
        let letter = ('a' <= first && first <= 'z') || ('A' <= first && first <= 'Z');
        let drive = len == 2 && end == ':' && letter;
        if end != '\\' && end != '/' && !drive {
            path.append("\\");
        }
    }
    path.append(name);
    path
}

/// A decimal numeral has nothing but digits, and starts with a zero only if it is that of zero.
pub proof fn decimals_are_digits(n: nat)
    ensures
        decimal(n).len() >= 1,
        forall|i: int| 0 <= i < decimal(n).len() ==> '0' <= #[trigger] decimal(n)[i] <= '9',
        n > 0 ==> decimal(n)[0] != '0',
    decreases n,
{
    lemma_decimal_shape(n);
    assert forall|i: int| 0 <= i < decimal(n).len() implies '0' <= #[trigger] decimal(n)[i]
        <= '9' by {
        assert(48 <= decimal(n)[i] as int <= 57);
    }
    if n >= 10 {
        decimals_are_digits(n / 10);
        assert(decimal(n)[0] == decimal(n / 10)[0]);
    }
}

proof fn lemma_zeros_before(k: nat, s: Seq<char>)
    ensures
        numeral_value(zeros(k) + s) == numeral_value(s),
    decreases k + s.len(),
{
    let whole = zeros(k) + s;
    if s.len() > 0 {
        assert(whole.drop_last() =~= zeros(k) + s.drop_last());
        lemma_zeros_before(k, s.drop_last());
    } else if k > 0 {
        assert(whole.drop_last() =~= zeros((k - 1) as nat) + s);
        lemma_zeros_before((k - 1) as nat, s);
    } else {
        assert(whole =~= s);
    }
}

/// A numeral that is filled up still stands for its number, and is as long as the width, or as the
/// numeral itself where that is longer.
pub proof fn padding_keeps_the_number(n: nat, width: nat)
    ensures
        numeral_value(zero_padded(n, width)) == n,
        zero_padded(n, width).len() >= width,
        zero_padded(n, width).len() == width || zero_padded(n, width) == decimal(n),
{
    decimal_reads_back(n);
    if decimal(n).len() < width {
        lemma_zeros_before((width - decimal(n).len()) as nat, decimal(n));
    }
}

/// The number that a hexadecimal numeral with capital letters stands for.
pub open spec fn hex_value(s: Seq<char>) -> nat
    decreases s.len(),
{
    if s.len() == 0 {
        0
    } else {
        hex_value(s.drop_last()) * 16 + (if s.last() <= '9' {
            ((s.last() as nat) - 48) as nat
        } else {
            ((s.last() as nat) - 55) as nat
        })
    }
}

/// A number is read back from its hexadecimal numeral.
pub proof fn hex_reads_back(n: nat)
    ensures
        hex_value(hex(n)) == n,
    decreases n,
{
    if n < 16 {
        let s = hex(n);
        assert(s.drop_last() =~= Seq::<char>::empty());
        assert(hex_value(s.drop_last()) == 0);
    } else {
        hex_reads_back(n / 16);
        assert(hex(n).drop_last() =~= hex(n / 16));
    }
}

proof fn lemma_directory_of(path: Seq<char>)
    ensures
        directory_of(path) is None <==> !path.contains('\\'),
        directory_of(path) matches Some(dir) ==> {
            &&& dir.len() < path.len()
            &&& path.take(dir.len() as int) == dir
            &&& path[dir.len() as int] == '\\'
            &&& forall|i: int| dir.len() < i < path.len() ==> path[i] != '\\'
        },
    decreases path.len(),
{
    if path.len() > 0 {
        let shorter = path.drop_last();
        lemma_directory_of(shorter);
        if path.last() == '\\' {
            assert(path[path.len() - 1] == '\\');
            assert(path.take(path.len() - 1) =~= shorter);
        } else {
            if shorter.contains('\\') {
                let i = shorter.index_of('\\');
                assert(path[i] == '\\');
            }
            if path.contains('\\') {
                let i = path.index_of('\\');
                assert(shorter[i] == '\\');
            }
            if let Some(dir) = directory_of(path) {
                assert(path.take(dir.len() as int) =~= shorter.take(dir.len() as int));
                assert forall|i: int| dir.len() < i < path.len() implies path[i] != '\\' by {
                    if i < shorter.len() {
                        assert(shorter[i] != '\\');
                    }
                }
            }
        }
    }
}

/// The directory of a path is what stands before its last backslash: it is the path's beginning, a
/// backslash follows it, and none comes later. A path has no directory exactly if it has no
/// backslash.
pub proof fn a_directory_ends_at_the_last_backslash(path: &str, dir: Option<String>)
    requires
        call_ensures(directory_part, (path,), dir),
    ensures
        dir is None <==> !path@.contains('\\'),
        dir matches Some(d) ==> {
            &&& d@.len() < path@.len()
            &&& path@.take(d@.len() as int) == d@
            &&& path@[d@.len() as int] == '\\'
            &&& forall|i: int| d@.len() < i < path@.len() ==> path@[i] != '\\'
        },
{
    lemma_directory_of(path@);
}

/// The directory of a name in a directory is that directory.
pub proof fn directory_of_a_name(dir: Seq<char>, name: Seq<char>)
    requires
        !name.contains('\\'),
    ensures
        directory_of(dir + seq!['\\'] + name) == Some(dir),
{
    let path = dir + seq!['\\'] + name;
    lemma_directory_of(path);
    assert(path[dir.len() as int] == '\\');
    assert(path.contains('\\'));
    let found = directory_of(path)->0;
    if found.len() < dir.len() {
        assert(path[dir.len() as int] != '\\');
    }
    if found.len() > dir.len() {
        assert(path[found.len() as int] == name[found.len() - dir.len() - 1]);
        assert(name.contains('\\'));
    }
    assert(found =~= dir);
}

/// A path in a directory starts with the directory and ends with the name. Between them stands a
/// backslash or nothing; nothing exactly if the directory is empty, ends in a separator, or is a
/// mere drive.
pub proof fn a_path_holds_directory_and_name(directory: &str, name: &str, path: String)
    requires
        call_ensures(join_path, (directory, name), path),
    ensures
        path@.len() == directory@.len() + name@.len() || path@.len() == directory@.len() + 1
            + name@.len(),
        path@.take(directory@.len() as int) == directory@,
        path@.skip(path@.len() - name@.len()) == name@,
        path@.len() > directory@.len() + name@.len() ==> path@[directory@.len() as int] == '\\',
        path@.len() == directory@.len() + name@.len() <==> directory@.len() == 0
            || directory@.last() == '\\' || directory@.last() == '/' || (directory@.len() == 2
            && directory@[1] == ':' && ('a' <= directory@[0] <= 'z' || 'A' <= directory@[0]
            <= 'Z')),
{
    reveal_strlit("\\");
    assert(path@.take(directory@.len() as int) =~= directory@);
    assert(path@.skip(path@.len() - name@.len()) =~= name@);
}

/// The text says how many folders there are, and speaks of one folder or of several.
pub proof fn selected_folders_are_counted(count: usize, text: String)
    requires
        call_ensures(folders_selected_text, (count,), text),
    ensures
        count == 1 ==> text@ == "1 folder selected"@,
        count != 1 ==> text@ == decimal(count as nat) + " folders selected"@,
{
    reveal_strlit("1 folder selected");
    reveal_strlit(" folders selected");
    reveal_strlit(" folder");
    reveal_strlit(" selected");
    reveal_strlit("s");
    reveal_strlit("");
    if count == 1 {
        assert(decimal(1) =~= seq!['1']);
        assert(text@ =~= "1 folder selected"@);
    } else {
        assert(text@ =~= decimal(count as nat) + " folders selected"@);
    }
}

/// Joining a list is joining its two halves, with the separator between them; one text alone stays
/// as it is, and no text at all gives nothing. So every text is there, in its place.
pub proof fn joining_goes_part_by_part(a: Seq<Seq<char>>, b: Seq<Seq<char>>, separator: Seq<char>)
    ensures
        joined(Seq::empty(), separator) == Seq::<char>::empty(),
        a.len() == 1 ==> joined(a, separator) == a[0],
        a.len() > 0 && b.len() > 0 ==> joined(a + b, separator) == joined(a, separator) + separator
            + joined(b, separator),
    decreases b.len(),
{
    if a.len() > 0 && b.len() > 0 {
        let whole = a + b;
        assert(whole.drop_last() =~= a + b.drop_last());
        if b.len() == 1 {
            assert(a + b.drop_last() =~= a);
        } else {
            joining_goes_part_by_part(a, b.drop_last(), separator);
            assert(joined(whole, separator) =~= joined(a, separator) + separator + joined(
                b,
                separator,
            ));
        }
    }
}

/// A text with a sign that is no digit stands for no number, nor does an empty one or a mere plus
/// sign; a plus sign before digits makes no difference, and what is read is the digits' value.
pub proof fn only_digits_are_read(text: &str, n: Option<u32>, i: int)
    requires
        call_ensures(parse_u32, (text,), n),
    ensures
        text@.len() == 0 ==> n is None,
        text@.len() == 1 && text@[0] == '+' ==> n is None,
        0 < i < text@.len() && !('0' <= text@[i] <= '9') ==> n is None,
        text@.len() > 0 && text@[0] != '+' && !('0' <= text@[0] <= '9') ==> n is None,
        n is Some && text@[0] != '+' ==> n->0 == numeral_value(text@),
        n is Some && text@[0] == '+' ==> n->0 == numeral_value(text@.skip(1)),
        text@.len() > 0 && all_digits(text@) && numeral_value(text@) <= u32::MAX ==> n is Some,
{
    if 0 < i < text@.len() {
        if text@[0] == '+' {
            assert(without_plus(text@)[i - 1] == text@[i]);
        }
    }
}

/// Comparing without regard to case is an equivalence, takes a capital letter for its small one,
/// and tells apart whatever else differs.
pub proof fn case_makes_no_difference(a: Seq<char>, b: Seq<char>, c: Seq<char>, letter: char)
    ensures
        same_ignoring_case(a, a),
        same_ignoring_case(a, b) ==> same_ignoring_case(b, a),
        same_ignoring_case(a, b) && same_ignoring_case(b, c) ==> same_ignoring_case(a, c),
        same_ignoring_case(a, b) ==> a.len() == b.len(),
        'A' <= letter <= 'Z' ==> same_ignoring_case(
            seq![letter],
            seq![(letter as int + 32) as char],
        ),
        !('A' <= letter <= 'Z') && !('a' <= letter <= 'z') && same_ignoring_case(seq![letter], b)
            ==> b == seq![letter],
{
    if same_ignoring_case(a, b) {
        assert forall|i: int| 0 <= i < b.len() implies ascii_lower(#[trigger] b[i]) == ascii_lower(
            a[i],
        ) by {
            assert(ascii_lower(a[i]) == ascii_lower(b[i]));
        }
        if same_ignoring_case(b, c) {
            assert forall|i: int| 0 <= i < a.len() implies ascii_lower(#[trigger] a[i])
                == ascii_lower(c[i]) by {
                assert(ascii_lower(b[i]) == ascii_lower(c[i]));
            }
        }
    }
    if same_ignoring_case(seq![letter], b) {
        let one = seq![letter];
        assert(ascii_lower(one[0]) == ascii_lower(b[0]));
        if !('A' <= letter <= 'Z') && !('a' <= letter <= 'z') {
            assert(b =~= one);
        }
    }
}

/// A text is blank exactly if all its parts are; spaces, tabs and line breaks are blank, and
/// letters, digits and punctuation of the ASCII range are not.
pub proof fn blank_texts_hold_white_space(a: Seq<char>, b: Seq<char>, c: char)
    ensures
        blank(a + b) <==> blank(a) && blank(b),
        blank(Seq::empty()),
        c == ' ' || c == '\t' || c == '\n' || c == '\r' ==> blank(seq![c]),
        33 <= c as int <= 126 ==> !blank(seq![c]),
{
    if blank(a + b) {
        assert forall|i: int| 0 <= i < a.len() implies is_white_space(#[trigger] a[i]) by {
            assert((a + b)[i] == a[i]);
        }
        assert forall|i: int| 0 <= i < b.len() implies is_white_space(#[trigger] b[i]) by {
            assert((a + b)[a.len() + i] == b[i]);
        }
    }
    let one = seq![c];
    assert(one[0] == c);
}

/// Numbers are appended to what is there, and can be read back from what was appended.
pub proof fn appended_numbers_read_back(
    plain: &mut String,
    padded: &mut String,
    split: &mut String,
    alone: String,
    n: u64,
    width: usize,
    coded: &mut String,
    code: u32,
)
    requires
        call_ensures(push_decimal, (plain, n), ()),
        call_ensures(push_padded, (padded, n, width), ()),
        call_ensures(push_grouped, (split, n), ()),
        call_ensures(decimal_string, (n,), alone),
        call_ensures(push_hex, (coded, code), ()),
    ensures
        final(plain)@ == old(plain)@ + alone@,
        numeral_value(alone@) == n,
        alone@.len() > 1 ==> alone@[0] != '0',
        all_digits(alone@),
        ({
            let text = final(padded)@.skip(old(padded)@.len() as int);
            &&& final(padded)@.take(old(padded)@.len() as int) == old(padded)@
            &&& numeral_value(text) == n
            &&& text.len() == width || (text.len() > width && text == alone@)
        }),
        ({
            let text = final(split)@.skip(old(split)@.len() as int);
            &&& final(split)@.take(old(split)@.len() as int) == old(split)@
            &&& without_commas(text) == alone@
            &&& text.len() > 0 && text[0] != ','
            &&& forall|i: int|
                0 <= i < text.len() ==> (#[trigger] text[i] == ',' <==> (text.len() - i) % 4 == 0)
        }),
        ({
            let text = final(coded)@.skip(old(coded)@.len() as int);
            &&& final(coded)@.take(old(coded)@.len() as int) == old(coded)@
            &&& hex_value(text) == code
            &&& code > 0 ==> text[0] != '0'
        }),
{
    decimal_reads_back(n as nat);
    decimals_are_digits(n as nat);
    if n < 10 {
        assert(alone@.len() == 1);
    }
    padding_keeps_the_number(n as nat, width as nat);
    let a = final(padded)@.skip(old(padded)@.len() as int);
    assert(final(padded)@.take(old(padded)@.len() as int) =~= old(padded)@);
    assert(a =~= zero_padded(n as nat, width as nat));
    grouping_only_adds_commas(n as nat);
    every_fourth_is_a_comma(n as nat);
    let b = final(split)@.skip(old(split)@.len() as int);
    assert(final(split)@.take(old(split)@.len() as int) =~= old(split)@);
    assert(b =~= grouped(n as nat));
    hex_reads_back(code as nat);
    lemma_hex_starts(code as nat);
    let c = final(coded)@.skip(old(coded)@.len() as int);
    assert(final(coded)@.take(old(coded)@.len() as int) =~= old(coded)@);
    assert(c =~= hex(code as nat));
}

proof fn lemma_hex_starts(n: nat)
    ensures
        hex(n).len() >= 1,
        n > 0 ==> hex(n)[0] != '0',
    decreases n,
{
    if n >= 16 {
        lemma_hex_starts(n / 16);
        assert(hex(n)[0] == hex(n / 16)[0]);
    }
}

/// Joined texts: none give nothing, one gives itself, and each further one comes after the
/// separator.
pub proof fn joined_texts_follow_each_other(
    parts: &Vec<String>,
    separator: &str,
    text: String,
    fewer: &Vec<String>,
    before: String,
)
    requires
        call_ensures(join_texts, (parts, separator), text),
        call_ensures(join_texts, (fewer, separator), before),
        parts@.len() > 0 ==> fewer@ == parts@.drop_last(),
    ensures
        parts@.len() == 0 ==> text@.len() == 0,
        parts@.len() == 1 ==> text@ == parts@[0]@,
        parts@.len() > 1 ==> text@ == before@ + separator@ + parts@.last()@,
{
    if parts@.len() > 0 {
        assert(texts_view(fewer@) =~= texts_view(parts@).drop_last());
        assert(texts_view(parts@).last() == parts@.last()@);
    }
}

proof fn lemma_ascii_white_space(c: char)
    requires
        is_white_space(c),
    ensures
        c as int == 32 || 9 <= c as int <= 13 || c as int >= 128,
{
}

/// Texts are compared by their characters: exactly, or with the letters from A to Z taken for small
/// ones. A text is blank exactly if no character of it is anything but white space.
pub proof fn texts_are_compared(
    a: &str,
    b: &str,
    same: bool,
    similar: bool,
    empty: bool,
    i: int,
)
    requires
        call_ensures(same_text, (a, b), same),
        call_ensures(eq_ignore_ascii_case, (a, b), similar),
        call_ensures(is_blank, (a,), empty),
        0 <= i < a@.len(),
    ensures
        same <==> a@ == b@,
        same ==> similar,
        similar ==> a@.len() == b@.len(),
        similar ==> a@[i] == b@[i] || (65 <= a@[i] as int <= 90 && b@[i] as int == a@[i] as int + 32)
            || (65 <= b@[i] as int <= 90 && a@[i] as int == b@[i] as int + 32),
        !similar && a@.len() == b@.len() ==> exists|j: int|
            0 <= j < a@.len() && #[trigger] a@[j] != b@[j],
        empty && (a@[i] as int) < 128 ==> a@[i] as int == 32 || 9 <= a@[i] as int <= 13,
        a@.len() == 1 && (a@[i] as int == 32 || 9 <= a@[i] as int <= 13) ==> empty,
{
    if similar {
        assert(ascii_lower(a@[i]) == ascii_lower(b@[i]));
    }
    if empty {
        assert(is_white_space(a@[i]));
        lemma_ascii_white_space(a@[i]);
    }
    if !similar && a@.len() == b@.len() {
        let j = choose|j: int| 0 <= j < a@.len() && ascii_lower(a@[j]) != ascii_lower(b@[j]);
        assert(a@[j] != b@[j]);
    }
}

/// A plus sign may stand before the digits of a number that is read, and changes nothing.
pub proof fn a_plus_sign_changes_nothing(
    text: &str,
    signed: &str,
    n: Option<u32>,
    with_sign: Option<u32>,
)
    requires
        signed@ == seq!['+'] + text@,
        text@.len() > 0 ==> text@[0] != '+',
        call_ensures(parse_u32, (text,), n),
        call_ensures(parse_u32, (signed,), with_sign),
    ensures
        n == with_sign,
        n is Some <==> text@.len() > 0 && all_digits(text@) && numeral_value(text@) <= u32::MAX,
{
    assert(signed@.skip(1) =~= text@);
}

/// A path has a directory exactly if it has a backslash.
pub proof fn no_directory_without_backslash(path: Seq<char>)
    ensures
        directory_of(path) is None <==> !path.contains('\\'),
{
    lemma_directory_of(path);
}

} // verus!
