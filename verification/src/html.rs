//! HTML character references in page titles.
use vstd::prelude::*;

use crate::text;
use crate::text::{chars_of, digit_value, parse_digits, same, text_of};

verus! {

/// The character that a named reference stands for.
pub open spec fn named(name: Seq<char>) -> Option<char> {
    if name == "amp"@ {
        Some('&')
    } else if name == "apos"@ {
        Some('\'')
    } else if name == "quot"@ {
        Some('"')
    } else if name == "lt"@ {
        Some('<')
    } else if name == "gt"@ {
        Some('>')
    } else {
        None
    }
}

/// Whether a number is the scalar value of a character.
pub open spec fn is_scalar(v: int) -> bool {
    0 <= v < 0xD800 || 0xE000 <= v <= 0x10FFFF
}

/// The end of the run of digits that starts at `j`.
pub open spec fn digits_end(s: Seq<char>, j: int, radix: int) -> int
    decreases s.len() - j,
{
    if 0 <= j < s.len() && text::digit(s[j], radix) is Some {
        digits_end(s, j + 1, radix)
    } else {
        j
    }
}

/// Whether `c` is an ASCII letter.
pub open spec fn is_letter(c: char) -> bool {
    'a' <= c <= 'z' || 'A' <= c <= 'Z'
}

/// The longest name that is looked at.
pub const MAX_NAME: usize = 8;

/// The end of the run of letters that starts at `j`, at most `room` letters long.
pub open spec fn letters_end(s: Seq<char>, j: int, room: int) -> int
    decreases s.len() - j,
{
    if 0 <= j < s.len() && 0 < room && is_letter(s[j]) {
        letters_end(s, j + 1, room - 1)
    } else {
        j
    }
}

/// `j`, or the position behind it where a semicolon stands at `j`.
pub open spec fn past_semicolon(s: Seq<char>, j: int) -> int {
    if 0 <= j < s.len() && s[j] == ';' {
        j + 1
    } else {
        j
    }
}

/// The numeric reference at `i`: the number's first digit, its radix and its end.
pub open spec fn numeric_parts(s: Seq<char>, i: int) -> (int, int, int) {
    let hex = s[i + 2] == 'x' || s[i + 2] == 'X';
    let radix = if hex {
        16int
    } else {
        10int
    };
    let start = if hex {
        i + 3
    } else {
        i + 2
    };
    (start, radix, digits_end(s, start, radix))
}

/// The reference that stands at `i`, as the character it stands for and the position
/// behind it. A closing semicolon belongs to the reference and may be missing.
pub open spec fn reference_at(s: Seq<char>, i: int) -> Option<(char, int)> {
    if !(0 <= i < s.len()) || s[i] != '&' {
        None
    } else if i + 2 < s.len() && s[i + 1] == '#' {
        let (start, radix, end) = numeric_parts(s, i);
        let value = text::digits_value(s.subrange(start, end), radix);
        if start < end && is_scalar(value) {
            Some((value as char, past_semicolon(s, end)))
        } else {
            None
        }
    } else {
        let end = letters_end(s, i + 1, MAX_NAME as int);
        match named(s.subrange(i + 1, end)) {
            Some(c) => Some((c, past_semicolon(s, end))),
            None => None,
        }
    }
}

/// `s` from position `i` on, with each reference replaced by its character. An ampersand
/// that begins no reference stands for itself.
pub open spec fn decoded_from(s: Seq<char>, i: int) -> Seq<char>
    decreases s.len() - i,
{
    if !(0 <= i < s.len()) {
        Seq::empty()
    } else {
        match reference_at(s, i) {
            Some((c, next)) => if i < next <= s.len() {
                seq![c] + decoded_from(s, next)
            } else {
                Seq::empty()
            },
            None => seq![s[i]] + decoded_from(s, i + 1),
        }
    }
}

/// `s` with its character references replaced by the characters they stand for.
pub open spec fn decoded(s: Seq<char>) -> Seq<char> {
    decoded_from(s, 0)
}

proof fn lemma_digits_end(s: Seq<char>, j: int, radix: int)
    requires
        0 <= j <= s.len(),
    ensures
        j <= digits_end(s, j, radix) <= s.len(),
        text::all_digits(s.subrange(j, digits_end(s, j, radix)), radix),
    decreases s.len() - j,
{
    if j < s.len() && text::digit(s[j], radix) is Some {
        lemma_digits_end(s, j + 1, radix);
        let end = digits_end(s, j, radix);
        assert forall|i: int| 0 <= i < end - j implies (#[trigger] text::digit(
            s.subrange(j, end)[i],
            radix,
        )) is Some by {
            if i > 0 {
                assert(s.subrange(j, end)[i] == s.subrange(j + 1, end)[i - 1]);
            }
        }
    }
}

proof fn lemma_letters_end(s: Seq<char>, j: int, room: int)
    requires
        0 <= j <= s.len(),
    ensures
        j <= letters_end(s, j, room) <= s.len(),
    decreases s.len() - j,
{
    if j < s.len() && 0 < room && is_letter(s[j]) {
        lemma_letters_end(s, j + 1, room - 1);
    }
}

/// A reference is at least one character long and ends inside the text.
pub proof fn lemma_reference_at(s: Seq<char>, i: int)
    ensures
        reference_at(s, i) matches Some((_, next)) ==> i < next <= s.len(),
{
    if 0 <= i < s.len() && s[i] == '&' {
        if i + 2 < s.len() && s[i + 1] == '#' {
            let (start, radix, _) = numeric_parts(s, i);
            lemma_digits_end(s, start, radix);
        } else {
            lemma_letters_end(s, i + 1, MAX_NAME as int);
        }
    }
}

/// Text without an ampersand is its own decoded form.
pub proof fn law_plain_text_is_unchanged(s: Seq<char>)
    requires
        !s.contains('&'),
    ensures
        decoded(s) == s,
{
    lemma_plain_from(s, 0);
    assert(s.skip(0) =~= s);
}

proof fn lemma_plain_from(s: Seq<char>, i: int)
    requires
        0 <= i <= s.len(),
        !s.contains('&'),
    ensures
        decoded_from(s, i) == s.skip(i),
    decreases s.len() - i,
{
    if i < s.len() {
        assert(s[i] != '&');
        lemma_plain_from(s, i + 1);
        assert(s.skip(i) =~= seq![s[i]] + s.skip(i + 1));
    } else {
        assert(s.skip(i) =~= Seq::empty());
    }
}

/// Decoding never makes text longer.
pub proof fn law_decoding_never_lengthens(s: Seq<char>)
    ensures
        decoded(s).len() <= s.len(),
{
    lemma_decoded_len(s, 0);
}

proof fn lemma_decoded_len(s: Seq<char>, i: int)
    requires
        0 <= i <= s.len(),
    ensures
        decoded_from(s, i).len() <= s.len() - i,
    decreases s.len() - i,
{
    if i < s.len() {
        lemma_reference_at(s, i);
        match reference_at(s, i) {
            Some((_, next)) => lemma_decoded_len(s, next),
            None => lemma_decoded_len(s, i + 1),
        }
    }
}

/// The end of the run of digits that starts at `from`.
fn scan_digits(chars: &Vec<char>, from: usize, radix: u32) -> (r: usize)
    requires
        from <= chars@.len(),
        2 <= radix <= 36,
    ensures
        r == digits_end(chars@, from as int, radix as int),
        from <= r <= chars@.len(),
        text::all_digits(chars@.subrange(from as int, r as int), radix as int),
{
    let mut j: usize = from;
    while j < chars.len() && digit_value(chars[j], radix).is_some()
        invariant
            from <= j <= chars@.len(),
            2 <= radix <= 36,
            digits_end(chars@, from as int, radix as int) == digits_end(
                chars@,
                j as int,
                radix as int,
            ),
        decreases chars@.len() - j,
    {
        j += 1;
    }
    proof {
        lemma_digits_end(chars@, from as int, radix as int);
    }
    j
}

/// The end of the run of letters that starts at `from`.
fn scan_letters(chars: &Vec<char>, from: usize) -> (r: usize)
    requires
        from <= chars@.len(),
    ensures
        r == letters_end(chars@, from as int, MAX_NAME as int),
        from <= r <= chars@.len(),
{
    let mut j: usize = from;
    let mut room: usize = MAX_NAME;
    while j < chars.len() && room > 0 && (('a' <= chars[j] && chars[j] <= 'z') || ('A' <= chars[j]
        && chars[j] <= 'Z'))
        invariant
            from <= j <= chars@.len(),
            letters_end(chars@, from as int, MAX_NAME as int) == letters_end(
                chars@,
                j as int,
                room as int,
            ),
        decreases chars@.len() - j,
    {
        j += 1;
        room -= 1;
    }
    proof {
        lemma_letters_end(chars@, from as int, MAX_NAME as int);
    }
    j
}

/// The character that a named reference stands for.
fn named_character(name: &str) -> (r: Option<char>)
    ensures
        r == named(name@),
{
    if same(name, "amp") {
        Some('&')
    } else if same(name, "apos") {
        Some('\'')
    } else if same(name, "quot") {
        Some('"')
    } else if same(name, "lt") {
        Some('<')
    } else if same(name, "gt") {
        Some('>')
    } else {
        None
    }
}

/// The reference that stands at `i`, as its character and the position behind it.
fn read_reference(chars: &Vec<char>, i: usize) -> (r: Option<(char, usize)>)
    requires
        i < chars@.len(),
    ensures
        r is Some == reference_at(chars@, i as int) is Some,
        r matches Some((c, next)) ==> reference_at(chars@, i as int) == Some((c, next as int)),
        r matches Some((_, next)) ==> i < next <= chars@.len(),
{
    proof {
        lemma_reference_at(chars@, i as int);
    }
    if chars[i] != '&' {
        return None;
    }
    let total = chars.len();
    if total - i > 2 && chars[i + 1] == '#' {
        let hex = chars[i + 2] == 'x' || chars[i + 2] == 'X';
        let radix: u32 = if hex {
            16
        } else {
            10
        };
        let start: usize = if hex {
            i + 3
        } else {
            i + 2
        };
        let end = scan_digits(chars, start, radix);
        if end == start {
            return None;
        }
        match parse_digits(chars, start, end, radix) {
            Some(value) => match char::from_u32(value) {
                Some(c) => {
                    assert(c as int == value as int);
                    assert(c == (value as int) as char);
                    if end < total && chars[end] == ';' {
                        Some((c, end + 1))
                    } else {
                        Some((c, end))
                    }
                },
                None => None,
            },
            None => None,
        }
    } else {
        let end = scan_letters(chars, i + 1);
        let name = text_of(chars, i + 1, end);
        match named_character(name.as_str()) {
            Some(c) => if end < total && chars[end] == ';' {
                Some((c, end + 1))
            } else {
                Some((c, end))
            },
            None => None,
        }
    }
}

/// Replaces the character references of a page title by the characters they stand for:
/// decimal and hexadecimal numbers, and the names `amp`, `apos`, `quot`, `lt` and `gt`.
pub fn decode_html_entities(input: &str) -> (r: String)
    ensures
        r@ == decoded(input@),
{
    let chars = chars_of(input);
    let mut out = String::new();
    let mut i: usize = 0;
    assert(out@ + decoded_from(chars@, 0) =~= decoded(chars@));
    while i < chars.len()
        invariant
            0 <= i <= chars@.len(),
            out@ + decoded_from(chars@, i as int) == decoded(chars@),
        decreases chars@.len() - i,
    {
        let ghost before = out@;
        match read_reference(&chars, i) {
            Some((c, next)) => {
                out.push(c);
                assert(before + (seq![c] + decoded_from(chars@, next as int)) =~= out@
                    + decoded_from(chars@, next as int));
                i = next;
            },
            None => {
                out.push(chars[i]);
                assert(before + (seq![chars@[i as int]] + decoded_from(chars@, i + 1)) =~= out@
                    + decoded_from(chars@, i + 1));
                i += 1;
            },
        }
    }
    assert(out@ + decoded_from(chars@, i as int) =~= out@);
    out
}

} // verus!
