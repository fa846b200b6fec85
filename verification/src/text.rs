//! Text, seen as a sequence of characters.
//!
//! The specifications in this crate speak of text as `Seq<char>`; the functions here
//! are the handful of operations on such sequences that the rest of the crate needs.
use vstd::prelude::*;

verus! {

/// `String::push` appends one character at the end of the text.
pub assume_specification[ String::push ](s: &mut String, c: char)
    ensures
        final(s)@ == old(s)@.push(c),
;

/// `char::from_u32` gives the character with the given scalar value. The values that
/// are no scalar values (the surrogates, and what lies above the last plane) give `None`.
pub assume_specification[ char::from_u32 ](value: u32) -> (r: Option<char>)
    ensures
        r is Some <==> (value < 0xD800 || 0xE000 <= value <= 0x10FFFF),
        r matches Some(c) ==> c as int == value,
;

/// The text that `String::from_utf8_lossy` reads from bytes.
pub uninterp spec fn utf8_lossy(bytes: Seq<u8>) -> Seq<char>;

/// Calls `String::from_utf8_lossy` on the bytes. The contract says that the outcome is a
/// function of the bytes, and that ASCII bytes are read as the characters they stand for.
#[verifier::external_body]
pub(crate) fn from_utf8_lossy(bytes: &Vec<u8>) -> (r: String)
    ensures
        r@ == utf8_lossy(bytes@),
        (forall|i: int| 0 <= i < bytes@.len() ==> #[trigger] bytes@[i] < 128) ==> r@ == Seq::new(
            bytes@.len(),
            |i: int| bytes@[i] as char,
        ),
{
    String::from_utf8_lossy(bytes).into_owned()
}

// ---------------------------------------------------------------------------
// Building and reading text
// ---------------------------------------------------------------------------

/// The characters of `s`, in order.
pub fn chars_of(s: &str) -> (r: Vec<char>)
    ensures
        r@ == s@,
{
    let mut out: Vec<char> = Vec::new();
    for c in it: s.chars()
        invariant
            out@ == it.seq().take(it.index()),
            it.seq() == s@,
    {
        out.push(c);
    }
    out
}

/// The text made of `chars[from..to]`.
pub fn text_of(chars: &Vec<char>, from: usize, to: usize) -> (r: String)
    requires
        from <= to <= chars@.len(),
    ensures
        r@ == chars@.subrange(from as int, to as int),
{
    let mut out = String::new();
    let mut i: usize = from;
    while i < to
        invariant
            from <= i <= to <= chars@.len(),
            out@ == chars@.subrange(from as int, i as int),
        decreases to - i,
    {
        out.push(chars[i]);
        i += 1;
    }
    out
}

/// Whether two texts are the same.
pub fn same(a: &str, b: &str) -> (r: bool)
    ensures
        r == (a@ == b@),
{
    let left = chars_of(a);
    let right = chars_of(b);
    if left.len() != right.len() {
        return false;
    }
    let mut i: usize = 0;
    while i < left.len()
        invariant
            0 <= i <= left@.len(),
            left@ == a@,
            right@ == b@,
            left@.len() == right@.len(),
            forall|k: int| 0 <= k < i ==> left@[k] == right@[k],
        decreases left@.len() - i,
    {
        if left[i] != right[i] {
            return false;
        }
        i += 1;
    }
    assert(left@ =~= right@);
    true
}

/// Whether an optional text is present and is `b`.
pub fn is_text(a: &Option<String>, b: &str) -> (r: bool)
    ensures
        r == (a matches Some(t) && t@ == b@),
{
    match a {
        Some(t) => same(t.as_str(), b),
        None => false,
    }
}

/// What an optional text holds, as a sequence of characters.
pub open spec fn opt_text(t: Option<String>) -> Option<Seq<char>> {
    match t {
        Some(s) => Some(s@),
        None => None,
    }
}

/// What an optional text holds, the empty text standing for none.
pub open spec fn text_or_empty(t: Option<String>) -> Seq<char> {
    match t {
        Some(s) => s@,
        None => Seq::empty(),
    }
}

/// The text of `t`, or the empty text where there is none.
pub fn or_empty(t: Option<String>) -> (r: String)
    ensures
        r@ == text_or_empty(t),
{
    match t {
        Some(s) => s,
        None => String::new(),
    }
}

/// Whether a text is empty.
pub fn is_empty(s: &str) -> (r: bool)
    ensures
        r == (s@.len() == 0),
{
    chars_of(s).len() == 0
}

/// One text behind the other.
pub fn concat(a: &str, b: &str) -> (r: String)
    ensures
        r@ == a@ + b@,
{
    let mut out = a.to_string();
    out.append(b);
    out
}

/// Three texts in a row.
pub fn concat3(a: &str, b: &str, c: &str) -> (r: String)
    ensures
        r@ == a@ + b@ + c@,
{
    let mut out = a.to_string();
    out.append(b);
    out.append(c);
    out
}

/// What a list of texts holds.
pub open spec fn texts(v: Seq<String>) -> Seq<Seq<char>> {
    v.map_values(|s: String| s@)
}

/// Whether `list` holds the text `wanted`.
pub fn holds_text(list: &Vec<String>, wanted: &str) -> (r: bool)
    ensures
        r == texts(list@).contains(wanted@),
{
    let mut i: usize = 0;
    while i < list.len()
        invariant
            0 <= i <= list@.len(),
            forall|k: int| 0 <= k < i ==> texts(list@)[k] != wanted@,
        decreases list@.len() - i,
    {
        if same(list[i].as_str(), wanted) {
            assert(texts(list@)[i as int] == wanted@);
            return true;
        }
        i += 1;
    }
    false
}

// ---------------------------------------------------------------------------
// Letters, digits and white space
// ---------------------------------------------------------------------------

/// The lower-case form of an ASCII capital; every other character is its own.
pub open spec fn lower(c: char) -> char {
    if 'A' <= c <= 'Z' {
        ((c as u32 + 32) as u32) as char
    } else {
        c
    }
}

/// `s` with its ASCII capitals in lower case.
pub open spec fn lowercase(s: Seq<char>) -> Seq<char> {
    s.map_values(|c: char| lower(c))
}

/// The lower-case form of an ASCII capital; every other character is its own.
pub fn to_lower(c: char) -> (r: char)
    ensures
        r == lower(c),
{
    if 'A' <= c && c <= 'Z' {
        ((c as u8) + 32) as char
    } else {
        c
    }
}

/// `s` with its ASCII capitals in lower case.
pub fn to_lowercase(s: &str) -> (r: String)
    ensures
        r@ == lowercase(s@),
{
    let chars = chars_of(s);
    let mut out = String::new();
    let mut i: usize = 0;
    while i < chars.len()
        invariant
            0 <= i <= chars@.len(),
            out@ == lowercase(chars@.take(i as int)),
        decreases chars@.len() - i,
    {
        out.push(to_lower(chars[i]));
        i += 1;
        assert(lowercase(chars@.take(i as int)) =~= lowercase(chars@.take(i - 1)).push(
            lower(chars@[i - 1]),
        ));
    }
    assert(chars@.take(i as int) =~= chars@);
    out
}

/// Unicode's `White_Space` characters.
pub open spec fn is_white(c: char) -> bool {
    ||| '\u{9}' <= c <= '\u{D}'
    ||| c == ' '
    ||| c == '\u{85}'
    ||| c == '\u{A0}'
    ||| c == '\u{1680}'
    ||| '\u{2000}' <= c <= '\u{200A}'
    ||| c == '\u{2028}'
    ||| c == '\u{2029}'
    ||| c == '\u{202F}'
    ||| c == '\u{205F}'
    ||| c == '\u{3000}'
}

/// Whether `c` is one of Unicode's `White_Space` characters.
pub fn is_whitespace(c: char) -> (r: bool)
    ensures
        r == is_white(c),
{
    ('\u{9}' <= c && c <= '\u{D}') || c == ' ' || c == '\u{85}' || c == '\u{A0}' || c == '\u{1680}'
        || ('\u{2000}' <= c && c <= '\u{200A}') || c == '\u{2028}' || c == '\u{2029}' || c
        == '\u{202F}' || c == '\u{205F}' || c == '\u{3000}'
}

/// The value of `c` as a digit in the given radix, which is at most 36.
pub open spec fn digit(c: char, radix: int) -> Option<int> {
    let v = if '0' <= c <= '9' {
        c as int - '0' as int
    } else if 'a' <= c <= 'z' {
        c as int - 'a' as int + 10
    } else if 'A' <= c <= 'Z' {
        c as int - 'A' as int + 10
    } else {
        radix
    };
    if v < radix {
        Some(v)
    } else {
        None
    }
}

/// The value of `c` as a digit in the given radix.
pub fn digit_value(c: char, radix: u32) -> (r: Option<u32>)
    requires
        2 <= radix <= 36,
    ensures
        r is Some == digit(c, radix as int) is Some,
        r matches Some(v) ==> digit(c, radix as int) == Some(v as int) && v < radix,
{
    let v: u32 = if '0' <= c && c <= '9' {
        c as u32 - '0' as u32
    } else if 'a' <= c && c <= 'z' {
        c as u32 - 'a' as u32 + 10
    } else if 'A' <= c && c <= 'Z' {
        c as u32 - 'A' as u32 + 10
    } else {
        radix
    };
    if v < radix {
        Some(v)
    } else {
        None
    }
}

/// The number that a run of digits writes.
pub open spec fn digits_value(s: Seq<char>, radix: int) -> int
    decreases s.len(),
{
    if s.len() == 0 {
        0
    } else {
        digits_value(s.drop_last(), radix) * radix + digit(s.last(), radix).unwrap_or(0)
    }
}

/// The value of digits is not negative.
pub proof fn lemma_value_not_negative(s: Seq<char>, radix: int)
    requires
        0 <= radix,
        all_digits(s, radix),
    ensures
        digits_value(s, radix) >= 0,
    decreases s.len(),
{
    if s.len() > 0 {
        assert forall|i: int| 0 <= i < s.drop_last().len() implies (#[trigger] digit(
            s.drop_last()[i],
            radix,
        )) is Some by {
            assert(digit(s[i], radix) is Some);
        }
        lemma_value_not_negative(s.drop_last(), radix);
        assert(digit(s.last(), radix) is Some);
        assert(digits_value(s.drop_last(), radix) * radix >= 0) by (nonlinear_arith)
            requires
                digits_value(s.drop_last(), radix) >= 0,
                radix >= 0,
        ;
    }
}

/// Whether every character of `s` is a digit.
pub open spec fn all_digits(s: Seq<char>, radix: int) -> bool {
    forall|i: int| 0 <= i < s.len() ==> (#[trigger] digit(s[i], radix)) is Some
}

/// A number written with more digits is at least as large.
proof fn lemma_digits_value_grows(s: Seq<char>, n: int, radix: int)
    requires
        0 <= n <= s.len(),
        radix >= 2,
    ensures
        0 <= digits_value(s.take(n), radix) <= digits_value(s, radix),
    decreases s.len() - n, n,
{
    if n == s.len() {
        assert(s.take(n) =~= s);
        if n > 0 {
            lemma_digits_value_grows(s.drop_last(), n - 1, radix);
            assert(s.drop_last().take(n - 1) =~= s.drop_last());
            let v = digits_value(s.drop_last(), radix);
            assert(0 <= v * radix) by (nonlinear_arith)
                requires
                    0 <= v,
                    radix >= 2,
            ;
        }
    } else {
        lemma_digits_value_grows(s, n + 1, radix);
        lemma_digits_value_grows(s.take(n), n, radix);
        assert(s.take(n).take(n) =~= s.take(n));
        assert(s.take(n + 1).drop_last() =~= s.take(n));
        let v = digits_value(s.take(n), radix);
        assert(v <= v * radix) by (nonlinear_arith)
            requires
                0 <= v,
                radix >= 2,
        ;
    }
}

/// The number that `chars[from..to]` writes, unless it is above `u32::MAX`.
pub fn parse_digits(chars: &Vec<char>, from: usize, to: usize, radix: u32) -> (r: Option<u32>)
    requires
        from <= to <= chars@.len(),
        2 <= radix <= 36,
        all_digits(chars@.subrange(from as int, to as int), radix as int),
    ensures
        ({
            let v = digits_value(chars@.subrange(from as int, to as int), radix as int);
            0 <= v && r == if v <= u32::MAX { Some(v as u32) } else { None }
        }),
{
    let ghost run = chars@.subrange(from as int, to as int);
    proof {
        lemma_digits_value_grows(run, 0, radix as int);
    }
    let mut value: u64 = 0;
    let mut i: usize = from;
    while i < to
        invariant
            from <= i <= to <= chars@.len(),
            2 <= radix <= 36,
            run == chars@.subrange(from as int, to as int),
            all_digits(run, radix as int),
            value as int == digits_value(run.take(i - from), radix as int),
            value <= u32::MAX,
        decreases to - i,
    {
        assert(chars@[i as int] == run[i - from]);
        assert(digit(run[i - from], radix as int) is Some);
        let d = match digit_value(chars[i], radix) {
            Some(d) => d,
            None => 0,
        };
        assert(value * radix <= u32::MAX * 36) by (nonlinear_arith)
            requires
                value <= u32::MAX,
                radix <= 36,
        ;
        value = value * radix as u64 + d as u64;
        i += 1;
        assert(run.take(i - from).drop_last() =~= run.take(i - from - 1));
        assert(value as int == digits_value(run.take(i - from), radix as int));
        if value > u32::MAX as u64 {
            proof {
                lemma_digits_value_grows(run, i - from, radix as int);
            }
            return None;
        }
    }
    assert(run.take(to - from) =~= run);
    Some(value as u32)
}

/// The number that `s` writes in decimal: digits, with an optional `+` before them.
pub open spec fn decimal_u32(s: Seq<char>) -> Option<u32> {
    let run = if s.len() > 0 && s[0] == '+' {
        s.skip(1)
    } else {
        s
    };
    if run.len() > 0 && all_digits(run, 10) && digits_value(run, 10) <= u32::MAX {
        Some(digits_value(run, 10) as u32)
    } else {
        None
    }
}

/// The number that `s` writes in decimal: digits, with an optional `+` before them.
pub fn parse_u32(s: &str) -> (r: Option<u32>)
    ensures
        r == decimal_u32(s@),
{
    let chars = chars_of(s);
    let from: usize = if chars.len() > 0 && chars[0] == '+' {
        1
    } else {
        0
    };
    let ghost run = chars@.subrange(from as int, chars@.len() as int);
    assert(from == 1 ==> run =~= s@.skip(1));
    assert(from == 0 ==> run =~= s@);
    if from == chars.len() {
        return None;
    }
    let mut i: usize = from;
    while i < chars.len()
        invariant
            from <= i <= chars@.len(),
            run == chars@.subrange(from as int, chars@.len() as int),
            run == if s@.len() > 0 && s@[0] == '+' { s@.skip(1) } else { s@ },
            forall|k: int| 0 <= k < i - from ==> (#[trigger] digit(run[k], 10)) is Some,
        decreases chars@.len() - i,
    {
        assert(run[i - from] == chars@[i as int]);
        if digit_value(chars[i], 10).is_none() {
            assert(digit(run[i - from], 10) is None);
            return None;
        }
        i += 1;
    }
    parse_digits(&chars, from, chars.len(), 10)
}

/// `n` in decimal.
pub open spec fn decimal(n: nat) -> Seq<char>
    decreases n,
{
    if n < 10 {
        seq![(('0' as u32 + n) as u32) as char]
    } else {
        decimal(n / 10).push((('0' as u32 + n % 10) as u32) as char)
    }
}

/// The character for a number below ten.
fn digit_char(d: u64) -> (r: char)
    requires
        d < 10,
    ensures
        r == (('0' as u32 + d) as u32) as char,
{
    (48u8 + d as u8) as char
}

/// `n` in decimal.
pub fn to_decimal(n: u64) -> (r: String)
    ensures
        r@ == decimal(n as nat),
    decreases n,
{
    let mut out = if n < 10 {
        String::new()
    } else {
        to_decimal(n / 10)
    };
    out.push(digit_char(n % 10));
    assert(n < 10 ==> out@ =~= decimal(n as nat));
    out
}

/// `n` in decimal, with a zero before a single digit.
pub open spec fn two_digits(n: nat) -> Seq<char> {
    if n < 10 {
        seq!['0'] + decimal(n)
    } else {
        decimal(n)
    }
}

/// `n` in decimal, with a zero before a single digit.
pub fn to_two_digits(n: u64) -> (r: String)
    ensures
        r@ == two_digits(n as nat),
{
    let digits = to_decimal(n);
    if n < 10 {
        let mut out = String::new();
        out.push('0');
        out.append(digits.as_str());
        assert(out@ =~= seq!['0'] + digits@);
        out
    } else {
        digits
    }
}

/// A decimal numeral has digits only, at least one of them, and reads back as its number.
pub proof fn lemma_decimal_reads_back(n: nat)
    ensures
        decimal(n).len() > 0,
        all_digits(decimal(n), 10),
        digits_value(decimal(n), 10) == n,
    decreases n,
{
    let d = (('0' as u32 + n % 10) as u32) as char;
    assert('0' <= d <= '9' && digit(d, 10) == Some((n % 10) as int));
    if n >= 10 {
        lemma_decimal_reads_back(n / 10);
        assert(decimal(n).drop_last() =~= decimal(n / 10));
        assert forall|i: int| 0 <= i < decimal(n).len() implies (#[trigger] digit(
            decimal(n)[i],
            10,
        )) is Some by {
            if i < decimal(n / 10).len() {
                assert(decimal(n)[i] == decimal(n / 10)[i]);
            }
        }
    } else {
        assert(decimal(n).drop_last() =~= Seq::<char>::empty());
        reveal_with_fuel(digits_value, 2);
    }
}

/// Writing a 32-bit number in decimal and reading the text gives the number back.
pub proof fn law_decimal_round_trip(n: u32)
    ensures
        decimal_u32(decimal(n as nat)) == Some(n),
{
    lemma_decimal_reads_back(n as nat);
    assert(digit(decimal(n as nat)[0], 10) is Some);
    assert(digit('+', 10) is None);
}

} // verus!
