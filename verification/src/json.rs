//! JSON: reading single values out of a document, and writing texts into one.
use crate::text;
use vstd::prelude::*;

verus! {

// ---------------------------------------------------------------------------
// Reading
// ---------------------------------------------------------------------------

/// The text that stands at a JSON pointer in a document, as `serde_json` reads it: nothing
/// where the bytes are no document, or no text stands there.
pub uninterp spec fn text_at(document: Seq<u8>, pointer: Seq<char>) -> Option<Seq<char>>;

/// The unsigned integer that stands at a JSON pointer in a document, as `serde_json` reads
/// it: nothing where the bytes are no document, or no such number stands there.
pub uninterp spec fn integer_at(document: Seq<u8>, pointer: Seq<char>) -> Option<u64>;

/// The truth value that stands at a JSON pointer in a document, as `serde_json` reads it:
/// nothing where the bytes are no document, or no truth value stands there.
pub uninterp spec fn bool_at(document: Seq<u8>, pointer: Seq<char>) -> Option<bool>;

/// The length of the array that stands at a JSON pointer in a document, as `serde_json`
/// reads it: nothing where the bytes are no document, or no array stands there.
pub uninterp spec fn length_at(document: Seq<u8>, pointer: Seq<char>) -> Option<usize>;

/// Whether anything stands at a JSON pointer in a document, as `serde_json` reads it.
pub uninterp spec fn present_at(document: Seq<u8>, pointer: Seq<char>) -> bool;

/// Calls `serde_json::from_slice` on the document and `serde_json::Value::pointer`. The
/// contract says only that the outcome is a function of the document and the pointer.
#[verifier::external_body]
pub(crate) fn is_present(document: &Vec<u8>, pointer: &str) -> (r: bool)
    ensures
        r == present_at(document@, pointer@),
{
    let value = serde_json::from_slice::<serde_json::Value>(document).ok();
    value.as_ref().and_then(|v| v.pointer(pointer)).is_some()
}

/// Whether bytes are a JSON document, as `serde_json` reads them.
pub uninterp spec fn is_document(document: Seq<u8>) -> bool;

/// Calls `serde_json::from_slice` on the bytes. The contract says only that whether they are
/// a document is a function of the bytes.
#[verifier::external_body]
pub(crate) fn can_read(document: &Vec<u8>) -> (r: bool)
    ensures
        r == is_document(document@),
{
    serde_json::from_slice::<serde_json::Value>(document).is_ok()
}

/// Calls `serde_json::from_slice` on the document, `serde_json::Value::pointer` and
/// `serde_json::Value::as_str`. The contract says only that the outcome is a function of
/// the document and the pointer.
#[verifier::external_body]
pub(crate) fn read_text(document: &Vec<u8>, pointer: &str) -> (r: Option<String>)
    ensures
        text::opt_text(r) == text_at(document@, pointer@),
{
    let value = serde_json::from_slice::<serde_json::Value>(document).ok()?;
    value.pointer(pointer)?.as_str().map(String::from)
}

/// Calls `serde_json::from_slice` on the document, `serde_json::Value::pointer` and
/// `serde_json::Value::as_u64`. The contract says only that the outcome is a function of
/// the document and the pointer.
#[verifier::external_body]
pub(crate) fn read_integer(document: &Vec<u8>, pointer: &str) -> (r: Option<u64>)
    ensures
        r == integer_at(document@, pointer@),
{
    let value = serde_json::from_slice::<serde_json::Value>(document).ok()?;
    value.pointer(pointer)?.as_u64()
}

/// Calls `serde_json::from_slice` on the document, `serde_json::Value::pointer` and
/// `serde_json::Value::as_bool`. The contract says only that the outcome is a function of
/// the document and the pointer.
#[verifier::external_body]
pub(crate) fn read_bool(document: &Vec<u8>, pointer: &str) -> (r: Option<bool>)
    ensures
        r == bool_at(document@, pointer@),
{
    let value = serde_json::from_slice::<serde_json::Value>(document).ok()?;
    value.pointer(pointer)?.as_bool()
}

/// Calls `serde_json::from_slice` on the document, `serde_json::Value::pointer` and
/// `serde_json::Value::as_array`, and gives the array's length. The contract says only that
/// the outcome is a function of the document and the pointer.
#[verifier::external_body]
pub(crate) fn read_length(document: &Vec<u8>, pointer: &str) -> (r: Option<usize>)
    ensures
        r == length_at(document@, pointer@),
{
    let value = serde_json::from_slice::<serde_json::Value>(document).ok()?;
    value.pointer(pointer)?.as_array().map(Vec::len)
}

/// The pointer to a field of an array's element.
pub open spec fn element(array: Seq<char>, i: nat, field: Seq<char>) -> Seq<char> {
    array + "/"@ + text::decimal(i) + field
}

/// The pointer to a field of an array's element.
pub fn element_pointer(array: &str, i: usize, field: &str) -> (r: String)
    ensures
        r@ == element(array@, i as nat, field@),
{
    let head = text::concat3(array, "/", text::to_decimal(i as u64).as_str());
    text::concat(head.as_str(), field)
}

// ---------------------------------------------------------------------------
// Writing
// ---------------------------------------------------------------------------

/// A hexadecimal digit, in lower case.
pub open spec fn hex(n: int) -> char {
    if n < 10 {
        (('0' as int + n) as u32) as char
    } else {
        (('a' as int + n - 10) as u32) as char
    }
}

/// How a character is written in a JSON text.
pub open spec fn escaped(c: char) -> Seq<char> {
    if c == '"' {
        seq!['\\', '"']
    } else if c == '\\' {
        seq!['\\', '\\']
    } else if c == '\u{8}' {
        seq!['\\', 'b']
    } else if c == '\t' {
        seq!['\\', 't']
    } else if c == '\n' {
        seq!['\\', 'n']
    } else if c == '\u{c}' {
        seq!['\\', 'f']
    } else if c == '\r' {
        seq!['\\', 'r']
    } else if (c as int) < 0x20 {
        seq!['\\', 'u', '0', '0', hex(c as int / 16), hex(c as int % 16)]
    } else {
        seq![c]
    }
}

/// How the characters of a text are written in JSON.
pub open spec fn escaped_all(s: Seq<char>) -> Seq<char>
    decreases s.len(),
{
    if s.len() == 0 {
        Seq::empty()
    } else {
        escaped_all(s.drop_last()) + escaped(s.last())
    }
}

/// A text as JSON.
pub open spec fn quoted(s: Seq<char>) -> Seq<char> {
    "\""@ + escaped_all(s) + "\""@
}

/// A hexadecimal digit, in lower case.
fn hex_digit(n: u32) -> (r: char)
    requires
        n < 16,
    ensures
        r == hex(n as int),
{
    if n < 10 {
        (('0' as u8) + (n as u8)) as char
    } else {
        (('a' as u8) + (n as u8 - 10)) as char
    }
}

/// Appends a character as it is written in JSON.
fn push_escaped(out: &mut String, c: char)
    ensures
        final(out)@ == old(out)@ + escaped(c),
{
    let ghost before = out@;
    if c == '"' {
        out.push('\\');
        out.push('"');
    } else if c == '\\' {
        out.push('\\');
        out.push('\\');
    } else if c == '\u{8}' {
        out.push('\\');
        out.push('b');
    } else if c == '\t' {
        out.push('\\');
        out.push('t');
    } else if c == '\n' {
        out.push('\\');
        out.push('n');
    } else if c == '\u{c}' {
        out.push('\\');
        out.push('f');
    } else if c == '\r' {
        out.push('\\');
        out.push('r');
    } else if (c as u32) < 0x20 {
        out.push('\\');
        out.push('u');
        out.push('0');
        out.push('0');
        out.push(hex_digit(c as u32 / 16));
        out.push(hex_digit(c as u32 % 16));
    } else {
        out.push(c);
    }
    assert(out@ =~= before + escaped(c));
}

/// A text as JSON.
pub fn quote(s: &str) -> (r: String)
    ensures
        r@ == quoted(s@),
{
    let chars = text::chars_of(s);
    let mut out = "\"".to_string();
    let mut i: usize = 0;
    assert(out@ =~= "\""@ + escaped_all(chars@.take(0)));
    while i < chars.len()
        invariant
            0 <= i <= chars@.len(),
            out@ == "\""@ + escaped_all(chars@.take(i as int)),
        decreases chars@.len() - i,
    {
        push_escaped(&mut out, chars[i]);
        i += 1;
        proof {
            let now = chars@.take(i as int);
            assert(now.drop_last() =~= chars@.take(i - 1));
            assert(out@ =~= "\""@ + escaped_all(now));
        }
    }
    assert(chars@.take(i as int) =~= chars@);
    out.append("\"");
    out
}

/// A truth value as JSON.
pub open spec fn bool_text(b: bool) -> Seq<char> {
    if b {
        "true"@
    } else {
        "false"@
    }
}

/// A truth value as JSON.
pub fn write_bool(b: bool) -> (r: &'static str)
    ensures
        r@ == bool_text(b),
{
    if b {
        "true"
    } else {
        "false"
    }
}

/// Quoted texts hold no line breaks, so that one fits on a line of its own.
pub proof fn law_quoted_is_one_line(s: Seq<char>)
    ensures
        forall|i: int| 0 <= i < quoted(s).len() ==> #[trigger] quoted(s)[i] != '\n' && quoted(s)[i] != '\r',
{
    lemma_escaped_is_one_line(s);
    reveal_strlit("\"");
    let e = escaped_all(s);
    assert forall|i: int| 0 <= i < quoted(s).len() implies #[trigger] quoted(s)[i] != '\n'
        && quoted(s)[i] != '\r' by {
        if 1 <= i < 1 + e.len() {
            assert(quoted(s)[i] == e[i - 1]);
        }
    }
}

/// No character is written as a line break.
proof fn lemma_escaped_char(c: char)
    ensures
        forall|k: int| 0 <= k < escaped(c).len() ==> #[trigger] escaped(c)[k] != '\n' && escaped(c)[k] != '\r',
{
    let e = escaped(c);
    let n = c as int;
    if n < 0x20 {
        assert(hex(n / 16) as int >= '0' as int);
        assert(hex(n % 16) as int >= '0' as int);
    }
    assert forall|k: int| 0 <= k < e.len() implies #[trigger] e[k] != '\n' && e[k] != '\r' by {
        assert(e.len() <= 6);
        if k == 0 {
            assert(e[0] != '\n' && e[0] != '\r');
        } else if k == 1 {
            assert(e[1] != '\n' && e[1] != '\r');
        } else if k == 2 {
            assert(e[2] != '\n' && e[2] != '\r');
        } else if k == 3 {
            assert(e[3] != '\n' && e[3] != '\r');
        } else if k == 4 {
            assert(e[4] != '\n' && e[4] != '\r');
        } else {
            assert(e[5] != '\n' && e[5] != '\r');
        }
    }
}

proof fn lemma_escaped_is_one_line(s: Seq<char>)
    ensures
        forall|i: int|
            0 <= i < escaped_all(s).len() ==> #[trigger] escaped_all(s)[i] != '\n' && escaped_all(
                s,
            )[i] != '\r',
    decreases s.len(),
{
    if s.len() > 0 {
        lemma_escaped_is_one_line(s.drop_last());
        let head = escaped_all(s.drop_last());
        let last = escaped(s.last());
        lemma_escaped_char(s.last());
        assert forall|i: int| 0 <= i < escaped_all(s).len() implies #[trigger] escaped_all(s)[i]
            != '\n' && escaped_all(s)[i] != '\r' by {
            if i < head.len() {
                assert(escaped_all(s)[i] == head[i]);
            } else {
                let k = i - head.len();
                assert(escaped_all(s)[i] == last[k]);
            }
        }
    }
}

} // verus!
