//! What is shown when something has failed.
use crate::text;
use vstd::prelude::*;

verus! {

/// The byte at position `k` of the picture with the given bits: four bytes for each bit, the
/// lowest bit of each byte first, white for zero and black for one.
pub open spec fn picture_byte(bits: Seq<u8>, k: int) -> u8 {
    if (bits[k / 32] >> (((k % 32) / 4) as u8)) & 1 == 0 {
        0xFF
    } else {
        0
    }
}

/// The picture with the given bits.
pub fn expand_bitmap(bits: &Vec<u8>) -> (r: Vec<u8>)
    ensures
        r@.len() == 32 * bits@.len(),
        forall|k: int| 0 <= k < r@.len() ==> #[trigger] r@[k] == picture_byte(bits@, k),
{
    let mut out: Vec<u8> = Vec::new();
    let mut i: usize = 0;
    while i < bits.len()
        invariant
            0 <= i <= bits@.len(),
            out@.len() == 32 * i,
            forall|k: int| 0 <= k < out@.len() ==> #[trigger] out@[k] == picture_byte(bits@, k),
        decreases bits@.len() - i,
    {
        let byte = bits[i];
        let mut b: u8 = 0;
        while b < 8
            invariant
                0 <= b <= 8,
                i < bits@.len(),
                byte == bits@[i as int],
                out@.len() == 32 * i + 4 * b,
                forall|k: int| 0 <= k < out@.len() ==> #[trigger] out@[k] == picture_byte(bits@, k),
            decreases 8 - b,
        {
            let ghost before = out@;
            let bit: u8 = (byte >> b) & 1;
            let color: u8 = if bit == 0 {
                0xFF
            } else {
                0
            };
            out.push(color);
            out.push(color);
            out.push(color);
            out.push(color);
            proof {
                assert forall|k: int| 0 <= k < out@.len() implies #[trigger] out@[k]
                    == picture_byte(bits@, k) by {
                    if k < before.len() {
                        assert(out@[k] == before[k]);
                    } else {
                        assert(k / 32 == i);
                        assert((k % 32) / 4 == b);
                    }
                }
            }
            b += 1;
        }
        i += 1;
    }
    out
}

/// The most bytes of an error that are shown.
pub const ERROR_BYTES: usize = 160;

/// The bytes that UTF-8 takes for a character.
pub open spec fn utf8_len(c: char) -> nat {
    if (c as u32) < 0x80 {
        1
    } else if (c as u32) < 0x800 {
        2
    } else if (c as u32) < 0x10000 {
        3
    } else {
        4
    }
}

/// The bytes that UTF-8 takes for a text.
pub open spec fn utf8_size(s: Seq<char>) -> nat
    decreases s.len(),
{
    if s.len() == 0 {
        0
    } else {
        utf8_size(s.drop_last()) + utf8_len(s.last())
    }
}

/// A text on one line: a bar stands for each line break.
pub open spec fn on_one_line(s: Seq<char>) -> Seq<char>
    decreases s.len(),
{
    if s.len() == 0 {
        Seq::empty()
    } else if s.last() == '\n' {
        on_one_line(s.drop_last()) + " | "@
    } else {
        on_one_line(s.drop_last()).push(s.last())
    }
}

/// Whether `cut` is the longest beginning of `s` that takes at most `room` bytes.
pub open spec fn longest_fit(s: Seq<char>, cut: Seq<char>, room: nat) -> bool {
    &&& cut.is_prefix_of(s)
    &&& utf8_size(cut) <= room
    &&& cut.len() < s.len() ==> utf8_size(s.take(cut.len() as int + 1)) > room
}

/// The bytes that UTF-8 takes for a character.
fn char_size(c: char) -> (r: usize)
    ensures
        r == utf8_len(c),
{
    let code = c as u32;
    if code < 0x80 {
        1
    } else if code < 0x800 {
        2
    } else if code < 0x10000 {
        3
    } else {
        4
    }
}

/// A text on one line: a bar stands for each line break.
fn join_lines(message: &str) -> (r: String)
    ensures
        r@ == on_one_line(message@),
{
    let chars = text::chars_of(message);
    let mut out = String::new();
    let mut i: usize = 0;
    while i < chars.len()
        invariant
            0 <= i <= chars@.len(),
            out@ == on_one_line(chars@.take(i as int)),
        decreases chars@.len() - i,
    {
        assert(chars@.take(i + 1).drop_last() =~= chars@.take(i as int));
        if chars[i] == '\n' {
            out = text::concat(out.as_str(), " | ");
        } else {
            out.push(chars[i]);
        }
        i += 1;
    }
    assert(chars@.take(i as int) =~= chars@);
    out
}

/// The line that tells of an error: its message on one line, cut where it is too long.
pub fn error_line(message: &str) -> (r: String)
    ensures
        longest_fit(on_one_line(message@), r@, ERROR_BYTES as nat),
{
    let line = join_lines(message);
    let chars = text::chars_of(line.as_str());
    let mut size: usize = 0;
    let mut i: usize = 0;
    while i < chars.len() && size + char_size(chars[i]) <= ERROR_BYTES
        invariant
            0 <= i <= chars@.len(),
            size <= ERROR_BYTES,
            size == utf8_size(chars@.take(i as int)),
        decreases chars@.len() - i,
    {
        assert(chars@.take(i + 1).drop_last() =~= chars@.take(i as int));
        size += char_size(chars[i]);
        i += 1;
    }
    let cut = text::text_of(&chars, 0, i);
    assert(cut@ =~= chars@.take(i as int));
    if i < chars.len() {
        assert(chars@.take(i + 1).drop_last() =~= chars@.take(i as int));
    }
    cut
}

/// A short message without line breaks is shown whole.
pub proof fn law_short_error_is_whole(message: Seq<char>, cut: Seq<char>)
    requires
        !message.contains('\n'),
        utf8_size(message) <= ERROR_BYTES,
        longest_fit(on_one_line(message), cut, ERROR_BYTES as nat),
    ensures
        cut == message,
{
    lemma_one_line(message);
    if cut.len() < message.len() {
        lemma_size_grows(message, cut.len() as int + 1);
    }
    assert(cut =~= message);
}

/// A text without line breaks stands on one line.
proof fn lemma_one_line(s: Seq<char>)
    requires
        !s.contains('\n'),
    ensures
        on_one_line(s) == s,
    decreases s.len(),
{
    if s.len() > 0 {
        assert forall|i: int| 0 <= i < s.drop_last().len() implies s.drop_last()[i] != '\n' by {
            assert(s.contains(s[i]));
        }
        assert(s.contains(s.last()));
        lemma_one_line(s.drop_last());
        assert(s.drop_last().push(s.last()) =~= s);
    } else {
        assert(s =~= Seq::empty());
    }
}

/// A beginning takes no more bytes than the whole.
proof fn lemma_size_grows(s: Seq<char>, n: int)
    requires
        0 <= n <= s.len(),
    ensures
        utf8_size(s.take(n)) <= utf8_size(s),
    decreases s.len(),
{
    if n < s.len() {
        lemma_size_grows(s.drop_last(), n);
        assert(s.drop_last().take(n) =~= s.take(n));
    } else {
        assert(s.take(n) =~= s);
    }
}

} // verus!
