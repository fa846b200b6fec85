//! Searching text and cutting it into pieces.
use vstd::prelude::*;

use crate::text;
use crate::text::{chars_of, is_whitespace, text_of};

verus! {

// ---------------------------------------------------------------------------
// Occurrences
// ---------------------------------------------------------------------------

/// Whether `needle` stands in `hay` at position `i`.
pub open spec fn occurs_at(hay: Seq<char>, needle: Seq<char>, i: int) -> bool {
    0 <= i && i + needle.len() <= hay.len() && hay.subrange(i, i + needle.len()) == needle
}

/// Whether `needle` stands somewhere in `hay`.
pub open spec fn occurs(hay: Seq<char>, needle: Seq<char>) -> bool {
    exists|i: int| occurs_at(hay, needle, i)
}

/// Whether `needle` stands in `hay` at position `i`.
fn stands_at(hay: &Vec<char>, needle: &Vec<char>, i: usize) -> (r: bool)
    ensures
        r == occurs_at(hay@, needle@, i as int),
{
    let total = hay.len();
    if needle.len() > total || i > total - needle.len() {
        return false;
    }
    let ghost piece = hay@.subrange(i as int, i + needle@.len());
    let mut k: usize = 0;
    while k < needle.len()
        invariant
            0 <= k <= needle@.len(),
            i + needle@.len() <= hay@.len() == total,
            piece == hay@.subrange(i as int, i + needle@.len()),
            forall|j: int| 0 <= j < k ==> piece[j] == needle@[j],
        decreases needle@.len() - k,
    {
        if hay[i + k] != needle[k] {
            assert(piece[k as int] != needle@[k as int]);
            return false;
        }
        k += 1;
    }
    assert(piece =~= needle@);
    true
}

/// Whether `needle` stands somewhere in `hay`.
pub fn contains(hay: &str, needle: &str) -> (r: bool)
    ensures
        r == occurs(hay@, needle@),
{
    let h = chars_of(hay);
    let n = chars_of(needle);
    let mut i: usize = 0;
    while i < h.len()
        invariant
            0 <= i <= h@.len(),
            h@ == hay@,
            n@ == needle@,
            forall|j: int| 0 <= j < i ==> !occurs_at(h@, n@, j),
        decreases h@.len() - i,
    {
        if stands_at(&h, &n, i) {
            return true;
        }
        i += 1;
    }
    stands_at(&h, &n, i)
}

/// Whether `s` begins with `prefix`.
pub fn starts_with(s: &str, prefix: &str) -> (r: bool)
    ensures
        r == prefix@.is_prefix_of(s@),
{
    let h = chars_of(s);
    let n = chars_of(prefix);
    stands_at(&h, &n, 0)
}

/// Whether `s` ends with `suffix`.
pub fn ends_with(s: &str, suffix: &str) -> (r: bool)
    ensures
        r == suffix@.is_suffix_of(s@),
{
    let h = chars_of(s);
    let n = chars_of(suffix);
    n.len() <= h.len() && stands_at(&h, &n, h.len() - n.len())
}

/// What follows `prefix` in `s`, where `s` begins with it.
pub fn strip_prefix(s: &str, prefix: &str) -> (r: Option<String>)
    ensures
        r is Some <==> prefix@.is_prefix_of(s@),
        r matches Some(rest) ==> rest@ == s@.skip(prefix@.len() as int),
{
    let h = chars_of(s);
    let n = chars_of(prefix);
    if stands_at(&h, &n, 0) {
        let rest = text_of(&h, n.len(), h.len());
        assert(rest@ =~= s@.skip(prefix@.len() as int));
        Some(rest)
    } else {
        None
    }
}

/// `s` without the copies of `suffix` at its end.
pub open spec fn without_suffixes(s: Seq<char>, suffix: Seq<char>) -> Seq<char>
    decreases s.len(),
{
    if suffix.len() > 0 && suffix.is_suffix_of(s) {
        without_suffixes(s.take(s.len() - suffix.len()), suffix)
    } else {
        s
    }
}

/// `s` without the copies of `suffix` at its end.
pub fn trim_end_matches(s: &str, suffix: &str) -> (r: String)
    ensures
        r@ == without_suffixes(s@, suffix@),
{
    let h = chars_of(s);
    let n = chars_of(suffix);
    let mut end: usize = h.len();
    assert(h@.take(end as int) =~= h@);
    if n.len() > 0 {
        while n.len() <= end && stands_at(&h, &n, end - n.len())
            invariant
                0 <= end <= h@.len(),
                n@.len() > 0,
                without_suffixes(h@, n@) == without_suffixes(h@.take(end as int), n@),
            decreases end,
        {
            let ghost cut = h@.take(end as int);
            assert(cut.subrange(cut.len() - n@.len(), cut.len() as int) =~= h@.subrange(
                end - n@.len(),
                end as int,
            ));
            assert(n@.is_suffix_of(cut));
            assert(cut.take(cut.len() - n@.len()) =~= h@.take(end - n@.len()));
            end -= n.len();
        }
        let ghost cut = h@.take(end as int);
        proof {
            if n@.len() <= end {
                assert(cut.subrange(cut.len() - n@.len(), cut.len() as int) =~= h@.subrange(
                    end - n@.len(),
                    end as int,
                ));
            }
        }
    }
    let r = text_of(&h, 0, end);
    assert(r@ =~= h@.take(end as int));
    r
}

// ---------------------------------------------------------------------------
// White space around text
// ---------------------------------------------------------------------------

/// `s` without the white space at its start.
pub open spec fn trimmed_start(s: Seq<char>) -> Seq<char>
    decreases s.len(),
{
    if s.len() > 0 && text::is_white(s[0]) {
        trimmed_start(s.drop_first())
    } else {
        s
    }
}

/// `s` without the white space at its end.
pub open spec fn trimmed_end(s: Seq<char>) -> Seq<char>
    decreases s.len(),
{
    if s.len() > 0 && text::is_white(s.last()) {
        trimmed_end(s.drop_last())
    } else {
        s
    }
}

/// `s` without the white space around it.
pub open spec fn trimmed(s: Seq<char>) -> Seq<char> {
    trimmed_end(trimmed_start(s))
}

/// `s` without the white space at its start.
pub fn trim_start(s: &str) -> (r: String)
    ensures
        r@ == trimmed_start(s@),
{
    let chars = chars_of(s);
    let mut from: usize = 0;
    assert(chars@.skip(0) =~= chars@);
    while from < chars.len() && is_whitespace(chars[from])
        invariant
            0 <= from <= chars@.len(),
            trimmed_start(chars@) == trimmed_start(chars@.skip(from as int)),
        decreases chars@.len() - from,
    {
        assert(chars@.skip(from as int).drop_first() =~= chars@.skip(from + 1));
        from += 1;
    }
    let r = text_of(&chars, from, chars.len());
    assert(r@ =~= chars@.skip(from as int));
    r
}

/// `s` without the white space around it.
pub fn trim(s: &str) -> (r: String)
    ensures
        r@ == trimmed(s@),
{
    let front = trim_start(s);
    let chars = chars_of(front.as_str());
    let mut end: usize = chars.len();
    assert(chars@.take(end as int) =~= chars@);
    while end > 0 && is_whitespace(chars[end - 1])
        invariant
            0 <= end <= chars@.len(),
            trimmed_end(chars@) == trimmed_end(chars@.take(end as int)),
        decreases end,
    {
        assert(chars@.take(end as int).drop_last() =~= chars@.take(end - 1));
        end -= 1;
    }
    let r = text_of(&chars, 0, end);
    assert(r@ =~= chars@.take(end as int));
    r
}

/// Trimmed text neither begins nor ends with white space, and stays as it is when it is
/// trimmed again.
pub proof fn law_trimmed(s: Seq<char>)
    ensures
        trimmed(s).len() > 0 ==> !text::is_white(trimmed(s)[0]) && !text::is_white(trimmed(s).last()),
        trimmed(trimmed(s)) == trimmed(s),
{
    lemma_trimmed_start(s);
    lemma_trimmed_end(trimmed_start(s));
}

proof fn lemma_trimmed_start(s: Seq<char>)
    ensures
        trimmed_start(s).len() > 0 ==> !text::is_white(trimmed_start(s)[0]),
    decreases s.len(),
{
    if s.len() > 0 && text::is_white(s[0]) {
        lemma_trimmed_start(s.drop_first());
    }
}

proof fn lemma_trimmed_end(s: Seq<char>)
    ensures
        trimmed_end(s).is_prefix_of(s),
        trimmed_end(s).len() > 0 ==> !text::is_white(trimmed_end(s).last()) && trimmed_end(s)[0] == s[0],
    decreases s.len(),
{
    if s.len() > 0 && text::is_white(s.last()) {
        lemma_trimmed_end(s.drop_last());
    }
}

// ---------------------------------------------------------------------------
// Pieces between separators
// ---------------------------------------------------------------------------

/// The position of the first `c` in `s`; the length of `s` where there is none.
pub open spec fn find(s: Seq<char>, c: char) -> nat
    decreases s.len(),
{
    if s.len() == 0 || s[0] == c {
        0
    } else {
        1 + find(s.drop_first(), c)
    }
}

/// What `find` gives is a position in `s` or its end, the first where `c` stands.
pub proof fn lemma_find(s: Seq<char>, c: char)
    ensures
        0 <= find(s, c) <= s.len(),
        find(s, c) < s.len() ==> s[find(s, c) as int] == c,
        forall|i: int| 0 <= i < find(s, c) ==> s[i] != c,
    decreases s.len(),
{
    if s.len() > 0 && s[0] != c {
        lemma_find(s.drop_first(), c);
        assert forall|i: int| 0 <= i < find(s, c) implies s[i] != c by {
            if i > 0 {
                assert(s[i] == s.drop_first()[i - 1]);
            }
        }
    }
}

/// A position with no `c` before it is the first, where `c` or the end stands there.
proof fn lemma_is_first(s: Seq<char>, c: char, n: int)
    requires
        0 <= n <= s.len(),
        n < s.len() ==> s[n] == c,
        forall|i: int| 0 <= i < n ==> s[i] != c,
    ensures
        find(s, c) == n,
{
    lemma_find(s, c);
}

/// The position of the first `c` at or after `from`; the length where there is none.
fn find_from(chars: &Vec<char>, c: char, from: usize) -> (r: usize)
    requires
        from <= chars@.len(),
    ensures
        r == from + find(chars@.skip(from as int), c),
        from <= r <= chars@.len(),
        r < chars@.len() ==> chars@[r as int] == c,
{
    let ghost tail = chars@.skip(from as int);
    let mut i: usize = from;
    while i < chars.len() && chars[i] != c
        invariant
            from <= i <= chars@.len(),
            tail == chars@.skip(from as int),
            forall|k: int| 0 <= k < i - from ==> tail[k] != c,
        decreases chars@.len() - i,
    {
        assert(tail[i - from] == chars@[i as int]);
        i += 1;
    }
    proof {
        lemma_is_first(tail, c, i - from);
    }
    i
}

/// The pieces of `s` between the characters `sep`; there is always at least one.
pub open spec fn pieces(s: Seq<char>, sep: char) -> Seq<Seq<char>>
    decreases s.len(),
{
    if find(s, sep) < s.len() {
        seq![s.take(find(s, sep) as int)] + pieces(s.skip(find(s, sep) as int + 1), sep)
    } else {
        seq![s]
    }
}

/// The pieces of `s` between the characters `sep`.
pub fn split(s: &str, sep: char) -> (r: Vec<String>)
    ensures
        text::texts(r@) == pieces(s@, sep),
{
    let chars = chars_of(s);
    let mut out: Vec<String> = Vec::new();
    let mut from: usize = 0;
    assert(chars@.skip(0) =~= chars@);
    assert(text::texts(out@) + pieces(chars@, sep) =~= pieces(chars@, sep));
    loop
        invariant
            from <= chars@.len(),
            pieces(chars@, sep) == text::texts(out@) + pieces(chars@.skip(from as int), sep),
            chars@ == s@,
        decreases chars@.len() - from,
    {
        let end = find_from(&chars, sep, from);
        let ghost tail = chars@.skip(from as int);
        let ghost before = out@;
        let piece = text_of(&chars, from, end);
        assert(piece@ =~= tail.take(end - from));
        proof {
            lemma_find(tail, sep);
        }
        out.push(piece);
        assert(text::texts(out@) =~= text::texts(before).push(tail.take(end - from)));
        if end == chars.len() {
            assert(tail.take(end - from) =~= tail);
            assert(text::texts(out@) =~= text::texts(before) + seq![tail]);
            return out;
        }
        assert(tail.skip(end - from + 1) =~= chars@.skip(end + 1));
        assert(text::texts(before) + (seq![tail.take(end - from)] + pieces(chars@.skip(end + 1), sep))
            =~= text::texts(out@) + pieces(chars@.skip(end + 1), sep));
        from = end + 1;
    }
}

/// The text that `parts` make when `sep` stands between each two of them.
pub open spec fn joined(parts: Seq<Seq<char>>, sep: Seq<char>) -> Seq<char>
    decreases parts.len(),
{
    if parts.len() == 0 {
        Seq::empty()
    } else if parts.len() == 1 {
        parts[0]
    } else {
        parts[0] + sep + joined(parts.drop_first(), sep)
    }
}

/// Splitting loses nothing: no piece holds the separator, and the pieces with the
/// separator between them are the text again.
pub proof fn law_pieces_join(s: Seq<char>, sep: char)
    ensures
        pieces(s, sep).len() > 0,
        joined(pieces(s, sep), seq![sep]) == s,
        forall|i: int| 0 <= i < pieces(s, sep).len() ==> !(#[trigger] pieces(s, sep)[i]).contains(sep),
    decreases s.len(),
{
    lemma_find(s, sep);
    let i = find(s, sep) as int;
    if i < s.len() {
        let rest = s.skip(i + 1);
        law_pieces_join(rest, sep);
        let all = pieces(s, sep);
        assert(all.drop_first() =~= pieces(rest, sep));
        assert(all.len() >= 2);
        assert(s =~= s.take(i) + seq![sep] + rest);
        assert forall|k: int| 0 <= k < all.len() implies !(#[trigger] all[k]).contains(sep) by {
            if k > 0 {
                assert(all[k] == pieces(rest, sep)[k - 1]);
            }
        }
    }
}

/// `s` cut at its first `sep`, which belongs to neither side.
pub open spec fn cut_once(s: Seq<char>, sep: char) -> Option<(Seq<char>, Seq<char>)> {
    if find(s, sep) < s.len() {
        Some((s.take(find(s, sep) as int), s.skip(find(s, sep) as int + 1)))
    } else {
        None
    }
}

/// `s` cut at its first `sep`, which belongs to neither side.
pub fn split_once(s: &str, sep: char) -> (r: Option<(String, String)>)
    ensures
        r is Some == cut_once(s@, sep) is Some,
        r matches Some(p) ==> cut_once(s@, sep) == Some((p.0@, p.1@)),
{
    let chars = chars_of(s);
    let at = find_from(&chars, sep, 0);
    assert(chars@.skip(0) =~= s@);
    if at == chars.len() {
        return None;
    }
    let left = text_of(&chars, 0, at);
    let right = text_of(&chars, at + 1, chars.len());
    assert(left@ =~= s@.take(at as int));
    assert(right@ =~= s@.skip(at + 1));
    Some((left, right))
}

/// What follows the last `sep` in `s`; all of `s` where there is none.
pub open spec fn last_piece(s: Seq<char>, sep: char) -> Seq<char>
    decreases s.len(),
{
    if s.len() == 0 || s.last() == sep {
        Seq::empty()
    } else {
        last_piece(s.drop_last(), sep).push(s.last())
    }
}

pub proof fn lemma_last_piece(s: Seq<char>, sep: char, n: int)
    requires
        0 <= n <= s.len(),
        n > 0 ==> s[n - 1] == sep,
        forall|i: int| n <= i < s.len() ==> s[i] != sep,
    ensures
        last_piece(s, sep) == s.skip(n),
    decreases s.len(),
{
    if n < s.len() {
        lemma_last_piece(s.drop_last(), sep, n);
        assert(s.drop_last().skip(n).push(s.last()) =~= s.skip(n));
    } else {
        assert(s.skip(n) =~= Seq::empty());
    }
}

/// What follows the last `sep` in `s`; all of `s` where there is none.
pub fn after_last(s: &str, sep: char) -> (r: String)
    ensures
        r@ == last_piece(s@, sep),
{
    let chars = chars_of(s);
    let mut from: usize = chars.len();
    while from > 0 && chars[from - 1] != sep
        invariant
            0 <= from <= chars@.len(),
            forall|i: int| from <= i < chars@.len() ==> chars@[i] != sep,
        decreases from,
    {
        from -= 1;
    }
    let r = text_of(&chars, from, chars.len());
    proof {
        lemma_last_piece(chars@, sep, from as int);
        assert(r@ =~= chars@.skip(from as int));
    }
    r
}

/// What follows the last occurrence of `mark` in `s` that starts no later than at `i`, where
/// there is one.
pub open spec fn rest_from(s: Seq<char>, mark: Seq<char>, i: int) -> Option<Seq<char>>
    decreases i + 1,
{
    if i < 0 {
        None
    } else if occurs_at(s, mark, i) {
        Some(s.skip(i + mark.len()))
    } else {
        rest_from(s, mark, i - 1)
    }
}

/// What follows the last occurrence of `mark` in `s`, where there is one.
pub open spec fn after_last_mark(s: Seq<char>, mark: Seq<char>) -> Option<Seq<char>> {
    rest_from(s, mark, s.len() as int)
}

/// What follows the last occurrence of `mark` in `s`, where there is one.
pub fn after_last_of(s: &str, mark: &str) -> (r: Option<String>)
    ensures
        text::opt_text(r) == after_last_mark(s@, mark@),
{
    let h = chars_of(s);
    let n = chars_of(mark);
    let total = h.len();
    let mut i: usize = total;
    loop
        invariant
            0 <= i <= total == h@.len(),
            h@ == s@,
            n@ == mark@,
            after_last_mark(s@, mark@) == rest_from(s@, mark@, i as int),
        decreases i,
    {
        if stands_at(&h, &n, i) {
            let rest = text_of(&h, i + n.len(), total);
            assert(rest@ =~= s@.skip(i + mark@.len()));
            return Some(rest);
        }
        if i == 0 {
            assert(rest_from(s@, mark@, -1) is None);
            return None;
        }
        i -= 1;
    }
}

/// What follows the last mark holds no further mark, and all before it is kept: the text is
/// what stands before the mark, the mark, and what follows it.
pub proof fn law_last_mark(s: Seq<char>, mark: Seq<char>, i: int)
    requires
        0 <= i <= s.len(),
        forall|k: int| i < k ==> !occurs_at(s, mark, k),
    ensures
        match rest_from(s, mark, i) {
            Some(rest) => exists|k: int| #[trigger]
                occurs_at(s, mark, k) && s == s.take(k) + mark + rest && forall|j: int|
                    k < j ==> !occurs_at(s, mark, j),
            None => !occurs(s, mark),
        },
    decreases i,
{
    if occurs_at(s, mark, i) {
        assert(s =~= s.take(i) + mark + s.skip(i + mark.len()));
    } else if i > 0 {
        law_last_mark(s, mark, i - 1);
    } else {
        assert(rest_from(s, mark, -1) is None);
        assert forall|k: int| !occurs_at(s, mark, k) by {}
    }
}

/// The runs of characters in `s` that are not white space.
pub open spec fn words(s: Seq<char>) -> Seq<Seq<char>>
    decreases s.len(),
{
    if s.len() == 0 {
        Seq::empty()
    } else {
        let before = words(s.drop_last());
        if text::is_white(s.last()) {
            before
        } else if s.len() > 1 && !text::is_white(s[s.len() - 2]) {
            before.drop_last().push(before.last().push(s.last()))
        } else {
            before.push(seq![s.last()])
        }
    }
}

/// The words of `s`: its runs of characters that are not white space.
pub fn split_whitespace(s: &str) -> (r: Vec<String>)
    ensures
        text::texts(r@) == words(s@),
{
    let chars = chars_of(s);
    let mut out: Vec<String> = Vec::new();
    let mut i: usize = 0;
    assert(text::texts(out@) =~= Seq::<Seq<char>>::empty());
    while i < chars.len()
        invariant
            0 <= i <= chars@.len(),
            text::texts(out@) == words(chars@.take(i as int)),
            i > 0 && !text::is_white(chars@[i - 1]) ==> out@.len() > 0,
        decreases chars@.len() - i,
    {
        let ghost head = chars@.take(i + 1);
        assert(head.drop_last() =~= chars@.take(i as int));
        assert(head.last() == chars@[i as int]);
        if !is_whitespace(chars[i]) {
            if i > 0 && !is_whitespace(chars[i - 1]) {
                let ghost before = out@;
                let mut word = match out.pop() {
                    Some(w) => w,
                    None => String::new(),
                };
                word.push(chars[i]);
                out.push(word);
                assert(text::texts(out@) =~= text::texts(before).drop_last().push(
                    text::texts(before).last().push(chars@[i as int]),
                ));
            } else {
                let ghost before = out@;
                let mut word = String::new();
                word.push(chars[i]);
                assert(word@ =~= seq![chars@[i as int]]);
                out.push(word);
                assert(text::texts(out@) =~= text::texts(before).push(seq![chars@[i as int]]));
            }
        }
        i += 1;
    }
    assert(chars@.take(i as int) =~= chars@);
    out
}

// ---------------------------------------------------------------------------
// Lines
// ---------------------------------------------------------------------------

/// A line without the carriage return at its end.
pub open spec fn without_return(line: Seq<char>) -> Seq<char> {
    if line.len() > 0 && line.last() == '\r' {
        line.drop_last()
    } else {
        line
    }
}

/// The lines of `s`: what ends with a line feed, or with a carriage return and a line feed,
/// and what follows the last of them unless that is empty.
pub open spec fn lines_of(s: Seq<char>) -> Seq<Seq<char>> {
    let all = pieces(s, '\n');
    let ended = all.drop_last().map_values(|line: Seq<char>| without_return(line));
    if all.last().len() == 0 {
        ended
    } else {
        ended.push(all.last())
    }
}

/// The lines of `s`.
pub fn lines(s: &str) -> (r: Vec<String>)
    ensures
        text::texts(r@) == lines_of(s@),
{
    let all = split(s, '\n');
    let ghost parts = pieces(s@, '\n');
    proof {
        law_pieces_join(s@, '\n');
    }
    let count = all.len();
    assert(count == parts.len());
    let ghost ended = parts.drop_last().map_values(|line: Seq<char>| without_return(line));
    let mut out: Vec<String> = Vec::new();
    let mut i: usize = 0;
    while i + 1 < count
        invariant
            0 <= i < count,
            count == all@.len(),
            text::texts(all@) == parts,
            parts.len() > 0,
            ended == parts.drop_last().map_values(|line: Seq<char>| without_return(line)),
            text::texts(out@) == ended.take(i as int),
        decreases count - i,
    {
        assert(all@[i as int]@ == parts[i as int]);
        let chars = chars_of(all[i].as_str());
        let n = chars.len();
        let line = if n > 0 && chars[n - 1] == '\r' {
            text_of(&chars, 0, n - 1)
        } else {
            text_of(&chars, 0, n)
        };
        assert(line@ =~= without_return(parts[i as int]));
        let ghost before = text::texts(out@);
        out.push(line);
        assert(text::texts(out@) =~= before.push(line@));
        assert(ended.take(i + 1) =~= ended.take(i as int).push(ended[i as int]));
        i += 1;
    }
    assert(ended.take(i as int) =~= ended);
    assert(all@[count - 1]@ == parts.last());
    let rest = chars_of(all[count - 1].as_str());
    if rest.len() > 0 {
        let ghost before = text::texts(out@);
        let last = all[count - 1].clone();
        out.push(last);
        assert(text::texts(out@) =~= before.push(last@));
    }
    out
}

} // verus!
