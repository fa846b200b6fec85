//! The focused window, as the compositor reports it.
use crate::scan;
use crate::text;
use vstd::prelude::*;

verus! {

/// What the compositor has reported: the focused window, and the start of a line that is not
/// complete yet.
#[derive(Debug)]
pub struct ContextListener {
    pub buf: Vec<u8>,
    pub class: String,
    pub title: String,
}

/// The focused window.
pub struct FocusView {
    pub class: Seq<char>,
    pub title: Seq<char>,
}

/// Where the first line of a buffer ends, or the buffer's length where no line is complete.
pub open spec fn line_end(buf: Seq<u8>) -> nat
    decreases buf.len(),
{
    if buf.len() == 0 || buf[0] == 10 {
        0
    } else {
        1 + line_end(buf.drop_first())
    }
}

/// What `line_end` gives is the first line feed, or the end.
pub proof fn lemma_line_end(buf: Seq<u8>)
    ensures
        line_end(buf) <= buf.len(),
        line_end(buf) < buf.len() ==> buf[line_end(buf) as int] == 10,
        forall|i: int| 0 <= i < line_end(buf) ==> buf[i] != 10,
    decreases buf.len(),
{
    if buf.len() > 0 && buf[0] != 10 {
        lemma_line_end(buf.drop_first());
        assert forall|i: int| 0 <= i < line_end(buf) implies buf[i] != 10 by {
            if i > 0 {
                assert(buf[i] == buf.drop_first()[i - 1]);
            }
        }
    }
}

/// The focused window after a line: `activewindow>>` is followed by the class, which has no
/// comma, then by a comma and the title.
pub open spec fn after_line(focus: FocusView, line: Seq<char>) -> FocusView {
    if "activewindow>>"@.is_prefix_of(line) {
        let rest = line.skip("activewindow>>"@.len() as int);
        match scan::cut_once(rest, ',') {
            Some((class, title)) => FocusView { class, title },
            None => FocusView { class: rest, title: Seq::empty() },
        }
    } else {
        focus
    }
}

/// The focused window after all complete lines of a buffer, whether it has changed on the
/// way, and what is left of the buffer.
pub open spec fn after_lines(focus: FocusView, buf: Seq<u8>) -> (FocusView, bool, Seq<u8>)
    decreases buf.len(),
{
    let end = line_end(buf) as int;
    if end < buf.len() {
        let next = after_line(focus, text::utf8_lossy(buf.take(end)));
        let (last, changed, rest) = after_lines(next, buf.skip(end + 1));
        (last, changed || next != focus, rest)
    } else {
        (focus, false, buf)
    }
}

/// Where the line that starts at `from` ends.
pub(crate) fn find_line_end(buf: &Vec<u8>, from: usize) -> (r: usize)
    requires
        from <= buf@.len(),
    ensures
        from <= r <= buf@.len(),
        r == from + line_end(buf@.skip(from as int)),
{
    let mut i: usize = from;
    while i < buf.len()
        invariant
            from <= i <= buf@.len(),
            from + line_end(buf@.skip(from as int)) == i + line_end(buf@.skip(i as int)),
        decreases buf@.len() - i,
    {
        assert(buf@.skip(i as int)[0] == buf@[i as int]);
        if buf[i] == 10 {
            return i;
        }
        assert(buf@.skip(i as int).drop_first() =~= buf@.skip(i + 1));
        i += 1;
    }
    i
}

/// The bytes `buf[from..to]`.
pub(crate) fn bytes_of(buf: &Vec<u8>, from: usize, to: usize) -> (r: Vec<u8>)
    requires
        from <= to <= buf@.len(),
    ensures
        r@ == buf@.subrange(from as int, to as int),
{
    let mut out: Vec<u8> = Vec::new();
    let mut i: usize = from;
    while i < to
        invariant
            from <= i <= to <= buf@.len(),
            out@ == buf@.subrange(from as int, i as int),
        decreases to - i,
    {
        out.push(buf[i]);
        i += 1;
        assert(buf@.subrange(from as int, i as int) =~= buf@.subrange(from as int, i - 1).push(
            buf@[i - 1],
        ));
    }
    out
}

impl ContextListener {
    /// The focused window.
    pub open spec fn focus(self) -> FocusView {
        FocusView { class: self.class@, title: self.title@ }
    }

    /// A listener that has heard nothing.
    pub fn new() -> (r: ContextListener)
        ensures
            r.buf@ == Seq::<u8>::empty(),
            r.focus() == (FocusView { class: Seq::empty(), title: Seq::empty() }),
    {
        let r = ContextListener { buf: Vec::new(), class: String::new(), title: String::new() };
        assert(r.class@ =~= Seq::<char>::empty());
        r
    }

    /// Takes note of one line, and says whether the focused window has changed.
    pub fn take_line(&mut self, line: &str) -> (r: bool)
        ensures
            final(self).buf == old(self).buf,
            final(self).focus() == after_line(old(self).focus(), line@),
            r == (after_line(old(self).focus(), line@) != old(self).focus()),
    {
        match scan::strip_prefix(line, "activewindow>>") {
            Some(rest) => {
                let (class, title) = match scan::split_once(rest.as_str(), ',') {
                    Some((c, t)) => (c, t),
                    None => {
                        let none = String::new();
                        assert(none@ =~= Seq::<char>::empty());
                        (rest.clone(), none)
                    },
                };
                if !text::same(class.as_str(), self.class.as_str()) || !text::same(
                    title.as_str(),
                    self.title.as_str(),
                ) {
                    self.class = class;
                    self.title = title;
                    true
                } else {
                    false
                }
            },
            None => false,
        }
    }

    /// Takes note of all complete lines in the buffer, and says whether the focused window
    /// has changed. The start of an incomplete line stays in the buffer.
    pub fn parse_lines(&mut self) -> (r: bool)
        ensures
            (final(self).focus(), r, final(self).buf@) == after_lines(
                old(self).focus(),
                old(self).buf@,
            ),
    {
        let ghost all = self.buf@;
        let ghost start = self.focus();
        let total = self.buf.len();
        let mut changed = false;
        let mut from: usize = 0;
        assert(all.skip(0) =~= all);
        loop
            invariant
                from <= total == all.len(),
                self.buf@ == all,
                ({
                    let (last, more, rest) = after_lines(self.focus(), all.skip(from as int));
                    after_lines(start, all) == (last, changed || more, rest)
                }),
            ensures
                self.buf@ == all,
                from <= total,
                after_lines(start, all) == (self.focus(), changed, all.skip(from as int)),
            decreases total - from,
        {
            let end = find_line_end(&self.buf, from);
            let ghost here = all.skip(from as int);
            let ghost before = self.focus();
            if end == total {
                break;
            }
            let line = text::from_utf8_lossy(&bytes_of(&self.buf, from, end));
            assert(all.subrange(from as int, end as int) =~= here.take(end - from));
            assert(here.skip(end - from + 1) =~= all.skip(end + 1));
            let now = self.take_line(line.as_str());
            changed = changed || now;
            from = end + 1;
        }
        let rest = bytes_of(&self.buf, from, total);
        assert(rest@ =~= all.skip(from as int));
        self.buf = rest;
        changed
    }
}

/// A line is read the same however it arrives: what is left of one part of the stream,
/// followed by the next part, gives what both parts give at once.
pub proof fn law_chunks_do_not_matter(focus: FocusView, a: Seq<u8>, b: Seq<u8>)
    ensures
        ({
            let (mid, c1, rest) = after_lines(focus, a);
            let (last, c2, left) = after_lines(mid, rest + b);
            after_lines(focus, a + b) == (last, c1 || c2, left)
        }),
    decreases a.len(),
{
    lemma_line_end(a);
    lemma_line_end(a + b);
    let end = line_end(a) as int;
    if end < a.len() {
        let both = a + b;
        let e2 = line_end(both) as int;
        assert(both[end] == 10);
        assert(e2 == end) by {
            if e2 < end {
                assert(both[e2] == a[e2]);
            }
        }
        assert(both.take(end) =~= a.take(end));
        assert(both.skip(end + 1) =~= a.skip(end + 1) + b);
        law_chunks_do_not_matter(
            after_line(focus, text::utf8_lossy(a.take(end))),
            a.skip(end + 1),
            b,
        );
    }
}

} // verus!
