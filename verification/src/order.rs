//! Texts in order.
use crate::text;
use vstd::prelude::*;
use vstd::relations::*;

verus! {

/// Whether `a` comes no later than `b`: character by character, by their scalar values, a
/// text before those that it begins.
pub open spec fn no_later(a: Seq<char>, b: Seq<char>) -> bool
    decreases a.len(),
{
    if a.len() == 0 {
        true
    } else if b.len() == 0 {
        false
    } else if a[0] != b[0] {
        (a[0] as int) < (b[0] as int)
    } else {
        no_later(a.drop_first(), b.drop_first())
    }
}

/// The order of texts as a relation.
pub open spec fn text_order() -> spec_fn(Seq<char>, Seq<char>) -> bool {
    |a: Seq<char>, b: Seq<char>| no_later(a, b)
}

/// A list of texts in order.
pub open spec fn in_order(list: Seq<Seq<char>>) -> Seq<Seq<char>> {
    list.sort_by(text_order())
}

proof fn lemma_reflexive(a: Seq<char>)
    ensures
        no_later(a, a),
    decreases a.len(),
{
    if a.len() > 0 {
        lemma_reflexive(a.drop_first());
    }
}

proof fn lemma_antisymmetric(a: Seq<char>, b: Seq<char>)
    requires
        no_later(a, b),
        no_later(b, a),
    ensures
        a == b,
    decreases a.len(),
{
    if a.len() == 0 || b.len() == 0 {
        assert(a =~= b);
    } else {
        let ra = a.drop_first();
        let rb = b.drop_first();
        assert(a[0] == b[0]);
        lemma_antisymmetric(ra, rb);
        assert(a.len() == b.len());
        assert forall|i: int| 0 <= i < a.len() implies a[i] == b[i] by {
            if i > 0 {
                assert(a[i] == ra[i - 1]);
                assert(b[i] == rb[i - 1]);
            }
        }
        assert(a =~= b);
    }
}

proof fn lemma_transitive(a: Seq<char>, b: Seq<char>, c: Seq<char>)
    requires
        no_later(a, b),
        no_later(b, c),
    ensures
        no_later(a, c),
    decreases a.len(),
{
    if a.len() > 0 && b.len() > 0 && c.len() > 0 && a[0] == b[0] && b[0] == c[0] {
        lemma_transitive(a.drop_first(), b.drop_first(), c.drop_first());
    }
}

proof fn lemma_total(a: Seq<char>, b: Seq<char>)
    ensures
        no_later(a, b) || no_later(b, a),
    decreases a.len(),
{
    if a.len() > 0 && b.len() > 0 {
        if a[0] == b[0] {
            lemma_total(a.drop_first(), b.drop_first());
        } else {
            assert(a[0] as int != b[0] as int);
        }
    }
}

/// Any two texts can be put in order, in one way only.
pub proof fn law_texts_are_ordered()
    ensures
        total_ordering(text_order()),
{
    let leq = text_order();
    assert forall|a: Seq<char>| #[trigger] leq(a, a) by {
        lemma_reflexive(a);
    }
    assert forall|a: Seq<char>, b: Seq<char>| #[trigger] leq(a, b) && #[trigger] leq(b, a) implies a
        == b by {
        lemma_antisymmetric(a, b);
    }
    assert forall|a: Seq<char>, b: Seq<char>, c: Seq<char>| #[trigger]
        leq(a, b) && #[trigger] leq(b, c) implies leq(a, c) by {
        lemma_transitive(a, b, c);
    }
    assert forall|a: Seq<char>, b: Seq<char>| #[trigger] leq(a, b) || #[trigger] leq(b, a) by {
        lemma_total(a, b);
    }
}

/// The order of a list does not depend on the order in which its texts came.
pub proof fn law_order_forgets_order(a: Seq<Seq<char>>, b: Seq<Seq<char>>)
    requires
        a.to_multiset() == b.to_multiset(),
    ensures
        in_order(a) == in_order(b),
{
    law_texts_are_ordered();
    a.lemma_sort_by_ensures(text_order());
    b.lemma_sort_by_ensures(text_order());
    vstd::seq_lib::lemma_sorted_unique(in_order(a), in_order(b), text_order());
}

/// Whether `a` comes no later than `b`.
pub fn is_no_later(a: &str, b: &str) -> (r: bool)
    ensures
        r == no_later(a@, b@),
{
    let x = text::chars_of(a);
    let y = text::chars_of(b);
    let mut i: usize = 0;
    assert(x@.skip(0) =~= x@);
    assert(y@.skip(0) =~= y@);
    while i < x.len()
        invariant
            0 <= i <= x@.len(),
            i <= y@.len(),
            x@ == a@,
            y@ == b@,
            no_later(x@, y@) == no_later(x@.skip(i as int), y@.skip(i as int)),
        decreases x@.len() - i,
    {
        assert(x@.skip(i as int)[0] == x@[i as int]);
        if i >= y.len() {
            return false;
        }
        assert(y@.skip(i as int)[0] == y@[i as int]);
        if x[i] != y[i] {
            return x[i] < y[i];
        }
        assert(x@.skip(i as int).drop_first() =~= x@.skip(i + 1));
        assert(y@.skip(i as int).drop_first() =~= y@.skip(i + 1));
        i += 1;
    }
    true
}

/// Puts a text where it belongs in a list that is in order.
fn place(list: &mut Vec<String>, new: String)
    requires
        sorted_by(text::texts(old(list)@), text_order()),
    ensures
        sorted_by(text::texts(final(list)@), text_order()),
        text::texts(final(list)@).to_multiset() == text::texts(old(list)@).to_multiset().insert(
            new@,
        ),
{
    let ghost before = text::texts(list@);
    let ghost leq = text_order();
    let mut i: usize = 0;
    while i < list.len() && is_no_later(list[i].as_str(), new.as_str())
        invariant
            0 <= i <= list@.len(),
            before == text::texts(list@),
            leq == text_order(),
            forall|k: int| 0 <= k < i ==> no_later(#[trigger] before[k], new@),
        decreases list@.len() - i,
    {
        assert(before[i as int] == list@[i as int]@);
        i += 1;
    }
    proof {
        law_texts_are_ordered();
        if i < before.len() {
            assert(before[i as int] == list@[i as int]@);
            lemma_total(before[i as int], new@);
        }
    }
    list.insert(i, new);
    proof {
        let after = text::texts(list@);
        assert(after =~= before.insert(i as int, new@));
        vstd::seq_lib::to_multiset_insert(before, i as int, new@);
        assert forall|a: int, b: int| 0 <= a < b < after.len() implies #[trigger] leq(
            after[a],
            after[b],
        ) by {
            let oa = if a < i {
                a
            } else {
                a - 1
            };
            let ob = if b < i {
                b
            } else {
                b - 1
            };
            if a != i && b != i {
                assert(after[a] == before[oa] && after[b] == before[ob]);
                assert(leq(before[oa], before[ob]));
            } else if b == i {
                assert(after[a] == before[a]);
            } else {
                assert(after[b] == before[ob]);
                if ob > i {
                    assert(leq(before[i as int], before[ob]));
                    lemma_transitive(new@, before[i as int], before[ob]);
                }
            }
        }
    }
}

/// A list of texts in order.
pub fn sort(list: Vec<String>) -> (r: Vec<String>)
    ensures
        text::texts(r@) == in_order(text::texts(list@)),
{
    let ghost all = text::texts(list@);
    let mut out: Vec<String> = Vec::new();
    proof {
        broadcast use vstd::seq_lib::group_to_multiset_ensures;
        assert(text::texts(out@) =~= Seq::<Seq<char>>::empty());
        assert(all.take(0) =~= Seq::<Seq<char>>::empty());
    }
    for t in it: list
        invariant
            it.seq() == list@,
            all == text::texts(list@),
            sorted_by(text::texts(out@), text_order()),
            text::texts(out@).to_multiset() == all.take(it.index() as int).to_multiset(),
    {
        let ghost n = it.index() as int;
        assert(t@ == all[n]);
        place(&mut out, t);
        proof {
            broadcast use vstd::seq_lib::group_to_multiset_ensures;
            assert(all.take(n + 1) =~= all.take(n).push(all[n]));
        }
    }
    proof {
        law_texts_are_ordered();
        assert(all.take(all.len() as int) =~= all);
        all.lemma_sort_by_ensures(text_order());
        vstd::seq_lib::lemma_sorted_unique(text::texts(out@), in_order(all), text_order());
    }
    out
}

} // verus!
