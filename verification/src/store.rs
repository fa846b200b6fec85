//! The reactive state store: what is known of the machine at run time.
//!
//! The store maps state keys to scalar values and remembers which keys have changed since
//! the marks were last cleared.
use crate::key;
use crate::key::{KeyError, StateKey};
use crate::number::Number;
use crate::text;
use vstd::prelude::*;

verus! {

/// A scalar value.
#[derive(Debug)]
pub enum Value {
    Bool(bool),
    Number(Number),
    Text(String),
}

/// A scalar value, its text taken as a sequence of characters.
pub enum ValueView {
    Bool(bool),
    Number(Number),
    Text(Seq<char>),
}

impl View for Value {
    type V = ValueView;

    open spec fn view(&self) -> ValueView {
        match *self {
            Value::Bool(b) => ValueView::Bool(b),
            Value::Number(n) => ValueView::Number(n),
            Value::Text(t) => ValueView::Text(t@),
        }
    }
}

impl ValueView {
    /// Whether two values are equal, numbers being compared as numbers.
    pub open spec fn same_value(self, other: ValueView) -> bool {
        match (self, other) {
            (ValueView::Bool(a), ValueView::Bool(b)) => a == b,
            (ValueView::Number(a), ValueView::Number(b)) => a.same_value(b),
            (ValueView::Text(a), ValueView::Text(b)) => a == b,
            _ => false,
        }
    }
}

impl Value {
    /// Whether two values are equal, numbers being compared as numbers.
    pub fn equals(&self, other: &Value) -> (r: bool)
        ensures
            r == self@.same_value(other@),
    {
        match (self, other) {
            (Value::Bool(a), Value::Bool(b)) => *a == *b,
            (Value::Number(a), Value::Number(b)) => a.equals(*b),
            (Value::Text(a), Value::Text(b)) => text::same(a.as_str(), b.as_str()),
            _ => false,
        }
    }
}

/// What a store holds.
pub struct StoreView {
    /// The values, by key.
    pub values: Map<Seq<char>, ValueView>,
    /// The keys that have changed since the marks were last cleared.
    pub dirty: Set<Seq<char>>,
}

impl StoreView {
    /// The store after `key` was set to `value`. Setting what is there already changes
    /// nothing.
    #[verifier::opaque]
    pub open spec fn set(self, key: Seq<char>, value: ValueView) -> StoreView {
        if self.values.contains_key(key) && self.values[key].same_value(value) {
            self
        } else {
            StoreView { values: self.values.insert(key, value), dirty: self.dirty.insert(key) }
        }
    }

    /// The truth value under `key`, where it holds one.
    pub open spec fn bool_at(self, key: Seq<char>) -> Option<bool> {
        if self.values.contains_key(key) {
            match self.values[key] {
                ValueView::Bool(b) => Some(b),
                _ => None,
            }
        } else {
            None
        }
    }

    /// The number under `key`, where it holds one.
    pub open spec fn number_at(self, key: Seq<char>) -> Option<Number> {
        if self.values.contains_key(key) {
            match self.values[key] {
                ValueView::Number(n) => Some(n),
                _ => None,
            }
        } else {
            None
        }
    }

    /// The text under `key`, where it holds one.
    pub open spec fn text_at(self, key: Seq<char>) -> Option<Seq<char>> {
        if self.values.contains_key(key) {
            match self.values[key] {
                ValueView::Text(t) => Some(t),
                _ => None,
            }
        } else {
            None
        }
    }

    /// Whether every marked key has a value.
    pub open spec fn marks_are_known(self) -> bool {
        forall|k: Seq<char>| #[trigger] self.dirty.contains(k) ==> self.values.contains_key(k)
    }

    /// Whether `key` holds the truth value true.
    pub open spec fn is_true(self, key: Seq<char>) -> bool {
        self.bool_at(key) == Some(true)
    }

    /// The text under `key`, or the empty text where it holds none.
    pub open spec fn text_or_empty(self, key: Seq<char>) -> Seq<char> {
        self.text_at(key).unwrap_or(Seq::empty())
    }
}

/// The kind of value that a reader asked for.
#[derive(Clone, Copy, Debug, PartialEq, Eq, Structural)]
pub enum Expected {
    Bool,
    Number,
    Text,
}

/// Why a value could not be read or set.
#[derive(Debug)]
pub enum StoreError {
    /// The key of a value to be set is no key.
    InvalidStateKey,
    /// The key of a value to be read is no key.
    Key(KeyError),
    /// Nothing is stored under the key.
    Missing { key: String },
    /// The value under the key is of another kind.
    WrongType { key: String, expected: Expected, found: Value },
}

/// What went wrong when a value of the given kind was read.
pub open spec fn read_fault(
    view: StoreView,
    key: Seq<char>,
    expected: Option<Expected>,
    e: StoreError,
) -> bool {
    match e {
        StoreError::InvalidStateKey => false,
        StoreError::Key(k) => !key::valid_key(key) && key::faulty(key, k),
        StoreError::Missing { key: k } => k@ == key && key::valid_key(key)
            && !view.values.contains_key(key),
        StoreError::WrongType { key: k, expected: x, found } => k@ == key && key::valid_key(key)
            && expected == Some(x) && view.values.contains_key(key) && view.values[key] == found@,
    }
}

struct Entry {
    key: StateKey,
    value: Value,
}

/// The state store.
pub struct Store {
    entries: Vec<Entry>,
    dirty: Vec<StateKey>,
}

/// Whether `i` is the place of the entry for `key`.
spec fn entry_at(entries: Seq<Entry>, key: Seq<char>, i: int) -> bool {
    0 <= i < entries.len() && entries[i].key@ == key
}

/// What the entries map their keys to.
spec fn values_of(entries: Seq<Entry>) -> Map<Seq<char>, ValueView> {
    Map::new(
        |k: Seq<char>| exists|i: int| entry_at(entries, k, i),
        |k: Seq<char>| entries[choose|i: int| entry_at(entries, k, i)].value@,
    )
}

/// The keys in a list.
pub open spec fn keys_in(keys: Seq<StateKey>) -> Set<Seq<char>> {
    Set::new(|k: Seq<char>| exists|i: int| 0 <= i < keys.len() && (#[trigger] keys[i])@ == k)
}

impl View for Store {
    type V = StoreView;

    closed spec fn view(&self) -> StoreView {
        StoreView { values: values_of(self.entries@), dirty: keys_in(self.dirty@) }
    }
}

impl Default for Store {
    fn default() -> (r: Store)
        ensures
            r.wf(),
            r@.values == Map::<Seq<char>, ValueView>::empty(),
            r@.dirty == Set::<Seq<char>>::empty(),
    {
        Store::new()
    }
}

impl Store {
    /// No key has two entries, none is marked twice, and every marked key has a value.
    pub closed spec fn wf(self) -> bool {
        &&& forall|i: int, j: int|
            #![trigger self.entries@[i], self.entries@[j]]
            0 <= i < self.entries@.len() && 0 <= j < self.entries@.len() && self.entries@[i].key@
                == self.entries@[j].key@ ==> i == j
        &&& forall|i: int, j: int|
            #![trigger self.dirty@[i], self.dirty@[j]]
            0 <= i < self.dirty@.len() && 0 <= j < self.dirty@.len() && self.dirty@[i]@
                == self.dirty@[j]@ ==> i == j
        &&& self@.marks_are_known()
    }

    /// An empty store.
    pub fn new() -> (r: Store)
        ensures
            r.wf(),
            r@.values == Map::<Seq<char>, ValueView>::empty(),
            r@.dirty == Set::<Seq<char>>::empty(),
    {
        let r = Store { entries: Vec::new(), dirty: Vec::new() };
        assert(r@.values =~= Map::<Seq<char>, ValueView>::empty());
        assert(r@.dirty =~= Set::<Seq<char>>::empty());
        r
    }

    /// The place of the entry for `key`, or the number of entries where there is none.
    fn position(&self, key: &str) -> (r: usize)
        requires
            self.wf(),
        ensures
            r <= self.entries@.len(),
            r < self.entries@.len() ==> self.entries@[r as int].key@ == key@
                && self@.values.contains_key(key@) && self@.values[key@]
                == self.entries@[r as int].value@,
            r == self.entries@.len() ==> !self@.values.contains_key(key@),
    {
        let mut i: usize = 0;
        while i < self.entries.len()
            invariant
                0 <= i <= self.entries@.len(),
                self.wf(),
                forall|k: int| 0 <= k < i ==> (#[trigger] self.entries@[k]).key@ != key@,
            decreases self.entries@.len() - i,
        {
            if text::same(self.entries[i].key.as_str(), key) {
                proof {
                    assert(entry_at(self.entries@, key@, i as int));
                    let j = choose|j: int| entry_at(self.entries@, key@, j);
                    assert(self.entries@[i as int].key@ == self.entries@[j].key@);
                }
                return i;
            }
            i += 1;
        }
        assert forall|k: int| !entry_at(self.entries@, key@, k) by {}
        i
    }

    /// Marks `key` as changed.
    fn mark(&mut self, key: StateKey)
        requires
            old(self).wf(),
            old(self)@.values.contains_key(key@),
        ensures
            final(self).wf(),
            final(self).entries@ == old(self).entries@,
            final(self)@.dirty == old(self)@.dirty.insert(key@),
    {
        let mut i: usize = 0;
        while i < self.dirty.len()
            invariant
                0 <= i <= self.dirty@.len(),
                *self == *old(self),
                self.wf(),
                forall|k: int| 0 <= k < i ==> (#[trigger] self.dirty@[k])@ != key@,
            decreases self.dirty@.len() - i,
        {
            if text::same(self.dirty[i].as_str(), key.as_str()) {
                assert(self@.dirty.contains(self.dirty@[i as int]@));
                assert(self@.dirty =~= old(self)@.dirty.insert(key@));
                return ;
            }
            i += 1;
        }
        let ghost before = self.dirty@;
        self.dirty.push(key);
        proof {
            assert(self.dirty@ == before.push(key));
            assert forall|k: Seq<char>| #[trigger]
                keys_in(self.dirty@).contains(k) == keys_in(before).insert(key@).contains(k) by {
                if keys_in(before).contains(k) {
                    let i = choose|i: int| 0 <= i < before.len() && (#[trigger] before[i])@ == k;
                    assert(self.dirty@[i]@ == k);
                }
                assert(self.dirty@[before.len() as int]@ == key@);
                if keys_in(self.dirty@).contains(k) {
                    let i = choose|i: int|
                        0 <= i < self.dirty@.len() && (#[trigger] self.dirty@[i])@ == k;
                    if i < before.len() {
                        assert(before[i]@ == k);
                    }
                }
            }
            assert(self@.dirty =~= old(self)@.dirty.insert(key@));
        }
    }

    /// Sets `key` to `value`, and marks it as changed where it did not hold that value.
    pub fn set(&mut self, key: &str, value: Value) -> (r: Result<(), StoreError>)
        requires
            old(self).wf(),
        ensures
            final(self).wf(),
            r is Ok <==> key::valid_key(key@),
            r is Ok ==> final(self)@ == old(self)@.set(key@, value@),
            r matches Err(e) ==> e is InvalidStateKey && *final(self) == *old(self),
    {
        match StateKey::new(key) {
            Ok(k) => {
                self.put_key(k, value);
                Ok(())
            },
            Err(_) => Err(StoreError::InvalidStateKey),
        }
    }

    /// Sets a key that is known to be one.
    pub fn put(&mut self, key: &str, value: Value)
        requires
            old(self).wf(),
            key::valid_key(key@),
        ensures
            final(self).wf(),
            final(self)@ == old(self)@.set(key@, value@),
    {
        match StateKey::new(key) {
            Ok(k) => self.put_key(k, value),
            Err(_) => (),
        }
    }

    fn put_key(&mut self, key: StateKey, value: Value)
        requires
            old(self).wf(),
        ensures
            final(self).wf(),
            final(self)@ == old(self)@.set(key@, value@),
    {
        proof {
            reveal(StoreView::set);
        }
        let at = self.position(key.as_str());
        let ghost before = self.entries@;
        if at < self.entries.len() {
            if !self.entries[at].value.equals(&value) {
                let entry = Entry { key: key.clone(), value };
                self.entries.set(at, entry);
                proof {
                    let after = self.entries@;
                    assert(after == before.update(at as int, entry));
                    lemma_values_updated(before, at as int, entry);
                    assert(self@.dirty == old(self)@.dirty);
                    assert(self@.marks_are_known());
                    assert(self.wf()) by {
                        assert forall|i: int, j: int|
                            #![trigger after[i], after[j]]
                            0 <= i < after.len() && 0 <= j < after.len() && after[i].key@
                                == after[j].key@ implies i == j by {
                            assert(before[i].key@ == before[j].key@);
                        }
                    }
                }
                self.mark(key);
                assert(self@ == old(self)@.set(key@, value@));
            }
        } else {
            let entry = Entry { key: key.clone(), value };
            self.entries.push(entry);
            proof {
                let after = self.entries@;
                assert(after == before.push(entry));
                lemma_values_pushed(before, entry);
                assert(self@.dirty == old(self)@.dirty);
                assert(self@.marks_are_known());
                assert(self.wf()) by {
                    assert forall|i: int, j: int|
                        #![trigger after[i], after[j]]
                        0 <= i < after.len() && 0 <= j < after.len() && after[i].key@
                            == after[j].key@ implies i == j by {
                        if i < before.len() {
                            assert(after[i] == before[i]);
                            assert(entry_at(before, before[i].key@, i));
                        }
                        if j < before.len() {
                            assert(after[j] == before[j]);
                            assert(entry_at(before, before[j].key@, j));
                        }
                    }
                }
            }
            self.mark(key);
        }
    }

    /// The value under `key`.
    pub fn value(&self, key: &str) -> (r: Result<&Value, StoreError>)
        requires
            self.wf(),
        ensures
            r is Ok <==> key::valid_key(key@) && self@.values.contains_key(key@),
            r matches Ok(v) ==> v@ == self@.values[key@],
            r matches Err(e) ==> !(e is WrongType) && read_fault(self@, key@, None, e),
    {
        match StateKey::new(key) {
            Ok(_) => {
                let at = self.position(key);
                if at < self.entries.len() {
                    Ok(&self.entries[at].value)
                } else {
                    Err(StoreError::Missing { key: key.to_string() })
                }
            },
            Err(e) => Err(StoreError::Key(e)),
        }
    }

    /// The truth value under `key`.
    pub fn bool(&self, key: &str) -> (r: Result<bool, StoreError>)
        requires
            self.wf(),
        ensures
            r is Ok <==> key::valid_key(key@) && self@.bool_at(key@) is Some,
            r matches Ok(v) ==> self@.bool_at(key@) == Some(v),
            r matches Err(e) ==> read_fault(self@, key@, Some(Expected::Bool), e),
    {
        match self.value(key) {
            Ok(value) => match value {
                Value::Bool(b) => Ok(*b),
                other => Err(
                    StoreError::WrongType {
                        key: key.to_string(),
                        expected: Expected::Bool,
                        found: other.clone(),
                    },
                ),
            },
            Err(e) => Err(e),
        }
    }

    /// The number under `key`.
    pub fn number(&self, key: &str) -> (r: Result<Number, StoreError>)
        requires
            self.wf(),
        ensures
            r is Ok <==> key::valid_key(key@) && self@.number_at(key@) is Some,
            r matches Ok(v) ==> self@.number_at(key@) == Some(v),
            r matches Err(e) ==> read_fault(self@, key@, Some(Expected::Number), e),
    {
        match self.value(key) {
            Ok(value) => match value {
                Value::Number(n) => Ok(*n),
                other => Err(
                    StoreError::WrongType {
                        key: key.to_string(),
                        expected: Expected::Number,
                        found: other.clone(),
                    },
                ),
            },
            Err(e) => Err(e),
        }
    }

    /// The text under `key`.
    pub fn text(&self, key: &str) -> (r: Result<&str, StoreError>)
        requires
            self.wf(),
        ensures
            r is Ok <==> key::valid_key(key@) && self@.text_at(key@) is Some,
            r matches Ok(v) ==> self@.text_at(key@) == Some(v@),
            r matches Err(e) ==> read_fault(self@, key@, Some(Expected::Text), e),
    {
        match self.value(key) {
            Ok(value) => match value {
                Value::Text(t) => Ok(t.as_str()),
                other => Err(
                    StoreError::WrongType {
                        key: key.to_string(),
                        expected: Expected::Text,
                        found: other.clone(),
                    },
                ),
            },
            Err(e) => Err(e),
        }
    }

    /// Whether `key` holds the truth value true.
    pub fn holds_true(&self, key: &str) -> (r: bool)
        requires
            self.wf(),
            key::valid_key(key@),
        ensures
            r == self@.is_true(key@),
    {
        match self.bool(key) {
            Ok(b) => b,
            Err(_) => false,
        }
    }

    /// The text under `key`, or the empty text where it holds none.
    pub fn text_or_empty(&self, key: &str) -> (r: String)
        requires
            self.wf(),
            key::valid_key(key@),
        ensures
            r@ == self@.text_or_empty(key@),
    {
        match self.text(key) {
            Ok(t) => t.to_string(),
            Err(_) => String::new(),
        }
    }

    /// Whether `key` has changed since the marks were last cleared.
    pub fn is_dirty(&self, key: &str) -> (r: Result<bool, StoreError>)
        requires
            self.wf(),
        ensures
            r is Ok <==> key::valid_key(key@),
            r matches Ok(d) ==> d == self@.dirty.contains(key@),
            r matches Err(e) ==> e is Key && read_fault(self@, key@, None, e),
    {
        match StateKey::new(key) {
            Ok(_) => Ok(self.changed(key)),
            Err(e) => Err(StoreError::Key(e)),
        }
    }

    /// Whether `key` is marked as changed.
    pub fn changed(&self, key: &str) -> (r: bool)
        requires
            self.wf(),
        ensures
            r == self@.dirty.contains(key@),
    {
        let mut i: usize = 0;
        while i < self.dirty.len()
            invariant
                0 <= i <= self.dirty@.len(),
                forall|k: int| 0 <= k < i ==> (#[trigger] self.dirty@[k])@ != key@,
            decreases self.dirty@.len() - i,
        {
            if text::same(self.dirty[i].as_str(), key) {
                return true;
            }
            i += 1;
        }
        false
    }

    /// The keys that have changed since the marks were last cleared, each once.
    pub fn dirty_keys(&self) -> (r: &Vec<StateKey>)
        requires
            self.wf(),
        ensures
            keys_in(r@) == self@.dirty,
            forall|i: int, j: int|
                #![trigger r@[i], r@[j]]
                0 <= i < r@.len() && 0 <= j < r@.len() && r@[i]@ == r@[j]@ ==> i == j,
    {
        &self.dirty
    }

    /// Clears the marks. The values stay.
    pub fn clear_dirty(&mut self)
        requires
            old(self).wf(),
        ensures
            final(self).wf(),
            final(self)@.values == old(self)@.values,
            final(self)@.dirty == Set::<Seq<char>>::empty(),
    {
        self.dirty.clear();
        assert(self@.dirty =~= Set::<Seq<char>>::empty());
    }
}

impl Clone for Value {
    fn clone(&self) -> (r: Value)
        ensures
            r@ == self@,
    {
        match self {
            Value::Bool(b) => Value::Bool(*b),
            Value::Number(n) => Value::Number(*n),
            Value::Text(t) => Value::Text(t.clone()),
        }
    }
}

/// Where no key has two entries, replacing one changes the value of its key alone.
proof fn lemma_values_updated(before: Seq<Entry>, at: int, entry: Entry)
    requires
        0 <= at < before.len(),
        before[at].key@ == entry.key@,
        forall|i: int, j: int|
            #![trigger before[i], before[j]]
            0 <= i < before.len() && 0 <= j < before.len() && before[i].key@ == before[j].key@
                ==> i == j,
    ensures
        values_of(before.update(at, entry)) == values_of(before).insert(entry.key@, entry.value@),
{
    let after = before.update(at, entry);
    let want = values_of(before).insert(entry.key@, entry.value@);
    assert forall|k: Seq<char>| #[trigger]
        values_of(after).contains_key(k) == want.contains_key(k) && (want.contains_key(k)
            ==> values_of(after)[k] == want[k]) by {
        if exists|i: int| entry_at(after, k, i) {
            let i = choose|i: int| entry_at(after, k, i);
            assert(entry_at(before, k, i));
            let j = choose|i: int| entry_at(before, k, i);
            assert(before[i].key@ == before[j].key@);
        }
        if exists|i: int| entry_at(before, k, i) {
            let i = choose|i: int| entry_at(before, k, i);
            assert(entry_at(after, k, i));
        }
        assert(entry_at(after, entry.key@, at));
    }
    assert(values_of(after) =~= want);
}

/// An entry for a new key adds that key alone.
proof fn lemma_values_pushed(before: Seq<Entry>, entry: Entry)
    requires
        !values_of(before).contains_key(entry.key@),
        forall|i: int, j: int|
            #![trigger before[i], before[j]]
            0 <= i < before.len() && 0 <= j < before.len() && before[i].key@ == before[j].key@
                ==> i == j,
    ensures
        values_of(before.push(entry)) == values_of(before).insert(entry.key@, entry.value@),
{
    let after = before.push(entry);
    let want = values_of(before).insert(entry.key@, entry.value@);
    assert forall|k: Seq<char>| #[trigger]
        values_of(after).contains_key(k) == want.contains_key(k) && (want.contains_key(k)
            ==> values_of(after)[k] == want[k]) by {
        assert(entry_at(after, entry.key@, before.len() as int));
        if exists|i: int| entry_at(after, k, i) {
            let i = choose|i: int| entry_at(after, k, i);
            if i < before.len() {
                assert(entry_at(before, k, i));
                let j = choose|i: int| entry_at(before, k, i);
                assert(before[i].key@ == before[j].key@);
            }
        }
        if exists|i: int| entry_at(before, k, i) {
            let i = choose|i: int| entry_at(before, k, i);
            assert(entry_at(after, k, i));
        }
    }
    assert(values_of(after) =~= want);
}

/// Reading gives back what was written: a key that was just set holds a value equal to
/// the one it was set to, unless that value is NaN, which equals nothing.
pub proof fn law_set_then_read(s: StoreView, key: Seq<char>, value: ValueView)
    requires
        !(value matches ValueView::Number(n) && n.is_nan()),
    ensures
        s.set(key, value).values.contains_key(key),
        s.set(key, value).values[key].same_value(value),
{
    reveal(StoreView::set);
}

/// Setting one key leaves every other key's value and mark alone.
pub proof fn law_set_is_local(s: StoreView, key: Seq<char>, value: ValueView, other: Seq<char>)
    requires
        other != key,
    ensures
        s.set(key, value).values.contains_key(other) == s.values.contains_key(other),
        s.values.contains_key(other) ==> s.set(key, value).values[other] == s.values[other],
        s.set(key, value).dirty.contains(other) == s.dirty.contains(other),
{
    reveal(StoreView::set);
}

/// A key is marked exactly when its value changes, and stays marked: setting a key to the
/// value it holds leaves the store as it is, and setting it to another marks it and no other.
pub proof fn law_set_marks_changes(s: StoreView, key: Seq<char>, value: ValueView)
    ensures
        s.values.contains_key(key) && s.values[key].same_value(value) ==> s.set(key, value) == s,
        !(s.values.contains_key(key) && s.values[key].same_value(value)) ==> s.set(
            key,
            value,
        ).dirty.contains(key),
        forall|k: Seq<char>| #[trigger]
            s.set(key, value).dirty.contains(k) == (s.dirty.contains(k) || (k == key && !(
            s.values.contains_key(key) && s.values[key].same_value(value)))),
{
    reveal(StoreView::set);
}

/// Every marked key has a value, in every store.
pub proof fn law_marked_keys_have_values(s: Store)
    requires
        s.wf(),
    ensures
        forall|k: Seq<char>| #[trigger] s@.dirty.contains(k) ==> s@.values.contains_key(k),
{
}

/// Setting a key keeps every marked key's value.
pub proof fn law_set_keeps_marks_known(s: StoreView, key: Seq<char>, value: ValueView)
    requires
        s.marks_are_known(),
    ensures
        s.set(key, value).marks_are_known(),
{
    reveal(StoreView::set);
}

/// Setting a key twice to the same value is setting it once.
pub proof fn law_set_is_idempotent(s: StoreView, key: Seq<char>, value: ValueView)
    requires
        !(value matches ValueView::Number(n) && n.is_nan()),
    ensures
        s.set(key, value).set(key, value) == s.set(key, value),
{
    reveal(StoreView::set);
}

} // verus!
