//! String-keyed fields in insertion order.
use vstd::prelude::*;

use crate::text::same;

verus! {

/// No key stands twice.
pub open spec fn distinct_keys<V>(fields: Seq<(Seq<char>, V)>) -> bool {
    forall|i: int, j: int|
        0 <= i < j < fields.len() ==> (#[trigger] fields[i]).0 != (#[trigger] fields[j]).0
}

/// The position of `key`: where it first stands, or the length where it does not stand.
pub open spec fn position<V>(fields: Seq<(Seq<char>, V)>, key: Seq<char>) -> nat
    decreases fields.len(),
{
    if fields.len() == 0 {
        0
    } else if fields[0].0 == key {
        0
    } else {
        1 + position(fields.drop_first(), key)
    }
}

/// The value under `key`.
pub open spec fn lookup<V>(fields: Seq<(Seq<char>, V)>, key: Seq<char>) -> Option<V> {
    let at = position(fields, key);
    if at < fields.len() {
        Some(fields[at as int].1)
    } else {
        None
    }
}

/// The fields after `key` was set: in its place where it stood, else at the end.
pub open spec fn put<V>(fields: Seq<(Seq<char>, V)>, key: Seq<char>, value: V) -> Seq<
    (Seq<char>, V),
> {
    let at = position(fields, key);
    if at < fields.len() {
        fields.update(at as int, (key, value))
    } else {
        fields.push((key, value))
    }
}

/// What `position` says of the sequence: the key stands there, and nowhere before.
pub proof fn lemma_position<V>(fields: Seq<(Seq<char>, V)>, key: Seq<char>)
    ensures
        position(fields, key) <= fields.len(),
        position(fields, key) < fields.len() ==> fields[position(fields, key) as int].0 == key,
        forall|i: int| 0 <= i < position(fields, key) ==> (#[trigger] fields[i]).0 != key,
    decreases fields.len(),
{
    if fields.len() > 0 && fields[0].0 != key {
        let rest = fields.drop_first();
        lemma_position(rest, key);
        assert forall|i: int| 0 <= i < position(fields, key) implies (#[trigger] fields[i]).0
            != key by {
            if i > 0 {
                assert(fields[i] == rest[i - 1]);
            }
        }
    }
}

/// The position is the only place that `lemma_position` allows.
pub proof fn lemma_position_is<V>(fields: Seq<(Seq<char>, V)>, key: Seq<char>, at: int)
    requires
        0 <= at <= fields.len(),
        at < fields.len() ==> fields[at].0 == key,
        forall|i: int| 0 <= i < at ==> (#[trigger] fields[i]).0 != key,
    ensures
        position(fields, key) == at,
{
    lemma_position(fields, key);
}

/// Fields with distinct keys are read back one by one, and a key that none of them has is not
/// found.
pub proof fn lemma_lookup<V>(fields: Seq<(Seq<char>, V)>, key: Seq<char>)
    requires
        distinct_keys(fields),
    ensures
        forall|i: int|
            0 <= i < fields.len() && (#[trigger] fields[i]).0 == key ==> lookup(fields, key)
                == Some(fields[i].1),
        (forall|i: int| 0 <= i < fields.len() ==> (#[trigger] fields[i]).0 != key) ==> lookup(
            fields,
            key,
        ) is None,
{
    lemma_position(fields, key);
}

/// Where a key stands depends on the keys alone.
pub proof fn lemma_position_by_keys<A, B>(
    a: Seq<(Seq<char>, A)>,
    b: Seq<(Seq<char>, B)>,
    key: Seq<char>,
)
    requires
        a.len() == b.len(),
        forall|i: int| 0 <= i < a.len() ==> (#[trigger] a[i]).0 == b[i].0,
    ensures
        position(a, key) == position(b, key),
{
    lemma_position(a, key);
    assert forall|i: int| 0 <= i < position(a, key) implies (#[trigger] b[i]).0 != key by {
        assert(a[i].0 != key);
    }
    lemma_position_is(b, key, position(a, key) as int);
}

/// Setting a field keeps the keys distinct, is read back, and leaves every other key as it was.
pub proof fn lemma_put<V>(fields: Seq<(Seq<char>, V)>, key: Seq<char>, value: V)
    requires
        distinct_keys(fields),
    ensures
        distinct_keys(put(fields, key, value)),
        lookup(put(fields, key, value), key) == Some(value),
        forall|other: Seq<char>|
            other != key ==> #[trigger] lookup(put(fields, key, value), other) == lookup(
                fields,
                other,
            ),
{
    lemma_position(fields, key);
    let after = put(fields, key, value);
    let at = position(fields, key) as int;
    assert(after[at] == (key, value));
    lemma_position_is(after, key, at);
    assert forall|other: Seq<char>| other != key implies #[trigger] lookup(after, other) == lookup(
        fields,
        other,
    ) by {
        lemma_position(fields, other);
        let there = position(fields, other) as int;
        if there < fields.len() {
            assert(after[there] == fields[there]);
            lemma_position_is(after, other, there);
        } else {
            assert forall|i: int| 0 <= i < after.len() implies (#[trigger] after[i]).0 != other by {
                if i != at {
                    assert(after[i] == fields[i]);
                }
            }
            lemma_position_is(after, other, after.len() as int);
        }
    }
}

/// Fields under string keys, each key once, in the order in which the keys came in.
#[derive(Debug, PartialEq)]
pub struct Fields<V> {
    entries: Vec<(String, V)>,
}

impl<V> View for Fields<V> {
    type V = Seq<(Seq<char>, V)>;

    closed spec fn view(&self) -> Seq<(Seq<char>, V)> {
        Seq::new(self.entries@.len(), |i: int| (self.entries@[i].0@, self.entries@[i].1))
    }
}

impl<V> Fields<V> {
    #[verifier::type_invariant]
    spec fn keys_are_distinct(self) -> bool {
        distinct_keys(self@)
    }

    /// No fields.
    pub fn new() -> (fields: Self)
        ensures
            fields@ == Seq::<(Seq<char>, V)>::empty(),
    {
        let fields = Fields { entries: Vec::new() };
        assert(fields@ =~= Seq::<(Seq<char>, V)>::empty());
        fields
    }

    /// The number of fields.
    pub fn len(&self) -> (count: usize)
        ensures
            count == self@.len(),
            distinct_keys(self@),
    {
        proof {
            use_type_invariant(self);
        }
        self.entries.len()
    }

    /// The key of the field at `index`.
    pub fn key_at(&self, index: usize) -> (key: &String)
        requires
            index < self@.len(),
        ensures
            key@ == self@[index as int].0,
    {
        &self.entries[index].0
    }

    /// The value of the field at `index`.
    pub fn value_at(&self, index: usize) -> (value: &V)
        requires
            index < self@.len(),
        ensures
            *value == self@[index as int].1,
    {
        &self.entries[index].1
    }

    /// Where `key` stands, or the number of fields where it does not stand.
    fn find(&self, key: &str) -> (at: usize)
        ensures
            at == position(self@, key@),
    {
        let mut i: usize = 0;
        while i < self.entries.len()
            invariant
                i <= self@.len(),
                self@.len() == self.entries@.len(),
                forall|j: int| 0 <= j < i ==> (#[trigger] self@[j]).0 != key@,
            decreases self.entries.len() - i,
        {
            if same(self.entries[i].0.as_str(), key) {
                assert(self@[i as int].0 == key@);
                proof {
                    lemma_position_is(self@, key@, i as int);
                }
                return i;
            }
            assert(self@[i as int].0 != key@);
            i = i + 1;
        }
        proof {
            lemma_position_is(self@, key@, i as int);
        }
        i
    }

    /// The value under `key`.
    pub fn get(&self, key: &str) -> (value: Option<&V>)
        ensures
            value == match lookup(self@, key@) {
                Some(found) => Some(&found),
                None => None,
            },
    {
        let at: usize = self.find(key);
        if at < self.entries.len() {
            Some(&self.entries[at].1)
        } else {
            None
        }
    }

    /// Sets the field `key`: in its place where the key stands already, else at the end.
    pub fn insert(&mut self, key: String, value: V)
        ensures
            final(self)@ == put(old(self)@, key@, value),
    {
        proof {
            use_type_invariant(&*self);
            lemma_put(self@, key@, value);
            lemma_position(self@, key@);
        }
        let at: usize = self.find(key.as_str());
        let ghost before = self@;
        let mut entries: Vec<(String, V)> = Vec::new();
        std::mem::swap(&mut entries, &mut self.entries);
        if at < entries.len() {
            entries.set(at, (key, value));
        } else {
            entries.push((key, value));
        }
        assert(Seq::new(entries@.len(), |i: int| (entries@[i].0@, entries@[i].1)) =~= put(
            before,
            key@,
            value,
        ));
        self.entries = entries;
    }
}

/// A field's value is a part of the fields.
pub proof fn lemma_value_is_part<V>(fields: Fields<V>)
    ensures
        forall|i: int|
            0 <= i < fields@.len() ==> decreases_to!(fields => (#[trigger] fields@[i]).1),
{
    assert forall|i: int| 0 <= i < fields@.len() implies decreases_to!(fields =>
        (#[trigger] fields@[i]).1) by {
        assert(fields@[i].1 == fields.entries@[i].1);
        assert(decreases_to!(fields => fields.entries));
        assert(decreases_to!(fields.entries => fields.entries@));
        assert(decreases_to!(fields.entries@ => fields.entries@[i]));
        assert(decreases_to!(fields.entries@[i] => fields.entries@[i].1));
    }
}

} // verus!
