//! The domain record that filters transform: a post, modelled as a set of
//! named fields holding scalar values, keyed by distinct names.
//!
//! The record shape is deliberately flat: a field holds a string, an
//! integer or a boolean, nothing else. A script that hands back a value
//! outside this shape — a float, a nested table, a non-string key — is
//! rejected at the marshalling boundary as a marshalling error rather than
//! carried opaquely.

use vstd::prelude::*;

verus! {

/// A scalar value that one field of a record can hold.
#[derive(Debug)]
pub enum FieldValue {
    Str(String),
    Int(i64),
    Bool(bool),
}

/// The mathematical value of one record field.
pub ghost enum FieldVal {
    Str(Seq<char>),
    Int(int),
    Bool(bool),
}

impl View for FieldValue {
    type V = FieldVal;

    open spec fn view(&self) -> FieldVal {
        match self {
            FieldValue::Str(s) => FieldVal::Str(s@),
            FieldValue::Int(i) => FieldVal::Int(*i as int),
            FieldValue::Bool(b) => FieldVal::Bool(*b),
        }
    }
}

impl Clone for FieldValue {
    fn clone(&self) -> (r: Self)
        ensures
            r == *self,
    {
        match self {
            FieldValue::Str(s) => FieldValue::Str(s.clone()),
            FieldValue::Int(i) => FieldValue::Int(*i),
            FieldValue::Bool(b) => FieldValue::Bool(*b),
        }
    }
}

/// No two pairs of the sequence carry the same key.
pub open spec fn distinct_keys(s: Seq<(String, FieldValue)>) -> bool {
    forall|i: int, j: int| 0 <= i < j < s.len() ==> (#[trigger] s[i]).0@ != (#[trigger] s[j]).0@
}

/// The map that a sequence of key/value pairs denotes; a later pair wins over
/// an earlier one with the same key.
pub open spec fn pairs_map(s: Seq<(String, FieldValue)>) -> Map<Seq<char>, FieldVal>
    decreases s.len(),
{
    if s.len() == 0 {
        Map::empty()
    } else {
        pairs_map(s.drop_last()).insert(s.last().0@, s.last().1@)
    }
}

pub proof fn lemma_pairs_map_contains(s: Seq<(String, FieldValue)>, k: Seq<char>)
    ensures
        pairs_map(s).dom().contains(k) <==> (exists|i: int|
            0 <= i < s.len() && (#[trigger] s[i]).0@ == k),
    decreases s.len(),
{
    if s.len() > 0 {
        lemma_pairs_map_contains(s.drop_last(), k);
        if s.last().0@ == k {
            assert(s[s.len() - 1].0@ == k);
        } else if pairs_map(s).dom().contains(k) {
            let i = choose|i: int| 0 <= i < s.drop_last().len() && (#[trigger] s.drop_last()[i]).0@ == k;
            assert(s[i].0@ == k);
        } else {
            assert(forall|i: int| 0 <= i < s.len() - 1 ==> (#[trigger] s[i]).0@ == s.drop_last()[i].0@);
        }
    }
}

pub proof fn lemma_pairs_map_value(s: Seq<(String, FieldValue)>, i: int)
    requires
        distinct_keys(s),
        0 <= i < s.len(),
    ensures
        pairs_map(s).dom().contains(s[i].0@),
        pairs_map(s)[s[i].0@] == s[i].1@,
    decreases s.len(),
{
    if i == s.len() - 1 {
        assert(s.last() == s[i]);
    } else {
        assert(distinct_keys(s.drop_last())) by {
            assert(forall|m: int, n: int|
                0 <= m < n < s.drop_last().len() ==> s.drop_last()[m] == s[m] && s.drop_last()[n]
                    == s[n]);
        }
        lemma_pairs_map_value(s.drop_last(), i);
        assert(s.drop_last()[i] == s[i]);
        assert(s[i].0@ != s.last().0@);
    }
}

/// Extending the sequence by one pair inserts that pair into the map.
pub proof fn lemma_pairs_map_take_step(s: Seq<(String, FieldValue)>, i: int)
    requires
        0 <= i < s.len(),
    ensures
        pairs_map(s.take(i + 1)) == pairs_map(s.take(i)).insert(s[i].0@, s[i].1@),
{
    assert(s.take(i + 1).drop_last() =~= s.take(i));
    assert(s.take(i + 1).last() == s[i]);
}

/// Replacing the pair at `i` by one with the same key re-inserts that key.
pub proof fn lemma_pairs_map_update(s: Seq<(String, FieldValue)>, i: int, p: (String, FieldValue))
    requires
        distinct_keys(s),
        0 <= i < s.len(),
        p.0@ == s[i].0@,
    ensures
        pairs_map(s.update(i, p)) == pairs_map(s).insert(p.0@, p.1@),
    decreases s.len(),
{
    let t = s.update(i, p);
    if i == s.len() - 1 {
        assert(t.drop_last() =~= s.drop_last());
        assert(t.last() == p);
        assert(pairs_map(t) == pairs_map(s.drop_last()).insert(p.0@, p.1@));
        assert(pairs_map(s.drop_last()).insert(s.last().0@, s.last().1@).insert(p.0@, p.1@)
            =~= pairs_map(s.drop_last()).insert(p.0@, p.1@));
    } else {
        assert(distinct_keys(s.drop_last())) by {
            assert(forall|m: int, n: int|
                0 <= m < n < s.drop_last().len() ==> s.drop_last()[m] == s[m] && s.drop_last()[n]
                    == s[n]);
        }
        assert(t.drop_last() =~= s.drop_last().update(i, p));
        assert(t.last() == s.last());
        lemma_pairs_map_update(s.drop_last(), i, p);
        // The two inserted keys differ, so the inserts commute.
        assert(s[i].0@ != s.last().0@);
        assert(pairs_map(s.drop_last()).insert(p.0@, p.1@).insert(s.last().0@, s.last().1@)
            =~= pairs_map(s.drop_last()).insert(s.last().0@, s.last().1@).insert(p.0@, p.1@));
    }
}

/// A post passed through filters: a collection of named scalar fields.
/// The names are distinct; the collection is unordered in meaning, and
/// `as_map` is its mathematical value.
#[derive(Debug)]
pub struct Tweet {
    pub fields: Vec<(String, FieldValue)>,
}

impl Tweet {
    /// The field names are distinct.
    pub open spec fn wf(&self) -> bool {
        distinct_keys(self.fields@)
    }

    /// The record's value: a map from field name to field value.
    pub open spec fn as_map(&self) -> Map<Seq<char>, FieldVal> {
        pairs_map(self.fields@)
    }

    /// An empty record.
    pub fn new() -> (t: Tweet)
        ensures
            t.wf(),
            t.as_map() == Map::<Seq<char>, FieldVal>::empty(),
    {
        Tweet { fields: Vec::new() }
    }

    /// The value held under `key`, if any.
    pub fn get_field(&self, key: &str) -> (r: Option<&FieldValue>)
        requires
            self.wf(),
        ensures
            match r {
                Some(v) => self.as_map().dom().contains(key@) && v@ == self.as_map()[key@],
                None => !self.as_map().dom().contains(key@),
            },
    {
        let k = String::from_str(key);
        let n = self.fields.len();
        for i in 0..n
            invariant
                n == self.fields.len(),
                k@ == key@,
                self.wf(),
                forall|j: int| 0 <= j < i ==> (#[trigger] self.fields@[j]).0@ != key@,
        {
            if self.fields[i].0 == k {
                proof {
                    lemma_pairs_map_value(self.fields@, i as int);
                }
                return Some(&self.fields[i].1);
            }
        }
        proof {
            lemma_pairs_map_contains(self.fields@, key@);
        }
        None
    }

    /// Binds `key` to `value`, replacing any earlier binding of the same name.
    pub fn set_field(&mut self, key: String, value: FieldValue)
        requires
            old(self).wf(),
        ensures
            final(self).wf(),
            final(self).as_map() == old(self).as_map().insert(key@, value@),
    {
        let n = self.fields.len();
        for i in 0..n
            invariant
                n == self.fields.len(),
                *self == *old(self),
                self.wf(),
                forall|j: int| 0 <= j < i ==> (#[trigger] self.fields@[j]).0@ != key@,
        {
            if self.fields[i].0 == key {
                let ghost prev = self.fields@;
                self.fields.set(i, (key, value));
                proof {
                    lemma_pairs_map_update(prev, i as int, self.fields@[i as int]);
                    assert(distinct_keys(self.fields@)) by {
                        assert(forall|m: int|
                            0 <= m < prev.len() && m != i ==> self.fields@[m] == prev[m]);
                    }
                }
                return ;
            }
        }
        let ghost prev = self.fields@;
        self.fields.push((key, value));
        proof {
            assert(self.fields@.drop_last() =~= prev);
            assert(distinct_keys(self.fields@)) by {
                assert(forall|m: int| 0 <= m < prev.len() ==> self.fields@[m] == prev[m]);
            }
        }
    }

    /// How many fields the record holds.
    pub fn field_count(&self) -> (n: usize)
        ensures
            n == self.fields@.len(),
    {
        self.fields.len()
    }
}

} // verus!
