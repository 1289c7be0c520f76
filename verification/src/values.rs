use vstd::prelude::*;

verus! {

/// A tagged scalar value, stored under a string key in a result's return
/// value map or in a message's metadata.
#[derive(Debug)]
pub enum RetVal {
    Bool(bool),
    Int(i64),
    UInt(u64),
    Text(String),
}

impl Clone for RetVal {
    /// Cloning keeps the tag and the payload.
    fn clone(&self) -> (r: Self)
        ensures
            r == *self,
    {
        match self {
            RetVal::Bool(b) => RetVal::Bool(*b),
            RetVal::Int(i) => RetVal::Int(*i),
            RetVal::UInt(u) => RetVal::UInt(*u),
            RetVal::Text(s) => RetVal::Text(s.clone()),
        }
    }
}

/// The mapping that a sequence of key-value entries denotes: later entries
/// overwrite earlier ones with the same key.
pub open spec fn map_of_entries(s: Seq<(String, RetVal)>) -> Map<Seq<char>, RetVal>
    decreases s.len(),
{
    if s.len() == 0 {
        Map::empty()
    } else {
        map_of_entries(s.drop_last()).insert(s.last().0@, s.last().1)
    }
}

/// A key is in the denoted map exactly when some entry holds it.
proof fn lemma_map_of_entries_contains(s: Seq<(String, RetVal)>, k: Seq<char>)
    ensures
        map_of_entries(s).contains_key(k) <==> exists|i: int| 0 <= i < s.len() && s[i].0@ == k,
    decreases s.len(),
{
    if s.len() > 0 {
        lemma_map_of_entries_contains(s.drop_last(), k);
        if s.last().0@ == k {
            assert(s[s.len() - 1].0@ == k);
        } else if map_of_entries(s).contains_key(k) {
            let i = choose|i: int| 0 <= i < s.drop_last().len() && s.drop_last()[i].0@ == k;
            assert(s[i].0@ == k);
        } else if exists|i: int| 0 <= i < s.len() && s[i].0@ == k {
            let i = choose|i: int| 0 <= i < s.len() && s[i].0@ == k;
            assert(s.drop_last()[i].0@ == k);
        }
    }
}

/// Whether the keys of a sequence of entries are pairwise distinct.
pub open spec fn keys_unique(s: Seq<(String, RetVal)>) -> bool {
    forall|i: int, j: int| 0 <= i < j < s.len() ==> s[i].0@ != s[j].0@
}

/// With distinct keys, the denoted map sends each entry's key to its value.
proof fn lemma_map_of_entries_index(s: Seq<(String, RetVal)>, i: int)
    requires
        keys_unique(s),
        0 <= i < s.len(),
    ensures
        map_of_entries(s).contains_key(s[i].0@),
        map_of_entries(s)[s[i].0@] == s[i].1,
    decreases s.len(),
{
    if i == s.len() - 1 {
    } else {
        assert(keys_unique(s.drop_last())) by {
            assert(forall|x: int, y: int|
                0 <= x < y < s.drop_last().len() ==> s.drop_last()[x] == s[x] && s.drop_last()[y]
                    == s[y]);
        }
        lemma_map_of_entries_index(s.drop_last(), i);
        assert(s.drop_last()[i] == s[i]);
        assert(s.last().0@ != s[i].0@);
    }
}

/// A mapping from string keys to tagged values: keys are unique, and the
/// order in which entries were inserted is irrelevant to the denoted map.
#[derive(Debug)]
pub struct ValueMap {
    entries: Vec<(String, RetVal)>,
}

impl View for ValueMap {
    type V = Map<Seq<char>, RetVal>;

    closed spec fn view(&self) -> Map<Seq<char>, RetVal> {
        map_of_entries(self.entries@)
    }
}

impl ValueMap {
    /// The keys held by this map are pairwise distinct.
    #[verifier::type_invariant]
    spec fn wf(&self) -> bool {
        keys_unique(self.entries@)
    }

    /// An empty map.
    pub fn new() -> (m: ValueMap)
        ensures
            m@ == Map::<Seq<char>, RetVal>::empty(),
    {
        ValueMap { entries: Vec::new() }
    }

    /// The number of keys held.
    pub fn len(&self) -> (n: usize)
        ensures
            n == self@.dom().len(),
    {
        proof {
            use_type_invariant(self);
            lemma_entries_map_len(self.entries@);
        }
        self.entries.len()
    }

    /// Whether no key is held.
    pub fn is_empty(&self) -> (b: bool)
        ensures
            b <==> self@ == Map::<Seq<char>, RetVal>::empty(),
    {
        proof {
            use_type_invariant(self);
            lemma_entries_map_len(self.entries@);
            if self.entries@.len() == 0 {
                assert(self@ =~= Map::<Seq<char>, RetVal>::empty());
            } else {
                vstd::set_lib::lemma_set_empty_equivalency_len(self@.dom());
            }
        }
        self.entries.len() == 0
    }

    /// Looks a key up.
    pub fn get(&self, key: &str) -> (r: Option<&RetVal>)
        ensures
            match r {
                Some(v) => self@.contains_key(key@) && *v == self@[key@],
                None => !self@.contains_key(key@),
            },
    {
        proof {
            use_type_invariant(self);
        }
        let owned = key.to_owned();
        let n = self.entries.len();
        for i in 0..n
            invariant
                n == self.entries@.len(),
                owned@ == key@,
                keys_unique(self.entries@),
                forall|j: int| 0 <= j < i ==> self.entries@[j].0@ != key@,
        {
            if self.entries[i].0 == owned {
                proof {
                    lemma_map_of_entries_index(self.entries@, i as int);
                }
                return Some(&self.entries[i].1);
            }
        }
        proof {
            lemma_map_of_entries_contains(self.entries@, key@);
        }
        None
    }

    /// Inserts a key-value pair; an existing entry with the same key is
    /// overwritten.
    pub fn insert(&mut self, key: String, value: RetVal)
        ensures
            final(self)@ == old(self)@.insert(key@, value),
    {
        proof {
            use_type_invariant(&*self);
        }
        let ghost s0 = self.entries@;
        let n = self.entries.len();
        let mut entries: Vec<(String, RetVal)> = Vec::new();
        let mut hit: Option<usize> = None;
        for i in 0..n
            invariant
                self.entries@ == s0,
                n == s0.len(),
                keys_unique(s0),
                match hit {
                    Some(h) => h < i && s0[h as int].0@ == key@ && entries@ =~= s0.take(
                        i as int,
                    ).update(h as int, (key, value)),
                    None => entries@ =~= s0.take(i as int) && forall|j: int|
                        0 <= j < i ==> s0[j].0@ != key@,
                },
        {
            let pair = &self.entries[i];
            if hit.is_none() && pair.0 == key {
                entries.push((key.clone(), value.clone()));
                hit = Some(i);
                proof {
                    assert(entries@ =~= s0.take(i + 1).update(i as int, (key, value)));
                }
            } else {
                entries.push((pair.0.clone(), pair.1.clone()));
                proof {
                    match hit {
                        Some(h) => {
                            assert(entries@ =~= s0.take(i + 1).update(h as int, (key, value)));
                        },
                        None => {
                            assert(entries@ =~= s0.take(i + 1));
                        },
                    }
                }
            }
        }
        match hit {
            Some(h) => {
                proof {
                    assert(s0.take(n as int) =~= s0);
                    lemma_map_of_entries_update(s0, h as int, (key, value));
                    assert(keys_unique(entries@)) by {
                        assert(forall|x: int|
                            0 <= x < s0.len() && x != h ==> entries@[x] == s0[x]);
                    }
                }
            },
            None => {
                entries.push((key, value));
                proof {
                    assert(entries@.drop_last() =~= s0);
                    assert(keys_unique(entries@)) by {
                        assert(forall|x: int| 0 <= x < s0.len() ==> entries@[x] == s0[x]);
                    }
                }
            },
        }
        *self = ValueMap { entries };
    }

    /// The key-value pairs held: each key of the denoted map appears
    /// exactly once, with its value.
    pub fn pairs(&self) -> (v: Vec<(String, RetVal)>)
        ensures
            v@.len() == self@.dom().len(),
            forall|i: int|
                0 <= i < v@.len() ==> self@.contains_key(#[trigger] v@[i].0@) && v@[i].1
                    == self@[v@[i].0@],
            forall|k: Seq<char>|
                self@.contains_key(k) ==> exists|i: int| 0 <= i < v@.len() && #[trigger] v@[i].0@
                    == k,
    {
        proof {
            use_type_invariant(self);
            lemma_entries_map_len(self.entries@);
        }
        let mut v: Vec<(String, RetVal)> = Vec::new();
        let n = self.entries.len();
        for i in 0..n
            invariant
                n == self.entries@.len(),
                v@.len() == i,
                keys_unique(self.entries@),
                forall|j: int|
                    0 <= j < i ==> v@[j].0@ == self.entries@[j].0@ && v@[j].1 == self.entries@[j].1,
        {
            let pair = &self.entries[i];
            v.push((pair.0.clone(), pair.1.clone()));
        }
        proof {
            assert forall|i: int| 0 <= i < v@.len() implies self@.contains_key(
                #[trigger] v@[i].0@,
            ) && v@[i].1 == self@[v@[i].0@] by {
                lemma_map_of_entries_index(self.entries@, i);
            }
            assert forall|k: Seq<char>| self@.contains_key(k) implies exists|i: int|
                0 <= i < v@.len() && #[trigger] v@[i].0@ == k by {
                lemma_map_of_entries_contains(self.entries@, k);
                let i = choose|i: int| 0 <= i < self.entries@.len() && self.entries@[i].0@ == k;
                assert(v@[i].0@ == k);
            }
        }
        v
    }

    /// The union of two maps; on keys present in both, the right map's
    /// value wins.
    pub fn merged(&self, other: &ValueMap) -> (r: ValueMap)
        ensures
            r@ == self@.union_prefer_right(other@),
    {
        proof {
            use_type_invariant(other);
        }
        let mut r = self.clone();
        let n = other.entries.len();
        assert(r@ =~= self@.union_prefer_right(map_of_entries(other.entries@.take(0))));
        for i in 0..n
            invariant
                n == other.entries@.len(),
                r@ == self@.union_prefer_right(map_of_entries(other.entries@.take(i as int))),
        {
            let entry = &other.entries[i];
            r.insert(entry.0.clone(), entry.1.clone());
            proof {
                assert(other.entries@.take(i + 1).drop_last() =~= other.entries@.take(i as int));
                assert(other.entries@.take(i + 1).last() == other.entries@[i as int]);
                lemma_union_insert_right(
                    self@,
                    map_of_entries(other.entries@.take(i as int)),
                    other.entries@[i as int].0@,
                    other.entries@[i as int].1,
                );
            }
        }
        proof {
            assert(other.entries@.take(n as int) =~= other.entries@);
        }
        r
    }
}

impl Clone for ValueMap {
    /// Cloning keeps the denoted mapping.
    fn clone(&self) -> (r: Self)
        ensures
            r@ == self@,
    {
        proof {
            use_type_invariant(self);
        }
        let mut entries: Vec<(String, RetVal)> = Vec::new();
        let n = self.entries.len();
        for i in 0..n
            invariant
                n == self.entries@.len(),
                entries@.len() == i,
                forall|j: int|
                    0 <= j < i ==> entries@[j].0@ == self.entries@[j].0@ && entries@[j].1
                        == self.entries@[j].1,
                keys_unique(self.entries@),
        {
            let pair = &self.entries[i];
            entries.push((pair.0.clone(), pair.1.clone()));
        }
        proof {
            assert(keys_unique(entries@));
            lemma_map_of_entries_congruence(entries@, self.entries@);
        }
        ValueMap { entries }
    }
}

/// With distinct keys, the denoted map has exactly one key per entry.
proof fn lemma_entries_map_len(s: Seq<(String, RetVal)>)
    requires
        keys_unique(s),
    ensures
        map_of_entries(s).dom().len() == s.len(),
        map_of_entries(s).dom().finite(),
    decreases s.len(),
{
    if s.len() > 0 {
        assert(keys_unique(s.drop_last())) by {
            assert(forall|x: int, y: int|
                0 <= x < y < s.drop_last().len() ==> s.drop_last()[x] == s[x] && s.drop_last()[y]
                    == s[y]);
        }
        lemma_entries_map_len(s.drop_last());
        lemma_map_of_entries_contains(s.drop_last(), s.last().0@);
        assert(forall|i: int| 0 <= i < s.drop_last().len() ==> s.drop_last()[i] == s[i]);
        assert(!map_of_entries(s.drop_last()).contains_key(s.last().0@));
        vstd::set::axiom_set_insert_len(map_of_entries(s.drop_last()).dom(), s.last().0@);
        assert(map_of_entries(s).dom() =~= map_of_entries(s.drop_last()).dom().insert(
            s.last().0@,
        ));
    }
}

/// Overwriting the entry that holds a key denotes an insert on the map.
proof fn lemma_map_of_entries_update(s: Seq<(String, RetVal)>, i: int, e: (String, RetVal))
    requires
        keys_unique(s),
        0 <= i < s.len(),
        s[i].0@ == e.0@,
    ensures
        map_of_entries(s.update(i, e)) == map_of_entries(s).insert(e.0@, e.1),
    decreases s.len(),
{
    if i == s.len() - 1 {
        assert(s.update(i, e).drop_last() =~= s.drop_last());
        assert(map_of_entries(s.update(i, e)) =~= map_of_entries(s).insert(e.0@, e.1));
    } else {
        assert(keys_unique(s.drop_last())) by {
            assert(forall|x: int, y: int|
                0 <= x < y < s.drop_last().len() ==> s.drop_last()[x] == s[x] && s.drop_last()[y]
                    == s[y]);
        }
        assert(s.drop_last()[i] == s[i]);
        lemma_map_of_entries_update(s.drop_last(), i, e);
        assert(s.update(i, e).drop_last() =~= s.drop_last().update(i, e));
        assert(s.update(i, e).last() == s.last());
        assert(s.last().0@ != e.0@);
        assert(map_of_entries(s.update(i, e)) =~= map_of_entries(s).insert(e.0@, e.1));
    }
}

/// Entry sequences with pointwise-equal keys and values denote one map.
proof fn lemma_map_of_entries_congruence(a: Seq<(String, RetVal)>, b: Seq<(String, RetVal)>)
    requires
        a.len() == b.len(),
        forall|i: int| 0 <= i < a.len() ==> a[i].0@ == b[i].0@ && a[i].1 == b[i].1,
    ensures
        map_of_entries(a) == map_of_entries(b),
    decreases a.len(),
{
    if a.len() > 0 {
        assert(forall|i: int|
            0 <= i < a.drop_last().len() ==> a.drop_last()[i] == a[i] && b.drop_last()[i] == b[i]);
        lemma_map_of_entries_congruence(a.drop_last(), b.drop_last());
        assert(map_of_entries(a) =~= map_of_entries(b));
    }
}

/// Inserting on the right operand of a right-preferring union is the same
/// as inserting on the union.
proof fn lemma_union_insert_right(
    a: Map<Seq<char>, RetVal>,
    b: Map<Seq<char>, RetVal>,
    k: Seq<char>,
    v: RetVal,
)
    ensures
        a.union_prefer_right(b.insert(k, v)) == a.union_prefer_right(b).insert(k, v),
{
    assert(a.union_prefer_right(b.insert(k, v)) =~= a.union_prefer_right(b).insert(k, v));
}

} // verus!
