//! The replicated key-value data: a map from string keys to string values.

use vstd::prelude::*;

verus! {

/// The map that a sequence of entries with distinct keys denotes.
pub open spec fn entries_map(s: Seq<(String, String)>) -> Map<Seq<char>, Seq<char>>
    decreases s.len(),
{
    if s.len() == 0 {
        Map::empty()
    } else {
        entries_map(s.drop_last()).insert(s.last().0@, s.last().1@)
    }
}

/// No two entries carry the same key.
pub open spec fn distinct_keys(s: Seq<(String, String)>) -> bool {
    forall|i: int, j: int| 0 <= i < j < s.len() ==> (#[trigger] s[i]).0@ != (#[trigger] s[j]).0@
}

/// What a read of `key` answers: the stored value, or the empty string when
/// the key was never written.
pub open spec fn stored_value(m: Map<Seq<char>, Seq<char>>, key: Seq<char>) -> Seq<char> {
    if m.contains_key(key) {
        m[key]
    } else {
        Seq::empty()
    }
}

/// A read of a key gives back the value last written under it.
pub proof fn law_read_your_write(m: Map<Seq<char>, Seq<char>>, key: Seq<char>, value: Seq<char>)
    ensures
        stored_value(m.insert(key, value), key) == value,
{
}

/// A write under one key leaves what a read of any other key gives unchanged.
pub proof fn law_write_keeps_other_keys(
    m: Map<Seq<char>, Seq<char>>,
    key: Seq<char>,
    value: Seq<char>,
    other: Seq<char>,
)
    requires
        other != key,
    ensures
        stored_value(m.insert(key, value), other) == stored_value(m, other),
{
}

/// A read of a key that was never written gives the empty string.
pub proof fn law_unwritten_key_reads_empty(key: Seq<char>)
    ensures
        stored_value(Map::<Seq<char>, Seq<char>>::empty(), key) == Seq::<char>::empty(),
{
}

/// Writing a key again with the value it holds changes nothing.
pub proof fn law_rewrite_is_idempotent(m: Map<Seq<char>, Seq<char>>, key: Seq<char>, value: Seq<char>)
    ensures
        m.insert(key, value).insert(key, value) == m.insert(key, value),
{
    assert(m.insert(key, value).insert(key, value) =~= m.insert(key, value));
}

/// The keys of `entries_map(s)` are exactly the keys of the entries, and each
/// maps to the value of its (unique) entry.
proof fn lemma_entries_map_lookup(s: Seq<(String, String)>, k: Seq<char>)
    requires
        distinct_keys(s),
    ensures
        entries_map(s).contains_key(k) <==> exists|i: int| 0 <= i < s.len() && (#[trigger] s[i]).0@ == k,
        forall|i: int| 0 <= i < s.len() && (#[trigger] s[i]).0@ == k ==> entries_map(s)[k] == s[i].1@,
    decreases s.len(),
{
    if s.len() > 0 {
        let t = s.drop_last();
        assert(distinct_keys(t));
        lemma_entries_map_lookup(t, k);
        if entries_map(s).contains_key(k) {
            if s.last().0@ != k {
                let i = choose|i: int| 0 <= i < t.len() && (#[trigger] t[i]).0@ == k;
                assert(s[i] == t[i]);
            } else {
                assert(s[s.len() - 1].0@ == k);
            }
        }
        if exists|i: int| 0 <= i < s.len() && (#[trigger] s[i]).0@ == k {
            let i = choose|i: int| 0 <= i < s.len() && (#[trigger] s[i]).0@ == k;
            if i < s.len() - 1 {
                assert(t[i] == s[i]);
            }
        }
        assert forall|i: int| 0 <= i < s.len() && (#[trigger] s[i]).0@ == k implies entries_map(s)[k]
            == s[i].1@ by {
            if i < s.len() - 1 {
                assert(t[i] == s[i]);
                assert(s[i].0@ != s[s.len() - 1].0@);
            }
        }
    }
}

/// Replacing the entry of a key with a new value for that key updates the map
/// at that key alone.
proof fn lemma_entries_map_update(s: Seq<(String, String)>, i: int, e: (String, String))
    requires
        distinct_keys(s),
        0 <= i < s.len(),
        s[i].0@ == e.0@,
    ensures
        distinct_keys(s.update(i, e)),
        entries_map(s.update(i, e)) == entries_map(s).insert(e.0@, e.1@),
    decreases s.len(),
{
    let u = s.update(i, e);
    assert(distinct_keys(u)) by {
        assert forall|a: int, b: int| 0 <= a < b < u.len() implies (#[trigger] u[a]).0@ != (
        #[trigger] u[b]).0@ by {
            assert(s[a].0@ != s[b].0@);
        }
    }
    if i == s.len() - 1 {
        assert(u.drop_last() =~= s.drop_last());
        assert(entries_map(u) =~= entries_map(s).insert(e.0@, e.1@));
    } else {
        let t = s.drop_last();
        assert(distinct_keys(t));
        lemma_entries_map_update(t, i, e);
        assert(u.drop_last() =~= t.update(i, e));
        assert(s.last().0@ != e.0@) by {
            assert(s[i].0@ != s[s.len() - 1].0@);
        }
        assert(entries_map(u) =~= entries_map(s).insert(e.0@, e.1@));
    }
}

/// Where the entry of `key` stands in `entries`, if any holds it.
fn position(entries: &Vec<(String, String)>, key: &String) -> (res: Option<usize>)
    ensures
        match res {
            Some(i) => i < entries@.len() && entries@[i as int].0@ == key@,
            None => forall|i: int| 0 <= i < entries@.len() ==> (#[trigger] entries@[i]).0@ != key@,
        },
{
    let mut i: usize = 0;
    while i < entries.len()
        invariant
            i <= entries@.len(),
            forall|j: int| 0 <= j < i ==> (#[trigger] entries@[j]).0@ != key@,
        decreases entries@.len() - i,
    {
        if entries[i].0 == *key {
            return Some(i);
        }
        i = i + 1;
    }
    None
}

/// A map from string keys to string values.
///
/// The entries are kept as a list of pairs with distinct keys rather than in a
/// `BTreeMap<String, String>`: vstd specifies `BTreeMap`'s operations only for
/// key types known to obey the ordering laws, and `String` is not among them,
/// so with a `BTreeMap` not even "after inserting a key the map holds it" can
/// be proved.  The list keeps the same map view and the same contracts a map
/// would give.
pub struct KeyValueStore {
    entries: Vec<(String, String)>,
}

impl View for KeyValueStore {
    type V = Map<Seq<char>, Seq<char>>;

    closed spec fn view(&self) -> Map<Seq<char>, Seq<char>> {
        entries_map(self.entries@)
    }
}

impl KeyValueStore {
    #[verifier::type_invariant]
    spec fn keys_distinct(self) -> bool {
        distinct_keys(self.entries@)
    }

    /// An empty store.
    pub fn new() -> (store: Self)
        ensures
            store@ == Map::<Seq<char>, Seq<char>>::empty(),
    {
        KeyValueStore { entries: Vec::new() }
    }

    /// The value stored under `key`, if any.
    pub fn get(&self, key: &String) -> (res: Option<&String>)
        ensures
            match res {
                Some(v) => self@.contains_key(key@) && v@ == self@[key@],
                None => !self@.contains_key(key@),
            },
    {
        proof {
            use_type_invariant(self);
            lemma_entries_map_lookup(self.entries@, key@);
        }
        match position(&self.entries, key) {
            Some(i) => Some(&self.entries[i].1),
            None => None,
        }
    }

    /// Stores `value` under `key`, and gives back the value it replaces, if any.
    pub fn insert(&mut self, key: String, value: String) -> (res: Option<String>)
        ensures
            final(self)@ == old(self)@.insert(key@, value@),
            match res {
                Some(v) => old(self)@.contains_key(key@) && v@ == old(self)@[key@],
                None => !old(self)@.contains_key(key@),
            },
    {
        proof {
            use_type_invariant(&*self);
            lemma_entries_map_lookup(self.entries@, key@);
        }
        let mut entries = Vec::new();
        std::mem::swap(&mut entries, &mut self.entries);
        let ghost s = entries@;
        match position(&entries, &key) {
            Some(i) => {
                let previous = entries[i].1.clone();
                let ghost e = (key, value);
                proof {
                    lemma_entries_map_update(s, i as int, e);
                }
                entries.set(i, (key, value));
                assert(entries@ == s.update(i as int, e));
                self.entries = entries;
                Some(previous)
            },
            None => {
                entries.push((key, value));
                proof {
                    assert(entries@.drop_last() =~= s);
                    assert forall|a: int, b: int| 0 <= a < b < entries@.len() implies (
                    #[trigger] entries@[a]).0@ != (#[trigger] entries@[b]).0@ by {
                        if b < s.len() {
                            assert(s[a].0@ != s[b].0@);
                        } else {
                            assert(s[a].0@ != key@);
                        }
                    }
                }
                self.entries = entries;
                None
            },
        }
    }
}

} // verus!
