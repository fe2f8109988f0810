//! A map from string identifiers to values, kept as a vector sorted by identifier.
//!
//! It stands for the ordered map that the host keeps its layer-shell windows in, and
//! for the table of per-identifier locks on the HTTP side.

use vstd::prelude::*;

use crate::text::{
    chars_less, chars_of, compare_chars, lemma_chars_less_irreflexive, lemma_chars_less_transitive, Comparison,
};

verus! {

/// The keys of `s` strictly increase.
pub open spec fn strictly_sorted<V>(s: Seq<(Seq<char>, V)>) -> bool {
    forall|i: int, j: int|
        0 <= i < j < s.len() ==> chars_less(#[trigger] s[i].0, #[trigger] s[j].0)
}

/// Some entry of `s` has key `k`.
pub open spec fn has_key<V>(s: Seq<(Seq<char>, V)>, k: Seq<char>) -> bool {
    exists|i: int| 0 <= i < s.len() && #[trigger] s[i].0 == k
}

/// An index of an entry of `s` with key `k`.
pub open spec fn index_of_key<V>(s: Seq<(Seq<char>, V)>, k: Seq<char>) -> int {
    choose|i: int| 0 <= i < s.len() && #[trigger] s[i].0 == k
}

/// The map that a sequence of entries with distinct keys stands for.
pub open spec fn map_of<V>(s: Seq<(Seq<char>, V)>) -> Map<Seq<char>, V> {
    Map::new(|k: Seq<char>| has_key(s, k), |k: Seq<char>| s[index_of_key(s, k)].1)
}

/// In a sorted sequence, a key occurs at one index only.
pub proof fn lemma_key_unique<V>(s: Seq<(Seq<char>, V)>, i: int, j: int)
    requires
        strictly_sorted(s),
        0 <= i < s.len(),
        0 <= j < s.len(),
        s[i].0 == s[j].0,
    ensures
        i == j,
{
    lemma_chars_less_irreflexive(s[i].0);
    if i < j {
        assert(chars_less(s[i].0, s[j].0));
    } else if j < i {
        assert(chars_less(s[j].0, s[i].0));
    }
}

/// The map of a sorted sequence holds each entry.
pub proof fn lemma_map_of_at<V>(s: Seq<(Seq<char>, V)>, i: int)
    requires
        strictly_sorted(s),
        0 <= i < s.len(),
    ensures
        map_of(s).contains_key(s[i].0),
        map_of(s)[s[i].0] == s[i].1,
{
    let k = s[i].0;
    assert(has_key(s, k));
    let j = index_of_key(s, k);
    lemma_key_unique(s, i, j);
}

/// A key that sorts between the entries before `p` and those from `p` on is absent.
proof fn lemma_gap_absent<V>(s: Seq<(Seq<char>, V)>, p: int, k: Seq<char>)
    requires
        0 <= p <= s.len(),
        forall|j: int| 0 <= j < p ==> chars_less(#[trigger] s[j].0, k),
        forall|j: int| p <= j < s.len() ==> chars_less(k, #[trigger] s[j].0),
    ensures
        !has_key(s, k),
        !map_of(s).contains_key(k),
{
    if has_key(s, k) {
        let j = choose|j: int| 0 <= j < s.len() && #[trigger] s[j].0 == k;
        lemma_chars_less_irreflexive(k);
        if j < p {
            assert(chars_less(s[j].0, k));
        } else {
            assert(chars_less(k, s[j].0));
        }
    }
}

/// Inserting a key into its gap keeps the order and adds the entry to the map.
proof fn lemma_insert_at_gap<V>(s: Seq<(Seq<char>, V)>, p: int, k: Seq<char>, v: V)
    requires
        strictly_sorted(s),
        0 <= p <= s.len(),
        forall|j: int| 0 <= j < p ==> chars_less(#[trigger] s[j].0, k),
        forall|j: int| p <= j < s.len() ==> chars_less(k, #[trigger] s[j].0),
    ensures
        strictly_sorted(s.insert(p, (k, v))),
        map_of(s.insert(p, (k, v))) == map_of(s).insert(k, v),
{
    let t = s.insert(p, (k, v));
    assert forall|i: int, j: int| 0 <= i < j < t.len() implies chars_less(
        #[trigger] t[i].0,
        #[trigger] t[j].0,
    ) by {
        if i < p && j == p {
        } else if i == p && j > p {
            assert(t[j] == s[j - 1]);
        } else if i < p && j > p {
            assert(t[j] == s[j - 1]);
            assert(chars_less(s[i].0, k));
            lemma_chars_less_transitive(s[i].0, k, s[j - 1].0);
        } else if j < p {
        } else {
            assert(t[i] == s[i - 1]);
            assert(t[j] == s[j - 1]);
        }
    }
    lemma_gap_absent(s, p, k);
    assert forall|q: Seq<char>| #[trigger] has_key(t, q) == (q == k || has_key(s, q)) by {
        if has_key(s, q) {
            let j = choose|j: int| 0 <= j < s.len() && #[trigger] s[j].0 == q;
            if j < p {
                assert(t[j].0 == q);
            } else {
                assert(t[j + 1].0 == q);
            }
        }
        if q == k {
            assert(t[p].0 == q);
        }
        if has_key(t, q) {
            let j = choose|j: int| 0 <= j < t.len() && #[trigger] t[j].0 == q;
            if j < p {
                assert(s[j].0 == q);
            } else if j > p {
                assert(s[j - 1].0 == q);
            }
        }
    }
    assert forall|q: Seq<char>| #[trigger] map_of(t).contains_key(q) implies map_of(t)[q] == map_of(
        s,
    ).insert(k, v)[q] by {
        let j = choose|j: int| 0 <= j < t.len() && #[trigger] t[j].0 == q;
        lemma_map_of_at(t, j);
        if j < p {
            lemma_map_of_at(s, j);
        } else if j > p {
            lemma_map_of_at(s, j - 1);
        }
    }
    assert(map_of(t) =~= map_of(s).insert(k, v));
}

/// Replacing the value at an index keeps the order and updates the map.
proof fn lemma_update_at<V>(s: Seq<(Seq<char>, V)>, i: int, v: V)
    requires
        strictly_sorted(s),
        0 <= i < s.len(),
    ensures
        strictly_sorted(s.update(i, (s[i].0, v))),
        map_of(s.update(i, (s[i].0, v))) == map_of(s).insert(s[i].0, v),
{
    let k = s[i].0;
    let t = s.update(i, (k, v));
    assert forall|a: int, b: int| 0 <= a < b < t.len() implies chars_less(
        #[trigger] t[a].0,
        #[trigger] t[b].0,
    ) by {
        assert(t[a].0 == s[a].0);
        assert(t[b].0 == s[b].0);
    }
    assert forall|q: Seq<char>| #[trigger] has_key(t, q) == has_key(s, q) by {
        if has_key(s, q) {
            let j = choose|j: int| 0 <= j < s.len() && #[trigger] s[j].0 == q;
            assert(t[j].0 == q);
        }
        if has_key(t, q) {
            let j = choose|j: int| 0 <= j < t.len() && #[trigger] t[j].0 == q;
            assert(s[j].0 == q);
        }
    }
    lemma_map_of_at(s, i);
    assert forall|q: Seq<char>| #[trigger] map_of(t).contains_key(q) implies map_of(t)[q] == map_of(
        s,
    ).insert(k, v)[q] by {
        let j = choose|j: int| 0 <= j < t.len() && #[trigger] t[j].0 == q;
        lemma_map_of_at(t, j);
        if j != i {
            assert(t[j] == s[j]);
            lemma_map_of_at(s, j);
            if q == k {
                lemma_key_unique(s, i, j);
            }
        }
    }
    assert(map_of(t) =~= map_of(s).insert(k, v));
}

/// Removing the entry at an index keeps the order and removes its key from the map.
proof fn lemma_remove_at<V>(s: Seq<(Seq<char>, V)>, i: int)
    requires
        strictly_sorted(s),
        0 <= i < s.len(),
    ensures
        strictly_sorted(s.remove(i)),
        map_of(s.remove(i)) == map_of(s).remove(s[i].0),
{
    let k = s[i].0;
    let t = s.remove(i);
    assert forall|a: int, b: int| 0 <= a < b < t.len() implies chars_less(
        #[trigger] t[a].0,
        #[trigger] t[b].0,
    ) by {
        let a0 = if a < i {
            a
        } else {
            a + 1
        };
        let b0 = if b < i {
            b
        } else {
            b + 1
        };
        assert(t[a] == s[a0]);
        assert(t[b] == s[b0]);
    }
    assert forall|q: Seq<char>| #[trigger] has_key(t, q) == (q != k && has_key(s, q)) by {
        if has_key(s, q) && q != k {
            let j = choose|j: int| 0 <= j < s.len() && #[trigger] s[j].0 == q;
            if j < i {
                assert(t[j].0 == q);
            } else {
                assert(t[j - 1].0 == q);
            }
        }
        if has_key(t, q) {
            let j = choose|j: int| 0 <= j < t.len() && #[trigger] t[j].0 == q;
            let j0 = if j < i {
                j
            } else {
                j + 1
            };
            assert(s[j0].0 == q);
            if q == k {
                lemma_key_unique(s, i, j0);
            }
        }
    }
    assert forall|q: Seq<char>| #[trigger] map_of(t).contains_key(q) implies map_of(t)[q] == map_of(
        s,
    ).remove(k)[q] by {
        let j = choose|j: int| 0 <= j < t.len() && #[trigger] t[j].0 == q;
        lemma_map_of_at(t, j);
        if j < i {
            lemma_map_of_at(s, j);
        } else {
            lemma_map_of_at(s, j + 1);
        }
    }
    assert(map_of(t) =~= map_of(s).remove(k));
}

/// Two sequences with the same keys, whose values correspond under `f`, stand for
/// maps that correspond under `f`.
pub proof fn lemma_map_of_map_values<V, U>(
    s: Seq<(Seq<char>, V)>,
    t: Seq<(Seq<char>, U)>,
    f: spec_fn(V) -> U,
)
    requires
        strictly_sorted(s),
        t.len() == s.len(),
        forall|i: int| 0 <= i < s.len() ==> (#[trigger] t[i]).0 == s[i].0 && t[i].1 == f(s[i].1),
    ensures
        strictly_sorted(t),
        map_of(t) == map_of(s).map_values(f),
{
    assert forall|a: int, b: int| 0 <= a < b < t.len() implies chars_less(
        #[trigger] t[a].0,
        #[trigger] t[b].0,
    ) by {
        assert(t[a].0 == s[a].0);
        assert(t[b].0 == s[b].0);
    }
    assert forall|q: Seq<char>| #[trigger] has_key(t, q) == has_key(s, q) by {
        if has_key(s, q) {
            let j = choose|j: int| 0 <= j < s.len() && #[trigger] s[j].0 == q;
            assert(t[j].0 == q);
        }
        if has_key(t, q) {
            let j = choose|j: int| 0 <= j < t.len() && #[trigger] t[j].0 == q;
            assert(s[j].0 == q);
        }
    }
    assert forall|q: Seq<char>| #[trigger] map_of(t).contains_key(q) implies map_of(t)[q]
        == map_of(s).map_values(f)[q] by {
        let j = choose|j: int| 0 <= j < t.len() && #[trigger] t[j].0 == q;
        lemma_map_of_at(t, j);
        lemma_map_of_at(s, j);
    }
    assert(map_of(t) =~= map_of(s).map_values(f));
}

struct IdEntry<V> {
    id: String,
    key: Vec<char>,
    value: V,
}

/// The (identifier, value) pairs of a sequence of entries.
closed spec fn pairs_of<V>(entries: Seq<IdEntry<V>>) -> Seq<(Seq<char>, V)> {
    Seq::new(entries.len(), |i: int| (entries[i].key@, entries[i].value))
}

/// Each stored key spells its stored identifier.
closed spec fn keys_spell_ids<V>(entries: Seq<IdEntry<V>>) -> bool {
    forall|i: int| 0 <= i < entries.len() ==> (#[trigger] entries[i]).key@ == entries[i].id@
}

/// The stored keys spell the stored identifiers, and identifiers strictly increase.
closed spec fn entries_wf<V>(entries: Seq<IdEntry<V>>) -> bool {
    &&& keys_spell_ids(entries)
    &&& strictly_sorted(pairs_of(entries))
}

/// Inserting an entry whose key spells its identifier keeps every key spelling its
/// identifier.
proof fn lemma_keys_spell_ids_insert<V>(entries: Seq<IdEntry<V>>, p: int, entry: IdEntry<V>)
    requires
        keys_spell_ids(entries),
        0 <= p <= entries.len(),
        entry.key@ == entry.id@,
    ensures
        keys_spell_ids(entries.insert(p, entry)),
{
    let after = entries.insert(p, entry);
    assert forall|j: int| 0 <= j < after.len() implies (#[trigger] after[j]).key@
        == after[j].id@ by {
        if j < p {
            assert(after[j] == entries[j]);
        } else if j > p {
            assert(after[j] == entries[j - 1]);
        }
    }
}

/// Removing an entry keeps every key spelling its identifier.
proof fn lemma_keys_spell_ids_remove<V>(entries: Seq<IdEntry<V>>, i: int)
    requires
        keys_spell_ids(entries),
        0 <= i < entries.len(),
    ensures
        keys_spell_ids(entries.remove(i)),
{
    let after = entries.remove(i);
    assert forall|j: int| 0 <= j < after.len() implies (#[trigger] after[j]).key@
        == after[j].id@ by {
        if j < i {
            assert(after[j] == entries[j]);
        } else {
            assert(after[j] == entries[j + 1]);
        }
    }
}

/// A map from string identifiers to values, ordered by identifier.
pub struct IdMap<V> {
    entries: Vec<IdEntry<V>>,
}

impl<V> View for IdMap<V> {
    type V = Map<Seq<char>, V>;

    open spec fn view(&self) -> Map<Seq<char>, V> {
        map_of(self.pairs())
    }
}

/// The map after `entry_or_insert(k, fresh)`: unchanged when `k` is present,
/// otherwise with `fresh` stored under `k`.
pub open spec fn after_entry_or_insert<V>(m: Map<Seq<char>, V>, k: Seq<char>, fresh: V) -> Map<
    Seq<char>,
    V,
> {
    if m.contains_key(k) {
        m
    } else {
        m.insert(k, fresh)
    }
}

/// The same identifier always gives back the same entry: once `entry_or_insert`
/// has stored a value under an identifier, later calls for it leave the map as it
/// is and find that value, whatever fresh value they offer.
pub proof fn lemma_entry_or_insert_is_stable<V>(
    m: Map<Seq<char>, V>,
    k: Seq<char>,
    first: V,
    later: V,
)
    ensures
        after_entry_or_insert(m, k, first).contains_key(k),
        after_entry_or_insert(after_entry_or_insert(m, k, first), k, later) == after_entry_or_insert(
            m,
            k,
            first,
        ),
        after_entry_or_insert(after_entry_or_insert(m, k, first), k, later)[k]
            == after_entry_or_insert(m, k, first)[k],
{
}

impl<V> IdMap<V> {
    /// The entries as (identifier, value) pairs, in identifier order.
    pub closed spec fn pairs(&self) -> Seq<(Seq<char>, V)> {
        pairs_of(self.entries@)
    }

    /// The stored keys spell the stored identifiers, and identifiers strictly increase.
    #[verifier::type_invariant]
    closed spec fn wf(&self) -> bool {
        entries_wf(self.entries@)
    }

    /// An empty map.
    pub fn new() -> (map: Self)
        ensures
            map.pairs() == Seq::<(Seq<char>, V)>::empty(),
            map@ == Map::<Seq<char>, V>::empty(),
    {
        let map = IdMap { entries: Vec::new() };
        assert(map.pairs() =~= Seq::<(Seq<char>, V)>::empty());
        assert(map@ =~= Map::<Seq<char>, V>::empty());
        map
    }

    /// The number of entries; the entries are in strictly increasing identifier order.
    pub fn len(&self) -> (n: usize)
        ensures
            n == self.pairs().len(),
            strictly_sorted(self.pairs()),
    {
        proof {
            use_type_invariant(self);
        }
        self.entries.len()
    }

    /// The identifier of the entry at `index`.
    pub fn id_at(&self, index: usize) -> (id: &String)
        requires
            index < self.pairs().len(),
        ensures
            id@ == self.pairs()[index as int].0,
    {
        proof {
            use_type_invariant(self);
        }
        &self.entries[index].id
    }

    /// The value of the entry at `index`.
    pub fn value_at(&self, index: usize) -> (value: &V)
        requires
            index < self.pairs().len(),
        ensures
            *value == self.pairs()[index as int].1,
    {
        &self.entries[index].value
    }

    /// Where `key` stands: its index, or the index at which it would be inserted.
    fn find(&self, key: &Vec<char>) -> (found: Result<usize, usize>)
        ensures
            strictly_sorted(self.pairs()),
            found matches Ok(i) ==> i < self.pairs().len() && self.pairs()[i as int].0 == key@,
            found matches Err(p) ==> p <= self.pairs().len() && (forall|j: int|
                0 <= j < p ==> chars_less(#[trigger] self.pairs()[j].0, key@)) && (forall|j: int|
                p <= j < self.pairs().len() ==> chars_less(key@, #[trigger] self.pairs()[j].0)),
    {
        proof {
            use_type_invariant(self);
        }
        let ghost s = self.pairs();
        let mut i: usize = 0;
        while i < self.entries.len()
            invariant
                entries_wf(self.entries@),
                s == self.pairs(),
                i <= s.len(),
                forall|j: int| 0 <= j < i ==> chars_less(#[trigger] s[j].0, key@),
            decreases s.len() - i,
        {
            assert(s[i as int].0 == self.entries@[i as int].key@);
            match compare_chars(&self.entries[i].key, key) {
                Comparison::Less => {},
                Comparison::Equal => {
                    return Ok(i);
                },
                Comparison::Greater => {
                    assert forall|j: int| i <= j < s.len() implies chars_less(
                        key@,
                        #[trigger] s[j].0,
                    ) by {
                        if j > i {
                            assert(chars_less(s[i as int].0, s[j].0));
                            lemma_chars_less_transitive(key@, s[i as int].0, s[j].0);
                        }
                    }
                    return Err(i);
                },
            }
            i = i + 1;
        }
        Err(i)
    }

    /// The value stored under `id`, if any.
    pub fn get(&self, id: &str) -> (value: Option<&V>)
        ensures
            value is Some <==> self@.contains_key(id@),
            value matches Some(v) ==> *v == self@[id@],
    {
        let key = chars_of(id);
        match self.find(&key) {
            Ok(i) => {
                proof {
                    lemma_map_of_at(self.pairs(), i as int);
                }
                Some(&self.entries[i].value)
            },
            Err(p) => {
                proof {
                    lemma_gap_absent(self.pairs(), p as int, key@);
                }
                None
            },
        }
    }

    /// Whether an entry is stored under `id`.
    pub fn contains(&self, id: &str) -> (found: bool)
        ensures
            found == self@.contains_key(id@),
    {
        self.get(id).is_some()
    }

    /// Stores `value` under `id`, and returns the value that it replaces, if any.
    pub fn insert(&mut self, id: String, value: V) -> (replaced: Option<V>)
        ensures
            final(self)@ == old(self)@.insert(id@, value),
            replaced is Some <==> old(self)@.contains_key(id@),
            replaced matches Some(v) ==> v == old(self)@[id@],
    {
        proof {
            use_type_invariant(&*self);
        }
        let ghost s = self.pairs();
        let key = chars_of(id.as_str());
        let found = self.find(&key);
        let mut entries: Vec<IdEntry<V>> = Vec::new();
        std::mem::swap(&mut entries, &mut self.entries);
        proof {
            assert(pairs_of(self.entries@) =~= Seq::<(Seq<char>, V)>::empty());
            assert(entries@ == old(self).entries@);
        }
        let replaced = match found {
            Ok(i) => {
                proof {
                    lemma_map_of_at(s, i as int);
                    lemma_update_at(s, i as int, value);
                }
                let ghost original = entries@;
                let previous = entries.remove(i);
                let ghost before = entries@;
                entries.insert(i, IdEntry { id, key, value });
                proof {
                    lemma_keys_spell_ids_remove(original, i as int);
                    lemma_keys_spell_ids_insert(before, i as int, entries@[i as int]);
                }
                assert(pairs_of(entries@) =~= s.update(i as int, (s[i as int].0, value)));
                Some(previous.value)
            },
            Err(p) => {
                proof {
                    lemma_gap_absent(s, p as int, key@);
                    lemma_insert_at_gap(s, p as int, key@, value);
                }
                let ghost k = key@;
                let ghost before = entries@;
                entries.insert(p, IdEntry { id, key, value });
                proof {
                    lemma_keys_spell_ids_insert(before, p as int, entries@[p as int]);
                }
                assert(pairs_of(entries@) =~= s.insert(p as int, (k, value)));
                None
            },
        };
        self.entries = entries;
        replaced
    }

    /// Finds the entry stored under `id`, storing `fresh` there first when there is
    /// none, and returns its index. The same identifier always gives back the same
    /// entry: a `fresh` value is stored only for an identifier not yet present.
    pub fn entry_or_insert(&mut self, id: &str, fresh: V) -> (index: usize)
        ensures
            final(self)@ == after_entry_or_insert(old(self)@, id@, fresh),
            index < final(self).pairs().len(),
            final(self).pairs()[index as int].0 == id@,
            final(self).pairs()[index as int].1 == final(self)@[id@],
    {
        proof {
            use_type_invariant(&*self);
        }
        let ghost s = self.pairs();
        let key = chars_of(id);
        match self.find(&key) {
            Ok(i) => {
                proof {
                    lemma_map_of_at(s, i as int);
                }
                i
            },
            Err(p) => {
                proof {
                    lemma_gap_absent(s, p as int, key@);
                    lemma_insert_at_gap(s, p as int, key@, fresh);
                }
                let ghost k = key@;
                let mut entries: Vec<IdEntry<V>> = Vec::new();
                std::mem::swap(&mut entries, &mut self.entries);
                proof {
                    assert(pairs_of(self.entries@) =~= Seq::<(Seq<char>, V)>::empty());
                }
                let ghost before = entries@;
                entries.insert(p, IdEntry { id: id.to_owned(), key, value: fresh });
                proof {
                    lemma_keys_spell_ids_insert(before, p as int, entries@[p as int]);
                }
                assert(pairs_of(entries@) =~= s.insert(p as int, (k, fresh)));
                self.entries = entries;
                proof {
                    lemma_map_of_at(self.pairs(), p as int);
                }
                p
            },
        }
    }

    /// Removes the entry stored under `id`, and returns its value, if any.
    pub fn remove(&mut self, id: &str) -> (removed: Option<V>)
        ensures
            final(self)@ == old(self)@.remove(id@),
            removed is Some <==> old(self)@.contains_key(id@),
            removed matches Some(v) ==> v == old(self)@[id@],
    {
        proof {
            use_type_invariant(&*self);
        }
        let ghost s = self.pairs();
        let key = chars_of(id);
        match self.find(&key) {
            Ok(i) => {
                proof {
                    lemma_map_of_at(s, i as int);
                    lemma_remove_at(s, i as int);
                }
                let mut entries: Vec<IdEntry<V>> = Vec::new();
                std::mem::swap(&mut entries, &mut self.entries);
                proof {
                    assert(pairs_of(self.entries@) =~= Seq::<(Seq<char>, V)>::empty());
                }
                let ghost before = entries@;
                let previous = entries.remove(i);
                proof {
                    lemma_keys_spell_ids_remove(before, i as int);
                }
                assert(pairs_of(entries@) =~= s.remove(i as int));
                self.entries = entries;
                Some(previous.value)
            },
            Err(p) => {
                proof {
                    lemma_gap_absent(s, p as int, key@);
                    assert(self@ =~= self@.remove(id@));
                }
                None
            },
        }
    }
}

} // verus!
