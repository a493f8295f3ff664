//! A map from strings to values.

use crate::helpers::same_text;
use vstd::prelude::*;

verus! {

/// The characters of each string of a sequence, in the same order.
pub open spec fn texts_of(items: Seq<String>) -> Seq<Seq<char>> {
    items.map_values(|item: String| item@)
}

/// Values that can be copied so that the copy has the same view.
pub trait Duplicate: View + Sized {
    /// A copy with the same view.
    fn duplicate(&self) -> (copy: Self)
        ensures
            copy@ == self@,
    ;
}

impl Duplicate for String {
    fn duplicate(&self) -> (copy: Self) {
        self.clone()
    }
}

impl Duplicate for () {
    fn duplicate(&self) -> (copy: Self) {
        ()
    }
}

/// The key texts of a sequence of entries, in the same order.
pub open spec fn keys_of<V>(entries: Seq<(String, V)>) -> Seq<Seq<char>> {
    entries.map_values(|entry: (String, V)| entry.0@)
}

/// The texts of `base`, followed by those of `extra` that `base` lacks, each
/// where it occurs first.
pub open spec fn with_new(base: Seq<Seq<char>>, extra: Seq<Seq<char>>) -> Seq<Seq<char>>
    decreases extra.len(),
{
    if extra.len() == 0 {
        base
    } else {
        let front = with_new(base, extra.drop_last());
        if front.contains(extra.last()) {
            front
        } else {
            front.push(extra.last())
        }
    }
}

/// The texts of `texts` without the first occurrence of `text`.
pub open spec fn without(texts: Seq<Seq<char>>, text: Seq<char>) -> Seq<Seq<char>> {
    if texts.contains(text) {
        texts.remove(texts.index_of(text))
    } else {
        texts
    }
}

/// Appending a text that a duplicate-free sequence lacks keeps it
/// duplicate-free.
pub proof fn lemma_push_keeps_distinct(texts: Seq<Seq<char>>, text: Seq<char>)
    requires
        texts.no_duplicates(),
        !texts.contains(text),
    ensures
        texts.push(text).no_duplicates(),
{
    let longer = texts.push(text);
    assert forall|i: int, j: int|
        0 <= i < longer.len() && 0 <= j < longer.len() && i != j implies longer[i]
        != longer[j] by {
        if i < texts.len() && j < texts.len() {
        } else if i < texts.len() {
            assert(texts.contains(texts[i]));
        } else {
            assert(texts.contains(texts[j]));
        }
    }
}

/// Dropping one place of a duplicate-free sequence keeps it duplicate-free,
/// and the text that stood there is gone.
pub proof fn lemma_remove_keeps_distinct(texts: Seq<Seq<char>>, place: int)
    requires
        texts.no_duplicates(),
        0 <= place < texts.len(),
    ensures
        texts.remove(place).no_duplicates(),
        !texts.remove(place).contains(texts[place]),
        forall|t: Seq<char>| t != texts[place] ==> texts.remove(place).contains(t) == texts.contains(t),
{
    let shorter = texts.remove(place);
    assert forall|i: int, j: int|
        0 <= i < shorter.len() && 0 <= j < shorter.len() && i != j implies shorter[i]
        != shorter[j] by {
        let a = if i < place { i } else { i + 1 };
        let b = if j < place { j } else { j + 1 };
        assert(shorter[i] == texts[a]);
        assert(shorter[j] == texts[b]);
    }
    if shorter.contains(texts[place]) {
        let i = choose|i: int| 0 <= i < shorter.len() && shorter[i] == texts[place];
        let a = if i < place { i } else { i + 1 };
        assert(shorter[i] == texts[a]);
    }
    assert forall|t: Seq<char>| t != texts[place] implies shorter.contains(t) == texts.contains(t) by {
        if shorter.contains(t) {
            let i = choose|i: int| 0 <= i < shorter.len() && shorter[i] == t;
            let a = if i < place { i } else { i + 1 };
            assert(texts[a] == t);
        }
        if texts.contains(t) {
            let a = choose|a: int| 0 <= a < texts.len() && texts[a] == t;
            let i = if a < place { a } else { a - 1 };
            assert(shorter[i] == t);
        }
    }
}

/// A finite map from strings to values, in which no key occurs twice.
///
/// Its view maps the text of each key to the view of the value stored under
/// it. Entries are stored in the order in which their keys were first
/// inserted; that order shows in [`StringMap::keys`] and in the access by
/// place, and nowhere in the view.
#[derive(Debug)]
pub struct StringMap<V> {
    entries: Vec<(String, V)>,
}

impl<V: View> View for StringMap<V> {
    type V = Map<Seq<char>, V::V>;

    closed spec fn view(&self) -> Map<Seq<char>, V::V> {
        Map::new(
            |key: Seq<char>| keys_of(self.entries@).contains(key),
            |key: Seq<char>| self.entries@[keys_of(self.entries@).index_of(key)].1@,
        )
    }
}

impl<V> StringMap<V> {
    /// The key texts, in storage order.
    pub closed spec fn keys(&self) -> Seq<Seq<char>> {
        keys_of(self.entries@)
    }

    #[verifier::type_invariant]
    spec fn distinct_keys(&self) -> bool {
        keys_of(self.entries@).no_duplicates()
    }
}

impl<V: View> StringMap<V> {
    /// The keys of the view are the texts of the storage order, and they are
    /// finitely many.
    pub proof fn lemma_dom(&self)
        ensures
            self@.dom() == self.keys().to_set(),
            self@.dom().finite(),
    {
        assert(self@.dom() =~= self.keys().to_set());
        vstd::seq_lib::seq_to_set_is_finite(self.keys());
    }

    /// The empty map.
    pub fn new() -> (map: Self)
        ensures
            map@ == Map::<Seq<char>, V::V>::empty(),
            map.keys() == Seq::<Seq<char>>::empty(),
    {
        let map = StringMap { entries: Vec::new() };
        assert(map.keys() =~= Seq::<Seq<char>>::empty());
        assert(map@ =~= Map::<Seq<char>, V::V>::empty());
        map
    }

    /// The number of entries. The stored order lists every key once.
    pub fn len(&self) -> (count: usize)
        ensures
            count == self@.len(),
            count == self.keys().len(),
            self@.dom().finite(),
            self.keys().no_duplicates(),
            self.keys().to_set() == self@.dom(),
    {
        proof {
            use_type_invariant(self);
            self.keys().unique_seq_to_set();
            assert(self.keys().to_set() =~= self@.dom());
        }
        self.entries.len()
    }

    /// Whether the map holds nothing.
    pub fn is_empty(&self) -> (empty: bool)
        ensures
            empty == (self@ == Map::<Seq<char>, V::V>::empty()),
    {
        let count = self.len();
        proof {
            if count == 0 {
                assert(self@ =~= Map::<Seq<char>, V::V>::empty());
            } else {
                assert(self.keys().contains(self.keys()[0]));
                assert(self@.dom().contains(self.keys()[0]));
            }
        }
        count == 0
    }

    /// The place of `key` in storage order, if the map holds it.
    fn position(&self, key: &str) -> (place: Option<usize>)
        ensures
            match place {
                Some(i) => i < self.keys().len() && self.keys()[i as int] == key@
                    && self@.contains_key(key@) && self.keys().index_of(key@) == i,
                None => !self@.contains_key(key@) && !self.keys().contains(key@),
            },
    {
        proof {
            use_type_invariant(self);
        }
        let mut i: usize = 0;
        while i < self.entries.len()
            invariant
                0 <= i <= self.entries@.len(),
                self.keys() == keys_of(self.entries@),
                self.keys().no_duplicates(),
                forall|j: int| 0 <= j < i ==> self.keys()[j] != key@,
            decreases self.entries@.len() - i,
        {
            if same_text(self.entries[i].0.as_str(), key) {
                proof {
                    assert(self.keys()[i as int] == key@);
                    assert(self.keys().contains(key@));
                    assert(self.keys().index_of(key@) == i);
                }
                return Some(i);
            }
            assert(self.keys()[i as int] != key@);
            i += 1;
        }
        None
    }

    /// Whether the map has an entry under `key`.
    pub fn contains_key(&self, key: &str) -> (held: bool)
        ensures
            held == self@.contains_key(key@),
    {
        self.position(key).is_some()
    }

    /// The value stored under `key`, if there is one.
    pub fn get(&self, key: &str) -> (found: Option<&V>)
        ensures
            match found {
                Some(value) => self@.contains_key(key@) && value@ == self@[key@],
                None => !self@.contains_key(key@),
            },
    {
        match self.position(key) {
            Some(i) => Some(&self.entries[i].1),
            None => None,
        }
    }

    /// Stores `value` under `key`, replacing what was stored there; returns
    /// the value replaced. A new key goes to the end of the storage order, a
    /// known one keeps its place.
    pub fn insert(&mut self, key: String, value: V) -> (replaced: Option<V>)
        ensures
            final(self)@ == old(self)@.insert(key@, value@),
            match replaced {
                Some(previous) => old(self)@.contains_key(key@) && previous@ == old(self)@[key@]
                    && final(self).keys() == old(self).keys(),
                None => !old(self)@.contains_key(key@) && final(self).keys() == old(self).keys().push(
                    key@,
                ),
            },
            old(self)@.contains_key(key@) == old(self).keys().contains(key@),
    {
        proof {
            use_type_invariant(&*self);
        }
        let ghost before = self.entries@;
        let ghost before_view = self@;
        let place = self.position(key.as_str());
        let mut entries: Vec<(String, V)> = Vec::new();
        core::mem::swap(&mut self.entries, &mut entries);
        match place {
            Some(i) => {
                let mut entry = (key, value);
                core::mem::swap(&mut entries[i], &mut entry);
                proof {
                    assert(keys_of(entries@) =~= keys_of(before));
                }
                self.entries = entries;
                proof {
                    assert(self@ =~= before_view.insert(key@, value@)) by {
                        assert forall|t: Seq<char>| self@.contains_key(t) implies #[trigger] self@[t]
                            == before_view.insert(key@, value@)[t] by {
                            let k = keys_of(before).index_of(t);
                            assert(keys_of(before)[k] == t);
                        }
                    }
                }
                Some(entry.1)
            },
            None => {
                entries.push((key, value));
                proof {
                    assert(keys_of(entries@) =~= keys_of(before).push(key@));
                    lemma_push_keeps_distinct(keys_of(before), key@);
                }
                self.entries = entries;
                proof {
                    let after = keys_of(self.entries@);
                    assert(self@ =~= before_view.insert(key@, value@)) by {
                        assert forall|t: Seq<char>| self@.contains_key(t) == before_view.insert(
                            key@,
                            value@,
                        ).contains_key(t) by {
                            if after.contains(t) {
                                let k = choose|k: int| 0 <= k < after.len() && after[k] == t;
                                if k < before.len() {
                                    assert(keys_of(before)[k] == t);
                                }
                            }
                            if keys_of(before).contains(t) {
                                let k = choose|k: int|
                                    0 <= k < before.len() && keys_of(before)[k] == t;
                                assert(after[k] == t);
                            }
                            if t == key@ {
                                assert(after[before.len() as int] == t);
                            }
                        }
                        assert forall|t: Seq<char>| self@.contains_key(t) implies #[trigger] self@[t]
                            == before_view.insert(key@, value@)[t] by {
                            let k = after.index_of(t);
                            assert(after[k] == t);
                            if t == key@ {
                                assert(after[before.len() as int] == t);
                                assert(k == before.len());
                            } else {
                                assert(k < before.len());
                                assert(keys_of(before)[k] == t);
                                assert(keys_of(before).contains(t));
                                assert(keys_of(before).index_of(t) == k);
                            }
                        }
                    }
                }
                None
            },
        }
    }

    /// Takes out the entry under `key`, if there is one, and returns its
    /// value. The other entries keep their order.
    pub fn remove(&mut self, key: &str) -> (removed: Option<V>)
        ensures
            final(self)@ == old(self)@.remove(key@),
            final(self).keys() == without(old(self).keys(), key@),
            match removed {
                Some(previous) => old(self)@.contains_key(key@) && previous@ == old(self)@[key@],
                None => !old(self)@.contains_key(key@),
            },
    {
        proof {
            use_type_invariant(&*self);
        }
        let ghost before = self.entries@;
        let ghost before_view = self@;
        match self.position(key) {
            Some(i) => {
                let mut entries: Vec<(String, V)> = Vec::new();
                core::mem::swap(&mut self.entries, &mut entries);
                let entry = entries.remove(i);
                proof {
                    assert(keys_of(entries@) =~= keys_of(before).remove(i as int));
                    lemma_remove_keeps_distinct(keys_of(before), i as int);
                }
                self.entries = entries;
                proof {
                    let after = keys_of(self.entries@);
                    assert(self@ =~= before_view.remove(key@)) by {
                        assert forall|t: Seq<char>| self@.contains_key(t) implies #[trigger] self@[t]
                            == before_view.remove(key@)[t] by {
                            let k = after.index_of(t);
                            assert(after[k] == t);
                            let origin = if k < i { k } else { k + 1 };
                            assert(keys_of(before)[origin] == t);
                            assert(keys_of(before).contains(t));
                            assert(keys_of(before).index_of(t) == origin);
                        }
                    }
                }
                Some(entry.1)
            },
            None => {
                proof {
                    assert(self@ =~= before_view.remove(key@));
                }
                None
            },
        }
    }

    /// The key at `place` in storage order.
    pub fn key_at(&self, place: usize) -> (key: &String)
        requires
            place < self.keys().len(),
        ensures
            key@ == self.keys()[place as int],
            self@.contains_key(key@),
    {
        proof {
            assert(self.keys().contains(self.keys()[place as int]));
        }
        &self.entries[place].0
    }

    /// The value at `place` in storage order: the one stored under the key at
    /// that place.
    pub fn value_at(&self, place: usize) -> (value: &V)
        requires
            place < self.keys().len(),
        ensures
            self@.contains_key(self.keys()[place as int]),
            value@ == self@[self.keys()[place as int]],
    {
        proof {
            use_type_invariant(self);
            let key = self.keys()[place as int];
            assert(self.keys().contains(key));
            assert(self.keys().index_of(key) == place);
        }
        &self.entries[place].1
    }

    /// The keys, in storage order.
    pub fn key_list(&self) -> (keys: Vec<String>)
        ensures
            texts_of(keys@) == self.keys(),
            self.keys().no_duplicates(),
            self.keys().to_set() == self@.dom(),
    {
        let count = self.len();
        let mut keys: Vec<String> = Vec::new();
        let mut i: usize = 0;
        while i < count
            invariant
                0 <= i <= count,
                count == self.keys().len(),
                keys@.len() == i,
                forall|j: int| 0 <= j < i ==> (#[trigger] keys@[j])@ == self.keys()[j],
            decreases count - i,
        {
            keys.push(self.key_at(i).clone());
            i += 1;
        }
        assert(texts_of(keys@) =~= self.keys());
        keys
    }
}

impl<V: Duplicate> StringMap<V> {
    /// Copies into this map every entry of `other`; where both have a key,
    /// the value of `other` replaces the one held.
    pub fn extend_from(&mut self, other: &StringMap<V>)
        ensures
            final(self)@ == old(self)@.union_prefer_right(other@),
            final(self).keys() == with_new(old(self).keys(), other.keys()),
    {
        let count = other.len();
        let mut i: usize = 0;
        while i < count
            invariant
                0 <= i <= count,
                count == other.keys().len(),
                other.keys().no_duplicates(),
                other.keys().to_set() == other@.dom(),
                self@.dom() == old(self)@.dom().union(other.keys().take(i as int).to_set()),
                self.keys() == with_new(old(self).keys(), other.keys().take(i as int)),
                forall|key: Seq<char>| #[trigger]
                    self@.contains_key(key) ==> self@[key] == if other.keys().take(
                        i as int,
                    ).contains(key) {
                        other@[key]
                    } else {
                        old(self)@[key]
                    },
            decreases count - i,
        {
            let ghost before = self@;
            let ghost done = other.keys().take(i as int);
            let key = other.key_at(i).clone();
            let value = other.value_at(i).duplicate();
            self.insert(key, value);
            proof {
                let next = other.keys().take(i + 1);
                assert(next =~= done.push(key@));
                assert(next.drop_last() =~= done);
                assert(next.last() == key@);
                assert(next.to_set() =~= done.to_set().insert(key@)) by {
                    assert forall|t: Seq<char>| next.contains(t) == (done.contains(t) || t == key@) by {
                        if next.contains(t) {
                            let k = choose|k: int| 0 <= k < next.len() && next[k] == t;
                            if k < done.len() {
                                assert(done[k] == t);
                            }
                        }
                        if done.contains(t) {
                            let k = choose|k: int| 0 <= k < done.len() && done[k] == t;
                            assert(next[k] == t);
                        }
                        if t == key@ {
                            assert(next[i as int] == t);
                        }
                    }
                }
                assert(self@.dom() =~= old(self)@.dom().union(next.to_set()));
                assert forall|t: Seq<char>| #[trigger] self@.contains_key(t) implies self@[t] == if next.contains(
                    t,
                ) {
                    other@[t]
                } else {
                    old(self)@[t]
                } by {
                    if t == key@ {
                        assert(next[i as int] == t);
                    } else {
                        assert(before.contains_key(t));
                        if next.contains(t) {
                            let k = choose|k: int| 0 <= k < next.len() && next[k] == t;
                            assert(done[k] == t);
                        }
                        if done.contains(t) {
                            let k = choose|k: int| 0 <= k < done.len() && done[k] == t;
                            assert(next[k] == t);
                        }
                    }
                }
            }
            i += 1;
        }
        proof {
            assert(other.keys().take(count as int) =~= other.keys());
            assert(self@ =~= old(self)@.union_prefer_right(other@));
        }
    }
}

impl<V: Duplicate> Duplicate for StringMap<V> {
    fn duplicate(&self) -> (copy: Self) {
        let mut copy = StringMap::new();
        copy.extend_from(self);
        assert(copy@ =~= self@);
        copy
    }
}

} // verus!
