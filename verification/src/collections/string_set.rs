//! A set of strings.

use crate::collections::string_map::{texts_of, with_new, without, Duplicate, StringMap};
use vstd::prelude::*;

verus! {

/// A finite set of strings.
///
/// Its view is the set of the texts it holds. The texts are stored in the
/// order in which they were first inserted; that order shows in
/// [`StringSet::texts`] and [`StringSet::to_vec`], and nowhere in the view.
#[derive(Debug)]
pub struct StringSet {
    members: StringMap<()>,
}

impl View for StringSet {
    type V = Set<Seq<char>>;

    open spec fn view(&self) -> Set<Seq<char>> {
        self.texts().to_set()
    }
}

impl StringSet {
    /// The texts held, in storage order.
    pub closed spec fn texts(&self) -> Seq<Seq<char>> {
        self.members.keys()
    }

    /// The view is the set of the keys of the map underneath.
    proof fn lemma_view(&self)
        ensures
            self@ == self.members@.dom(),
            self@.finite(),
    {
        self.members.lemma_dom();
    }

    /// The empty set.
    pub fn new() -> (set: Self)
        ensures
            set@ == Set::<Seq<char>>::empty(),
            set.texts() == Seq::<Seq<char>>::empty(),
    {
        let set = StringSet { members: StringMap::new() };
        proof {
            set.lemma_view();
        }
        assert(set@ =~= Set::<Seq<char>>::empty());
        set
    }

    /// The number of texts held. The stored order lists every text once.
    pub fn len(&self) -> (count: usize)
        ensures
            count == self@.len(),
            count == self.texts().len(),
            self@.finite(),
            self.texts().no_duplicates(),
            self.texts().to_set() == self@,
    {
        proof {
            self.lemma_view();
        }
        self.members.len()
    }

    /// Whether the set holds nothing.
    pub fn is_empty(&self) -> (empty: bool)
        ensures
            empty == (self@ == Set::<Seq<char>>::empty()),
    {
        let empty = self.members.is_empty();
        proof {
            self.lemma_view();
            if empty {
                assert(self@ =~= Set::<Seq<char>>::empty());
            } else {
                if self@ == Set::<Seq<char>>::empty() {
                    assert(self.members@ =~= Map::<Seq<char>, ()>::empty());
                }
            }
        }
        empty
    }

    /// Whether the set holds `item`.
    pub fn contains(&self, item: &str) -> (held: bool)
        ensures
            held == self@.contains(item@),
    {
        proof {
            self.lemma_view();
        }
        self.members.contains_key(item)
    }

    /// Adds `item`; says whether it was new. A new text goes to the end of
    /// the storage order.
    pub fn insert(&mut self, item: String) -> (added: bool)
        ensures
            final(self)@ == old(self)@.insert(item@),
            added == !old(self)@.contains(item@),
            added ==> final(self).texts() == old(self).texts().push(item@),
            !added ==> final(self).texts() == old(self).texts(),
    {
        let replaced = self.members.insert(item, ());
        proof {
            old(self).lemma_view();
            self.lemma_view();
        }
        assert(self@ =~= old(self)@.insert(item@));
        replaced.is_none()
    }

    /// Takes `item` out; says whether the set held it.
    pub fn remove(&mut self, item: &str) -> (removed: bool)
        ensures
            final(self)@ == old(self)@.remove(item@),
            final(self).texts() == without(old(self).texts(), item@),
            removed == old(self)@.contains(item@),
    {
        let taken = self.members.remove(item);
        proof {
            old(self).lemma_view();
            self.lemma_view();
        }
        assert(self@ =~= old(self)@.remove(item@));
        taken.is_some()
    }

    /// The text at `place` in storage order.
    pub fn item_at(&self, place: usize) -> (item: &String)
        requires
            place < self.texts().len(),
        ensures
            item@ == self.texts()[place as int],
            self@.contains(item@),
    {
        self.members.key_at(place)
    }

    /// The texts held, in storage order.
    pub fn to_vec(&self) -> (items: Vec<String>)
        ensures
            texts_of(items@) == self.texts(),
            self.texts().no_duplicates(),
            self.texts().to_set() == self@,
    {
        self.members.key_list()
    }

    /// The set of the strings of `items`; a text that occurs more than once
    /// is held once.
    pub fn from_vec(items: Vec<String>) -> (set: Self)
        ensures
            set@ == texts_of(items@).to_set(),
            set.texts() == with_new(Seq::<Seq<char>>::empty(), texts_of(items@)),
    {
        let mut set = StringSet::new();
        let mut i: usize = 0;
        while i < items.len()
            invariant
                0 <= i <= items@.len(),
                set@ == texts_of(items@).take(i as int).to_set(),
                set.texts() == with_new(
                    Seq::<Seq<char>>::empty(),
                    texts_of(items@).take(i as int),
                ),
            decreases items@.len() - i,
        {
            let ghost done = texts_of(items@).take(i as int);
            set.insert(items[i].clone());
            proof {
                let next = texts_of(items@).take(i + 1);
                assert(next =~= done.push(items@[i as int]@));
                assert(next.drop_last() =~= done);
                lemma_push_to_set(done, items@[i as int]@);
            }
            i += 1;
        }
        assert(texts_of(items@).take(items@.len() as int) =~= texts_of(items@));
        set
    }

    /// Adds every text of `other`.
    pub fn union_with(&mut self, other: &StringSet)
        ensures
            final(self)@ == old(self)@.union(other@),
            final(self).texts() == with_new(old(self).texts(), other.texts()),
    {
        self.members.extend_from(&other.members);
        proof {
            old(self).lemma_view();
            self.lemma_view();
            other.lemma_view();
        }
        assert(self@ =~= old(self)@.union(other@));
    }
}

/// The set of a sequence with one more text is the set of the sequence with
/// that text added.
pub proof fn lemma_push_to_set(texts: Seq<Seq<char>>, text: Seq<char>)
    ensures
        texts.push(text).to_set() == texts.to_set().insert(text),
{
    let longer = texts.push(text);
    assert forall|t: Seq<char>| longer.contains(t) == (texts.contains(t) || t == text) by {
        if longer.contains(t) {
            let k = choose|k: int| 0 <= k < longer.len() && longer[k] == t;
            if k < texts.len() {
                assert(texts[k] == t);
            }
        }
        if texts.contains(t) {
            let k = choose|k: int| 0 <= k < texts.len() && texts[k] == t;
            assert(longer[k] == t);
        }
        if t == text {
            assert(longer[texts.len() as int] == t);
        }
    }
    assert(longer.to_set() =~= texts.to_set().insert(text));
}

impl Duplicate for StringSet {
    fn duplicate(&self) -> (copy: Self) {
        let copy = StringSet { members: self.members.duplicate() };
        proof {
            self.lemma_view();
            copy.lemma_view();
        }
        copy
    }
}

} // verus!
