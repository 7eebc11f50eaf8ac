//! An ordered set of identifiers.
//!
//! A [`Registry`] holds each key at most once and keeps the members in the
//! order in which they were added; removing one keeps the order of the
//! others. That order is the set's enumeration order.

use crate::ident::Identifier;
use vstd::prelude::*;

verus! {

/// The keys of a sequence of identifiers, in order.
pub open spec fn keys_of<T: Identifier>(items: Seq<T>) -> Seq<Seq<u8>> {
    Seq::new(items.len(), |i: int| items[i].key())
}

/// The sequence `members` with `key` at the end, unless it is there already.
pub open spec fn with_member(members: Seq<Seq<u8>>, key: Seq<u8>) -> Seq<Seq<u8>> {
    if members.contains(key) {
        members
    } else {
        members.push(key)
    }
}

/// The keys in the order of their first occurrence, each once.
pub open spec fn distinct(keys: Seq<Seq<u8>>) -> Seq<Seq<u8>>
    decreases keys.len(),
{
    if keys.len() == 0 {
        keys
    } else {
        with_member(distinct(keys.drop_last()), keys.last())
    }
}

/// Keys of which none occurs twice are their own distinct keys.
pub proof fn lemma_distinct_of_no_duplicates(keys: Seq<Seq<u8>>)
    requires
        keys.no_duplicates(),
    ensures
        distinct(keys) == keys,
    decreases keys.len(),
{
    if keys.len() > 0 {
        let front = keys.drop_last();
        lemma_distinct_of_no_duplicates(front);
        if front.contains(keys.last()) {
            let i = choose|i: int| 0 <= i < front.len() && front[i] == keys.last();
            assert(keys[i] == keys[keys.len() - 1]);
        }
        assert(front.push(keys.last()) =~= keys);
    }
}

/// A set of identifiers in the order of their arrival.
#[derive(Debug)]
pub struct Registry<T> {
    items: Vec<T>,
}

impl<T: Identifier> View for Registry<T> {
    type V = Seq<Seq<u8>>;

    closed spec fn view(&self) -> Seq<Seq<u8>> {
        keys_of(self.items@)
    }
}

impl<T: Identifier> Registry<T> {
    /// No key occurs twice.
    pub open spec fn wf(&self) -> bool {
        self@.no_duplicates()
    }

    /// The empty set.
    pub fn new() -> (r: Registry<T>)
        ensures
            r.wf(),
            r@ == Seq::<Seq<u8>>::empty(),
    {
        let r = Registry { items: Vec::new() };
        assert(r@ =~= Seq::<Seq<u8>>::empty());
        r
    }

    /// The set of the given members, in their order; one whose key came
    /// before is left out.
    pub fn from_members(members: &Vec<T>) -> (r: Registry<T>)
        ensures
            r.wf(),
            r@ == distinct(keys_of(members@)),
    {
        let mut r: Registry<T> = Registry::new();
        let mut i: usize = 0;
        assert(keys_of(members@).take(0) =~= Seq::<Seq<u8>>::empty());
        while i < members.len()
            invariant
                i <= members@.len(),
                r.wf(),
                r@ == distinct(keys_of(members@).take(i as int)),
            decreases members@.len() - i,
        {
            proof {
                let keys = keys_of(members@);
                assert(keys.take(i + 1).drop_last() =~= keys.take(i as int));
                assert(keys.take(i + 1).last() == members@[i as int].key());
            }
            r.insert(members[i].duplicate());
            i = i + 1;
        }
        assert(keys_of(members@).take(i as int) =~= keys_of(members@));
        r
    }

    /// The number of members.
    pub fn len(&self) -> (n: usize)
        ensures
            n == self@.len(),
    {
        self.items.len()
    }

    /// Whether the set has no member.
    pub fn is_empty(&self) -> (r: bool)
        ensures
            r == (self@.len() == 0),
    {
        self.items.len() == 0
    }

    /// The position of the member with the key of `item`, if there is one.
    pub fn position(&self, item: &T) -> (r: Option<usize>)
        ensures
            match r {
                Some(i) => i < self@.len() && self@[i as int] == item.key(),
                None => !self@.contains(item.key()),
            },
    {
        let mut i: usize = 0;
        while i < self.items.len()
            invariant
                i <= self.items@.len(),
                forall|j: int| 0 <= j < i ==> self@[j] != item.key(),
            decreases self.items@.len() - i,
        {
            if self.items[i].same(item) {
                return Some(i);
            }
            i = i + 1;
        }
        None
    }

    /// Whether the set has a member with the key of `item`.
    pub fn contains(&self, item: &T) -> (r: bool)
        ensures
            r == self@.contains(item.key()),
    {
        self.position(item).is_some()
    }

    /// The member at position `index` of the enumeration order, if the set
    /// has that many.
    pub fn get(&self, index: usize) -> (r: Option<T>)
        ensures
            match r {
                Some(item) => index < self@.len() && item.key() == self@[index as int],
                None => index >= self@.len(),
            },
    {
        if index < self.items.len() {
            Some(self.items[index].duplicate())
        } else {
            None
        }
    }

    /// The members in enumeration order.
    pub fn members(&self) -> (r: Vec<T>)
        ensures
            keys_of(r@) == self@,
    {
        let mut r: Vec<T> = Vec::new();
        let mut i: usize = 0;
        while i < self.items.len()
            invariant
                i <= self.items@.len(),
                r@.len() == i,
                forall|j: int| 0 <= j < i ==> r@[j].key() == self.items@[j].key(),
            decreases self.items@.len() - i,
        {
            r.push(self.items[i].duplicate());
            i = i + 1;
        }
        assert(keys_of(r@) =~= self@);
        r
    }

    /// Adds `item` at the end unless its key is a member already. Returns
    /// whether it was added.
    pub fn insert(&mut self, item: T) -> (added: bool)
        requires
            old(self).wf(),
        ensures
            final(self).wf(),
            added == !old(self)@.contains(item.key()),
            final(self)@ == if added {
                old(self)@.push(item.key())
            } else {
                old(self)@
            },
    {
        if self.contains(&item) {
            return false;
        }
        let ghost before = self@;
        self.items.push(item);
        assert(self@ =~= before.push(item.key()));
        true
    }

    /// Removes the member with the key of `item`, keeping the order of the
    /// others. Returns whether there was one.
    pub fn remove(&mut self, item: &T) -> (removed: bool)
        requires
            old(self).wf(),
        ensures
            final(self).wf(),
            removed == old(self)@.contains(item.key()),
            final(self)@ == if removed {
                old(self)@.remove(old(self)@.index_of(item.key()))
            } else {
                old(self)@
            },
            !final(self)@.contains(item.key()),
    {
        match self.position(item) {
            Some(i) => {
                let ghost before = self@;
                assert(before.index_of(item.key()) == i as int);
                self.items.remove(i);
                assert(self@ =~= before.remove(i as int));
                assert(!self@.contains(item.key())) by {
                    if self@.contains(item.key()) {
                        let j = choose|j: int| 0 <= j < self@.len() && self@[j] == item.key();
                        if j < i {
                            assert(before[j] == item.key());
                        } else {
                            assert(before[j + 1] == item.key());
                        }
                    }
                }
                true
            },
            None => false,
        }
    }
}

} // verus!
