use vstd::prelude::*;

use crate::structure_elements::{KeyElement, KeyView, MarketplaceElement, OfferView};

verus! {

/// The pending offers, each under its own key.
pub struct OfferStore {
    entries: Vec<(KeyElement, MarketplaceElement)>,
    contents: Ghost<Map<KeyView, OfferView>>,
}

impl View for OfferStore {
    type V = Map<KeyView, OfferView>;

    closed spec fn view(&self) -> Map<KeyView, OfferView> {
        self.contents@
    }
}

impl OfferStore {
    /// Every entry stands under its own key, and the entries are exactly the contents.
    pub closed spec fn wf(&self) -> bool {
        &&& forall|i: int, j: int|
            0 <= i < j < self.entries@.len() ==> #[trigger] self.entries@[i].0@
                != #[trigger] self.entries@[j].0@
        &&& forall|i: int|
            0 <= i < self.entries@.len() ==> {
                &&& self.contents@.contains_key(#[trigger] self.entries@[i].0@)
                &&& self.contents@[self.entries@[i].0@] == self.entries@[i].1@
            }
        &&& forall|k: KeyView|
            #[trigger] self.contents@.contains_key(k) ==> exists|i: int|
                0 <= i < self.entries@.len() && #[trigger] self.entries@[i].0@ == k
    }

    pub fn new() -> (r: OfferStore)
        ensures
            r.wf(),
            r@ == Map::<KeyView, OfferView>::empty(),
    {
        OfferStore { entries: Vec::new(), contents: Ghost(Map::empty()) }
    }

    /// The position of the entry under `key`, if there is one.
    fn position(&self, key: &KeyElement) -> (r: Option<usize>)
        requires
            self.wf(),
        ensures
            r is None ==> !self@.contains_key(key@),
            r matches Some(i) ==> i < self.entries@.len() && self.entries@[i as int].0@ == key@,
    {
        let mut i: usize = 0;
        while i < self.entries.len()
            invariant
                self.wf(),
                0 <= i <= self.entries@.len(),
                forall|j: int| 0 <= j < i ==> #[trigger] self.entries@[j].0@ != key@,
            decreases self.entries@.len() - i,
        {
            if self.entries[i].0.same_key(key) {
                return Some(i);
            }
            i = i + 1;
        }
        None
    }

    /// The offer under `key`, if there is one.
    pub fn get(&self, key: &KeyElement) -> (r: Option<&MarketplaceElement>)
        requires
            self.wf(),
        ensures
            r is None <==> !self@.contains_key(key@),
            r matches Some(e) ==> e@ == self@[key@],
    {
        match self.position(key) {
            Some(i) => Some(&self.entries[i].1),
            None => None,
        }
    }

    /// Puts `offer` under `key` if the key is free. Returns whether the key was
    /// already taken, in which case nothing changes.
    pub fn insert(&mut self, key: KeyElement, offer: MarketplaceElement) -> (r: bool)
        requires
            old(self).wf(),
        ensures
            final(self).wf(),
            r == old(self)@.contains_key(key@),
            r ==> final(self)@ == old(self)@,
            !r ==> final(self)@ == old(self)@.insert(key@, offer@),
    {
        match self.position(&key) {
            Some(_) => true,
            None => {
                let ghost k = key@;
                let ghost v = offer@;
                let ghost old_entries = self.entries@;
                self.entries.push((key, offer));
                self.contents = Ghost(self.contents@.insert(k, v));
                proof {
                    let n = old_entries.len() as int;
                    assert(self.entries@[n].0@ == k);
                    assert forall|i: int| 0 <= i < n implies #[trigger] self.entries@[i].0@ != k by {
                        assert(self.entries@[i] == old_entries[i]);
                        assert(old(self)@.contains_key(old_entries[i].0@));
                    }
                    assert forall|kk: KeyView| #[trigger]
                        self.contents@.contains_key(kk) implies exists|i: int|
                        0 <= i < self.entries@.len() && #[trigger] self.entries@[i].0@ == kk by {
                        if kk == k {
                            assert(self.entries@[n].0@ == kk);
                        } else {
                            assert(old(self)@.contains_key(kk));
                            let i = choose|i: int|
                                0 <= i < old_entries.len() && #[trigger] old_entries[i].0@ == kk;
                            assert(self.entries@[i] == old_entries[i]);
                        }
                    }
                }
                false
            },
        }
    }

    /// Takes out the offer under `key`, if there is one.
    pub fn remove(&mut self, key: &KeyElement) -> (r: Option<MarketplaceElement>)
        requires
            old(self).wf(),
        ensures
            final(self).wf(),
            r is None <==> !old(self)@.contains_key(key@),
            r is None ==> final(self)@ == old(self)@,
            r matches Some(e) ==> e@ == old(self)@[key@] && final(self)@ == old(self)@.remove(
                key@,
            ),
    {
        match self.position(key) {
            None => None,
            Some(i) => {
                let ghost old_entries = self.entries@;
                let ghost k = key@;
                let entry = self.entries.remove(i);
                self.contents = Ghost(self.contents@.remove(k));
                proof {
                    assert forall|j: int| 0 <= j < self.entries@.len() implies
                        #[trigger] self.entries@[j].0@ != k by {
                        if j < i {
                            assert(self.entries@[j] == old_entries[j]);
                        } else {
                            assert(self.entries@[j] == old_entries[j + 1]);
                        }
                    }
                    assert forall|kk: KeyView| #[trigger]
                        self.contents@.contains_key(kk) implies exists|j: int|
                        0 <= j < self.entries@.len() && #[trigger] self.entries@[j].0@ == kk by {
                        let j = choose|j: int|
                            0 <= j < old_entries.len() && #[trigger] old_entries[j].0@ == kk;
                        if j < i {
                            assert(self.entries@[j] == old_entries[j]);
                        } else {
                            assert(j != i);
                            assert(self.entries@[j - 1] == old_entries[j]);
                        }
                    }
                }
                Some(entry.1)
            },
        }
    }
}

} // verus!
