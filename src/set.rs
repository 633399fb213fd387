use vstd::prelude::*;

use crate::entry::{EntryModel, FlatpakDefinition};

verus! {

/// The models of a sequence of entries, in order.
pub open spec fn models_of(s: Seq<FlatpakDefinition>) -> Seq<EntryModel> {
    s.map_values(|e: FlatpakDefinition| e@)
}

/// The set of packages that a list of entries declares.
pub open spec fn set_of(s: Seq<FlatpakDefinition>) -> Set<EntryModel> {
    models_of(s).to_set()
}

/// A set of package entries, kept as a list in which no package occurs twice.
#[derive(Debug)]
pub struct EntrySet {
    items: Vec<FlatpakDefinition>,
}

impl View for EntrySet {
    type V = Set<EntryModel>;

    open spec fn view(&self) -> Set<EntryModel> {
        set_of(self.listing())
    }
}

impl EntrySet {
    /// The entries in the order in which they are stored.
    pub closed spec fn listing(&self) -> Seq<FlatpakDefinition> {
        self.items@
    }

    /// No package occurs twice in the listing.
    pub open spec fn wf(&self) -> bool {
        models_of(self.listing()).no_duplicates()
    }

    pub proof fn lemma_view_is_listing(&self)
        ensures
            self@ == set_of(self.listing()),
    {
    }

    /// The listing holds each package of the set exactly once.
    pub proof fn lemma_listing_matches_view(&self)
        requires
            self.wf(),
        ensures
            self.listing().len() == self@.len(),
            forall|i: int| 0 <= i < self.listing().len() ==> self@.contains(#[trigger] self.listing()[i]@),
    {
        let ms = models_of(self.items@);
        ms.unique_seq_to_set();
        assert forall|i: int| 0 <= i < self.listing().len() implies self@.contains(
            #[trigger] self.listing()[i]@,
        ) by {
            assert(ms[i] == self.listing()[i]@);
        }
    }

    pub fn new() -> (r: EntrySet)
        ensures
            r.wf(),
            r@ == Set::<EntryModel>::empty(),
            r.listing() == Seq::<FlatpakDefinition>::empty(),
    {
        let r = EntrySet { items: Vec::new() };
        assert(r@ =~= Set::<EntryModel>::empty());
        r
    }

    pub fn len(&self) -> (r: usize)
        requires
            self.wf(),
        ensures
            r == self@.len(),
    {
        proof {
            models_of(self.items@).unique_seq_to_set();
        }
        self.items.len()
    }

    pub fn is_empty(&self) -> (r: bool)
        requires
            self.wf(),
        ensures
            r == (self@ == Set::<EntryModel>::empty()),
    {
        proof {
            if self.items@.len() > 0 {
                assert(models_of(self.items@)[0] == self.items@[0]@);
                assert(models_of(self.items@).contains(self.items@[0]@));
                assert(self@.contains(self.items@[0]@));
            } else {
                assert(self@ =~= Set::<EntryModel>::empty());
            }
        }
        self.items.len() == 0
    }

    /// The entries of the set, each once.
    pub fn entries(&self) -> (r: &[FlatpakDefinition])
        ensures
            r@ == self.listing(),
    {
        self.items.as_slice()
    }

    pub fn contains(&self, e: &FlatpakDefinition) -> (r: bool)
        ensures
            r == self@.contains(e@),
    {
        let ghost ms = models_of(self.items@);
        let mut i: usize = 0;
        while i < self.items.len()
            invariant
                0 <= i <= self.items@.len(),
                ms == models_of(self.items@),
                forall|j: int| 0 <= j < i ==> ms[j] != e@,
            decreases self.items@.len() - i,
        {
            if self.items[i].same_as(e) {
                assert(ms[i as int] == e@);
                return true;
            }
            i += 1;
        }
        false
    }

    /// Adds one entry; an entry whose package is already present is dropped.
    pub fn insert(&mut self, e: FlatpakDefinition)
        requires
            old(self).wf(),
        ensures
            final(self).wf(),
            final(self)@ == old(self)@.insert(e@),
    {
        if !self.contains(&e) {
            let ghost before = models_of(self.items@);
            self.items.push(e);
            proof {
                let after = models_of(self.items@);
                assert(after =~= before.push(e@));
                before.lemma_push_to_set_commute(e@);
                assert forall|i: int, j: int|
                    0 <= i < after.len() && 0 <= j < after.len() && i != j implies after[i]
                    != after[j] by {
                    if i == before.len() {
                        assert(before.contains(after[j]));
                    } else if j == before.len() {
                        assert(before.contains(after[i]));
                    }
                }
            }
        } else {
            assert(old(self)@.insert(e@) =~= old(self)@);
        }
    }

    /// Adds every entry of a list, collapsing repeated packages.
    pub fn insert_all(&mut self, es: &[FlatpakDefinition])
        requires
            old(self).wf(),
        ensures
            final(self).wf(),
            final(self)@ == old(self)@.union(set_of(es@)),
    {
        let ghost start = self@;
        let mut i: usize = 0;
        while i < es.len()
            invariant
                0 <= i <= es@.len(),
                self.wf(),
                self@ == start.union(set_of(es@.subrange(0, i as int))),
            decreases es@.len() - i,
        {
            let ghost prev = es@.subrange(0, i as int);
            self.insert(es[i].duplicate());
            proof {
                let next = es@.subrange(0, i + 1);
                assert(next =~= prev.push(es@[i as int]));
                assert(models_of(next) =~= models_of(prev).push(es@[i as int]@));
                models_of(prev).lemma_push_to_set_commute(es@[i as int]@);
                assert(self@ =~= start.union(set_of(next)));
            }
            i += 1;
        }
        assert(es@.subrange(0, es@.len() as int) =~= es@);
    }

    /// The set of the packages that a list of entries declares.
    pub fn from_entries(es: &[FlatpakDefinition]) -> (r: EntrySet)
        ensures
            r.wf(),
            r@ == set_of(es@),
    {
        let mut r = EntrySet::new();
        r.insert_all(es);
        assert(r@ =~= set_of(es@));
        r
    }

    /// The packages of `self` that `other` does not hold.
    pub fn difference(&self, other: &EntrySet) -> (r: EntrySet)
        requires
            self.wf(),
        ensures
            r.wf(),
            r@ == self@.difference(other@),
    {
        let mut r = EntrySet::new();
        let ghost ms = models_of(self.items@);
        let mut i: usize = 0;
        while i < self.items.len()
            invariant
                0 <= i <= self.items@.len(),
                ms == models_of(self.items@),
                ms.no_duplicates(),
                r.wf(),
                r@ == ms.subrange(0, i as int).to_set().difference(other@),
            decreases self.items@.len() - i,
        {
            let ghost prev = ms.subrange(0, i as int);
            if !other.contains(&self.items[i]) {
                r.insert(self.items[i].duplicate());
            }
            proof {
                assert(ms.subrange(0, i + 1) =~= prev.push(ms[i as int]));
                prev.lemma_push_to_set_commute(ms[i as int]);
                assert(r@ =~= ms.subrange(0, i + 1).to_set().difference(other@));
            }
            i += 1;
        }
        assert(ms.subrange(0, ms.len() as int) =~= ms);
        r
    }

    /// The packages that either set holds.
    pub fn union(&self, other: &EntrySet) -> (r: EntrySet)
        requires
            self.wf(),
        ensures
            r.wf(),
            r@ == self@.union(other@),
    {
        let mut r = EntrySet::from_entries(self.items.as_slice());
        r.insert_all(other.items.as_slice());
        r
    }
}

} // verus!
