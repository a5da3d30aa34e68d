//! The hash collections of training: the set of splats to split, and the
//! optimizer's record.
use crate::train::record::AdamState;
use vstd::prelude::*;

verus! {

/// A set of splat indices, held by `hashbrown::HashSet<i32>`.
#[verifier::external_body]
pub struct IndexSet {
    inner: hashbrown::HashSet<i32>,
}

/// The indices that the set holds.
pub uninterp spec fn index_set_contents(set: IndexSet) -> Set<i32>;

impl View for IndexSet {
    type V = Set<i32>;

    open spec fn view(&self) -> Set<i32> {
        index_set_contents(*self)
    }
}

impl IndexSet {
    /// `hashbrown::HashSet::new`: the set without elements.
    #[verifier::external_body]
    pub(crate) fn new() -> (r: IndexSet)
        ensures
            index_set_contents(r) == Set::<i32>::empty(),
    {
        IndexSet { inner: hashbrown::HashSet::new() }
    }

    /// `hashbrown::HashSet::insert`: adds the index and says whether it was not
    /// there before.
    #[verifier::external_body]
    pub(crate) fn insert(&mut self, index: i32) -> (r: bool)
        ensures
            r == !index_set_contents(*old(self)).contains(index),
            index_set_contents(*final(self)) == index_set_contents(*old(self)).insert(index),
    {
        self.inner.insert(index)
    }

    /// `hashbrown::HashSet::len`: the number of elements.
    #[verifier::external_body]
    pub(crate) fn len(&self) -> (r: usize)
        ensures
            r == index_set_contents(*self).len(),
    {
        self.inner.len()
    }

    /// `hashbrown::HashSet::into_iter`, collected: every element once. The order
    /// in which the set is walked is left unsaid.
    #[verifier::external_body]
    pub(crate) fn into_vec(self) -> (r: Vec<i32>)
        ensures
            r@.no_duplicates(),
            r@.to_set() == index_set_contents(self),
    {
        self.inner.into_iter().collect()
    }
}

/// The optimizer's state for each parameter, held by
/// `hashbrown::HashMap<u64, AdamState>`.
#[verifier::external_body]
pub struct OptimRecord {
    inner: hashbrown::HashMap<u64, AdamState>,
}

/// The states that the record holds, by parameter.
pub uninterp spec fn optim_record_contents(record: OptimRecord) -> Map<u64, AdamState>;

impl View for OptimRecord {
    type V = Map<u64, AdamState>;

    open spec fn view(&self) -> Map<u64, AdamState> {
        optim_record_contents(*self)
    }
}

impl OptimRecord {
    /// `hashbrown::HashMap::new`: the record without entries.
    #[verifier::external_body]
    pub(crate) fn new() -> (r: OptimRecord)
        ensures
            (optim_record_contents(r) == Map::<u64, AdamState>::empty()),
    {
        OptimRecord { inner: hashbrown::HashMap::new() }
    }

    /// `hashbrown::HashMap::insert`: the parameter has this state from here on.
    #[verifier::external_body]
    pub(crate) fn insert(&mut self, id: u64, state: AdamState)
        ensures
            optim_record_contents(*final(self)) == optim_record_contents(*old(self)).insert(
                id,
                state,
            ),
    {
        self.inner.insert(id, state);
    }

    /// `hashbrown::HashMap::remove`: takes out the state of the parameter, where
    /// there is one.
    #[verifier::external_body]
    pub(crate) fn remove(&mut self, id: u64) -> (r: Option<AdamState>)
        ensures
            r == (if optim_record_contents(*old(self)).contains_key(id) {
                Some(optim_record_contents(*old(self))[id])
            } else {
                None
            }),
            optim_record_contents(*final(self)) == optim_record_contents(*old(self)).remove(id),
    {
        self.inner.remove(&id)
    }
}

} // verus!
