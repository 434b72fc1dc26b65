//! The stores of the library, held together.

use vstd::prelude::*;
use crate::collections::store::CollectionRepository;

verus! {

/// The stores that the services work on.
pub struct Repositories<R: CollectionRepository> {
    collections: R,
}

impl<R: CollectionRepository> Repositories<R> {
    /// The store of collections.
    pub closed spec fn view(&self) -> R {
        self.collections
    }

    /// The stores, with `collections_repo` for the collections.
    pub fn new(collections_repo: R) -> (r: Self)
        ensures
            r@ == collections_repo,
    {
        Repositories { collections: collections_repo }
    }

    /// The store of collections.
    pub fn collections(&self) -> (r: &R)
        ensures
            *r == self@,
    {
        &self.collections
    }

    /// The store of collections, to change it.
    pub fn collections_mut(&mut self) -> (r: &mut R)
        ensures
            *r == old(self)@,
            final(self)@ == *final(r),
    {
        &mut self.collections
    }
}

} // verus!
