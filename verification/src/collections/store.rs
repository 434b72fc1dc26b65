//! The store of collections: insert-or-overwrite by identifier.

use vstd::prelude::*;
use crate::collections::model::{Collection, CollectionView, collection_views};

verus! {

/// No two collections of `s` share an identifier.
pub open spec fn distinct_ids(s: Seq<CollectionView>) -> bool {
    forall|i: int, j: int| 0 <= i < j < s.len() ==> s[i].id != s[j].id
}

/// `i` is the first place of `s` that holds the identifier `id`.
pub open spec fn first_at(s: Seq<CollectionView>, id: u128, i: int) -> bool {
    &&& 0 <= i < s.len()
    &&& s[i].id == id
    &&& forall|j: int| 0 <= j < i ==> s[j].id != id
}

/// Some collection of `s` has the identifier `id`.
pub open spec fn holds(s: Seq<CollectionView>, id: u128) -> bool {
    exists|i: int| 0 <= i < s.len() && s[i].id == id
}

/// The first place of `s` that holds `id`, where there is one.
pub open spec fn place_of(s: Seq<CollectionView>, id: u128) -> int {
    choose|i: int| first_at(s, id, i)
}

/// The first collection of `s` with the identifier `id`.
pub open spec fn find_by_id(s: Seq<CollectionView>, id: u128) -> Option<CollectionView> {
    if holds(s, id) {
        Some(s[place_of(s, id)])
    } else {
        None
    }
}

/// `s` after `c` was stored: `c` takes the place of the collection with its
/// identifier, or comes last where there is none.
pub open spec fn upsert(s: Seq<CollectionView>, c: CollectionView) -> Seq<CollectionView> {
    if holds(s, c.id) {
        s.update(place_of(s, c.id), c)
    } else {
        s.push(c)
    }
}

/// A place that holds `id` with no earlier one is the place `place_of` names.
pub proof fn place_is_first(s: Seq<CollectionView>, id: u128, i: int)
    requires
        first_at(s, id, i),
    ensures
        holds(s, id),
        place_of(s, id) == i,
{
    let p = place_of(s, id);
    assert(first_at(s, id, p));
    if p < i {
        assert(s[p].id != id);
    }
    if i < p {
        assert(s[i].id != id);
    }
}

/// Where `id` is held, `place_of` names its first place.
pub proof fn held_has_place(s: Seq<CollectionView>, id: u128)
    requires
        holds(s, id),
    ensures
        first_at(s, id, place_of(s, id)),
    decreases s.len(),
{
    let i = choose|i: int| 0 <= i < s.len() && s[i].id == id;
    if exists|j: int| 0 <= j < i && s[j].id == id {
        let shorter = s.take(i);
        let j = choose|j: int| 0 <= j < i && s[j].id == id;
        assert(shorter[j].id == id);
        held_has_place(shorter, id);
        let p = place_of(shorter, id);
        assert(first_at(shorter, id, p));
        assert(s[p] == shorter[p]);
        assert forall|k: int| 0 <= k < p implies s[k].id != id by {
            assert(shorter[k].id != id);
        }
        assert(first_at(s, id, p));
    } else {
        assert(first_at(s, id, i));
    }
}

/// Storing keeps identifiers distinct, and the stored collection is the one
/// found under its identifier afterwards.
pub proof fn upsert_keeps_distinct(s: Seq<CollectionView>, c: CollectionView)
    requires
        distinct_ids(s),
    ensures
        distinct_ids(upsert(s, c)),
        find_by_id(upsert(s, c), c.id) == Some(c),
        holds(s, c.id) ==> upsert(s, c).len() == s.len(),
        !holds(s, c.id) ==> upsert(s, c).len() == s.len() + 1,
{
    let after = upsert(s, c);
    if holds(s, c.id) {
        held_has_place(s, c.id);
        let p = place_of(s, c.id);
        assert forall|i: int, j: int| 0 <= i < j < after.len() implies after[i].id != after[j].id by {
            assert(s[i].id != s[j].id);
        }
        assert forall|j: int| 0 <= j < p implies after[j].id != c.id by {
            assert(s[j].id != c.id);
        }
        assert(first_at(after, c.id, p));
        place_is_first(after, c.id, p);
    } else {
        let p = s.len() as int;
        assert forall|i: int, j: int| 0 <= i < j < after.len() implies after[i].id != after[j].id by {
            if j < s.len() {
                assert(s[i].id != s[j].id);
            } else {
                assert(after[i] == s[i]);
            }
        }
        assert forall|j: int| 0 <= j < p implies after[j].id != c.id by {
            assert(after[j] == s[j]);
        }
        assert(first_at(after, c.id, p));
        place_is_first(after, c.id, p);
    }
}

/// Storing two collections with one identifier, one after the other, leaves
/// exactly one collection under that identifier: the second. The second
/// storing does not change how many collections the store lists.
pub proof fn upsert_twice_keeps_latest(
    s: Seq<CollectionView>,
    first: CollectionView,
    second: CollectionView,
)
    requires
        distinct_ids(s),
        first.id == second.id,
    ensures
        upsert(upsert(s, first), second).len() == upsert(s, first).len(),
        upsert(upsert(s, first), second) == upsert(s, second),
        find_by_id(upsert(upsert(s, first), second), second.id) == Some(second),
        forall|i: int, j: int|
            #![trigger upsert(upsert(s, first), second)[i], upsert(upsert(s, first), second)[j]]
            0 <= i < upsert(upsert(s, first), second).len() && 0 <= j < upsert(
                upsert(s, first),
                second,
            ).len() && upsert(upsert(s, first), second)[i].id == second.id && upsert(
                upsert(s, first),
                second,
            )[j].id == second.id ==> i == j,
{
    let once = upsert(s, first);
    let twice = upsert(once, second);
    upsert_keeps_distinct(s, first);
    upsert_keeps_distinct(once, second);
    assert(holds(once, second.id));
    held_has_place(once, second.id);
    let p = place_of(once, second.id);
    if holds(s, first.id) {
        held_has_place(s, first.id);
        let q = place_of(s, first.id);
        assert(once[q].id == second.id);
        if p < q {
            assert(once[p] == s[p]);
        }
        assert(twice =~= upsert(s, second));
    } else {
        assert forall|j: int| 0 <= j < s.len() implies once[j].id != second.id by {
            assert(once[j] == s[j]);
        }
        assert(p == s.len());
        assert(twice =~= upsert(s, second));
    }
    assert forall|i: int, j: int|
        0 <= i < twice.len() && 0 <= j < twice.len() && twice[i].id == second.id && twice[j].id
            == second.id implies i == j by {
        if i < j {
            assert(twice[i].id != twice[j].id);
        }
        if j < i {
            assert(twice[j].id != twice[i].id);
        }
    }
}

/// The view of an optional collection.
pub open spec fn optional_view(c: Option<Collection>) -> Option<CollectionView> {
    match c {
        Some(c) => Some(c@),
        None => None,
    }
}

/// The authoritative store of collections.
///
/// A store says in `stores` what handing a collection to `add` does to what
/// it holds. The store in memory stores exactly; a store on a medium that can
/// fail does what it can and says so there.
pub trait CollectionRepository {
    /// The collections held, in the order in which `list` gives them. Of a
    /// store that does not say what it holds, this is not known.
    open spec fn contents(&self) -> Seq<CollectionView> {
        arbitrary()
    }

    /// Whether a store that held `before` may hold `after` once `c` was
    /// handed to `add`. A store that says nothing promises nothing.
    open spec fn stores(
        before: Seq<CollectionView>,
        c: CollectionView,
        after: Seq<CollectionView>,
    ) -> bool {
        true
    }

    /// Every collection held.
    fn list(&self) -> (r: Vec<Collection>)
        ensures
            collection_views(r@) == self.contents(),
    ;

    /// Stores `c` under its identifier.
    fn add(&mut self, c: Collection)
        ensures
            Self::stores(old(self).contents(), c@, final(self).contents()),
    ;

    /// The first collection held under `id`.
    fn get_by_id(&self, id: &u128) -> (r: Option<Collection>)
        ensures
            optional_view(r) == find_by_id(self.contents(), *id),
    ;
}

/// A store that lives in memory. It starts empty, so by `upsert_keeps_distinct`
/// it never holds two collections under one identifier.
pub struct CollectionRepositoryMemory {
    items: Vec<Collection>,
}

impl CollectionRepositoryMemory {
    /// The collections held, in the order in which they were first stored.
    pub closed spec fn view(&self) -> Seq<CollectionView> {
        collection_views(self.items@)
    }

    /// An empty store.
    pub fn new() -> (r: Self)
        ensures
            r@ == Seq::<CollectionView>::empty(),
    {
        let r = CollectionRepositoryMemory { items: Vec::new() };
        assert(collection_views(r.items@) =~= Seq::<CollectionView>::empty());
        r
    }

    /// The place of the first collection held under `id`.
    fn find(&self, id: u128) -> (r: Option<usize>)
        ensures
            match r {
                Some(i) => first_at(self@, id, i as int),
                None => !holds(self@, id),
            },
    {
        let mut i: usize = 0;
        while i < self.items.len()
            invariant
                i <= self.items.len(),
                forall|j: int| 0 <= j < i ==> collection_views(self.items@)[j].id != id,
            decreases self.items.len() - i,
        {
            if self.items[i].id == id {
                assert(collection_views(self.items@)[i as int].id == id);
                return Some(i);
            }
            i += 1;
        }
        None
    }
}

impl CollectionRepository for CollectionRepositoryMemory {
    open spec fn contents(&self) -> Seq<CollectionView> {
        self@
    }

    open spec fn stores(
        before: Seq<CollectionView>,
        c: CollectionView,
        after: Seq<CollectionView>,
    ) -> bool {
        after == upsert(before, c)
    }

    fn list(&self) -> (r: Vec<Collection>) {
        let mut out: Vec<Collection> = Vec::new();
        let mut i: usize = 0;
        while i < self.items.len()
            invariant
                i <= self.items.len(),
                out.len() == i,
                forall|j: int| 0 <= j < i ==> out[j]@ == self.items[j]@,
            decreases self.items.len() - i,
        {
            out.push(self.items[i].clone());
            i += 1;
        }
        assert(collection_views(out@) =~= collection_views(self.items@));
        out
    }

    fn add(&mut self, c: Collection) {
        let ghost before = self@;
        match self.find(c.id) {
            Some(i) => {
                proof {
                    place_is_first(before, c.id, i as int);
                }
                self.items.set(i, c);
                assert(collection_views(self.items@) =~= upsert(before, c@));
            },
            None => {
                self.items.push(c);
                assert(collection_views(self.items@) =~= upsert(before, c@));
            },
        }
    }

    fn get_by_id(&self, id: &u128) -> (r: Option<Collection>) {
        match self.find(*id) {
            Some(i) => {
                proof {
                    place_is_first(self@, *id, i as int);
                }
                Some(self.items[i].clone())
            },
            None => None,
        }
    }
}

} // verus!
