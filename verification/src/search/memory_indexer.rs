//! An indexer in memory that keeps the documents it is given and does not
//! read them: whatever the query, the hits are the documents it has
//! published, in the order in which they were queued.

use vstd::prelude::*;
use vstd::multiset::Multiset;
use vstd::seq_lib::*;
use crate::collections::model::Video;
use crate::collections::store::CollectionRepository;
use crate::event_bus::{EventBus, EventBusManager};
use crate::search::document::{
    Bag,
    DocumentView,
    Fields,
    IndexDocument,
    Stored,
    all_videos,
    document_of,
    join_key,
    stored,
    stored_leads_back,
};
use crate::search::indexer::{EngineStep, Indexer, RESULT_LIMIT, from_published, searched};
use crate::search::selection::{
    announced,
    answer_view,
    guarded,
    hit_texts,
    matched,
    publish_selected,
    rights_answer,
};
use crate::text::copy_text;

verus! {

/// The handles under which an indexer in memory keeps the fields.
pub open spec fn memory_fields() -> Fields {
    Fields { name: 0, artist: 1, song: 2, style: 3, tags: 4, path: 5 }
}

/// The views of `documents`, in order.
pub open spec fn document_views(documents: Seq<IndexDocument>) -> Seq<DocumentView> {
    Seq::new(documents.len(), |i: int| documents[i]@)
}

/// `documents` as an indexer in memory keeps them, in order.
pub open spec fn kept_in_memory(documents: Seq<DocumentView>) -> Seq<Stored> {
    Seq::new(documents.len(), |i: int| stored(documents[i], memory_fields()))
}

/// The hits of a search in memory: the paths of the first `RESULT_LIMIT`
/// published documents.
pub open spec fn memory_hits(published: Seq<DocumentView>) -> Seq<Option<Seq<char>>> {
    Seq::new(
        if published.len() <= RESULT_LIMIT {
            published.len()
        } else {
            RESULT_LIMIT as nat
        },
        |i: int| Some(published[i].path),
    )
}

/// No documents are kept as an empty bag.
pub proof fn nothing_kept()
    ensures
        kept_in_memory(Seq::<DocumentView>::empty()).to_multiset() == Multiset::<Stored>::empty(),
{
    let none = kept_in_memory(Seq::<DocumentView>::empty());
    assert(none =~= Seq::<Stored>::empty());
    none.to_multiset_ensures();
    vstd::multiset::lemma_multiset_empty_len(none.to_multiset());
}

/// An indexer in memory.
pub struct MemoryIndexer {
    published: Vec<IndexDocument>,
    queued: Vec<IndexDocument>,
}

impl MemoryIndexer {
    /// The published documents, in the order in which they were queued.
    pub closed spec fn kept(&self) -> Seq<DocumentView> {
        document_views(self.published@)
    }

    /// The documents that wait for the next commit, in the order in which
    /// they were queued.
    pub closed spec fn waiting(&self) -> Seq<DocumentView> {
        document_views(self.queued@)
    }
}

impl Indexer for MemoryIndexer {
    open spec fn well_formed(&self) -> bool {
        true
    }

    open spec fn fields(&self) -> Fields {
        memory_fields()
    }

    open spec fn published(&self) -> Bag {
        kept_in_memory(self.kept()).to_multiset()
    }

    open spec fn retained(&self) -> Bag {
        kept_in_memory(self.kept()).to_multiset()
    }

    open spec fn queued(&self) -> Bag {
        kept_in_memory(self.waiting()).to_multiset()
    }

    /// No step of an indexer in memory fails.
    open spec fn fails_with(step: EngineStep, error: Seq<char>) -> bool {
        false
    }

    /// An indexer that holds nothing. It never fails.
    fn initialize() -> (r: Result<Self, String>)
        ensures
            r is Ok,
            r->Ok_0.kept() == Seq::<DocumentView>::empty(),
            r->Ok_0.waiting() == Seq::<DocumentView>::empty(),
    {
        let r = MemoryIndexer { published: Vec::new(), queued: Vec::new() };
        proof {
            assert(r.kept() =~= Seq::<DocumentView>::empty());
            assert(r.waiting() =~= Seq::<DocumentView>::empty());
            nothing_kept();
        }
        Ok(r)
    }

    /// Forgets every document, published or waiting. It never fails.
    fn retrieve_writer(&mut self) -> (r: Result<(), String>)
        ensures
            r is Ok,
            final(self).kept() == Seq::<DocumentView>::empty(),
            final(self).waiting() == Seq::<DocumentView>::empty(),
    {
        self.published.clear();
        self.queued.clear();
        proof {
            assert(self.kept() =~= Seq::<DocumentView>::empty());
            assert(self.waiting() =~= Seq::<DocumentView>::empty());
            nothing_kept();
            assert(self.published().subset_of(old(self).queued()));
        }
        Ok(())
    }

    /// Queues the index document of `video` after those that wait. It never fails.
    fn index_video(&mut self, video: &Video) -> (r: Result<(), String>)
        ensures
            r is Ok,
            final(self).kept() == old(self).kept(),
            final(self).waiting() == old(self).waiting().push(document_of(video@)),
    {
        broadcast use group_to_multiset_ensures;

        let document = IndexDocument::from_video(video);
        self.queued.push(document);
        proof {
            let before = old(self).waiting();
            assert(self.waiting() =~= before.push(document_of(video@)));
            assert(kept_in_memory(self.waiting()) =~= kept_in_memory(before).push(
                stored(document_of(video@), memory_fields()),
            ));
        }
        Ok(())
    }

    /// Publishes the documents that wait, after those already published. It
    /// never fails.
    fn close(&mut self) -> (r: Result<(), String>)
        ensures
            r is Ok,
            final(self).kept() == old(self).kept() + old(self).waiting(),
            final(self).waiting() == Seq::<DocumentView>::empty(),
    {
        self.published.append(&mut self.queued);
        proof {
            let kept = old(self).kept();
            let waiting = old(self).waiting();
            assert(self.kept() =~= kept + waiting);
            assert(self.waiting() =~= Seq::<DocumentView>::empty());
            nothing_kept();
            assert(kept_in_memory(kept + waiting) =~= kept_in_memory(kept) + kept_in_memory(
                waiting,
            ));
            lemma_multiset_commutative(kept_in_memory(kept), kept_in_memory(waiting));
            assert(self.published() == old(self).retained().add(old(self).queued()));
        }
        Ok(())
    }

    /// The hits of an indexer in memory do not depend on the query: they are
    /// the paths of the first `RESULT_LIMIT` published documents.
    open spec fn finds(&self, query: Seq<char>, found: Seq<Option<Seq<char>>>) -> bool {
        found == memory_hits(self.kept())
    }

    /// Selects the videos that the first `RESULT_LIMIT` published documents
    /// lead back to, whatever the query. It fails only where the rights
    /// refuse a video.
    fn search<B: EventBus, R: CollectionRepository, F: Fn(&str) -> Result<(), String>>(
        &self,
        query_str: &str,
        bus_manager: &mut EventBusManager<B>,
        store: &R,
        apply_path_rights: Option<&F>,
    ) -> (r: Result<(), String>)
        ensures
            exists|k: int|
                {
                    &&& #[trigger] announced(
                        matched(memory_hits(self.kept()), all_videos(store.contents())),
                        k,
                        old(bus_manager).event_bus.published(),
                        final(bus_manager).event_bus.published(),
                    )
                    &&& guarded(
                        matched(memory_hits(self.kept()), all_videos(store.contents())),
                        |p: Seq<char>, a: Result<(), Seq<char>>|
                            rights_answer(apply_path_rights, p, a),
                        k,
                        answer_view(r),
                    )
                },
    {
        let hits = self.hits();
        let collections = store.list();
        let ghost found = memory_hits(self.kept());
        let ghost pool = all_videos(store.contents());
        let ghost before = bus_manager.event_bus.published();
        let r = publish_selected(&hits, &collections, bus_manager, apply_path_rights);
        proof {
            let answers = |p: Seq<char>, a: Result<(), Seq<char>>|
                rights_answer(apply_path_rights, p, a);
            let k = choose|k: int|
                {
                    &&& #[trigger] announced(
                        matched(found, pool),
                        k,
                        before,
                        bus_manager.event_bus.published(),
                    )
                    &&& guarded(matched(found, pool), answers, k, answer_view(r))
                };
            assert(found.take(found.len() as int) =~= found);
            self.hits_are_published();
            assert(searched(
                self.finds(query_str@, found),
                true,
                found.len() == 0,
                |e: Seq<char>| Self::fails_with(EngineStep::Search, e),
                matched(found, pool),
                answers,
                k,
                answer_view(r),
            ));
        }
        r
    }
}

impl MemoryIndexer {
    /// The hits of a search: the paths of the first `RESULT_LIMIT` published documents.
    fn hits(&self) -> (r: Vec<Option<String>>)
        ensures
            hit_texts(r@) == memory_hits(self.kept()),
    {
        let n = if self.published.len() <= RESULT_LIMIT {
            self.published.len()
        } else {
            RESULT_LIMIT
        };
        let mut hits: Vec<Option<String>> = Vec::new();
        let mut i: usize = 0;
        while i < n
            invariant
                i <= n <= self.published.len(),
                hits.len() == i,
                forall|j: int|
                    0 <= j < i ==> crate::text::optional_text(#[trigger] hits[j]) == Some(
                        self.published[j].path@,
                    ),
            decreases n - i,
        {
            hits.push(Some(copy_text(&self.published[i].path)));
            i += 1;
        }
        assert(hit_texts(hits@) =~= memory_hits(self.kept()));
        hits
    }

    /// Each hit of a search is the path kept with a published document.
    proof fn hits_are_published(&self)
        ensures
            memory_hits(self.kept()).len() <= RESULT_LIMIT,
            from_published(memory_hits(self.kept()), self.published(), self.fields()),
    {
        let wanted = memory_hits(self.kept());
        assert forall|j: int| 0 <= j < wanted.len() implies exists|document: Stored|
            self.published().contains(document) && join_key(document, self.fields())
                == #[trigger] wanted[j] by {
            let document = stored(self.kept()[j], memory_fields());
            assert(kept_in_memory(self.kept())[j] == document);
            assert(kept_in_memory(self.kept()).contains(document));
            kept_in_memory(self.kept()).to_multiset_ensures();
            assert(self.published().contains(document));
            stored_leads_back(self.kept()[j], memory_fields());
            assert(join_key(document, self.fields()) == wanted[j]);
        }
    }
}

} // verus!
