//! What an index engine has to offer: a writer that is cleared, filled and
//! committed, and a search over what was committed.

use vstd::prelude::*;
use vstd::multiset::Multiset;
use vstd::seq_lib::*;
use crate::collections::model::{CollectionView, Video, VideoView, distinct_paths, video_views};
use crate::collections::store::CollectionRepository;
use crate::event_bus::{EventBus, EventBusManager};
use crate::search::document::{
    Bag,
    Fields,
    Stored,
    all_videos,
    document_of,
    distinct_paths_keep_apart,
    index_mirrors_store,
    join_key,
    path_apart,
    settled_rebuild_is_exact,
    stored,
    stored_each,
    stored_leads_back,
    stored_videos,
};
use crate::event_bus::EventView;
use crate::search::selection::{
    announced,
    answer_view,
    flatten,
    guarded,
    matched,
    matched_grows,
    rights_answer,
    selected_events,
};

verus! {

/// The most hits that a search takes from the engine.
pub const RESULT_LIMIT: usize = 50;

/// Each of `hits` is the path kept with one of the documents of `published`.
pub open spec fn from_published(
    hits: Seq<Option<Seq<char>>>,
    published: Bag,
    fields: Fields,
) -> bool {
    forall|i: int|
        0 <= i < hits.len() ==> exists|document: Stored|
            published.contains(document) && join_key(document, fields) == #[trigger] hits[i]
}

/// After such a rebuild from a store whose videos lie at distinct paths,
/// each video has exactly one document among those that a reader observes,
/// and the documents of two videos differ in the path they lead back to.
pub proof fn rebuild_keeps_each_path_once(
    collections: Seq<CollectionView>,
    fields: Fields,
    waiting: Bag,
    published: Bag,
)
    requires
        path_apart(fields),
        waiting == Multiset::<Stored>::empty(),
        rebuilt(stored_videos(collections, fields), waiting, published),
        distinct_paths(all_videos(collections)),
    ensures
        forall|i: int|
            0 <= i < all_videos(collections).len() ==> published.count(
                #[trigger] stored(document_of(all_videos(collections)[i]), fields),
            ) == 1,
        forall|i: int, j: int|
            0 <= i < j < all_videos(collections).len() ==> join_key(
                #[trigger] stored(document_of(all_videos(collections)[i]), fields),
                fields,
            ) != join_key(
                #[trigger] stored(document_of(all_videos(collections)[j]), fields),
                fields,
            ),
{
    let videos = all_videos(collections);
    let kept = stored_videos(collections, fields);
    rebuild_mirrors_store(collections, fields, waiting, published);
    distinct_paths_keep_apart(videos, fields);
    assert(kept.no_duplicates()) by {
        assert forall|i: int, j: int| 0 <= i < kept.len() && 0 <= j < kept.len() && i != j implies kept[i]
            != kept[j] by {
            if i < j {
                assert(stored_each(videos, fields)[i] != stored_each(videos, fields)[j]);
            } else {
                assert(stored_each(videos, fields)[j] != stored_each(videos, fields)[i]);
            }
        }
    }
    kept.lemma_multiset_has_no_duplicates();
    assert forall|i: int| 0 <= i < videos.len() implies published.count(
        #[trigger] stored(document_of(videos[i]), fields),
    ) == 1 by {
        assert(kept[i] == stored(document_of(videos[i]), fields));
        assert(published.contains(kept[i]));
    }
    assert forall|i: int, j: int| 0 <= i < j < videos.len() implies join_key(
        #[trigger] stored(document_of(videos[i]), fields),
        fields,
    ) != join_key(#[trigger] stored(document_of(videos[j]), fields), fields) by {
        stored_leads_back(document_of(videos[i]), fields);
        stored_leads_back(document_of(videos[j]), fields);
    }
}

/// The steps in which an engine can fail.
#[derive(Clone, Copy, Debug, PartialEq, Eq)]
pub enum EngineStep {
    /// Setting the engine up (`initialize`).
    Initialize,
    /// Clearing the index (`retrieve_writer`).
    Clear,
    /// Queueing a document (`index_video`).
    Add,
    /// Committing (`close`).
    Commit,
    /// What a search asks of the engine: a reader, the reading of the
    /// query, the ranking, and the documents of the hits.
    Search,
}

/// A rebuild fails with an error of one of its steps: of the clearing, of
/// the queueing of a document, or of the commit.
pub open spec fn rebuild_fails(
    fails: spec_fn(EngineStep, Seq<char>) -> bool,
    error: Seq<char>,
) -> bool {
    fails(EngineStep::Clear, error) || fails(EngineStep::Add, error) || fails(
        EngineStep::Commit,
        error,
    )
}

/// What a rebuild that was handed `kept` leaves published: `kept`, and with
/// it at most what still waited in the writer when the rebuild began. A
/// writer in which nothing waited publishes exactly `kept`.
pub open spec fn rebuilt(kept: Seq<Stored>, waiting: Bag, published: Bag) -> bool {
    exists|leftover: Bag| #[trigger]
        leftover.subset_of(waiting) && published == leftover.add(kept.to_multiset())
}

/// After a rebuild from the store that succeeded on an indexer in which
/// nothing waited, a reader observes as many documents as the store holds
/// videos: one for each video, which leads back to the path of that video,
/// and no other.
pub proof fn rebuild_mirrors_store(
    collections: Seq<CollectionView>,
    fields: Fields,
    waiting: Bag,
    published: Bag,
)
    requires
        path_apart(fields),
        waiting == Multiset::<Stored>::empty(),
        rebuilt(stored_videos(collections, fields), waiting, published),
    ensures
        published == stored_videos(collections, fields).to_multiset(),
        published.len() == all_videos(collections).len(),
        forall|i: int|
            0 <= i < all_videos(collections).len() ==> {
                &&& published.contains(
                    #[trigger] stored(document_of(all_videos(collections)[i]), fields),
                )
                &&& join_key(stored(document_of(all_videos(collections)[i]), fields), fields)
                    == Some(all_videos(collections)[i].path)
            },
        forall|document: Stored| #[trigger]
            published.contains(document) ==> exists|i: int|
                0 <= i < all_videos(collections).len() && document == stored(
                    document_of(all_videos(collections)[i]),
                    fields,
                ),
{
    settled_rebuild_is_exact(stored_videos(collections, fields), waiting, published);
    index_mirrors_store(collections, fields);
}

/// An index engine: documents are queued in its writer, a commit publishes
/// them, and a search ranks what is published.
pub trait Indexer: Sized {
    /// The engine is in working order. An engine that says nothing of
    /// itself is taken to be; of its fields and documents nothing is known.
    open spec fn well_formed(&self) -> bool {
        true
    }

    /// The handles of the fields under which documents are kept.
    open spec fn fields(&self) -> Fields {
        arbitrary()
    }

    /// The documents that a reader loaded now observes.
    open spec fn published(&self) -> Bag {
        arbitrary()
    }

    /// The published documents that the next commit keeps.
    open spec fn retained(&self) -> Bag {
        arbitrary()
    }

    /// The documents that wait for the next commit.
    open spec fn queued(&self) -> Bag {
        arbitrary()
    }

    /// An engine with its schema, its tokenizer and its writer, in which
    /// nothing waits. It fails only with an error of the engine.
    fn initialize() -> (r: Result<Self, String>)
        ensures
            r matches Ok(indexer) ==> {
                &&& indexer.well_formed()
                &&& path_apart(indexer.fields())
                &&& indexer.queued() == Multiset::<Stored>::empty()
                &&& indexer.retained() == indexer.published()
            },
            r matches Err(e) ==> Self::fails_with(EngineStep::Initialize, e@),
    ;

    /// Clears the index for a rebuild: deletes every document and commits.
    fn retrieve_writer(&mut self) -> (r: Result<(), String>)
        requires
            old(self).well_formed(),
        ensures
            final(self).well_formed(),
            final(self).fields() == old(self).fields(),
            r is Ok ==> {
                &&& final(self).queued() == Multiset::<Stored>::empty()
                &&& final(self).retained() == final(self).published()
                &&& final(self).published().subset_of(old(self).queued())
            },
            r matches Err(e) ==> Self::fails_with(EngineStep::Clear, e@),
    ;

    /// Queues the index document of `video`.
    fn index_video(&mut self, video: &Video) -> (r: Result<(), String>)
        requires
            old(self).well_formed(),
        ensures
            final(self).well_formed(),
            final(self).fields() == old(self).fields(),
            final(self).published() == old(self).published(),
            final(self).retained() == old(self).retained(),
            r is Ok ==> final(self).queued() == old(self).queued().insert(
                stored(document_of(video@), old(self).fields()),
            ),
            r matches Err(e) ==> Self::fails_with(EngineStep::Add, e@),
    ;

    /// Commits: publishes what was retained and what waited.
    fn close(&mut self) -> (r: Result<(), String>)
        requires
            old(self).well_formed(),
        ensures
            final(self).well_formed(),
            final(self).fields() == old(self).fields(),
            r is Ok ==> {
                &&& final(self).published() == old(self).retained().add(old(self).queued())
                &&& final(self).retained() == final(self).published()
                &&& final(self).queued() == Multiset::<Stored>::empty()
            },
            r matches Err(e) ==> Self::fails_with(EngineStep::Commit, e@),
    ;

    /// Rebuilds the index from the store: clears it, queues the document of
    /// every video of every collection, and commits. The first step in which
    /// the engine fails ends the rebuild with the error of that step; on an
    /// engine that does not fail, the rebuild succeeds. After a rebuild that
    /// succeeds the index mirrors the store (see `rebuild_mirrors_store`).
    fn index_all_videos<R: CollectionRepository>(&mut self, store: &R) -> (r: Result<(), String>)
        requires
            old(self).well_formed(),
        ensures
            final(self).well_formed(),
            final(self).fields() == old(self).fields(),
            r is Ok ==> {
                &&& rebuilt(
                    stored_videos(store.contents(), old(self).fields()),
                    old(self).queued(),
                    final(self).published(),
                )
                &&& final(self).retained() == final(self).published()
                &&& final(self).queued() == Multiset::<Stored>::empty()
            },
            r matches Err(e) ==> rebuild_fails(|step: EngineStep, e: Seq<char>| Self::fails_with(step, e), e@),
    {
        broadcast use group_to_multiset_ensures;

        let ghost fields = self.fields();
        match self.retrieve_writer() {
            Ok(_) => {},
            Err(e) => {
                return Err(e);
            },
        }
        let ghost leftover = self.published();
        let collections = store.list();
        let videos = flatten(&collections);
        let ghost pool = video_views(videos@);
        let mut i: usize = 0;
        proof {
            assert(stored_each(pool.take(0), fields) =~= Seq::<Stored>::empty());
            assert(self.queued() =~= stored_each(pool.take(0), fields).to_multiset());
        }
        while i < videos.len()
            invariant
                i <= videos.len(),
                pool == video_views(videos@),
                fields == old(self).fields(),
                self.well_formed(),
                self.fields() == fields,
                self.published() == leftover,
                self.retained() == leftover,
                self.queued() == stored_each(pool.take(i as int), fields).to_multiset(),
            decreases videos.len() - i,
        {
            let ghost waiting = self.queued();
            match self.index_video(&videos[i]) {
                Ok(_) => {},
                Err(e) => {
                    return Err(e);
                },
            }
            proof {
                let done = stored_each(pool.take(i as int), fields);
                let next = stored_each(pool.take(i + 1), fields);
                let added = stored(document_of(pool[i as int]), fields);
                assert(videos[i as int]@ == pool[i as int]);
                assert(next =~= done.push(added));
                done.to_multiset_ensures();
                assert(next.to_multiset() =~= done.to_multiset().insert(added));
                assert(self.queued() == waiting.insert(added));
            }
            i += 1;
        }
        proof {
            assert(pool.take(videos.len() as int) =~= pool);
        }
        match self.close() {
            Ok(_) => {
                proof {
                    let kept = stored_videos(store.contents(), fields);
                    assert(self.published() == leftover.add(kept.to_multiset()));
                    assert(leftover.subset_of(old(self).queued()));
                }
                Ok(())
            },
            Err(e) => Err(e),
        }
    }

    /// Searches the published documents for `query_str` and selects the
    /// videos of the store that the hits lead back to, best hit first: each
    /// is put to the guard and, where the guard allows, announced as selected.
    ///
    /// The engine decides which documents are hits (see `finds`); at most
    /// `RESULT_LIMIT` are taken, and they are read one after the other. A
    /// hit that leads to no video of the store is passed over. The search
    /// succeeds where every hit was read and every video allowed. The first
    /// refusal of the guard ends it with the error of the guard; a failure
    /// of the engine, before it has ranked or while a hit is read, ends it
    /// with an error of the engine (see `fails_with`). Nothing more is
    /// announced then.
    fn search<B: EventBus, R: CollectionRepository, F: Fn(&str) -> Result<(), String>>(
        &self,
        query_str: &str,
        bus_manager: &mut EventBusManager<B>,
        store: &R,
        apply_path_rights: Option<&F>,
    ) -> (r: Result<(), String>)
        requires
            self.well_formed(),
            apply_path_rights matches Some(guard) ==> forall|p: &str| call_requires(*guard, (p,)),
        ensures
            exists|found: Seq<Option<Seq<char>>>, n: int, k: int|
                {
                    &&& 0 <= n <= found.len() <= RESULT_LIMIT
                    &&& from_published(found.take(n), self.published(), self.fields())
                    &&& #[trigger] announced(
                        matched(found.take(n), all_videos(store.contents())),
                        k,
                        old(bus_manager).event_bus.published(),
                        final(bus_manager).event_bus.published(),
                    )
                    &&& searched(
                        self.finds(query_str@, found),
                        n == found.len(),
                        n == 0,
                        |e: Seq<char>| Self::fails_with(EngineStep::Search, e),
                        matched(found.take(n), all_videos(store.contents())),
                        |p: Seq<char>, a: Result<(), Seq<char>>|
                            rights_answer(apply_path_rights, p, a),
                        k,
                        answer_view(r),
                    )
                },
    ;

    /// Whether the engine may answer a search for `query` with the hits
    /// `found`: the paths kept with the documents that it ranks, best first.
    /// An engine that says nothing may answer with any hits.
    open spec fn finds(&self, query: Seq<char>, found: Seq<Option<Seq<char>>>) -> bool {
        true
    }

    /// Whether the step `step` of an engine of this kind may fail with
    /// `error`: each step fails only with such an error. An engine that says
    /// nothing may fail with any error.
    open spec fn fails_with(step: EngineStep, error: Seq<char>) -> bool {
        true
    }
}

/// How a search ends that has read the first hits of the engine, which led
/// back to `videos`, and has allowed the first `k` of these.
///
/// Either the engine has answered its hits (`ranked`) and the selection
/// ended as selections do (see `guarded`): with success only where every hit
/// was read (`complete`), or with the refusal of the guard. Or the engine
/// failed, before it answered and before any hit was read (`none_read`) or
/// while a hit was read: then every video reached so far was allowed, and the
/// search fails with an error of the engine.
pub open spec fn searched(
    ranked: bool,
    complete: bool,
    none_read: bool,
    fails: spec_fn(Seq<char>) -> bool,
    videos: Seq<VideoView>,
    answers: spec_fn(Seq<char>, Result<(), Seq<char>>) -> bool,
    k: int,
    result: Result<(), Seq<char>>,
) -> bool {
    ||| ranked && (result is Ok ==> complete) && guarded(videos, answers, k, result)
    ||| result is Err && fails(result->Err_0) && (ranked || none_read) && guarded(
        videos,
        answers,
        k,
        Ok(()),
    )
}

/// A search fails closed. Let the engine answer the hits `found` and let
/// the search not end with an error of the engine; let the hits lead back
/// to the videos `matched(found, videos)`, and let the guard allow each
/// video before the one at place `refused` and refuse that one, with
/// `error` and nothing else. Then the search, however far it has read (`n`)
/// and whatever it has allowed (`k`), has ended with that error, and has
/// announced the videos before the refused one, in order, and no other.
pub proof fn search_fails_closed(
    found: Seq<Option<Seq<char>>>,
    n: int,
    k: int,
    refused: int,
    error: Seq<char>,
    fails: spec_fn(Seq<char>) -> bool,
    videos: Seq<VideoView>,
    answers: spec_fn(Seq<char>, Result<(), Seq<char>>) -> bool,
    events_before: Seq<EventView>,
    events_after: Seq<EventView>,
    result: Result<(), Seq<char>>,
)
    requires
        0 <= n <= found.len(),
        announced(matched(found.take(n), videos), k, events_before, events_after),
        searched(
            true,
            n == found.len(),
            n == 0,
            fails,
            matched(found.take(n), videos),
            answers,
            k,
            result,
        ),
        result is Err ==> !fails(result->Err_0),
        0 <= refused < matched(found, videos).len(),
        forall|j: int|
            0 <= j < refused && answers(#[trigger] matched(found, videos)[j].path, result)
                ==> result is Ok,
        !answers(matched(found, videos)[refused].path, Ok(())),
        answers(matched(found, videos)[refused].path, result) ==> result == Err::<(), Seq<char>>(
            error,
        ),
    ensures
        result == Err::<(), Seq<char>>(error),
        k == refused,
        events_after == events_before + selected_events(matched(found, videos).take(refused)),
        events_after.len() == events_before.len() + refused,
{
    let all = matched(found, videos);
    let read = matched(found.take(n), videos);
    matched_grows(found, videos, n);
    assert(all.take(read.len() as int) == read);
    assert(guarded(read, answers, k, result));
    assert forall|j: int| 0 <= j < read.len() implies read[j] == all[j] by {
        assert(all.take(read.len() as int)[j] == all[j]);
    }
    if result is Ok {
        assert(found.take(n) =~= found);
        assert(answers(read[refused].path, Ok(())));
    } else {
        if k < refused {
            assert(answers(all[k].path, result));
        }
        if k > refused {
            assert(answers(read[refused].path, Ok(())));
        }
        assert(answers(all[refused].path, result));
        assert(read.take(k) =~= all.take(refused));
    }
}

} // verus!
