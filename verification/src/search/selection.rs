//! From the hits of the engine to the videos that a search selects: the join
//! with the store by path, the guard of path rights, and the events.

use vstd::prelude::*;
use crate::collections::model::{
    Collection,
    Video,
    VideoView,
    collection_views,
    find_by_path,
    path_place_is_first,
    position_by_path,
    video_views,
};
use crate::event_bus::{Event, EventBus, EventBusManager, EventView, video_selected};
use crate::search::document::all_videos;

verus! {

/// The view of the answer of a guard of path rights.
pub open spec fn answer_view(answer: Result<(), String>) -> Result<(), Seq<char>> {
    match answer {
        Ok(_) => Ok(()),
        Err(e) => Err(e@),
    }
}

/// Whether the guard `rights` may answer `answer` for `path`.
pub open spec fn guard_answers<F: Fn(&str) -> Result<(), String>>(
    rights: F,
    path: Seq<char>,
    answer: Result<(), Seq<char>>,
) -> bool {
    exists|p: &str, a: Result<(), String>|
        p@ == path && answer_view(a) == answer && call_ensures(rights, (p,), a)
}

/// Whether the optional guard `rights` may answer `answer` for `path`. Without
/// a guard every path is allowed.
pub open spec fn rights_answer<F: Fn(&str) -> Result<(), String>>(
    rights: Option<&F>,
    path: Seq<char>,
    answer: Result<(), Seq<char>>,
) -> bool {
    match rights {
        Some(guard) => guard_answers(*guard, path, answer),
        None => answer is Ok,
    }
}

/// The text of a hit.
pub open spec fn hit_text(hit: Option<&str>) -> Option<Seq<char>> {
    match hit {
        Some(path) => Some(path@),
        None => None,
    }
}

/// The video that the hit leads back to: the first video of `videos` that
/// lies at the path kept with the hit.
pub open spec fn hit_video(hit: Option<Seq<char>>, videos: Seq<VideoView>) -> Option<VideoView> {
    match hit {
        Some(path) => find_by_path(videos, path),
        None => None,
    }
}

/// The videos that `hits` lead back to, in the order of the hits. A hit that
/// leads to no video is passed over.
pub open spec fn matched(hits: Seq<Option<Seq<char>>>, videos: Seq<VideoView>) -> Seq<VideoView>
    decreases hits.len(),
{
    if hits.len() == 0 {
        Seq::empty()
    } else {
        match hit_video(hits.last(), videos) {
            Some(video) => matched(hits.drop_last(), videos).push(video),
            None => matched(hits.drop_last(), videos),
        }
    }
}

/// The events `video:selected` for `videos`, in order.
pub open spec fn selected_events(videos: Seq<VideoView>) -> Seq<EventView> {
    Seq::new(videos.len(), |i: int| video_selected(videos[i]))
}

/// The first `k` of `videos` were announced as selected, in order, and nothing else.
pub open spec fn announced(
    videos: Seq<VideoView>,
    k: int,
    events_before: Seq<EventView>,
    events_after: Seq<EventView>,
) -> bool {
    &&& 0 <= k <= videos.len()
    &&& events_after == events_before + selected_events(videos.take(k))
}

/// The guard allowed the first `k` of `videos`; then either there were no
/// more, and the selection succeeds, or the guard refused the next with the
/// error that the selection fails with.
pub open spec fn guarded(
    videos: Seq<VideoView>,
    answers: spec_fn(Seq<char>, Result<(), Seq<char>>) -> bool,
    k: int,
    result: Result<(), Seq<char>>,
) -> bool {
    &&& 0 <= k <= videos.len()
    &&& forall|j: int| 0 <= j < k ==> answers(#[trigger] videos[j].path, Ok(()))
    &&& match result {
        Ok(_) => k == videos.len(),
        Err(e) => k < videos.len() && answers(videos[k].path, Err(e)),
    }
}

/// A selection that the rights end has announced the videos before the one
/// they refused, and no other: as many events as videos were allowed, and
/// fewer than there were videos to select.
pub proof fn refusal_announces_nothing_more(
    videos: Seq<VideoView>,
    answers: spec_fn(Seq<char>, Result<(), Seq<char>>) -> bool,
    k: int,
    events_before: Seq<EventView>,
    events_after: Seq<EventView>,
    error: Seq<char>,
)
    requires
        announced(videos, k, events_before, events_after),
        guarded(videos, answers, k, Err(error)),
    ensures
        k < videos.len(),
        answers(videos[k].path, Err(error)),
        events_after.len() == events_before.len() + k,
        forall|j: int| 0 <= j < k ==> events_after[events_before.len() + j] == video_selected(videos[j]),
        forall|j: int| 0 <= j < events_before.len() ==> events_after[j] == events_before[j],
{
    assert forall|j: int| 0 <= j < k implies events_after[events_before.len() + j]
        == video_selected(videos[j]) by {
        assert(selected_events(videos.take(k))[j] == video_selected(videos.take(k)[j]));
    }
}

/// The texts of `hits`.
pub open spec fn hit_texts(hits: Seq<Option<String>>) -> Seq<Option<Seq<char>>> {
    Seq::new(hits.len(), |i: int| crate::text::optional_text(hits[i]))
}

/// The videos that the first hits lead back to come first among those that
/// all hits lead back to.
pub proof fn matched_grows(hits: Seq<Option<Seq<char>>>, videos: Seq<VideoView>, i: int)
    requires
        0 <= i <= hits.len(),
    ensures
        matched(hits.take(i), videos).len() <= matched(hits, videos).len(),
        matched(hits, videos).take(matched(hits.take(i), videos).len() as int) == matched(
            hits.take(i),
            videos,
        ),
    decreases hits.len() - i,
{
    if i == hits.len() {
        assert(hits.take(i) =~= hits);
        assert(matched(hits, videos).take(matched(hits, videos).len() as int) =~= matched(
            hits,
            videos,
        ));
    } else {
        matched_grows(hits, videos, i + 1);
        matched_step(hits, videos, i);
        let shorter = matched(hits.take(i), videos);
        let longer = matched(hits.take(i + 1), videos);
        assert(longer.take(shorter.len() as int) =~= shorter);
        assert(matched(hits, videos).take(shorter.len() as int) =~= matched(hits, videos).take(
            longer.len() as int,
        ).take(shorter.len() as int));
    }
}

/// One more hit adds the video it leads back to, if any.
pub proof fn matched_step(hits: Seq<Option<Seq<char>>>, videos: Seq<VideoView>, i: int)
    requires
        0 <= i < hits.len(),
    ensures
        matched(hits.take(i + 1), videos) == match hit_video(hits[i], videos) {
            Some(video) => matched(hits.take(i), videos).push(video),
            None => matched(hits.take(i), videos),
        },
{
    assert(hits.take(i + 1).drop_last() =~= hits.take(i));
    assert(hits.take(i + 1).last() == hits[i]);
}

/// What `select_hit` leaves behind for the hit `hit`: the events `middle`
/// become `after`, and the call ends with `answer`.
pub open spec fn hit_selected(
    hit: Option<Seq<char>>,
    videos: Seq<VideoView>,
    answers: spec_fn(Seq<char>, Result<(), Seq<char>>) -> bool,
    middle: Seq<EventView>,
    after: Seq<EventView>,
    answer: Result<(), Seq<char>>,
) -> bool {
    match hit_video(hit, videos) {
        None => answer is Ok && after == middle,
        Some(video) => {
            &&& answers(video.path, answer)
            &&& after == if answer is Ok {
                middle.push(video_selected(video))
            } else {
                middle
            }
        },
    }
}

/// A selection that went well over the hits `reached` goes on with `hit`:
/// where the hit is selected, the selection went well over one hit more;
/// where its video is refused, the selection over these hits ends there.
pub proof fn selection_goes_on(
    reached: Seq<Option<Seq<char>>>,
    hit: Option<Seq<char>>,
    videos: Seq<VideoView>,
    answers: spec_fn(Seq<char>, Result<(), Seq<char>>) -> bool,
    before: Seq<EventView>,
    middle: Seq<EventView>,
    after: Seq<EventView>,
    answer: Result<(), Seq<char>>,
)
    requires
        announced(
            matched(reached, videos),
            matched(reached, videos).len() as int,
            before,
            middle,
        ),
        guarded(matched(reached, videos), answers, matched(reached, videos).len() as int, Ok(())),
        hit_selected(hit, videos, answers, middle, after, answer),
    ensures
        answer is Ok ==> announced(
            matched(reached.push(hit), videos),
            matched(reached.push(hit), videos).len() as int,
            before,
            after,
        ),
        answer is Ok ==> guarded(
            matched(reached.push(hit), videos),
            answers,
            matched(reached.push(hit), videos).len() as int,
            Ok(()),
        ),
        answer is Err ==> announced(
            matched(reached.push(hit), videos),
            matched(reached, videos).len() as int,
            before,
            after,
        ),
        answer is Err ==> guarded(
            matched(reached.push(hit), videos),
            answers,
            matched(reached, videos).len() as int,
            answer,
        ),
{
    let done = matched(reached, videos);
    let next = matched(reached.push(hit), videos);
    assert(reached.push(hit).drop_last() =~= reached);
    assert(done.take(done.len() as int) =~= done);
    assert(next.take(next.len() as int) =~= next);
    match hit_video(hit, videos) {
        Some(video) => {
            assert(next == done.push(video));
            assert(next.take(done.len() as int) =~= done);
            assert forall|j: int| 0 <= j < done.len() implies answers(
                #[trigger] next[j].path,
                Ok(()),
            ) by {
                assert(next[j] == done[j]);
                assert(answers(done[j].path, Ok(())));
            }
            if answer is Ok {
                let unit = answer->Ok_0;
                assert(unit == ());
                assert(answer == Ok::<(), Seq<char>>(unit));
                assert(answer == Ok::<(), Seq<char>>(()));
                assert(next[done.len() as int] == video);
                assert forall|j: int| 0 <= j < next.len() implies answers(
                    #[trigger] next[j].path,
                    Ok(()),
                ) by {
                    if j < done.len() {
                        assert(next[j] == done[j]);
                    }
                }
                assert(selected_events(next) =~= selected_events(done).push(video_selected(video)));
                assert(after =~= before + selected_events(next));
            }
        },
        None => {
            assert(next == done);
        },
    }
}

/// A selection that ends at the hit `i` with a refusal has ended for all hits.
pub proof fn refusal_ends_selection(
    hits: Seq<Option<Seq<char>>>,
    i: int,
    videos: Seq<VideoView>,
    answers: spec_fn(Seq<char>, Result<(), Seq<char>>) -> bool,
    before: Seq<EventView>,
    after: Seq<EventView>,
    answer: Result<(), Seq<char>>,
)
    requires
        0 <= i < hits.len(),
        answer is Err,
        announced(
            matched(hits.take(i + 1), videos),
            matched(hits.take(i), videos).len() as int,
            before,
            after,
        ),
        guarded(
            matched(hits.take(i + 1), videos),
            answers,
            matched(hits.take(i), videos).len() as int,
            answer,
        ),
    ensures
        announced(matched(hits, videos), matched(hits.take(i), videos).len() as int, before, after),
        guarded(matched(hits, videos), answers, matched(hits.take(i), videos).len() as int, answer),
{
    let all = matched(hits, videos);
    let next = matched(hits.take(i + 1), videos);
    let k = matched(hits.take(i), videos).len() as int;
    matched_grows(hits, videos, i + 1);
    assert(all.take(next.len() as int) == next);
    assert(all[k] == next[k]);
    assert(all.take(k) =~= next.take(k));
    assert forall|j: int| 0 <= j < k implies answers(#[trigger] all[j].path, Ok(())) by {
        assert(all[j] == next[j]);
        assert(answers(next[j].path, Ok(())));
    }
}

/// The videos of `collections`, collection after collection.
pub fn flatten(collections: &Vec<Collection>) -> (r: Vec<Video>)
    ensures
        video_views(r@) == all_videos(collection_views(collections@)),
{
    let mut out: Vec<Video> = Vec::new();
    let mut i: usize = 0;
    assert(collection_views(collections@).take(0) =~= Seq::empty());
    assert(video_views(out@) =~= all_videos(collection_views(collections@).take(0)));
    while i < collections.len()
        invariant
            i <= collections.len(),
            video_views(out@) == all_videos(collection_views(collections@).take(i as int)),
        decreases collections.len() - i,
    {
        let ghost before = video_views(out@);
        let collection = &collections[i];
        let mut j: usize = 0;
        assert(video_views(collection.videos@).take(0) =~= Seq::empty());
        assert(video_views(out@) =~= before + video_views(collection.videos@).take(0));
        while j < collection.videos.len()
            invariant
                j <= collection.videos.len(),
                video_views(out@) == before + video_views(collection.videos@).take(j as int),
            decreases collection.videos.len() - j,
        {
            let ghost filled = out@;
            let copy = collection.videos[j].clone();
            out.push(copy);
            proof {
                let inner = video_views(collection.videos@);
                assert(video_views(out@) =~= video_views(filled).push(copy@));
                assert(inner.take(j + 1) =~= inner.take(j as int).push(inner[j as int]));
                assert(video_views(out@) =~= before + inner.take(j + 1));
            }
            j += 1;
        }
        proof {
            let views = collection_views(collections@);
            assert(video_views(collection.videos@).take(j as int) =~= views[i as int].videos);
            assert(views.take(i + 1).drop_last() =~= views.take(i as int));
            assert(views.take(i + 1).last() == views[i as int]);
        }
        i += 1;
    }
    assert(collection_views(collections@).take(collections.len() as int) =~= collection_views(
        collections@,
    ));
    out
}

/// Selects the video that one hit leads back to: asks the guard for its path
/// and, where the guard allows, announces the video as selected. A hit that
/// leads to no video of `videos` changes nothing.
pub fn select_hit<B: EventBus, F: Fn(&str) -> Result<(), String>>(
    hit: Option<&str>,
    videos: &Vec<Video>,
    bus_manager: &mut EventBusManager<B>,
    apply_path_rights: Option<&F>,
) -> (r: Result<(), String>)
    requires
        apply_path_rights matches Some(guard) ==> forall|p: &str| call_requires(*guard, (p,)),
    ensures
        hit_selected(
            hit_text(hit),
            video_views(videos@),
            |p: Seq<char>, a: Result<(), Seq<char>>| rights_answer(apply_path_rights, p, a),
            old(bus_manager).event_bus.published(),
            final(bus_manager).event_bus.published(),
            answer_view(r),
        ),
{
    let path = match hit {
        Some(path) => path,
        None => {
            return Ok(());
        },
    };
    let place = match position_by_path(videos, path) {
        Some(place) => place,
        None => {
            return Ok(());
        },
    };
    proof {
        path_place_is_first(video_views(videos@), path@, place as int);
    }
    let video = &videos[place];
    if let Some(guard) = apply_path_rights {
        let asked = video.path.as_str();
        let answer = guard(asked);
        assert(guard_answers(*guard, video@.path, answer_view(answer))) by {
            assert(call_ensures(*guard, (asked,), answer));
        }
        if let Err(e) = answer {
            return Err(e);
        }
    }
    bus_manager.event_bus.publish(Event::video_selected(video));
    Ok(())
}


/// Selects the videos that `hits` lead back to among the videos of
/// `collections`, in the order of the hits: each is put to the guard and,
/// where the guard allows, announced as selected. The first refusal ends the
/// selection with the error of the guard; nothing more is announced.
pub fn publish_selected<B: EventBus, F: Fn(&str) -> Result<(), String>>(
    hits: &Vec<Option<String>>,
    collections: &Vec<Collection>,
    bus_manager: &mut EventBusManager<B>,
    apply_path_rights: Option<&F>,
) -> (r: Result<(), String>)
    requires
        apply_path_rights matches Some(guard) ==> forall|p: &str| call_requires(*guard, (p,)),
    ensures
        exists|k: int|
            {
                &&& #[trigger] announced(
                    matched(hit_texts(hits@), all_videos(collection_views(collections@))),
                    k,
                    old(bus_manager).event_bus.published(),
                    final(bus_manager).event_bus.published(),
                )
                &&& guarded(
                    matched(hit_texts(hits@), all_videos(collection_views(collections@))),
                    |p: Seq<char>, a: Result<(), Seq<char>>| rights_answer(apply_path_rights, p, a),
                    k,
                    answer_view(r),
                )
            },
{
    let videos = flatten(collections);
    let ghost wanted = hit_texts(hits@);
    let ghost pool = video_views(videos@);
    let ghost before = bus_manager.event_bus.published();
    let ghost answers = |p: Seq<char>, a: Result<(), Seq<char>>|
        rights_answer(apply_path_rights, p, a);
    let mut i: usize = 0;
    proof {
        assert(wanted.take(0) =~= Seq::empty());
        assert(before + selected_events(Seq::<VideoView>::empty().take(0)) =~= before);
    }
    while i < hits.len()
        invariant
            i <= hits.len(),
            wanted == hit_texts(hits@),
            pool == video_views(videos@),
            pool == all_videos(collection_views(collections@)),
            before == old(bus_manager).event_bus.published(),
            answers == (|p: Seq<char>, a: Result<(), Seq<char>>|
                rights_answer(apply_path_rights, p, a)),
            apply_path_rights matches Some(guard) ==> forall|p: &str| call_requires(*guard, (p,)),
            announced(
                matched(wanted.take(i as int), pool),
                matched(wanted.take(i as int), pool).len() as int,
                before,
                bus_manager.event_bus.published(),
            ),
            guarded(
                matched(wanted.take(i as int), pool),
                answers,
                matched(wanted.take(i as int), pool).len() as int,
                Ok(()),
            ),
        decreases hits.len() - i,
    {
        let ghost reached = wanted.take(i as int);
        let ghost middle = bus_manager.event_bus.published();
        let hit = match &hits[i] {
            Some(path) => Some(path.as_str()),
            None => None,
        };
        proof {
            assert(hit_text(hit) == wanted[i as int]);
            assert(wanted.take(i + 1) =~= reached.push(hit_text(hit)));
        }
        let answer = select_hit(hit, &videos, bus_manager, apply_path_rights);
        proof {
            selection_goes_on(
                reached,
                hit_text(hit),
                pool,
                answers,
                before,
                middle,
                bus_manager.event_bus.published(),
                answer_view(answer),
            );
        }
        match answer {
            Ok(_) => {},
            Err(e) => {
                proof {
                    refusal_ends_selection(
                        wanted,
                        i as int,
                        pool,
                        answers,
                        before,
                        bus_manager.event_bus.published(),
                        Err(e@),
                    );
                }
                return Err(e);
            },
        }
        i += 1;
    }
    proof {
        assert(wanted.take(hits.len() as int) =~= wanted);
    }
    Ok(())
}

} // verus!
