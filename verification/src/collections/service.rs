//! The services on collections: creating one from file paths, and giving a
//! video new metadata.

use vstd::prelude::*;
use crate::clock::{Clock, DatePattern, Timestamp, pattern_text, utc_text};
use crate::collections::model::{
    Collection,
    CollectionView,
    Video,
    VideoView,
    path_place,
    has_path,
    path_place_is_first,
    position_by_path,
    video_views,
};
use crate::collections::store::{CollectionRepository, find_by_id, holds};
use crate::collections::video::{
    FileManager,
    VideoCollectionToUpdate,
    VideoFileManager,
    VideoToUpdate,
    added_events,
    ingestion,
    no_file_received,
};
use crate::event_bus::{Event, EventBus, EventBusManager, EventView, collection_created};
use crate::text::{copy_text, texts};
use vstd::string::StringExecFns;

verus! {

/// Whether `id` has the shape of a random (version 4) UUID: the version
/// digit is 4 and the variant bits are `10`.
pub open spec fn is_random_id(id: u128) -> bool {
    id & 0xF000_C000_0000_0000_0000 == 0x4000_8000_0000_0000_0000
}

/// `uuid::Uuid::new_v4`, read as a number with `Uuid::as_u128`: a random
/// identifier. Every outcome carries the version and variant bits of a
/// version 4 UUID; nothing else is known of it.
#[verifier::external_body]
pub(crate) fn fresh_id() -> (r: u128)
    ensures
        is_random_id(r),
{
    uuid::Uuid::new_v4().as_u128()
}

/// The title that a collection created on the day written `day` gets.
pub open spec fn default_title(day: Seq<char>) -> Seq<char> {
    "Collection - "@ + day
}

/// The title that a collection created on the day written `day` gets.
pub fn collection_title(day: &str) -> (r: String)
    ensures
        r@ == default_title(day@),
{
    let mut title = "Collection - ".to_owned();
    title.append(day);
    title
}

/// The new metadata as a video.
pub open spec fn update_view(update: VideoToUpdate) -> VideoView {
    VideoView {
        path: update.path@,
        name: update.name@,
        artist: update.artist@,
        song: update.song@,
        style: update.style@,
        tags: texts(update.tags@),
        thumbnail: update.thumbnail@,
        size_bytes: update.size_bytes,
    }
}

/// `videos` once the first video that lies at the path of `update` took its
/// metadata; `videos` itself where none lies there.
pub open spec fn with_update(videos: Seq<VideoView>, update: VideoView) -> Seq<VideoView> {
    if has_path(videos, update.path) {
        videos.update(path_place(videos, update.path), update)
    } else {
        videos
    }
}

/// The title of a collection created at the reading `now`.
pub open spec fn title_at(now: Timestamp) -> Seq<char> {
    default_title(utc_text(now@, pattern_text(DatePattern::Day))->Some_0)
}

/// What creating a collection announces, when `id` is the identifier it
/// drew, `now` the reading of the clock and `created` the videos it got: the
/// collection first, under its title and without videos; then each video, in
/// order.
pub open spec fn announcement(
    id: u128,
    now: Timestamp,
    created: Seq<VideoView>,
    events_before: Seq<EventView>,
    events_after: Seq<EventView>,
) -> bool {
    &&& is_random_id(id)
    &&& events_after == events_before.push(collection_created(id, title_at(now))) + added_events(
        id,
        created,
    )
}

/// What creating a collection from `paths` gives back and leaves in the
/// store. Where every path gave a video, the collection holds them and was
/// handed to the store. Otherwise the call fails with the error of the
/// ingestion and the store is as before.
pub open spec fn creation(
    creates: spec_fn(Seq<char>, Result<VideoView, Seq<char>>) -> bool,
    stores: spec_fn(Seq<CollectionView>, CollectionView, Seq<CollectionView>) -> bool,
    paths: Seq<Seq<char>>,
    id: u128,
    now: Timestamp,
    created: Seq<VideoView>,
    store_before: Seq<CollectionView>,
    store_after: Seq<CollectionView>,
    result: Result<CollectionView, Seq<char>>,
) -> bool {
    match result {
        Ok(collection) => {
            &&& paths.len() > 0
            &&& ingestion(creates, paths, created, Ok(()))
            &&& collection == CollectionView { id, title: title_at(now), videos: created }
            &&& stores(store_before, collection, store_after)
        },
        Err(e) => {
            &&& store_after == store_before
            &&& if paths.len() == 0 {
                created.len() == 0 && e == no_file_received()
            } else {
                ingestion(creates, paths, created, Err(e))
            }
        },
    }
}

/// The view of the result of creating a collection.
pub open spec fn created_view(result: Result<Collection, String>) -> Result<
    CollectionView,
    Seq<char>,
> {
    match result {
        Ok(collection) => Ok(collection@),
        Err(e) => Err(e@),
    }
}

/// The services on collections.
pub struct CollectionService {}

impl CollectionService {
    /// Gives the video of the collection `video_to_update.collection_id` that
    /// lies at the path of the update its new metadata, and hands the
    /// collection back to the store. A collection without a video at that
    /// path is handed back unchanged. Says whether the store holds the
    /// collection; where it does not, nothing happens.
    pub fn update_video<B: EventBus, R: CollectionRepository>(
        video_to_update: VideoCollectionToUpdate,
        _bus_manager: &EventBusManager<B>,
        store: &mut R,
    ) -> (found: bool)
        ensures
            found == holds(old(store).contents(), video_to_update.collection_id),
            !found ==> final(store).contents() == old(store).contents(),
            found ==> R::stores(
                old(store).contents(),
                CollectionView {
                    videos: with_update(
                        find_by_id(
                            old(store).contents(),
                            video_to_update.collection_id,
                        )->Some_0.videos,
                        update_view(video_to_update.video),
                    ),
                    ..find_by_id(old(store).contents(), video_to_update.collection_id)->Some_0
                },
                final(store).contents(),
            ),
    {
        let found = store.get_by_id(&video_to_update.collection_id);
        let mut collection = match found {
            Some(collection) => collection,
            None => {
                return false;
            },
        };
        let ghost before = collection@;
        let update = video_to_update.video;
        match position_by_path(&collection.videos, update.path.as_str()) {
            Some(i) => {
                proof {
                    path_place_is_first(before.videos, update.path@, i as int);
                }
                let video = Video {
                    path: copy_text(&collection.videos[i].path),
                    name: update.name,
                    artist: update.artist,
                    song: update.song,
                    style: update.style,
                    tags: update.tags,
                    thumbnail: update.thumbnail,
                    size_bytes: update.size_bytes,
                };
                assert(video@ == update_view(update));
                collection.videos.set(i, video);
                assert(video_views(collection.videos@) =~= with_update(
                    before.videos,
                    update_view(update),
                ));
            },
            None => {},
        }
        store.add(collection);
        true
    }

    /// Creates a collection titled after the day the clock reads, announces
    /// it, fills it with a video for each of `videos_paths` and hands it to
    /// the store.
    pub fn create_collection<F: FileManager, B: EventBus, R: CollectionRepository, C: Clock>(
        videos_paths: Vec<String>,
        video_file_manager: &VideoFileManager<F>,
        bus_manager: &mut EventBusManager<B>,
        store: &mut R,
        clock: &C,
    ) -> (r: Result<Collection, String>)
        ensures
            exists|id: u128, now: Timestamp, created: Seq<VideoView>|
                {
                    &&& clock.reads(now)
                    &&& #[trigger] announcement(
                        id,
                        now,
                        created,
                        old(bus_manager).event_bus.published(),
                        final(bus_manager).event_bus.published(),
                    )
                    &&& creation(
                        |p: Seq<char>, o: Result<VideoView, Seq<char>>|
                            video_file_manager.file_manager.creates(p, o),
                        |b: Seq<CollectionView>, c: CollectionView, a: Seq<CollectionView>|
                            R::stores(b, c, a),
                        texts(videos_paths@),
                        id,
                        now,
                        created,
                        old(store).contents(),
                        final(store).contents(),
                        created_view(r),
                    )
                },
    {
        let id = fresh_id();
        let now = clock.now();
        let day = now.format(DatePattern::Day);
        let title = collection_title(day.as_str());
        let mut collection = Collection::new(id, title.as_str());
        bus_manager.event_bus.publish(Event::collection_created(id, &title));
        let ghost announced = bus_manager.event_bus.published();
        let ghost paths = texts(videos_paths@);
        let ghost creates = |p: Seq<char>, o: Result<VideoView, Seq<char>>|
            video_file_manager.file_manager.creates(p, o);
        let ghost stores = |b: Seq<CollectionView>, c: CollectionView, a: Seq<CollectionView>|
            R::stores(b, c, a);
        let ingested = video_file_manager.file_manager.add_files_from_paths_to_collection(
            videos_paths,
            &mut collection,
            bus_manager,
        );
        let ghost created: Seq<VideoView> = if paths.len() == 0 {
            Seq::empty()
        } else {
            choose|created: Seq<VideoView>|
                {
                    &&& ingestion(
                        |p: Seq<char>, o: Result<VideoView, Seq<char>>|
                            video_file_manager.file_manager.creates(p, o),
                        paths,
                        created,
                        crate::collections::video::result_view(ingested),
                    )
                    &&& collection@ == crate::collections::video::ingested(
                        (CollectionView { id, title: title@, videos: Seq::empty() }),
                        created,
                    )
                    &&& bus_manager.event_bus.published() == announced + added_events(id, created)
                }
        };
        proof {
            assert(announced + added_events(id, created) =~= bus_manager.event_bus.published());
            assert(Seq::<VideoView>::empty() + created =~= created);
            assert(collection@.videos =~= created);
        }
        proof {
            assert(announcement(
                id,
                now,
                created,
                old(bus_manager).event_bus.published(),
                bus_manager.event_bus.published(),
            ));
        }
        match ingested {
            Ok(_) => {
                let stored = collection.clone();
                store.add(stored);
                proof {
                    assert(creation(
                        creates,
                        stores,
                        paths,
                        id,
                        now,
                        created,
                        old(store).contents(),
                        store.contents(),
                        Ok(collection@),
                    ));
                }
                Ok(collection)
            },
            Err(e) => {
                proof {
                    assert(creation(
                        creates,
                        stores,
                        paths,
                        id,
                        now,
                        created,
                        old(store).contents(),
                        store.contents(),
                        Err(e@),
                    ));
                }
                Err(e)
            },
        }
    }
}

} // verus!
