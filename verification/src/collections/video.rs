//! Ingestion: from file paths to videos in a collection, one event for each.

use vstd::prelude::*;
use crate::collections::model::{Collection, CollectionView, Style, Video, VideoView};
use crate::event_bus::{Event, EventBus, EventBusManager, EventView, video_added};
use crate::text::copy_text;

verus! {

/// What the caller of an ingestion gets back for each video.
#[derive(Clone, Debug, PartialEq)]
pub struct ThumbnailItem {
    pub video_path: String,
    pub thumbnail: Option<String>,
    pub size_bytes: Option<u64>,
}

/// New metadata for the video at `path`.
#[derive(Clone, Debug, PartialEq)]
pub struct VideoToUpdate {
    pub path: String,
    pub name: String,
    pub artist: String,
    pub song: String,
    pub style: Vec<Style>,
    pub tags: Vec<String>,
    pub thumbnail: String,
    pub size_bytes: u64,
}

/// New metadata for one video of the collection `collection_id`.
#[derive(Clone, Debug, PartialEq)]
pub struct VideoCollectionToUpdate {
    pub collection_id: u128,
    pub video: VideoToUpdate,
}

/// The text of the error for an ingestion without paths.
pub open spec fn no_file_received() -> Seq<char> {
    "Aucun fichier reçu"@
}

/// What `create_video` answered, as contracts see it.
pub open spec fn creation_view(outcome: Result<Video, String>) -> Result<VideoView, Seq<char>> {
    match outcome {
        Ok(video) => Ok(video@),
        Err(e) => Err(e@),
    }
}

/// The events `video:added` for `created`, in order.
pub open spec fn added_events(collection_id: u128, created: Seq<VideoView>) -> Seq<EventView> {
    Seq::new(created.len(), |i: int| video_added(collection_id, created[i]))
}

/// The collection `before` once `created` were appended to it.
pub open spec fn ingested(before: CollectionView, created: Seq<VideoView>) -> CollectionView {
    CollectionView { videos: before.videos + created, ..before }
}

/// What an ingestion of `paths` leaves behind when `created` are the videos
/// it got before it ended with `result`: they were made from the first paths,
/// in order; where every path gave a video the ingestion succeeds, otherwise
/// it fails with the error of the first path that gave none.
pub open spec fn ingestion(
    creates: spec_fn(Seq<char>, Result<VideoView, Seq<char>>) -> bool,
    paths: Seq<Seq<char>>,
    created: Seq<VideoView>,
    result: Result<(), Seq<char>>,
) -> bool {
    &&& created.len() <= paths.len()
    &&& forall|i: int| 0 <= i < created.len() ==> #[trigger] creates(paths[i], Ok(created[i]))
    &&& match result {
        Ok(_) => created.len() == paths.len(),
        Err(e) => created.len() < paths.len() && creates(paths[created.len() as int], Err(e)),
    }
}

/// An ingestion that succeeds announces exactly one video for each path, in
/// the order of the paths: the video that was made from that path.
pub proof fn ingestion_announces_each_path(
    creates: spec_fn(Seq<char>, Result<VideoView, Seq<char>>) -> bool,
    paths: Seq<Seq<char>>,
    created: Seq<VideoView>,
    collection_id: u128,
)
    requires
        ingestion(creates, paths, created, Ok(())),
    ensures
        added_events(collection_id, created).len() == paths.len(),
        forall|i: int|
            0 <= i < paths.len() ==> {
                &&& #[trigger] added_events(collection_id, created)[i] == video_added(
                    collection_id,
                    created[i],
                )
                &&& creates(paths[i], Ok(created[i]))
            },
{
}

/// The view of the result of an ingestion.
pub open spec fn result_view(result: Result<(), String>) -> Result<(), Seq<char>> {
    match result {
        Ok(_) => Ok(()),
        Err(e) => Err(e@),
    }
}

/// Appends `video` to `collection` and announces it on the bus.
pub fn append_video<B: EventBus>(
    collection: &mut Collection,
    video: Video,
    bus_manager: &mut EventBusManager<B>,
)
    ensures
        final(collection)@ == ingested(old(collection)@, seq![video@]),
        final(bus_manager).event_bus.published() == old(bus_manager).event_bus.published().push(
            video_added(old(collection).id, video@),
        ),
{
    let event = Event::video_added(collection.id, &video);
    collection.add_video(video);
    bus_manager.event_bus.publish(event);
    assert(collection@.videos =~= old(collection)@.videos + seq![video@]);
}

/// The capability to turn a file path into a video record.
pub trait FileManager: Sized {
    /// Whether `create_video` may answer `outcome` for `path`. A manager
    /// that says nothing may answer anything.
    open spec fn creates(&self, path: Seq<char>, outcome: Result<VideoView, Seq<char>>) -> bool {
        true
    }

    /// The video record for the file at `path`.
    fn create_video(&self, path: &str) -> (r: Result<Video, String>)
        ensures
            self.creates(path@, creation_view(r)),
    ;

    /// Makes a video from each of `paths` in order, appends it to
    /// `collection` and announces it with one event `video:added`. Without
    /// paths nothing happens and the call fails. The first path that gives no
    /// video ends the call with its error; what was appended and announced
    /// before stays.
    fn add_files_from_paths_to_collection<B: EventBus>(
        &self,
        paths: Vec<String>,
        collection: &mut Collection,
        bus_manager: &mut EventBusManager<B>,
    ) -> (r: Result<(), String>)
        ensures
            paths.len() == 0 ==> r is Err && r->Err_0@ == no_file_received() && final(collection)@
                == old(collection)@ && final(bus_manager).event_bus.published() == old(
                bus_manager,
            ).event_bus.published(),
            paths.len() > 0 ==> exists|created: Seq<VideoView>|
                {
                    &&& ingestion(
                        |p: Seq<char>, o: Result<VideoView, Seq<char>>| self.creates(p, o),
                        crate::text::texts(paths@),
                        created,
                        result_view(r),
                    )
                    &&& final(collection)@ == ingested(old(collection)@, created)
                    &&& final(bus_manager).event_bus.published() == old(
                        bus_manager,
                    ).event_bus.published() + added_events(old(collection).id, created)
                },
    {
        if paths.len() == 0 {
            return Err("Aucun fichier reçu".to_owned());
        }
        let ghost wanted = crate::text::texts(paths@);
        let ghost mut created: Seq<VideoView> = Seq::empty();
        let mut i: usize = 0;
        assert(collection@.videos =~= old(collection)@.videos + created);
        assert(bus_manager.event_bus.published() =~= old(bus_manager).event_bus.published()
            + added_events(old(collection).id, created));
        while i < paths.len()
            invariant
                i <= paths.len(),
                wanted == crate::text::texts(paths@),
                created.len() == i,
                forall|j: int| 0 <= j < i ==> #[trigger] self.creates(wanted[j], Ok(created[j])),
                collection@ == ingested(old(collection)@, created),
                bus_manager.event_bus.published() == old(bus_manager).event_bus.published()
                    + added_events(old(collection).id, created),
            decreases paths.len() - i,
        {
            let ghost before = created;
            match self.create_video(paths[i].as_str()) {
                Ok(video) => {
                    proof {
                        created = created.push(video@);
                        assert(wanted[i as int] == paths[i as int]@);
                    }
                    append_video(collection, video, bus_manager);
                    proof {
                        assert(collection@.videos =~= old(collection)@.videos + created);
                        assert(added_events(old(collection).id, created) =~= added_events(
                            old(collection).id,
                            before,
                        ).push(video_added(old(collection).id, video@)));
                        assert(bus_manager.event_bus.published() =~= old(
                            bus_manager,
                        ).event_bus.published() + added_events(old(collection).id, created));
                    }
                },
                Err(e) => {
                    proof {
                        assert(wanted[i as int] == paths[i as int]@);
                        assert(ingestion(
                            |p: Seq<char>, o: Result<VideoView, Seq<char>>| self.creates(p, o),
                            wanted,
                            created,
                            Err(e@),
                        ));
                    }
                    return Err(e);
                },
            }
            i += 1;
        }
        proof {
            assert(ingestion(
                |p: Seq<char>, o: Result<VideoView, Seq<char>>| self.creates(p, o),
                wanted,
                created,
                Ok(()),
            ));
        }
        Ok(())
    }
}

/// A file manager without files behind it: every path gives a video without
/// thumbnail, of size 0.
pub struct FileManagerMemory {}

impl FileManager for FileManagerMemory {
    open spec fn creates(&self, path: Seq<char>, outcome: Result<VideoView, Seq<char>>) -> bool {
        &&& outcome is Ok
        &&& exists|file_name: Option<Seq<char>>|
            outcome->Ok_0 == #[trigger] crate::collections::model::fresh_video(
                path,
                file_name,
                Seq::empty(),
                0,
            )
    }

    fn create_video(&self, path: &str) -> (r: Result<Video, String>) {
        Ok(Video::new(path.to_owned(), String::new(), 0))
    }
}

/// Holds the file manager that the services create videos with.
pub struct VideoFileManager<F: FileManager> {
    pub file_manager: F,
}

impl<F: FileManager> VideoFileManager<F> {
    /// A holder of `file_manager`.
    pub fn new(file_manager: F) -> (r: Self)
        ensures
            r.file_manager == file_manager,
    {
        VideoFileManager { file_manager }
    }
}

/// What the caller gets back for each video of `collection`: its path, its
/// thumbnail and its size.
pub fn thumbnail_items(collection: &Collection) -> (r: Vec<ThumbnailItem>)
    ensures
        r.len() == collection.videos.len(),
        forall|i: int|
            0 <= i < r.len() ==> {
                &&& (#[trigger] r[i]).video_path@ == collection.videos[i].path@
                &&& crate::text::optional_text(r[i].thumbnail) == Some(collection.videos[i].thumbnail@)
                &&& r[i].size_bytes == Some(collection.videos[i].size_bytes)
            },
{
    let mut out: Vec<ThumbnailItem> = Vec::new();
    let mut i: usize = 0;
    while i < collection.videos.len()
        invariant
            i <= collection.videos.len(),
            out.len() == i,
            forall|j: int|
                0 <= j < i ==> {
                    &&& (#[trigger] out[j]).video_path@ == collection.videos[j].path@
                    &&& crate::text::optional_text(out[j].thumbnail) == Some(
                        collection.videos[j].thumbnail@,
                    )
                    &&& out[j].size_bytes == Some(collection.videos[j].size_bytes)
                },
        decreases collection.videos.len() - i,
    {
        let video = &collection.videos[i];
        out.push(
            ThumbnailItem {
                video_path: copy_text(&video.path),
                thumbnail: Some(copy_text(&video.thumbnail)),
                size_bytes: Some(video.size_bytes),
            },
        );
        i += 1;
    }
    out
}

} // verus!
