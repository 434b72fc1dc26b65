use chrono::{TimeZone, Utc};
use video_library::clock::{StaticClock, Timestamp};
use video_library::collections::model::{Collection, Style, Video};
use video_library::collections::service::CollectionService;
use video_library::collections::store::{CollectionRepository, CollectionRepositoryMemory};
use video_library::collections::video::{
    FileManager, VideoCollectionToUpdate, VideoFileManager, VideoToUpdate,
};
use video_library::event_bus::{
    CollectionCreated, EventBusManager, EventData, MemoryEventBus, VideoAddedToCollection,
};

struct FileManagerMemory;

impl FileManager for FileManagerMemory {
    fn create_video(&self, path: &str) -> Result<Video, String> {
        Ok(Video::new(path.to_string(), "".to_string(), 0))
    }
}

fn setup() -> (
    VideoFileManager<FileManagerMemory>,
    EventBusManager<MemoryEventBus>,
    StaticClock,
    CollectionRepositoryMemory,
) {
    let now = Utc.with_ymd_and_hms(2026, 1, 28, 12, 0, 0).unwrap();
    let clock = StaticClock::new(Timestamp::new(now.timestamp()).unwrap());
    (
        VideoFileManager::new(FileManagerMemory),
        EventBusManager::new(MemoryEventBus::new()),
        clock,
        CollectionRepositoryMemory::new(),
    )
}

#[test]
fn create_collection() {
    let (video_file_manager, mut bus, clock, mut store) = setup();

    let collection = CollectionService::create_collection(
        vec!["foo/video.mp4".to_string()],
        &video_file_manager,
        &mut bus,
        &mut store,
        &clock,
    )
    .unwrap();

    assert_eq!(store.list().len(), 1);
    assert_eq!(
        store.get_by_id(&collection.id),
        Some(Collection {
            id: collection.id,
            title: "Collection - 2026-01-28".to_string(),
            videos: vec![Video {
                path: "foo/video.mp4".to_string(),
                name: "video.mp4".to_string(),
                artist: "".to_string(),
                song: "".to_string(),
                style: vec![],
                tags: vec![],
                thumbnail: "".to_string(),
                size_bytes: 0
            }]
        })
    );
}

#[test]
fn collection_service_publish_collection_created() {
    let (video_file_manager, mut bus, clock, mut store) = setup();

    let collection = CollectionService::create_collection(
        vec!["foo/video.mp4".to_string()],
        &video_file_manager,
        &mut bus,
        &mut store,
        &clock,
    )
    .unwrap();

    let events = &bus.event_bus.events;
    assert_eq!(events.len(), 2);
    assert_eq!(events[0].event_type, "collection:created");
    assert_eq!(
        events[0].data,
        EventData::CollectionCreated(CollectionCreated {
            collection_id: collection.id,
            title: "Collection - 2026-01-28".to_string(),
            videos: vec![],
        })
    );
}

#[test]
fn collection_service_publish_video_added_to_collection() {
    let (video_file_manager, mut bus, clock, mut store) = setup();

    let collection = CollectionService::create_collection(
        vec!["foo/video.mp4".to_string()],
        &video_file_manager,
        &mut bus,
        &mut store,
        &clock,
    )
    .unwrap();

    let events = &bus.event_bus.events;
    assert_eq!(events.len(), 2);
    assert_eq!(events[1].event_type, "video:added");
    assert_eq!(
        events[1].data,
        EventData::VideoAdded(VideoAddedToCollection {
            collection_id: collection.id,
            path: "foo/video.mp4".to_string(),
            name: "video.mp4".to_string(),
            artist: "".to_string(),
            song: "".to_string(),
            style: vec![],
            tags: vec![],
            thumbnail: "".to_string(),
            size_bytes: 0,
        })
    );
}

#[test]
fn update_video() {
    let (video_file_manager, mut bus, clock, mut store) = setup();
    let collection = CollectionService::create_collection(
        vec!["foo/video.mp4".to_string()],
        &video_file_manager,
        &mut bus,
        &mut store,
        &clock,
    )
    .unwrap();
    let video = collection.videos[0].clone();

    CollectionService::update_video(
        VideoCollectionToUpdate {
            collection_id: collection.id,
            video: VideoToUpdate {
                path: video.path.clone(),
                name: "Rest my chemistry - Intro".to_string(),
                artist: "Interpol".to_string(),
                song: "Rest my chemistry".to_string(),
                style: vec![Style::Rock],
                tags: vec!["alternative".to_string(), "rhythmic".to_string()],
                thumbnail: video.thumbnail.clone(),
                size_bytes: video.size_bytes,
            },
        },
        &bus,
        &mut store,
    );

    let retrieved_collection = store.get_by_id(&collection.id).unwrap();
    assert_eq!(
        retrieved_collection.videos[0],
        Video {
            path: video.path,
            name: "Rest my chemistry - Intro".to_string(),
            artist: "Interpol".to_string(),
            song: "Rest my chemistry".to_string(),
            style: vec![Style::Rock],
            tags: vec!["alternative".to_string(), "rhythmic".to_string()],
            thumbnail: video.thumbnail,
            size_bytes: video.size_bytes,
        }
    )
}
