use chrono::{TimeZone, Utc};
use video_library::clock::{StaticClock, Timestamp};
use video_library::collections::model::{Style, Video};
use video_library::collections::service::CollectionService;
use video_library::collections::store::{CollectionRepository, CollectionRepositoryMemory};
use video_library::collections::video::{
    FileManager, VideoCollectionToUpdate, VideoFileManager, VideoToUpdate,
};
use video_library::event_bus::{EventBusManager, MemoryEventBus};

struct Found;

impl FileManager for Found {
    fn create_video(&self, path: &str) -> Result<Video, String> {
        if path.ends_with(".txt") {
            return Err(format!("{} is no video", path));
        }
        Ok(Video::new(path.to_string(), "".to_string(), 0))
    }
}

fn clock() -> StaticClock {
    let now = Utc.with_ymd_and_hms(2026, 1, 28, 0, 0, 0).unwrap();
    StaticClock::new(Timestamp::new(now.timestamp()).unwrap())
}

fn update(path: &str, artist: &str) -> VideoToUpdate {
    VideoToUpdate {
        path: path.to_string(),
        name: "song1.mp4".to_string(),
        artist: artist.to_string(),
        song: "".to_string(),
        style: vec![Style::Rock],
        tags: vec![],
        thumbnail: "".to_string(),
        size_bytes: 0,
    }
}

#[test]
fn create_then_update_a_video() {
    let files = VideoFileManager::new(Found);
    let mut bus = EventBusManager::new(MemoryEventBus::new());
    let mut store = CollectionRepositoryMemory::new();

    let collection = CollectionService::create_collection(
        vec!["lib/song1.mp4".to_string()],
        &files,
        &mut bus,
        &mut store,
        &clock(),
    )
    .unwrap();

    assert_eq!(collection.title, "Collection - 2026-01-28");
    assert_eq!(
        collection.videos,
        vec![Video {
            path: "lib/song1.mp4".to_string(),
            name: "song1.mp4".to_string(),
            artist: "".to_string(),
            song: "".to_string(),
            style: vec![],
            tags: vec![],
            thumbnail: "".to_string(),
            size_bytes: 0,
        }]
    );
    assert_eq!(store.get_by_id(&collection.id), Some(collection.clone()));

    CollectionService::update_video(
        VideoCollectionToUpdate { collection_id: collection.id, video: update("lib/song1.mp4", "Interpol") },
        &bus,
        &mut store,
    );

    let stored = store.get_by_id(&collection.id).unwrap();
    assert_eq!(stored.videos.len(), 1);
    assert_eq!(stored.videos[0].artist, "Interpol");
    assert_eq!(stored.videos[0].path, "lib/song1.mp4");
    assert_eq!(stored.videos[0].style, vec![Style::Rock]);
    assert_eq!(stored.title, "Collection - 2026-01-28");
    assert_eq!(store.list().len(), 1);
    assert_eq!(bus.event_bus.events.len(), 2);
}

#[test]
fn update_of_an_unknown_path_changes_nothing() {
    let files = VideoFileManager::new(Found);
    let mut bus = EventBusManager::new(MemoryEventBus::new());
    let mut store = CollectionRepositoryMemory::new();
    let collection = CollectionService::create_collection(
        vec!["lib/a.mp4".to_string(), "lib/b.mp4".to_string()],
        &files,
        &mut bus,
        &mut store,
        &clock(),
    )
    .unwrap();

    let found = CollectionService::update_video(
        VideoCollectionToUpdate { collection_id: collection.id, video: update("lib/c.mp4", "Nobody") },
        &bus,
        &mut store,
    );
    assert!(found);
    assert_eq!(store.get_by_id(&collection.id), Some(collection.clone()));

    let found = CollectionService::update_video(
        VideoCollectionToUpdate { collection_id: collection.id ^ 1, video: update("lib/a.mp4", "Nobody") },
        &bus,
        &mut store,
    );
    assert!(!found);
    assert_eq!(store.list(), vec![collection.clone()]);

    CollectionService::update_video(
        VideoCollectionToUpdate { collection_id: collection.id, video: update("lib/b.mp4", "Somebody") },
        &bus,
        &mut store,
    );
    let stored = store.get_by_id(&collection.id).unwrap();
    assert_eq!(stored.videos[0], collection.videos[0]);
    assert_eq!(stored.videos[1].artist, "Somebody");
    assert_eq!(stored.videos[1].path, "lib/b.mp4");
}

#[test]
fn creation_announces_the_collection_before_its_videos() {
    let files = VideoFileManager::new(Found);
    let mut bus = EventBusManager::new(MemoryEventBus::new());
    let mut store = CollectionRepositoryMemory::new();
    CollectionService::create_collection(
        vec!["a.mp4".to_string(), "b.mp4".to_string()],
        &files,
        &mut bus,
        &mut store,
        &clock(),
    )
    .unwrap();
    let types: Vec<&str> = bus.event_bus.events.iter().map(|e| e.event_type.as_str()).collect();
    assert_eq!(types, vec!["collection:created", "video:added", "video:added"]);
}

#[test]
fn creation_that_fails_stores_nothing_and_keeps_what_was_announced() {
    let files = VideoFileManager::new(Found);
    let mut bus = EventBusManager::new(MemoryEventBus::new());
    let mut store = CollectionRepositoryMemory::new();
    let r = CollectionService::create_collection(
        vec!["a.mp4".to_string(), "notes.txt".to_string(), "c.mp4".to_string()],
        &files,
        &mut bus,
        &mut store,
        &clock(),
    );
    assert_eq!(r, Err("notes.txt is no video".to_string()));
    assert!(store.list().is_empty());
    let types: Vec<&str> = bus.event_bus.events.iter().map(|e| e.event_type.as_str()).collect();
    assert_eq!(types, vec!["collection:created", "video:added"]);

    let r = CollectionService::create_collection(vec![], &files, &mut bus, &mut store, &clock());
    assert_eq!(r, Err("Aucun fichier reçu".to_string()));
    assert!(store.list().is_empty());
    assert_eq!(bus.event_bus.events.len(), 3);
    assert_eq!(bus.event_bus.events[2].event_type, "collection:created");
}

#[test]
fn created_collections_get_different_identifiers() {
    let files = VideoFileManager::new(Found);
    let mut bus = EventBusManager::new(MemoryEventBus::new());
    let mut store = CollectionRepositoryMemory::new();
    let a = CollectionService::create_collection(vec!["a.mp4".to_string()], &files, &mut bus, &mut store, &clock()).unwrap();
    let b = CollectionService::create_collection(vec!["b.mp4".to_string()], &files, &mut bus, &mut store, &clock()).unwrap();
    assert_ne!(a.id, b.id);
    assert_eq!(store.list(), vec![a, b]);
}
