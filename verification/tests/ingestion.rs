use video_library::collections::model::{Collection, Video};
use video_library::collections::video::{
    append_video, thumbnail_items, FileManager, ThumbnailItem, VideoFileManager,
};
use video_library::event_bus::{
    Event, EventBus, EventBusManager, EventData, MemoryEventBus, VideoAddedToCollection,
};

struct Files {
    missing: Option<&'static str>,
}

impl FileManager for Files {
    fn create_video(&self, path: &str) -> Result<Video, String> {
        if Some(path) == self.missing {
            return Err(format!("no file at {}", path));
        }
        Ok(Video::new(path.to_string(), format!("{}.jpg", path), 42))
    }
}

fn added_paths(events: &Vec<Event>) -> Vec<String> {
    events
        .iter()
        .map(|e| {
            assert_eq!(e.event_type, "video:added");
            match &e.data {
                EventData::VideoAdded(a) => a.path.clone(),
                _ => panic!("not an addition"),
            }
        })
        .collect()
}

#[test]
fn ingestion_announces_each_video_in_order() {
    let mut collection = Collection::new(11, "mine");
    let mut bus = EventBusManager::new(MemoryEventBus::new());
    let r = Files { missing: None }.add_files_from_paths_to_collection(
        vec!["a.mp4".to_string(), "b.mp4".to_string()],
        &mut collection,
        &mut bus,
    );
    assert_eq!(r, Ok(()));
    assert_eq!(added_paths(&bus.event_bus.events), vec!["a.mp4", "b.mp4"]);
    assert_eq!(
        bus.event_bus.events[0].data,
        EventData::VideoAdded(VideoAddedToCollection {
            collection_id: 11,
            path: "a.mp4".to_string(),
            name: "a.mp4".to_string(),
            artist: "".to_string(),
            song: "".to_string(),
            style: vec![],
            tags: vec![],
            thumbnail: "a.mp4.jpg".to_string(),
            size_bytes: 42,
        })
    );
    let paths: Vec<&str> = collection.videos.iter().map(|v| v.path.as_str()).collect();
    assert_eq!(paths, vec!["a.mp4", "b.mp4"]);
    assert_eq!(collection.id, 11);
    assert_eq!(collection.title, "mine");
}

#[test]
fn ingestion_appends_after_the_videos_already_held() {
    let mut collection = Collection::new(11, "mine");
    collection.add_video(Video::new("old.mp4".to_string(), "".to_string(), 0));
    let mut bus = EventBusManager::new(MemoryEventBus::new());
    let r = Files { missing: None }.add_files_from_paths_to_collection(
        vec!["new.mp4".to_string()],
        &mut collection,
        &mut bus,
    );
    assert_eq!(r, Ok(()));
    let paths: Vec<&str> = collection.videos.iter().map(|v| v.path.as_str()).collect();
    assert_eq!(paths, vec!["old.mp4", "new.mp4"]);
    assert_eq!(added_paths(&bus.event_bus.events), vec!["new.mp4"]);
}

#[test]
fn ingestion_without_paths_fails_and_announces_nothing() {
    let mut collection = Collection::new(11, "mine");
    let mut bus = EventBusManager::new(MemoryEventBus::new());
    let r = Files { missing: None }.add_files_from_paths_to_collection(
        vec![],
        &mut collection,
        &mut bus,
    );
    assert_eq!(r, Err("Aucun fichier reçu".to_string()));
    assert!(bus.event_bus.events.is_empty());
    assert_eq!(collection, Collection::new(11, "mine"));
}

#[test]
fn ingestion_stops_at_the_first_path_without_video() {
    let mut collection = Collection::new(11, "mine");
    let mut bus = EventBusManager::new(MemoryEventBus::new());
    let r = Files { missing: Some("b.mp4") }.add_files_from_paths_to_collection(
        vec!["a.mp4".to_string(), "b.mp4".to_string(), "c.mp4".to_string()],
        &mut collection,
        &mut bus,
    );
    assert_eq!(r, Err("no file at b.mp4".to_string()));
    assert_eq!(added_paths(&bus.event_bus.events), vec!["a.mp4"]);
    let paths: Vec<&str> = collection.videos.iter().map(|v| v.path.as_str()).collect();
    assert_eq!(paths, vec!["a.mp4"]);
}

#[test]
fn append_video_adds_and_announces() {
    let mut collection = Collection::new(3, "c");
    let mut bus = EventBusManager::new(MemoryEventBus::new());
    let video = Video::named("x/y.mp4".to_string(), Some("y.mp4".to_string()), "t".to_string(), 9);
    append_video(&mut collection, video.clone(), &mut bus);
    assert_eq!(collection.videos, vec![video.clone()]);
    assert_eq!(bus.event_bus.events, vec![Event::video_added(3, &video)]);
}

#[test]
fn memory_bus_keeps_events_in_order() {
    let mut bus = MemoryEventBus::new();
    assert!(bus.events.is_empty());
    let video = Video::named("v.mp4".to_string(), None, "".to_string(), 0);
    bus.publish(Event::collection_created(1, &"t".to_string()));
    bus.publish(Event::video_added(1, &video));
    bus.publish(Event::video_selected(&video));
    let types: Vec<&str> = bus.events.iter().map(|e| e.event_type.as_str()).collect();
    assert_eq!(types, vec!["collection:created", "video:added", "video:selected"]);
    assert_eq!(bus.events[2].data, EventData::VideoSelected(video));
}

#[test]
fn thumbnail_items_report_each_video() {
    let mut collection = Collection::new(3, "c");
    collection.add_video(Video::named("a.mp4".to_string(), None, "a.jpg".to_string(), 5));
    collection.add_video(Video::named("b.mp4".to_string(), None, "".to_string(), 0));
    assert_eq!(
        thumbnail_items(&collection),
        vec![
            ThumbnailItem {
                video_path: "a.mp4".to_string(),
                thumbnail: Some("a.jpg".to_string()),
                size_bytes: Some(5),
            },
            ThumbnailItem {
                video_path: "b.mp4".to_string(),
                thumbnail: Some("".to_string()),
                size_bytes: Some(0),
            },
        ]
    );
    assert_eq!(thumbnail_items(&Collection::new(1, "")), vec![]);
}

#[test]
fn holder_keeps_the_file_manager() {
    let holder = VideoFileManager::new(Files { missing: Some("z") });
    assert_eq!(holder.file_manager.missing, Some("z"));
}
