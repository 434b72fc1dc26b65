use video_library::collections::model::{Collection, Video};
use video_library::collections::store::{CollectionRepository, CollectionRepositoryMemory};
use video_library::repositories::Repositories;

fn collection(id: u128, title: &str, paths: &[&str]) -> Collection {
    Collection {
        id,
        title: title.to_string(),
        videos: paths.iter().map(|p| Video::named(p.to_string(), None, "".to_string(), 1)).collect(),
    }
}

#[test]
fn a_new_store_is_empty() {
    let store = CollectionRepositoryMemory::new();
    assert_eq!(store.list(), vec![]);
    assert_eq!(store.get_by_id(&1), None);
}

#[test]
fn add_twice_with_one_id_keeps_one_collection_the_latest() {
    let mut store = CollectionRepositoryMemory::new();
    store.add(collection(7, "first", &["a.mp4"]));
    assert_eq!(store.list().len(), 1);
    store.add(collection(7, "second", &["a.mp4", "b.mp4"]));
    assert_eq!(store.list().len(), 1);
    assert_eq!(store.list(), vec![collection(7, "second", &["a.mp4", "b.mp4"])]);
    assert_eq!(store.get_by_id(&7), Some(collection(7, "second", &["a.mp4", "b.mp4"])));
}

#[test]
fn add_overwrites_in_place_and_appends_what_is_new() {
    let mut store = CollectionRepositoryMemory::new();
    store.add(collection(1, "one", &[]));
    store.add(collection(2, "two", &[]));
    store.add(collection(3, "three", &[]));
    store.add(collection(2, "deux", &["x.mp4"]));
    assert_eq!(
        store.list(),
        vec![collection(1, "one", &[]), collection(2, "deux", &["x.mp4"]), collection(3, "three", &[])]
    );
    assert_eq!(store.get_by_id(&3), Some(collection(3, "three", &[])));
    assert_eq!(store.get_by_id(&4), None);
}

#[test]
fn list_gives_copies() {
    let mut store = CollectionRepositoryMemory::new();
    store.add(collection(1, "one", &["a.mp4"]));
    let mut listed = store.list();
    listed[0].title = "changed".to_string();
    listed.clear();
    assert_eq!(store.list(), vec![collection(1, "one", &["a.mp4"])]);
}

#[test]
fn repositories_hold_the_store() {
    let mut repositories = Repositories::new(CollectionRepositoryMemory::new());
    repositories.collections_mut().add(collection(5, "five", &[]));
    assert_eq!(repositories.collections().list(), vec![collection(5, "five", &[])]);
}
