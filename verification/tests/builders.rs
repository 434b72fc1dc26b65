use video_library::collections::collection_builder::{a_collection, a_video};
use video_library::collections::model::Video;

#[test]
fn a_collection_builds_what_it_was_given() {
    let first = Video::named("a.mp4".to_string(), None, "".to_string(), 1);
    let second = Video::named("b.mp4".to_string(), None, "".to_string(), 2);
    let collection =
        a_collection().with_title("Collection 1").add_video(&first).add_video(&second).build();
    assert_eq!(collection.title, "Collection 1");
    assert_eq!(collection.videos, vec![first, second]);
    let empty = a_collection().build();
    assert_eq!(empty.title, "");
    assert!(empty.videos.is_empty());
}

#[test]
fn built_collections_get_random_version_4_identifiers() {
    let a = a_collection().build().id;
    let b = a_collection().build().id;
    assert_ne!(a, b);
    for id in [a, b] {
        assert_eq!(id & 0xF000_C000_0000_0000_0000, 0x4000_8000_0000_0000_0000);
        assert_eq!(uuid::Uuid::from_u128(id).get_version_num(), 4);
    }
}

#[test]
fn a_video_is_made_up_without_styles_or_tags() {
    let video = a_video().build();
    assert!(video.style.is_empty());
    assert!(video.tags.is_empty());
    assert!(!video.path.is_empty());
    assert!(!video.name.is_empty());
    assert!(!video.artist.is_empty());
    assert!(!video.song.is_empty());
    assert!(!video.thumbnail.is_empty());
    let others: Vec<Video> = (0..20).map(|_| a_video().build()).collect();
    assert!(others.iter().any(|v| v.size_bytes != video.size_bytes));
    assert!(others.iter().any(|v| v.artist != video.artist));
}
