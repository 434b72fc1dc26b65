use video_library::collections::model::{position_by_path, Collection, Style, Video};
use video_library::search::document::IndexDocument;
use video_library::text::{copy_text, copy_texts, join_spaced, same_text};

#[test]
fn video_new_is_named_after_its_file() {
    let video = Video::new("lib/song1.mp4".to_string(), "thumb.jpg".to_string(), 12);
    assert_eq!(
        video,
        Video {
            path: "lib/song1.mp4".to_string(),
            name: "song1.mp4".to_string(),
            artist: "".to_string(),
            song: "".to_string(),
            style: vec![],
            tags: vec![],
            thumbnail: "thumb.jpg".to_string(),
            size_bytes: 12,
        }
    );
    assert_eq!(Video::new("song1.mp4".to_string(), "".to_string(), 0).name, "song1.mp4");
}

#[test]
fn video_without_file_name_is_unknown() {
    assert_eq!(Video::new("..".to_string(), "".to_string(), 0).name, "unknown");
    assert_eq!(Video::new("".to_string(), "".to_string(), 0).name, "unknown");
    assert_eq!(Video::named("a/b".to_string(), None, "".to_string(), 0).name, "unknown");
    assert_eq!(Video::named("a/b".to_string(), Some("c".to_string()), "".to_string(), 0).name, "c");
}

#[test]
fn clones_are_equal() {
    let video = Video {
        path: "p".to_string(),
        name: "n".to_string(),
        artist: "a".to_string(),
        song: "s".to_string(),
        style: vec![Style::Jazz, Style::Funk],
        tags: vec!["x".to_string(), "y z".to_string()],
        thumbnail: "t".to_string(),
        size_bytes: u64::MAX,
    };
    assert_eq!(video.clone(), video);
    let collection = Collection { id: u128::MAX, title: "c".to_string(), videos: vec![video.clone(), video] };
    assert_eq!(collection.clone(), collection);
}

#[test]
fn collection_new_is_empty_and_add_video_appends() {
    let mut collection = Collection::new(4, "title");
    assert_eq!(collection, Collection { id: 4, title: "title".to_string(), videos: vec![] });
    let a = Video::new("a.mp4".to_string(), "".to_string(), 0);
    let b = Video::new("b.mp4".to_string(), "".to_string(), 0);
    collection.add_video(a.clone());
    collection.add_video(b.clone());
    assert_eq!(collection.videos, vec![a, b]);
}

#[test]
fn style_names_are_those_of_the_variants() {
    let all = [
        (Style::Rock, "Rock"),
        (Style::HardRock, "HardRock"),
        (Style::Metal, "Metal"),
        (Style::Blues, "Blues"),
        (Style::Jazz, "Jazz"),
        (Style::Funk, "Funk"),
        (Style::Pop, "Pop"),
        (Style::CountryFolk, "CountryFolk"),
        (Style::ReggaeSka, "ReggaeSka"),
        (Style::AmbientPostRock, "AmbientPostRock"),
        (Style::NeoClassical, "NeoClassical"),
    ];
    for (style, name) in all {
        assert_eq!(style.name(), name);
        assert_eq!(format!("{:?}", style), name);
    }
}

#[test]
fn index_document_joins_styles_and_tags_with_spaces() {
    let video = Video {
        path: "lib/a b.mp4".to_string(),
        name: "Intro".to_string(),
        artist: "Interpol".to_string(),
        song: "Evil".to_string(),
        style: vec![Style::Rock, Style::AmbientPostRock, Style::Pop],
        tags: vec!["alternative".to_string(), "".to_string(), "two words".to_string()],
        thumbnail: "ignored".to_string(),
        size_bytes: 1,
    };
    assert_eq!(
        IndexDocument::from_video(&video),
        IndexDocument {
            name: "Intro".to_string(),
            artist: "Interpol".to_string(),
            song: "Evil".to_string(),
            style: "Rock AmbientPostRock Pop".to_string(),
            tags: "alternative  two words".to_string(),
            path: "lib/a b.mp4".to_string(),
        }
    );
    let bare = Video::named("p".to_string(), None, "".to_string(), 0);
    let document = IndexDocument::from_video(&bare);
    assert_eq!(document.style, "");
    assert_eq!(document.tags, "");
    assert_eq!(document.name, "unknown");
}

#[test]
fn join_spaced_is_join_with_one_space() {
    assert_eq!(join_spaced(&vec![]), "");
    assert_eq!(join_spaced(&vec!["a".to_string()]), "a");
    assert_eq!(join_spaced(&vec!["a".to_string(), "b".to_string(), "c".to_string()]), "a b c");
    assert_eq!(join_spaced(&vec!["".to_string(), "".to_string()]), " ");
}

#[test]
fn text_helpers_copy_and_compare() {
    assert_eq!(copy_text(&"çé".to_string()), "çé");
    assert_eq!(copy_texts(&vec!["a".to_string(), "".to_string()]), vec!["a".to_string(), "".to_string()]);
    assert!(same_text("a/b", "a/b"));
    assert!(!same_text("a/b", "a//b"));
    assert!(!same_text("a", "A"));
}

#[test]
fn position_by_path_finds_the_first() {
    let videos = vec![
        Video::named("a".to_string(), None, "".to_string(), 0),
        Video::named("b".to_string(), None, "1".to_string(), 0),
        Video::named("b".to_string(), None, "2".to_string(), 0),
    ];
    assert_eq!(position_by_path(&videos, "a"), Some(0));
    assert_eq!(position_by_path(&videos, "b"), Some(1));
    assert_eq!(position_by_path(&videos, "c"), None);
    assert_eq!(position_by_path(&vec![], "a"), None);
}
