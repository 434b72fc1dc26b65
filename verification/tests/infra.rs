use video_library::clock::Timestamp;
use video_library::collections::model::Collection;
use video_library::infra::file_manager::{make_thumbnail_path, safe_file_stem, safe_stem_of, sanitized};
use video_library::infra::file_repositories::{CollectionRepositoryFile, StoredFile, WriteTarget};
use video_library::video::{ThumbnailItem, ThumbnailProgress};

fn file(path: &str, id: u128) -> StoredFile {
    StoredFile { path: path.to_string(), collection: Collection::new(id, path) }
}

#[test]
fn sanitized_keeps_ascii_letters_and_digits() {
    assert_eq!(sanitized("abcXYZ019"), "abcXYZ019");
    assert_eq!(sanitized("my song (live).v2"), "my_song__live__v2");
    assert_eq!(sanitized("été-à"), "_t___");
    assert_eq!(sanitized(""), "");
    assert_eq!(sanitized("`{@[/:"), "______");
}

#[test]
fn safe_file_stem_reads_the_stem_of_the_file() {
    assert_eq!(safe_file_stem("lib/my song.mp4"), "my_song");
    assert_eq!(safe_file_stem("song1.tar.gz"), "song1_tar");
    assert_eq!(safe_file_stem(".."), "video");
    assert_eq!(safe_file_stem(""), "video");
    assert_eq!(safe_stem_of(None), "video");
    assert_eq!(safe_stem_of(Some("a b".to_string())), "a_b");
}

#[test]
fn thumbnail_lies_in_the_thumbnails_directory() {
    assert_eq!(
        make_thumbnail_path("lib/my song.mp4"),
        ("thumbnails".to_string(), "my_song.jpg".to_string())
    );
    assert_eq!(make_thumbnail_path(".."), ("thumbnails".to_string(), "video.jpg".to_string()));
}

#[test]
fn only_json_files_hold_collections() {
    assert!(CollectionRepositoryFile::has_collection_extension(Some("json".to_string())));
    assert!(!CollectionRepositoryFile::has_collection_extension(Some("JSON".to_string())));
    assert!(!CollectionRepositoryFile::has_collection_extension(Some("jso".to_string())));
    assert!(!CollectionRepositoryFile::has_collection_extension(Some("".to_string())));
    assert!(!CollectionRepositoryFile::has_collection_extension(None));
}

#[test]
fn file_store_finds_the_first_file_of_a_collection() {
    let files = vec![file("d/a.json", 1), file("d/b.json", 2), file("d/c.json", 2)];
    assert_eq!(CollectionRepositoryFile::find_collection_file_path(&files, &2), Some("d/b.json".to_string()));
    assert_eq!(CollectionRepositoryFile::find_collection_file_path(&files, &1), Some("d/a.json".to_string()));
    assert_eq!(CollectionRepositoryFile::find_collection_file_path(&files, &3), None);
    assert_eq!(CollectionRepositoryFile::find_collection_file_path(&vec![], &1), None);
}

#[test]
fn file_store_lists_what_the_files_hold() {
    let files = vec![file("d/a.json", 1), file("d/b.json", 2)];
    assert_eq!(
        CollectionRepositoryFile::list(&files),
        vec![Collection::new(1, "d/a.json"), Collection::new(2, "d/b.json")]
    );
    assert_eq!(CollectionRepositoryFile::list(&vec![]), vec![]);
}

#[test]
fn file_store_overwrites_the_file_of_a_known_collection() {
    let files = vec![file("d/a.json", 1), file("d/b.json", 2)];
    let now = Timestamp::new(1_769_601_600).unwrap();
    let names = vec!["a.json".to_string(), "b.json".to_string(), "notes.txt".to_string()];
    assert_eq!(
        CollectionRepositoryFile::write_target(&files, &names, &2, now),
        WriteTarget::Existing("d/b.json".to_string())
    );
    assert_eq!(
        CollectionRepositoryFile::write_target(&files, &names, &3, now),
        WriteTarget::New("collection-2026-01-28_12-00-00.json".to_string())
    );
    let taken = vec!["collection-2026-01-28_12-00-00.json".to_string()];
    assert_eq!(
        CollectionRepositoryFile::write_target(&files, &taken, &3, now),
        WriteTarget::New("collection-2026-01-28_12-00-00_.json".to_string())
    );
    assert_eq!(
        CollectionRepositoryFile::write_target(&files, &taken, &1, now),
        WriteTarget::Existing("d/a.json".to_string())
    );
    assert_eq!(CollectionRepositoryFile::new("dir".to_string()).base_dir, "dir");
}

#[test]
fn thumbnail_item_keeps_the_path_or_the_error() {
    assert_eq!(
        ThumbnailItem::new("a.mp4", Some(3), Ok("t/a.jpg".to_string())),
        ThumbnailItem {
            video_path: "a.mp4".to_string(),
            thumbnail_path: Some("t/a.jpg".to_string()),
            error: None,
            size_bytes: Some(3),
        }
    );
    assert_eq!(
        ThumbnailItem::new("a.mp4", None, Err("ffmpeg".to_string())),
        ThumbnailItem {
            video_path: "a.mp4".to_string(),
            thumbnail_path: None,
            error: Some("ffmpeg".to_string()),
            size_bytes: None,
        }
    );
}

#[test]
fn progress_counts_from_one() {
    let item = ThumbnailItem::new("a.mp4", Some(3), Err("e".to_string()));
    assert_eq!(
        ThumbnailProgress::new(0, 2, &item),
        ThumbnailProgress {
            index: 1,
            total: 2,
            video_path: "a.mp4".to_string(),
            thumbnail_path: None,
            error: Some("e".to_string()),
            size_bytes: Some(3),
        }
    );
    assert_eq!(ThumbnailProgress::new(1, 2, &item).index, 2);
}

#[test]
fn a_new_file_never_bears_the_name_of_another() {
    let now = Timestamp::new(1_769_601_600).unwrap();
    let base = "collection-2026-01-28_12-00-00.json".to_string();
    assert_eq!(CollectionRepositoryFile::fresh_file_name(&vec![], now), base);
    assert_eq!(
        CollectionRepositoryFile::fresh_file_name(&vec!["other.json".to_string()], now),
        base
    );
    let mut names = vec!["x".to_string(), base.clone()];
    let second = CollectionRepositoryFile::fresh_file_name(&names, now);
    assert_eq!(second, "collection-2026-01-28_12-00-00_.json");
    names.push(second);
    let third = CollectionRepositoryFile::fresh_file_name(&names, now);
    assert_eq!(third, "collection-2026-01-28_12-00-00__.json");
    names.push(third);
    names.push("a-much-longer-name-than-any-of-the-others-in-here.json".to_string());
    let fourth = CollectionRepositoryFile::fresh_file_name(&names, now);
    assert_eq!(names[4].chars().count(), 54);
    assert_eq!(fourth, format!("collection-2026-01-28_12-00-00{}.json", "_".repeat(20)));
    assert!(!names.contains(&fourth));
    assert_eq!(fourth.chars().count(), names[4].chars().count() + 1);
    let later = Timestamp::new(1_769_601_601).unwrap();
    assert_eq!(
        CollectionRepositoryFile::fresh_file_name(&names, later),
        "collection-2026-01-28_12-00-01.json"
    );
}
