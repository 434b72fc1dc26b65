//! Reports on the thumbnails of a batch of videos.

use vstd::prelude::*;
use crate::text::{copy_text, optional_text};

verus! {

/// What became of the thumbnail of one video.
#[derive(Debug, PartialEq)]
pub struct ThumbnailItem {
    pub video_path: String,
    pub thumbnail_path: Option<String>,
    pub error: Option<String>,
    pub size_bytes: Option<u64>,
}

/// The report on one video of a batch: its place in the batch, counted from
/// 1, the size of the batch, and what became of its thumbnail.
#[derive(Debug, PartialEq)]
pub struct ThumbnailProgress {
    pub index: usize,
    pub total: usize,
    pub video_path: String,
    pub thumbnail_path: Option<String>,
    pub error: Option<String>,
    pub size_bytes: Option<u64>,
}

/// A copy of an optional text.
fn copy_optional(text: &Option<String>) -> (r: Option<String>)
    ensures
        optional_text(r) == optional_text(*text),
{
    match text {
        Some(text) => Some(copy_text(text)),
        None => None,
    }
}

impl ThumbnailItem {
    /// What became of the thumbnail of the video at `video_path`: the path
    /// of the thumbnail where there is one, the error where making it failed.
    pub fn new(video_path: &str, size_bytes: Option<u64>, thumbnail: Result<String, String>) -> (r:
        Self)
        ensures
            r.video_path@ == video_path@,
            r.size_bytes == size_bytes,
            match thumbnail {
                Ok(path) => optional_text(r.thumbnail_path) == Some(path@) && r.error is None,
                Err(e) => r.thumbnail_path is None && optional_text(r.error) == Some(e@),
            },
    {
        match thumbnail {
            Ok(path) => ThumbnailItem {
                video_path: video_path.to_owned(),
                thumbnail_path: Some(path),
                error: None,
                size_bytes,
            },
            Err(e) => ThumbnailItem {
                video_path: video_path.to_owned(),
                thumbnail_path: None,
                error: Some(e),
                size_bytes,
            },
        }
    }
}

impl ThumbnailProgress {
    /// The report on `item`, the video at place `index` (counted from 0) of
    /// a batch of `total`. The place counted from 1 has to fit the machine.
    pub fn new(index: usize, total: usize, item: &ThumbnailItem) -> (r: Self)
        requires
            index < usize::MAX,
        ensures
            r.index == index + 1,
            r.total == total,
            r.video_path@ == item.video_path@,
            optional_text(r.thumbnail_path) == optional_text(item.thumbnail_path),
            optional_text(r.error) == optional_text(item.error),
            r.size_bytes == item.size_bytes,
    {
        ThumbnailProgress {
            index: index + 1,
            total,
            video_path: copy_text(&item.video_path),
            thumbnail_path: copy_optional(&item.thumbnail_path),
            error: copy_optional(&item.error),
            size_bytes: item.size_bytes,
        }
    }
}

} // verus!
