//! The records of the library: styles, videos and collections.

use vstd::prelude::*;
use crate::text::{copy_text, copy_texts, optional_text, same_text, texts};

verus! {

/// The closed list of musical styles a video can carry.
#[derive(Clone, Copy, Debug, PartialEq, Eq, Structural)]
pub enum Style {
    Rock,
    HardRock,
    Metal,
    Blues,
    Jazz,
    Funk,
    Pop,
    CountryFolk,
    ReggaeSka,
    AmbientPostRock,
    NeoClassical,
}

/// The name under which a style is rendered into searchable text.
pub open spec fn style_name(style: Style) -> Seq<char> {
    match style {
        Style::Rock => "Rock"@,
        Style::HardRock => "HardRock"@,
        Style::Metal => "Metal"@,
        Style::Blues => "Blues"@,
        Style::Jazz => "Jazz"@,
        Style::Funk => "Funk"@,
        Style::Pop => "Pop"@,
        Style::CountryFolk => "CountryFolk"@,
        Style::ReggaeSka => "ReggaeSka"@,
        Style::AmbientPostRock => "AmbientPostRock"@,
        Style::NeoClassical => "NeoClassical"@,
    }
}

impl Style {
    /// The name under which the style is rendered into searchable text.
    pub fn name(&self) -> (r: &'static str)
        ensures
            r@ == style_name(*self),
    {
        match self {
            Style::Rock => "Rock",
            Style::HardRock => "HardRock",
            Style::Metal => "Metal",
            Style::Blues => "Blues",
            Style::Jazz => "Jazz",
            Style::Funk => "Funk",
            Style::Pop => "Pop",
            Style::CountryFolk => "CountryFolk",
            Style::ReggaeSka => "ReggaeSka",
            Style::AmbientPostRock => "AmbientPostRock",
            Style::NeoClassical => "NeoClassical",
        }
    }
}

/// A video as contracts see it.
pub struct VideoView {
    pub path: Seq<char>,
    pub name: Seq<char>,
    pub artist: Seq<char>,
    pub song: Seq<char>,
    pub style: Seq<Style>,
    pub tags: Seq<Seq<char>>,
    pub thumbnail: Seq<char>,
    pub size_bytes: u64,
}

/// A video file with its metadata. The path identifies it within its collection.
#[derive(Debug, PartialEq)]
pub struct Video {
    pub path: String,
    pub name: String,
    pub artist: String,
    pub song: String,
    pub style: Vec<Style>,
    pub tags: Vec<String>,
    pub thumbnail: String,
    pub size_bytes: u64,
}

impl View for Video {
    type V = VideoView;

    open spec fn view(&self) -> VideoView {
        VideoView {
            path: self.path@,
            name: self.name@,
            artist: self.artist@,
            song: self.song@,
            style: self.style@,
            tags: texts(self.tags@),
            thumbnail: self.thumbnail@,
            size_bytes: self.size_bytes,
        }
    }
}

/// The name given to a video whose path has no readable file name.
pub open spec fn unknown_name() -> Seq<char> {
    "unknown"@
}

/// The view of a video that was just found at `path`: named, otherwise blank.
pub open spec fn fresh_video(
    path: Seq<char>,
    file_name: Option<Seq<char>>,
    thumbnail: Seq<char>,
    size_bytes: u64,
) -> VideoView {
    VideoView {
        path,
        name: match file_name {
            Some(name) => name,
            None => unknown_name(),
        },
        artist: Seq::empty(),
        song: Seq::empty(),
        style: Seq::empty(),
        tags: Seq::empty(),
        thumbnail,
        size_bytes,
    }
}

/// `std::path::Path::file_name`, read as text: the last component of `path`,
/// if it has one and it is valid Unicode. Which part of a path that is
/// depends on the platform, so nothing is claimed of the result.
#[verifier::external_body]
fn file_name_of(path: &str) -> (r: Option<String>) {
    std::path::Path::new(path).file_name().and_then(|name| name.to_str()).map(String::from)
}

impl Video {
    /// A video found at `path`, named after the last component of the path
    /// (or `unknown`), with no metadata yet.
    pub fn new(path: String, thumbnail: String, size_bytes: u64) -> (r: Self)
        ensures
            exists|file_name: Option<Seq<char>>|
                r@ == fresh_video(path@, file_name, thumbnail@, size_bytes),
    {
        let file_name = file_name_of(path.as_str());
        let ghost chosen = optional_text(file_name);
        let r = Video::named(path, file_name, thumbnail, size_bytes);
        assert(r@ == fresh_video(path@, chosen, thumbnail@, size_bytes));
        r
    }

    /// A video found at `path` whose file name was already read from the path.
    pub fn named(path: String, file_name: Option<String>, thumbnail: String, size_bytes: u64) -> (r:
        Self)
        ensures
            r@ == fresh_video(path@, optional_text(file_name), thumbnail@, size_bytes),
    {
        let name = match file_name {
            Some(name) => name,
            None => "unknown".to_owned(),
        };
        let r = Video {
            path,
            name,
            artist: String::new(),
            song: String::new(),
            style: Vec::new(),
            tags: Vec::new(),
            thumbnail,
            size_bytes,
        };
        assert(texts(r.tags@) =~= Seq::empty());
        r
    }
}

impl Clone for Video {
    fn clone(&self) -> (r: Self)
        ensures
            r@ == self@,
    {
        let style = self.style.clone();
        assert(style@ =~= self.style@);
        Video {
            path: copy_text(&self.path),
            name: copy_text(&self.name),
            artist: copy_text(&self.artist),
            song: copy_text(&self.song),
            style,
            tags: copy_texts(&self.tags),
            thumbnail: copy_text(&self.thumbnail),
            size_bytes: self.size_bytes,
        }
    }
}

/// The views of `videos`, in order.
pub open spec fn video_views(videos: Seq<Video>) -> Seq<VideoView> {
    Seq::new(videos.len(), |i: int| videos[i]@)
}

/// A copy of `videos`, video by video.
pub fn copy_videos(videos: &Vec<Video>) -> (r: Vec<Video>)
    ensures
        video_views(r@) == video_views(videos@),
{
    let mut out: Vec<Video> = Vec::new();
    let mut i: usize = 0;
    while i < videos.len()
        invariant
            i <= videos.len(),
            out.len() == i,
            forall|j: int| 0 <= j < i ==> out[j]@ == videos[j]@,
        decreases videos.len() - i,
    {
        out.push(videos[i].clone());
        i += 1;
    }
    assert(video_views(out@) =~= video_views(videos@));
    out
}

/// `i` is the first place of `videos` whose video lies at `path`.
pub open spec fn path_first_at(videos: Seq<VideoView>, path: Seq<char>, i: int) -> bool {
    &&& 0 <= i < videos.len()
    &&& videos[i].path == path
    &&& forall|j: int| 0 <= j < i ==> videos[j].path != path
}

/// Some video of `videos` lies at `path`.
pub open spec fn has_path(videos: Seq<VideoView>, path: Seq<char>) -> bool {
    exists|i: int| 0 <= i < videos.len() && videos[i].path == path
}

/// The first place of `videos` whose video lies at `path`, where there is one.
pub open spec fn path_place(videos: Seq<VideoView>, path: Seq<char>) -> int {
    choose|i: int| path_first_at(videos, path, i)
}

/// The first video of `videos` that lies at `path`.
pub open spec fn find_by_path(videos: Seq<VideoView>, path: Seq<char>) -> Option<VideoView> {
    if has_path(videos, path) {
        Some(videos[path_place(videos, path)])
    } else {
        None
    }
}

/// A place whose video lies at `path`, with none before it, is the place `path_place` names.
pub proof fn path_place_is_first(videos: Seq<VideoView>, path: Seq<char>, i: int)
    requires
        path_first_at(videos, path, i),
    ensures
        has_path(videos, path),
        path_place(videos, path) == i,
        find_by_path(videos, path) == Some(videos[i]),
{
    let p = path_place(videos, path);
    assert(path_first_at(videos, path, p));
    if p < i {
        assert(videos[p].path != path);
    }
    if i < p {
        assert(videos[i].path != path);
    }
}

/// No two videos of `videos` lie at one path.
pub open spec fn distinct_paths(videos: Seq<VideoView>) -> bool {
    forall|i: int, j: int| 0 <= i < j < videos.len() ==> videos[i].path != videos[j].path
}

/// Among videos at distinct paths, the video found at the path of one of
/// them is that video.
pub proof fn found_is_the_only_one(videos: Seq<VideoView>, i: int)
    requires
        distinct_paths(videos),
        0 <= i < videos.len(),
    ensures
        find_by_path(videos, videos[i].path) == Some(videos[i]),
{
    assert forall|j: int| 0 <= j < i implies videos[j].path != videos[i].path by {}
    assert(path_first_at(videos, videos[i].path, i));
    path_place_is_first(videos, videos[i].path, i);
}

/// The place of the first video of `videos` that lies at `path`.
pub fn position_by_path(videos: &Vec<Video>, path: &str) -> (r: Option<usize>)
    ensures
        match r {
            Some(i) => path_first_at(video_views(videos@), path@, i as int),
            None => !has_path(video_views(videos@), path@),
        },
{
    let mut i: usize = 0;
    while i < videos.len()
        invariant
            i <= videos.len(),
            forall|j: int| 0 <= j < i ==> video_views(videos@)[j].path != path@,
        decreases videos.len() - i,
    {
        if same_text(videos[i].path.as_str(), path) {
            assert(video_views(videos@)[i as int].path == path@);
            return Some(i);
        }
        i += 1;
    }
    None
}

/// A collection as contracts see it.
pub struct CollectionView {
    pub id: u128,
    pub title: Seq<char>,
    pub videos: Seq<VideoView>,
}

/// A named, ordered group of videos; the unit the store keeps.
#[derive(Debug, PartialEq)]
pub struct Collection {
    pub id: u128,
    pub title: String,
    pub videos: Vec<Video>,
}

impl View for Collection {
    type V = CollectionView;

    open spec fn view(&self) -> CollectionView {
        CollectionView { id: self.id, title: self.title@, videos: video_views(self.videos@) }
    }
}

impl Clone for Collection {
    fn clone(&self) -> (r: Self)
        ensures
            r@ == self@,
    {
        Collection {
            id: self.id,
            title: copy_text(&self.title),
            videos: copy_videos(&self.videos),
        }
    }
}

/// The views of `collections`, in order.
pub open spec fn collection_views(collections: Seq<Collection>) -> Seq<CollectionView> {
    Seq::new(collections.len(), |i: int| collections[i]@)
}

impl Collection {
    /// An empty collection with the given identifier and title.
    pub fn new(id: u128, title: &str) -> (r: Self)
        ensures
            r@ == (CollectionView { id, title: title@, videos: Seq::empty() }),
    {
        let r = Collection { id, title: title.to_owned(), videos: Vec::new() };
        assert(video_views(r.videos@) =~= Seq::empty());
        r
    }

    /// Appends `video` after the videos already held.
    pub fn add_video(&mut self, video: Video)
        ensures
            final(self)@ == (CollectionView { videos: old(self)@.videos.push(video@), ..old(self)@ }),
    {
        self.videos.push(video);
        assert(video_views(self.videos@) =~= video_views(old(self).videos@).push(video@));
    }
}

} // verus!
