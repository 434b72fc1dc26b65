//! Builders of collections and videos for trying the library out: a
//! collection is built from a title and videos, a video from made-up data.

use vstd::prelude::*;
use crate::collections::model::{Collection, CollectionView, Video, VideoView, video_views};
use crate::collections::service::{fresh_id, is_random_id};
use crate::text::texts;

verus! {

/// The kinds of made-up text that a video is built from.
#[derive(Clone, Copy, Debug, PartialEq, Eq)]
enum MadeUp {
    FilePath,
    Title,
    Name,
}

/// `fake::Fake::fake` on one of the French fakers of the crate `fake`
/// (`filesystem::fr_fr::FilePath`, `job::fr_fr::Title`, `name::fr_fr::Name`):
/// a made-up text of that kind. The outcome is random; nothing is claimed of it.
#[verifier::external_body]
fn fake_text(kind: MadeUp) -> (r: String) {
    match kind {
        MadeUp::FilePath => fake::Fake::fake(&fake::faker::filesystem::fr_fr::FilePath()),
        MadeUp::Title => fake::Fake::fake(&fake::faker::job::fr_fr::Title()),
        MadeUp::Name => fake::Fake::fake(&fake::faker::name::fr_fr::Name()),
    }
}

/// `fake::Fake::fake` on `fake::Faker`: a made-up number. The outcome is
/// random; nothing is claimed of it.
#[verifier::external_body]
fn fake_number() -> (r: u64) {
    fake::Fake::fake(&fake::Faker)
}

/// Builds a collection from a title and videos.
pub struct CollectionBuilder {
    title: String,
    videos: Vec<Video>,
}

impl CollectionBuilder {
    /// The title that the collection will get.
    pub closed spec fn title(&self) -> Seq<char> {
        self.title@
    }

    /// The videos that the collection will hold.
    pub closed spec fn videos(&self) -> Seq<VideoView> {
        video_views(self.videos@)
    }

    /// A builder without title or videos.
    fn new() -> (r: CollectionBuilder)
        ensures
            r.title() == Seq::<char>::empty(),
            r.videos() == Seq::<VideoView>::empty(),
    {
        let r = CollectionBuilder { title: String::new(), videos: Vec::new() };
        assert(video_views(r.videos@) =~= Seq::<VideoView>::empty());
        r
    }

    /// The builder with `title` for its title.
    pub fn with_title(self, title: &str) -> (r: Self)
        ensures
            r.title() == title@,
            r.videos() == self.videos(),
    {
        CollectionBuilder { title: title.to_owned(), videos: self.videos }
    }

    /// The builder with a copy of `video` after its videos.
    pub fn add_video(self, video: &Video) -> (r: Self)
        ensures
            r.title() == self.title(),
            r.videos() == self.videos().push(video@),
    {
        let mut videos = self.videos;
        let ghost before = video_views(videos@);
        videos.push(video.clone());
        assert(video_views(videos@) =~= before.push(video@));
        CollectionBuilder { title: self.title, videos }
    }

    /// The collection, under a new random identifier.
    pub fn build(self) -> (r: Collection)
        ensures
            is_random_id(r.id),
            r@ == (CollectionView { id: r.id, title: self.title(), videos: self.videos() }),
    {
        Collection { id: fresh_id(), title: self.title, videos: self.videos }
    }
}

/// Builds a video.
pub struct VideoBuilder {
    path: String,
    name: String,
    artist: String,
    song: String,
    style: Vec<crate::collections::model::Style>,
    tags: Vec<String>,
    thumbnail: String,
    size_bytes: u64,
}

impl VideoBuilder {
    /// The video that will be built.
    pub closed spec fn view(&self) -> VideoView {
        VideoView {
            path: self.path@,
            name: self.name@,
            artist: self.artist@,
            song: self.song@,
            style: self.style@,
            tags: texts(self.tags@),
            thumbnail: self.thumbnail@,
            size_bytes: self.size_bytes,
        }
    }

    /// A builder of a video with a made-up path, name, artist, song,
    /// thumbnail and size, and without styles or tags.
    fn new() -> (r: VideoBuilder)
        ensures
            r@.style == Seq::<crate::collections::model::Style>::empty(),
            r@.tags == Seq::<Seq<char>>::empty(),
    {
        let r = VideoBuilder {
            path: fake_text(MadeUp::FilePath),
            name: fake_text(MadeUp::Title),
            artist: fake_text(MadeUp::Name),
            song: fake_text(MadeUp::Title),
            style: Vec::new(),
            tags: Vec::new(),
            thumbnail: fake_text(MadeUp::FilePath),
            size_bytes: fake_number(),
        };
        assert(texts(r.tags@) =~= Seq::<Seq<char>>::empty());
        r
    }

    /// The video.
    pub fn build(self) -> (r: Video)
        ensures
            r@ == self@,
    {
        Video {
            path: self.path,
            name: self.name,
            artist: self.artist,
            song: self.song,
            style: self.style,
            tags: self.tags,
            thumbnail: self.thumbnail,
            size_bytes: self.size_bytes,
        }
    }
}

/// A builder of a collection without title or videos.
pub fn a_collection() -> (r: CollectionBuilder)
    ensures
        r.title() == Seq::<char>::empty(),
        r.videos() == Seq::<VideoView>::empty(),
{
    CollectionBuilder::new()
}

/// A builder of a video with made-up data and without styles or tags.
pub fn a_video() -> (r: VideoBuilder)
    ensures
        r@.style == Seq::<crate::collections::model::Style>::empty(),
        r@.tags == Seq::<Seq<char>>::empty(),
{
    VideoBuilder::new()
}

} // verus!
