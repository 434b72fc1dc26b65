//! Index documents: what of a video is searched, and how it is kept in the index.

use vstd::prelude::*;
use vstd::multiset::Multiset;
use vstd::seq_lib::*;
use crate::collections::model::{
    CollectionView,
    Style,
    Video,
    VideoView,
    distinct_paths,
    style_name,
};
use crate::search::engine::first_text_of;
use crate::text::{copy_text, join_spaced, joined, texts};

verus! {

/// An index document as contracts see it.
pub struct DocumentView {
    pub name: Seq<char>,
    pub artist: Seq<char>,
    pub song: Seq<char>,
    pub style: Seq<char>,
    pub tags: Seq<char>,
    pub path: Seq<char>,
}

/// What of a video is searched: its name, artist and song, its styles and its
/// tags, each list joined by spaces; and its path, which leads back to the video.
#[derive(Debug, PartialEq)]
pub struct IndexDocument {
    pub name: String,
    pub artist: String,
    pub song: String,
    pub style: String,
    pub tags: String,
    pub path: String,
}

impl View for IndexDocument {
    type V = DocumentView;

    open spec fn view(&self) -> DocumentView {
        DocumentView {
            name: self.name@,
            artist: self.artist@,
            song: self.song@,
            style: self.style@,
            tags: self.tags@,
            path: self.path@,
        }
    }
}

/// The names of `styles`, in order.
pub open spec fn style_names(styles: Seq<Style>) -> Seq<Seq<char>> {
    Seq::new(styles.len(), |i: int| style_name(styles[i]))
}

/// The index document of `video`.
pub open spec fn document_of(video: VideoView) -> DocumentView {
    DocumentView {
        name: video.name,
        artist: video.artist,
        song: video.song,
        style: joined(style_names(video.style)),
        tags: joined(video.tags),
        path: video.path,
    }
}

/// The index documents of `videos`, in order.
pub open spec fn documents_of(videos: Seq<VideoView>) -> Seq<DocumentView> {
    Seq::new(videos.len(), |i: int| document_of(videos[i]))
}

/// The videos of `collections`, collection after collection.
pub open spec fn all_videos(collections: Seq<CollectionView>) -> Seq<VideoView>
    decreases collections.len(),
{
    if collections.len() == 0 {
        Seq::empty()
    } else {
        all_videos(collections.drop_last()) + collections.last().videos
    }
}

impl IndexDocument {
    /// The index document of `video`.
    pub fn from_video(video: &Video) -> (r: Self)
        ensures
            r@ == document_of(video@),
    {
        let mut names: Vec<String> = Vec::new();
        let mut i: usize = 0;
        while i < video.style.len()
            invariant
                i <= video.style.len(),
                names.len() == i,
                forall|j: int| 0 <= j < i ==> names[j]@ == style_name(video.style[j]),
            decreases video.style.len() - i,
        {
            names.push(video.style[i].name().to_owned());
            i += 1;
        }
        assert(texts(names@) =~= style_names(video.style@));
        IndexDocument {
            name: copy_text(&video.name),
            artist: copy_text(&video.artist),
            song: copy_text(&video.song),
            style: join_spaced(&names),
            tags: join_spaced(&video.tags),
            path: copy_text(&video.path),
        }
    }
}

/// The handles of the six fields of the index.
#[derive(Clone, Copy, Debug, PartialEq, Eq)]
pub struct Fields {
    pub name: u32,
    pub artist: u32,
    pub song: u32,
    pub style: u32,
    pub tags: u32,
    pub path: u32,
}

/// A document as the index keeps it: its texts, each with the handle of its field.
pub type Stored = Seq<(u32, Seq<char>)>;

/// A bag of documents as the index keeps them.
pub type Bag = Multiset<Stored>;

/// The handle of the path differs from the five others.
pub open spec fn path_apart(fields: Fields) -> bool {
    &&& fields.path != fields.name
    &&& fields.path != fields.artist
    &&& fields.path != fields.song
    &&& fields.path != fields.style
    &&& fields.path != fields.tags
}

/// `document` as the index keeps it under `fields`.
pub open spec fn stored(document: DocumentView, fields: Fields) -> Stored {
    seq![
        (fields.name, document.name),
        (fields.artist, document.artist),
        (fields.song, document.song),
        (fields.style, document.style),
        (fields.tags, document.tags),
        (fields.path, document.path),
    ]
}

/// `videos` as the index keeps them under `fields`, in order.
pub open spec fn stored_each(videos: Seq<VideoView>, fields: Fields) -> Seq<Stored> {
    Seq::new(videos.len(), |i: int| stored(document_of(videos[i]), fields))
}

/// The videos of `collections` as the index keeps them under `fields`, in order.
pub open spec fn stored_videos(collections: Seq<CollectionView>, fields: Fields) -> Seq<Stored> {
    stored_each(all_videos(collections), fields)
}

/// The path that a kept document leads back to.
pub open spec fn join_key(document: Stored, fields: Fields) -> Option<Seq<char>> {
    first_text_of(document, fields.path)
}

/// A kept document leads back to the path of its video.
pub proof fn stored_leads_back(document: DocumentView, fields: Fields)
    requires
        path_apart(fields),
    ensures
        join_key(stored(document, fields), fields) == Some(document.path),
{
    reveal_with_fuel(first_text_of, 7);
    let s = stored(document, fields);
    let s1 = s.drop_first();
    let s2 = s1.drop_first();
    let s3 = s2.drop_first();
    let s4 = s3.drop_first();
    let s5 = s4.drop_first();
    assert(s5[0] == (fields.path, document.path));
}

/// Videos at distinct paths are kept as documents that differ, each from
/// every other, in the path they lead back to.
pub proof fn distinct_paths_keep_apart(videos: Seq<VideoView>, fields: Fields)
    requires
        distinct_paths(videos),
    ensures
        forall|i: int, j: int|
            0 <= i < j < videos.len() ==> (#[trigger] stored_each(videos, fields)[i])[5].1 != (
            #[trigger] stored_each(videos, fields)[j])[5].1,
        forall|i: int, j: int|
            0 <= i < j < videos.len() ==> #[trigger] stored_each(videos, fields)[i]
                != #[trigger] stored_each(videos, fields)[j],
{
    assert forall|i: int, j: int| 0 <= i < j < videos.len() implies (#[trigger] stored_each(
        videos,
        fields,
    )[i])[5].1 != (#[trigger] stored_each(videos, fields)[j])[5].1 by {
        assert(stored_each(videos, fields)[i][5].1 == videos[i].path);
        assert(stored_each(videos, fields)[j][5].1 == videos[j].path);
    }
}

/// What a rebuild leaves published where nothing waited in the writer when it
/// began: the videos of the store as the index keeps them, and nothing else.
pub proof fn settled_rebuild_is_exact(kept: Seq<Stored>, waiting: Bag, published: Bag)
    requires
        waiting == Multiset::<Stored>::empty(),
        exists|leftover: Bag| #[trigger]
            leftover.subset_of(waiting) && published == leftover.add(kept.to_multiset()),
    ensures
        published == kept.to_multiset(),
{
    let leftover = choose|leftover: Bag| #[trigger]
        leftover.subset_of(waiting) && published == leftover.add(kept.to_multiset());
    assert(leftover =~= Multiset::<Stored>::empty()) by {
        assert forall|d: Stored| leftover.count(d) == 0 by {
            assert(leftover.count(d) <= waiting.count(d));
        }
    }
    assert(leftover.add(kept.to_multiset()) =~= kept.to_multiset());
}

/// An index that holds exactly the videos of `collections` holds as many
/// documents as the collections hold videos: one for each video, which leads
/// back to the path of that video, and no other.
pub proof fn index_mirrors_store(collections: Seq<CollectionView>, fields: Fields)
    requires
        path_apart(fields),
    ensures
        stored_videos(collections, fields).to_multiset().len() == all_videos(collections).len(),
        forall|i: int|
            0 <= i < all_videos(collections).len() ==> {
                &&& stored_videos(collections, fields).to_multiset().contains(
                    #[trigger] stored(document_of(all_videos(collections)[i]), fields),
                )
                &&& join_key(stored(document_of(all_videos(collections)[i]), fields), fields)
                    == Some(all_videos(collections)[i].path)
            },
        forall|document: Stored| #[trigger]
            stored_videos(collections, fields).to_multiset().contains(document) ==> exists|i: int|
                0 <= i < all_videos(collections).len() && document == stored(
                    document_of(all_videos(collections)[i]),
                    fields,
                ),
{
    broadcast use group_to_multiset_ensures;

    let videos = all_videos(collections);
    let kept = stored_videos(collections, fields);
    assert forall|i: int| 0 <= i < videos.len() implies {
        &&& kept.to_multiset().contains(#[trigger] stored(document_of(videos[i]), fields))
        &&& join_key(stored(document_of(videos[i]), fields), fields) == Some(videos[i].path)
    } by {
        assert(kept[i] == stored(document_of(videos[i]), fields));
        assert(kept.contains(kept[i]));
        stored_leads_back(document_of(videos[i]), fields);
    }
    assert forall|document: Stored| #[trigger] kept.to_multiset().contains(document) implies exists|
        i: int,
    | 0 <= i < videos.len() && document == stored(document_of(videos[i]), fields) by {
        assert(kept.contains(document));
        let i = choose|i: int| 0 <= i < kept.len() && kept[i] == document;
        assert(document == stored(document_of(videos[i]), fields));
    }
}

} // verus!
