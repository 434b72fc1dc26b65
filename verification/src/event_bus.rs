//! The events of the library and the bus that carries them to one subscriber.

use vstd::prelude::*;
use crate::collections::model::{Style, Video, VideoView, video_views};
use crate::text::{copy_text, texts};

verus! {

/// The type of the event that announces a new collection.
pub open spec fn collection_created_type() -> Seq<char> {
    "collection:created"@
}

/// The type of the event that announces a video added to a collection.
pub open spec fn video_added_type() -> Seq<char> {
    "video:added"@
}

/// The type of the event that announces a video selected by a search.
pub open spec fn video_selected_type() -> Seq<char> {
    "video:selected"@
}

/// What an event carries, as contracts see it.
pub enum EventDataView {
    CollectionCreated { collection_id: u128, title: Seq<char>, videos: Seq<VideoView> },
    VideoAdded { collection_id: u128, video: VideoView },
    VideoSelected { video: VideoView },
}

/// An event as contracts see it.
pub struct EventView {
    pub event_type: Seq<char>,
    pub data: EventDataView,
}

/// The event that announces the collection `collection_id`, not yet filled.
pub open spec fn collection_created(collection_id: u128, title: Seq<char>) -> EventView {
    EventView {
        event_type: collection_created_type(),
        data: EventDataView::CollectionCreated { collection_id, title, videos: Seq::empty() },
    }
}

/// The event that announces `video` as added to the collection `collection_id`.
pub open spec fn video_added(collection_id: u128, video: VideoView) -> EventView {
    EventView {
        event_type: video_added_type(),
        data: EventDataView::VideoAdded { collection_id, video },
    }
}

/// The event that announces `video` as selected by a search.
pub open spec fn video_selected(video: VideoView) -> EventView {
    EventView { event_type: video_selected_type(), data: EventDataView::VideoSelected { video } }
}

/// What the event `collection:created` carries.
#[derive(Clone, Debug, PartialEq)]
pub struct CollectionCreated {
    pub collection_id: u128,
    pub title: String,
    pub videos: Vec<Video>,
}

/// What the event `video:added` carries: the collection and every field of the video.
#[derive(Clone, Debug, PartialEq)]
pub struct VideoAddedToCollection {
    pub collection_id: u128,
    pub path: String,
    pub name: String,
    pub artist: String,
    pub song: String,
    pub style: Vec<Style>,
    pub tags: Vec<String>,
    pub thumbnail: String,
    pub size_bytes: u64,
}

impl VideoAddedToCollection {
    /// The video that was added.
    pub open spec fn video(&self) -> VideoView {
        VideoView {
            path: self.path@,
            name: self.name@,
            artist: self.artist@,
            song: self.song@,
            style: self.style@,
            tags: texts(self.tags@),
            thumbnail: self.thumbnail@,
            size_bytes: self.size_bytes,
        }
    }
}

/// What an event carries.
#[derive(Clone, Debug, PartialEq)]
pub enum EventData {
    CollectionCreated(CollectionCreated),
    VideoAdded(VideoAddedToCollection),
    VideoSelected(Video),
}

impl View for EventData {
    type V = EventDataView;

    open spec fn view(&self) -> EventDataView {
        match self {
            EventData::CollectionCreated(c) => EventDataView::CollectionCreated {
                collection_id: c.collection_id,
                title: c.title@,
                videos: video_views(c.videos@),
            },
            EventData::VideoAdded(a) => EventDataView::VideoAdded {
                collection_id: a.collection_id,
                video: a.video(),
            },
            EventData::VideoSelected(v) => EventDataView::VideoSelected { video: v@ },
        }
    }
}

/// Something that happened, named by its type.
#[derive(Clone, Debug, PartialEq)]
pub struct Event {
    pub data: EventData,
    pub event_type: String,
}

impl View for Event {
    type V = EventView;

    open spec fn view(&self) -> EventView {
        EventView { event_type: self.event_type@, data: self.data@ }
    }
}

impl Event {
    /// The event that announces the collection `collection_id`, not yet filled.
    pub fn collection_created(collection_id: u128, title: &String) -> (r: Self)
        ensures
            r@ == collection_created(collection_id, title@),
    {
        let videos: Vec<Video> = Vec::new();
        assert(video_views(videos@) =~= Seq::empty());
        Event {
            data: EventData::CollectionCreated(
                CollectionCreated { collection_id, title: copy_text(title), videos },
            ),
            event_type: "collection:created".to_owned(),
        }
    }

    /// The event that announces `video` as added to the collection `collection_id`.
    pub fn video_added(collection_id: u128, video: &Video) -> (r: Self)
        ensures
            r@ == video_added(collection_id, video@),
    {
        let copy = video.clone();
        Event {
            data: EventData::VideoAdded(
                VideoAddedToCollection {
                    collection_id,
                    path: copy.path,
                    name: copy.name,
                    artist: copy.artist,
                    song: copy.song,
                    style: copy.style,
                    tags: copy.tags,
                    thumbnail: copy.thumbnail,
                    size_bytes: copy.size_bytes,
                },
            ),
            event_type: "video:added".to_owned(),
        }
    }

    /// The event that announces `video` as selected by a search.
    pub fn video_selected(video: &Video) -> (r: Self)
        ensures
            r@ == video_selected(video@),
    {
        Event { data: EventData::VideoSelected(video.clone()), event_type: "video:selected".to_owned() }
    }
}

/// The views of `events`, in order.
pub open spec fn event_views(events: Seq<Event>) -> Seq<EventView> {
    Seq::new(events.len(), |i: int| events[i]@)
}

/// The one subscriber to which events are handed, each once, in order.
pub trait EventBus {
    /// Every event handed to `publish` so far, oldest first. Of a bus that
    /// does not say what it was handed, this is not known.
    open spec fn published(&self) -> Seq<EventView> {
        arbitrary()
    }

    /// Hands `event` to the subscriber. Nothing is learnt of its delivery.
    fn publish(&mut self, event: Event)
        ensures
            final(self).published() == old(self).published().push(event@),
    ;
}

/// Holds the bus that the services publish on.
pub struct EventBusManager<B: EventBus> {
    pub event_bus: B,
}

impl<B: EventBus> EventBusManager<B> {
    /// A manager of `event_bus`.
    pub fn new(event_bus: B) -> (r: Self)
        ensures
            r.event_bus == event_bus,
    {
        EventBusManager { event_bus }
    }
}

/// A bus that keeps what it is handed.
pub struct MemoryEventBus {
    pub events: Vec<Event>,
}

impl MemoryEventBus {
    /// A bus that was handed nothing yet.
    pub fn new() -> (r: Self)
        ensures
            r.published() == Seq::<EventView>::empty(),
    {
        let r = MemoryEventBus { events: Vec::new() };
        assert(event_views(r.events@) =~= Seq::<EventView>::empty());
        r
    }
}

impl EventBus for MemoryEventBus {
    open spec fn published(&self) -> Seq<EventView> {
        event_views(self.events@)
    }

    fn publish(&mut self, event: Event) {
        self.events.push(event);
        assert(event_views(self.events@) =~= event_views(old(self).events@).push(event@));
    }
}

} // verus!
