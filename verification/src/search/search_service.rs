//! The search service and the indexer on tantivy that it is run with.

use vstd::prelude::*;
use vstd::multiset::Multiset;
use vstd::string::StrSliceExecFns;
use crate::collections::model::{Video, VideoView, video_views};
use crate::collections::store::CollectionRepository;
use crate::event_bus::{EventBus, EventBusManager, EventView};
use crate::search::document::{
    Bag,
    Fields,
    IndexDocument,
    Stored,
    all_videos,
    document_of,
    join_key,
    path_apart,
    stored,
    stored_videos,
};
use crate::search::engine::{
    RecordOption,
    ReloadMode,
    StemLanguage, TextSetting,
    WriterHandle,
    TEXT_LIMIT,
    add_document,
    add_text,
    add_text_field,
    builder_fields,
    commit,
    create_in_ram,
    create_writer,
    delete_all_documents,
    document_at,
    document_texts,
    first_text_of,
    parsed_query,
    ranked_hits,
    first_text,
    index_fields, index_stemmers,
    is_field_name,
    indexed_text,
    new_document,
    open_searcher,
    parse_query,
    published_documents,
    queued_documents,
    register_stemmer,
    retained_documents,
    schema_builder,
    searcher_documents,
    searcher_holds,
    stored_document,
    stored_text, text_setting,
    top_documents,
};
use crate::search::indexer::{
    EngineStep,
    Indexer,
    RESULT_LIMIT,
    from_published,
    rebuild_fails,
    rebuilt,
    searched,
};
use crate::search::selection::{
    announced,
    answer_view,
    flatten,
    guarded,
    hit_text,
    matched,
    rights_answer,
    select_hit,
    selected_events,
    selection_goes_on,
};

verus! {

/// The bytes that the writer of the index may work in.
pub const WRITER_MEMORY: usize = 50_000_000;

/// The text of the error for a video whose document the index cannot hold.
pub open spec fn text_too_long() -> Seq<char> {
    "text too long for the index"@
}

/// An indexer on tantivy: an index in memory with five searched fields and
/// the path, searched through a tokenizer that lowers the case and stems in
/// French.
pub struct TantivyIndexer {
    index: tantivy::Index,
    fields: Fields,
    writer: WriterHandle,
}

/// The names of the six fields are names that the engine takes, and no two
/// of them are the same.
proof fn field_names_differ()
    ensures
        is_field_name("name"@),
        is_field_name("artist"@),
        is_field_name("song"@),
        is_field_name("style"@),
        is_field_name("tags"@),
        is_field_name("path"@),
        "artist"@ != "name"@,
        "song"@ != "name"@,
        "song"@ != "artist"@,
        "style"@ != "name"@,
        "style"@ != "artist"@,
        "style"@ != "song"@,
        "tags"@ != "name"@,
        "tags"@ != "artist"@,
        "tags"@ != "song"@,
        "tags"@ != "style"@,
        "path"@ != "name"@,
        "path"@ != "artist"@,
        "path"@ != "song"@,
        "path"@ != "style"@,
        "path"@ != "tags"@,
{
    reveal_strlit("name");
    reveal_strlit("artist");
    reveal_strlit("song");
    reveal_strlit("style");
    reveal_strlit("tags");
    reveal_strlit("path");
    assert("name"@[0] == 'n' && "name"@.len() == 4);
    assert("artist"@[0] == 'a' && "artist"@.len() == 6);
    assert("song"@[0] == 's' && "song"@.len() == 4);
    assert("style"@[0] == 's' && "style"@.len() == 5);
    assert("tags"@[0] == 't' && "tags"@.len() == 4);
    assert("path"@[0] == 'p' && "path"@.len() == 4);
}

/// The options of a searched text field, kept with its document.
fn searched_text() -> (options: tantivy::schema::TextOptions)
    ensures
        text_setting(options) == searched_setting(),
{
    indexed_text(stored_text(), "fr_stem", RecordOption::WithFreqsAndPositions)
}

/// Whether no text of `document` is longer than the index can hold.
fn fits(document: &IndexDocument) -> (r: bool)
    ensures
        r == fits_index(document@),
{
    document.name.as_str().unicode_len() <= TEXT_LIMIT
        && document.artist.as_str().unicode_len() <= TEXT_LIMIT
        && document.song.as_str().unicode_len() <= TEXT_LIMIT
        && document.style.as_str().unicode_len() <= TEXT_LIMIT
        && document.tags.as_str().unicode_len() <= TEXT_LIMIT
        && document.path.as_str().unicode_len() <= TEXT_LIMIT
}

impl TantivyIndexer {
    /// Every field is one of the index, and the engine can address it.
    pub closed spec fn fields_in_index(&self) -> bool {
        let count = index_fields(self.index).len();
        &&& count <= 0x10000
        &&& self.fields.name < count
        &&& self.fields.artist < count
        &&& self.fields.song < count
        &&& self.fields.style < count
        &&& self.fields.tags < count
        &&& self.fields.path < count
        &&& path_apart(self.fields)
    }

    /// The fields of the index, in the order of their handles: the name of
    /// each and how it is kept.
    pub closed spec fn index_schema(&self) -> Seq<(Seq<char>, TextSetting)> {
        index_fields(self.index)
    }

    /// The handles of the five searched fields.
    fn searched_fields(&self) -> (r: Vec<u32>)
        ensures
            r@ == seq![
                self.fields.name,
                self.fields.artist,
                self.fields.song,
                self.fields.style,
                self.fields.tags,
            ],
    {
        let mut r: Vec<u32> = Vec::new();
        r.push(self.fields.name);
        r.push(self.fields.artist);
        r.push(self.fields.song);
        r.push(self.fields.style);
        r.push(self.fields.tags);
        assert(r@ =~= seq![
            self.fields.name,
            self.fields.artist,
            self.fields.song,
            self.fields.style,
            self.fields.tags,
        ]);
        r
    }
}

impl Indexer for TantivyIndexer {
    closed spec fn well_formed(&self) -> bool {
        self.fields_in_index()
    }

    closed spec fn fields(&self) -> Fields {
        self.fields
    }

    closed spec fn published(&self) -> Bag {
        published_documents(self.writer)
    }

    closed spec fn retained(&self) -> Bag {
        retained_documents(self.writer)
    }

    closed spec fn queued(&self) -> Bag {
        queued_documents(self.writer)
    }

    /// An index in memory with the fields `name`, `artist`, `song`, `style`
    /// and `tags`, searched through the tokenizer `fr_stem` and kept, and
    /// `path`, kept only; under `fr_stem` a tokenizer that lowers the case
    /// and stems in French; and a writer with `WRITER_MEMORY` bytes to work
    /// in. Whether the writer can be had is the engine's affair; where it
    /// cannot, the call fails with what the engine writes of its error.
    fn initialize() -> (r: Result<Self, String>)
        ensures
            r matches Ok(indexer) ==> indexer.index_schema() == index_layout(),
            r matches Ok(indexer) ==> indexer.stemmer("fr_stem"@) == Some(StemLanguage::French),
            r matches Ok(indexer) ==> indexer.fields() == (Fields {
                name: 0,
                artist: 1,
                song: 2,
                style: 3,
                tags: 4,
                path: 5,
            }),
            r matches Err(e) ==> engine_says(e@),
    {
        proof {
            field_names_differ();
        }
        let mut builder = schema_builder();
        let ghost none = builder_fields(builder);
        assert(none =~= index_layout().take(0));
        let name = add_text_field(&mut builder, "name", searched_text());
        let ghost one = builder_fields(builder);
        assert(one =~= index_layout().take(1));
        let artist = add_text_field(&mut builder, "artist", searched_text());
        let ghost two = builder_fields(builder);
        assert(two =~= index_layout().take(2));
        let song = add_text_field(&mut builder, "song", searched_text());
        let ghost three = builder_fields(builder);
        assert(three =~= index_layout().take(3));
        let style = add_text_field(&mut builder, "style", searched_text());
        let ghost four = builder_fields(builder);
        assert(four =~= index_layout().take(4));
        let tags = add_text_field(&mut builder, "tags", searched_text());
        let ghost five = builder_fields(builder);
        assert(five =~= index_layout().take(5));
        let path = add_text_field(&mut builder, "path", stored_text());
        assert(builder_fields(builder) =~= index_layout());
        let mut index = create_in_ram(builder);
        register_stemmer(&mut index, "fr_stem", StemLanguage::French);
        match create_writer(&index, WRITER_MEMORY) {
            Ok(writer) => Ok(
                TantivyIndexer { index, fields: Fields { name, artist, song, style, tags, path }, writer },
            ),
            Err(e) => Err(e.to_string()),
        }
    }

    /// A step of this indexer fails with what the engine writes of its
    /// error; the queueing of a document also because a text is too long
    /// for the index, and a search also with what the engine writes of a
    /// query that it cannot read. Whether a step fails depends on the
    /// machine and the moment.
    open spec fn fails_with(step: EngineStep, error: Seq<char>) -> bool {
        match step {
            EngineStep::Add => engine_says(error) || error == text_too_long(),
            EngineStep::Search => engine_says(error) || parser_says(error),
            _ => engine_says(error),
        }
    }

    closed spec fn finds(&self, query: Seq<char>, found: Seq<Option<Seq<char>>>) -> bool {
        exists|searcher: tantivy::Searcher|
            searcher_documents(searcher) == published_documents(self.writer) && found
                == #[trigger] self.hits_of(searcher, query)
    }

    /// Clears the index: tells the engine to delete every document and to
    /// commit. Whether either succeeds is the engine's affair; where one
    /// fails, the call fails with what the engine writes of the error of that
    /// step, and the second is not made after a failure of the first.
    fn retrieve_writer(&mut self) -> (r: Result<(), String>)
        ensures
            r matches Err(e) ==> engine_says(e@),
    {
        match delete_all_documents(&mut self.writer) {
            Ok(_) => {},
            Err(e) => {
                return Err(e.to_string());
            },
        }
        let ghost waiting = queued_documents(self.writer);
        match commit(&mut self.writer) {
            Ok(_) => {
                assert(published_documents(self.writer) =~= waiting);
                Ok(())
            },
            Err(e) => Err(e.to_string()),
        }
    }

    /// Queues the index document of `video`. A video with a text of more than
    /// `TEXT_LIMIT` characters is refused, and only such a video is refused
    /// by the library; a video that fits is handed to the engine, and the
    /// call fails only with what the engine writes of its error. Where the
    /// call fails, nothing is queued.
    fn index_video(&mut self, video: &Video) -> (r: Result<(), String>)
        ensures
            !fits_index(document_of(video@)) ==> r is Err && r->Err_0@ == text_too_long(),
            fits_index(document_of(video@)) ==> (r matches Err(e) ==> engine_says(e@)),
            r is Err ==> final(self).queued() == old(self).queued(),
    {
        let document = IndexDocument::from_video(video);
        if !fits(&document) {
            return Err("text too long for the index".to_owned());
        }
        let fields = self.fields;
        let mut kept = new_document();
        assert(document_texts(kept) =~= Seq::<(u32, Seq<char>)>::empty());
        add_text(&mut kept, fields.name, document.name.as_str());
        add_text(&mut kept, fields.artist, document.artist.as_str());
        add_text(&mut kept, fields.song, document.song.as_str());
        add_text(&mut kept, fields.style, document.style.as_str());
        add_text(&mut kept, fields.tags, document.tags.as_str());
        add_text(&mut kept, fields.path, document.path.as_str());
        assert(document_texts(kept) =~= stored(document@, fields));
        match add_document(&mut self.writer, kept) {
            Ok(_) => Ok(()),
            Err(e) => Err(e.to_string()),
        }
    }

    fn close(&mut self) -> (r: Result<(), String>)
        ensures
            r matches Err(e) ==> engine_says(e@),
    {
        match commit(&mut self.writer) {
            Ok(_) => Ok(()),
            Err(e) => Err(e.to_string()),
        }
    }

    /// Searches the five searched fields of the published documents for
    /// `query_str`, read in the query language of the engine, and takes the
    /// at most `RESULT_LIMIT` best hits. For each in turn it reads the path
    /// kept with the document and selects the video of the store at that
    /// path (see `select_hit`). A reader is opened for the call and told to
    /// reload, so that it observes what was last committed. A failure of the
    /// engine ends the call with what the engine writes of its error; a
    /// refusal of the rights ends it with their error.
    fn search<B: EventBus, R: CollectionRepository, F: Fn(&str) -> Result<(), String>>(
        &self,
        query_str: &str,
        bus_manager: &mut EventBusManager<B>,
        store: &R,
        apply_path_rights: Option<&F>,
    ) -> (r: Result<(), String>) {
        let ghost before = bus_manager.event_bus.published();
        let ghost pool = all_videos(store.contents());
        let ghost answers = |p: Seq<char>, a: Result<(), Seq<char>>|
            rights_answer(apply_path_rights, p, a);
        let ghost fails = |e: Seq<char>| Self::fails_with(EngineStep::Search, e);
        let ghost none: Seq<Option<Seq<char>>> = Seq::empty();
        proof {
            assert(none.take(0) =~= none);
            assert(before + selected_events(Seq::<VideoView>::empty().take(0)) =~= before);
            assert(announced(matched(none.take(0), pool), 0, before, before));
            assert(guarded(matched(none.take(0), pool), answers, 0, Ok(())));
            assert(from_published(none.take(0), self.published(), self.fields()));
        }
        let searcher = match open_searcher(&self.writer, ReloadMode::Manual) {
            Ok(searcher) => searcher,
            Err(e) => {
                let said = e.to_string();
                proof {
                    let ranked = self.finds(query_str@, none);
                    assert(searched(ranked, true, true, fails, matched(none.take(0), pool), answers, 0, Err(said@)));
                }
                return Err(said);
            },
        };
        let searched_fields = self.searched_fields();
        let query = match parse_query(&self.index, &searched_fields, query_str) {
            Ok(query) => query,
            Err(e) => {
                let said = e.to_string();
                proof {
                    let ranked = self.finds(query_str@, none);
                    assert(parser_says(said@));
                    assert(searched(ranked, true, true, fails, matched(none.take(0), pool), answers, 0, Err(said@)));
                }
                return Err(said);
            },
        };
        let top = match top_documents(&searcher, &query, RESULT_LIMIT) {
            Ok(top) => top,
            Err(e) => {
                let said = e.to_string();
                proof {
                    let ranked = self.finds(query_str@, none);
                    assert(searched(ranked, true, true, fails, matched(none.take(0), pool), answers, 0, Err(said@)));
                }
                return Err(said);
            },
        };
        let ghost found = paths_at(searcher, top@, self.fields.path);
        proof {
            assert(found == self.hits_of(searcher, query_str@));
            assert(self.finds(query_str@, found));
            assert(found.take(0) =~= none);
        }
        let collections = store.list();
        let videos = flatten(&collections);
        let mut i: usize = 0;
        while i < top.len()
            invariant
                i <= top.len() <= RESULT_LIMIT,
                self.well_formed(),
                found == paths_at(searcher, top@, self.fields.path),
                self.finds(query_str@, found),
                pool == all_videos(store.contents()),
                pool == video_views(videos@),
                before == old(bus_manager).event_bus.published(),
                answers == (|p: Seq<char>, a: Result<(), Seq<char>>|
                    rights_answer(apply_path_rights, p, a)),
                fails == (|e: Seq<char>| Self::fails_with(EngineStep::Search, e)),
                apply_path_rights matches Some(guard) ==> forall|p: &str| call_requires(*guard, (p,)),
                searcher_documents(searcher) == published_documents(self.writer),
                forall|j: int|
                    0 <= j < top.len() ==> searcher_holds(
                        searcher,
                        (#[trigger] top[j]).0,
                        top[j].1,
                    ),
                from_published(found.take(i as int), self.published(), self.fields()),
                announced(
                    matched(found.take(i as int), pool),
                    matched(found.take(i as int), pool).len() as int,
                    before,
                    bus_manager.event_bus.published(),
                ),
                guarded(
                    matched(found.take(i as int), pool),
                    answers,
                    matched(found.take(i as int), pool).len() as int,
                    Ok(()),
                ),
            decreases top.len() - i,
        {
            let ghost reached = found.take(i as int);
            let ghost middle = bus_manager.event_bus.published();
            let kept = match stored_document(&searcher, top[i].0, top[i].1) {
                Ok(kept) => kept,
                Err(e) => {
                    let said = e.to_string();
                    proof {
                        let k = matched(reached, pool).len() as int;
                        assert(searched(
                            self.finds(query_str@, found),
                            i == found.len(),
                            i == 0,
                            fails,
                            matched(reached, pool),
                            answers,
                            k,
                            Err(said@),
                        ));
                    }
                    return Err(said);
                },
            };
            let path = first_text(&kept, self.fields.path);
            let hit = match &path {
                Some(path) => Some(path.as_str()),
                None => None,
            };
            proof {
                let next = found.take(i + 1);
                assert(hit_text(hit) == found[i as int]);
                assert(next =~= reached.push(hit_text(hit)));
                assert forall|j: int| 0 <= j < next.len() implies exists|document: Stored|
                    self.published().contains(document) && join_key(document, self.fields())
                        == #[trigger] next[j] by {
                    if j < reached.len() {
                        assert(next[j] == reached[j]);
                    } else {
                        let document = document_texts(kept);
                        assert(self.published().contains(document) && join_key(
                            document,
                            self.fields(),
                        ) == next[j]);
                    }
                }
            }
            let answer = select_hit(hit, &videos, bus_manager, apply_path_rights);
            proof {
                selection_goes_on(
                    reached,
                    hit_text(hit),
                    pool,
                    answers,
                    before,
                    middle,
                    bus_manager.event_bus.published(),
                    answer_view(answer),
                );
            }
            match answer {
                Ok(_) => {},
                Err(e) => {
                    proof {
                        let k = matched(reached, pool).len() as int;
                        assert(searched(
                            self.finds(query_str@, found),
                            i + 1 == found.len(),
                            false,
                            fails,
                            matched(found.take(i + 1), pool),
                            answers,
                            k,
                            Err(e@),
                        ));
                    }
                    return Err(e);
                },
            }
            i += 1;
        }
        proof {
            let all = matched(found.take(i as int), pool);
            assert(searched(
                self.finds(query_str@, found),
                true,
                i == 0,
                fails,
                all,
                answers,
                all.len() as int,
                Ok(()),
            ));
        }
        Ok(())
    }
}


/// The facade of search: an indexer, and the bus on which selected videos
/// are announced once it was handed over.
pub struct SearchService<I: Indexer, B: EventBus> {
    pub bus_manager: Option<EventBusManager<B>>,
    pub indexer: I,
}

/// What has been published on the bus of a service; nothing where it has none.
pub open spec fn service_events<B: EventBus>(bus_manager: Option<EventBusManager<B>>) -> Seq<
    EventView,
> {
    match bus_manager {
        Some(manager) => manager.event_bus.published(),
        None => Seq::empty(),
    }
}

impl<I: Indexer, B: EventBus> SearchService<I, B> {
    /// A service on `indexer`, without a bus yet.
    pub fn new(indexer: I) -> (r: Self)
        ensures
            r.bus_manager is None,
            r.indexer == indexer,
    {
        SearchService { bus_manager: None, indexer }
    }

    /// Hands the service the bus to announce on.
    pub fn initialize(&mut self, bus_manager: EventBusManager<B>)
        ensures
            final(self).bus_manager == Some(bus_manager),
            final(self).indexer == old(self).indexer,
    {
        self.bus_manager = Some(bus_manager);
    }

    /// Rebuilds the index from the store (see `Indexer::index_all_videos`).
    pub fn index_all_videos<R: CollectionRepository>(&mut self, store: &R) -> (r: Result<
        (),
        String,
    >)
        requires
            old(self).indexer.well_formed(),
        ensures
            final(self).bus_manager == old(self).bus_manager,
            final(self).indexer.well_formed(),
            final(self).indexer.fields() == old(self).indexer.fields(),
            r is Ok ==> {
                &&& rebuilt(
                    stored_videos(store.contents(), old(self).indexer.fields()),
                    old(self).indexer.queued(),
                    final(self).indexer.published(),
                )
                &&& final(self).indexer.retained() == final(self).indexer.published()
                &&& final(self).indexer.queued() == Multiset::<Stored>::empty()
            },
            r matches Err(e) ==> rebuild_fails(|step: EngineStep, e: Seq<char>| I::fails_with(step, e), e@),
    {
        self.indexer.index_all_videos(store)
    }

    /// Searches for `query_str` and announces the selected videos on the bus
    /// (see `Indexer::search`). A service without a bus does nothing.
    pub fn search<R: CollectionRepository, F: Fn(&str) -> Result<(), String>>(
        &mut self,
        query_str: &str,
        allow_path: Option<&F>,
        store: &R,
    ) -> (r: Result<(), String>)
        requires
            old(self).indexer.well_formed(),
            allow_path matches Some(guard) ==> forall|p: &str| call_requires(*guard, (p,)),
        ensures
            final(self).indexer == old(self).indexer,
            old(self).bus_manager is None ==> r is Ok && final(self).bus_manager is None,
            old(self).bus_manager is Some ==> final(self).bus_manager is Some && exists|
                found: Seq<Option<Seq<char>>>,
                n: int,
                k: int,
            |
                {
                    &&& 0 <= n <= found.len() <= RESULT_LIMIT
                    &&& from_published(
                        found.take(n),
                        old(self).indexer.published(),
                        old(self).indexer.fields(),
                    )
                    &&& #[trigger] announced(
                        matched(found.take(n), all_videos(store.contents())),
                        k,
                        service_events(old(self).bus_manager),
                        service_events(final(self).bus_manager),
                    )
                    &&& searched(
                        old(self).indexer.finds(query_str@, found),
                        n == found.len(),
                        n == 0,
                        |e: Seq<char>| I::fails_with(EngineStep::Search, e),
                        matched(found.take(n), all_videos(store.contents())),
                        |p: Seq<char>, a: Result<(), Seq<char>>| rights_answer(allow_path, p, a),
                        k,
                        answer_view(r),
                    )
                },
    {
        match self.bus_manager.take() {
            Some(mut bus_manager) => {
                let ghost before = bus_manager.event_bus.published();
                let r = self.indexer.search(query_str, &mut bus_manager, store, allow_path);
                proof {
                    let pool = all_videos(store.contents());
                    let answers = |p: Seq<char>, a: Result<(), Seq<char>>|
                        rights_answer(allow_path, p, a);
                    let fails = |e: Seq<char>| I::fails_with(EngineStep::Search, e);
                    let (found, n, k) = choose|found: Seq<Option<Seq<char>>>, n: int, k: int|
                        {
                            &&& 0 <= n <= found.len() <= RESULT_LIMIT
                            &&& from_published(
                                found.take(n),
                                self.indexer.published(),
                                self.indexer.fields(),
                            )
                            &&& #[trigger] announced(
                                matched(found.take(n), pool),
                                k,
                                before,
                                bus_manager.event_bus.published(),
                            )
                            &&& searched(
                                self.indexer.finds(query_str@, found),
                                n == found.len(),
                                n == 0,
                                fails,
                                matched(found.take(n), pool),
                                answers,
                                k,
                                answer_view(r),
                            )
                        };
                    assert(announced(
                        matched(found.take(n), pool),
                        k,
                        service_events(old(self).bus_manager),
                        service_events(Some(bus_manager)),
                    ));
                }
                self.bus_manager = Some(bus_manager);
                r
            },
            None => Ok(()),
        }
    }
}

/// Whether `text` is what the engine writes of one of its errors.
pub open spec fn engine_says(text: Seq<char>) -> bool {
    exists|error: tantivy::TantivyError, said: String|
        said@ == text && #[trigger] vstd::string::to_string_from_display_ensures::<
            tantivy::TantivyError,
        >(&error, said)
}

/// How each of the five searched fields is kept: with its document, read
/// by the tokenizer registered under `fr_stem`, with the frequencies and the
/// positions of each term recorded.
pub open spec fn searched_setting() -> TextSetting {
    TextSetting { stored: true, indexing: Some(("fr_stem"@, RecordOption::WithFreqsAndPositions)) }
}

/// How the path is kept: with its document, and not searched.
pub open spec fn kept_setting() -> TextSetting {
    TextSetting { stored: true, indexing: None }
}

/// The fields of the index, in the order of their handles: five searched
/// fields, and the path, which is kept only.
pub open spec fn index_layout() -> Seq<(Seq<char>, TextSetting)> {
    seq![
        ("name"@, searched_setting()),
        ("artist"@, searched_setting()),
        ("song"@, searched_setting()),
        ("style"@, searched_setting()),
        ("tags"@, searched_setting()),
        ("path"@, kept_setting()),
    ]
}

impl TantivyIndexer {
    /// The language in which the tokenizer registered under `name` stems,
    /// where one that lowers the case and stems is registered under it.
    pub closed spec fn stemmer(&self, name: Seq<char>) -> Option<StemLanguage> {
        if index_stemmers(self.index).dom().contains(name) {
            Some(index_stemmers(self.index)[name])
        } else {
            None
        }
    }
}

/// Whether the index can hold `document`: none of its texts has more than
/// `TEXT_LIMIT` characters.
pub open spec fn fits_index(document: crate::search::document::DocumentView) -> bool {
    &&& document.name.len() <= TEXT_LIMIT
    &&& document.artist.len() <= TEXT_LIMIT
    &&& document.song.len() <= TEXT_LIMIT
    &&& document.style.len() <= TEXT_LIMIT
    &&& document.tags.len() <= TEXT_LIMIT
    &&& document.path.len() <= TEXT_LIMIT
}

/// Whether `text` is what the engine writes of a query that it cannot read.
pub open spec fn parser_says(text: Seq<char>) -> bool {
    exists|error: tantivy::query::QueryParserError, said: String|
        said@ == text && #[trigger] vstd::string::to_string_from_display_ensures::<
            tantivy::query::QueryParserError,
        >(&error, said)
}

/// The paths kept with the documents that a searcher holds at `addresses`,
/// in order: of each document, the first text under the field `path`.
pub open spec fn paths_at(
    searcher: tantivy::Searcher,
    addresses: Seq<(u32, u32)>,
    path: u32,
) -> Seq<Option<Seq<char>>> {
    Seq::new(
        addresses.len(),
        |i: int| first_text_of(document_at(searcher, addresses[i].0, addresses[i].1), path),
    )
}

impl TantivyIndexer {
    /// The hits that `searcher` gives for `query`: the paths kept with the
    /// at most `RESULT_LIMIT` documents that the engine ranks best for the
    /// query as it reads it, with the five searched fields searched where
    /// the query names none; best first.
    pub closed spec fn hits_of(&self, searcher: tantivy::Searcher, query: Seq<char>) -> Seq<
        Option<Seq<char>>,
    > {
        paths_at(
            searcher,
            ranked_hits(
                searcher,
                parsed_query(
                    self.index,
                    seq![
                        self.fields.name,
                        self.fields.artist,
                        self.fields.song,
                        self.fields.style,
                        self.fields.tags,
                    ],
                    query,
                ),
                RESULT_LIMIT,
            ),
            self.fields.path,
        )
    }
}

} // verus!
