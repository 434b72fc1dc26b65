//! The boundary to the full-text engine (tantivy). Everything here is
//! believed, not proved: each item names the function of the engine it stands
//! for and says what is claimed of it.
//!
//! A document is modelled by the texts it holds, each with the number of its
//! field, in the order in which they were added: `Seq<(u32, Seq<char>)>`. An
//! index writer is modelled by three bags of such documents: those a freshly
//! loaded reader observes (`published_documents`), those among them that the
//! next commit keeps (`retained_documents`), and those waiting for the next
//! commit (`queued_documents`).
//!
//! The wrappers are for this crate alone. Every field that it makes is a
//! text field kept with its document, and every value that it adds to a
//! document is a text: what is claimed of documents that are added,
//! committed and read back holds of such indexes and documents.

use vstd::prelude::*;
use vstd::multiset::Multiset;
use tantivy::schema::Value;

verus! {

/// The most characters that one text of a document may hold here. The engine
/// addresses the bytes of a document with 32 bits; sixteen texts of this
/// length stay far below that.
pub const TEXT_LIMIT: usize = 0x0100_0000;

/// The most texts that a document may hold here.
pub const TEXTS_LIMIT: usize = 16;

/// The most hits that may be asked of the engine at once here.
pub const LIMIT_CEILING: usize = 0x1_0000;

/// `tantivy::Index`: the handle of an index.
#[verifier::external_type_specification]
#[verifier::external_body]
pub struct ExIndex(tantivy::Index);

/// `tantivy::schema::SchemaBuilder`: the fields of an index in the making.
#[verifier::external_type_specification]
#[verifier::external_body]
pub struct ExSchemaBuilder(tantivy::schema::SchemaBuilder);

/// `tantivy::schema::TextOptions`: how a text field is kept.
#[verifier::external_type_specification]
#[verifier::external_body]
pub struct ExTextOptions(tantivy::schema::TextOptions);

/// `tantivy::TantivyDocument`: a document of the engine.
#[verifier::external_type_specification]
#[verifier::external_body]
pub struct ExTantivyDocument(tantivy::TantivyDocument);

/// `tantivy::TantivyError`: what the engine reports when it fails.
#[verifier::external_type_specification]
#[verifier::external_body]
pub struct ExTantivyError(tantivy::TantivyError);

/// `tantivy::query::QueryParserError`: what the engine reports of a query it cannot read.
#[verifier::external_type_specification]
#[verifier::external_body]
pub struct ExQueryParserError(tantivy::query::QueryParserError);

/// `tantivy::Searcher`: a fixed view of the documents of an index.
#[verifier::external_type_specification]
#[verifier::external_body]
pub struct ExSearcher(tantivy::Searcher);

/// Holds a `tantivy::IndexWriter`, the one writer of an index.
#[verifier::external_body]
pub struct WriterHandle {
    inner: tantivy::IndexWriter,
}

/// Holds a parsed query of the engine (`Box<dyn tantivy::query::Query>`).
#[verifier::external_body]
pub struct QueryHandle {
    inner: Box<dyn tantivy::query::Query>,
}

/// How much of each occurrence of a term the index records.
#[derive(Clone, Copy, Debug, PartialEq, Eq)]
pub enum RecordOption {
    Basic,
    WithFreqs,
    WithFreqsAndPositions,
}

/// The languages whose stemming this library can ask of the engine.
#[derive(Clone, Copy, Debug, PartialEq, Eq)]
pub enum StemLanguage {
    English,
    French,
    German,
    Italian,
    Portuguese,
    Spanish,
}

/// When a reader takes up what was committed after it was opened.
#[derive(Clone, Copy, Debug, PartialEq, Eq)]
pub enum ReloadMode {
    /// Only when it is told to.
    Manual,
    /// By itself, shortly after each commit.
    OnCommit,
}

/// How a text field is kept: whether its texts are kept with the document,
/// and, where the field is searched, the name of the tokenizer that reads
/// its texts and what the index records of each term.
pub struct TextSetting {
    pub stored: bool,
    pub indexing: Option<(Seq<char>, RecordOption)>,
}

/// How the options keep a text field.
pub uninterp spec fn text_setting(options: tantivy::schema::TextOptions) -> TextSetting;

/// The text fields added to a schema builder so far, in order: the name of
/// each and how it is kept. The number of a field is its place in this list.
pub uninterp spec fn builder_fields(builder: tantivy::schema::SchemaBuilder) -> Seq<
    (Seq<char>, TextSetting),
>;

/// The text fields of an index, in order: the name of each and how it is kept.
pub uninterp spec fn index_fields(index: tantivy::Index) -> Seq<(Seq<char>, TextSetting)>;

/// The tokenizers of an index that split on what is neither letter nor
/// digit, lower the case and stem: the name under which each is registered,
/// and the language in which it stems.
pub uninterp spec fn index_stemmers(index: tantivy::Index) -> Map<Seq<char>, StemLanguage>;

/// Whether one of `fields` has the name `name`.
pub open spec fn has_field(fields: Seq<(Seq<char>, TextSetting)>, name: Seq<char>) -> bool {
    exists|i: int| 0 <= i < fields.len() && (#[trigger] fields[i]).0 == name
}

/// The texts of a document, each with the number of its field, in the order
/// in which they were added.
pub uninterp spec fn document_texts(document: tantivy::TantivyDocument) -> Seq<(u32, Seq<char>)>;

/// The documents that a reader loaded now observes.
pub uninterp spec fn published_documents(writer: WriterHandle) -> Multiset<Seq<(u32, Seq<char>)>>;

/// The published documents that the next commit keeps.
pub uninterp spec fn retained_documents(writer: WriterHandle) -> Multiset<Seq<(u32, Seq<char>)>>;

/// The documents added since the last commit, which the next commit publishes.
pub uninterp spec fn queued_documents(writer: WriterHandle) -> Multiset<Seq<(u32, Seq<char>)>>;

/// The documents that a searcher observes.
pub uninterp spec fn searcher_documents(searcher: tantivy::Searcher) -> Multiset<
    Seq<(u32, Seq<char>)>,
>;

/// The query that the engine reads from `query` for an index, with `fields`
/// searched where the query names none.
pub uninterp spec fn parsed_query(index: tantivy::Index, fields: Seq<u32>, query: Seq<char>) -> QueryHandle;

/// The addresses of the at most `limit` documents of a searcher that match a
/// query best, the most relevant first.
pub uninterp spec fn ranked_hits(searcher: tantivy::Searcher, query: QueryHandle, limit: usize) -> Seq<
    (u32, u32),
>;

/// The texts of the document that a searcher holds at the address
/// (`segment`, `document`).
pub uninterp spec fn document_at(searcher: tantivy::Searcher, segment: u32, document: u32) -> Seq<
    (u32, Seq<char>),
>;

/// Whether the searcher holds a document at the address (`segment`, `document`).
pub uninterp spec fn searcher_holds(searcher: tantivy::Searcher, segment: u32, document: u32) -> bool;

/// No documents.
pub open spec fn no_documents() -> Multiset<Seq<(u32, Seq<char>)>> {
    Multiset::empty()
}

/// Whether the engine takes `name` as the name of a field: it is not empty
/// and does not begin with a hyphen.
pub open spec fn is_field_name(name: Seq<char>) -> bool {
    name.len() > 0 && name[0] != '-'
}

/// The first text that `texts` holds under `field`.
pub open spec fn first_text_of(texts: Seq<(u32, Seq<char>)>, field: u32) -> Option<Seq<char>>
    decreases texts.len(),
{
    if texts.len() == 0 {
        None
    } else if texts[0].0 == field {
        Some(texts[0].1)
    } else {
        first_text_of(texts.drop_first(), field)
    }
}

/// `Schema::builder`: a builder without fields.
#[verifier::external_body]
pub(crate) fn schema_builder() -> (builder: tantivy::schema::SchemaBuilder)
    ensures
        builder_fields(builder).len() == 0,
{
    tantivy::schema::Schema::builder()
}

/// `TextOptions::set_stored` on the default options: a text field that is
/// kept with its document and not searched. Options are made here only, so
/// every text field of an index is kept with its document, and a document
/// read back from the index holds the texts that it was added with.
#[verifier::external_body]
pub(crate) fn stored_text() -> (options: tantivy::schema::TextOptions)
    ensures
        text_setting(options) == (TextSetting { stored: true, indexing: None }),
{
    tantivy::schema::TextOptions::default().set_stored()
}

/// `TextOptions::set_indexing_options`: `options`, searched through the
/// tokenizer registered under `tokenizer`, with `record` recorded of each
/// term. Whether the texts are kept with the document stays as it was.
#[verifier::external_body]
pub(crate) fn indexed_text(
    options: tantivy::schema::TextOptions,
    tokenizer: &str,
    record: RecordOption,
) -> (indexed: tantivy::schema::TextOptions)
    ensures
        text_setting(indexed).stored == text_setting(options).stored,
        text_setting(indexed).indexing == Some((tokenizer@, record)),
{
    let record = match record {
        RecordOption::Basic => tantivy::schema::IndexRecordOption::Basic,
        RecordOption::WithFreqs => tantivy::schema::IndexRecordOption::WithFreqs,
        RecordOption::WithFreqsAndPositions => {
            tantivy::schema::IndexRecordOption::WithFreqsAndPositions
        },
    };
    options.set_indexing_options(
        tantivy::schema::TextFieldIndexing::default().set_tokenizer(tokenizer).set_index_option(
            record,
        ),
    )
}

/// `SchemaBuilder::add_text_field`: adds a text field that is kept as
/// `options` say, and gives its number, which is the number of fields added
/// before it. The engine panics on a name it does not take and on a name
/// added before.
#[verifier::external_body]
pub(crate) fn add_text_field(
    builder: &mut tantivy::schema::SchemaBuilder,
    name: &str,
    options: tantivy::schema::TextOptions,
) -> (field: u32)
    requires
        is_field_name(name@),
        !has_field(builder_fields(*old(builder)), name@),
    ensures
        field == builder_fields(*old(builder)).len(),
        builder_fields(*final(builder)) == builder_fields(*old(builder)).push(
            (name@, text_setting(options)),
        ),
{
    builder.add_text_field(name, options).field_id()
}

/// `Index::create_in_ram` on the schema that `SchemaBuilder::build` gives:
/// an index in memory with the fields of the builder.
#[verifier::external_body]
pub(crate) fn create_in_ram(builder: tantivy::schema::SchemaBuilder) -> (index: tantivy::Index)
    ensures
        index_fields(index) == builder_fields(builder),
{
    tantivy::Index::create_in_ram(builder.build())
}

/// `TokenizerManager::register` on the tokenizers of the index: registers
/// under `name` a tokenizer that splits on what is neither letter nor digit,
/// lowers the case and stems in `language`. The fields of the index stay.
#[verifier::external_body]
pub(crate) fn register_stemmer(index: &mut tantivy::Index, name: &str, language: StemLanguage)
    ensures
        index_fields(*final(index)) == index_fields(*old(index)),
        index_stemmers(*final(index)) == index_stemmers(*old(index)).insert(name@, language),
{
    let language = match language {
        StemLanguage::English => tantivy::tokenizer::Language::English,
        StemLanguage::French => tantivy::tokenizer::Language::French,
        StemLanguage::German => tantivy::tokenizer::Language::German,
        StemLanguage::Italian => tantivy::tokenizer::Language::Italian,
        StemLanguage::Portuguese => tantivy::tokenizer::Language::Portuguese,
        StemLanguage::Spanish => tantivy::tokenizer::Language::Spanish,
    };
    let analyzer = tantivy::tokenizer::TextAnalyzer::builder(
        tantivy::tokenizer::SimpleTokenizer::default(),
    ).filter(tantivy::tokenizer::LowerCaser).filter(tantivy::tokenizer::Stemmer::new(language));
    index.tokenizers().register(name, analyzer.build());
}

/// `Index::writer`: the writer of the index, with `memory_budget` bytes to
/// work in. Nothing waits in a new writer, and what is published stays until
/// told otherwise.
#[verifier::external_body]
pub(crate) fn create_writer(index: &tantivy::Index, memory_budget: usize) -> (r: Result<
    WriterHandle,
    tantivy::TantivyError,
>)
    ensures
        r matches Ok(writer) ==> queued_documents(writer) == no_documents(),
        r matches Ok(writer) ==> retained_documents(writer) == published_documents(writer),
{
    index.writer(memory_budget).map(|inner| WriterHandle { inner })
}

/// `IndexWriter::delete_all_documents`: the next commit keeps none of the
/// published documents. Of the documents that wait, those not yet written to
/// a segment still wait; no other document comes to wait.
#[verifier::external_body]
pub(crate) fn delete_all_documents(writer: &mut WriterHandle) -> (r: Result<
    u64,
    tantivy::TantivyError,
>)
    ensures
        retained_documents(*final(writer)) == no_documents(),
        queued_documents(*final(writer)).subset_of(queued_documents(*old(writer))),
{
    writer.inner.delete_all_documents()
}

/// `IndexWriter::commit`: where it succeeds, readers loaded afterwards
/// observe the documents that were retained and those that waited, and
/// nothing waits any more.
#[verifier::external_body]
pub(crate) fn commit(writer: &mut WriterHandle) -> (r: Result<u64, tantivy::TantivyError>)
    ensures
        r is Ok ==> published_documents(*final(writer)) == retained_documents(*old(writer)).add(
            queued_documents(*old(writer)),
        ),
        r is Ok ==> retained_documents(*final(writer)) == published_documents(*final(writer)),
        r is Ok ==> queued_documents(*final(writer)) == no_documents(),
{
    writer.inner.commit()
}

/// `IndexWriter::add_document`: where it succeeds, the document waits for
/// the next commit. What readers observe does not change.
#[verifier::external_body]
pub(crate) fn add_document(writer: &mut WriterHandle, document: tantivy::TantivyDocument) -> (r:
    Result<u64, tantivy::TantivyError>)
    ensures
        published_documents(*final(writer)) == published_documents(*old(writer)),
        retained_documents(*final(writer)) == retained_documents(*old(writer)),
        r is Ok ==> queued_documents(*final(writer)) == queued_documents(*old(writer)).insert(
            document_texts(document),
        ),
        r is Err ==> queued_documents(*final(writer)) == queued_documents(*old(writer)),
{
    writer.inner.add_document(document)
}

/// `TantivyDocument::default`: a document without texts.
#[verifier::external_body]
pub(crate) fn new_document() -> (document: tantivy::TantivyDocument)
    ensures
        document_texts(document).len() == 0,
{
    tantivy::TantivyDocument::default()
}

/// `TantivyDocument::add_text`: appends `text` under `field`. The engine
/// panics on a field number above 65535, and it addresses the bytes of a
/// document with 32 bits: texts and their number are bounded to stay within.
#[verifier::external_body]
pub(crate) fn add_text(document: &mut tantivy::TantivyDocument, field: u32, text: &str)
    requires
        field <= 0xffff,
        text@.len() <= TEXT_LIMIT,
        document_texts(*old(document)).len() < TEXTS_LIMIT,
        forall|i: int|
            0 <= i < document_texts(*old(document)).len() ==> (#[trigger] document_texts(
                *old(document),
            )[i]).1.len() <= TEXT_LIMIT,
    ensures
        document_texts(*final(document)) == document_texts(*old(document)).push((field, text@)),
{
    document.add_text(tantivy::schema::Field::from_field_id(field), text)
}

/// `IndexReader::searcher` on a reader of the writer's index that was built
/// with `IndexReaderBuilder::try_into` and then told to `reload`: a searcher
/// that observes what is published at this moment.
#[verifier::external_body]
pub(crate) fn open_searcher(writer: &WriterHandle, reload: ReloadMode) -> (r: Result<
    tantivy::Searcher,
    tantivy::TantivyError,
>)
    ensures
        r matches Ok(searcher) ==> searcher_documents(searcher) == published_documents(*writer),
{
    let policy = match reload {
        ReloadMode::Manual => tantivy::ReloadPolicy::Manual,
        ReloadMode::OnCommit => tantivy::ReloadPolicy::OnCommitWithDelay,
    };
    let reader = writer.inner.index().reader_builder().reload_policy(policy).try_into()?;
    reader.reload()?;
    Ok(reader.searcher())
}

/// `QueryParser::parse_query` on the parser that `QueryParser::for_index`
/// makes: `query` read in the engine's query language, with `fields` searched
/// where the query names none. What is read depends on the index, the fields
/// and the text alone. The engine panics on a field that the index does not
/// have.
#[verifier::external_body]
pub(crate) fn parse_query(index: &tantivy::Index, fields: &Vec<u32>, query: &str) -> (r: Result<
    QueryHandle,
    tantivy::query::QueryParserError,
>)
    requires
        forall|i: int| 0 <= i < fields.len() ==> fields[i] < index_fields(*index).len(),
    ensures
        r matches Ok(parsed) ==> parsed == parsed_query(*index, fields@, query@),
{
    let fields = fields.iter().map(|f| tantivy::schema::Field::from_field_id(*f)).collect();
    let parser = tantivy::query::QueryParser::for_index(index, fields);
    parser.parse_query(query).map(|inner| QueryHandle { inner })
}

/// `Searcher::search` with the collector `TopDocs::with_limit`: the
/// addresses of at most `limit` documents that match, the most relevant
/// first. Which documents match and how they rank is the engine's affair; it
/// depends on the searcher, the query and the limit alone.
/// The collector panics on a limit of 0, and it sets aside room for twice
/// the limit, so the limit is bounded by `LIMIT_CEILING`.
#[verifier::external_body]
pub(crate) fn top_documents(searcher: &tantivy::Searcher, query: &QueryHandle, limit: usize) -> (r:
    Result<Vec<(u32, u32)>, tantivy::TantivyError>)
    requires
        1 <= limit <= LIMIT_CEILING,
    ensures
        r matches Ok(found) ==> found@ == ranked_hits(*searcher, *query, limit),
        r matches Ok(found) ==> found.len() <= limit,
        r matches Ok(found) ==> forall|i: int|
            0 <= i < found.len() ==> searcher_holds(*searcher, (#[trigger] found[i]).0, found[i].1),
{
    let collector = tantivy::collector::TopDocs::with_limit(limit);
    searcher.search(&*query.inner, &collector).map(
        |found| found.into_iter().map(|(_, address)| (address.segment_ord, address.doc_id)).collect(),
    )
}

/// `Searcher::doc`: the document kept at an address, which is one of those
/// the searcher observes. The engine panics on an address it does not hold.
#[verifier::external_body]
pub(crate) fn stored_document(searcher: &tantivy::Searcher, segment: u32, document: u32) -> (r:
    Result<tantivy::TantivyDocument, tantivy::TantivyError>)
    requires
        searcher_holds(*searcher, segment, document),
    ensures
        r matches Ok(found) ==> document_texts(found) == document_at(*searcher, segment, document),
        r matches Ok(found) ==> searcher_documents(*searcher).contains(document_texts(found)),
{
    searcher.doc(tantivy::DocAddress::new(segment, document))
}

/// `TantivyDocument::get_first`, read as text: the first text that the
/// document holds under `field`.
#[verifier::external_body]
pub(crate) fn first_text(document: &tantivy::TantivyDocument, field: u32) -> (r: Option<String>)
    ensures
        crate::text::optional_text(r) == first_text_of(document_texts(*document), field),
{
    let value = document.get_first(tantivy::schema::Field::from_field_id(field));
    value.and_then(|v| v.as_str().map(String::from))
}

} // verus!
