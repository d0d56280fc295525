//! Semantic search in indexed documents, and the documents themselves.
use crate::csi::number::Number;
use crate::csi::timestamp::Timestamp;
use serde_json::Value;
use vstd::prelude::*;

verus! {

/// What an [`IndexPath`] holds.
pub struct IndexPathView {
    pub namespace: Seq<char>,
    pub collection: Seq<char>,
    pub index: Seq<char>,
}

/// Which documents you want to search in, and which type of index should be used
#[derive(Clone, Debug)]
pub struct IndexPath {
    /// The namespace the collection belongs to
    pub namespace: String,
    /// The collection you want to search in
    pub collection: String,
    /// The search index you want to use for the collection
    pub index: String,
}

impl View for IndexPath {
    type V = IndexPathView;

    open spec fn view(&self) -> IndexPathView {
        IndexPathView {
            namespace: self.namespace@,
            collection: self.collection@,
            index: self.index@,
        }
    }
}

impl Default for IndexPath {
    fn default() -> (path: IndexPath)
        ensures
            path@ == (IndexPathView {
                namespace: Seq::empty(),
                collection: Seq::empty(),
                index: Seq::empty(),
            }),
    {
        IndexPath { namespace: String::new(), collection: String::new(), index: String::new() }
    }
}

impl IndexPath {
    /// The index `index` of the collection `collection` in `namespace`.
    pub fn new(namespace: &str, collection: &str, index: &str) -> (path: IndexPath)
        ensures
            path@ == (IndexPathView {
                namespace: namespace@,
                collection: collection@,
                index: index@,
            }),
    {
        IndexPath {
            namespace: namespace.to_owned(),
            collection: collection.to_owned(),
            index: index.to_owned(),
        }
    }
}

/// What a [`DocumentPath`] holds.
pub struct DocumentPathView {
    pub namespace: Seq<char>,
    pub collection: Seq<char>,
    pub name: Seq<char>,
}

/// Location of a document in the search engine
#[derive(Clone, Debug, PartialEq, Eq)]
pub struct DocumentPath {
    /// The namespace the collection belongs to
    pub namespace: String,
    /// The collection you want to search in
    pub collection: String,
    /// The name of the document
    pub name: String,
}

impl View for DocumentPath {
    type V = DocumentPathView;

    open spec fn view(&self) -> DocumentPathView {
        DocumentPathView {
            namespace: self.namespace@,
            collection: self.collection@,
            name: self.name@,
        }
    }
}

impl DocumentPath {
    /// The document `name` of the collection `collection` in `namespace`.
    pub fn new(namespace: &str, collection: &str, name: &str) -> (path: DocumentPath)
        ensures
            path@ == (DocumentPathView {
                namespace: namespace@,
                collection: collection@,
                name: name@,
            }),
    {
        DocumentPath {
            namespace: namespace.to_owned(),
            collection: collection.to_owned(),
            name: name.to_owned(),
        }
    }
}

/// What a [`MetadataFieldValue`] holds.
pub enum MetadataFieldValueView {
    String(Seq<char>),
    Integer(i64),
    Boolean(bool),
}

/// A value that a metadata field can be compared with for equality.
#[derive(Clone, Debug)]
pub enum MetadataFieldValue {
    String(String),
    Integer(i64),
    Boolean(bool),
}

impl View for MetadataFieldValue {
    type V = MetadataFieldValueView;

    open spec fn view(&self) -> MetadataFieldValueView {
        match self {
            MetadataFieldValue::String(text) => MetadataFieldValueView::String(text@),
            MetadataFieldValue::Integer(number) => MetadataFieldValueView::Integer(*number),
            MetadataFieldValue::Boolean(flag) => MetadataFieldValueView::Boolean(*flag),
        }
    }
}

/// What a [`MetadataFilterCondition`] holds.
pub enum MetadataFilterConditionView {
    GreaterThan(Number),
    GreaterThanOrEqualTo(Number),
    LessThan(Number),
    LessThanOrEqualTo(Number),
    After(Timestamp),
    AtOrAfter(Timestamp),
    Before(Timestamp),
    AtOrBefore(Timestamp),
    EqualTo(MetadataFieldValueView),
    IsNull,
}

/// What a metadata field is held against.
#[derive(Clone, Debug)]
pub enum MetadataFilterCondition {
    GreaterThan(Number),
    GreaterThanOrEqualTo(Number),
    LessThan(Number),
    LessThanOrEqualTo(Number),
    After(Timestamp),
    AtOrAfter(Timestamp),
    Before(Timestamp),
    AtOrBefore(Timestamp),
    EqualTo(MetadataFieldValue),
    IsNull,
}

impl View for MetadataFilterCondition {
    type V = MetadataFilterConditionView;

    open spec fn view(&self) -> MetadataFilterConditionView {
        match self {
            MetadataFilterCondition::GreaterThan(bound) => MetadataFilterConditionView::GreaterThan(
                *bound,
            ),
            MetadataFilterCondition::GreaterThanOrEqualTo(bound) => {
                MetadataFilterConditionView::GreaterThanOrEqualTo(*bound)
            },
            MetadataFilterCondition::LessThan(bound) => MetadataFilterConditionView::LessThan(
                *bound,
            ),
            MetadataFilterCondition::LessThanOrEqualTo(bound) => {
                MetadataFilterConditionView::LessThanOrEqualTo(*bound)
            },
            MetadataFilterCondition::After(instant) => MetadataFilterConditionView::After(
                *instant,
            ),
            MetadataFilterCondition::AtOrAfter(instant) => MetadataFilterConditionView::AtOrAfter(
                *instant,
            ),
            MetadataFilterCondition::Before(instant) => MetadataFilterConditionView::Before(
                *instant,
            ),
            MetadataFilterCondition::AtOrBefore(instant) => {
                MetadataFilterConditionView::AtOrBefore(*instant)
            },
            MetadataFilterCondition::EqualTo(value) => MetadataFilterConditionView::EqualTo(
                value@,
            ),
            MetadataFilterCondition::IsNull => MetadataFilterConditionView::IsNull,
        }
    }
}

/// What a [`MetadataFilter`] holds.
pub struct MetadataFilterView {
    pub field: Seq<char>,
    pub condition: MetadataFilterConditionView,
}

/// A condition on one field of a document's metadata.
#[derive(Clone, Debug)]
pub struct MetadataFilter {
    pub field: String,
    pub condition: MetadataFilterCondition,
}

impl View for MetadataFilter {
    type V = MetadataFilterView;

    open spec fn view(&self) -> MetadataFilterView {
        MetadataFilterView { field: self.field@, condition: self.condition@ }
    }
}

/// What a [`FilterCondition`] holds.
pub enum FilterConditionView {
    Metadata(MetadataFilterView),
}

/// A condition that a document meets or not.
#[derive(Clone, Debug)]
pub enum FilterCondition {
    Metadata(MetadataFilter),
}

impl View for FilterCondition {
    type V = FilterConditionView;

    open spec fn view(&self) -> FilterConditionView {
        match self {
            FilterCondition::Metadata(filter) => FilterConditionView::Metadata(filter@),
        }
    }
}

/// The conditions of `conditions`, in order.
pub open spec fn conditions_view(conditions: Seq<FilterCondition>) -> Seq<FilterConditionView> {
    conditions.map_values(|condition: FilterCondition| condition@)
}

/// What a [`SearchFilter`] holds.
pub enum SearchFilterView {
    Without(Seq<FilterConditionView>),
    WithOneOf(Seq<FilterConditionView>),
    With(Seq<FilterConditionView>),
}

/// Which documents a search looks at.
#[derive(Clone, Debug)]
pub enum SearchFilter {
    /// Leave out the documents that meet any of the conditions.
    Without(Vec<FilterCondition>),
    /// Keep the documents that meet at least one of the conditions.
    WithOneOf(Vec<FilterCondition>),
    /// Keep the documents that meet all of the conditions.
    With(Vec<FilterCondition>),
}

impl View for SearchFilter {
    type V = SearchFilterView;

    open spec fn view(&self) -> SearchFilterView {
        match self {
            SearchFilter::Without(conditions) => SearchFilterView::Without(
                conditions_view(conditions@),
            ),
            SearchFilter::WithOneOf(conditions) => SearchFilterView::WithOneOf(
                conditions_view(conditions@),
            ),
            SearchFilter::With(conditions) => SearchFilterView::With(conditions_view(conditions@)),
        }
    }
}

/// The filters of `filters`, in order.
pub open spec fn filters_view(filters: Seq<SearchFilter>) -> Seq<SearchFilterView> {
    filters.map_values(|filter: SearchFilter| filter@)
}

/// What a [`SearchRequest`] holds.
pub struct SearchRequestView {
    pub query: Seq<char>,
    pub index_path: IndexPathView,
    pub max_results: u32,
    pub min_score: Option<Number>,
    pub filters: Seq<SearchFilterView>,
}

/// A query against one index.
#[derive(Debug)]
pub struct SearchRequest {
    pub query: String,
    pub index_path: IndexPath,
    pub max_results: u32,
    pub min_score: Option<Number>,
    pub filters: Vec<SearchFilter>,
}

impl View for SearchRequest {
    type V = SearchRequestView;

    open spec fn view(&self) -> SearchRequestView {
        SearchRequestView {
            query: self.query@,
            index_path: self.index_path@,
            max_results: self.max_results,
            min_score: self.min_score,
            filters: filters_view(self.filters@),
        }
    }
}

impl SearchRequest {
    /// The request for the best match of `query` in `index_path`: one
    /// result, no minimal score, no filter.
    pub fn new(query: &str, index_path: IndexPath) -> (request: SearchRequest)
        ensures
            request@ == (SearchRequestView {
                query: query@,
                index_path: index_path@,
                max_results: 1,
                min_score: None,
                filters: Seq::empty(),
            }),
    {
        let request = SearchRequest {
            query: query.to_owned(),
            index_path,
            max_results: 1,
            min_score: None,
            filters: Vec::new(),
        };
        assert(filters_view(request.filters@) =~= Seq::empty());
        request
    }

    /// The same request with the filters replaced.
    #[must_use]
    pub fn with_filters(self, filters: Vec<SearchFilter>) -> (request: SearchRequest)
        ensures
            request@ == (SearchRequestView { filters: filters_view(filters@), ..self@ }),
    {
        let mut request = self;
        request.filters = filters;
        request
    }

    /// The same request with the number of results replaced.
    #[must_use]
    pub fn with_max_results(self, max_results: u32) -> (request: SearchRequest)
        ensures
            request@ == (SearchRequestView { max_results, ..self@ }),
    {
        let mut request = self;
        request.max_results = max_results;
        request
    }

    /// The same request with the minimal score replaced.
    #[must_use]
    pub fn with_min_score(self, min_score: Option<Number>) -> (request: SearchRequest)
        ensures
            request@ == (SearchRequestView { min_score, ..self@ }),
    {
        let mut request = self;
        request.min_score = min_score;
        request
    }
}

/// A place in a document.
#[derive(Clone, Copy, Debug, PartialEq, Eq)]
pub struct TextCursor {
    /// The index of the item in the document
    pub item: u32,
    /// The position of the cursor within the item
    pub position: u32,
}

/// What a [`SearchResult`] holds.
pub struct SearchResultView {
    pub document_path: DocumentPathView,
    pub content: Seq<char>,
    pub score: Number,
    pub start: TextCursor,
    pub end: TextCursor,
}

/// Result to a search query
#[derive(Clone, Debug, PartialEq)]
pub struct SearchResult {
    /// The path to the document that was found
    pub document_path: DocumentPath,
    /// The content of the document that was found
    pub content: String,
    /// How relevant the document is to the search query
    pub score: Number,
    /// Where the content starts in the document
    pub start: TextCursor,
    /// Where the content ends in the document
    pub end: TextCursor,
}

impl View for SearchResult {
    type V = SearchResultView;

    open spec fn view(&self) -> SearchResultView {
        SearchResultView {
            document_path: self.document_path@,
            content: self.content@,
            score: self.score,
            start: self.start,
            end: self.end,
        }
    }
}

/// The results of `results`, in order.
pub open spec fn results_view(results: Seq<SearchResult>) -> Seq<SearchResultView> {
    results.map_values(|result: SearchResult| result@)
}

/// The kinds of content that an index can be asked for.
#[derive(Clone, Copy, Debug)]
pub enum ModalityType {
    Text,
}

/// What a [`Modality`] holds.
pub enum ModalityView {
    Text { text: Seq<char> },
    Image,
}

/// One piece of a document: a text, or an image, of which only the place is
/// kept.
#[derive(Clone, Debug)]
pub enum Modality {
    Text { text: String },
    Image,
}

impl View for Modality {
    type V = ModalityView;

    open spec fn view(&self) -> ModalityView {
        match self {
            Modality::Text { text } => ModalityView::Text { text: text@ },
            Modality::Image => ModalityView::Image,
        }
    }
}

/// The pieces of `contents`, in order.
pub open spec fn contents_view(contents: Seq<Modality>) -> Seq<ModalityView> {
    contents.map_values(|modality: Modality| modality@)
}

/// What a [`Document`] holds.
pub struct DocumentView<Metadata> {
    pub path: DocumentPathView,
    pub contents: Seq<ModalityView>,
    pub metadata: Option<Metadata>,
}

/// A document of the index, with the metadata that was stored with it.
#[derive(Clone, Debug)]
pub struct Document<Metadata = Value> {
    pub path: DocumentPath,
    pub contents: Vec<Modality>,
    pub metadata: Option<Metadata>,
}

impl<Metadata> View for Document<Metadata> {
    type V = DocumentView<Metadata>;

    open spec fn view(&self) -> DocumentView<Metadata> {
        DocumentView {
            path: self.path@,
            contents: contents_view(self.contents@),
            metadata: self.metadata,
        }
    }
}

} // verus!
