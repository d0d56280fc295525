//! Search and documents as the host takes and gives them.
use crate::bindings::batch::map_each;
use crate::bindings::json::{json_parsed, parse_value};
use crate::csi::document_index;
use crate::csi::document_index::{
    conditions_view, contents_view, filters_view, results_view, DocumentPathView, DocumentView,
    FilterConditionView, IndexPathView, MetadataFieldValueView, MetadataFilterConditionView,
    MetadataFilterView, ModalityView, SearchFilterView, SearchRequestView, SearchResultView,
};
use crate::csi::number::Number;
use crate::csi::timestamp::timestamp_text;
use serde_json::Value;
use vstd::prelude::*;
use vstd::std_specs::convert::{FromSpec, FromSpecImpl, TryFromSpecImpl};

verus! {

/// An index path at the host boundary.
#[derive(Clone, Debug, PartialEq)]
pub struct IndexPath {
    pub namespace: String,
    pub collection: String,
    pub index: String,
}

impl View for IndexPath {
    type V = IndexPathView;

    open spec fn view(&self) -> IndexPathView {
        IndexPathView {
            namespace: self.namespace@,
            collection: self.collection@,
            index: self.index@,
        }
    }
}

impl FromSpecImpl<document_index::IndexPath> for IndexPath {
    open spec fn obeys_from_spec() -> bool {
        true
    }

    open spec fn from_spec(value: document_index::IndexPath) -> IndexPath {
        IndexPath { namespace: value.namespace, collection: value.collection, index: value.index }
    }
}

impl From<document_index::IndexPath> for IndexPath {
    /// The same path, as the host takes it.
    fn from(value: document_index::IndexPath) -> (wire: IndexPath)
        ensures
            wire@ == value@,
    {
        let document_index::IndexPath { namespace, collection, index } = value;
        IndexPath { namespace, collection, index }
    }
}

/// A document path at the host boundary.
#[derive(Clone, Debug, PartialEq)]
pub struct DocumentPath {
    pub namespace: String,
    pub collection: String,
    pub name: String,
}

impl View for DocumentPath {
    type V = DocumentPathView;

    open spec fn view(&self) -> DocumentPathView {
        DocumentPathView {
            namespace: self.namespace@,
            collection: self.collection@,
            name: self.name@,
        }
    }
}

impl FromSpecImpl<DocumentPath> for document_index::DocumentPath {
    open spec fn obeys_from_spec() -> bool {
        true
    }

    open spec fn from_spec(value: DocumentPath) -> document_index::DocumentPath {
        document_index::DocumentPath {
            namespace: value.namespace,
            collection: value.collection,
            name: value.name,
        }
    }
}

impl From<DocumentPath> for document_index::DocumentPath {
    /// The same path, as the skill takes it.
    fn from(value: DocumentPath) -> (path: document_index::DocumentPath)
        ensures
            path@ == value@,
    {
        let DocumentPath { namespace, collection, name } = value;
        document_index::DocumentPath { namespace, collection, name }
    }
}

impl FromSpecImpl<document_index::DocumentPath> for DocumentPath {
    open spec fn obeys_from_spec() -> bool {
        true
    }

    open spec fn from_spec(value: document_index::DocumentPath) -> DocumentPath {
        DocumentPath { namespace: value.namespace, collection: value.collection, name: value.name }
    }
}

impl From<document_index::DocumentPath> for DocumentPath {
    /// The same path, as the host takes it.
    fn from(value: document_index::DocumentPath) -> (wire: DocumentPath)
        ensures
            wire@ == value@,
    {
        let document_index::DocumentPath { namespace, collection, name } = value;
        DocumentPath { namespace, collection, name }
    }
}

/// What a [`MetadataFieldValue`] of the host boundary holds.
pub enum WireFieldValueView {
    StringType(Seq<char>),
    IntegerType(i64),
    BooleanType(bool),
}

/// A value to compare a metadata field with, at the host boundary. The
/// variant says of which type the value is.
#[derive(Clone, Debug, PartialEq)]
pub enum MetadataFieldValue {
    StringType(String),
    IntegerType(i64),
    BooleanType(bool),
}

impl View for MetadataFieldValue {
    type V = WireFieldValueView;

    open spec fn view(&self) -> WireFieldValueView {
        match self {
            MetadataFieldValue::StringType(text) => WireFieldValueView::StringType(text@),
            MetadataFieldValue::IntegerType(number) => WireFieldValueView::IntegerType(*number),
            MetadataFieldValue::BooleanType(flag) => WireFieldValueView::BooleanType(*flag),
        }
    }
}

/// The value that the host gets for `value`: the same value under the
/// variant of its type.
pub open spec fn wire_field_value(value: MetadataFieldValueView) -> WireFieldValueView {
    match value {
        MetadataFieldValueView::String(text) => WireFieldValueView::StringType(text),
        MetadataFieldValueView::Integer(number) => WireFieldValueView::IntegerType(number),
        MetadataFieldValueView::Boolean(flag) => WireFieldValueView::BooleanType(flag),
    }
}

impl FromSpecImpl<document_index::MetadataFieldValue> for MetadataFieldValue {
    open spec fn obeys_from_spec() -> bool {
        true
    }

    open spec fn from_spec(value: document_index::MetadataFieldValue) -> MetadataFieldValue {
        match value {
            document_index::MetadataFieldValue::String(text) => MetadataFieldValue::StringType(
                text,
            ),
            document_index::MetadataFieldValue::Integer(number) => MetadataFieldValue::IntegerType(
                number,
            ),
            document_index::MetadataFieldValue::Boolean(flag) => MetadataFieldValue::BooleanType(
                flag,
            ),
        }
    }
}

impl From<document_index::MetadataFieldValue> for MetadataFieldValue {
    /// The same value, under the variant of its type.
    fn from(value: document_index::MetadataFieldValue) -> (wire: MetadataFieldValue)
        ensures
            wire@ == wire_field_value(value@),
    {
        match value {
            document_index::MetadataFieldValue::String(text) => MetadataFieldValue::StringType(
                text,
            ),
            document_index::MetadataFieldValue::Integer(number) => MetadataFieldValue::IntegerType(
                number,
            ),
            document_index::MetadataFieldValue::Boolean(flag) => MetadataFieldValue::BooleanType(
                flag,
            ),
        }
    }
}

/// What a [`MetadataFilterCondition`] of the host boundary holds.
pub enum WireConditionView {
    GreaterThan(Number),
    GreaterThanOrEqualTo(Number),
    LessThan(Number),
    LessThanOrEqualTo(Number),
    After(Seq<char>),
    AtOrAfter(Seq<char>),
    Before(Seq<char>),
    AtOrBefore(Seq<char>),
    EqualTo(WireFieldValueView),
    IsNull,
}

/// What a metadata field is held against, at the host boundary. Instants are
/// there as text.
#[derive(Clone, Debug, PartialEq)]
pub enum MetadataFilterCondition {
    GreaterThan(Number),
    GreaterThanOrEqualTo(Number),
    LessThan(Number),
    LessThanOrEqualTo(Number),
    After(String),
    AtOrAfter(String),
    Before(String),
    AtOrBefore(String),
    EqualTo(MetadataFieldValue),
    IsNull,
}

impl View for MetadataFilterCondition {
    type V = WireConditionView;

    open spec fn view(&self) -> WireConditionView {
        match self {
            MetadataFilterCondition::GreaterThan(bound) => WireConditionView::GreaterThan(*bound),
            MetadataFilterCondition::GreaterThanOrEqualTo(bound) => {
                WireConditionView::GreaterThanOrEqualTo(*bound)
            },
            MetadataFilterCondition::LessThan(bound) => WireConditionView::LessThan(*bound),
            MetadataFilterCondition::LessThanOrEqualTo(bound) => {
                WireConditionView::LessThanOrEqualTo(*bound)
            },
            MetadataFilterCondition::After(instant) => WireConditionView::After(instant@),
            MetadataFilterCondition::AtOrAfter(instant) => WireConditionView::AtOrAfter(instant@),
            MetadataFilterCondition::Before(instant) => WireConditionView::Before(instant@),
            MetadataFilterCondition::AtOrBefore(instant) => WireConditionView::AtOrBefore(
                instant@,
            ),
            MetadataFilterCondition::EqualTo(value) => WireConditionView::EqualTo(value@),
            MetadataFilterCondition::IsNull => WireConditionView::IsNull,
        }
    }
}

/// The condition that the host gets for `condition`: the same comparison,
/// with a bound kept as it is, an instant written as text, and a value put
/// under the variant of its type.
pub open spec fn wire_condition(condition: MetadataFilterConditionView) -> WireConditionView {
    match condition {
        MetadataFilterConditionView::GreaterThan(bound) => WireConditionView::GreaterThan(bound),
        MetadataFilterConditionView::GreaterThanOrEqualTo(bound) => {
            WireConditionView::GreaterThanOrEqualTo(bound)
        },
        MetadataFilterConditionView::LessThan(bound) => WireConditionView::LessThan(bound),
        MetadataFilterConditionView::LessThanOrEqualTo(bound) => {
            WireConditionView::LessThanOrEqualTo(bound)
        },
        MetadataFilterConditionView::After(instant) => WireConditionView::After(
            timestamp_text(instant.second(), instant.nanosecond()),
        ),
        MetadataFilterConditionView::AtOrAfter(instant) => WireConditionView::AtOrAfter(
            timestamp_text(instant.second(), instant.nanosecond()),
        ),
        MetadataFilterConditionView::Before(instant) => WireConditionView::Before(
            timestamp_text(instant.second(), instant.nanosecond()),
        ),
        MetadataFilterConditionView::AtOrBefore(instant) => WireConditionView::AtOrBefore(
            timestamp_text(instant.second(), instant.nanosecond()),
        ),
        MetadataFilterConditionView::EqualTo(value) => WireConditionView::EqualTo(
            wire_field_value(value),
        ),
        MetadataFilterConditionView::IsNull => WireConditionView::IsNull,
    }
}

impl FromSpecImpl<document_index::MetadataFilterCondition> for MetadataFilterCondition {
    open spec fn obeys_from_spec() -> bool {
        false
    }

    open spec fn from_spec(
        value: document_index::MetadataFilterCondition,
    ) -> MetadataFilterCondition {
        arbitrary()
    }
}

impl From<document_index::MetadataFilterCondition> for MetadataFilterCondition {
    /// The same condition, as the host takes it.
    fn from(value: document_index::MetadataFilterCondition) -> (wire: MetadataFilterCondition)
        ensures
            wire@ == wire_condition(value@),
    {
        match value {
            document_index::MetadataFilterCondition::GreaterThan(n) => {
                MetadataFilterCondition::GreaterThan(n)
            },
            document_index::MetadataFilterCondition::GreaterThanOrEqualTo(n) => {
                MetadataFilterCondition::GreaterThanOrEqualTo(n)
            },
            document_index::MetadataFilterCondition::LessThan(n) => {
                MetadataFilterCondition::LessThan(n)
            },
            document_index::MetadataFilterCondition::LessThanOrEqualTo(n) => {
                MetadataFilterCondition::LessThanOrEqualTo(n)
            },
            document_index::MetadataFilterCondition::After(s) => MetadataFilterCondition::After(
                s.to_string(),
            ),
            document_index::MetadataFilterCondition::AtOrAfter(s) => {
                MetadataFilterCondition::AtOrAfter(s.to_string())
            },
            document_index::MetadataFilterCondition::Before(s) => MetadataFilterCondition::Before(
                s.to_string(),
            ),
            document_index::MetadataFilterCondition::AtOrBefore(s) => {
                MetadataFilterCondition::AtOrBefore(s.to_string())
            },
            document_index::MetadataFilterCondition::EqualTo(metadata_field_value) => {
                MetadataFilterCondition::EqualTo(MetadataFieldValue::from(metadata_field_value))
            },
            document_index::MetadataFilterCondition::IsNull => MetadataFilterCondition::IsNull,
        }
    }
}

/// What a [`MetadataFilter`] of the host boundary holds.
pub struct WireMetadataFilterView {
    pub field: Seq<char>,
    pub condition: WireConditionView,
}

/// A condition on one metadata field, at the host boundary.
#[derive(Clone, Debug, PartialEq)]
pub struct MetadataFilter {
    pub field: String,
    pub condition: MetadataFilterCondition,
}

impl View for MetadataFilter {
    type V = WireMetadataFilterView;

    open spec fn view(&self) -> WireMetadataFilterView {
        WireMetadataFilterView { field: self.field@, condition: self.condition@ }
    }
}

/// The filter that the host gets for `filter`: the same field, held against
/// the same condition.
pub open spec fn wire_metadata_filter(filter: MetadataFilterView) -> WireMetadataFilterView {
    WireMetadataFilterView { field: filter.field, condition: wire_condition(filter.condition) }
}

/// The filter that the host gets for `condition`.
pub open spec fn wire_filter_condition(condition: FilterConditionView) -> WireMetadataFilterView {
    match condition {
        FilterConditionView::Metadata(filter) => wire_metadata_filter(filter),
    }
}

impl FromSpecImpl<document_index::MetadataFilter> for MetadataFilter {
    open spec fn obeys_from_spec() -> bool {
        false
    }

    open spec fn from_spec(value: document_index::MetadataFilter) -> MetadataFilter {
        arbitrary()
    }
}

impl From<document_index::MetadataFilter> for MetadataFilter {
    /// The same filter, as the host takes it.
    fn from(value: document_index::MetadataFilter) -> (wire: MetadataFilter)
        ensures
            wire@ == wire_metadata_filter(value@),
    {
        let document_index::MetadataFilter { field, condition } = value;
        MetadataFilter { field, condition: MetadataFilterCondition::from(condition) }
    }
}

impl FromSpecImpl<document_index::FilterCondition> for MetadataFilter {
    open spec fn obeys_from_spec() -> bool {
        false
    }

    open spec fn from_spec(value: document_index::FilterCondition) -> MetadataFilter {
        arbitrary()
    }
}

impl From<document_index::FilterCondition> for MetadataFilter {
    /// The metadata filter that the condition is, as the host takes it.
    fn from(value: document_index::FilterCondition) -> (wire: MetadataFilter)
        ensures
            wire@ == wire_filter_condition(value@),
    {
        match value {
            document_index::FilterCondition::Metadata(metadata_filter) => MetadataFilter::from(
                metadata_filter,
            ),
        }
    }
}

/// The filters of `filters`, in order.
pub open spec fn metadata_filters_view(filters: Seq<MetadataFilter>) -> Seq<
    WireMetadataFilterView,
> {
    filters.map_values(|filter: MetadataFilter| filter@)
}

/// The filters that the host gets for `conditions`, in order.
pub open spec fn wire_conditions(conditions: Seq<FilterConditionView>) -> Seq<
    WireMetadataFilterView,
> {
    conditions.map_values(|condition: FilterConditionView| wire_filter_condition(condition))
}

/// The conditions of one search filter, as the host takes them.
fn metadata_filters(conditions: Vec<document_index::FilterCondition>) -> (wire: Vec<
    MetadataFilter,
>)
    ensures
        metadata_filters_view(wire@) == wire_conditions(conditions_view(conditions@)),
{
    let convert = |condition: document_index::FilterCondition| -> (wire: MetadataFilter)
        ensures
            wire@ == wire_filter_condition(condition@),
        {
            MetadataFilter::from(condition)
        };
    let wire = map_each(conditions, convert);
    assert(metadata_filters_view(wire@) =~= wire_conditions(conditions_view(conditions@)));
    wire
}

/// What a [`SearchFilter`] of the host boundary holds.
pub enum WireSearchFilterView {
    Without(Seq<WireMetadataFilterView>),
    WithOneOf(Seq<WireMetadataFilterView>),
    WithAll(Seq<WireMetadataFilterView>),
}

/// Which documents a search looks at, at the host boundary.
#[derive(Clone, Debug, PartialEq)]
pub enum SearchFilter {
    Without(Vec<MetadataFilter>),
    WithOneOf(Vec<MetadataFilter>),
    WithAll(Vec<MetadataFilter>),
}

impl View for SearchFilter {
    type V = WireSearchFilterView;

    open spec fn view(&self) -> WireSearchFilterView {
        match self {
            SearchFilter::Without(filters) => WireSearchFilterView::Without(
                metadata_filters_view(filters@),
            ),
            SearchFilter::WithOneOf(filters) => WireSearchFilterView::WithOneOf(
                metadata_filters_view(filters@),
            ),
            SearchFilter::WithAll(filters) => WireSearchFilterView::WithAll(
                metadata_filters_view(filters@),
            ),
        }
    }
}

/// The filter that the host gets for `filter`: the same conditions in the
/// same order, under the variant that excludes on any match, includes on any
/// match, or includes on all matches, as `filter` does.
pub open spec fn wire_search_filter(filter: SearchFilterView) -> WireSearchFilterView {
    match filter {
        SearchFilterView::Without(conditions) => WireSearchFilterView::Without(
            wire_conditions(conditions),
        ),
        SearchFilterView::WithOneOf(conditions) => WireSearchFilterView::WithOneOf(
            wire_conditions(conditions),
        ),
        SearchFilterView::With(conditions) => WireSearchFilterView::WithAll(
            wire_conditions(conditions),
        ),
    }
}

impl FromSpecImpl<document_index::SearchFilter> for SearchFilter {
    open spec fn obeys_from_spec() -> bool {
        false
    }

    open spec fn from_spec(value: document_index::SearchFilter) -> SearchFilter {
        arbitrary()
    }
}

impl From<document_index::SearchFilter> for SearchFilter {
    /// The same filter, as the host takes it.
    fn from(value: document_index::SearchFilter) -> (wire: SearchFilter)
        ensures
            wire@ == wire_search_filter(value@),
    {
        match value {
            document_index::SearchFilter::Without(conditions) => SearchFilter::Without(
                metadata_filters(conditions),
            ),
            document_index::SearchFilter::WithOneOf(conditions) => SearchFilter::WithOneOf(
                metadata_filters(conditions),
            ),
            document_index::SearchFilter::With(conditions) => SearchFilter::WithAll(
                metadata_filters(conditions),
            ),
        }
    }
}

/// The filters of `filters`, in order.
pub open spec fn search_filters_view(filters: Seq<SearchFilter>) -> Seq<WireSearchFilterView> {
    filters.map_values(|filter: SearchFilter| filter@)
}

/// The filters that the host gets for `filters`, in order.
pub open spec fn wire_search_filters(filters: Seq<SearchFilterView>) -> Seq<
    WireSearchFilterView,
> {
    filters.map_values(|filter: SearchFilterView| wire_search_filter(filter))
}

/// What a [`SearchRequest`] of the host boundary holds.
pub struct WireSearchRequestView {
    pub index_path: IndexPathView,
    pub query: Seq<char>,
    pub max_results: u32,
    pub min_score: Option<Number>,
    pub filters: Seq<WireSearchFilterView>,
}

/// A search request at the host boundary.
#[derive(Clone, Debug, PartialEq)]
pub struct SearchRequest {
    pub index_path: IndexPath,
    pub query: String,
    pub max_results: u32,
    pub min_score: Option<Number>,
    pub filters: Vec<SearchFilter>,
}

impl View for SearchRequest {
    type V = WireSearchRequestView;

    open spec fn view(&self) -> WireSearchRequestView {
        WireSearchRequestView {
            index_path: self.index_path@,
            query: self.query@,
            max_results: self.max_results,
            min_score: self.min_score,
            filters: search_filters_view(self.filters@),
        }
    }
}

/// The request that the host gets for `request`: the same query, index,
/// number of results and minimal score, and each filter as the host takes
/// it, in the same order.
pub open spec fn wire_search_request(request: SearchRequestView) -> WireSearchRequestView {
    WireSearchRequestView {
        index_path: request.index_path,
        query: request.query,
        max_results: request.max_results,
        min_score: request.min_score,
        filters: wire_search_filters(request.filters),
    }
}

impl FromSpecImpl<document_index::SearchRequest> for SearchRequest {
    open spec fn obeys_from_spec() -> bool {
        false
    }

    open spec fn from_spec(value: document_index::SearchRequest) -> SearchRequest {
        arbitrary()
    }
}

impl From<document_index::SearchRequest> for SearchRequest {
    /// The same request, as the host takes it.
    fn from(value: document_index::SearchRequest) -> (wire: SearchRequest)
        ensures
            wire@ == wire_search_request(value@),
    {
        let document_index::SearchRequest { query, index_path, max_results, min_score, filters } =
            value;
        let convert = |filter: document_index::SearchFilter| -> (wire: SearchFilter)
            ensures
                wire@ == wire_search_filter(filter@),
            {
                SearchFilter::from(filter)
            };
        let converted = map_each(filters, convert);
        assert(search_filters_view(converted@) =~= wire_search_filters(filters_view(filters@)));
        SearchRequest {
            index_path: IndexPath::from(index_path),
            query,
            max_results,
            min_score,
            filters: converted,
        }
    }
}

/// A place in a document, at the host boundary.
#[derive(Clone, Copy, Debug, PartialEq)]
pub struct TextCursor {
    pub item: u32,
    pub position: u32,
}

impl TextCursor {
    /// The same place, in the service interface.
    pub open spec fn cursor(self) -> document_index::TextCursor {
        document_index::TextCursor { item: self.item, position: self.position }
    }
}

impl FromSpecImpl<TextCursor> for document_index::TextCursor {
    open spec fn obeys_from_spec() -> bool {
        true
    }

    open spec fn from_spec(value: TextCursor) -> document_index::TextCursor {
        value.cursor()
    }
}

impl From<TextCursor> for document_index::TextCursor {
    /// The same place.
    fn from(value: TextCursor) -> (cursor: document_index::TextCursor)
        ensures
            cursor == value.cursor(),
    {
        let TextCursor { item, position } = value;
        document_index::TextCursor { item, position }
    }
}

/// A search result at the host boundary.
#[derive(Clone, Debug, PartialEq)]
pub struct SearchResult {
    pub document_path: DocumentPath,
    pub content: String,
    pub score: Number,
    pub start: TextCursor,
    pub end: TextCursor,
}

impl View for SearchResult {
    type V = SearchResultView;

    open spec fn view(&self) -> SearchResultView {
        SearchResultView {
            document_path: self.document_path@,
            content: self.content@,
            score: self.score,
            start: self.start.cursor(),
            end: self.end.cursor(),
        }
    }
}

impl FromSpecImpl<SearchResult> for document_index::SearchResult {
    open spec fn obeys_from_spec() -> bool {
        true
    }

    open spec fn from_spec(value: SearchResult) -> document_index::SearchResult {
        document_index::SearchResult {
            document_path: <document_index::DocumentPath as FromSpec<DocumentPath>>::from_spec(
                value.document_path,
            ),
            content: value.content,
            score: value.score,
            start: value.start.cursor(),
            end: value.end.cursor(),
        }
    }
}

impl From<SearchResult> for document_index::SearchResult {
    /// The same result, as the skill takes it.
    fn from(value: SearchResult) -> (result: document_index::SearchResult)
        ensures
            result@ == value@,
    {
        let SearchResult { document_path, content, score, start, end } = value;
        document_index::SearchResult {
            document_path: document_index::DocumentPath::from(document_path),
            content,
            score,
            start: document_index::TextCursor::from(start),
            end: document_index::TextCursor::from(end),
        }
    }
}

/// One piece of a document, at the host boundary.
#[derive(Clone, Debug, PartialEq)]
pub enum Modality {
    Text(String),
    Image,
}

impl View for Modality {
    type V = ModalityView;

    open spec fn view(&self) -> ModalityView {
        match self {
            Modality::Text(text) => ModalityView::Text { text: text@ },
            Modality::Image => ModalityView::Image,
        }
    }
}

impl FromSpecImpl<Modality> for document_index::Modality {
    open spec fn obeys_from_spec() -> bool {
        true
    }

    open spec fn from_spec(value: Modality) -> document_index::Modality {
        match value {
            Modality::Text(text) => document_index::Modality::Text { text },
            Modality::Image => document_index::Modality::Image,
        }
    }
}

impl From<Modality> for document_index::Modality {
    /// The same piece, as the skill takes it.
    fn from(value: Modality) -> (modality: document_index::Modality)
        ensures
            modality@ == value@,
    {
        match value {
            Modality::Text(text) => document_index::Modality::Text { text },
            Modality::Image => document_index::Modality::Image,
        }
    }
}

/// The pieces of `contents`, in order.
pub open spec fn modalities_view(contents: Seq<Modality>) -> Seq<ModalityView> {
    contents.map_values(|modality: Modality| modality@)
}

/// The bytes of `blob`, if there are any.
pub open spec fn blob_view(blob: Option<Vec<u8>>) -> Option<Seq<u8>> {
    match blob {
        Some(bytes) => Some(bytes@),
        None => None,
    }
}

/// What a [`Document`] of the host boundary holds: the metadata is there as
/// the bytes of its JSON text.
pub struct WireDocumentView {
    pub path: DocumentPathView,
    pub contents: Seq<ModalityView>,
    pub metadata: Option<Seq<u8>>,
}

/// A document at the host boundary.
#[derive(Clone, Debug, PartialEq)]
pub struct Document {
    pub path: DocumentPath,
    pub contents: Vec<Modality>,
    pub metadata: Option<Vec<u8>>,
}

impl View for Document {
    type V = WireDocumentView;

    open spec fn view(&self) -> WireDocumentView {
        WireDocumentView {
            path: self.path@,
            contents: modalities_view(self.contents@),
            metadata: blob_view(self.metadata),
        }
    }
}

/// The metadata that the skill gets for `metadata`: none where the host
/// gave none, else the JSON value that the bytes read as, or the reason why
/// they do not read as one.
pub open spec fn read_metadata(metadata: Option<Seq<u8>>) -> Result<Option<Value>, Seq<char>> {
    match metadata {
        None => Ok(None),
        Some(bytes) => match json_parsed(bytes) {
            Ok(value) => Ok(Some(value)),
            Err(reason) => Err(reason),
        },
    }
}

/// The document that the skill gets for `document`: the same path and
/// contents with the metadata read, or the reason why the metadata does not
/// read.
pub open spec fn read_document(document: WireDocumentView) -> Result<
    DocumentView<Value>,
    Seq<char>,
> {
    match read_metadata(document.metadata) {
        Ok(metadata) => Ok(
            DocumentView { path: document.path, contents: document.contents, metadata },
        ),
        Err(reason) => Err(reason),
    }
}

/// Whether `outcome` is `expected`, the text of a failure taken by its
/// characters.
pub open spec fn is_outcome<T>(outcome: Result<T, String>, expected: Result<T, Seq<char>>) -> bool {
    match outcome {
        Ok(value) => expected == Ok::<T, Seq<char>>(value),
        Err(reason) => expected == Err::<T, Seq<char>>(reason@),
    }
}

/// The metadata of one document, read from the bytes that the host gave.
///
/// Fails exactly when there are bytes and they are not JSON, with the
/// reason.
pub fn metadata(bytes: Option<Vec<u8>>) -> (metadata: Result<Option<Value>, String>)
    ensures
        is_outcome(metadata, read_metadata(blob_view(bytes))),
{
    match bytes {
        None => Ok(None),
        Some(bytes) => match parse_value(bytes.as_slice()) {
            Ok(value) => Ok(Some(value)),
            Err(reason) => Err(reason),
        },
    }
}

impl TryFromSpecImpl<Document> for document_index::Document<Value> {
    open spec fn obeys_try_from_spec() -> bool {
        false
    }

    open spec fn try_from_spec(value: Document) -> Result<document_index::Document<Value>, String> {
        arbitrary()
    }
}

impl TryFrom<Document> for document_index::Document<Value> {
    type Error = String;

    /// The same document with its metadata read. Fails exactly when the
    /// metadata is there and is not JSON, with the reason.
    fn try_from(value: Document) -> (document: Result<document_index::Document<Value>, String>)
        ensures
            match document {
                Ok(read) => read_document(value@) == Ok::<DocumentView<Value>, Seq<char>>(read@),
                Err(reason) => read_document(value@) == Err::<DocumentView<Value>, Seq<char>>(
                    reason@,
                ),
            },
    {
        let Document { path, contents, metadata: bytes } = value;
        let convert = |modality: Modality| -> (converted: document_index::Modality)
            ensures
                converted@ == modality@,
            {
                document_index::Modality::from(modality)
            };
        let converted = map_each(contents, convert);
        assert(contents_view(converted@) =~= modalities_view(contents@));
        match metadata(bytes) {
            Ok(read) => Ok(
                document_index::Document {
                    path: document_index::DocumentPath::from(path),
                    contents: converted,
                    metadata: read,
                },
            ),
            Err(reason) => Err(reason),
        }
    }
}

/// The requests of a batch, as the host takes them.
pub fn search_requests(requests: Vec<document_index::SearchRequest>) -> (wire: Vec<SearchRequest>)
    ensures
        wire.len() == requests.len(),
        forall|i: int|
            0 <= i < wire.len() ==> (#[trigger] wire[i])@ == wire_search_request(requests[i]@),
{
    let convert = |request: document_index::SearchRequest| -> (wire: SearchRequest)
        ensures
            wire@ == wire_search_request(request@),
        {
            SearchRequest::from(request)
        };
    map_each(requests, convert)
}

/// The results of `results`, in order.
pub open spec fn wire_results_view(results: Seq<SearchResult>) -> Seq<SearchResultView> {
    results.map_values(|result: SearchResult| result@)
}

/// The results of one request, as the skill takes them.
pub fn search_results(wire: Vec<SearchResult>) -> (results: Vec<document_index::SearchResult>)
    ensures
        results_view(results@) == wire_results_view(wire@),
{
    let convert = |result: SearchResult| -> (converted: document_index::SearchResult)
        ensures
            converted@ == result@,
        {
            document_index::SearchResult::from(result)
        };
    let results = map_each(wire, convert);
    assert(results_view(results@) =~= wire_results_view(wire@));
    results
}

/// The results of a batch, as the skill takes them: one list for each
/// request, each in the order in which the host gave it.
pub fn search_results_batch(wire: Vec<Vec<SearchResult>>) -> (all: Vec<
    Vec<document_index::SearchResult>,
>)
    ensures
        all.len() == wire.len(),
        forall|i: int|
            0 <= i < all.len() ==> results_view((#[trigger] all[i])@) == wire_results_view(
                wire[i]@,
            ),
{
    let convert = |results: Vec<SearchResult>| -> (converted: Vec<document_index::SearchResult>)
        ensures
            results_view(converted@) == wire_results_view(results@),
        {
            search_results(results)
        };
    map_each(wire, convert)
}

/// The paths of a batch, as the host takes them.
pub fn document_paths(paths: Vec<document_index::DocumentPath>) -> (wire: Vec<DocumentPath>)
    ensures
        wire.len() == paths.len(),
        forall|i: int| 0 <= i < wire.len() ==> (#[trigger] wire[i])@ == paths[i]@,
{
    let convert = |path: document_index::DocumentPath| -> (wire: DocumentPath)
        ensures
            wire@ == path@,
        {
            DocumentPath::from(path)
        };
    map_each(paths, convert)
}

/// The documents of a batch, as the skill takes them.
///
/// Succeeds exactly when the metadata of every document reads, and then
/// gives the documents in the order of the host. Otherwise the whole batch
/// fails, with the reason of the first document that does not read.
pub fn documents(wire: Vec<Document>) -> (all: Result<Vec<document_index::Document<Value>>, String>)
    ensures
        match all {
            Ok(read) => {
                &&& read.len() == wire.len()
                &&& forall|i: int|
                    0 <= i < read.len() ==> read_document(wire[i]@) == Ok::<
                        DocumentView<Value>,
                        Seq<char>,
                    >((#[trigger] read[i])@)
            },
            Err(reason) => exists|i: int|
                {
                    &&& 0 <= i < wire.len()
                    &&& #[trigger] read_document(wire[i]@) == Err::<DocumentView<Value>, Seq<char>>(
                        reason@,
                    )
                    &&& forall|k: int| 0 <= k < i ==> (#[trigger] read_document(wire[k]@)) is Ok
                },
        },
{
    let mut read: Vec<document_index::Document<Value>> = Vec::new();
    for document in it: wire
        invariant
            it.seq() == wire@,
            read.len() == it.index(),
            forall|i: int|
                0 <= i < read.len() ==> read_document(wire[i]@) == Ok::<
                    DocumentView<Value>,
                    Seq<char>,
                >((#[trigger] read[i])@),
    {
        let ghost at = read.len() as int;
        match document_index::Document::try_from(document) {
            Ok(converted) => {
                read.push(converted);
            },
            Err(reason) => {
                assert(read_document(wire[at]@) == Err::<DocumentView<Value>, Seq<char>>(
                    reason@,
                ));
                assert forall|k: int| 0 <= k < at implies (#[trigger] read_document(
                    wire[k]@,
                )) is Ok by {
                    assert(read_document(wire[k]@) == Ok::<DocumentView<Value>, Seq<char>>(
                        read[k]@,
                    ));
                }
                return Err(reason);
            },
        }
    }
    Ok(read)
}

/// The metadata of a batch of documents, as the skill takes it.
///
/// A document without metadata has `None` at its place. Succeeds exactly
/// when the metadata of every document reads; otherwise the whole batch
/// fails, with the reason of the first document whose metadata does not read.
pub fn documents_metadata(wire: Vec<Option<Vec<u8>>>) -> (all: Result<Vec<Option<Value>>, String>)
    ensures
        match all {
            Ok(read) => {
                &&& read.len() == wire.len()
                &&& forall|i: int|
                    0 <= i < read.len() ==> read_metadata(blob_view(wire[i])) == Ok::<
                        Option<Value>,
                        Seq<char>,
                    >(#[trigger] read[i])
            },
            Err(reason) => exists|i: int|
                {
                    &&& 0 <= i < wire.len()
                    &&& #[trigger] read_metadata(blob_view(wire[i])) == Err::<
                        Option<Value>,
                        Seq<char>,
                    >(reason@)
                    &&& forall|k: int|
                        0 <= k < i ==> (#[trigger] read_metadata(blob_view(wire[k]))) is Ok
                },
        },
{
    let mut read: Vec<Option<Value>> = Vec::new();
    for blob in it: wire
        invariant
            it.seq() == wire@,
            read.len() == it.index(),
            forall|i: int|
                0 <= i < read.len() ==> read_metadata(blob_view(wire[i])) == Ok::<
                    Option<Value>,
                    Seq<char>,
                >(#[trigger] read[i]),
    {
        let ghost at = read.len() as int;
        match metadata(blob) {
            Ok(value) => {
                read.push(value);
            },
            Err(reason) => {
                assert(read_metadata(blob_view(wire[at])) == Err::<Option<Value>, Seq<char>>(
                    reason@,
                ));
                assert forall|k: int| 0 <= k < at implies (#[trigger] read_metadata(
                    blob_view(wire[k]),
                )) is Ok by {
                    assert(read_metadata(blob_view(wire[k])) == Ok::<Option<Value>, Seq<char>>(
                        read[k],
                    ));
                }
                return Err(reason);
            },
        }
    }
    Ok(read)
}

} // verus!
