use pharia_skill::bindings::document_index;
use pharia_skill::{
    Document, DocumentPath, FilterCondition, IndexPath, MetadataFieldValue, MetadataFilter,
    MetadataFilterCondition, Modality, Number, SearchFilter, SearchRequest, SearchResult,
    TextCursor,
};
use serde_json::Value;

fn number(value: f64) -> Number {
    Number::from_bits(value.to_bits())
}

#[test]
fn test_request_conversion() {
    let query = "example query";
    let namespace = "example_namespace";
    let collection = "example_collection";
    let index = "example_index";
    let min_score = Some(number(0.5));
    let max_results = 10;
    let field = "example_field";
    let timestamp = "2005-08-07T23:19:49.123Z";
    let filter = vec![
        FilterCondition::Metadata(MetadataFilter {
            field: field.into(),
            condition: MetadataFilterCondition::LessThan(number(10.)),
        }),
        FilterCondition::Metadata(MetadataFilter {
            field: field.into(),
            condition: MetadataFilterCondition::Before(timestamp.parse().unwrap()),
        }),
    ];
    let filters = vec![SearchFilter::With(filter)];
    let index_path = IndexPath {
        namespace: namespace.into(),
        collection: collection.into(),
        index: index.into(),
    };
    let request = SearchRequest {
        query: query.into(),
        index_path,
        min_score,
        max_results,
        filters,
    };
    let converted = document_index::SearchRequest::from(request);

    assert_eq!(
        converted,
        document_index::SearchRequest {
            query: query.into(),
            index_path: document_index::IndexPath {
                namespace: namespace.into(),
                collection: collection.into(),
                index: index.into(),
            },
            min_score,
            max_results,
            filters: vec![document_index::SearchFilter::WithAll(vec![
                document_index::MetadataFilter {
                    field: field.into(),
                    condition: document_index::MetadataFilterCondition::LessThan(number(10.)),
                },
                document_index::MetadataFilter {
                    field: field.into(),
                    condition: document_index::MetadataFilterCondition::Before(
                        timestamp.to_owned()
                    ),
                }
            ])],
        }
    );
}

#[test]
fn test_response_conversion() {
    let namespace = "test_namespace";
    let collection = "test_collection";
    let name = "test_name";
    let content = "test_content";
    let score = number(10.0);
    let item = 1;
    let position = 1;
    let response = document_index::SearchResult {
        document_path: document_index::DocumentPath {
            namespace: namespace.into(),
            collection: collection.into(),
            name: name.into(),
        },
        content: content.into(),
        score,
        start: document_index::TextCursor { item, position },
        end: document_index::TextCursor { item, position },
    };
    let converted = SearchResult::from(response);

    assert_eq!(
        converted,
        SearchResult {
            document_path: DocumentPath {
                namespace: namespace.into(),
                collection: collection.into(),
                name: name.into()
            },
            content: content.into(),
            score,
            start: TextCursor { item, position },
            end: TextCursor { item, position }
        }
    );
}

#[test]
fn every_condition_goes_to_its_counterpart() {
    let instant: pharia_skill::Timestamp = "2005-08-07T23:19:49.123Z".parse().unwrap();
    let text = "2005-08-07T23:19:49.123Z".to_owned();
    let cases = vec![
        (
            MetadataFilterCondition::GreaterThan(number(1.5)),
            document_index::MetadataFilterCondition::GreaterThan(number(1.5)),
        ),
        (
            MetadataFilterCondition::GreaterThanOrEqualTo(number(-2.0)),
            document_index::MetadataFilterCondition::GreaterThanOrEqualTo(number(-2.0)),
        ),
        (
            MetadataFilterCondition::LessThan(number(0.0)),
            document_index::MetadataFilterCondition::LessThan(number(0.0)),
        ),
        (
            MetadataFilterCondition::LessThanOrEqualTo(number(3.25)),
            document_index::MetadataFilterCondition::LessThanOrEqualTo(number(3.25)),
        ),
        (
            MetadataFilterCondition::After(instant),
            document_index::MetadataFilterCondition::After(text.clone()),
        ),
        (
            MetadataFilterCondition::AtOrAfter(instant),
            document_index::MetadataFilterCondition::AtOrAfter(text.clone()),
        ),
        (
            MetadataFilterCondition::Before(instant),
            document_index::MetadataFilterCondition::Before(text.clone()),
        ),
        (
            MetadataFilterCondition::AtOrBefore(instant),
            document_index::MetadataFilterCondition::AtOrBefore(text.clone()),
        ),
        (
            MetadataFilterCondition::EqualTo(MetadataFieldValue::String("a".into())),
            document_index::MetadataFilterCondition::EqualTo(
                document_index::MetadataFieldValue::StringType("a".into()),
            ),
        ),
        (
            MetadataFilterCondition::EqualTo(MetadataFieldValue::Integer(-7)),
            document_index::MetadataFilterCondition::EqualTo(
                document_index::MetadataFieldValue::IntegerType(-7),
            ),
        ),
        (
            MetadataFilterCondition::EqualTo(MetadataFieldValue::Boolean(true)),
            document_index::MetadataFilterCondition::EqualTo(
                document_index::MetadataFieldValue::BooleanType(true),
            ),
        ),
        (
            MetadataFilterCondition::IsNull,
            document_index::MetadataFilterCondition::IsNull,
        ),
    ];
    for (condition, expected) in cases {
        assert_eq!(
            document_index::MetadataFilterCondition::from(condition),
            expected
        );
    }
}

#[test]
fn every_filter_goes_to_its_counterpart() {
    let condition = |field: &str| {
        FilterCondition::Metadata(MetadataFilter {
            field: field.into(),
            condition: MetadataFilterCondition::IsNull,
        })
    };
    let wire = |field: &str| document_index::MetadataFilter {
        field: field.into(),
        condition: document_index::MetadataFilterCondition::IsNull,
    };
    assert_eq!(
        document_index::SearchFilter::from(SearchFilter::Without(vec![
            condition("a"),
            condition("b")
        ])),
        document_index::SearchFilter::Without(vec![wire("a"), wire("b")])
    );
    assert_eq!(
        document_index::SearchFilter::from(SearchFilter::WithOneOf(vec![condition("c")])),
        document_index::SearchFilter::WithOneOf(vec![wire("c")])
    );
    assert_eq!(
        document_index::SearchFilter::from(SearchFilter::With(Vec::new())),
        document_index::SearchFilter::WithAll(Vec::new())
    );
}

#[test]
fn search_request_starts_with_one_result() {
    let request = SearchRequest::new("decoder", IndexPath::new("Kernel", "test", "asym-64"));
    assert_eq!(request.query, "decoder");
    assert_eq!(request.index_path.namespace, "Kernel");
    assert_eq!(request.index_path.collection, "test");
    assert_eq!(request.index_path.index, "asym-64");
    assert_eq!(request.max_results, 1);
    assert_eq!(request.min_score, None);
    assert!(request.filters.is_empty());

    let request = request
        .with_max_results(10)
        .with_min_score(Some(number(0.25)))
        .with_filters(vec![SearchFilter::With(Vec::new())]);
    assert_eq!(request.query, "decoder");
    assert_eq!(request.max_results, 10);
    assert_eq!(request.min_score, Some(number(0.25)));
    assert_eq!(request.filters.len(), 1);
}

#[test]
fn paths_are_built_from_their_parts() {
    let path = DocumentPath::new("Kernel", "test", "kernel-docs");
    assert_eq!(
        path,
        DocumentPath {
            namespace: "Kernel".into(),
            collection: "test".into(),
            name: "kernel-docs".into()
        }
    );
    let wire = document_index::document_paths(vec![path.clone(), DocumentPath::new("a", "b", "c")]);
    assert_eq!(wire.len(), 2);
    assert_eq!(wire[0].name, "kernel-docs");
    assert_eq!(wire[1].namespace, "a");
    assert_eq!(DocumentPath::from(wire[0].clone()), path);
    let index = IndexPath::default();
    assert!(index.namespace.is_empty() && index.collection.is_empty() && index.index.is_empty());
}

fn wire_document(name: &str, metadata: Option<&str>) -> document_index::Document {
    document_index::Document {
        path: document_index::DocumentPath {
            namespace: "Kernel".into(),
            collection: "test".into(),
            name: name.into(),
        },
        contents: vec![
            document_index::Modality::Text("Kernel docs".into()),
            document_index::Modality::Image,
        ],
        metadata: metadata.map(|text| text.as_bytes().to_vec()),
    }
}

#[test]
fn a_document_is_read_with_its_metadata() {
    let document: Document =
        Document::try_from(wire_document("kernel-docs", Some("{\"url\":\"x\"}"))).unwrap();
    assert_eq!(document.path, DocumentPath::new("Kernel", "test", "kernel-docs"));
    assert_eq!(document.contents.len(), 2);
    assert!(matches!(&document.contents[0], Modality::Text { text } if text == "Kernel docs"));
    assert!(matches!(&document.contents[1], Modality::Image));
    let mut expected = serde_json::Map::new();
    expected.insert("url".to_owned(), Value::from("x"));
    assert_eq!(document.metadata, Some(Value::Object(expected)));

    let bare: Document = Document::try_from(wire_document("bare", None)).unwrap();
    assert_eq!(bare.metadata, None);
}

#[test]
fn a_document_with_broken_metadata_is_not_read() {
    let broken: Result<Document, String> = Document::try_from(wire_document("broken", Some("{")));
    let reason = broken.unwrap_err();
    assert_eq!(reason, "EOF while parsing an object at line 1 column 1");
}

#[test]
fn documents_are_read_all_or_none() {
    let read = document_index::documents(vec![
        wire_document("first", Some("1")),
        wire_document("second", None),
        wire_document("third", Some("\"three\"")),
    ])
    .unwrap();
    assert_eq!(read.len(), 3);
    assert_eq!(read[0].path.name, "first");
    assert_eq!(read[0].metadata, Some(Value::from(1)));
    assert_eq!(read[1].path.name, "second");
    assert_eq!(read[1].metadata, None);
    assert_eq!(read[2].path.name, "third");
    assert_eq!(read[2].metadata, Some(Value::from("three")));

    let failed = document_index::documents(vec![
        wire_document("first", Some("1")),
        wire_document("second", Some("nul")),
        wire_document("third", Some("{")),
    ]);
    assert_eq!(
        failed.unwrap_err(),
        "EOF while parsing a value at line 1 column 3"
    );
    assert!(document_index::documents(Vec::new()).unwrap().is_empty());
}

#[test]
fn metadata_is_read_all_or_none() {
    let read = document_index::documents_metadata(vec![
        Some(b"true".to_vec()),
        None,
        Some(b"[1, 2]".to_vec()),
    ])
    .unwrap();
    assert_eq!(
        read,
        vec![
            Some(Value::from(true)),
            None,
            Some(Value::from(vec![1, 2]))
        ]
    );
    let failed = document_index::documents_metadata(vec![
        None,
        Some(b"".to_vec()),
        Some(b"true".to_vec()),
    ]);
    assert_eq!(
        failed.unwrap_err(),
        "EOF while parsing a value at line 1 column 0"
    );
    assert_eq!(document_index::metadata(None), Ok(None));
    assert_eq!(
        document_index::metadata(Some(b"null".to_vec())),
        Ok(Some(Value::Null))
    );
}

#[test]
fn search_results_keep_their_order() {
    let result = |name: &str, item: u32| document_index::SearchResult {
        document_path: document_index::DocumentPath {
            namespace: "n".into(),
            collection: "c".into(),
            name: name.into(),
        },
        content: name.into(),
        score: number(0.5),
        start: document_index::TextCursor { item, position: 0 },
        end: document_index::TextCursor { item, position: 9 },
    };
    let all = document_index::search_results_batch(vec![
        vec![result("a", 1), result("b", 2)],
        Vec::new(),
        vec![result("c", 3)],
    ]);
    assert_eq!(all.len(), 3);
    assert_eq!(all[0].len(), 2);
    assert_eq!(all[0][0].content, "a");
    assert_eq!(all[0][1].content, "b");
    assert_eq!(all[0][1].start, TextCursor { item: 2, position: 0 });
    assert!(all[1].is_empty());
    assert_eq!(all[2][0].document_path.name, "c");
    assert_eq!(all[2][0].end, TextCursor { item: 3, position: 9 });

    let requests = document_index::search_requests(vec![
        SearchRequest::new("one", IndexPath::new("a", "b", "c")),
        SearchRequest::new("two", IndexPath::new("d", "e", "f")).with_max_results(5),
    ]);
    assert_eq!(requests.len(), 2);
    assert_eq!(requests[0].query, "one");
    assert_eq!(requests[1].query, "two");
    assert_eq!(requests[1].max_results, 5);
}
