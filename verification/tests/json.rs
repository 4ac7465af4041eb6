use yt_api::videos::{
    Json, PageInfo, Problem, Response, SchemaError, Thumbnail, VideoResult,
};

fn text(value: &str) -> Json {
    Json::Text(String::from(value))
}

fn number(value: i64) -> Json {
    Json::Number { signed: Some(value), unsigned: u64::try_from(value).ok() }
}

fn object(members: Vec<(&str, Json)>) -> Json {
    Json::Object(members.into_iter().map(|(name, value)| (String::from(name), value)).collect())
}

fn page() -> Json {
    object(vec![("totalResults", number(2)), ("resultsPerPage", number(1))])
}

#[test]
fn parse_reads_an_object_with_its_members() {
    let doc = Json::parse("{\"a\": [1, -2, 2.5], \"b\": null}").unwrap();
    match doc {
        Json::Object(members) => {
            assert_eq!(members.len(), 2);
            assert_eq!(members[0].0, "a");
            assert!(matches!(members[1].1, Json::Null));
        }
        _ => panic!("not an object"),
    }
}

#[test]
fn parse_refuses_what_is_not_json() {
    assert!(Json::parse("{\"a\": ").is_err());
    assert!(Json::parse("").is_err());
    assert!(Json::parse("{} {}").is_err());
}

#[test]
fn parse_reads_every_kind_of_value() {
    assert!(matches!(Json::parse("null").unwrap(), Json::Null));
    assert!(matches!(Json::parse("true").unwrap(), Json::Bool(true)));
    assert!(matches!(Json::parse("false").unwrap(), Json::Bool(false)));
    match Json::parse("\"a\\u00e9\\n\"").unwrap() {
        Json::Text(value) => assert_eq!(value, "a\u{e9}\n"),
        other => panic!("{:?}", other),
    }
    match Json::parse("[[], {}]").unwrap() {
        Json::Array(items) => {
            assert_eq!(items.len(), 2);
            assert!(matches!(&items[0], Json::Array(inner) if inner.is_empty()));
            assert!(matches!(&items[1], Json::Object(inner) if inner.is_empty()));
        }
        other => panic!("{:?}", other),
    }
}

#[test]
fn parse_keeps_of_a_number_what_fits() {
    let read = |source: &str| match Json::parse(source).unwrap() {
        Json::Number { signed, unsigned } => (signed, unsigned),
        other => panic!("{:?}", other),
    };
    assert_eq!(read("0"), (Some(0), Some(0)));
    assert_eq!(read("17"), (Some(17), Some(17)));
    assert_eq!(read("-2"), (Some(-2), None));
    assert_eq!(read("9223372036854775807"), (Some(i64::MAX), Some(9223372036854775807)));
    assert_eq!(read("9223372036854775808"), (None, Some(9223372036854775808)));
    assert_eq!(read("18446744073709551615"), (None, Some(u64::MAX)));
    assert_eq!(read("-9223372036854775808"), (Some(i64::MIN), None));
    assert_eq!(read("2.5"), (None, None));
    assert_eq!(read("1e3"), (None, None));
    assert_eq!(read("18446744073709551616"), (None, None));
}

#[test]
fn get_finds_a_member_by_its_name() {
    let doc = object(vec![("kind", text("k")), ("etag", text("e"))]);
    assert!(matches!(doc.get("etag"), Some(Json::Text(value)) if value == "e"));
    assert!(matches!(doc.get("kind"), Some(Json::Text(value)) if value == "k"));
    assert!(doc.get("id").is_none());
    assert!(doc.get("").is_none());
    assert!(doc.get("Kind").is_none());
}

#[test]
fn get_finds_the_first_of_two_members_of_one_name() {
    let doc = object(vec![("a", number(1)), ("b", number(2)), ("a", number(3))]);
    assert!(matches!(doc.get("a"), Some(Json::Number { signed: Some(1), .. })));
}

#[test]
fn get_finds_nothing_in_what_is_no_object() {
    assert!(Json::Null.get("a").is_none());
    assert!(text("a").get("a").is_none());
    assert!(Json::Array(vec![object(vec![("a", Json::Null)])]).get("a").is_none());
}

#[test]
fn is_object_tells_objects_from_the_rest() {
    assert!(object(vec![]).is_object());
    assert!(!Json::Array(vec![]).is_object());
    assert!(!Json::Null.is_object());
}

#[test]
fn thumbnail_from_a_tree() {
    let doc = object(vec![("url", text("u")), ("width", number(4)), ("height", Json::Null)]);
    assert_eq!(
        Thumbnail::from_json(&doc),
        Ok(Thumbnail { url: String::from("u"), width: Some(4), height: None })
    );
}

#[test]
fn thumbnail_with_a_negative_width_is_invalid() {
    let doc = object(vec![("url", text("u")), ("width", number(-4))]);
    assert_eq!(
        Thumbnail::from_json(&doc),
        Err(SchemaError { field: String::from("width"), problem: Problem::Invalid })
    );
}

#[test]
fn page_info_from_a_tree() {
    assert_eq!(PageInfo::from_json(&page()), Ok(PageInfo { total_results: 2, results_per_page: 1 }));
    assert_eq!(
        PageInfo::from_json(&Json::Array(vec![number(2), number(1)])),
        Err(SchemaError { field: String::new(), problem: Problem::Invalid })
    );
}

#[test]
fn videos_from_an_empty_sequence() {
    assert_eq!(VideoResult::each_from_json(&vec![]), Ok(vec![]));
}

#[test]
fn videos_fail_with_the_fault_of_the_first_faulty_document() {
    let good = object(vec![
        ("kind", text("k")),
        ("etag", text("e")),
        ("id", text("i")),
        ("snippet", object(vec![])),
        ("contentDetails", object(vec![])),
    ]);
    let no_etag = object(vec![("kind", text("k"))]);
    let no_kind = object(vec![]);
    assert_eq!(
        VideoResult::each_from_json(&vec![good, no_etag, no_kind]),
        Err(SchemaError { field: String::from("etag"), problem: Problem::Missing })
    );
}

#[test]
fn response_from_a_tree() {
    let doc = object(vec![
        ("items", Json::Array(vec![])),
        ("pageInfo", page()),
        ("etag", text("e")),
        ("kind", text("k")),
        ("prevPageToken", text("p")),
    ]);
    let response = Response::from_json(&doc).unwrap();
    assert_eq!(response.kind, "k");
    assert_eq!(response.etag, "e");
    assert_eq!(response.next_page_token, None);
    assert_eq!(response.prev_page_token.as_deref(), Some("p"));
    assert_eq!(response.page_info, PageInfo { total_results: 2, results_per_page: 1 });
    assert!(response.items.is_empty());
}
