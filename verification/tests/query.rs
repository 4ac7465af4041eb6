use yt_api::videos::{Action, Event, Phase, Videos, VideosData};
use yt_api::ApiKey;

fn data(key: &str, id: Option<&str>) -> VideosData {
    VideosData {
        key: ApiKey::new(key),
        part: String::from("snippet,contentDetails"),
        id: id.map(String::from),
    }
}

fn pair(name: &str, value: &str) -> (String, String) {
    (String::from(name), String::from(value))
}

#[test]
fn query_of_key_and_id() {
    let query = data("ABC", Some("DnJgoWDxG2A")).encode().unwrap();
    assert_eq!(query, "key=ABC&part=snippet%2CcontentDetails&id=DnJgoWDxG2A");
}

#[test]
fn query_without_id_has_no_id_pair() {
    let query = data("ABC", None).encode().unwrap();
    assert_eq!(query, "key=ABC&part=snippet%2CcontentDetails");
    assert!(query.split('&').all(|piece| !piece.starts_with("id=")));
}

#[test]
fn query_with_id_has_exactly_one_id_pair() {
    let query = data("ABC", Some("a b&id=c")).encode().unwrap();
    assert_eq!(query, "key=ABC&part=snippet%2CcontentDetails&id=a+b%26id%3Dc");
    let named: Vec<&str> = query.split('&').filter(|piece| piece.starts_with("id=")).collect();
    assert_eq!(named, vec!["id=a+b%26id%3Dc"]);
}

#[test]
fn query_keeps_the_part_fixed() {
    for id in [None, Some("x"), Some("")] {
        let query = data("k", id).encode().unwrap();
        let pieces: Vec<&str> = query.split('&').collect();
        assert_eq!(pieces[1], "part=snippet%2CcontentDetails");
    }
}

#[test]
fn query_leaves_unreserved_characters() {
    let query = data("AZaz09*-._", None).encode().unwrap();
    assert_eq!(query, "key=AZaz09*-._&part=snippet%2CcontentDetails");
}

#[test]
fn query_encodes_reserved_characters_in_upper_case_hex() {
    let query = data("~/?:+%", None).encode().unwrap();
    assert_eq!(query, "key=%7E%2F%3F%3A%2B%25&part=snippet%2CcontentDetails");
}

#[test]
fn query_encodes_the_bytes_of_utf8() {
    let query = data("k", Some("comt\u{e9} \u{1f600}")).encode().unwrap();
    assert_eq!(query, "key=k&part=snippet%2CcontentDetails&id=comt%C3%A9+%F0%9F%98%80");
}

#[test]
fn query_of_empty_key_and_id() {
    let query = data("", Some("")).encode().unwrap();
    assert_eq!(query, "key=&part=snippet%2CcontentDetails&id=");
}

#[test]
fn query_encodes_another_part_too() {
    let mut parameters = data("k", None);
    parameters.part = String::from("id");
    assert_eq!(parameters.encode().unwrap(), "key=k&part=id");
}

#[test]
fn pairs_without_id() {
    assert_eq!(
        data("ABC", None).pairs(),
        vec![pair("key", "ABC"), pair("part", "snippet,contentDetails")]
    );
}

#[test]
fn pairs_with_id() {
    assert_eq!(
        data("ABC", Some("xyz")).pairs(),
        vec![pair("key", "ABC"), pair("part", "snippet,contentDetails"), pair("id", "xyz")]
    );
}

#[test]
fn api_key_keeps_its_text() {
    assert_eq!(ApiKey::new("secret").0, "secret");
}

#[test]
fn first_poll_asks_for_the_url_of_the_lookup() {
    let mut request = Videos::new(ApiKey::new("ABC")).id("DnJgoWDxG2A");
    match request.advance(Event::Poll) {
        Action::Get(url) => assert_eq!(
            url,
            "https://www.googleapis.com/youtube/v3/videos?key=ABC&part=snippet%2CcontentDetails&id=DnJgoWDxG2A"
        ),
        other => panic!("{:?}", other),
    }
    assert_eq!(request.phase(), Phase::InFlight);
}

#[test]
fn first_poll_without_id_asks_for_key_and_part_only() {
    let mut request = Videos::new(ApiKey::new("ABC"));
    match request.advance(Event::Poll) {
        Action::Get(url) => assert_eq!(
            url,
            "https://www.googleapis.com/youtube/v3/videos?key=ABC&part=snippet%2CcontentDetails"
        ),
        other => panic!("{:?}", other),
    }
}

#[test]
fn the_last_id_set_is_the_one_sent() {
    let mut request = Videos::new(ApiKey::new("k")).id("first").id("second");
    match request.advance(Event::Poll) {
        Action::Get(url) => assert!(url.ends_with("&part=snippet%2CcontentDetails&id=second")),
        other => panic!("{:?}", other),
    }
}

#[test]
fn endpoint_is_the_videos_resource() {
    assert_eq!(Videos::URL, "https://www.googleapis.com/youtube/v3/videos");
    assert_eq!(VideosData::PART, "snippet,contentDetails");
}

#[test]
fn new_parameters_have_the_fixed_part_and_no_id() {
    let parameters = VideosData::new(ApiKey::new("ABC"));
    assert_eq!(parameters.key.0, "ABC");
    assert_eq!(parameters.part, "snippet,contentDetails");
    assert_eq!(parameters.id, None);
}

#[test]
fn with_id_sets_exactly_the_id() {
    let parameters = VideosData::new(ApiKey::new("ABC")).with_id("one").with_id("two");
    assert_eq!(parameters.key.0, "ABC");
    assert_eq!(parameters.part, "snippet,contentDetails");
    assert_eq!(parameters.id.as_deref(), Some("two"));
    assert_eq!(
        parameters.encode().unwrap(),
        "key=ABC&part=snippet%2CcontentDetails&id=two"
    );
}

#[test]
fn every_text_is_written() {
    let long = "\u{10ffff} ".repeat(4096);
    let texts = ["", "\0", "\u{7f}\r\n\t", "=&=&", "%%", "\u{feff}", long.as_str()];
    for key in texts {
        for id in texts {
            let query = data(key, Some(id)).encode().unwrap();
            assert_eq!(query.matches('&').count(), 2);
            assert_eq!(query.matches('=').count(), 3);
            assert!(query.starts_with("key="));
        }
        assert!(data(key, None).encode().is_ok());
    }
    assert_eq!(data("\0", Some("\u{7f}\r\n\t")).encode().unwrap(),
        "key=%00&part=snippet%2CcontentDetails&id=%7F%0D%0A%09");
}
