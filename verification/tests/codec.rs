use baklog_desktop::codec::{
    bundle_from_members, decode, encode, find_member, frame_record, seal,
};
use baklog_desktop::credentials::Credentials;
use baklog_desktop::failure::ErrorKind;

fn bundle(database_url: &str, api_key: &str, id: &str, secret: &str, auth: &str) -> Credentials {
    Credentials {
        database_url: String::from(database_url),
        openai_api_key: String::from(api_key),
        auth_google_id: String::from(id),
        auth_google_secret: String::from(secret),
        auth_secret: String::from(auth),
    }
}

fn pair(name: &str, value: &str) -> (String, String) {
    (String::from(name), String::from(value))
}

#[test]
fn the_frame_holds_five_members_in_field_order() {
    assert_eq!(
        frame_record("1", "2", "3", "4", "5"),
        "{\"database_url\":1,\"openai_api_key\":2,\"auth_google_id\":3,\"auth_google_secret\":4,\"auth_secret\":5}"
    );
}

#[test]
fn a_bundle_is_written_as_one_compact_object() {
    let text = encode(&bundle("postgres://db", "sk-key", "id", "secret", "00ff")).unwrap();
    assert_eq!(
        text,
        "{\"database_url\":\"postgres://db\",\"openai_api_key\":\"sk-key\",\"auth_google_id\":\"id\",\"auth_google_secret\":\"secret\",\"auth_secret\":\"00ff\"}"
    );
}

#[test]
fn special_characters_are_escaped() {
    let text = encode(&bundle("a\"b", "back\\slash", "line\nbreak", "tab\t", "\u{1}é")).unwrap();
    assert_eq!(
        text,
        "{\"database_url\":\"a\\\"b\",\"openai_api_key\":\"back\\\\slash\",\"auth_google_id\":\"line\\nbreak\",\"auth_google_secret\":\"tab\\t\",\"auth_secret\":\"\\u0001é\"}"
    );
}

#[test]
fn what_was_written_is_read_back() {
    let given = bundle("a\"b", "back\\slash", "line\nbreak", "{\"x\":1}", "\u{1}é,:}");
    let read = decode(&encode(&given).unwrap()).unwrap();
    assert_eq!(read.database_url, given.database_url);
    assert_eq!(read.openai_api_key, given.openai_api_key);
    assert_eq!(read.auth_google_id, given.auth_google_id);
    assert_eq!(read.auth_google_secret, given.auth_google_secret);
    assert_eq!(read.auth_secret, given.auth_secret);
}

#[test]
fn members_are_read_in_any_order_and_with_white_space() {
    let text = " { \"auth_secret\" : \"s\", \"auth_google_secret\":\"gs\",\n \"auth_google_id\":\"gi\", \"openai_api_key\":\"k\", \"database_url\":\"\\u0064b\" } ";
    let read = decode(text).unwrap();
    assert_eq!(read.database_url, "db");
    assert_eq!(read.openai_api_key, "k");
    assert_eq!(read.auth_google_id, "gi");
    assert_eq!(read.auth_google_secret, "gs");
    assert_eq!(read.auth_secret, "s");
}

#[test]
fn other_members_are_passed_over() {
    let text = "{\"database_url\":\"d\",\"openai_api_key\":\"k\",\"auth_google_id\":\"i\",\"auth_google_secret\":\"g\",\"auth_secret\":\"s\",\"note\":\"kept for later\"}";
    let read = decode(text).unwrap();
    assert_eq!(read.database_url, "d");
    assert_eq!(read.auth_secret, "s");
}

#[test]
fn a_missing_field_is_malformed() {
    let text = "{\"database_url\":\"d\",\"openai_api_key\":\"k\",\"auth_google_id\":\"i\",\"auth_google_secret\":\"g\"}";
    assert_eq!(decode(text).unwrap_err().kind, ErrorKind::Malformed);
    assert_eq!(decode("{}").unwrap_err().kind, ErrorKind::Malformed);
}

#[test]
fn text_that_is_no_object_of_strings_is_malformed() {
    assert_eq!(decode("").unwrap_err().kind, ErrorKind::Malformed);
    assert_eq!(decode("not json").unwrap_err().kind, ErrorKind::Malformed);
    assert_eq!(decode("[\"d\",\"k\",\"i\",\"g\",\"s\"]").unwrap_err().kind, ErrorKind::Malformed);
    assert_eq!(decode("\"text\"").unwrap_err().kind, ErrorKind::Malformed);
    let number = "{\"database_url\":1,\"openai_api_key\":\"k\",\"auth_google_id\":\"i\",\"auth_google_secret\":\"g\",\"auth_secret\":\"s\"}";
    assert_eq!(decode(number).unwrap_err().kind, ErrorKind::Malformed);
    let trailing = "{\"database_url\":\"d\",\"openai_api_key\":\"k\",\"auth_google_id\":\"i\",\"auth_google_secret\":\"g\",\"auth_secret\":\"s\"} x";
    assert_eq!(decode(trailing).unwrap_err().kind, ErrorKind::Malformed);
}

#[test]
fn a_refused_text_comes_with_the_parser_s_words() {
    let failure = decode("not json").unwrap_err();
    assert!(!failure.detail.is_empty());
    assert_ne!(failure.detail, "not json");
}

#[test]
fn empty_fields_are_read_as_they_are() {
    let text = "{\"database_url\":\"\",\"openai_api_key\":\"\",\"auth_google_id\":\"\",\"auth_google_secret\":\"\",\"auth_secret\":\"\"}";
    let read = decode(text).unwrap();
    assert_eq!(read.database_url, "");
    assert_eq!(read.auth_secret, "");
}

#[test]
fn find_member_takes_the_first_of_a_name() {
    let members = vec![pair("a", "1"), pair("b", "2"), pair("a", "3")];
    assert_eq!(find_member(&members, "a"), Some(String::from("1")));
    assert_eq!(find_member(&members, "b"), Some(String::from("2")));
    assert_eq!(find_member(&members, "c"), None);
    assert_eq!(find_member(&Vec::new(), "a"), None);
}

#[test]
fn a_bundle_needs_all_five_members() {
    let mut members = vec![
        pair("auth_google_id", "i"),
        pair("auth_google_secret", "g"),
        pair("auth_secret", "s"),
        pair("database_url", "d"),
    ];
    assert!(bundle_from_members(&members).is_none());
    members.push(pair("openai_api_key", "k"));
    let read = bundle_from_members(&members).unwrap();
    assert_eq!(read.database_url, "d");
    assert_eq!(read.openai_api_key, "k");
    assert_eq!(read.auth_google_id, "i");
    assert_eq!(read.auth_google_secret, "g");
    assert_eq!(read.auth_secret, "s");
}

#[test]
fn a_sealed_record_is_the_written_record() {
    let given = bundle("a\"b", "back\\slash", "line\nbreak", "{\"x\":1}", "\u{1}é,:}");
    assert_eq!(seal(&given).unwrap(), encode(&given).unwrap());
    let plain = bundle("d", "k", "i", "g", "s");
    assert_eq!(
        seal(&plain).unwrap(),
        "{\"database_url\":\"d\",\"openai_api_key\":\"k\",\"auth_google_id\":\"i\",\"auth_google_secret\":\"g\",\"auth_secret\":\"s\"}"
    );
}

#[test]
fn a_sealed_record_reads_back_as_the_bundle() {
    let given = bundle("", "\u{0}", "\u{7f}\u{80}\u{ffff}", "\u{1f600}", "\r\n\t\u{8}\u{c}/");
    let read = decode(&seal(&given).unwrap()).unwrap();
    assert!(read.same_as(&given));
}
