use playlist_listener::decode::{
    decode, decode_document, find_field, find_text, has_mistyped, read_document, DecodeError,
};
use playlist_listener::document::{Document, Member};
use playlist_listener::record::{Field, IncomingRecord};

fn record(current_time: &str, playlist_contents: &str) -> IncomingRecord {
    IncomingRecord {
        current_time: current_time.to_string(),
        playlist_contents: playlist_contents.to_string(),
    }
}

fn member(name: &str, text: Option<&str>) -> Member {
    Member { name: name.to_string(), text: text.map(|t| t.to_string()) }
}

#[test]
fn decodes_canonical_names() {
    let outcome = decode("{\"current_time\":\"12:00:00\",\"playlist_contents\":\"song1,song2\"}");
    assert_eq!(outcome, Ok(record("12:00:00", "song1,song2")));
}

#[test]
fn decodes_alias_names() {
    let outcome = decode("{\"currentTime\":\"12:00:00\",\"playlistContents\":\"song1,song2\"}");
    assert_eq!(outcome, Ok(record("12:00:00", "song1,song2")));
}

#[test]
fn decodes_mixed_spellings() {
    let one = decode("{\"current_time\":\"a\",\"playlistContents\":\"b\"}");
    assert_eq!(one, Ok(record("a", "b")));
    let other = decode("{\"playlist_contents\":\"b\",\"currentTime\":\"a\"}");
    assert_eq!(other, Ok(record("a", "b")));
}

#[test]
fn ignores_unknown_fields() {
    let text = "{\"volume\":11,\"currentTime\":\"12:00:00\",\"nested\":{\"current_time\":\"no\"},\
                \"playlistContents\":\"song1\",\"tags\":[\"x\",\"y\"],\"muted\":null}";
    assert_eq!(decode(text), Ok(record("12:00:00", "song1")));
}

#[test]
fn accepts_surrounding_whitespace() {
    let text = " \n{ \"current_time\" : \"t\" ,\t\"playlist_contents\" : \"p\" }\r\n";
    assert_eq!(decode(text), Ok(record("t", "p")));
}

#[test]
fn keeps_the_texts_as_they_are() {
    let text = "{\"current_time\":\"\",\"playlist_contents\":\" not a time, \\\"quoted\\\" \"}";
    assert_eq!(decode(text), Ok(record("", " not a time, \"quoted\" ")));
}

#[test]
fn resolves_escapes_in_names_and_texts() {
    let text = "{\"current\\u005ftime\":\"12\\u003a00\",\"playlist_contents\":\"a\\nb\"}";
    assert_eq!(decode(text), Ok(record("12:00", "a\nb")));
}

#[test]
fn canonical_name_goes_before_alias() {
    let text = "{\"currentTime\":\"alias\",\"current_time\":\"canonical\",\
                \"playlist_contents\":\"own\",\"playlistContents\":\"other\"}";
    assert_eq!(decode(text), Ok(record("canonical", "own")));
}

#[test]
fn mistyped_own_name_fails_whatever_the_alias_holds() {
    let text = "{\"current_time\":5,\"currentTime\":\"12:00:00\",\"playlist_contents\":\"p\"}";
    assert_eq!(decode(text), Err(DecodeError::InvalidField(Field::CurrentTime)));
}

#[test]
fn mistyped_alias_fails_whatever_the_own_name_holds() {
    let text = "{\"current_time\":\"t\",\"playlist_contents\":\"p\",\"playlistContents\":[]}";
    assert_eq!(decode(text), Err(DecodeError::InvalidField(Field::PlaylistContents)));
}

#[test]
fn last_of_repeated_names_counts() {
    let text = "{\"current_time\":\"first\",\"current_time\":\"second\",\"playlist_contents\":\"p\"}";
    assert_eq!(decode(text), Ok(record("second", "p")));
}

#[test]
fn rejects_text_that_is_not_json() {
    assert!(matches!(decode("not json"), Err(DecodeError::Malformed(_))));
    assert!(matches!(decode("{\"current_time\":\"a\""), Err(DecodeError::Malformed(_))));
    assert!(matches!(decode("{current_time:\"a\"}"), Err(DecodeError::Malformed(_))));
    assert!(matches!(decode("{'current_time':'a'}"), Err(DecodeError::Malformed(_))));
}

#[test]
fn rejects_trailing_characters() {
    let text = "{\"current_time\":\"a\",\"playlist_contents\":\"b\"} x";
    assert!(matches!(decode(text), Err(DecodeError::Malformed(_))));
}

#[test]
fn malformed_error_carries_the_parsers_message() {
    assert_eq!(
        decode(""),
        Err(DecodeError::Malformed("EOF while parsing a value at line 1 column 0".to_string()))
    );
    assert_eq!(
        decode("not json"),
        Err(DecodeError::Malformed("expected ident at line 1 column 2".to_string()))
    );
    assert_ne!(decode("not json"), Err(DecodeError::Malformed("not json".to_string())));
}

#[test]
fn rejects_json_that_is_no_object() {
    assert_eq!(decode("[\"12:00:00\",\"song1\"]"), Err(DecodeError::NotAnObject));
    assert_eq!(decode("\"current_time\""), Err(DecodeError::NotAnObject));
    assert_eq!(decode("42"), Err(DecodeError::NotAnObject));
    assert_eq!(decode("null"), Err(DecodeError::NotAnObject));
    assert_eq!(decode("true"), Err(DecodeError::NotAnObject));
}

#[test]
fn reports_missing_current_time() {
    let outcome = decode("{\"playlist_contents\":\"song1\"}");
    assert_eq!(outcome, Err(DecodeError::MissingField(Field::CurrentTime)));
}

#[test]
fn reports_missing_playlist() {
    let outcome = decode("{\"currentTime\":\"12:00:00\"}");
    assert_eq!(outcome, Err(DecodeError::MissingField(Field::PlaylistContents)));
}

#[test]
fn reports_current_time_first_when_both_are_missing() {
    assert_eq!(decode("{}"), Err(DecodeError::MissingField(Field::CurrentTime)));
    assert_eq!(decode("{\"other\":\"x\"}"), Err(DecodeError::MissingField(Field::CurrentTime)));
}

#[test]
fn field_that_holds_no_text_is_invalid() {
    let number = decode("{\"current_time\":1200,\"playlist_contents\":\"p\"}");
    assert_eq!(number, Err(DecodeError::InvalidField(Field::CurrentTime)));
    let null = decode("{\"current_time\":\"t\",\"playlistContents\":null}");
    assert_eq!(null, Err(DecodeError::InvalidField(Field::PlaylistContents)));
    let list = decode("{\"current_time\":\"t\",\"playlist_contents\":[\"a\",\"b\"]}");
    assert_eq!(list, Err(DecodeError::InvalidField(Field::PlaylistContents)));
    let object = decode("{\"currentTime\":{\"h\":12},\"playlist_contents\":\"p\"}");
    assert_eq!(object, Err(DecodeError::InvalidField(Field::CurrentTime)));
    let flag = decode("{\"current_time\":\"t\",\"playlist_contents\":true}");
    assert_eq!(flag, Err(DecodeError::InvalidField(Field::PlaylistContents)));
}

#[test]
fn invalid_field_is_reported_before_a_missing_one() {
    let text = "{\"playlist_contents\":5}";
    assert_eq!(decode(text), Err(DecodeError::InvalidField(Field::PlaylistContents)));
    let both = "{\"playlist_contents\":5,\"currentTime\":6}";
    assert_eq!(decode(both), Err(DecodeError::InvalidField(Field::CurrentTime)));
}

#[test]
fn values_under_other_names_may_be_anything() {
    let text = "{\"current_time\":\"t\",\"playlist_contents\":\"p\",\
                \"inner\":{\"current_time\":5},\"currenttime\":7}";
    assert_eq!(decode(text), Ok(record("t", "p")));
}

#[test]
fn names_are_matched_exactly() {
    let text = "{\"Current_Time\":\"t\",\"current_time \":\"t\",\"playlist_contents\":\"p\"}";
    assert_eq!(decode(text), Err(DecodeError::MissingField(Field::CurrentTime)));
}

#[test]
fn reads_the_members_of_an_object() {
    let outcome = read_document("{\"b\":\"two\",\"a\":1,\"c\":{\"d\":\"deep\"}}");
    let members = match outcome {
        Ok(Document::Object(members)) => members,
        other => panic!("no object: {:?}", other),
    };
    assert_eq!(members.len(), 3);
    assert!(members.contains(&member("a", None)));
    assert!(members.contains(&member("b", Some("two"))));
    assert!(members.contains(&member("c", None)));
}

#[test]
fn reads_other_values_as_other() {
    assert_eq!(read_document("[1,2]"), Ok(Document::Other));
    assert_eq!(read_document("\"text\""), Ok(Document::Other));
    assert_eq!(read_document(" 7 "), Ok(Document::Other));
}

#[test]
fn reads_no_document_from_broken_text() {
    assert!(matches!(read_document("{"), Err(DecodeError::Malformed(_))));
    assert!(matches!(read_document("{} {}"), Err(DecodeError::Malformed(_))));
}

#[test]
fn decodes_a_document_built_by_hand() {
    let document = Document::Object(vec![
        member("extra", Some("x")),
        member("playlistContents", Some("song1,song2")),
        member("current_time", Some("12:00:00")),
    ]);
    assert_eq!(decode_document(&document), Ok(record("12:00:00", "song1,song2")));
}

#[test]
fn first_member_of_a_name_gives_the_field() {
    let document = Document::Object(vec![
        member("current_time", Some("first")),
        member("current_time", Some("second")),
        member("playlist_contents", Some("p")),
    ]);
    assert_eq!(decode_document(&document), Ok(record("first", "p")));
}

#[test]
fn member_without_text_spoils_a_document_built_by_hand() {
    let document = Document::Object(vec![
        member("current_time", Some("first")),
        member("playlist_contents", Some("p")),
        member("current_time", None),
    ]);
    assert_eq!(decode_document(&document), Err(DecodeError::InvalidField(Field::CurrentTime)));
    let other = Document::Object(vec![
        member("unknown", None),
        member("playlistContents", None),
    ]);
    assert_eq!(decode_document(&other), Err(DecodeError::InvalidField(Field::PlaylistContents)));
}

#[test]
fn tells_whether_a_field_is_mistyped() {
    let members = vec![
        member("current_time", Some("t")),
        member("other", None),
        member("playlistContents", None),
    ];
    assert!(!has_mistyped(&members, Field::CurrentTime));
    assert!(has_mistyped(&members, Field::PlaylistContents));
    assert!(!has_mistyped(&Vec::new(), Field::CurrentTime));
    let late = vec![member("currentTime", Some("t")), member("current_time", None)];
    assert!(has_mistyped(&late, Field::CurrentTime));
    assert!(!has_mistyped(&late, Field::PlaylistContents));
}

#[test]
fn document_without_members_lacks_the_timestamp() {
    let document = Document::Object(Vec::new());
    assert_eq!(decode_document(&document), Err(DecodeError::MissingField(Field::CurrentTime)));
    assert_eq!(decode_document(&Document::Other), Err(DecodeError::NotAnObject));
}

#[test]
fn finds_text_under_a_name() {
    let members = vec![
        member("a", None),
        member("b", Some("one")),
        member("a", Some("two")),
        member("b", Some("three")),
    ];
    assert_eq!(find_text(&members, "a"), None);
    assert_eq!(find_text(&members, "b"), Some("one".to_string()));
    assert_eq!(find_text(&members, "c"), None);
    assert_eq!(find_text(&Vec::new(), "a"), None);
}

#[test]
fn finds_a_field_under_either_spelling() {
    let alias_only = vec![member("playlistContents", Some("p"))];
    assert_eq!(find_field(&alias_only, Field::PlaylistContents), Some("p".to_string()));
    assert_eq!(find_field(&alias_only, Field::CurrentTime), None);
    let both = vec![member("currentTime", Some("alias")), member("current_time", Some("own"))];
    assert_eq!(find_field(&both, Field::CurrentTime), Some("own".to_string()));
}

#[test]
fn fields_have_two_spellings() {
    assert_eq!(Field::CurrentTime.canonical(), "current_time");
    assert_eq!(Field::CurrentTime.alias(), "currentTime");
    assert_eq!(Field::PlaylistContents.canonical(), "playlist_contents");
    assert_eq!(Field::PlaylistContents.alias(), "playlistContents");
}
