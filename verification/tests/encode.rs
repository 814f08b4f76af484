use botwire::refs::ChatId;
use botwire::refs::ChatRef;
use botwire::refs::FileRef;
use botwire::refs::MessageId;
use botwire::refs::UserId;

#[test]
fn chat_ref_id_encodes_as_bare_number() {
    let r = ChatRef::Id(ChatId::new(42));
    assert_eq!(r.encode_json(), b"42".to_vec());
}

#[test]
fn chat_ref_username_encodes_as_bare_string() {
    let r = ChatRef::ChannelUsername(String::from("@foo"));
    assert_eq!(r.encode_json(), b"\"@foo\"".to_vec());
}

#[test]
fn ids_encode_as_numbers() {
    assert_eq!(ChatId::new(0).encode_json(), b"0".to_vec());
    assert_eq!(ChatId::new(-1).encode_json(), b"-1".to_vec());
    assert_eq!(UserId::new(1234567).encode_json(), b"1234567".to_vec());
    assert_eq!(
        MessageId::new(i64::MAX).encode_json(),
        b"9223372036854775807".to_vec()
    );
    assert_eq!(
        ChatId::new(i64::MIN).encode_json(),
        b"-9223372036854775808".to_vec()
    );
    assert_eq!(ChatId::new(10).encode_json(), b"10".to_vec());
    assert_eq!(ChatId::new(-100).encode_json(), b"-100".to_vec());
}

#[test]
fn file_ref_encodes_as_string() {
    assert_eq!(FileRef::new("abc").encode_json(), b"\"abc\"".to_vec());
    assert_eq!(FileRef::new("").encode_json(), b"\"\"".to_vec());
}

#[test]
fn strings_are_escaped() {
    let tricky = FileRef::new("a\"b\\c\nd\te\u{1}f");
    assert_eq!(
        tricky.encode_json(),
        b"\"a\\\"b\\\\c\\nd\\te\\u0001f\"".to_vec()
    );
}

#[test]
fn escaped_strings_parse_back() {
    // the encoder agrees with a general-purpose JSON parser
    let tricky = "quote \" backslash \\ newline \n cr \r tab \t bell \u{7} unicode \u{1f600}";
    let encoded = FileRef::new(tricky).encode_json();
    let decoded: String = serde_json::from_slice(&encoded).unwrap();
    assert_eq!(decoded, tricky);
}

#[test]
fn numbers_parse_back() {
    for v in [0i64, 7, -7, 42, i64::MAX, i64::MIN, 1000000007] {
        let encoded = ChatId::new(v).encode_json();
        let decoded: i64 = serde_json::from_slice(&encoded).unwrap();
        assert_eq!(decoded, v);
        assert_eq!(ChatId::decode_json(&encoded), Ok(ChatId::new(v)));
    }
}
