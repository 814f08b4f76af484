use botwire::Error;
use botwire::refs::ChannelId;
use botwire::refs::ChatId;
use botwire::refs::GroupId;
use botwire::refs::MessageId;
use botwire::refs::SupergroupId;
use botwire::refs::UserId;

#[test]
fn id_round_trips_through_primitive() {
    let c: i64 = ChatId::new(42).into();
    assert_eq!(c, 42);
    let u: i64 = UserId::new(-7).into();
    assert_eq!(u, -7);
    let g: i64 = GroupId::new(0).into();
    assert_eq!(g, 0);
    let s: i64 = SupergroupId::new(i64::MAX).into();
    assert_eq!(s, i64::MAX);
    let n: i64 = ChannelId::new(i64::MIN).into();
    assert_eq!(n, i64::MIN);
    let m: i64 = MessageId::new(99).into();
    assert_eq!(m, 99);
}

#[test]
fn id_from_primitive() {
    assert_eq!(ChatId::from(5), ChatId::new(5));
    assert_eq!(UserId::from(5), UserId::new(5));
    assert_eq!(MessageId::from(-3), MessageId::new(-3));
}

#[test]
fn distinct_kinds_widen_to_the_same_chat_id() {
    // the kinds themselves are incomparable at the type level; only their
    // widened forms meet
    assert_eq!(ChatId::from(UserId::new(7)), ChatId::new(7));
    assert_eq!(ChatId::from(GroupId::new(7)), ChatId::new(7));
    assert_eq!(ChatId::from(SupergroupId::new(7)), ChatId::new(7));
    assert_eq!(ChatId::from(ChannelId::new(7)), ChatId::new(7));
}

#[test]
fn decode_accepts_integers() {
    assert_eq!(ChatId::decode_json(b"123"), Ok(ChatId::new(123)));
    assert_eq!(ChatId::decode_json(b"0"), Ok(ChatId::new(0)));
    assert_eq!(ChatId::decode_json(b"-123"), Ok(ChatId::new(-123)));
    assert_eq!(
        ChatId::decode_json(b"9223372036854775807"),
        Ok(ChatId::new(i64::MAX))
    );
    assert_eq!(
        ChatId::decode_json(b"-9223372036854775808"),
        Ok(ChatId::new(i64::MIN))
    );
    assert_eq!(UserId::decode_json(b"7"), Ok(UserId::new(7)));
    assert_eq!(MessageId::decode_json(b"-1"), Ok(MessageId::new(-1)));
}

#[test]
fn decode_rejects_strings() {
    // a JSON string is never silently parsed as a number
    assert_eq!(
        ChatId::decode_json(b"\"123\""),
        Err(Error::MalformedIdentifier)
    );
    assert_eq!(
        UserId::decode_json(b"\"123\""),
        Err(Error::MalformedIdentifier)
    );
    assert_eq!(
        GroupId::decode_json(b"\"abc\""),
        Err(Error::MalformedIdentifier)
    );
    assert_eq!(
        SupergroupId::decode_json(b"\"1\""),
        Err(Error::MalformedIdentifier)
    );
    assert_eq!(
        ChannelId::decode_json(b"\"-5\""),
        Err(Error::MalformedIdentifier)
    );
    assert_eq!(
        MessageId::decode_json(b"\"0\""),
        Err(Error::MalformedIdentifier)
    );
}

#[test]
fn decode_rejects_malformed_numbers() {
    assert_eq!(ChatId::decode_json(b""), Err(Error::MalformedIdentifier));
    assert_eq!(ChatId::decode_json(b"-"), Err(Error::MalformedIdentifier));
    assert_eq!(ChatId::decode_json(b"007"), Err(Error::MalformedIdentifier));
    assert_eq!(ChatId::decode_json(b"-0"), Err(Error::MalformedIdentifier));
    assert_eq!(ChatId::decode_json(b"12a"), Err(Error::MalformedIdentifier));
    assert_eq!(ChatId::decode_json(b" 1"), Err(Error::MalformedIdentifier));
    assert_eq!(ChatId::decode_json(b"1.5"), Err(Error::MalformedIdentifier));
}

#[test]
fn decode_rejects_out_of_range() {
    assert_eq!(
        ChatId::decode_json(b"9223372036854775808"),
        Err(Error::MalformedIdentifier)
    );
    assert_eq!(
        ChatId::decode_json(b"-9223372036854775809"),
        Err(Error::MalformedIdentifier)
    );
    assert_eq!(
        ChatId::decode_json(b"99999999999999999999999999999999"),
        Err(Error::MalformedIdentifier)
    );
}
