use botwire::answer_inline_query::AnswerInlineQuery;
use botwire::answer_inline_query::CanAnswerInlineQuery;
use botwire::get_chat::CanGetChat;
use botwire::get_chat::GetChat;
use botwire::http::Body;
use botwire::http::HttpRequest;
use botwire::http::Method;
use botwire::http::Request;
use botwire::refs::ChatId;
use botwire::refs::ChatRef;
use botwire::refs::UserId;
use botwire::types::InlineQueryId;
use botwire::types::InlineQueryResult;

fn body_bytes(envelope: &HttpRequest) -> Vec<u8> {
    match &envelope.body {
        Body::Json(bytes) => bytes.clone(),
    }
}

#[test]
fn get_chat_builder_end_to_end() {
    let req = UserId::new(7).get_chat();
    let envelope = req.serialize().unwrap();
    assert_eq!(envelope.url.name, "getChat");
    assert!(matches!(envelope.method, Method::Post));
    assert_eq!(body_bytes(&envelope), b"{\"chat_id\":7}".to_vec());
}

#[test]
fn get_chat_by_username() {
    let req = GetChat::new(ChatRef::ChannelUsername(String::from("@chan")));
    let envelope = req.serialize().unwrap();
    assert_eq!(body_bytes(&envelope), b"{\"chat_id\":\"@chan\"}".to_vec());
}

#[test]
fn empty_and_absent_fields_are_skipped() {
    let req = AnswerInlineQuery::new(InlineQueryId::new("q1"), Vec::new(), None, None);
    let envelope = req.serialize().unwrap();
    assert_eq!(envelope.url.name, "answerInlineQuery");
    let body = body_bytes(&envelope);
    assert_eq!(
        body,
        b"{\"inline_query_id\":\"q1\",\"is_personal\":true}".to_vec()
    );
    // cross-check with a general-purpose parser: the skipped keys are
    // absent, not null or empty
    let value: serde_json::Value = serde_json::from_slice(&body).unwrap();
    let object = value.as_object().unwrap();
    assert_eq!(object.len(), 2);
    assert!(object.contains_key("inline_query_id"));
    assert!(object.contains_key("is_personal"));
    assert!(!object.contains_key("results"));
    assert!(!object.contains_key("switch_pm_text"));
    assert!(!object.contains_key("switch_pm_parameter"));
}

#[test]
fn present_fields_are_encoded_in_order() {
    let results = vec![
        InlineQueryResult::new("article", "r1"),
        InlineQueryResult::new("photo", "r2"),
    ];
    let req = AnswerInlineQuery::new(
        InlineQueryId::new("q2"),
        results,
        Some(String::from("more")),
        Some(String::from("deep")),
    );
    let envelope = req.serialize().unwrap();
    let expected: &[u8] = b"{\"inline_query_id\":\"q2\",\"results\":[{\"type\":\"article\",\"id\":\"r1\"},{\"type\":\"photo\",\"id\":\"r2\"}],\"is_personal\":true,\"switch_pm_text\":\"more\",\"switch_pm_parameter\":\"deep\"}";
    assert_eq!(body_bytes(&envelope), expected.to_vec());
}

#[test]
fn add_inline_result_appends() {
    let mut req = AnswerInlineQuery::new(InlineQueryId::new("q3"), Vec::new(), None, None);
    req.add_inline_result(InlineQueryResult::new("article", "only"));
    let body = body_bytes(&req.serialize().unwrap());
    assert_eq!(
        body,
        b"{\"inline_query_id\":\"q3\",\"results\":[{\"type\":\"article\",\"id\":\"only\"}],\"is_personal\":true}".to_vec()
    );
}

#[test]
fn encoding_is_idempotent() {
    let req = AnswerInlineQuery::new(
        InlineQueryId::new("same"),
        vec![InlineQueryResult::new("article", "a")],
        Some(String::from("t")),
        None,
    );
    let first = req.serialize().unwrap();
    let second = req.serialize().unwrap();
    assert_eq!(first.url.name, second.url.name);
    assert!(matches!(first.method, Method::Post));
    assert!(matches!(second.method, Method::Post));
    assert_eq!(body_bytes(&first), body_bytes(&second));

    let get = GetChat::new(ChatId::new(-55));
    assert_eq!(
        body_bytes(&get.serialize().unwrap()),
        body_bytes(&get.serialize().unwrap())
    );
}

#[test]
fn anything_query_like_can_answer() {
    let req = String::from("query-9").answer(Vec::new(), None, None);
    assert!(req.is_personal);
    assert_eq!(req.inline_query_id, InlineQueryId::new("query-9"));
    let body = body_bytes(&req.serialize().unwrap());
    assert_eq!(
        body,
        b"{\"inline_query_id\":\"query-9\",\"is_personal\":true}".to_vec()
    );

    let other = InlineQueryId::new("query-10").answer(Vec::new(), None, None);
    assert_eq!(other.inline_query_id, InlineQueryId::new("query-10"));
}

#[test]
fn query_id_strings_are_escaped_in_the_body() {
    let req = AnswerInlineQuery::new(InlineQueryId::new("a\"b"), Vec::new(), None, None);
    let body = body_bytes(&req.serialize().unwrap());
    let value: serde_json::Value = serde_json::from_slice(&body).unwrap();
    assert_eq!(value["inline_query_id"].as_str(), Some("a\"b"));
}
