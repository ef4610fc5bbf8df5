use ironclaw::http::HttpResponse;
use ironclaw::json::Json;
use ironclaw::tool::Response;
use ironclaw::zoho_mail::{
    api_reply, search_facts, search_messages, summarise, url_encode, Action, DESCRIPTION, SCHEMA,
};

fn reply(status: u16, body: &[u8]) -> Result<HttpResponse, String> {
    Ok(HttpResponse {
        status,
        body: body.to_vec(),
    })
}

fn error_of(params: &str) -> String {
    match Action::parse(params) {
        Ok(_) => panic!("accepted: {params}"),
        Err(e) => e,
    }
}

fn url_of(params: &str) -> (&'static str, String) {
    let r = Action::parse(params).ok().unwrap().request().ok().unwrap();
    (r.method, r.url)
}

fn body_of(params: &str) -> (String, serde_json::Value) {
    let r = Action::parse(params).ok().unwrap().request().ok().unwrap();
    (r.headers, serde_json::from_slice(&r.body.unwrap()).unwrap())
}

#[test]
fn texts_are_percent_encoded() {
    assert_eq!(url_encode(""), "");
    assert_eq!(url_encode("AZaz09-_.~"), "AZaz09-_.~");
    assert_eq!(url_encode("a b/c?d&e=f%"), "a%20b%2Fc%3Fd%26e%3Df%25");
    assert_eq!(url_encode("é€"), "%C3%A9%E2%82%AC");
    assert_eq!(url_encode("\u{0}\u{7f}"), "%00%7F");
}

#[test]
fn encoded_texts_differ_where_the_texts_do() {
    let texts = ["", "a", "%61", "a ", " a", "a+", "é", "e\u{301}"];
    for a in texts {
        for b in texts {
            assert_eq!(url_encode(a) == url_encode(b), a == b);
        }
        assert!(url_encode(a)
            .chars()
            .all(|c| c.is_ascii_alphanumeric() || "-_.~%".contains(c)));
    }
}

#[test]
fn requests_are_refused_in_their_words() {
    assert!(error_of("{").starts_with("Invalid JSON: EOF while parsing"));
    assert_eq!(error_of("{}"), "Missing 'action' field");
    assert_eq!(error_of("[]"), "Missing 'action' field");
    assert_eq!(error_of(r#"{"action":1}"#), "Missing 'action' field");
    for action in [
        "search_messages",
        "get_message",
        "list_folders",
        "list_tags",
        "create_tag",
        "tag_message",
        "untag_message",
    ] {
        assert_eq!(
            error_of(&format!(r#"{{"action":"{action}"}}"#)),
            "Missing 'account_id'"
        );
    }
    assert_eq!(
        error_of(r#"{"action":"get_message","account_id":"1"}"#),
        "Missing 'message_id'"
    );
    assert_eq!(
        error_of(r#"{"action":"create_tag","account_id":"1"}"#),
        "Missing 'tag_name'"
    );
    assert_eq!(
        error_of(r#"{"action":"tag_message","account_id":"1","message_id":"2"}"#),
        "Missing 'tag_id'"
    );
    assert_eq!(
        error_of(r#"{"action":"untag_message","account_id":"1"}"#),
        "Missing 'message_id'"
    );
    assert_eq!(
        error_of(r#"{"action":"send"}"#),
        "Unknown action 'send'. Use: get_accounts, search_messages, get_message, list_folders, list_tags, create_tag, tag_message, untag_message"
    );
}

#[test]
fn reading_calls_are_gets_without_a_body() {
    let base = "https://mail.zoho.com.au/api";
    assert_eq!(
        url_of(r#"{"action":"get_accounts"}"#),
        ("GET", format!("{base}/accounts"))
    );
    assert_eq!(
        url_of(r#"{"action":"search_messages","account_id":"a/1","query":"newsletter AI","limit":5}"#),
        (
            "GET",
            format!("{base}/accounts/a%2F1/messages/search?searchKey=newsletter%20AI&limit=5")
        )
    );
    assert_eq!(
        url_of(r#"{"action":"get_message","account_id":"1","message_id":"2?"}"#),
        ("GET", format!("{base}/accounts/1/messages/2%3F"))
    );
    assert_eq!(
        url_of(r#"{"action":"list_folders","account_id":"1"}"#),
        ("GET", format!("{base}/accounts/1/folders"))
    );
    assert_eq!(
        url_of(r#"{"action":"list_tags","account_id":"1"}"#),
        ("GET", format!("{base}/accounts/1/tags"))
    );
    let r = Action::parse(r#"{"action":"get_accounts"}"#)
        .ok()
        .unwrap()
        .request()
        .ok()
        .unwrap();
    assert_eq!(r.headers, "{}");
    assert!(r.body.is_none());
    assert!(r.timeout_ms.is_none());
}

#[test]
fn searches_have_a_limit() {
    let limit = |params: &str| url_of(params).1.rsplit('=').next().unwrap().to_string();
    let with = |l: &str| format!(r#"{{"action":"search_messages","account_id":"1","limit":{l}}}"#);
    assert_eq!(limit(r#"{"action":"search_messages","account_id":"1"}"#), "20");
    assert_eq!(limit(&with("7")), "7");
    assert_eq!(limit(&with("\"7\"")), "20");
    assert_eq!(limit(&with("-7")), "20");
    assert_eq!(limit(&with("7.5")), "20");
    assert_eq!(limit(&with("4294967297")), "1");
    assert!(search_messages("1", "", u32::MAX).url.ends_with("limit=4294967295"));
}

#[test]
fn tagging_calls_carry_a_document() {
    let (headers, body) = body_of(
        r##"{"action":"create_tag","account_id":"1","tag_name":"n","tag_color":"#FF0000"}"##,
    );
    assert_eq!(headers, r#"{"Content-Type": "application/json"}"#);
    assert_eq!(body["tagName"], "n");
    assert_eq!(body["color"], "#FF0000");
    let (_, body) = body_of(r#"{"action":"create_tag","account_id":"1","tag_name":"n"}"#);
    assert_eq!(body.as_object().unwrap().len(), 1);
    let tagging =
        r#"{"action":"tag_message","account_id":"1","message_id":"2","tag_id":"3"}"#;
    assert_eq!(
        url_of(tagging),
        (
            "PUT",
            "https://mail.zoho.com.au/api/accounts/1/messages/2".to_string()
        )
    );
    let (_, body) = body_of(tagging);
    assert_eq!(body["mode"], "addTag");
    assert_eq!(body["tagid"], "3");
    let (_, body) = body_of(&tagging.replace("tag_message", "untag_message"));
    assert_eq!(body["mode"], "removeTag");
    assert_eq!(
        url_of(r#"{"action":"create_tag","account_id":"1","tag_name":"n"}"#).0,
        "POST"
    );
}

#[test]
fn replies_are_read_as_text() {
    assert_eq!(api_reply(reply(200, b"")).unwrap(), "{}");
    assert_eq!(api_reply(reply(204, "é".as_bytes())).unwrap(), "é");
    assert_eq!(
        api_reply(reply(401, b"no")).unwrap_err(),
        "Zoho API returned status 401: no"
    );
    assert_eq!(
        api_reply(reply(500, b"a\xff")).unwrap_err(),
        "Zoho API returned status 500: a\u{fffd}"
    );
    assert_eq!(api_reply(Err("down".to_string())).unwrap_err(), "down");
    assert_eq!(
        api_reply(reply(200, b"a\xff")).unwrap_err(),
        "Invalid UTF-8 in response: invalid utf-8 sequence of 1 bytes from index 1"
    );
}

#[test]
fn searches_are_summarised() {
    let text = r#"{"status":{"code":200},"data":[
        {"messageId":"1","subject":"s","sender":"x","fromAddress":"x@y","receivedTime":12,"summary":"t","folderId":"f","more":true},
        {"messageId":"2"},
        7
    ]}"#;
    let out = summarise(text).unwrap();
    assert!(out.starts_with("{\n  \"count\": 3,"));
    let v: serde_json::Value = serde_json::from_str(&out).unwrap();
    let messages = v["messages"].as_array().unwrap();
    assert_eq!(messages.len(), 3);
    assert_eq!(messages[0]["from"], "x@y");
    assert_eq!(messages[0]["receivedTime"], 12);
    assert_eq!(messages[0].as_object().unwrap().len(), 7);
    assert_eq!(messages[1]["messageId"], "2");
    assert!(messages[1]["subject"].is_null());
    assert!(messages[2]["messageId"].is_null());
    let none = search_facts(&Json::parse(r#"{"data":{}}"#).unwrap()).to_text();
    assert_eq!(none, r#"{"count":0,"messages":[]}"#);
    assert!(summarise("x").unwrap_err().starts_with("Parse error: expected value"));
}

#[test]
fn only_searches_are_rewritten() {
    let get = Action::parse(r#"{"action":"get_accounts"}"#).ok().unwrap();
    assert_eq!(get.answer(reply(200, b"anything")).unwrap(), "anything");
    let search = Action::parse(r#"{"action":"search_messages","account_id":"1"}"#)
        .ok()
        .unwrap();
    assert_eq!(
        search.answer(reply(200, b"")).unwrap(),
        "{\n  \"count\": 0,\n  \"messages\": []\n}"
    );
    assert!(search.answer(reply(200, b"anything")).is_err());
    assert!(search.answer(reply(404, b"")).is_err());
}

#[test]
fn results_are_answered_as_they_are() {
    let r = Response::of_result(Ok("o".to_string()));
    assert_eq!((r.output.as_deref(), r.error.as_deref()), (Some("o"), None));
    let r = Response::of_result(Err("e".to_string()));
    assert_eq!((r.output.as_deref(), r.error.as_deref()), (None, Some("e")));
}

#[test]
fn the_schema_lists_every_action() {
    let schema: serde_json::Value = serde_json::from_str(SCHEMA).unwrap();
    let actions = schema["properties"]["action"]["enum"].as_array().unwrap();
    assert_eq!(actions.len(), 8);
    for a in actions {
        let params = format!(
            r#"{{"action":"{}","account_id":"1","message_id":"2","tag_id":"3","tag_name":"n"}}"#,
            a.as_str().unwrap()
        );
        assert!(Action::parse(&params).is_ok());
    }
    assert!(DESCRIPTION.contains("Requires Zoho OAuth token."));
}
