use peeksy::namer::{
    accept_name, name_from_content, name_from_reply, NameError, OpenAI, BODY_HEAD, BODY_MIDDLE,
    BODY_TAIL, FALLBACK_NAME,
};

fn ai() -> OpenAI {
    OpenAI::new("sk-test".to_string(), "Name \"it\"".to_string())
}

#[test]
fn authorization_header() {
    assert_eq!(ai().authorization(), "Bearer sk-test");
}

#[test]
fn request_body_encodes_prompt_and_image() {
    let body = ai().request_body(b"hi").unwrap();
    let expected = format!(
        "{}{}{}{}{}",
        BODY_HEAD, "\"Name \\\"it\\\"\"", BODY_MIDDLE, "\"data:image/png;base64,aGk=\"", BODY_TAIL
    );
    assert_eq!(body, expected);
    let v: serde_json::Value = serde_json::from_str(&body).unwrap();
    assert_eq!(v.pointer("/model").unwrap(), "gpt-4.1");
    assert_eq!(v.pointer("/messages/0/content/0/text").unwrap(), "Name \"it\"");
    assert_eq!(
        v.pointer("/messages/0/content/1/image_url/url").unwrap(),
        "data:image/png;base64,aGk="
    );
    assert_eq!(v.pointer("/messages/0/content/1/image_url/detail").unwrap(), "low");
}

#[test]
fn request_body_padding() {
    let body = ai().request_body(&[0u8, 0, 0, 0]).unwrap();
    assert!(body.contains("\"data:image/png;base64,AAAAAA==\""));
    let empty = ai().request_body(&[]).unwrap();
    assert!(empty.contains("\"data:image/png;base64,\""));
}

#[test]
fn reply_with_content_is_trimmed() {
    let reply = r#"{"choices":[{"message":{"content":"  sunset-over-mountains\n"}}]}"#;
    assert_eq!(name_from_reply(reply), Ok("sunset-over-mountains".to_string()));
}

#[test]
fn reply_without_content_gives_fallback() {
    assert_eq!(name_from_reply("{}"), Ok(FALLBACK_NAME.to_string()));
    let numeric = r#"{"choices":[{"message":{"content":5}}]}"#;
    assert_eq!(name_from_reply(numeric), Ok("unknown-name".to_string()));
}

#[test]
fn reply_not_json_is_failure() {
    assert_eq!(name_from_reply("<html>bad gateway</html>"), Err(NameError::MalformedReply));
    assert_eq!(name_from_reply(""), Err(NameError::MalformedReply));
}

#[test]
fn reply_unusable_name_is_failure() {
    let blank = r#"{"choices":[{"message":{"content":"   "}}]}"#;
    assert_eq!(name_from_reply(blank), Err(NameError::UnusableName));
    let slash = r#"{"choices":[{"message":{"content":"a/b"}}]}"#;
    assert_eq!(name_from_reply(slash), Err(NameError::UnusableName));
}

#[test]
fn content_and_name_checks() {
    assert_eq!(name_from_content(None), Ok("unknown-name".to_string()));
    assert_eq!(name_from_content(Some("\tcat-on-a-mat ")), Ok("cat-on-a-mat".to_string()));
    assert_eq!(accept_name("cat".to_string()), Ok("cat".to_string()));
    assert_eq!(accept_name(String::new()), Err(NameError::UnusableName));
    assert_eq!(accept_name("../x".to_string()), Err(NameError::UnusableName));
}

#[test]
fn response_status_decides_first() {
    let ok = r#"{"choices":[{"message":{"content":"cat"}}]}"#;
    assert_eq!(peeksy::namer::name_from_response(200, ok), Ok("cat".to_string()));
    assert_eq!(peeksy::namer::name_from_response(401, ok), Err(NameError::Rejected(401)));
    assert_eq!(
        peeksy::namer::name_from_response(500, r#"{"error":{}}"#),
        Err(NameError::Rejected(500))
    );
    assert_eq!(peeksy::namer::name_from_response(299, "x"), Err(NameError::MalformedReply));
}

#[test]
fn request_frame_places_literals() {
    let framed = peeksy::namer::frame_request("\"p\"", "\"u\"");
    assert_eq!(framed, format!("{}\"p\"{}\"u\"{}", BODY_HEAD, BODY_MIDDLE, BODY_TAIL));
    let v: serde_json::Value = serde_json::from_str(&framed).unwrap();
    assert_eq!(v.pointer("/messages/0/role").unwrap(), "user");
}

fn object(entries: Vec<(&str, serde_json::Value)>) -> serde_json::Value {
    let mut map = serde_json::Map::new();
    for (k, v) in entries {
        map.insert(k.to_string(), v);
    }
    serde_json::Value::Object(map)
}

fn text(s: &str) -> serde_json::Value {
    serde_json::Value::String(s.to_string())
}

#[test]
fn request_body_matches_serialized_payload() {
    let prompt = "Describe\tthis \"image\"\n\u{1}";
    let ai = OpenAI::new("k".to_string(), prompt.to_string());
    let payload = object(vec![
        ("model", text("gpt-4.1")),
        (
            "messages",
            serde_json::Value::Array(vec![object(vec![
                ("role", text("user")),
                (
                    "content",
                    serde_json::Value::Array(vec![
                        object(vec![("type", text("text")), ("text", text(prompt))]),
                        object(vec![
                            ("type", text("image_url")),
                            (
                                "image_url",
                                object(vec![
                                    ("url", text("data:image/png;base64,AQID")),
                                    ("detail", text("low")),
                                ]),
                            ),
                        ]),
                    ]),
                ),
            ])]),
        ),
    ]);
    assert_eq!(ai.request_body(&[1u8, 2, 3]).unwrap(), payload.to_string());
}

#[test]
fn request_body_escapes_control_characters() {
    let ai = OpenAI::new("k".to_string(), "a\u{1}b\\c\u{8}\u{c}\r".to_string());
    let body = ai.request_body(&[]).unwrap();
    assert!(body.starts_with(&format!("{}\"a\\u0001b\\\\c\\b\\f\\r\"", BODY_HEAD)));
}
