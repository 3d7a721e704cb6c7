use llm_stream::anthropic::{
    AnthropicChatCompletionChunk, AnthropicErrorMessage, AnthropicMessage, AnthropicResponse, AnthropicUsage,
    ContentItem, Usage,
};
use llm_stream::classify::{classify_payload, frame_payload, Fragment, StreamError, Verdict};
use llm_stream::gemini::{GeminiError, GeminiPart, GeminiResponse, GeminiSafetyRating, GeminiUsage};
use llm_stream::client::GeminiClient;
use llm_stream::json::{Json, JsonMembers};

fn json(text: &str) -> Json {
    Json::parse(text.as_bytes()).expect("valid JSON")
}

fn object(members: Vec<(&str, Json)>) -> Json {
    let mut acc = JsonMembers::Nil;
    for (k, v) in members.into_iter().rev() {
        acc = JsonMembers::Cons(k.to_string(), v, Box::new(acc));
    }
    Json::Object(Box::new(acc))
}

#[test]
fn payload_prefixes_are_stripped() {
    assert_eq!(frame_payload(&b"event: content_block_delta\ndata: {}".to_vec()), b"{}".to_vec());
    assert_eq!(frame_payload(&b"event: pingevent: ping\n  data: x".to_vec()), b"x".to_vec());
    assert_eq!(frame_payload(&b"event: error\ndata: {}".to_vec()), b"{}".to_vec());
    assert_eq!(frame_payload(&"\u{a0}\u{3000}\tdata: x".as_bytes().to_vec()), b"x".to_vec());
    assert_eq!(frame_payload(&b"event: other\ndata: x".to_vec()), b"event: other\ndata: x".to_vec());
}

#[test]
fn classify_payload_on_given_values() {
    let chunk = object(vec![
        ("type", Json::Str("content_block_delta".to_string())),
        ("delta", object(vec![("text", Json::Str("Hi".to_string()))])),
    ]);
    let (out, v) = classify_payload(&b"{...}".to_vec(), &Some(chunk));
    assert!(matches!(v, Verdict::Continue));
    assert!(matches!(&out[..], [Fragment::Text(t)] if t == "Hi"));

    let error = object(vec![
        ("type", Json::Str("error".to_string())),
        ("error", object(vec![
            ("type", Json::Str("overloaded_error".to_string())),
            ("message", Json::Str("x".to_string())),
        ])),
    ]);
    let (out, v) = classify_payload(&b"{...}".to_vec(), &Some(error));
    assert!(out.is_empty());
    match v {
        Verdict::Fail(e) => assert_eq!(e.describe(), "overloaded_error: x"),
        _ => panic!("expected a failure"),
    }

    let (out, v) = classify_payload(&b"[DONE]".to_vec(), &None);
    assert!(out.is_empty());
    assert!(matches!(v, Verdict::Finish));

    let (out, v) = classify_payload(&b"{}".to_vec(), &Some(object(vec![])));
    assert!(out.is_empty());
    assert!(matches!(v, Verdict::Continue));
}

#[test]
fn chunk_decoding_checks_field_types() {
    let c = AnthropicChatCompletionChunk::from_json(&json(
        r#"{"type":"message_start","index":0,"message":{"id":"m","type":"message","role":"assistant","content":[{"type":"text","text":"a"}],"usage":{"input_tokens":5}}}"#,
    ))
    .unwrap();
    assert_eq!(c.event_type, "message_start");
    assert_eq!(c.index, Some(0));
    let m: AnthropicMessage = c.message.unwrap();
    assert_eq!(m.content.unwrap()[0].text.as_deref(), Some("a"));
    assert_eq!(m.usage.unwrap().input_tokens, Some(5));
    assert!(AnthropicChatCompletionChunk::from_json(&json(r#"{"type":"x","index":-1}"#)).is_none());
    assert!(AnthropicChatCompletionChunk::from_json(&json(r#"{"type":"x","delta":{"text":5}}"#)).is_none());
    assert!(AnthropicChatCompletionChunk::from_json(&json(r#"{"delta":{"text":"a"}}"#)).is_none());
    let u = AnthropicUsage::from_json(&json(r#"{"output_tokens":null}"#)).unwrap();
    assert_eq!((u.input_tokens, u.output_tokens), (None, None));
    assert!(AnthropicUsage::from_json(&json(r#"{"output_tokens":4294967296}"#)).is_none());
}

#[test]
fn error_envelope_decoding() {
    let e = AnthropicErrorMessage::from_json(&json(
        r#"{"type":"error","error":{"type":"overloaded_error","message":"busy","details":{"a":1}}}"#,
    ))
    .unwrap();
    assert_eq!(e.error_type, "error");
    assert_eq!(e.error.error_type, "overloaded_error");
    assert_eq!(e.error.message, "busy");
    assert!(matches!(e.error.details, Some(Json::Object(_))));
    assert!(AnthropicErrorMessage::from_json(&json(r#"{"type":"error","error":{"type":"t"}}"#)).is_none());
    let g = GeminiError::from_json(&json(r#"{"error":{"code":403,"message":"denied","status":"PERMISSION_DENIED"}}"#)).unwrap();
    assert_eq!((g.error.code, g.error.message.as_str(), g.error.status.as_str()), (403, "denied", "PERMISSION_DENIED"));
    assert!(GeminiError::from_json(&json(r#"{"error":{"code":3000000000,"message":"m","status":"s"}}"#)).is_none());
}

#[test]
fn buffered_reply_decoding() {
    let r = AnthropicResponse::from_json(&json(
        r#"{"id":"i","model":"m","stop_reason":"end_turn","role":"assistant","content":[{"type":"tool_use","id":"t","name":"f","input":{"q":1}},{"type":"text","text":"done"}],"usage":{"input_tokens":1,"output_tokens":2}}"#,
    ))
    .unwrap();
    assert!(matches!(&r.content[0], ContentItem::ToolUse { name, .. } if name == "f"));
    assert!(matches!(&r.content[1], ContentItem::Text { text } if text == "done"));
    let Usage { input_tokens, output_tokens } = r.usage;
    assert_eq!((input_tokens, output_tokens), (1, 2));
    assert!(AnthropicResponse::from_json(&json(
        r#"{"id":"i","model":"m","stop_reason":null,"role":"assistant","content":[],"usage":{"input_tokens":1,"output_tokens":2}}"#,
    ))
    .is_none());
}

#[test]
fn gemini_response_decoding() {
    let r = GeminiResponse::from_json(&json(
        r#"{"candidates":[{"content":{"parts":[{"function_call":{"name":"f","args":{"x":1}}},{"text":"t1"},{"text":"t2"}],"role":"model"},"safety_ratings":[{"category":"c","probability":"LOW"}]}],"usage_metadata":{"prompt_token_count":1,"candidates_token_count":2,"total_token_count":3}}"#,
    ))
    .unwrap();
    let c = &r.candidates[0];
    assert!(matches!(&c.content.parts[0], GeminiPart::FunctionCall { function_call } if function_call.name == "f"));
    assert_eq!(GeminiClient::extract_text_from_candidate(c), Some("t1".to_string()));
    let ratings: &Vec<GeminiSafetyRating> = c.safety_ratings.as_ref().unwrap();
    assert_eq!(ratings[0].probability, "LOW");
    let u: &GeminiUsage = r.usage_metadata.as_ref().unwrap();
    assert_eq!(u.total_token_count, 3);
    assert!(GeminiResponse::from_json(&json(r#"{"candidates":[{"content":{"parts":[{"other":1}]}}]}"#)).is_none());
    assert!(GeminiResponse::from_json(&json(r#"{"usage_metadata":null}"#)).is_none());
}

#[test]
fn stream_error_texts() {
    let e = StreamError::Provider { kind: "api_error".to_string(), message: "boom".to_string() };
    assert_eq!(e.describe(), "api_error: boom");
    assert_eq!(StreamError::Malformed.describe(), "malformed frame");
    let api = StreamError::Api { code: -2147483648, message: "m".to_string() };
    assert_eq!(api.describe(), "API Error (-2147483648): m");
    assert_eq!(StreamError::Api { code: 0, message: "z".to_string() }.describe(), "API Error (0): z");
    assert_eq!(StreamError::Api { code: 429, message: "slow down".to_string() }.describe(), "API Error (429): slow down");
}
