use llm_stream::client::{AnthropicClient, ClientError, ClientType, GeminiClient, LLMClientType};
use llm_stream::gemini::GeminiSafetySetting;
use llm_stream::json::{Json, JsonList, JsonMembers};
use llm_stream::reply::{anthropic_reply_text, gemini_failure_of, gemini_reply_text};
use llm_stream::request::{convert_to_function_declaration, GeminiTool, LLMConfig};

fn quote(s: &str) -> String {
    serde_json::to_string(s).unwrap()
}

fn render(j: &Json) -> String {
    match j {
        Json::Null => "null".to_string(),
        Json::Bool(b) => b.to_string(),
        Json::Int(i) => i.to_string(),
        Json::Decimal(t) => t.clone(),
        Json::Str(s) => quote(s),
        Json::Array(items) => {
            let mut parts = Vec::new();
            let mut cur: &JsonList = items;
            while let JsonList::Cons(h, t) = cur {
                parts.push(render(h));
                cur = t;
            }
            format!("[{}]", parts.join(","))
        }
        Json::Object(members) => {
            let mut parts = Vec::new();
            let mut cur: &JsonMembers = members;
            while let JsonMembers::Cons(k, v, t) = cur {
                parts.push(format!("{}:{}", quote(k), render(v)));
                cur = t;
            }
            format!("{{{}}}", parts.join(","))
        }
    }
}

fn json(text: &str) -> Json {
    Json::parse(text.as_bytes()).expect("valid JSON")
}

fn config(streaming: bool) -> LLMConfig {
    LLMConfig {
        api_key: "k".to_string(),
        model: "m".to_string(),
        temperature: None,
        max_tokens: Some(4000),
        streaming,
        system_prompt: None,
        tools: None,
        stop_sequences: None,
        top_p: None,
        top_k: None,
    }
}

#[test]
fn anthropic_body_omits_unset_options() {
    let client = AnthropicClient::with_config(config(false)).unwrap();
    assert_eq!(
        render(&client.request_body("Hello!", false)),
        r#"{"model":"m","messages":[{"role":"user","content":"Hello!"}],"max_tokens":4000}"#
    );
    assert_eq!(
        render(&client.request_body("Hello!", true)),
        r#"{"model":"m","messages":[{"role":"user","content":"Hello!"}],"max_tokens":4000,"stream":true}"#
    );
}

#[test]
fn anthropic_body_with_every_option() {
    let mut c = config(false);
    c.temperature = Some("0.5".to_string());
    c.system_prompt = Some("be brief".to_string());
    c.tools = Some(json(r#"[{"name":"t"}]"#));
    c.stop_sequences = Some(vec!["END".to_string()]);
    c.top_p = Some("0.9".to_string());
    c.top_k = Some(5);
    let client = AnthropicClient::with_config(c)
        .unwrap()
        .with_metadata(json(r#"{"user_id":"u"}"#))
        .with_beta("b1")
        .with_verbose(true);
    assert!(client.verbose);
    assert_eq!(
        render(&client.request_body("hi", false)),
        r#"{"model":"m","messages":[{"role":"user","content":"hi"}],"max_tokens":4000,"temperature":0.5,"system":[{"type":"text","text":"be brief","cache_control":{"type":"ephemeral"}}],"tools":[{"name":"t"}],"stop_sequences":["END"],"top_p":0.9,"top_k":5,"metadata":{"user_id":"u"}}"#
    );
    let headers = client.headers();
    assert_eq!(
        headers,
        vec![
            ("x-api-key".to_string(), "k".to_string()),
            ("anthropic-version".to_string(), "2023-06-01".to_string()),
            ("content-type".to_string(), "application/json".to_string()),
            ("anthropic-beta".to_string(), "b1".to_string()),
        ]
    );
    assert_eq!(client.endpoint(), "https://api.anthropic.com/v1/messages");
}

#[test]
fn gemini_url_picks_streaming_method() {
    let client = GeminiClient::with_config(config(true)).unwrap();
    assert_eq!(
        client.url(),
        "https://generativelanguage.googleapis.com/v1beta/models/m:streamGenerateContent?key=k"
    );
    let client = GeminiClient::with_config(config(false)).unwrap();
    assert_eq!(
        client.url(),
        "https://generativelanguage.googleapis.com/v1beta/models/m:generateContent?key=k"
    );
}

#[test]
fn gemini_body_with_tools_and_safety() {
    let decl = GeminiClient::function_declaration("f", "does f", json(r#"{"type":"OBJECT"}"#));
    let client = GeminiClient::with_config(config(false))
        .unwrap()
        .with_tools(vec![GeminiTool { function_declarations: vec![decl] }])
        .with_safety_settings(vec![GeminiSafetySetting {
            category: "HARM".to_string(),
            threshold: "BLOCK_NONE".to_string(),
        }]);
    assert_eq!(
        render(&client.request_body("hi")),
        r#"{"contents":[{"parts":[{"text":"hi"}],"role":"user"}],"tools":[{"function_declarations":[{"name":"f","description":"does f","parameters":{"type":"OBJECT"}}]}],"safety_settings":[{"category":"HARM","threshold":"BLOCK_NONE"}],"generation_config":{"max_output_tokens":4000}}"#
    );
}

#[test]
fn schema_conversion_upper_cases_types() {
    let schema = json(
        r#"{"name":"get_weather","description":"Weather now","input_schema":{"type":"object","properties":{"city":{"type":"string","description":"City name"},"days":{}},"required":["city",3]}}"#,
    );
    let d = convert_to_function_declaration(&schema);
    assert_eq!(d.name, "get_weather");
    assert_eq!(d.description, "Weather now");
    assert_eq!(
        render(&d.parameters),
        r#"{"type":"OBJECT","properties":{"city":{"type":"STRING","description":"City name"},"days":{"type":"STRING","description":""}},"required":["city"]}"#
    );
    let bare = convert_to_function_declaration(&json(r#"{"input_schema":{"properties":{"n":{"type":"integer"}}}}"#));
    assert_eq!(bare.name, "");
    assert_eq!(render(&bare.parameters), r#"{"type":"OBJECT","properties":{"n":{"type":"INTEGER","description":""}},"required":[]}"#);
}

const ANTHROPIC_REPLY: &str = r#"{"id":"msg_1","model":"chat-model","stop_reason":"end_turn","role":"assistant","content":[{"type":"text","text":"Hello there"}],"usage":{"input_tokens":3,"output_tokens":2}}"#;

#[test]
fn anthropic_reply_gives_first_text() {
    assert_eq!(anthropic_reply_text(ANTHROPIC_REPLY.as_bytes()).ok(), Some("Hello there".to_string()));
    let tool_first = ANTHROPIC_REPLY.replace(
        r#"[{"type":"text","text":"Hello there"}]"#,
        r#"[{"type":"tool_use","id":"t1","name":"f","input":{}},{"type":"text","text":"x"}]"#,
    );
    assert!(matches!(anthropic_reply_text(tool_first.as_bytes()), Err(ClientError::NoTextContent)));
    assert!(matches!(anthropic_reply_text(b"{\"id\":1}"), Err(ClientError::Undecodable)));
    assert!(matches!(anthropic_reply_text(b"nope"), Err(ClientError::Undecodable)));
}

#[test]
fn buffered_results_are_independent() {
    let client = AnthropicClient::with_config(config(false)).unwrap();
    assert_eq!(render(&client.request_body("same", false)), render(&client.request_body("same", false)));
    let first = anthropic_reply_text(ANTHROPIC_REPLY.as_bytes()).ok();
    let second = anthropic_reply_text(ANTHROPIC_REPLY.replace("Hello there", "Bye").as_bytes()).ok();
    let third = anthropic_reply_text(ANTHROPIC_REPLY.as_bytes()).ok();
    assert_eq!(first, Some("Hello there".to_string()));
    assert_eq!(second, Some("Bye".to_string()));
    assert_eq!(third, first);
}

#[test]
fn gemini_reply_gives_first_text_part() {
    let body = r#"{"candidates":[{"content":{"parts":[{"function_call":{"name":"f","args":{}}},{"text":"answer"}],"role":"model"}}]}"#;
    assert_eq!(gemini_reply_text(body.as_bytes()).ok(), Some("answer".to_string()));
    assert!(matches!(gemini_reply_text(br#"{"candidates":[]}"#), Err(ClientError::NoCandidates)));
    let no_text = r#"{"candidates":[{"content":{"parts":[{"function_call":{"name":"f","args":{}}}]}}]}"#;
    assert!(matches!(gemini_reply_text(no_text.as_bytes()), Err(ClientError::NoTextContent)));
    assert!(matches!(gemini_reply_text(br#"{"candidates":[{}]}"#), Err(ClientError::Undecodable)));
}

#[test]
fn gemini_error_body_is_read() {
    let body = r#"{"error":{"code":400,"message":"API key not valid","status":"INVALID_ARGUMENT"}}"#;
    match gemini_failure_of(400, body.as_bytes()) {
        ClientError::Api { code, message } => {
            assert_eq!(code, 400);
            assert_eq!(message, "API key not valid");
        }
        _ => panic!("expected an API error"),
    }
    match gemini_failure_of(502, b"<html>") {
        ClientError::Status { status, body } => {
            assert_eq!(status, 502);
            assert_eq!(body, b"<html>".to_vec());
        }
        _ => panic!("expected the status and body"),
    }
}

#[test]
fn facade_starts_with_default_options() {
    let client = LLMClientType::new(ClientType::Anthropic, "key", "chat-model", false, None).unwrap();
    match &client {
        LLMClientType::Anthropic(c) => {
            assert_eq!(c.config.model, "chat-model");
            assert_eq!(c.config.api_key, "key");
            assert_eq!(c.config.max_tokens, Some(4000));
            assert_eq!(c.beta.as_deref(), Some("prompt-caching-2024-07-31"));
            assert_eq!(c.headers()[3].1, "prompt-caching-2024-07-31");
            assert_eq!(c.version, "2023-06-01");
            assert!(!c.verbose);
            assert!(c.metadata.is_none());
        }
        LLMClientType::Gemini(_) => panic!("expected the event-stream client"),
    }
    assert_eq!(ClientType::Anthropic.api_key_variable(), "ANTHROPIC_API_KEY_RS");
    assert_eq!(ClientType::Gemini.api_key_variable(), "GEMINI_API_KEY");
    let mut g = LLMClientType::new(ClientType::Gemini, "key", "gemini-pro", true, None).unwrap();
    assert!(g.update_config(config(false)).is_ok());
    match &g {
        LLMClientType::Gemini(c) => assert_eq!(c.config.model, "m"),
        LLMClientType::Anthropic(_) => panic!("expected the object-stream client"),
    }
}

#[test]
fn anthropic_error_body_is_read() {
    let body = r#"{"type":"error","error":{"type":"invalid_request_error","message":"max_tokens: too large"}}"#;
    match llm_stream::reply::anthropic_failure_of(400, body.as_bytes()) {
        ClientError::Provider { kind, message } => {
            assert_eq!(kind, "invalid_request_error");
            assert_eq!(message, "max_tokens: too large");
        }
        _ => panic!("expected a provider error"),
    }
    assert!(matches!(
        llm_stream::reply::anthropic_failure_of(502, b"Bad Gateway"),
        ClientError::Status { status: 502, .. }
    ));
}
