use llm_stream::classify::{Fragment, StreamError};
use llm_stream::framing::{FrameBuffer, Framing};
use llm_stream::json::Json;
use llm_stream::stream::{decode_chunks, Status, StreamDecoder};

fn texts(frags: &[Fragment]) -> Vec<String> {
    frags
        .iter()
        .map(|f| match f {
            Fragment::Text(t) => t.clone(),
            Fragment::FunctionCall { name, .. } => format!("call:{}", name),
            Fragment::FunctionResponse { name, .. } => format!("response:{}", name),
        })
        .collect()
}

fn status_text(s: &Status) -> String {
    match s {
        Status::Open => "open".to_string(),
        Status::Finished => "finished".to_string(),
        Status::Failed(e) => e.describe(),
    }
}

const DELTA_HI: &str = "event: content_block_delta\ndata: {\"type\":\"content_block_delta\",\"delta\":{\"text\":\"Hi\"}}\n\n";

#[test]
fn content_delta_frame_yields_its_text() {
    let mut d = StreamDecoder::new(Framing::EventStream, false);
    let out = d.feed(DELTA_HI.as_bytes());
    assert_eq!(texts(&out), vec!["Hi".to_string()]);
    assert!(d.is_open());
}

#[test]
fn done_sentinel_ends_stream_without_fragment() {
    let mut d = StreamDecoder::new(Framing::EventStream, false);
    let out = d.feed(b"data: [DONE]\n\n");
    assert!(out.is_empty());
    assert!(matches!(d.status(), Status::Finished));
    let later = d.feed(DELTA_HI.as_bytes());
    assert!(later.is_empty());
}

#[test]
fn ping_frame_yields_nothing_and_no_error() {
    let mut d = StreamDecoder::new(Framing::EventStream, false);
    let out = d.feed(b"event: ping\ndata: {}\n\n");
    assert!(out.is_empty());
    assert!(d.is_open());
}

#[test]
fn error_envelope_fails_stream_and_stops() {
    let body = "event: error\ndata: {\"type\":\"error\",\"error\":{\"type\":\"overloaded_error\",\"message\":\"x\"}}\n\n".to_string()
        + DELTA_HI;
    let mut d = StreamDecoder::new(Framing::EventStream, false);
    let out = d.feed(body.as_bytes());
    assert!(out.is_empty());
    assert_eq!(status_text(d.status()), "overloaded_error: x");
    match d.status() {
        Status::Failed(StreamError::Provider { kind, message }) => {
            assert_eq!(kind, "overloaded_error");
            assert_eq!(message, "x");
        }
        _ => panic!("expected a provider error"),
    }
}

#[test]
fn split_reads_give_the_same_fragments() {
    let body = format!(
        "event: message_start\ndata: {{\"type\":\"message_start\",\"message\":{{\"id\":\"m1\",\"type\":\"message\",\"role\":\"assistant\",\"content\":[]}}}}\n\n{}event: ping\ndata: {{\"type\":\"ping\"}}\n\n{}data: [DONE]\n\n",
        DELTA_HI,
        DELTA_HI.replace("Hi", "there é")
    );
    let bytes = body.as_bytes();
    let (whole, whole_status) = decode_chunks(Framing::EventStream, false, &vec![bytes.to_vec()]);
    assert_eq!(texts(&whole), vec!["Hi".to_string(), "there é".to_string()]);
    assert!(matches!(whole_status, Status::Finished));
    for cut in 0..=bytes.len() {
        let chunks = vec![bytes[..cut].to_vec(), bytes[cut..].to_vec()];
        let (out, status) = decode_chunks(Framing::EventStream, false, &chunks);
        assert_eq!(texts(&out), texts(&whole), "cut at {}", cut);
        assert_eq!(status_text(&status), status_text(&whole_status));
    }
    let singles: Vec<Vec<u8>> = bytes.iter().map(|b| vec![*b]).collect();
    let (out, _) = decode_chunks(Framing::EventStream, false, &singles);
    assert_eq!(texts(&out), texts(&whole));
}

#[test]
fn verbose_mode_passes_frames_whole() {
    let mut d = StreamDecoder::new(Framing::EventStream, true);
    let out = d.feed(b"event: ping\ndata: {}\n\ndata: [DONE]\n\n");
    assert_eq!(
        texts(&out),
        vec!["event: ping\ndata: {}".to_string(), "data: [DONE]".to_string()]
    );
    assert!(d.is_open());
}

#[test]
fn unparseable_frame_is_ignored() {
    let mut d = StreamDecoder::new(Framing::EventStream, false);
    let out = d.feed(b"event: content_block_stop\ndata: not json\n\n");
    assert!(out.is_empty());
    assert!(d.is_open());
}

#[test]
fn delta_without_text_yields_nothing() {
    let mut d = StreamDecoder::new(Framing::EventStream, false);
    let out = d.feed(b"data: {\"type\":\"message_delta\",\"delta\":{\"stop_reason\":\"end_turn\"},\"usage\":{\"output_tokens\":3}}\n\n");
    assert!(out.is_empty());
    assert!(d.is_open());
}

#[test]
fn residual_done_without_blank_line_ends_stream() {
    let mut d = StreamDecoder::new(Framing::EventStream, false);
    assert!(d.feed(b"data: [DONE]").is_empty());
    assert!(d.is_open());
    assert!(d.finish().is_empty());
    assert!(matches!(d.status(), Status::Finished));
}

#[test]
fn close_without_terminal_is_success() {
    let (out, status) = decode_chunks(Framing::EventStream, false, &vec![DELTA_HI.as_bytes().to_vec(), b"\n".to_vec()]);
    assert_eq!(texts(&out), vec!["Hi".to_string()]);
    assert!(matches!(status, Status::Finished));
}

const GEMINI_CHUNK: &str = "{\"candidates\":[{\"content\":{\"parts\":[{\"text\":\"Hello\"},{\"function_call\":{\"name\":\"get_weather\",\"args\":{\"city\":\"Paris\"}}}],\"role\":\"model\"},\"finish_reason\":\"STOP\"}],\"usage_metadata\":{\"prompt_token_count\":1,\"candidates_token_count\":2,\"total_token_count\":3}}";

#[test]
fn split_object_is_parsed_once_complete() {
    let mut d = StreamDecoder::new(Framing::ObjectStream, false);
    let (a, b) = GEMINI_CHUNK.split_at(GEMINI_CHUNK.find("\"content\"").unwrap() + 9);
    assert_eq!(a, "{\"candidates\":[{\"content\"");
    assert!(d.feed(a.as_bytes()).is_empty());
    assert!(d.is_open());
    let out = d.feed(b.as_bytes());
    assert_eq!(texts(&out), vec!["Hello".to_string(), "call:get_weather".to_string()]);
    match &out[1] {
        Fragment::FunctionCall { args: Json::Object(_), .. } => {}
        _ => panic!("expected structured arguments"),
    }
}

#[test]
fn object_stream_split_anywhere() {
    let body = format!("{}\n{}", GEMINI_CHUNK, GEMINI_CHUNK.replace("Hello", "a \\\"}{\\\" b"));
    let bytes = body.as_bytes();
    let (whole, st) = decode_chunks(Framing::ObjectStream, false, &vec![bytes.to_vec()]);
    assert_eq!(texts(&whole).len(), 4);
    assert_eq!(texts(&whole)[2], "a \"}{\" b");
    assert!(matches!(st, Status::Finished));
    for cut in 0..=bytes.len() {
        let (out, _) = decode_chunks(Framing::ObjectStream, false, &vec![bytes[..cut].to_vec(), bytes[cut..].to_vec()]);
        assert_eq!(texts(&out), texts(&whole), "cut at {}", cut);
    }
}

#[test]
fn object_stream_skips_frames_that_are_no_response() {
    let body = format!("{{\"foo\":1}}  x {}", GEMINI_CHUNK);
    let (out, st) = decode_chunks(Framing::ObjectStream, false, &vec![body.as_bytes().to_vec()]);
    assert_eq!(texts(&out), vec!["Hello".to_string(), "call:get_weather".to_string()]);
    assert!(matches!(st, Status::Finished));
}

#[test]
fn object_stream_error_object_fails_with_code_and_message() {
    let body = format!(
        "{}{{\"error\":{{\"code\":429,\"message\":\"quota\",\"status\":\"RESOURCE_EXHAUSTED\"}}}}{}",
        GEMINI_CHUNK, GEMINI_CHUNK
    );
    let (out, st) = decode_chunks(Framing::ObjectStream, false, &vec![body.as_bytes().to_vec()]);
    assert_eq!(texts(&out), vec!["Hello".to_string(), "call:get_weather".to_string()]);
    assert_eq!(status_text(&st), "API Error (429): quota");
}

#[test]
fn truncated_object_at_close_is_dropped() {
    let (out, st) = decode_chunks(Framing::ObjectStream, false, &vec![b"{\"candidates\":[".to_vec()]);
    assert!(out.is_empty());
    assert!(matches!(st, Status::Finished));
}

#[test]
fn error_envelope_without_error_event_line_fails() {
    let envelope = "{\"type\":\"error\",\"error\":{\"type\":\"api_error\",\"message\":\"boom\"}}";
    for prefix in ["data: ", "event: ping\ndata: ", "event: message_delta\ndata: ", ""] {
        let mut d = StreamDecoder::new(Framing::EventStream, false);
        let out = d.feed(format!("{}{}\n\n", prefix, envelope).as_bytes());
        assert!(out.is_empty());
        assert_eq!(status_text(d.status()), "api_error: boom", "prefix {:?}", prefix);
    }
}

#[test]
fn content_under_error_event_line_keeps_its_text() {
    let mut d = StreamDecoder::new(Framing::EventStream, false);
    let out = d.feed(b"event: error\ndata: {\"type\":\"content_block_delta\",\"delta\":{\"text\":\"kept\"}}\n\n");
    assert_eq!(texts(&out), vec!["kept".to_string()]);
    assert!(d.is_open());
}

#[test]
fn unicode_space_before_data_prefix_is_trimmed() {
    let mut d = StreamDecoder::new(Framing::EventStream, false);
    let frame = "event: ping\u{a0}data: {\"type\":\"content_block_delta\",\"delta\":{\"text\":\"ok\"}}\n\n";
    assert_eq!(texts(&d.feed(frame.as_bytes())), vec!["ok".to_string()]);
}

#[test]
fn frame_buffer_drains_complete_frames() {
    let mut fb = FrameBuffer::new(Framing::EventStream);
    fb.append(b"a\n\nb\n");
    assert_eq!(fb.next_frame(), Some(b"a".to_vec()));
    assert_eq!(fb.next_frame(), None);
    fb.append(b"\nc");
    assert_eq!(fb.next_frame(), Some(b"b".to_vec()));
    assert_eq!(fb.next_frame(), None);
    assert_eq!(fb.take_rest(), b"c".to_vec());
}

#[test]
fn verbose_mode_rejects_invalid_utf8() {
    let mut d = StreamDecoder::new(Framing::EventStream, true);
    let out = d.feed(b"\xff\xfe\n\n");
    assert!(out.is_empty());
    assert!(matches!(d.status(), Status::Failed(StreamError::Malformed)));
    assert_eq!(status_text(d.status()), "malformed frame");
}

#[test]
fn function_response_parts_are_their_own_fragments() {
    let body = "{\"candidates\":[{\"content\":{\"parts\":[{\"function_response\":{\"name\":\"f\",\"response\":{\"ok\":true}}},{\"text\":\"\"}]}}]}";
    let (out, st) = decode_chunks(Framing::ObjectStream, false, &vec![body.as_bytes().to_vec()]);
    assert_eq!(texts(&out), vec!["response:f".to_string()]);
    assert!(matches!(st, Status::Finished));
}

#[test]
fn content_chunk_with_stray_error_member_keeps_its_text() {
    let mut d = StreamDecoder::new(Framing::EventStream, false);
    let out = d.feed(b"event: content_block_delta\ndata: {\"type\":\"content_block_delta\",\"delta\":{\"text\":\"still here\"},\"error\":{\"type\":\"t\",\"message\":\"m\"}}\n\n");
    assert_eq!(texts(&out), vec!["still here".to_string()]);
    assert!(d.is_open());
}
