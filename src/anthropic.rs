//! The event-stream service's messages, decoded from the JSON model.
use vstd::prelude::*;
use crate::json::{Json, JsonList, JsonMembers, opt_str, req_str, opt_int, req_int, opt_any};

verus! {

/// Token counts reported on a buffered reply.
#[derive(Debug)]
pub struct Usage {
    pub input_tokens: u32,
    pub output_tokens: u32,
}

/// Token counts reported inside a stream.
#[derive(Debug)]
pub struct AnthropicUsage {
    pub input_tokens: Option<u32>,
    pub output_tokens: Option<u32>,
}

/// One block of a message's content.
#[derive(Debug)]
pub struct AnthropicContentBlock {
    pub content_type: String,
    pub text: Option<String>,
}

/// The incremental part of a content or message delta.
#[derive(Debug)]
pub struct AnthropicTextDelta {
    pub delta_type: Option<String>,
    pub text: Option<String>,
    pub stop_reason: Option<String>,
    pub stop_sequence: Option<String>,
    pub usage: Option<AnthropicUsage>,
}

/// The message that opens a stream.
#[derive(Debug)]
pub struct AnthropicMessage {
    pub id: Option<String>,
    pub message_type: String,
    pub role: Option<String>,
    pub content: Option<Vec<AnthropicContentBlock>>,
    pub model: Option<String>,
    pub stop_reason: Option<String>,
    pub stop_sequence: Option<String>,
    pub usage: Option<AnthropicUsage>,
}

/// One payload of the stream.
#[derive(Debug)]
pub struct AnthropicChatCompletionChunk {
    pub event_type: String,
    pub index: Option<usize>,
    pub delta: Option<AnthropicTextDelta>,
    pub message: Option<AnthropicMessage>,
}

/// The error envelope.
#[derive(Debug)]
pub struct AnthropicErrorMessage {
    pub error_type: String,
    pub error: AnthropicErrorDetails,
}

/// What an error envelope reports.
#[derive(Debug)]
pub struct AnthropicErrorDetails {
    pub details: Option<Json>,
    pub error_type: String,
    pub message: String,
}

/// An optional `u32` field.
pub open spec fn opt_u32(j: Option<Json>) -> Option<Option<u32>> {
    match opt_int(j, 0, u32::MAX as int) {
        Some(Some(i)) => Some(Some(i as u32)),
        Some(None) => Some(None),
        None => None,
    }
}

/// A required `u32` field.
pub open spec fn req_u32(j: Option<Json>) -> Option<u32> {
    match req_int(j, 0, u32::MAX as int) {
        Some(i) => Some(i as u32),
        None => None,
    }
}

fn get_opt_u32(m: &JsonMembers, key: &str) -> (r: Option<Option<u32>>)
    ensures
        r == opt_u32(m.field(key@)),
{
    match m.get_opt_int(key, 0, u32::MAX as i128) {
        Some(Some(i)) => Some(Some(i as u32)),
        Some(None) => Some(None),
        None => None,
    }
}

fn get_req_u32(m: &JsonMembers, key: &str) -> (r: Option<u32>)
    ensures
        r == req_u32(m.field(key@)),
{
    match m.get_req_int(key, 0, u32::MAX as i128) {
        Some(i) => Some(i as u32),
        None => None,
    }
}

/// `Usage` as a JSON object gives it.
pub open spec fn usage_of(j: Json) -> Option<Usage> {
    match j.members() {
        Some(f) => match (req_u32(f.field("input_tokens"@)), req_u32(f.field("output_tokens"@))) {
            (Some(a), Some(b)) => Some(Usage { input_tokens: a, output_tokens: b }),
            _ => None,
        },
        None => None,
    }
}

/// `AnthropicUsage` as a JSON object gives it.
pub open spec fn stream_usage_of(j: Json) -> Option<AnthropicUsage> {
    match j.members() {
        Some(f) => match (opt_u32(f.field("input_tokens"@)), opt_u32(f.field("output_tokens"@))) {
            (Some(a), Some(b)) => Some(AnthropicUsage { input_tokens: a, output_tokens: b }),
            _ => None,
        },
        None => None,
    }
}

/// An optional field holding an `AnthropicUsage`.
pub open spec fn opt_stream_usage(j: Option<Json>) -> Option<Option<AnthropicUsage>> {
    match opt_any(j) {
        None => Some(None),
        Some(v) => match stream_usage_of(v) {
            Some(u) => Some(Some(u)),
            None => None,
        },
    }
}

/// `AnthropicContentBlock` as a JSON object gives it.
pub open spec fn block_of(j: Json) -> Option<AnthropicContentBlock> {
    match j.members() {
        Some(f) => match (req_str(f.field("type"@)), opt_str(f.field("text"@))) {
            (Some(t), Some(x)) => Some(AnthropicContentBlock { content_type: t, text: x }),
            _ => None,
        },
        None => None,
    }
}

/// The blocks of a JSON array, where each element is one.
pub open spec fn blocks_of(l: JsonList) -> Option<Seq<AnthropicContentBlock>>
    decreases l,
{
    match l {
        JsonList::Nil => Some(Seq::empty()),
        JsonList::Cons(h, t) => match (block_of(h), blocks_of(*t)) {
            (Some(b), Some(bs)) => Some(seq![b] + bs),
            _ => None,
        },
    }
}

/// An optional field holding an array of content blocks.
pub open spec fn opt_blocks(j: Option<Json>) -> Option<Option<Seq<AnthropicContentBlock>>> {
    match opt_any(j) {
        None => Some(None),
        Some(Json::Array(l)) => match blocks_of(*l) {
            Some(bs) => Some(Some(bs)),
            None => None,
        },
        Some(_) => None,
    }
}

/// `AnthropicTextDelta` as a JSON object gives it.
pub open spec fn delta_of(j: Json) -> Option<AnthropicTextDelta> {
    match j.members() {
        Some(f) => match (
            opt_str(f.field("type"@)),
            opt_str(f.field("text"@)),
            opt_str(f.field("stop_reason"@)),
            opt_str(f.field("stop_sequence"@)),
            opt_stream_usage(f.field("usage"@)),
        ) {
            (Some(a), Some(b), Some(c), Some(d), Some(u)) => Some(
                AnthropicTextDelta { delta_type: a, text: b, stop_reason: c, stop_sequence: d, usage: u },
            ),
            _ => None,
        },
        None => None,
    }
}

/// An optional field holding an `AnthropicTextDelta`.
pub open spec fn opt_delta(j: Option<Json>) -> Option<Option<AnthropicTextDelta>> {
    match opt_any(j) {
        None => Some(None),
        Some(v) => match delta_of(v) {
            Some(d) => Some(Some(d)),
            None => None,
        },
    }
}

impl AnthropicMessage {
    /// Whether this message is what the JSON value `j` holds.
    pub open spec fn decodes(self, j: Json) -> bool {
        &&& j.members() matches Some(f)
        &&& opt_str(f.field("id"@)) == Some(self.id)
        &&& req_str(f.field("type"@)) == Some(self.message_type)
        &&& opt_str(f.field("role"@)) == Some(self.role)
        &&& opt_blocks(f.field("content"@)) matches Some(c)
        &&& match (c, self.content) {
            (None, None) => true,
            (Some(bs), Some(v)) => v@ == bs,
            _ => false,
        }
        &&& opt_str(f.field("model"@)) == Some(self.model)
        &&& opt_str(f.field("stop_reason"@)) == Some(self.stop_reason)
        &&& opt_str(f.field("stop_sequence"@)) == Some(self.stop_sequence)
        &&& opt_stream_usage(f.field("usage"@)) == Some(self.usage)
    }
}

/// Whether `j` holds an `AnthropicMessage`.
pub open spec fn message_ok(j: Json) -> bool {
    &&& j.members() matches Some(f)
    &&& opt_str(f.field("id"@)) is Some
    &&& req_str(f.field("type"@)) is Some
    &&& opt_str(f.field("role"@)) is Some
    &&& opt_blocks(f.field("content"@)) is Some
    &&& opt_str(f.field("model"@)) is Some
    &&& opt_str(f.field("stop_reason"@)) is Some
    &&& opt_str(f.field("stop_sequence"@)) is Some
    &&& opt_stream_usage(f.field("usage"@)) is Some
}

/// Whether an optional field is absent, null, or holds an `AnthropicMessage`.
pub open spec fn opt_message_ok(j: Option<Json>) -> bool {
    match opt_any(j) {
        None => true,
        Some(v) => message_ok(v),
    }
}

/// Whether `j` holds an `AnthropicChatCompletionChunk`.
pub open spec fn chunk_ok(j: Json) -> bool {
    &&& j.members() matches Some(f)
    &&& req_str(f.field("type"@)) is Some
    &&& opt_int(f.field("index"@), 0, usize::MAX as int) is Some
    &&& opt_delta(f.field("delta"@)) is Some
    &&& opt_message_ok(f.field("message"@))
}

/// The text that a content-delta payload carries: that of its `delta`, where
/// the payload is a chunk whose delta has text.
pub open spec fn chunk_text(j: Json) -> Option<String> {
    match j.members() {
        Some(f) => match opt_delta(f.field("delta"@)) {
            Some(Some(d)) => d.text,
            _ => None,
        },
        None => None,
    }
}

/// `AnthropicErrorDetails` as a JSON object gives it.
pub open spec fn error_details_of(j: Json) -> Option<AnthropicErrorDetails> {
    match j.members() {
        Some(f) => match (req_str(f.field("type"@)), req_str(f.field("message"@))) {
            (Some(t), Some(m)) => Some(
                AnthropicErrorDetails { details: opt_any(f.field("details"@)), error_type: t, message: m },
            ),
            _ => None,
        },
        None => None,
    }
}

/// `AnthropicErrorMessage` as a JSON object gives it.
pub open spec fn error_message_of(j: Json) -> Option<AnthropicErrorMessage> {
    match j.members() {
        Some(f) => match (req_str(f.field("type"@)), f.field("error"@)) {
            (Some(t), Some(e)) => match error_details_of(e) {
                Some(d) => Some(AnthropicErrorMessage { error_type: t, error: d }),
                None => None,
            },
            _ => None,
        },
        None => None,
    }
}

impl Usage {
    /// Decodes a `Usage` object.
    pub fn from_json(j: &Json) -> (r: Option<Usage>)
        ensures
            r == usage_of(*j),
    {
        match j {
            Json::Object(f) => match (get_req_u32(f, "input_tokens"), get_req_u32(f, "output_tokens")) {
                (Some(a), Some(b)) => Some(Usage { input_tokens: a, output_tokens: b }),
                _ => None,
            },
            _ => None,
        }
    }
}

impl AnthropicUsage {
    /// Decodes an `AnthropicUsage` object.
    pub fn from_json(j: &Json) -> (r: Option<AnthropicUsage>)
        ensures
            r == stream_usage_of(*j),
    {
        match j {
            Json::Object(f) => match (get_opt_u32(f, "input_tokens"), get_opt_u32(f, "output_tokens")) {
                (Some(a), Some(b)) => Some(AnthropicUsage { input_tokens: a, output_tokens: b }),
                _ => None,
            },
            _ => None,
        }
    }
}

fn get_opt_stream_usage(m: &JsonMembers, key: &str) -> (r: Option<Option<AnthropicUsage>>)
    ensures
        r == opt_stream_usage(m.field(key@)),
{
    match m.get(key) {
        None => Some(None),
        Some(Json::Null) => Some(None),
        Some(v) => match AnthropicUsage::from_json(v) {
            Some(u) => Some(Some(u)),
            None => None,
        },
    }
}

impl AnthropicContentBlock {
    /// Decodes a content block object.
    pub fn from_json(j: &Json) -> (r: Option<AnthropicContentBlock>)
        ensures
            r == block_of(*j),
    {
        match j {
            Json::Object(f) => match (f.get_req_str("type"), f.get_opt_str("text")) {
                (Some(t), Some(x)) => Some(AnthropicContentBlock { content_type: t, text: x }),
                _ => None,
            },
            _ => None,
        }
    }
}

fn decode_blocks(l: &JsonList) -> (r: Option<Vec<AnthropicContentBlock>>)
    ensures
        match r {
            Some(v) => blocks_of(*l) == Some(v@),
            None => blocks_of(*l) is None,
        },
{
    let mut out: Vec<AnthropicContentBlock> = Vec::new();
    let mut cur = l;
    loop
        invariant
            blocks_of(*l) == match blocks_of(*cur) {
                Some(bs) => Some(out@ + bs),
                None => None::<Seq<AnthropicContentBlock>>,
            },
        decreases cur,
    {
        match cur {
            JsonList::Nil => {
                assert(out@ + Seq::<AnthropicContentBlock>::empty() == out@);
                return Some(out);
            },
            JsonList::Cons(h, t) => {
                match AnthropicContentBlock::from_json(h) {
                    Some(b) => {
                        let ghost before = out@;
                        out.push(b);
                        proof {
                            if let Some(bs) = blocks_of(**t) {
                                assert(before + (seq![b] + bs) == out@ + bs);
                            }
                        }
                        cur = t;
                    },
                    None => return None,
                }
            },
        }
    }
}

fn get_opt_blocks(m: &JsonMembers, key: &str) -> (r: Option<Option<Vec<AnthropicContentBlock>>>)
    ensures
        match r {
            Some(Some(v)) => opt_blocks(m.field(key@)) == Some(Some(v@)),
            Some(None) => opt_blocks(m.field(key@)) == Some(None::<Seq<AnthropicContentBlock>>),
            None => opt_blocks(m.field(key@)) is None,
        },
{
    match m.get(key) {
        None => Some(None),
        Some(Json::Null) => Some(None),
        Some(Json::Array(l)) => match decode_blocks(l) {
            Some(v) => Some(Some(v)),
            None => None,
        },
        Some(_) => None,
    }
}

impl AnthropicTextDelta {
    /// Decodes a delta object.
    pub fn from_json(j: &Json) -> (r: Option<AnthropicTextDelta>)
        ensures
            r == delta_of(*j),
    {
        match j {
            Json::Object(f) => match (
                f.get_opt_str("type"),
                f.get_opt_str("text"),
                f.get_opt_str("stop_reason"),
                f.get_opt_str("stop_sequence"),
                get_opt_stream_usage(f, "usage"),
            ) {
                (Some(a), Some(b), Some(c), Some(d), Some(u)) => Some(
                    AnthropicTextDelta { delta_type: a, text: b, stop_reason: c, stop_sequence: d, usage: u },
                ),
                _ => None,
            },
            _ => None,
        }
    }
}

fn get_opt_delta(m: &JsonMembers, key: &str) -> (r: Option<Option<AnthropicTextDelta>>)
    ensures
        r == opt_delta(m.field(key@)),
{
    match m.get(key) {
        None => Some(None),
        Some(Json::Null) => Some(None),
        Some(v) => match AnthropicTextDelta::from_json(v) {
            Some(d) => Some(Some(d)),
            None => None,
        },
    }
}

impl AnthropicMessage {
    /// Decodes a message object.
    pub fn from_json(j: &Json) -> (r: Option<AnthropicMessage>)
        ensures
            r is Some <==> message_ok(*j),
            r matches Some(m) ==> m.decodes(*j),
    {
        match j {
            Json::Object(f) => match (
                f.get_opt_str("id"),
                f.get_req_str("type"),
                f.get_opt_str("role"),
                get_opt_blocks(f, "content"),
                f.get_opt_str("model"),
                f.get_opt_str("stop_reason"),
                f.get_opt_str("stop_sequence"),
                get_opt_stream_usage(f, "usage"),
            ) {
                (Some(id), Some(t), Some(role), Some(content), Some(model), Some(sr), Some(ss), Some(u)) => Some(
                    AnthropicMessage {
                        id,
                        message_type: t,
                        role,
                        content,
                        model,
                        stop_reason: sr,
                        stop_sequence: ss,
                        usage: u,
                    },
                ),
                _ => None,
            },
            _ => None,
        }
    }
}

impl AnthropicChatCompletionChunk {
    /// Decodes a stream payload.
    pub fn from_json(j: &Json) -> (r: Option<AnthropicChatCompletionChunk>)
        ensures
            r is Some <==> chunk_ok(*j),
            r matches Some(c) ==> {
                &&& j.members() matches Some(f)
                &&& req_str(f.field("type"@)) == Some(c.event_type)
                &&& opt_delta(f.field("delta"@)) == Some(c.delta)
                &&& match c.message {
                    Some(m) => opt_any(f.field("message"@)) matches Some(v) && m.decodes(v),
                    None => opt_any(f.field("message"@)) is None,
                }
            },
    {
        match j {
            Json::Object(f) => {
                let t = f.get_req_str("type");
                let index = f.get_opt_int("index", 0, usize::MAX as i128);
                let delta = get_opt_delta(f, "delta");
                let message = match f.get("message") {
                    None => Some(None),
                    Some(Json::Null) => Some(None),
                    Some(v) => match AnthropicMessage::from_json(v) {
                        Some(m) => Some(Some(m)),
                        None => None,
                    },
                };
                match (t, index, delta, message) {
                    (Some(t), Some(index), Some(delta), Some(message)) => Some(
                        AnthropicChatCompletionChunk {
                            event_type: t,
                            index: match index {
                                Some(i) => Some(i as usize),
                                None => None,
                            },
                            delta,
                            message,
                        },
                    ),
                    _ => None,
                }
            },
            _ => None,
        }
    }
}

impl AnthropicErrorDetails {
    /// Decodes the `error` member of an error envelope.
    pub fn from_json(j: &Json) -> (r: Option<AnthropicErrorDetails>)
        ensures
            r == error_details_of(*j),
    {
        match j {
            Json::Object(f) => match (f.get_req_str("type"), f.get_req_str("message")) {
                (Some(t), Some(m)) => Some(
                    AnthropicErrorDetails { details: f.get_opt_any("details"), error_type: t, message: m },
                ),
                _ => None,
            },
            _ => None,
        }
    }
}

impl AnthropicErrorMessage {
    /// Decodes an error envelope.
    pub fn from_json(j: &Json) -> (r: Option<AnthropicErrorMessage>)
        ensures
            r == error_message_of(*j),
    {
        match j {
            Json::Object(f) => match (f.get_req_str("type"), f.get("error")) {
                (Some(t), Some(e)) => match AnthropicErrorDetails::from_json(e) {
                    Some(d) => Some(AnthropicErrorMessage { error_type: t, error: d }),
                    None => None,
                },
                _ => None,
            },
            _ => None,
        }
    }
}

/// One item of a buffered reply's content.
#[derive(Debug)]
pub enum ContentItem {
    Text { text: String },
    ToolUse { id: String, name: String, input: Json },
}

/// A buffered reply.
#[derive(Debug)]
pub struct AnthropicResponse {
    pub id: String,
    pub model: String,
    pub stop_reason: String,
    pub role: String,
    pub content: Vec<ContentItem>,
    pub usage: Usage,
}

/// `ContentItem` as a JSON object gives it, by its `type`.
pub open spec fn content_item_of(j: Json) -> Option<ContentItem> {
    match j.members() {
        Some(f) => match req_str(f.field("type"@)) {
            Some(t) => if t@ == "text"@ {
                match req_str(f.field("text"@)) {
                    Some(x) => Some(ContentItem::Text { text: x }),
                    None => None,
                }
            } else if t@ == "tool_use"@ {
                match (req_str(f.field("id"@)), req_str(f.field("name"@)), f.field("input"@)) {
                    (Some(id), Some(name), Some(input)) => Some(ContentItem::ToolUse { id, name, input }),
                    _ => None,
                }
            } else {
                None
            },
            None => None,
        },
        None => None,
    }
}

/// The content items of a JSON array, where each element is one.
pub open spec fn content_items_of(l: JsonList) -> Option<Seq<ContentItem>>
    decreases l,
{
    match l {
        JsonList::Nil => Some(Seq::empty()),
        JsonList::Cons(h, t) => match (content_item_of(h), content_items_of(*t)) {
            (Some(c), Some(cs)) => Some(seq![c] + cs),
            _ => None,
        },
    }
}

impl AnthropicResponse {
    /// Whether this reply is what `j` holds.
    pub open spec fn decodes(self, j: Json) -> bool {
        &&& j.members() matches Some(f)
        &&& req_str(f.field("id"@)) == Some(self.id)
        &&& req_str(f.field("model"@)) == Some(self.model)
        &&& req_str(f.field("stop_reason"@)) == Some(self.stop_reason)
        &&& req_str(f.field("role"@)) == Some(self.role)
        &&& f.field("content"@) matches Some(Json::Array(l))
        &&& content_items_of(*l) == Some(self.content@)
        &&& f.field("usage"@) matches Some(u)
        &&& usage_of(u) == Some(self.usage)
    }
}

fn same_text(a: &String, b: &str) -> (r: bool)
    ensures
        r == (a@ == b@),
{
    let c = b.to_owned();
    *a == c
}

impl ContentItem {
    /// Decodes a content item.
    pub fn from_json(j: &Json) -> (r: Option<ContentItem>)
        ensures
            r == content_item_of(*j),
    {
        match j {
            Json::Object(f) => match f.get_req_str("type") {
                Some(t) => if same_text(&t, "text") {
                    match f.get_req_str("text") {
                        Some(text) => Some(ContentItem::Text { text }),
                        None => None,
                    }
                } else if same_text(&t, "tool_use") {
                    match (f.get_req_str("id"), f.get_req_str("name"), f.get("input")) {
                        (Some(id), Some(name), Some(input)) => Some(
                            ContentItem::ToolUse { id, name, input: input.deep_clone() },
                        ),
                        _ => None,
                    }
                } else {
                    None
                },
                None => None,
            },
            _ => None,
        }
    }
}

fn decode_items(l: &JsonList) -> (r: Option<Vec<ContentItem>>)
    ensures
        match r {
            Some(v) => content_items_of(*l) == Some(v@),
            None => content_items_of(*l) is None,
        },
{
    let mut out: Vec<ContentItem> = Vec::new();
    let mut cur = l;
    loop
        invariant
            content_items_of(*l) == match content_items_of(*cur) {
                Some(cs) => Some(out@ + cs),
                None => None::<Seq<ContentItem>>,
            },
        decreases cur,
    {
        match cur {
            JsonList::Nil => {
                assert(out@ + Seq::<ContentItem>::empty() == out@);
                return Some(out);
            },
            JsonList::Cons(h, t) => match ContentItem::from_json(h) {
                Some(c) => {
                    let ghost before = out@;
                    out.push(c);
                    proof {
                        if let Some(cs) = content_items_of(**t) {
                            assert(before + (seq![c] + cs) == out@ + cs);
                        }
                    }
                    cur = t;
                },
                None => return None,
            },
        }
    }
}

/// Whether `j` holds a buffered reply.
pub open spec fn reply_ok(j: Json) -> bool {
    &&& j.members() matches Some(f)
    &&& req_str(f.field("id"@)) is Some
    &&& req_str(f.field("model"@)) is Some
    &&& req_str(f.field("stop_reason"@)) is Some
    &&& req_str(f.field("role"@)) is Some
    &&& f.field("content"@) matches Some(Json::Array(l)) && content_items_of(*l) is Some
    &&& f.field("usage"@) matches Some(u) && usage_of(u) is Some
}

impl AnthropicResponse {
    /// Decodes a buffered reply.
    pub fn from_json(j: &Json) -> (r: Option<AnthropicResponse>)
        ensures
            r is Some <==> reply_ok(*j),
            r matches Some(x) ==> x.decodes(*j),
    {
        match j {
            Json::Object(f) => {
                let content = match f.get("content") {
                    Some(Json::Array(l)) => decode_items(l),
                    _ => None,
                };
                let usage = match f.get("usage") {
                    Some(u) => Usage::from_json(u),
                    None => None,
                };
                match (
                    f.get_req_str("id"),
                    f.get_req_str("model"),
                    f.get_req_str("stop_reason"),
                    f.get_req_str("role"),
                    content,
                    usage,
                ) {
                    (Some(id), Some(model), Some(stop_reason), Some(role), Some(content), Some(usage)) => Some(
                        AnthropicResponse { id, model, stop_reason, role, content, usage },
                    ),
                    _ => None,
                }
            },
            _ => None,
        }
    }
}

} // verus!
