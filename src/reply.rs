//! Buffered replies: the text of a whole reply body, or why there is none.
use vstd::prelude::*;
use crate::anthropic::{AnthropicErrorMessage, AnthropicResponse, ContentItem, content_item_of, error_message_of, reply_ok};
use crate::client::{ClientError, GeminiClient};
use crate::gemini::{GeminiError, GeminiResponse, first_text_of, gemini_error_of, parts_of, response_views};
use crate::json::{Json, JsonList, json_parse, parse_json, req_str};

verus! {

/// The content items of a reply object.
pub open spec fn reply_content(j: Json) -> Option<JsonList> {
    match j.members() {
        Some(f) => match f.field("content"@) {
            Some(Json::Array(l)) => Some(*l),
            _ => None,
        },
        None => None,
    }
}

/// The text of the first content item, where that is a text item.
pub open spec fn first_item_text(l: JsonList) -> Option<String> {
    match l {
        JsonList::Cons(h, _) => match h.members() {
            Some(f) => match req_str(f.field("type"@)) {
                Some(t) => if t@ == "text"@ {
                    req_str(f.field("text"@))
                } else {
                    None
                },
                None => None,
            },
            None => None,
        },
        JsonList::Nil => None,
    }
}

/// What a buffered reply body of the event-stream service comes to.
pub open spec fn anthropic_reply(body: Seq<u8>) -> Result<String, ClientError> {
    anthropic_reply_of(json_parse(body))
}

/// What a buffered reply of the event-stream service comes to, given the
/// JSON of its body (`None` where the body is no JSON).
pub open spec fn anthropic_reply_of(parsed: Option<Json>) -> Result<String, ClientError> {
    match parsed {
        Some(j) => if reply_ok(j) {
            match first_item_text(reply_content(j)->0) {
                Some(t) => Ok(t),
                None => Err(ClientError::NoTextContent),
            }
        } else {
            Err(ClientError::Undecodable)
        },
        None => Err(ClientError::Undecodable),
    }
}

/// The text of the first text part of a candidate.
pub open spec fn first_text_part(parts: JsonList) -> Option<String>
    decreases parts,
{
    match parts {
        JsonList::Nil => None,
        JsonList::Cons(h, t) => match h.members() {
            Some(f) => match req_str(f.field("text"@)) {
                Some(s) => Some(s),
                None => first_text_part(*t),
            },
            None => first_text_part(*t),
        },
    }
}

/// The parts of a candidate.
pub open spec fn candidate_parts(c: Json) -> Option<JsonList> {
    match c.members() {
        Some(f) => match f.field("content"@) {
            Some(Json::Object(g)) => match g.field("parts"@) {
                Some(Json::Array(l)) => Some(*l),
                _ => None,
            },
            _ => None,
        },
        None => None,
    }
}

/// The candidates of a response.
pub open spec fn response_candidates(j: Json) -> Option<JsonList> {
    match j.members() {
        Some(f) => match f.field("candidates"@) {
            Some(Json::Array(l)) => Some(*l),
            _ => None,
        },
        None => None,
    }
}

/// What a buffered reply body of the object-stream service comes to: the
/// text of the first text part of the first candidate.
pub open spec fn gemini_reply(body: Seq<u8>) -> Result<String, ClientError> {
    gemini_reply_of(json_parse(body))
}

/// What a buffered reply of the object-stream service comes to, given the
/// JSON of its body.
pub open spec fn gemini_reply_of(parsed: Option<Json>) -> Result<String, ClientError> {
    match parsed {
        Some(j) => if response_views(j) is Some {
            match response_candidates(j)->0 {
                JsonList::Nil => Err(ClientError::NoCandidates),
                JsonList::Cons(c, _) => match first_text_part(candidate_parts(c)->0) {
                    Some(t) => Ok(t),
                    None => Err(ClientError::NoTextContent),
                },
            }
        } else {
            Err(ClientError::Undecodable)
        },
        None => Err(ClientError::Undecodable),
    }
}

/// What the body of a failed request to the event-stream service reports:
/// the error of its envelope, where it holds one.
pub open spec fn anthropic_failure(body: Seq<u8>) -> ClientError {
    anthropic_failure_of_json(json_parse(body))
}

/// What a failed request's body reports, given its JSON.
pub open spec fn anthropic_failure_of_json(parsed: Option<Json>) -> ClientError {
    match parsed {
        Some(j) => match error_message_of(j) {
            Some(m) => ClientError::Provider { kind: m.error.error_type, message: m.error.message },
            None => ClientError::ErrorBodyUnreadable,
        },
        None => ClientError::ErrorBodyUnreadable,
    }
}

/// What the body of a failed request to the object-stream service reports.
pub open spec fn gemini_failure(body: Seq<u8>) -> ClientError {
    gemini_failure_of_json(json_parse(body))
}

/// What a failed request's body reports, given its JSON.
pub open spec fn gemini_failure_of_json(parsed: Option<Json>) -> ClientError {
    match parsed {
        Some(j) => match gemini_error_of(j) {
            Some(e) => ClientError::Api { code: e.error.code, message: e.error.message },
            None => ClientError::ErrorBodyUnreadable,
        },
        None => ClientError::ErrorBodyUnreadable,
    }
}

/// The text of a buffered reply body of the event-stream service.
pub fn anthropic_reply_text(body: &[u8]) -> (r: Result<String, ClientError>)
    ensures
        r == anthropic_reply(body@),
{
    anthropic_reply_from(&parse_json(body))
}

/// The text of a buffered reply of the event-stream service, given the JSON
/// of its body.
pub fn anthropic_reply_from(parsed: &Option<Json>) -> (r: Result<String, ClientError>)
    ensures
        r == anthropic_reply_of(*parsed),
{
    let j = match parsed {
        Some(j) => j,
        None => return Err(ClientError::Undecodable),
    };
    let reply = match AnthropicResponse::from_json(j) {
        Some(x) => x,
        None => return Err(ClientError::Undecodable),
    };
    proof {
        let l = reply_content(*j)->0;
        if let JsonList::Cons(h, t) = l {
            assert(reply.content@[0] == content_item_of(h)->0);
        }
    }
    if reply.content.len() == 0 {
        return Err(ClientError::NoTextContent);
    }
    match &reply.content[0] {
        ContentItem::Text { text } => Ok(text.clone()),
        _ => Err(ClientError::NoTextContent),
    }
}

/// The text of a buffered reply body of the object-stream service.
pub fn gemini_reply_text(body: &[u8]) -> (r: Result<String, ClientError>)
    ensures
        r == gemini_reply(body@),
{
    gemini_reply_from(&parse_json(body))
}

proof fn lemma_first_text(l: JsonList)
    requires
        parts_of(l) is Some,
    ensures
        first_text_of(parts_of(l)->0) == first_text_part(l),
    decreases l,
{
    if let JsonList::Cons(h, t) = l {
        let ps = parts_of(l)->0;
        assert(ps.drop_first() == parts_of(*t)->0);
        lemma_first_text(*t);
    }
}

/// The text of a buffered reply of the object-stream service, given the JSON
/// of its body.
pub fn gemini_reply_from(parsed: &Option<Json>) -> (r: Result<String, ClientError>)
    ensures
        r == gemini_reply_of(*parsed),
{
    let j = match parsed {
        Some(j) => j,
        None => return Err(ClientError::Undecodable),
    };
    let response = match GeminiResponse::from_json(j) {
        Some(x) => x,
        None => return Err(ClientError::Undecodable),
    };
    if response.candidates.len() == 0 {
        proof {
            let l = response_candidates(*j)->0;
            if let JsonList::Cons(h, t) = l {
                assert(l.elems().len() > 0);
            }
        }
        return Err(ClientError::NoCandidates);
    }
    let candidate = &response.candidates[0];
    proof {
        let l = response_candidates(*j)->0;
        assert(candidate.decodes(l.elems()[0]));
        match l {
            JsonList::Cons(h, _) => {
                assert(l.elems()[0] == h);
                let pl = candidate_parts(h)->0;
                lemma_first_text(pl);
            },
            JsonList::Nil => {},
        }
    }
    match GeminiClient::extract_text_from_candidate(candidate) {
        Some(t) => Ok(t),
        None => Err(ClientError::NoTextContent),
    }
}

/// What a failed request to the event-stream service comes to: the
/// error its body reports, else its status and body.
pub fn anthropic_failure_of(status: u16, body: &[u8]) -> (r: ClientError)
    ensures
        match anthropic_failure(body@) {
            ClientError::ErrorBodyUnreadable => r matches ClientError::Status { status: s, body: b } && s == status
                && b@ == body@,
            e => r == e,
        },
{
    match anthropic_failure_from(&parse_json(body)) {
        ClientError::ErrorBodyUnreadable => ClientError::Status { status, body: bytes_copy(body) },
        e => e,
    }
}

/// What a failed request's body reports, given its JSON.
pub fn anthropic_failure_from(parsed: &Option<Json>) -> (r: ClientError)
    ensures
        r == anthropic_failure_of_json(*parsed),
{
    match parsed {
        Some(j) => match AnthropicErrorMessage::from_json(j) {
            Some(m) => ClientError::Provider { kind: m.error.error_type, message: m.error.message },
            None => ClientError::ErrorBodyUnreadable,
        },
        None => ClientError::ErrorBodyUnreadable,
    }
}

/// What a failed request to the object-stream service comes to: the
/// error its body reports, else its status and body.
pub fn gemini_failure_of(status: u16, body: &[u8]) -> (r: ClientError)
    ensures
        match gemini_failure(body@) {
            ClientError::ErrorBodyUnreadable => r matches ClientError::Status { status: s, body: b } && s == status
                && b@ == body@,
            e => r == e,
        },
{
    match gemini_failure_from(&parse_json(body)) {
        ClientError::ErrorBodyUnreadable => ClientError::Status { status, body: bytes_copy(body) },
        e => e,
    }
}

/// What a failed request's body reports, given its JSON.
pub fn gemini_failure_from(parsed: &Option<Json>) -> (r: ClientError)
    ensures
        r == gemini_failure_of_json(*parsed),
{
    match parsed {
        Some(j) => match GeminiError::from_json(j) {
            Some(e) => ClientError::Api { code: e.error.code, message: e.error.message },
            None => ClientError::ErrorBodyUnreadable,
        },
        None => ClientError::ErrorBodyUnreadable,
    }
}

fn bytes_copy(b: &[u8]) -> (r: Vec<u8>)
    ensures
        r@ == b@,
{
    let mut r: Vec<u8> = Vec::new();
    let mut i: usize = 0;
    while i < b.len()
        invariant
            i <= b@.len(),
            r@ == b@.subrange(0, i as int),
        decreases b@.len() - i,
    {
        r.push(b[i]);
        i = i + 1;
    }
    assert(b@.subrange(0, b@.len() as int) == b@);
    r
}

} // verus!
