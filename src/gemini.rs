//! The object-stream service's messages: candidates and their parts, decoded
//! from the JSON model into fragments.
use vstd::prelude::*;
use crate::classify::{Fragment, FragmentView, StreamError, Verdict, views};
use crate::json::{Json, JsonList, JsonMembers, json_parse, opt_any, opt_str, parse_json, req_int, req_str};

verus! {

/// A content filter setting sent with a request.
#[derive(Debug)]
pub struct GeminiSafetySetting {
    pub category: String,
    pub threshold: String,
}

/// A content filter rating on a candidate.
#[derive(Debug)]
pub struct GeminiSafetyRating {
    pub category: String,
    pub probability: String,
}

/// Token counts reported on a response.
#[derive(Debug)]
pub struct GeminiUsage {
    pub prompt_token_count: i32,
    pub candidates_token_count: i32,
    pub total_token_count: i32,
}

/// The error body of a failed request.
#[derive(Debug)]
pub struct GeminiError {
    pub error: GeminiErrorDetails,
}

/// What an error body reports.
#[derive(Debug)]
pub struct GeminiErrorDetails {
    pub code: i32,
    pub message: String,
    pub status: String,
}

/// A required `i32` field.
pub open spec fn req_i32(j: Option<Json>) -> Option<i32> {
    match req_int(j, i32::MIN as int, i32::MAX as int) {
        Some(i) => Some(i as i32),
        None => None,
    }
}

fn get_req_i32(m: &JsonMembers, key: &str) -> (r: Option<i32>)
    ensures
        r == req_i32(m.field(key@)),
{
    match m.get_req_int(key, i32::MIN as i128, i32::MAX as i128) {
        Some(i) => Some(i as i32),
        None => None,
    }
}

/// `GeminiSafetyRating` as a JSON object gives it.
pub open spec fn rating_of(j: Json) -> Option<GeminiSafetyRating> {
    match j.members() {
        Some(f) => match (req_str(f.field("category"@)), req_str(f.field("probability"@))) {
            (Some(c), Some(p)) => Some(GeminiSafetyRating { category: c, probability: p }),
            _ => None,
        },
        None => None,
    }
}

/// `GeminiUsage` as a JSON object gives it.
pub open spec fn gemini_usage_of(j: Json) -> Option<GeminiUsage> {
    match j.members() {
        Some(f) => match (
            req_i32(f.field("prompt_token_count"@)),
            req_i32(f.field("candidates_token_count"@)),
            req_i32(f.field("total_token_count"@)),
        ) {
            (Some(a), Some(b), Some(c)) => Some(
                GeminiUsage { prompt_token_count: a, candidates_token_count: b, total_token_count: c },
            ),
            _ => None,
        },
        None => None,
    }
}

/// `GeminiErrorDetails` as a JSON object gives it.
pub open spec fn error_details_of(j: Json) -> Option<GeminiErrorDetails> {
    match j.members() {
        Some(f) => match (req_i32(f.field("code"@)), req_str(f.field("message"@)), req_str(f.field("status"@))) {
            (Some(c), Some(m), Some(s)) => Some(GeminiErrorDetails { code: c, message: m, status: s }),
            _ => None,
        },
        None => None,
    }
}

/// `GeminiError` as a JSON object gives it.
pub open spec fn gemini_error_of(j: Json) -> Option<GeminiError> {
    match j.members() {
        Some(f) => match f.field("error"@) {
            Some(e) => match error_details_of(e) {
                Some(d) => Some(GeminiError { error: d }),
                None => None,
            },
            None => None,
        },
        None => None,
    }
}

/// Whether every element of a JSON array is a safety rating.
pub open spec fn ratings_ok(l: JsonList) -> bool
    decreases l,
{
    match l {
        JsonList::Nil => true,
        JsonList::Cons(h, t) => rating_of(h) is Some && ratings_ok(*t),
    }
}

/// Whether an optional field is absent, null, or an array of safety ratings.
pub open spec fn opt_ratings_ok(j: Option<Json>) -> bool {
    match opt_any(j) {
        None => true,
        Some(Json::Array(l)) => ratings_ok(*l),
        Some(_) => false,
    }
}

/// A `{name, <key>}` object: the name and the value under `key`.
pub open spec fn named_value(j: Option<Json>, key: Seq<char>) -> Option<(String, Json)> {
    match j {
        Some(v) => match v.members() {
            Some(g) => match (req_str(g.field("name"@)), g.field(key)) {
                (Some(n), Some(a)) => Some((n, a)),
                _ => None,
            },
            None => None,
        },
        None => None,
    }
}

/// What one part of a candidate yields: a text part its text, where that is
/// not empty; a function call or response its name and value. `None` where the
/// value is no part.
pub open spec fn part_views(j: Json) -> Option<Seq<FragmentView>> {
    match j.members() {
        None => None,
        Some(f) => match req_str(f.field("text"@)) {
            Some(t) => Some(if t@.len() > 0 { seq![FragmentView::Text(t@)] } else { Seq::empty() }),
            None => match named_value(f.field("function_call"@), "args"@) {
                Some((n, a)) => Some(seq![FragmentView::FunctionCall { name: n@, args: a }]),
                None => match named_value(f.field("function_response"@), "response"@) {
                    Some((n, a)) => Some(seq![FragmentView::FunctionResponse { name: n@, response: a }]),
                    None => None,
                },
            },
        },
    }
}

/// The fragments of the parts of a JSON array, in order.
pub open spec fn parts_views(l: JsonList) -> Option<Seq<FragmentView>>
    decreases l,
{
    match l {
        JsonList::Nil => Some(Seq::empty()),
        JsonList::Cons(h, t) => match (part_views(h), parts_views(*t)) {
            (Some(a), Some(b)) => Some(a + b),
            _ => None,
        },
    }
}

/// The fragments of one candidate.
pub open spec fn candidate_views(j: Json) -> Option<Seq<FragmentView>> {
    match j.members() {
        None => None,
        Some(f) => match f.field("content"@) {
            Some(c) => match c.members() {
                Some(g) => match g.field("parts"@) {
                    Some(Json::Array(l)) => if opt_str(g.field("role"@)) is Some && opt_str(
                        f.field("finish_reason"@),
                    ) is Some && opt_ratings_ok(f.field("safety_ratings"@)) {
                        parts_views(*l)
                    } else {
                        None
                    },
                    _ => None,
                },
                None => None,
            },
            None => None,
        },
    }
}

/// The fragments of the candidates of a JSON array, in order.
pub open spec fn candidates_views(l: JsonList) -> Option<Seq<FragmentView>>
    decreases l,
{
    match l {
        JsonList::Nil => Some(Seq::empty()),
        JsonList::Cons(h, t) => match (candidate_views(h), candidates_views(*t)) {
            (Some(a), Some(b)) => Some(a + b),
            _ => None,
        },
    }
}

/// The fragments of a response object; `None` where `j` is no response.
pub open spec fn response_views(j: Json) -> Option<Seq<FragmentView>> {
    match j.members() {
        None => None,
        Some(f) => match f.field("candidates"@) {
            Some(Json::Array(l)) => if (match opt_any(f.field("usage_metadata"@)) {
                None => true,
                Some(u) => gemini_usage_of(u) is Some,
            }) {
                candidates_views(*l)
            } else {
                None
            },
            _ => None,
        },
    }
}

/// What one frame of the object stream yields: the fragments of the response
/// it holds; an error object fails the stream with its code and message; any
/// other frame is skipped.
pub open spec fn object_frame_step(frame: Seq<u8>) -> (Seq<FragmentView>, Verdict) {
    object_step(json_parse(frame))
}

/// What a frame of the object stream yields, given its JSON.
pub open spec fn object_step(parsed: Option<Json>) -> (Seq<FragmentView>, Verdict) {
    match parsed {
        Some(j) => match response_views(j) {
            Some(v) => (v, Verdict::Continue),
            None => match gemini_error_of(j) {
                Some(e) => (
                    Seq::empty(),
                    Verdict::Fail(StreamError::Api { code: e.error.code, message: e.error.message }),
                ),
                None => (Seq::empty(), Verdict::Continue),
            },
        },
        None => (Seq::empty(), Verdict::Continue),
    }
}

proof fn lemma_views_push(v: Seq<Fragment>, f: Fragment)
    ensures
        views(v.push(f)) == views(v).push(f@),
{
    assert(views(v.push(f)) =~= views(v).push(f@));
}

impl GeminiSafetyRating {
    /// Decodes a safety rating object.
    pub fn from_json(j: &Json) -> (r: Option<GeminiSafetyRating>)
        ensures
            r == rating_of(*j),
    {
        match j {
            Json::Object(f) => match (f.get_req_str("category"), f.get_req_str("probability")) {
                (Some(c), Some(p)) => Some(GeminiSafetyRating { category: c, probability: p }),
                _ => None,
            },
            _ => None,
        }
    }
}

impl GeminiUsage {
    /// Decodes a usage object.
    pub fn from_json(j: &Json) -> (r: Option<GeminiUsage>)
        ensures
            r == gemini_usage_of(*j),
    {
        match j {
            Json::Object(f) => match (
                get_req_i32(f, "prompt_token_count"),
                get_req_i32(f, "candidates_token_count"),
                get_req_i32(f, "total_token_count"),
            ) {
                (Some(a), Some(b), Some(c)) => Some(
                    GeminiUsage { prompt_token_count: a, candidates_token_count: b, total_token_count: c },
                ),
                _ => None,
            },
            _ => None,
        }
    }
}

impl GeminiErrorDetails {
    /// Decodes the `error` member of an error body.
    pub fn from_json(j: &Json) -> (r: Option<GeminiErrorDetails>)
        ensures
            r == error_details_of(*j),
    {
        match j {
            Json::Object(f) => match (get_req_i32(f, "code"), f.get_req_str("message"), f.get_req_str("status")) {
                (Some(c), Some(m), Some(s)) => Some(GeminiErrorDetails { code: c, message: m, status: s }),
                _ => None,
            },
            _ => None,
        }
    }
}

impl GeminiError {
    /// Decodes an error body.
    pub fn from_json(j: &Json) -> (r: Option<GeminiError>)
        ensures
            r == gemini_error_of(*j),
    {
        match j {
            Json::Object(f) => match f.get("error") {
                Some(e) => match GeminiErrorDetails::from_json(e) {
                    Some(d) => Some(GeminiError { error: d }),
                    None => None,
                },
                None => None,
            },
            _ => None,
        }
    }
}

fn ratings_valid(l: &JsonList) -> (r: bool)
    ensures
        r == ratings_ok(*l),
{
    let mut cur = l;
    loop
        invariant
            ratings_ok(*l) == ratings_ok(*cur),
        decreases cur,
    {
        match cur {
            JsonList::Nil => return true,
            JsonList::Cons(h, t) => {
                if GeminiSafetyRating::from_json(h).is_none() {
                    return false;
                }
                cur = t;
            },
        }
    }
}

fn get_named_value(m: &JsonMembers, field: &str, key: &str) -> (r: Option<(String, Json)>)
    ensures
        r == named_value(m.field(field@), key@),
{
    match m.get(field) {
        Some(Json::Object(g)) => match (g.get_req_str("name"), g.get(key)) {
            (Some(n), Some(a)) => Some((n, a.deep_clone())),
            _ => None,
        },
        _ => None,
    }
}

/// Appends the fragments of one part; `false`, with `out` unchanged, where
/// the value is no part.
fn push_part(j: &Json, out: &mut Vec<Fragment>) -> (ok: bool)
    ensures
        ok == part_views(*j) is Some,
        ok ==> views(final(out)@) == views(old(out)@) + part_views(*j)->0,
        !ok ==> final(out)@ == old(out)@,
{
    match j {
        Json::Object(f) => {
            match f.get_req_str("text") {
                Some(t) => {
                    if !t.as_str().is_empty() {
                        proof { lemma_views_push(out@, Fragment::Text(t)); }
                        out.push(Fragment::Text(t));
                    } else {
                        assert(views(out@) + Seq::<FragmentView>::empty() == views(out@));
                    }
                    return true;
                },
                None => {},
            }
            match get_named_value(f, "function_call", "args") {
                Some((name, args)) => {
                    proof { lemma_views_push(out@, Fragment::FunctionCall { name, args }); }
                    out.push(Fragment::FunctionCall { name, args });
                    return true;
                },
                None => {},
            }
            match get_named_value(f, "function_response", "response") {
                Some((name, response)) => {
                    proof { lemma_views_push(out@, Fragment::FunctionResponse { name, response }); }
                    out.push(Fragment::FunctionResponse { name, response });
                    true
                },
                None => false,
            }
        },
        _ => false,
    }
}

/// Appends the fragments of the parts of an array; `false` where one element
/// is no part.
fn push_parts(l: &JsonList, out: &mut Vec<Fragment>) -> (ok: bool)
    ensures
        ok == parts_views(*l) is Some,
        ok ==> views(final(out)@) == views(old(out)@) + parts_views(*l)->0,
{
    let ghost start = views(out@);
    let ghost mut acc: Seq<FragmentView> = Seq::empty();
    let mut cur = l;
    loop
        invariant
            start == views(old(out)@),
            views(out@) == start + acc,
            parts_views(*l) == match parts_views(*cur) {
                Some(v) => Some(acc + v),
                None => None::<Seq<FragmentView>>,
            },
        decreases cur,
    {
        match cur {
            JsonList::Nil => {
                assert(acc + Seq::<FragmentView>::empty() == acc);
                return true;
            },
            JsonList::Cons(h, t) => {
                let ghost before = views(out@);
                if !push_part(h, out) {
                    return false;
                }
                proof {
                    let a = part_views(*h)->0;
                    if let Some(b) = parts_views(**t) {
                        assert(acc + (a + b) == (acc + a) + b);
                    }
                    assert(views(out@) == start + (acc + a));
                    acc = acc + a;
                }
                cur = t;
            },
        }
    }
}

/// Appends the fragments of one candidate; `false` where the value is no
/// candidate.
fn push_candidate(j: &Json, out: &mut Vec<Fragment>) -> (ok: bool)
    ensures
        ok == candidate_views(*j) is Some,
        ok ==> views(final(out)@) == views(old(out)@) + candidate_views(*j)->0,
{
    match j {
        Json::Object(f) => match f.get("content") {
            Some(Json::Object(g)) => match g.get("parts") {
                Some(Json::Array(l)) => {
                    let ratings_fine = match f.get("safety_ratings") {
                        None => true,
                        Some(Json::Null) => true,
                        Some(Json::Array(r)) => ratings_valid(r),
                        Some(_) => false,
                    };
                    if g.get_opt_str("role").is_some() && f.get_opt_str("finish_reason").is_some()
                        && ratings_fine {
                        push_parts(l, out)
                    } else {
                        false
                    }
                },
                _ => false,
            },
            _ => false,
        },
        _ => false,
    }
}

/// The fragments of a response object, in order; `None` where `j` is no
/// response.
pub fn response_fragments(j: &Json) -> (r: Option<Vec<Fragment>>)
    ensures
        match r {
            Some(v) => response_views(*j) == Some(views(v@)),
            None => response_views(*j) is None,
        },
{
    match j {
        Json::Object(f) => {
            let usage_fine = match f.get("usage_metadata") {
                None => true,
                Some(Json::Null) => true,
                Some(u) => GeminiUsage::from_json(u).is_some(),
            };
            if !usage_fine {
                return None;
            }
            match f.get("candidates") {
                Some(Json::Array(l)) => {
                    let mut out: Vec<Fragment> = Vec::new();
                    let ghost mut acc: Seq<FragmentView> = Seq::empty();
                    let mut cur: &JsonList = l;
                    assert(views(out@) == Seq::<FragmentView>::empty());
                    assert(response_views(*j) == candidates_views(**l));
                    loop
                        invariant
                            response_views(*j) == candidates_views(**l),
                            views(out@) == acc,
                            candidates_views(**l) == match candidates_views(*cur) {
                                Some(v) => Some(acc + v),
                                None => None::<Seq<FragmentView>>,
                            },
                        decreases cur,
                    {
                        match cur {
                            JsonList::Nil => {
                                assert(acc + Seq::<FragmentView>::empty() == acc);
                                return Some(out);
                            },
                            JsonList::Cons(h, t) => {
                                if !push_candidate(h, &mut out) {
                                    return None;
                                }
                                proof {
                                    let a = candidate_views(*h)->0;
                                    if let Some(b) = candidates_views(**t) {
                                        assert(acc + (a + b) == (acc + a) + b);
                                    }
                                    acc = acc + a;
                                }
                                cur = t;
                            },
                        }
                    }
                },
                _ => None,
            }
        },
        _ => None,
    }
}

/// Classifies a frame of the object stream, given its JSON.
pub fn classify_object(parsed: &Option<Json>) -> (r: (Vec<Fragment>, Verdict))
    ensures
        (views(r.0@), r.1) == object_step(*parsed),
{
    assert(views(Seq::<Fragment>::empty()) == Seq::<FragmentView>::empty());
    match parsed {
        Some(j) => match response_fragments(j) {
            Some(v) => (v, Verdict::Continue),
            None => match GeminiError::from_json(j) {
                Some(e) => (Vec::new(), Verdict::Fail(StreamError::Api { code: e.error.code, message: e.error.message })),
                None => (Vec::new(), Verdict::Continue),
            },
        },
        None => (Vec::new(), Verdict::Continue),
    }
}

/// Classifies one frame of the object stream.
pub fn classify_object_frame(frame: &Vec<u8>) -> (r: (Vec<Fragment>, Verdict))
    ensures
        (views(r.0@), r.1) == object_frame_step(frame@),
{
    classify_object(&parse_json(frame.as_slice()))
}

/// A function call that a candidate asks for.
#[derive(Debug)]
pub struct GeminiFunctionCall {
    pub name: String,
    pub args: Json,
}

/// A function response echoed in a candidate.
#[derive(Debug)]
pub struct GeminiFunctionResponse {
    pub name: String,
    pub response: Json,
}

/// One part of a candidate's content.
#[derive(Debug)]
pub enum GeminiPart {
    Text { text: String },
    FunctionCall { function_call: GeminiFunctionCall },
    FunctionResponse { function_response: GeminiFunctionResponse },
}

/// The content of a candidate.
#[derive(Debug)]
pub struct GeminiContent {
    pub parts: Vec<GeminiPart>,
    pub role: Option<String>,
}

/// One candidate reply.
#[derive(Debug)]
pub struct GeminiCandidate {
    pub content: GeminiContent,
    pub finish_reason: Option<String>,
    pub safety_ratings: Option<Vec<GeminiSafetyRating>>,
}

/// A whole response, or one object of a stream.
#[derive(Debug)]
pub struct GeminiResponse {
    pub candidates: Vec<GeminiCandidate>,
    pub usage_metadata: Option<GeminiUsage>,
}

/// `GeminiPart` as a JSON object gives it: a text part where it has a
/// string `text`, else a call, else a response.
pub open spec fn part_of(j: Json) -> Option<GeminiPart> {
    match j.members() {
        None => None,
        Some(f) => match req_str(f.field("text"@)) {
            Some(t) => Some(GeminiPart::Text { text: t }),
            None => match named_value(f.field("function_call"@), "args"@) {
                Some((n, a)) => Some(GeminiPart::FunctionCall { function_call: GeminiFunctionCall { name: n, args: a } }),
                None => match named_value(f.field("function_response"@), "response"@) {
                    Some((n, a)) => Some(
                        GeminiPart::FunctionResponse { function_response: GeminiFunctionResponse { name: n, response: a } },
                    ),
                    None => None,
                },
            },
        },
    }
}

/// The parts of a JSON array, where each element is one.
pub open spec fn parts_of(l: JsonList) -> Option<Seq<GeminiPart>>
    decreases l,
{
    match l {
        JsonList::Nil => Some(Seq::empty()),
        JsonList::Cons(h, t) => match (part_of(h), parts_of(*t)) {
            (Some(p), Some(ps)) => Some(seq![p] + ps),
            _ => None,
        },
    }
}

/// The safety ratings of a JSON array, where each element is one.
pub open spec fn ratings_of(l: JsonList) -> Option<Seq<GeminiSafetyRating>>
    decreases l,
{
    match l {
        JsonList::Nil => Some(Seq::empty()),
        JsonList::Cons(h, t) => match (rating_of(h), ratings_of(*t)) {
            (Some(r), Some(rs)) => Some(seq![r] + rs),
            _ => None,
        },
    }
}

/// An optional usage field.
pub open spec fn opt_usage(j: Option<Json>) -> Option<Option<GeminiUsage>> {
    match opt_any(j) {
        None => Some(None),
        Some(u) => match gemini_usage_of(u) {
            Some(x) => Some(Some(x)),
            None => None,
        },
    }
}

impl GeminiContent {
    /// Whether this content is what `j` holds.
    pub open spec fn decodes(self, j: Json) -> bool {
        &&& j.members() matches Some(g)
        &&& g.field("parts"@) matches Some(Json::Array(l))
        &&& parts_of(*l) == Some(self.parts@)
        &&& opt_str(g.field("role"@)) == Some(self.role)
    }
}

impl GeminiCandidate {
    /// Whether this candidate is what `j` holds.
    pub open spec fn decodes(self, j: Json) -> bool {
        &&& j.members() matches Some(f)
        &&& f.field("content"@) matches Some(c)
        &&& self.content.decodes(c)
        &&& opt_str(f.field("finish_reason"@)) == Some(self.finish_reason)
        &&& match (opt_any(f.field("safety_ratings"@)), self.safety_ratings) {
            (None, None) => true,
            (Some(Json::Array(l)), Some(v)) => ratings_of(*l) == Some(v@),
            _ => false,
        }
    }
}

impl GeminiResponse {
    /// Whether this response is what `j` holds.
    pub open spec fn decodes(self, j: Json) -> bool {
        &&& j.members() matches Some(f)
        &&& f.field("candidates"@) matches Some(Json::Array(l))
        &&& self.candidates@.len() == l.elems().len()
        &&& forall|i: int| 0 <= i < l.elems().len() ==> #[trigger] self.candidates@[i].decodes(l.elems()[i])
        &&& opt_usage(f.field("usage_metadata"@)) == Some(self.usage_metadata)
    }
}

proof fn lemma_part_views(j: Json)
    ensures
        part_views(j) is Some <==> part_of(j) is Some,
{
}

proof fn lemma_parts_views(l: JsonList)
    ensures
        parts_views(l) is Some <==> parts_of(l) is Some,
    decreases l,
{
    if let JsonList::Cons(h, t) = l {
        lemma_part_views(h);
        lemma_parts_views(*t);
    }
}

proof fn lemma_ratings(l: JsonList)
    ensures
        ratings_ok(l) <==> ratings_of(l) is Some,
    decreases l,
{
    if let JsonList::Cons(h, t) = l {
        lemma_ratings(*t);
    }
}

impl GeminiPart {
    /// Decodes a part.
    pub fn from_json(j: &Json) -> (r: Option<GeminiPart>)
        ensures
            r == part_of(*j),
    {
        match j {
            Json::Object(f) => {
                match f.get_req_str("text") {
                    Some(text) => return Some(GeminiPart::Text { text }),
                    None => {},
                }
                match get_named_value(f, "function_call", "args") {
                    Some((name, args)) => return Some(
                        GeminiPart::FunctionCall { function_call: GeminiFunctionCall { name, args } },
                    ),
                    None => {},
                }
                match get_named_value(f, "function_response", "response") {
                    Some((name, response)) => Some(
                        GeminiPart::FunctionResponse { function_response: GeminiFunctionResponse { name, response } },
                    ),
                    None => None,
                }
            },
            _ => None,
        }
    }
}

fn decode_parts(l: &JsonList) -> (r: Option<Vec<GeminiPart>>)
    ensures
        match r {
            Some(v) => parts_of(*l) == Some(v@),
            None => parts_of(*l) is None,
        },
{
    let mut out: Vec<GeminiPart> = Vec::new();
    let mut cur = l;
    loop
        invariant
            parts_of(*l) == match parts_of(*cur) {
                Some(ps) => Some(out@ + ps),
                None => None::<Seq<GeminiPart>>,
            },
        decreases cur,
    {
        match cur {
            JsonList::Nil => {
                assert(out@ + Seq::<GeminiPart>::empty() == out@);
                return Some(out);
            },
            JsonList::Cons(h, t) => match GeminiPart::from_json(h) {
                Some(p) => {
                    let ghost before = out@;
                    out.push(p);
                    proof {
                        if let Some(ps) = parts_of(**t) {
                            assert(before + (seq![p] + ps) == out@ + ps);
                        }
                    }
                    cur = t;
                },
                None => return None,
            },
        }
    }
}

fn decode_ratings(l: &JsonList) -> (r: Option<Vec<GeminiSafetyRating>>)
    ensures
        match r {
            Some(v) => ratings_of(*l) == Some(v@),
            None => ratings_of(*l) is None,
        },
{
    let mut out: Vec<GeminiSafetyRating> = Vec::new();
    let mut cur = l;
    loop
        invariant
            ratings_of(*l) == match ratings_of(*cur) {
                Some(rs) => Some(out@ + rs),
                None => None::<Seq<GeminiSafetyRating>>,
            },
        decreases cur,
    {
        match cur {
            JsonList::Nil => {
                assert(out@ + Seq::<GeminiSafetyRating>::empty() == out@);
                return Some(out);
            },
            JsonList::Cons(h, t) => match GeminiSafetyRating::from_json(h) {
                Some(x) => {
                    let ghost before = out@;
                    out.push(x);
                    proof {
                        if let Some(rs) = ratings_of(**t) {
                            assert(before + (seq![x] + rs) == out@ + rs);
                        }
                    }
                    cur = t;
                },
                None => return None,
            },
        }
    }
}

impl GeminiContent {
    /// Decodes a candidate's content.
    pub fn from_json(j: &Json) -> (r: Option<GeminiContent>)
        ensures
            match r {
                Some(c) => c.decodes(*j),
                None => !(j.members() matches Some(g) && g.field("parts"@) matches Some(Json::Array(l))
                    && parts_of(*l) is Some && opt_str(g.field("role"@)) is Some),
            },
    {
        match j {
            Json::Object(g) => match g.get("parts") {
                Some(Json::Array(l)) => match (decode_parts(l), g.get_opt_str("role")) {
                    (Some(parts), Some(role)) => Some(GeminiContent { parts, role }),
                    _ => None,
                },
                _ => None,
            },
            _ => None,
        }
    }
}

impl GeminiCandidate {
    /// Decodes a candidate.
    pub fn from_json(j: &Json) -> (r: Option<GeminiCandidate>)
        ensures
            r is Some <==> candidate_views(*j) is Some,
            r matches Some(c) ==> c.decodes(*j),
    {
        match j {
            Json::Object(f) => {
                let content = match f.get("content") {
                    Some(c) => GeminiContent::from_json(c),
                    None => None,
                };
                let ratings = match f.get("safety_ratings") {
                    None => Some(None),
                    Some(Json::Null) => Some(None),
                    Some(Json::Array(l)) => match decode_ratings(l) {
                        Some(v) => Some(Some(v)),
                        None => None,
                    },
                    Some(_) => None,
                };
                proof {
                    if let Some(Json::Object(c)) = f.field("content"@) {
                        if let Some(Json::Array(l)) = c.field("parts"@) {
                            lemma_parts_views(*l);
                        }
                    }
                    if let Some(Json::Array(l)) = opt_any(f.field("safety_ratings"@)) {
                        lemma_ratings(*l);
                    }
                }
                match (content, f.get_opt_str("finish_reason"), ratings) {
                    (Some(content), Some(finish_reason), Some(safety_ratings)) => Some(
                        GeminiCandidate { content, finish_reason, safety_ratings },
                    ),
                    _ => None,
                }
            },
            _ => None,
        }
    }
}

/// The text of the first text part among `parts`.
pub open spec fn first_text_of(parts: Seq<GeminiPart>) -> Option<String>
    decreases parts.len(),
{
    if parts.len() == 0 {
        None
    } else {
        match parts[0] {
            GeminiPart::Text { text } => Some(text),
            _ => first_text_of(parts.drop_first()),
        }
    }
}

impl GeminiResponse {
    /// Decodes a response.
    pub fn from_json(j: &Json) -> (r: Option<GeminiResponse>)
        ensures
            r is Some <==> response_views(*j) is Some,
            r matches Some(x) ==> x.decodes(*j),
    {
        match j {
            Json::Object(f) => {
                let usage = match f.get("usage_metadata") {
                    None => Some(None),
                    Some(Json::Null) => Some(None),
                    Some(u) => match GeminiUsage::from_json(u) {
                        Some(x) => Some(Some(x)),
                        None => None,
                    },
                };
                let usage_metadata = match usage {
                    Some(x) => x,
                    None => return None,
                };
                match f.get("candidates") {
                    Some(Json::Array(l)) => {
                        let mut out: Vec<GeminiCandidate> = Vec::new();
                        let mut cur: &JsonList = l;
                        loop
                            invariant
                                *j == Json::Object(*f),
                                f.field("candidates"@) == Some(Json::Array(*l)),
                                response_views(*j) == candidates_views(**l),
                                opt_usage(f.field("usage_metadata"@)) == Some(usage_metadata),
                                candidates_views(**l) is Some <==> candidates_views(*cur) is Some,
                                out@.len() + cur.elems().len() == l.elems().len(),
                                cur.elems() == l.elems().subrange(out@.len() as int, l.elems().len() as int),
                                forall|i: int| 0 <= i < out@.len() ==> #[trigger] out@[i].decodes(l.elems()[i]),
                            decreases cur,
                        {
                            match cur {
                                JsonList::Nil => {
                                    assert(cur.elems().len() == 0);
                                    let r = GeminiResponse { candidates: out, usage_metadata };
                                    assert(r.candidates@.len() == l.elems().len());
                                    assert(forall|i: int| 0 <= i < l.elems().len() ==> #[trigger] r.candidates@[i].decodes(l.elems()[i]));
                                    return Some(r);
                                },
                                JsonList::Cons(h, t) => match GeminiCandidate::from_json(h) {
                                    Some(c) => {
                                        proof {
                                            let k = out@.len() as int;
                                            let n = l.elems().len() as int;
                                            assert(cur.elems() == seq![*h] + t.elems());
                                            assert(l.elems().subrange(k + 1, n) == l.elems().subrange(k, n).drop_first());
                                            assert(l.elems().subrange(k, n)[0] == l.elems()[k]);
                                            assert(l.elems()[k] == *h);
                                        }
                                        out.push(c);
                                        cur = t;
                                    },
                                    None => return None,
                                },
                            }
                        }
                    },
                    _ => None,
                }
            },
            _ => None,
        }
    }
}

} // verus!
