//! Frame classifier: strips a frame's envelope prefixes and tells a content
//! delta from a terminal sentinel, an error envelope and a control frame.
use vstd::prelude::*;
use vstd::string::{StringExecFns, StringSliceAdditionalSpecFns};
use vstd::utf8::{valid_utf8, decode_utf8};
use crate::anthropic::{AnthropicChatCompletionChunk, AnthropicErrorMessage, chunk_ok, chunk_text, error_message_of};
use crate::json::{Json, json_parse, parse_json};

verus! {

/// One piece of output handed to the caller, in arrival order.
#[derive(Debug)]
pub enum Fragment {
    /// A piece of text; also a whole raw frame where frames are passed through.
    Text(String),
    /// A function call that the model asks for.
    FunctionCall { name: String, args: Json },
    /// A function response echoed by the service.
    FunctionResponse { name: String, response: Json },
}

/// What a fragment holds, with text as characters.
pub enum FragmentView {
    Text(Seq<char>),
    FunctionCall { name: Seq<char>, args: Json },
    FunctionResponse { name: Seq<char>, response: Json },
}

impl View for Fragment {
    type V = FragmentView;

    open spec fn view(&self) -> FragmentView {
        match self {
            Fragment::Text(t) => FragmentView::Text(t@),
            Fragment::FunctionCall { name, args } => FragmentView::FunctionCall { name: name@, args: *args },
            Fragment::FunctionResponse { name, response } => FragmentView::FunctionResponse {
                name: name@,
                response: *response,
            },
        }
    }
}

/// The views of a sequence of fragments.
pub open spec fn views(v: Seq<Fragment>) -> Seq<FragmentView> {
    v.map_values(|f: Fragment| f@)
}

/// The decimal digits, `'0'` to `'9'`.
pub open spec fn digit_chars() -> Seq<char> {
    seq!['0', '1', '2', '3', '4', '5', '6', '7', '8', '9']
}

/// The decimal digits of `n`, without leading zeros.
pub open spec fn digits_of(n: nat) -> Seq<char>
    decreases n,
{
    if n < 10 {
        seq![digit_chars()[n as int]]
    } else {
        digits_of(n / 10) + seq![digit_chars()[(n % 10) as int]]
    }
}

/// An integer in decimal, with a leading `-` where it is negative.
pub open spec fn int_text(i: int) -> Seq<char> {
    if i < 0 {
        seq!['-'] + digits_of((-i) as nat)
    } else {
        digits_of(i as nat)
    }
}

fn digit_str(d: u32) -> (r: &'static str)
    requires
        d < 10,
    ensures
        r@ == seq![digit_chars()[d as int]],
{
    proof {
        reveal_strlit("0");
        reveal_strlit("1");
        reveal_strlit("2");
        reveal_strlit("3");
        reveal_strlit("4");
        reveal_strlit("5");
        reveal_strlit("6");
        reveal_strlit("7");
        reveal_strlit("8");
        reveal_strlit("9");
    }
    match d {
        0 => "0",
        1 => "1",
        2 => "2",
        3 => "3",
        4 => "4",
        5 => "5",
        6 => "6",
        7 => "7",
        8 => "8",
        _ => "9",
    }
}

fn push_digits(out: &mut String, n: u32)
    ensures
        final(out)@ == old(out)@ + digits_of(n as nat),
    decreases n,
{
    if n >= 10 {
        push_digits(out, n / 10);
    }
    out.append(digit_str(n % 10));
    assert(old(out)@ + digits_of(n as nat) =~= out@);
}

/// Appends `i` in decimal.
fn push_decimal(out: &mut String, i: i32)
    ensures
        final(out)@ == old(out)@ + int_text(i as int),
{
    if i < 0 {
        proof { reveal_strlit("-"); }
        out.append("-");
        let m: u32 = (-(i as i64)) as u32;
        push_digits(out, m);
        assert(old(out)@ + int_text(i as int) =~= out@);
    } else {
        push_digits(out, i as u32);
    }
}

/// Why a stream failed.
#[derive(Debug)]
pub enum StreamError {
    /// The service reported an error inside a well-formed envelope.
    Provider { kind: String, message: String },
    /// The service reported an error with this code and message.
    Api { code: i32, message: String },
    /// A frame that is passed on whole is not UTF-8.
    Malformed,
}

impl StreamError {
    /// A copy of the error.
    pub fn copy(&self) -> (r: StreamError)
        ensures
            r == *self,
    {
        match self {
            StreamError::Provider { kind, message } => StreamError::Provider {
                kind: kind.clone(),
                message: message.clone(),
            },
            StreamError::Api { code, message } => StreamError::Api { code: *code, message: message.clone() },
            StreamError::Malformed => StreamError::Malformed,
        }
    }

    /// The error as one line: `"<kind>: <message>"` for a service error,
    /// `"API Error (<code>): <message>"` for a coded one.
    pub fn describe(&self) -> (r: String)
        ensures
            match self {
                StreamError::Provider { kind, message } => r@ == kind@ + ": "@ + message@,
                StreamError::Api { code, message } => r@ == "API Error ("@ + int_text(*code as int) + "): "@ + message@,
                StreamError::Malformed => r@ == "malformed frame"@,
            },
    {
        match self {
            StreamError::Provider { kind, message } => {
                let mut r = kind.clone();
                r.append(": ");
                r.append(message.as_str());
                r
            },
            StreamError::Api { code, message } => {
                let mut r = String::from_str("API Error (");
                push_decimal(&mut r, *code);
                r.append("): ");
                r.append(message.as_str());
                r
            },
            StreamError::Malformed => String::from_str("malformed frame"),
        }
    }
}

/// What one frame does to the stream.
#[derive(Debug)]
pub enum Verdict {
    /// The stream goes on.
    Continue,
    /// The terminal sentinel: the stream ends with success.
    Finish,
    /// The stream ends with this failure.
    Fail(StreamError),
}

/// Whether a byte is an ASCII whitespace character.
pub open spec fn is_space(b: u8) -> bool {
    b == 0x20 || (0x09 <= b && b <= 0x0d)
}

/// The length of the UTF-8 encoding of a whitespace character (Unicode
/// `White_Space`, as `str::trim_start` uses) at the start of `s`; 0 where
/// `s` does not start with one.
pub open spec fn space_len(s: Seq<u8>) -> int {
    if s.len() >= 1 && is_space(s[0]) {
        1
    } else if s.len() >= 2 && s[0] == 0xc2 && (s[1] == 0x85 || s[1] == 0xa0) {
        2
    } else if s.len() >= 3 && ((s[0] == 0xe1 && s[1] == 0x9a && s[2] == 0x80) || (s[0] == 0xe2 && s[1] == 0x80
        && ((0x80 <= s[2] && s[2] <= 0x8a) || s[2] == 0xa8 || s[2] == 0xa9 || s[2] == 0xaf)) || (s[0] == 0xe2
        && s[1] == 0x81 && s[2] == 0x9f) || (s[0] == 0xe3 && s[1] == 0x80 && s[2] == 0x80)) {
        3
    } else {
        0
    }
}

/// `s` without every leading repetition of `p`.
pub open spec fn strip_repeated(s: Seq<u8>, p: Seq<u8>) -> Seq<u8>
    decreases s.len(),
{
    if 0 < p.len() <= s.len() && s.subrange(0, p.len() as int) == p {
        strip_repeated(s.subrange(p.len() as int, s.len() as int), p)
    } else {
        s
    }
}

/// `s` without its leading whitespace.
pub open spec fn trim_space(s: Seq<u8>) -> Seq<u8>
    decreases s.len(),
{
    if space_len(s) > 0 {
        trim_space(s.subrange(space_len(s), s.len() as int))
    } else {
        s
    }
}

/// `s` without one leading `p`, where it starts with `p`.
pub open spec fn strip_once(s: Seq<u8>, p: Seq<u8>) -> Seq<u8> {
    if p.len() <= s.len() && s.subrange(0, p.len() as int) == p {
        s.subrange(p.len() as int, s.len() as int)
    } else {
        s
    }
}

/// The payload of a frame: event-name lines of the stream's vocabulary
/// stripped, then leading whitespace, then one `data: ` prefix.
pub open spec fn payload_of(frame: Seq<u8>) -> Seq<u8> {
    let s = strip_repeated(frame, "event: message_start".spec_bytes());
    let s = strip_repeated(s, "event: content_block_start".spec_bytes());
    let s = strip_repeated(s, "event: ping".spec_bytes());
    let s = strip_repeated(s, "event: content_block_delta".spec_bytes());
    let s = strip_repeated(s, "event: content_block_stop".spec_bytes());
    let s = strip_repeated(s, "event: message_delta".spec_bytes());
    let s = strip_repeated(s, "event: message_stop".spec_bytes());
    let s = strip_repeated(s, "event: error".spec_bytes());
    strip_once(trim_space(s), "data: ".spec_bytes())
}

/// The service error that a payload's JSON reports: an envelope whose own
/// `type` is `error`.
pub open spec fn envelope_error(j: Json) -> Option<StreamError> {
    match error_message_of(j) {
        Some(m) => if m.error_type@ == "error"@ {
            Some(StreamError::Provider { kind: m.error.error_type, message: m.error.message })
        } else {
            None
        },
        None => None,
    }
}

/// What a payload yields, given its JSON (`None` where it is no JSON): an
/// error envelope (of type `error`) fails the stream; a content chunk gives
/// its text, where that is not empty; anything else is a control frame and
/// is skipped.
pub open spec fn payload_step(p: Seq<u8>, parsed: Option<Json>) -> (Seq<FragmentView>, Verdict) {
    if p == "[DONE]".spec_bytes() {
        (Seq::empty(), Verdict::Finish)
    } else {
        match parsed {
            Some(j) => match envelope_error(j) {
                Some(e) => (Seq::empty(), Verdict::Fail(e)),
                None => if chunk_ok(j) {
                    match chunk_text(j) {
                        Some(t) => if t@.len() > 0 {
                            (seq![FragmentView::Text(t@)], Verdict::Continue)
                        } else {
                            (Seq::empty(), Verdict::Continue)
                        },
                        None => (Seq::empty(), Verdict::Continue),
                    }
                } else {
                    (Seq::empty(), Verdict::Continue)
                },
            },
            None => (Seq::empty(), Verdict::Continue),
        }
    }
}

/// What one frame of the event stream yields: the fragments, and what
/// becomes of the stream. With `verbose`, each frame is passed on whole.
pub open spec fn event_frame_step(verbose: bool, frame: Seq<u8>) -> (Seq<FragmentView>, Verdict) {
    if verbose {
        if valid_utf8(frame) {
            (seq![FragmentView::Text(decode_utf8(frame))], Verdict::Continue)
        } else {
            (Seq::empty(), Verdict::Fail(StreamError::Malformed))
        }
    } else {
        let p = payload_of(frame);
        payload_step(p, json_parse(p))
    }
}

/// Relies on `String::from_utf8`: it fails exactly on bytes that are not
/// UTF-8, and otherwise holds the characters they encode.
#[verifier::external_body]
fn utf8_string(bytes: Vec<u8>) -> (r: Option<String>)
    ensures
        r is Some <==> valid_utf8(bytes@),
        r matches Some(s) ==> s@ == decode_utf8(bytes@),
{
    String::from_utf8(bytes).ok()
}

/// Whether `p` occurs in `s` at `at`.
fn occurs_at(s: &Vec<u8>, at: usize, p: &[u8]) -> (r: bool)
    requires
        at <= s.len(),
    ensures
        r == (p@.len() <= s@.len() - at && s@.subrange(at as int, at + p@.len()) == p@),
{
    let n = s.len();
    if p.len() > n - at {
        return false;
    }
    let mut k: usize = 0;
    while k < p.len()
        invariant
            n == s@.len(),
            at + p@.len() <= s@.len(),
            k <= p@.len(),
            forall|m: int| 0 <= m < k ==> s@[at + m] == p@[m],
        decreases p@.len() - k,
    {
        if s[at + k] != p[k] {
            assert(s@.subrange(at as int, at + p@.len())[k as int] != p@[k as int]);
            return false;
        }
        k = k + 1;
    }
    assert(s@.subrange(at as int, at + p@.len()) == p@);
    true
}

fn skip_repeated(s: &Vec<u8>, at: usize, p: &[u8]) -> (r: usize)
    requires
        at <= s.len(),
    ensures
        at <= r <= s.len(),
        s@.subrange(r as int, s@.len() as int) == strip_repeated(s@.subrange(at as int, s@.len() as int), p@),
{
    let n = s.len();
    let mut i = at;
    while p.len() > 0 && occurs_at(s, i, p)
        invariant
            at <= i <= n == s@.len(),
            strip_repeated(s@.subrange(at as int, n as int), p@) == strip_repeated(s@.subrange(i as int, n as int), p@),
        decreases n - i,
    {
        let ghost cur = s@.subrange(i as int, n as int);
        assert(cur.subrange(0, p@.len() as int) == s@.subrange(i as int, i + p@.len()));
        assert(cur.subrange(p@.len() as int, cur.len() as int) == s@.subrange(i + p@.len(), n as int));
        i = i + p.len();
    }
    proof {
        let cur = s@.subrange(i as int, n as int);
        if 0 < p@.len() <= cur.len() {
            assert(cur.subrange(0, p@.len() as int) == s@.subrange(i as int, i + p@.len()));
        }
    }
    i
}

fn space_len_at(s: &Vec<u8>, i: usize) -> (r: usize)
    requires
        i <= s.len(),
    ensures
        r as int == space_len(s@.subrange(i as int, s@.len() as int)),
        i + r <= s@.len(),
{
    let n = s.len();
    let ghost t = s@.subrange(i as int, n as int);
    let m = n - i;
    let b0 = if m >= 1 { s[i] } else { 0 };
    let b1 = if m >= 2 { s[i + 1] } else { 0 };
    let b2 = if m >= 3 { s[i + 2] } else { 0 };
    proof {
        if m >= 1 { assert(t[0] == b0); }
        if m >= 2 { assert(t[1] == b1); }
        if m >= 3 { assert(t[2] == b2); }
    }
    if m >= 1 && (b0 == 0x20 || (0x09 <= b0 && b0 <= 0x0d)) {
        1
    } else if m >= 2 && b0 == 0xc2 && (b1 == 0x85 || b1 == 0xa0) {
        2
    } else if m >= 3 && ((b0 == 0xe1 && b1 == 0x9a && b2 == 0x80) || (b0 == 0xe2 && b1 == 0x80 && ((0x80 <= b2
        && b2 <= 0x8a) || b2 == 0xa8 || b2 == 0xa9 || b2 == 0xaf)) || (b0 == 0xe2 && b1 == 0x81 && b2 == 0x9f) || (b0
        == 0xe3 && b1 == 0x80 && b2 == 0x80)) {
        3
    } else {
        0
    }
}

fn skip_space(s: &Vec<u8>, at: usize) -> (r: usize)
    requires
        at <= s.len(),
    ensures
        at <= r <= s.len(),
        s@.subrange(r as int, s@.len() as int) == trim_space(s@.subrange(at as int, s@.len() as int)),
{
    let n = s.len();
    let mut i = at;
    loop
        invariant
            at <= i <= n == s@.len(),
            trim_space(s@.subrange(at as int, n as int)) == trim_space(s@.subrange(i as int, n as int)),
        decreases n - i,
    {
        let k = space_len_at(s, i);
        if k == 0 {
            return i;
        }
        let ghost t = s@.subrange(i as int, n as int);
        assert(t.subrange(k as int, t.len() as int) == s@.subrange(i + k, n as int));
        i = i + k;
    }
}

fn skip_once(s: &Vec<u8>, at: usize, p: &[u8]) -> (r: usize)
    requires
        at <= s.len(),
    ensures
        at <= r <= s.len(),
        s@.subrange(r as int, s@.len() as int) == strip_once(s@.subrange(at as int, s@.len() as int), p@),
{
    let n = s.len();
    if occurs_at(s, at, p) {
        let ghost cur = s@.subrange(at as int, n as int);
        assert(cur.subrange(0, p@.len() as int) == s@.subrange(at as int, at + p@.len()));
        assert(cur.subrange(p@.len() as int, cur.len() as int) == s@.subrange(at + p@.len(), n as int));
        at + p.len()
    } else {
        proof {
            let cur = s@.subrange(at as int, n as int);
            if p@.len() <= cur.len() {
                assert(cur.subrange(0, p@.len() as int) == s@.subrange(at as int, at + p@.len()));
            }
        }
        at
    }
}

/// The payload of a frame, as `payload_of` gives it.
pub fn frame_payload(frame: &Vec<u8>) -> (r: Vec<u8>)
    ensures
        r@ == payload_of(frame@),
{
    let n = frame.len();
    assert(frame@.subrange(0, n as int) == frame@);
    let i = skip_repeated(frame, 0, "event: message_start".as_bytes());
    let i = skip_repeated(frame, i, "event: content_block_start".as_bytes());
    let i = skip_repeated(frame, i, "event: ping".as_bytes());
    let i = skip_repeated(frame, i, "event: content_block_delta".as_bytes());
    let i = skip_repeated(frame, i, "event: content_block_stop".as_bytes());
    let i = skip_repeated(frame, i, "event: message_delta".as_bytes());
    let i = skip_repeated(frame, i, "event: message_stop".as_bytes());
    let i = skip_repeated(frame, i, "event: error".as_bytes());
    let i = skip_space(frame, i);
    let i = skip_once(frame, i, "data: ".as_bytes());
    crate::framing::copy_range(frame, i, n)
}

fn is_done(p: &Vec<u8>) -> (r: bool)
    ensures
        r == (p@ == "[DONE]".spec_bytes()),
{
    let d = "[DONE]".as_bytes();
    let r = p.len() == d.len() && occurs_at(p, 0, d);
    proof {
        if p@.len() == d@.len() {
            assert(p@.subrange(0, d@.len() as int) == p@);
        }
    }
    r
}

/// Classifies a payload, given its JSON.
pub fn classify_payload(p: &Vec<u8>, parsed: &Option<Json>) -> (r: (Vec<Fragment>, Verdict))
    ensures
        (views(r.0@), r.1) == payload_step(p@, *parsed),
{
    assert(views(Seq::<Fragment>::empty()) == Seq::<FragmentView>::empty());
    if is_done(p) {
        return (Vec::new(), Verdict::Finish);
    }
    let j = match parsed {
        Some(j) => j,
        None => return (Vec::new(), Verdict::Continue),
    };
    match AnthropicErrorMessage::from_json(j) {
        Some(m) => {
            if m.error_type == String::from_str("error") {
                return (
                    Vec::new(),
                    Verdict::Fail(StreamError::Provider { kind: m.error.error_type, message: m.error.message }),
                );
            }
        },
        None => {},
    }
    let mut out: Vec<Fragment> = Vec::new();
    match AnthropicChatCompletionChunk::from_json(j) {
        Some(c) => match c.delta {
            Some(d) => match d.text {
                Some(t) => if !t.as_str().is_empty() {
                    out.push(Fragment::Text(t));
                    assert(views(out@) == seq![FragmentView::Text(t@)]);
                },
                None => {},
            },
            None => {},
        },
        None => {},
    }
    (out, Verdict::Continue)
}

/// Classifies one frame of the event stream.
pub fn classify_event_frame(verbose: bool, frame: Vec<u8>) -> (r: (Vec<Fragment>, Verdict))
    ensures
        (views(r.0@), r.1) == event_frame_step(verbose, frame@),
{
    assert(views(Seq::<Fragment>::empty()) == Seq::<FragmentView>::empty());
    if verbose {
        let ghost bytes = frame@;
        match utf8_string(frame) {
            Some(s) => {
                let mut out: Vec<Fragment> = Vec::new();
                out.push(Fragment::Text(s));
                assert(views(out@) == seq![FragmentView::Text(decode_utf8(bytes))]);
                (out, Verdict::Continue)
            },
            None => (Vec::new(), Verdict::Fail(StreamError::Malformed)),
        }
    } else {
        let p = frame_payload(&frame);
        let parsed = parse_json(p.as_slice());
        classify_payload(&p, &parsed)
    }
}

} // verus!
