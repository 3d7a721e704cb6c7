//! A plain model of JSON documents, and the parser that produces it.
use vstd::prelude::*;

verus! {

/// One JSON value. Integral numbers are held exactly; any other number is
/// held as the text that `serde_json` prints for it.
#[derive(Debug)]
pub enum Json {
    Null,
    Bool(bool),
    Int(i128),
    Decimal(String),
    Str(String),
    Array(Box<JsonList>),
    Object(Box<JsonMembers>),
}

/// The elements of an array, first to last.
#[derive(Debug)]
pub enum JsonList {
    Nil,
    Cons(Json, Box<JsonList>),
}

/// The members of an object, in the parser's order.
#[derive(Debug)]
pub enum JsonMembers {
    Nil,
    Cons(String, Json, Box<JsonMembers>),
}

/// What a JSON value holds, with strings as characters.
pub enum JsonView {
    Null,
    Bool(bool),
    Int(int),
    Decimal(Seq<char>),
    Str(Seq<char>),
    Array(Seq<JsonView>),
    Object(Seq<(Seq<char>, JsonView)>),
}

impl View for Json {
    type V = JsonView;

    open spec fn view(&self) -> JsonView
        decreases self,
    {
        match self {
            Json::Null => JsonView::Null,
            Json::Bool(b) => JsonView::Bool(*b),
            Json::Int(i) => JsonView::Int(*i as int),
            Json::Decimal(s) => JsonView::Decimal(s@),
            Json::Str(s) => JsonView::Str(s@),
            Json::Array(l) => JsonView::Array(l.item_views()),
            Json::Object(m) => JsonView::Object(m.member_views()),
        }
    }
}

impl JsonList {
    /// The views of the elements, in order.
    pub open spec fn item_views(&self) -> Seq<JsonView>
        decreases self,
    {
        match self {
            JsonList::Nil => Seq::empty(),
            JsonList::Cons(h, t) => seq![h@] + t.item_views(),
        }
    }
}

impl JsonMembers {
    /// The views of the members, in order.
    pub open spec fn member_views(&self) -> Seq<(Seq<char>, JsonView)>
        decreases self,
    {
        match self {
            JsonMembers::Nil => Seq::empty(),
            JsonMembers::Cons(k, v, t) => seq![(k@, v@)] + t.member_views(),
        }
    }
}

/// The value that the JSON text `text` denotes, or `None` where `serde_json`
/// refuses it (not one well-formed value, surrounding whitespace aside, or
/// nested too deeply).
pub uninterp spec fn json_parse(text: Seq<u8>) -> Option<Json>;

/// Relies on `serde_json::from_slice::<serde_json::Value>`: parsing depends on
/// the bytes alone.
#[verifier::external_body]
pub(crate) fn parse_json(text: &[u8]) -> (r: Option<Json>)
    ensures
        r == json_parse(text@),
{
    serde_json::from_slice::<serde_json::Value>(text).ok().map(json_from_value)
}

/// `serde_json::Value`, carried only from the parser into the model.
#[verifier::external_type_specification]
#[verifier::external_body]
pub struct ExValue(serde_json::Value);

/// Moves a parsed `serde_json::Value` into the model, node for node.
#[verifier::external_body]
fn json_from_value(v: serde_json::Value) -> Json {
    match v {
        serde_json::Value::Null => Json::Null,
        serde_json::Value::Bool(b) => Json::Bool(b),
        serde_json::Value::Number(n) => match (n.as_i64(), n.as_u64()) {
            (Some(i), _) => Json::Int(i as i128),
            (None, Some(u)) => Json::Int(u as i128),
            (None, None) => Json::Decimal(n.to_string()),
        },
        serde_json::Value::String(s) => Json::Str(s),
        serde_json::Value::Array(a) => Json::Array(Box::new(json_list_from(a))),
        serde_json::Value::Object(m) => Json::Object(Box::new(json_members_from(m.into_iter().collect()))),
    }
}

/// Moves parsed array elements into the model, in order.
#[verifier::external_body]
fn json_list_from(a: Vec<serde_json::Value>) -> JsonList {
    a.into_iter().rev().fold(JsonList::Nil, |rest, v| JsonList::Cons(json_from_value(v), Box::new(rest)))
}

/// Moves parsed object members into the model, in order.
#[verifier::external_body]
fn json_members_from(m: Vec<(String, serde_json::Value)>) -> JsonMembers {
    m.into_iter().rev().fold(
        JsonMembers::Nil,
        |rest, (k, v)| JsonMembers::Cons(k, json_from_value(v), Box::new(rest)),
    )
}

impl Json {
    /// The value that a JSON text denotes, or `None` where it is refused.
    pub fn parse(text: &[u8]) -> (r: Option<Json>)
        ensures
            r == json_parse(text@),
    {
        parse_json(text)
    }

    /// A copy of the value.
    pub fn deep_clone(&self) -> (r: Json)
        ensures
            r == *self,
        decreases self,
    {
        match self {
            Json::Null => Json::Null,
            Json::Bool(b) => Json::Bool(*b),
            Json::Int(i) => Json::Int(*i),
            Json::Decimal(s) => Json::Decimal(s.clone()),
            Json::Str(s) => Json::Str(s.clone()),
            Json::Array(items) => Json::Array(Box::new(items.deep_clone())),
            Json::Object(members) => Json::Object(Box::new(members.deep_clone())),
        }
    }

    /// The members of an object value; `None` for any other value.
    pub open spec fn members(self) -> Option<JsonMembers> {
        match self {
            Json::Object(m) => Some(*m),
            _ => None,
        }
    }
}

impl JsonList {
    /// A copy of the list.
    pub fn deep_clone(&self) -> (r: JsonList)
        ensures
            r == *self,
        decreases self,
    {
        match self {
            JsonList::Nil => JsonList::Nil,
            JsonList::Cons(head, tail) => JsonList::Cons(head.deep_clone(), Box::new(tail.deep_clone())),
        }
    }

    /// The elements as a sequence.
    pub open spec fn elems(self) -> Seq<Json>
        decreases self,
    {
        match self {
            JsonList::Nil => Seq::empty(),
            JsonList::Cons(head, tail) => seq![head] + tail.elems(),
        }
    }
}

impl JsonMembers {
    /// A copy of the members.
    pub fn deep_clone(&self) -> (r: JsonMembers)
        ensures
            r == *self,
        decreases self,
    {
        match self {
            JsonMembers::Nil => JsonMembers::Nil,
            JsonMembers::Cons(k, v, tail) => JsonMembers::Cons(k.clone(), v.deep_clone(), Box::new(tail.deep_clone())),
        }
    }

    /// The value bound to `key`: that of the first member of that name.
    pub open spec fn field(self, key: Seq<char>) -> Option<Json>
        decreases self,
    {
        match self {
            JsonMembers::Nil => None,
            JsonMembers::Cons(k, v, tail) => if k@ == key {
                Some(v)
            } else {
                tail.field(key)
            },
        }
    }

    /// The value bound to `key`, as `field` describes it.
    pub fn get(&self, key: &str) -> (r: Option<&Json>)
        ensures
            match r {
                Some(v) => self.field(key@) == Some(*v),
                None => self.field(key@) is None,
            },
    {
        let k = key.to_owned();
        let mut cur = self;
        loop
            invariant
                k@ == key@,
                self.field(key@) == cur.field(key@),
            decreases cur,
        {
            match cur {
                JsonMembers::Nil => return None,
                JsonMembers::Cons(name, v, tail) => {
                    if *name == k {
                        return Some(v);
                    }
                    cur = tail;
                },
            }
        }
    }
}

/// A field that may be absent or null, else must be a string.
pub open spec fn opt_str(j: Option<Json>) -> Option<Option<String>> {
    match j {
        None => Some(None),
        Some(Json::Null) => Some(None),
        Some(Json::Str(s)) => Some(Some(s)),
        _ => None,
    }
}

/// A field that must be a string.
pub open spec fn req_str(j: Option<Json>) -> Option<String> {
    match j {
        Some(Json::Str(s)) => Some(s),
        _ => None,
    }
}

/// A field that must be an integer within `lo..=hi`.
pub open spec fn req_int(j: Option<Json>, lo: int, hi: int) -> Option<i128> {
    match j {
        Some(Json::Int(i)) => if lo <= i <= hi {
            Some(i)
        } else {
            None
        },
        _ => None,
    }
}

/// A field that may be absent or null, else must be an integer within `lo..=hi`.
pub open spec fn opt_int(j: Option<Json>, lo: int, hi: int) -> Option<Option<i128>> {
    match j {
        None => Some(None),
        Some(Json::Null) => Some(None),
        _ => match req_int(j, lo, hi) {
            Some(i) => Some(Some(i)),
            None => None,
        },
    }
}

/// A field that may be absent or null; any other value is kept.
pub open spec fn opt_any(j: Option<Json>) -> Option<Json> {
    match j {
        Some(Json::Null) => None,
        _ => j,
    }
}

impl JsonMembers {
    /// The field `key` read as `opt_str` reads it.
    pub fn get_opt_str(&self, key: &str) -> (r: Option<Option<String>>)
        ensures
            r == opt_str(self.field(key@)),
    {
        match self.get(key) {
            None => Some(None),
            Some(Json::Null) => Some(None),
            Some(Json::Str(s)) => Some(Some(s.clone())),
            _ => None,
        }
    }

    /// The field `key` read as `req_str` reads it.
    pub fn get_req_str(&self, key: &str) -> (r: Option<String>)
        ensures
            r == req_str(self.field(key@)),
    {
        match self.get(key) {
            Some(Json::Str(s)) => Some(s.clone()),
            _ => None,
        }
    }

    /// The field `key` read as `req_int` reads it.
    pub fn get_req_int(&self, key: &str, lo: i128, hi: i128) -> (r: Option<i128>)
        ensures
            r == req_int(self.field(key@), lo as int, hi as int),
    {
        match self.get(key) {
            Some(Json::Int(i)) => if lo <= *i && *i <= hi {
                Some(*i)
            } else {
                None
            },
            _ => None,
        }
    }

    /// The field `key` read as `opt_int` reads it.
    pub fn get_opt_int(&self, key: &str, lo: i128, hi: i128) -> (r: Option<Option<i128>>)
        ensures
            r == opt_int(self.field(key@), lo as int, hi as int),
    {
        match self.get(key) {
            None => Some(None),
            Some(Json::Null) => Some(None),
            Some(Json::Int(i)) => if lo <= *i && *i <= hi {
                Some(Some(*i))
            } else {
                None
            },
            _ => None,
        }
    }

    /// The field `key` read as `opt_any` reads it.
    pub fn get_opt_any(&self, key: &str) -> (r: Option<Json>)
        ensures
            r == opt_any(self.field(key@)),
    {
        match self.get(key) {
            None => None,
            Some(Json::Null) => None,
            Some(v) => Some(v.deep_clone()),
        }
    }
}

/// The views of a sequence of members.
pub open spec fn pair_views(v: Seq<(String, Json)>) -> Seq<(Seq<char>, JsonView)> {
    v.map_values(|p: (String, Json)| (p.0@, p.1@))
}

/// The views of a sequence of values.
pub open spec fn json_views(v: Seq<Json>) -> Seq<JsonView> {
    v.map_values(|j: Json| j@)
}

/// An object with the members of `v`, in order.
pub fn object_from(v: Vec<(String, Json)>) -> (r: Json)
    ensures
        r@ == JsonView::Object(pair_views(v@)),
{
    let mut v = v;
    let ghost all = v@;
    let mut acc = JsonMembers::Nil;
    while v.len() > 0
        invariant
            all == v@ + all.subrange(v@.len() as int, all.len() as int),
            acc.member_views() == pair_views(all.subrange(v@.len() as int, all.len() as int)),
        decreases v@.len(),
    {
        let ghost n = v@.len();
        let (k, x) = v.pop().unwrap();
        proof {
            let tail = all.subrange(n as int, all.len() as int);
            assert(all.subrange(n - 1, all.len() as int) == seq![(k, x)] + tail);
            assert(pair_views(seq![(k, x)] + tail) =~= seq![(k@, x@)] + pair_views(tail));
            assert(all == v@ + all.subrange(v@.len() as int, all.len() as int));
        }
        acc = JsonMembers::Cons(k, x, Box::new(acc));
    }
    assert(all.subrange(0, all.len() as int) == all);
    Json::Object(Box::new(acc))
}

/// An array with the elements of `v`, in order.
pub fn array_from(v: Vec<Json>) -> (r: Json)
    ensures
        r@ == JsonView::Array(json_views(v@)),
{
    let mut v = v;
    let ghost all = v@;
    let mut acc = JsonList::Nil;
    while v.len() > 0
        invariant
            all == v@ + all.subrange(v@.len() as int, all.len() as int),
            acc.item_views() == json_views(all.subrange(v@.len() as int, all.len() as int)),
        decreases v@.len(),
    {
        let ghost n = v@.len();
        let x = v.pop().unwrap();
        proof {
            let tail = all.subrange(n as int, all.len() as int);
            assert(all.subrange(n - 1, all.len() as int) == seq![x] + tail);
            assert(json_views(seq![x] + tail) =~= seq![x@] + json_views(tail));
            assert(all == v@ + all.subrange(v@.len() as int, all.len() as int));
        }
        acc = JsonList::Cons(x, Box::new(acc));
    }
    assert(all.subrange(0, all.len() as int) == all);
    Json::Array(Box::new(acc))
}

/// Appends the member `key: value`.
pub fn push_member(out: &mut Vec<(String, Json)>, key: &str, value: Json)
    ensures
        pair_views(final(out)@) == pair_views(old(out)@).push((key@, value@)),
{
    let k = key.to_owned();
    let ghost p = (k, value);
    out.push((k, value));
    assert(pair_views(out@) =~= pair_views(old(out)@).push((key@, p.1@)));
}

/// Appends the element `value`.
pub fn push_item(out: &mut Vec<Json>, value: Json)
    ensures
        json_views(final(out)@) == json_views(old(out)@).push(value@),
{
    let ghost v = value;
    out.push(value);
    assert(json_views(out@) =~= json_views(old(out)@).push(v@));
}

/// A JSON string with the characters of `s`.
pub fn json_str(s: &str) -> (r: Json)
    ensures
        r@ == JsonView::Str(s@),
{
    Json::Str(s.to_owned())
}

} // verus!
