//! Request shaping: the configuration surface and the bodies sent to each
//! service. Options left unset are left out of a body.
use vstd::prelude::*;
use vstd::string::StringExecFns;
use crate::client::GeminiClient;
use crate::gemini::{GeminiContent, GeminiPart, GeminiSafetySetting};
use crate::json::{Json, JsonList, JsonMembers, JsonView, array_from, json_str, json_views, object_from, pair_views, push_item, push_member};

verus! {

/// The options of a client. Fractional sampling parameters are held as the
/// text of the JSON number that is sent.
#[derive(Debug)]
pub struct LLMConfig {
    pub api_key: String,
    pub model: String,
    pub temperature: Option<String>,
    pub max_tokens: Option<i32>,
    pub streaming: bool,
    pub system_prompt: Option<String>,
    pub tools: Option<Json>,
    pub stop_sequences: Option<Vec<String>>,
    pub top_p: Option<String>,
    pub top_k: Option<i32>,
}

/// The member `key: v` where `v` is set; nothing otherwise.
pub open spec fn opt_entry(key: Seq<char>, v: Option<JsonView>) -> Seq<(Seq<char>, JsonView)> {
    match v {
        Some(x) => seq![(key, x)],
        None => Seq::empty(),
    }
}

/// An integer option as JSON.
pub open spec fn int_view(v: Option<i32>) -> Option<JsonView> {
    match v {
        Some(i) => Some(JsonView::Int(i as int)),
        None => None,
    }
}

/// A fractional option as JSON.
pub open spec fn decimal_view(v: Option<String>) -> Option<JsonView> {
    match v {
        Some(t) => Some(JsonView::Decimal(t@)),
        None => None,
    }
}

/// A list of strings as a JSON array.
pub open spec fn strs_view(v: Seq<String>) -> JsonView {
    JsonView::Array(v.map_values(|s: String| JsonView::Str(s@)))
}

/// A string-list option as JSON.
pub open spec fn strs_opt_view(v: Option<Vec<String>>) -> Option<JsonView> {
    match v {
        Some(l) => Some(strs_view(l@)),
        None => None,
    }
}

/// A JSON option as JSON.
pub open spec fn json_opt_view(v: Option<Json>) -> Option<JsonView> {
    match v {
        Some(j) => Some(j@),
        None => None,
    }
}

/// The one user message of a request, as the event-stream service takes it.
pub open spec fn user_messages_view(content: Seq<char>) -> JsonView {
    JsonView::Array(seq![JsonView::Object(seq![("role"@, JsonView::Str("user"@)), ("content"@, JsonView::Str(content))])])
}

/// The system prompt block, marked for caching.
pub open spec fn system_view(v: Option<String>) -> Option<JsonView> {
    match v {
        Some(s) => Some(JsonView::Array(seq![JsonView::Object(seq![
            ("type"@, JsonView::Str("text"@)),
            ("text"@, JsonView::Str(s@)),
            ("cache_control"@, JsonView::Object(seq![("type"@, JsonView::Str("ephemeral"@))])),
        ])])),
        None => None,
    }
}

/// The body of a request to the event-stream service.
pub open spec fn anthropic_body_view(c: LLMConfig, content: Seq<char>, metadata: Option<Json>, stream: bool) -> JsonView {
    JsonView::Object(
        seq![("model"@, JsonView::Str(c.model@)), ("messages"@, user_messages_view(content))]
            + opt_entry("max_tokens"@, int_view(c.max_tokens))
            + opt_entry("temperature"@, decimal_view(c.temperature))
            + opt_entry("system"@, system_view(c.system_prompt))
            + opt_entry("tools"@, json_opt_view(c.tools))
            + opt_entry("stop_sequences"@, strs_opt_view(c.stop_sequences))
            + opt_entry("top_p"@, decimal_view(c.top_p))
            + opt_entry("top_k"@, int_view(c.top_k))
            + opt_entry("metadata"@, json_opt_view(metadata))
            + opt_entry("stream"@, if stream { Some(JsonView::Bool(true)) } else { None }),
    )
}

/// Copies a list of strings into a JSON array.
pub fn strs_json(v: &Vec<String>) -> (r: Json)
    ensures
        r@ == strs_view(v@),
{
    let mut out: Vec<Json> = Vec::new();
    let mut i: usize = 0;
    while i < v.len()
        invariant
            i <= v@.len(),
            json_views(out@) == v@.subrange(0, i as int).map_values(|s: String| JsonView::Str(s@)),
        decreases v@.len() - i,
    {
        push_item(&mut out, json_str(v[i].as_str()));
        assert(v@.subrange(0, i + 1).map_values(|s: String| JsonView::Str(s@))
            =~= v@.subrange(0, i as int).map_values(|s: String| JsonView::Str(s@)).push(JsonView::Str(v@[i as int]@)));
        i = i + 1;
    }
    assert(v@.subrange(0, v@.len() as int) == v@);
    crate::json::array_from(out)
}

fn push_opt(out: &mut Vec<(String, Json)>, key: &str, v: Option<Json>)
    ensures
        pair_views(final(out)@) == pair_views(old(out)@) + opt_entry(key@, json_opt_view(v)),
{
    match v {
        Some(x) => {
            push_member(out, key, x);
            assert(pair_views(out@) =~= pair_views(old(out)@) + opt_entry(key@, json_opt_view(v)));
        },
        None => {
            assert(pair_views(out@) =~= pair_views(old(out)@) + opt_entry(key@, json_opt_view(v)));
        },
    }
}

fn int_json(v: Option<i32>) -> (r: Option<Json>)
    ensures
        json_opt_view(r) == int_view(v),
{
    match v {
        Some(i) => Some(Json::Int(i as i128)),
        None => None,
    }
}

fn decimal_json(v: &Option<String>) -> (r: Option<Json>)
    ensures
        json_opt_view(r) == decimal_view(*v),
{
    match v {
        Some(t) => Some(Json::Decimal(t.clone())),
        None => None,
    }
}

fn json_copy(v: &Option<Json>) -> (r: Option<Json>)
    ensures
        json_opt_view(r) == json_opt_view(*v),
{
    match v {
        Some(j) => Some(j.deep_clone()),
        None => None,
    }
}

fn user_messages(content: &str) -> (r: Json)
    ensures
        r@ == user_messages_view(content@),
{
    let mut m: Vec<(String, Json)> = Vec::new();
    push_member(&mut m, "role", json_str("user"));
    push_member(&mut m, "content", json_str(content));
    assert(pair_views(m@) =~= seq![("role"@, JsonView::Str("user"@)), ("content"@, JsonView::Str(content@))]);
    let msg = object_from(m);
    let mut items: Vec<Json> = Vec::new();
    push_item(&mut items, msg);
    assert(json_views(items@) =~= seq![msg@]);
    crate::json::array_from(items)
}

fn system_json(v: &Option<String>) -> (r: Option<Json>)
    ensures
        json_opt_view(r) == system_view(*v),
{
    match v {
        Some(s) => {
            let mut cc: Vec<(String, Json)> = Vec::new();
            push_member(&mut cc, "type", json_str("ephemeral"));
            assert(pair_views(cc@) =~= seq![("type"@, JsonView::Str("ephemeral"@))]);
            let cache = object_from(cc);
            let mut b: Vec<(String, Json)> = Vec::new();
            push_member(&mut b, "type", json_str("text"));
            push_member(&mut b, "text", json_str(s.as_str()));
            push_member(&mut b, "cache_control", cache);
            assert(pair_views(b@) =~= seq![
                ("type"@, JsonView::Str("text"@)),
                ("text"@, JsonView::Str(s@)),
                ("cache_control"@, JsonView::Object(seq![("type"@, JsonView::Str("ephemeral"@))])),
            ]);
            let block = object_from(b);
            let mut items: Vec<Json> = Vec::new();
            push_item(&mut items, block);
            assert(json_views(items@) =~= seq![block@]);
            Some(crate::json::array_from(items))
        },
        None => None,
    }
}

/// The body of a request to the event-stream service.
pub fn anthropic_body(c: &LLMConfig, content: &str, metadata: &Option<Json>, stream: bool) -> (r: Json)
    ensures
        r@ == anthropic_body_view(*c, content@, *metadata, stream),
{
    let mut m: Vec<(String, Json)> = Vec::new();
    push_member(&mut m, "model", json_str(c.model.as_str()));
    push_member(&mut m, "messages", user_messages(content));
    let ghost base = pair_views(m@);
    assert(base =~= seq![("model"@, JsonView::Str(c.model@)), ("messages"@, user_messages_view(content@))]);
    push_opt(&mut m, "max_tokens", int_json(c.max_tokens));
    push_opt(&mut m, "temperature", decimal_json(&c.temperature));
    push_opt(&mut m, "system", system_json(&c.system_prompt));
    push_opt(&mut m, "tools", json_copy(&c.tools));
    let stops = match &c.stop_sequences {
        Some(v) => Some(strs_json(v)),
        None => None,
    };
    assert(json_opt_view(stops) == strs_opt_view(c.stop_sequences));
    push_opt(&mut m, "stop_sequences", stops);
    push_opt(&mut m, "top_p", decimal_json(&c.top_p));
    push_opt(&mut m, "top_k", int_json(c.top_k));
    push_opt(&mut m, "metadata", json_copy(metadata));
    let flag = if stream { Some(Json::Bool(true)) } else { None };
    push_opt(&mut m, "stream", flag);
    object_from(m)
}

/// A function that the model may call.
#[derive(Debug)]
pub struct GeminiFunctionDeclaration {
    pub name: String,
    pub description: String,
    pub parameters: Json,
}

/// A group of function declarations.
#[derive(Debug)]
pub struct GeminiTool {
    pub function_declarations: Vec<GeminiFunctionDeclaration>,
}

/// A declaration as JSON.
pub open spec fn decl_view(d: GeminiFunctionDeclaration) -> JsonView {
    JsonView::Object(seq![
        ("name"@, JsonView::Str(d.name@)),
        ("description"@, JsonView::Str(d.description@)),
        ("parameters"@, d.parameters@),
    ])
}

/// A tool as JSON.
pub open spec fn tool_view(t: GeminiTool) -> JsonView {
    JsonView::Object(seq![("function_declarations"@, JsonView::Array(t.function_declarations@.map_values(|d| decl_view(d))))])
}

/// A safety setting as JSON.
pub open spec fn setting_view(s: GeminiSafetySetting) -> JsonView {
    JsonView::Object(seq![("category"@, JsonView::Str(s.category@)), ("threshold"@, JsonView::Str(s.threshold@))])
}

/// The safety settings option as JSON.
pub open spec fn settings_opt_view(v: Option<Vec<GeminiSafetySetting>>) -> Option<JsonView> {
    match v {
        Some(l) => Some(JsonView::Array(l@.map_values(|s| setting_view(s)))),
        None => None,
    }
}

/// The sampling options, as the object-stream service takes them.
pub open spec fn generation_config_view(c: LLMConfig) -> JsonView {
    JsonView::Object(
        opt_entry("temperature"@, decimal_view(c.temperature))
            + opt_entry("top_p"@, decimal_view(c.top_p))
            + opt_entry("top_k"@, int_view(c.top_k))
            + opt_entry("max_output_tokens"@, int_view(c.max_tokens))
            + opt_entry("stop_sequences"@, strs_opt_view(c.stop_sequences)),
    )
}

/// The one user turn of a request to the object-stream service.
pub open spec fn contents_view(content: Seq<char>) -> JsonView {
    JsonView::Array(seq![JsonView::Object(seq![
        ("parts"@, JsonView::Array(seq![JsonView::Object(seq![("text"@, JsonView::Str(content))])])),
        ("role"@, JsonView::Str("user"@)),
    ])])
}

/// The body of a request to the object-stream service.
pub open spec fn gemini_body_view(
    c: LLMConfig,
    content: Seq<char>,
    tools: Seq<GeminiTool>,
    safety: Option<Vec<GeminiSafetySetting>>,
) -> JsonView {
    JsonView::Object(
        seq![("contents"@, contents_view(content)), ("tools"@, JsonView::Array(tools.map_values(|t| tool_view(t))))]
            + opt_entry("safety_settings"@, settings_opt_view(safety))
            + seq![("generation_config"@, generation_config_view(c))],
    )
}

/// The address of the object-stream service's models.
pub open spec fn gemini_base() -> Seq<char> {
    "https://generativelanguage.googleapis.com/v1beta/models"@
}

/// The address a request to the object-stream service goes to: the
/// streaming method where the configuration asks for streaming.
pub open spec fn gemini_url_view(c: LLMConfig) -> Seq<char> {
    gemini_base() + "/"@ + c.model@ + (if c.streaming {
        ":streamGenerateContent?key="@
    } else {
        ":generateContent?key="@
    }) + c.api_key@
}

impl GeminiFunctionDeclaration {
    /// A copy of the declaration.
    pub fn copy(&self) -> (r: GeminiFunctionDeclaration)
        ensures
            r == *self,
    {
        GeminiFunctionDeclaration {
            name: self.name.clone(),
            description: self.description.clone(),
            parameters: self.parameters.deep_clone(),
        }
    }

    /// The declaration as JSON.
    pub fn to_json(&self) -> (r: Json)
        ensures
            r@ == decl_view(*self),
    {
        let mut m: Vec<(String, Json)> = Vec::new();
        push_member(&mut m, "name", json_str(self.name.as_str()));
        push_member(&mut m, "description", json_str(self.description.as_str()));
        push_member(&mut m, "parameters", self.parameters.deep_clone());
        assert(pair_views(m@) =~= seq![
            ("name"@, JsonView::Str(self.name@)),
            ("description"@, JsonView::Str(self.description@)),
            ("parameters"@, self.parameters@),
        ]);
        object_from(m)
    }
}

impl GeminiTool {
    /// The tool as JSON.
    pub fn to_json(&self) -> (r: Json)
        ensures
            r@ == tool_view(*self),
    {
        let ds = &self.function_declarations;
        let mut items: Vec<Json> = Vec::new();
        let mut i: usize = 0;
        while i < ds.len()
            invariant
                i <= ds@.len(),
                json_views(items@) == ds@.subrange(0, i as int).map_values(|d| decl_view(d)),
            decreases ds@.len() - i,
        {
            push_item(&mut items, ds[i].to_json());
            assert(ds@.subrange(0, i + 1).map_values(|d| decl_view(d))
                =~= ds@.subrange(0, i as int).map_values(|d| decl_view(d)).push(decl_view(ds@[i as int])));
            i = i + 1;
        }
        assert(ds@.subrange(0, ds@.len() as int) == ds@);
        let arr = array_from(items);
        let mut m: Vec<(String, Json)> = Vec::new();
        push_member(&mut m, "function_declarations", arr);
        assert(pair_views(m@) =~= seq![("function_declarations"@, arr@)]);
        object_from(m)
    }
}

impl GeminiSafetySetting {
    /// The setting as JSON.
    pub fn to_json(&self) -> (r: Json)
        ensures
            r@ == setting_view(*self),
    {
        let mut m: Vec<(String, Json)> = Vec::new();
        push_member(&mut m, "category", json_str(self.category.as_str()));
        push_member(&mut m, "threshold", json_str(self.threshold.as_str()));
        assert(pair_views(m@) =~= seq![("category"@, JsonView::Str(self.category@)), ("threshold"@, JsonView::Str(self.threshold@))]);
        object_from(m)
    }

    /// A copy of the setting.
    pub fn copy(&self) -> (r: GeminiSafetySetting)
        ensures
            r == *self,
    {
        GeminiSafetySetting { category: self.category.clone(), threshold: self.threshold.clone() }
    }
}

fn tools_json(tools: &Vec<GeminiTool>) -> (r: Json)
    ensures
        r@ == JsonView::Array(tools@.map_values(|t| tool_view(t))),
{
    let mut items: Vec<Json> = Vec::new();
    let mut i: usize = 0;
    while i < tools.len()
        invariant
            i <= tools@.len(),
            json_views(items@) == tools@.subrange(0, i as int).map_values(|t| tool_view(t)),
        decreases tools@.len() - i,
    {
        push_item(&mut items, tools[i].to_json());
        assert(tools@.subrange(0, i + 1).map_values(|t| tool_view(t))
            =~= tools@.subrange(0, i as int).map_values(|t| tool_view(t)).push(tool_view(tools@[i as int])));
        i = i + 1;
    }
    assert(tools@.subrange(0, tools@.len() as int) == tools@);
    array_from(items)
}

fn settings_json(v: &Option<Vec<GeminiSafetySetting>>) -> (r: Option<Json>)
    ensures
        json_opt_view(r) == settings_opt_view(*v),
{
    match v {
        None => None,
        Some(l) => {
            let mut items: Vec<Json> = Vec::new();
            let mut i: usize = 0;
            while i < l.len()
                invariant
                    i <= l@.len(),
                    json_views(items@) == l@.subrange(0, i as int).map_values(|s| setting_view(s)),
                decreases l@.len() - i,
            {
                push_item(&mut items, l[i].to_json());
                assert(l@.subrange(0, i + 1).map_values(|s| setting_view(s))
                    =~= l@.subrange(0, i as int).map_values(|s| setting_view(s)).push(setting_view(l@[i as int])));
                i = i + 1;
            }
            assert(l@.subrange(0, l@.len() as int) == l@);
            Some(array_from(items))
        },
    }
}

/// The sampling options of a request to the object-stream service.
#[derive(Debug)]
pub struct GeminiGenerationConfig {
    pub temperature: Option<String>,
    pub top_p: Option<String>,
    pub top_k: Option<i32>,
    pub max_output_tokens: Option<i32>,
    pub stop_sequences: Option<Vec<String>>,
}

/// A request to the object-stream service.
#[derive(Debug)]
pub struct GeminiRequest {
    pub contents: Vec<GeminiContent>,
    pub tools: Vec<GeminiTool>,
    pub safety_settings: Option<Vec<GeminiSafetySetting>>,
    pub generation_config: Option<GeminiGenerationConfig>,
}

/// A part as JSON.
pub open spec fn part_json_view(p: GeminiPart) -> JsonView {
    match p {
        GeminiPart::Text { text } => JsonView::Object(seq![("text"@, JsonView::Str(text@))]),
        GeminiPart::FunctionCall { function_call } => JsonView::Object(seq![(
            "function_call"@,
            JsonView::Object(seq![("name"@, JsonView::Str(function_call.name@)), ("args"@, function_call.args@)]),
        )]),
        GeminiPart::FunctionResponse { function_response } => JsonView::Object(seq![(
            "function_response"@,
            JsonView::Object(seq![
                ("name"@, JsonView::Str(function_response.name@)),
                ("response"@, function_response.response@),
            ]),
        )]),
    }
}

/// A content as JSON; an unset role is left out.
pub open spec fn content_json_view(c: GeminiContent) -> JsonView {
    JsonView::Object(
        seq![("parts"@, JsonView::Array(c.parts@.map_values(|p| part_json_view(p))))]
            + opt_entry("role"@, match c.role {
                Some(r) => Some(JsonView::Str(r@)),
                None => None,
            }),
    )
}

/// Sampling options as JSON; unset options are left out.
pub open spec fn generation_json_view(g: GeminiGenerationConfig) -> JsonView {
    JsonView::Object(
        opt_entry("temperature"@, decimal_view(g.temperature))
            + opt_entry("top_p"@, decimal_view(g.top_p))
            + opt_entry("top_k"@, int_view(g.top_k))
            + opt_entry("max_output_tokens"@, int_view(g.max_output_tokens))
            + opt_entry("stop_sequences"@, strs_opt_view(g.stop_sequences)),
    )
}

/// A request as JSON; unset options are left out.
pub open spec fn request_json_view(r: GeminiRequest) -> JsonView {
    JsonView::Object(
        seq![
            ("contents"@, JsonView::Array(r.contents@.map_values(|c| content_json_view(c)))),
            ("tools"@, JsonView::Array(r.tools@.map_values(|t| tool_view(t)))),
        ]
            + opt_entry("safety_settings"@, settings_opt_view(r.safety_settings))
            + opt_entry("generation_config"@, match r.generation_config {
                Some(g) => Some(generation_json_view(g)),
                None => None,
            }),
    )
}

fn named_json(name: &String, key: &str, value: &Json) -> (r: Json)
    ensures
        r@ == JsonView::Object(seq![("name"@, JsonView::Str(name@)), (key@, value@)]),
{
    let mut m: Vec<(String, Json)> = Vec::new();
    push_member(&mut m, "name", json_str(name.as_str()));
    push_member(&mut m, key, value.deep_clone());
    assert(pair_views(m@) =~= seq![("name"@, JsonView::Str(name@)), (key@, value@)]);
    object_from(m)
}

fn single_member(key: &str, value: Json) -> (r: Json)
    ensures
        r@ == JsonView::Object(seq![(key@, value@)]),
{
    let mut m: Vec<(String, Json)> = Vec::new();
    push_member(&mut m, key, value);
    assert(pair_views(m@) =~= seq![(key@, value@)]);
    object_from(m)
}

/// A part as JSON.
pub fn part_json(p: &GeminiPart) -> (r: Json)
    ensures
        r@ == part_json_view(*p),
{
    match p {
        GeminiPart::Text { text } => single_member("text", json_str(text.as_str())),
        GeminiPart::FunctionCall { function_call } => single_member(
            "function_call",
            named_json(&function_call.name, "args", &function_call.args),
        ),
        GeminiPart::FunctionResponse { function_response } => single_member(
            "function_response",
            named_json(&function_response.name, "response", &function_response.response),
        ),
    }
}

impl GeminiContent {
    /// The content as JSON.
    pub fn to_json(&self) -> (r: Json)
        ensures
            r@ == content_json_view(*self),
    {
        let ps = &self.parts;
        let mut items: Vec<Json> = Vec::new();
        let mut i: usize = 0;
        while i < ps.len()
            invariant
                i <= ps@.len(),
                json_views(items@) == ps@.subrange(0, i as int).map_values(|p| part_json_view(p)),
            decreases ps@.len() - i,
        {
            push_item(&mut items, part_json(&ps[i]));
            assert(ps@.subrange(0, i + 1).map_values(|p| part_json_view(p))
                =~= ps@.subrange(0, i as int).map_values(|p| part_json_view(p)).push(part_json_view(ps@[i as int])));
            i = i + 1;
        }
        assert(ps@.subrange(0, ps@.len() as int) == ps@);
        let parts = array_from(items);
        let mut m: Vec<(String, Json)> = Vec::new();
        push_member(&mut m, "parts", parts);
        let role = match &self.role {
            Some(r) => Some(json_str(r.as_str())),
            None => None,
        };
        push_opt(&mut m, "role", role);
        assert(pair_views(m@) =~= seq![("parts"@, parts@)] + opt_entry("role"@, json_opt_view(role)));
        object_from(m)
    }
}

impl GeminiGenerationConfig {
    /// The sampling options of a configuration.
    pub fn from_config(c: &LLMConfig) -> (r: GeminiGenerationConfig)
        ensures
            r.temperature == c.temperature,
            r.top_p == c.top_p,
            r.top_k == c.top_k,
            r.max_output_tokens == c.max_tokens,
            strs_opt_view(r.stop_sequences) == strs_opt_view(c.stop_sequences),
    {
        let stop_sequences = match &c.stop_sequences {
            Some(v) => {
                let mut out: Vec<String> = Vec::new();
                let mut i: usize = 0;
                while i < v.len()
                    invariant
                        i <= v@.len(),
                        out@ == v@.subrange(0, i as int),
                    decreases v@.len() - i,
                {
                    out.push(v[i].clone());
                    i = i + 1;
                }
                assert(v@.subrange(0, v@.len() as int) == v@);
                Some(out)
            },
            None => None,
        };
        GeminiGenerationConfig {
            temperature: c.temperature.clone(),
            top_p: c.top_p.clone(),
            top_k: c.top_k,
            max_output_tokens: c.max_tokens,
            stop_sequences,
        }
    }

    /// The options as JSON.
    pub fn to_json(&self) -> (r: Json)
        ensures
            r@ == generation_json_view(*self),
    {
        let mut m: Vec<(String, Json)> = Vec::new();
        assert(pair_views(m@) == Seq::<(Seq<char>, JsonView)>::empty());
        push_opt(&mut m, "temperature", decimal_json(&self.temperature));
        assert(pair_views(m@) == opt_entry("temperature"@, decimal_view(self.temperature)));
        push_opt(&mut m, "top_p", decimal_json(&self.top_p));
        push_opt(&mut m, "top_k", int_json(self.top_k));
        push_opt(&mut m, "max_output_tokens", int_json(self.max_output_tokens));
        let stops = match &self.stop_sequences {
            Some(v) => Some(strs_json(v)),
            None => None,
        };
        push_opt(&mut m, "stop_sequences", stops);
        object_from(m)
    }
}

impl GeminiRequest {
    /// The request as JSON.
    pub fn to_json(&self) -> (r: Json)
        ensures
            r@ == request_json_view(*self),
    {
        let cs = &self.contents;
        let mut items: Vec<Json> = Vec::new();
        let mut i: usize = 0;
        while i < cs.len()
            invariant
                i <= cs@.len(),
                json_views(items@) == cs@.subrange(0, i as int).map_values(|c| content_json_view(c)),
            decreases cs@.len() - i,
        {
            push_item(&mut items, cs[i].to_json());
            assert(cs@.subrange(0, i + 1).map_values(|c| content_json_view(c))
                =~= cs@.subrange(0, i as int).map_values(|c| content_json_view(c)).push(content_json_view(cs@[i as int])));
            i = i + 1;
        }
        assert(cs@.subrange(0, cs@.len() as int) == cs@);
        let contents = array_from(items);
        let tj = tools_json(&self.tools);
        let mut m: Vec<(String, Json)> = Vec::new();
        push_member(&mut m, "contents", contents);
        push_member(&mut m, "tools", tj);
        let ghost base = pair_views(m@);
        assert(base =~= seq![("contents"@, contents@), ("tools"@, tj@)]);
        push_opt(&mut m, "safety_settings", settings_json(&self.safety_settings));
        let gc = match &self.generation_config {
            Some(g) => Some(g.to_json()),
            None => None,
        };
        push_opt(&mut m, "generation_config", gc);
        object_from(m)
    }
}

impl GeminiTool {
    /// A copy of the tool.
    pub fn copy(&self) -> (r: GeminiTool)
        ensures
            r.function_declarations@ == self.function_declarations@,
    {
        let ds = &self.function_declarations;
        let mut out: Vec<GeminiFunctionDeclaration> = Vec::new();
        let mut i: usize = 0;
        while i < ds.len()
            invariant
                i <= ds@.len(),
                out@ == ds@.subrange(0, i as int),
            decreases ds@.len() - i,
        {
            out.push(ds[i].copy());
            i = i + 1;
        }
        assert(ds@.subrange(0, ds@.len() as int) == ds@);
        GeminiTool { function_declarations: out }
    }
}

fn copy_tools(tools: &Vec<GeminiTool>) -> (r: Vec<GeminiTool>)
    ensures
        r@.map_values(|t| tool_view(t)) == tools@.map_values(|t| tool_view(t)),
{
    let mut out: Vec<GeminiTool> = Vec::new();
    let mut i: usize = 0;
    while i < tools.len()
        invariant
            i <= tools@.len(),
            out@.map_values(|t| tool_view(t)) == tools@.subrange(0, i as int).map_values(|t| tool_view(t)),
        decreases tools@.len() - i,
    {
        let t = tools[i].copy();
        let ghost before = out@;
        out.push(t);
        assert(out@.map_values(|t| tool_view(t)) =~= before.map_values(|t| tool_view(t)).push(tool_view(t)));
        assert(tools@.subrange(0, i + 1).map_values(|t| tool_view(t))
            =~= tools@.subrange(0, i as int).map_values(|t| tool_view(t)).push(tool_view(tools@[i as int])));
        i = i + 1;
    }
    assert(tools@.subrange(0, tools@.len() as int) == tools@);
    out
}

fn copy_settings(v: &Option<Vec<GeminiSafetySetting>>) -> (r: Option<Vec<GeminiSafetySetting>>)
    ensures
        match (r, *v) {
            (Some(a), Some(b)) => a@ == b@,
            (None, None) => true,
            _ => false,
        },
{
    match v {
        Some(l) => {
            let mut out: Vec<GeminiSafetySetting> = Vec::new();
            let mut i: usize = 0;
            while i < l.len()
                invariant
                    i <= l@.len(),
                    out@ == l@.subrange(0, i as int),
                decreases l@.len() - i,
            {
                out.push(l[i].copy());
                i = i + 1;
            }
            assert(l@.subrange(0, l@.len() as int) == l@);
            Some(out)
        },
        None => None,
    }
}

/// The request that carries `content` to the object-stream service.
pub fn gemini_request(
    c: &LLMConfig,
    content: &str,
    tools: &Vec<GeminiTool>,
    safety: &Option<Vec<GeminiSafetySetting>>,
) -> (r: GeminiRequest)
    ensures
        request_json_view(r) == gemini_body_view(*c, content@, tools@, *safety),
{
    let mut parts: Vec<GeminiPart> = Vec::new();
    parts.push(GeminiPart::Text { text: content.to_owned() });
    let turn = GeminiContent { parts, role: Some(String::from_str("user")) };
    let ghost tv = content_json_view(turn);
    assert(turn.parts@.map_values(|p| part_json_view(p)) =~= seq![JsonView::Object(seq![("text"@, JsonView::Str(content@))])]);
    assert(tv == JsonView::Object(seq![
        ("parts"@, JsonView::Array(seq![JsonView::Object(seq![("text"@, JsonView::Str(content@))])])),
        ("role"@, JsonView::Str("user"@)),
    ])) by {
        assert(seq![("parts"@, JsonView::Array(turn.parts@.map_values(|p| part_json_view(p))))]
            + opt_entry("role"@, Some(JsonView::Str("user"@))) =~= seq![
            ("parts"@, JsonView::Array(seq![JsonView::Object(seq![("text"@, JsonView::Str(content@))])])),
            ("role"@, JsonView::Str("user"@)),
        ]);
    }
    let mut contents: Vec<GeminiContent> = Vec::new();
    contents.push(turn);
    assert(contents@.map_values(|x| content_json_view(x)) =~= seq![tv]);
    let r = GeminiRequest {
        contents,
        tools: copy_tools(tools),
        safety_settings: copy_settings(safety),
        generation_config: Some(GeminiGenerationConfig::from_config(c)),
    };
    assert(JsonView::Array(r.contents@.map_values(|x| content_json_view(x))) == contents_view(content@));
    assert(settings_opt_view(r.safety_settings) == settings_opt_view(*safety));
    r
}

/// The body of a request to the object-stream service.
pub fn gemini_body(
    c: &LLMConfig,
    content: &str,
    tools: &Vec<GeminiTool>,
    safety: &Option<Vec<GeminiSafetySetting>>,
) -> (r: Json)
    ensures
        r@ == gemini_body_view(*c, content@, tools@, *safety),
{
    gemini_request(c, content, tools, safety).to_json()
}

/// The address a request to the object-stream service goes to.
pub fn gemini_url(c: &LLMConfig) -> (r: String)
    ensures
        r@ == gemini_url_view(*c),
{
    let mut r = String::from_str("https://generativelanguage.googleapis.com/v1beta/models");
    r.append("/");
    r.append(c.model.as_str());
    if c.streaming {
        r.append(":streamGenerateContent?key=");
    } else {
        r.append(":generateContent?key=");
    }
    r.append(c.api_key.as_str());
    r
}

/// The upper-case form of a string, as `str::to_uppercase` gives it.
pub uninterp spec fn upper_of(s: Seq<char>) -> Seq<char>;

/// Relies on `str::to_uppercase`: the result depends on the characters alone.
#[verifier::external_body]
fn to_upper(s: &str) -> (r: String)
    ensures
        r@ == upper_of(s@),
{
    s.to_uppercase()
}

/// The string under `key` in an object, or `default` where there is none.
pub open spec fn str_field_or(j: Json, key: Seq<char>, default: Seq<char>) -> Seq<char> {
    match j.members() {
        Some(f) => match f.field(key) {
            Some(Json::Str(s)) => s@,
            _ => default,
        },
        None => default,
    }
}

/// The value under `key` in an object.
pub open spec fn json_field(j: Json, key: Seq<char>) -> Option<Json> {
    match j.members() {
        Some(f) => f.field(key),
        None => None,
    }
}

/// Whether every member of an object is itself an object.
pub open spec fn all_objects(m: JsonMembers) -> bool
    decreases m,
{
    match m {
        JsonMembers::Nil => true,
        JsonMembers::Cons(_, v, t) => v.members() is Some && all_objects(*t),
    }
}

/// The properties of an input schema, where it has them as an object.
pub open spec fn schema_properties(schema: Json) -> Option<JsonMembers> {
    match json_field(schema, "input_schema"@) {
        Some(Json::Object(s)) => match s.field("properties"@) {
            Some(Json::Object(p)) => Some(*p),
            _ => None,
        },
        _ => None,
    }
}

/// Whether a tool schema can be converted: it has an `input_schema` object
/// whose `properties` is an object of objects.
pub open spec fn schema_convertible(schema: Json) -> bool {
    schema_properties(schema) matches Some(p) && all_objects(p)
}

/// One property in the converted form, from its type already in upper case.
pub open spec fn property_view(upper_type: Seq<char>, description: Seq<char>) -> JsonView {
    JsonView::Object(seq![("type"@, JsonView::Str(upper_type)), ("description"@, JsonView::Str(description))])
}

/// The converted properties.
pub open spec fn properties_view(m: JsonMembers) -> Seq<(Seq<char>, JsonView)>
    decreases m,
{
    match m {
        JsonMembers::Nil => Seq::empty(),
        JsonMembers::Cons(k, v, t) => seq![(
            k@,
            property_view(upper_of(str_field_or(v, "type"@, "string"@)), str_field_or(v, "description"@, ""@)),
        )] + properties_view(*t),
    }
}

/// The strings among the elements of an array, in order.
pub open spec fn string_items(l: JsonList) -> Seq<JsonView>
    decreases l,
{
    match l {
        JsonList::Nil => Seq::empty(),
        JsonList::Cons(h, t) => match h {
            Json::Str(s) => seq![JsonView::Str(s@)] + string_items(*t),
            _ => string_items(*t),
        },
    }
}

/// The required names of an input schema.
pub open spec fn required_view(schema: Json) -> Seq<JsonView> {
    match json_field(schema, "input_schema"@) {
        Some(i) => match json_field(i, "required"@) {
            Some(Json::Array(l)) => string_items(*l),
            _ => Seq::empty(),
        },
        None => Seq::empty(),
    }
}

/// The converted parameters of a tool schema.
pub open spec fn parameters_view(schema: Json) -> JsonView {
    JsonView::Object(seq![
        ("type"@, JsonView::Str("OBJECT"@)),
        ("properties"@, JsonView::Object(properties_view(schema_properties(schema)->0))),
        ("required"@, JsonView::Array(required_view(schema))),
    ])
}

fn get_str_or(j: &Json, key: &str, default: &str) -> (r: String)
    ensures
        r@ == str_field_or(*j, key@, default@),
{
    match j {
        Json::Object(f) => match f.get(key) {
            Some(Json::Str(s)) => s.clone(),
            _ => default.to_owned(),
        },
        _ => default.to_owned(),
    }
}

/// One converted property, from its type already in upper case.
pub fn property_json(upper_type: &str, description: &str) -> (r: Json)
    ensures
        r@ == property_view(upper_type@, description@),
{
    let mut m: Vec<(String, Json)> = Vec::new();
    push_member(&mut m, "type", json_str(upper_type));
    push_member(&mut m, "description", json_str(description));
    assert(pair_views(m@) =~= seq![("type"@, JsonView::Str(upper_type@)), ("description"@, JsonView::Str(description@))]);
    object_from(m)
}

fn convert_properties(props: &JsonMembers) -> (r: Json)
    requires
        all_objects(*props),
    ensures
        r@ == JsonView::Object(properties_view(*props)),
{
    let mut out: Vec<(String, Json)> = Vec::new();
    let mut cur = props;
    let ghost mut acc: Seq<(Seq<char>, JsonView)> = Seq::empty();
    assert(pair_views(out@) == acc);
    loop
        invariant
            pair_views(out@) == acc,
            properties_view(*props) == acc + properties_view(*cur),
        decreases cur,
    {
        match cur {
            JsonMembers::Nil => {
                assert(acc + Seq::<(Seq<char>, JsonView)>::empty() == acc);
                return object_from(out);
            },
            JsonMembers::Cons(k, v, t) => {
                let ty = get_str_or(v, "type", "string");
                let upper = to_upper(ty.as_str());
                let desc = get_str_or(v, "description", "");
                let p = property_json(upper.as_str(), desc.as_str());
                push_member(&mut out, k.as_str(), p);
                proof {
                    let e = (k@, p@);
                    assert(acc + (seq![e] + properties_view(**t)) == acc.push(e) + properties_view(**t));
                    acc = acc.push(e);
                }
                cur = t;
            },
        }
    }
}

fn string_items_json(l: &JsonList) -> (r: Json)
    ensures
        r@ == JsonView::Array(string_items(*l)),
{
    let mut out: Vec<Json> = Vec::new();
    let mut cur = l;
    let ghost mut acc: Seq<JsonView> = Seq::empty();
    assert(json_views(out@) == acc);
    loop
        invariant
            json_views(out@) == acc,
            string_items(*l) == acc + string_items(*cur),
        decreases cur,
    {
        match cur {
            JsonList::Nil => {
                assert(acc + Seq::<JsonView>::empty() == acc);
                return array_from(out);
            },
            JsonList::Cons(h, t) => {
                match h {
                    Json::Str(s) => {
                        push_item(&mut out, json_str(s.as_str()));
                        proof {
                            let e = JsonView::Str(s@);
                            assert(acc + (seq![e] + string_items(**t)) == acc.push(e) + string_items(**t));
                            acc = acc.push(e);
                        }
                    },
                    _ => {},
                }
                cur = t;
            },
        }
    }
}

/// Converts a tool schema with an `input_schema` into a function declaration:
/// the name and description as given (empty where absent), and parameters
/// holding each property's type in upper case (`string` where absent) and
/// description, and the names under `required`.
pub fn convert_to_function_declaration(schema: &Json) -> (r: GeminiFunctionDeclaration)
    requires
        schema_convertible(*schema),
    ensures
        r.name@ == str_field_or(*schema, "name"@, ""@),
        r.description@ == str_field_or(*schema, "description"@, ""@),
        r.parameters@ == parameters_view(*schema),
{
    let name = get_str_or(schema, "name", "");
    let description = get_str_or(schema, "description", "");
    let (props, required) = match schema {
        Json::Object(f) => match f.get("input_schema") {
            Some(Json::Object(i)) => {
                let props = match i.get("properties") {
                    Some(Json::Object(p)) => convert_properties(p),
                    _ => Json::Null,
                };
                let required = match i.get("required") {
                    Some(Json::Array(l)) => string_items_json(l),
                    _ => array_from(Vec::new()),
                };
                (props, required)
            },
            _ => (Json::Null, Json::Null),
        },
        _ => (Json::Null, Json::Null),
    };
    assert(json_views(Seq::<Json>::empty()) == Seq::<JsonView>::empty());
    let mut m: Vec<(String, Json)> = Vec::new();
    push_member(&mut m, "type", json_str("OBJECT"));
    push_member(&mut m, "properties", props);
    push_member(&mut m, "required", required);
    assert(pair_views(m@) =~= seq![("type"@, JsonView::Str("OBJECT"@)), ("properties"@, props@), ("required"@, required@)]);
    GeminiClient::function_declaration(name.as_str(), description.as_str(), object_from(m))
}

} // verus!
