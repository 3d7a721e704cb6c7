//! The two service clients and the facade that picks one. They hold the
//! configuration and shape requests; sending them is left to the caller.
use vstd::prelude::*;
use vstd::string::StringExecFns;
use crate::framing::Framing;
use crate::gemini::{GeminiCandidate, GeminiPart, GeminiSafetySetting, first_text_of};
use crate::json::Json;
use crate::classify::StreamError;
use crate::request::{
    GeminiFunctionDeclaration, GeminiTool, LLMConfig, anthropic_body, anthropic_body_view, gemini_body,
    gemini_body_view, gemini_url, gemini_url_view,
};

verus! {

/// `reqwest::Client`, the HTTP connection pool a client sends through.
#[verifier::external_type_specification]
#[verifier::external_body]
pub struct ExHttpClient(reqwest::Client);

/// Relies on `reqwest::ClientBuilder::build`, which fails where no TLS
/// backend or resolver can be set up; nothing is assumed of when.
#[verifier::external_body]
fn new_http_client() -> (r: Option<reqwest::Client>) {
    reqwest::Client::builder().build().ok()
}

/// Why a client call failed.
#[derive(Debug)]
pub enum ClientError {
    /// No HTTP client could be set up.
    HttpClientUnavailable,
    /// The environment variable that holds the API key is not set.
    MissingApiKey { variable: String },
    /// A reply body is not the JSON that the service sends.
    Undecodable,
    /// A reply holds no text.
    NoTextContent,
    /// A reply holds no candidate.
    NoCandidates,
    /// The service reported an error with this code and message.
    Api { code: i32, message: String },
    /// The service reported an error of this kind with this message.
    Provider { kind: String, message: String },
    /// An error reply whose body could not be read as an error.
    ErrorBodyUnreadable,
    /// A request failed with this HTTP status and a body that reports no error.
    Status { status: u16, body: Vec<u8> },
    /// A streamed reply failed.
    Stream(StreamError),
}

/// Which service a facade talks to.
#[derive(Clone, Copy, PartialEq, Eq, Structural, Debug)]
pub enum ClientType {
    Anthropic,
    Gemini,
}

/// The address of the event-stream service.
pub open spec fn anthropic_endpoint_view() -> Seq<char> {
    "https://api.anthropic.com/v1/messages"@
}

/// The beta flag a facade's event-stream client announces.
pub open spec fn prompt_caching_beta_view() -> Seq<char> {
    "prompt-caching-2024-07-31"@
}

/// The API version the event-stream client announces.
pub open spec fn anthropic_version_view() -> Seq<char> {
    "2023-06-01"@
}

/// A client of the event-stream service.
#[derive(Debug)]
pub struct AnthropicClient {
    pub client: reqwest::Client,
    pub config: LLMConfig,
    pub version: String,
    pub beta: Option<String>,
    pub verbose: bool,
    pub metadata: Option<Json>,
}

/// The headers of a request to the event-stream service.
pub open spec fn anthropic_headers_view(key: Seq<char>, version: Seq<char>, beta: Option<String>) -> Seq<(Seq<char>, Seq<char>)> {
    seq![("x-api-key"@, key), ("anthropic-version"@, version), ("content-type"@, "application/json"@)]
        + match beta {
            Some(b) => seq![("anthropic-beta"@, b@)],
            None => Seq::empty(),
        }
}

/// The views of a list of header pairs.
pub open spec fn header_views(v: Seq<(String, String)>) -> Seq<(Seq<char>, Seq<char>)> {
    v.map_values(|p: (String, String)| (p.0@, p.1@))
}

fn push_header(out: &mut Vec<(String, String)>, name: &str, value: &str)
    ensures
        header_views(final(out)@) == header_views(old(out)@).push((name@, value@)),
{
    let p = (name.to_owned(), value.to_owned());
    let ghost q = p;
    out.push(p);
    assert(header_views(out@) =~= header_views(old(out)@).push((q.0@, q.1@)));
}

impl AnthropicClient {
    /// A client with this configuration, the current API version, no beta
    /// flag, no metadata and frames decoded rather than passed through.
    pub fn with_config(config: LLMConfig) -> (r: Result<AnthropicClient, ClientError>)
        ensures
            r matches Ok(c) ==> c.config == config && c.version@ == anthropic_version_view() && c.beta is None
                && !c.verbose && c.metadata is None,
            r matches Err(e) ==> e is HttpClientUnavailable,
    {
        match new_http_client() {
            Some(client) => Ok(AnthropicClient {
                client,
                config,
                version: String::from_str("2023-06-01"),
                beta: None,
                verbose: false,
                metadata: None,
            }),
            None => Err(ClientError::HttpClientUnavailable),
        }
    }

    /// The client with this beta flag.
    pub fn with_beta(self, beta: &str) -> (r: AnthropicClient)
        ensures
            r.beta matches Some(b) && b@ == beta@,
            r.config == self.config && r.version == self.version && r.verbose == self.verbose
                && r.metadata == self.metadata && r.client == self.client,
    {
        AnthropicClient { beta: Some(beta.to_owned()), ..self }
    }

    /// The client, passing frames through whole or not.
    pub fn with_verbose(self, verbose: bool) -> (r: AnthropicClient)
        ensures
            r.verbose == verbose,
            r.config == self.config && r.version == self.version && r.beta == self.beta && r.metadata == self.metadata,
            r.client == self.client,
    {
        AnthropicClient { verbose, ..self }
    }

    /// The client with this request metadata.
    pub fn with_metadata(self, metadata: Json) -> (r: AnthropicClient)
        ensures
            r.metadata == Some(metadata),
            r.config == self.config && r.version == self.version && r.beta == self.beta && r.verbose == self.verbose,
            r.client == self.client,
    {
        AnthropicClient { metadata: Some(metadata), ..self }
    }

    /// Replaces the configuration.
    pub fn update_config(&mut self, config: LLMConfig) -> (r: Result<(), ClientError>)
        ensures
            r is Ok,
            final(self).config == config,
            final(self).version == old(self).version,
            final(self).beta == old(self).beta,
            final(self).verbose == old(self).verbose,
            final(self).metadata == old(self).metadata,
            final(self).client == old(self).client,
    {
        self.config = config;
        Ok(())
    }

    /// The HTTP client requests go through.
    pub fn http(&self) -> (r: &reqwest::Client)
        ensures
            *r == self.client,
    {
        &self.client
    }

    /// How a streamed reply is cut into frames.
    pub fn framing(&self) -> (r: Framing)
        ensures
            r == Framing::EventStream,
    {
        Framing::EventStream
    }

    /// Where requests go.
    pub fn endpoint(&self) -> (r: String)
        ensures
            r@ == anthropic_endpoint_view(),
    {
        String::from_str("https://api.anthropic.com/v1/messages")
    }

    /// The headers of a request.
    pub fn headers(&self) -> (r: Vec<(String, String)>)
        ensures
            header_views(r@) == anthropic_headers_view(self.config.api_key@, self.version@, self.beta),
    {
        let mut h: Vec<(String, String)> = Vec::new();
        push_header(&mut h, "x-api-key", self.config.api_key.as_str());
        push_header(&mut h, "anthropic-version", self.version.as_str());
        push_header(&mut h, "content-type", "application/json");
        match &self.beta {
            Some(b) => push_header(&mut h, "anthropic-beta", b.as_str()),
            None => {},
        }
        assert(header_views(h@) =~= anthropic_headers_view(self.config.api_key@, self.version@, self.beta));
        h
    }

    /// The body of a request carrying `content`, for a streamed reply or not.
    pub fn request_body(&self, content: &str, stream: bool) -> (r: Json)
        ensures
            r@ == anthropic_body_view(self.config, content@, self.metadata, stream),
    {
        anthropic_body(&self.config, content, &self.metadata, stream)
    }
}

/// A client of the object-stream service.
#[derive(Debug)]
pub struct GeminiClient {
    pub client: reqwest::Client,
    pub config: LLMConfig,
    pub safety_settings: Option<Vec<GeminiSafetySetting>>,
    pub tools: Vec<GeminiTool>,
}

impl GeminiClient {
    /// A client with this configuration, no safety settings and no tools.
    pub fn with_config(config: LLMConfig) -> (r: Result<GeminiClient, ClientError>)
        ensures
            r matches Ok(c) ==> c.config == config && c.safety_settings is None && c.tools@.len() == 0,
            r matches Err(e) ==> e is HttpClientUnavailable,
    {
        match new_http_client() {
            Some(client) => Ok(GeminiClient { client, config, safety_settings: None, tools: Vec::new() }),
            None => Err(ClientError::HttpClientUnavailable),
        }
    }

    /// The client with these safety settings.
    pub fn with_safety_settings(self, safety_settings: Vec<GeminiSafetySetting>) -> (r: GeminiClient)
        ensures
            r.safety_settings == Some(safety_settings),
            r.config == self.config && r.tools == self.tools && r.client == self.client,
    {
        GeminiClient { safety_settings: Some(safety_settings), ..self }
    }

    /// The client with these tools.
    pub fn with_tools(self, tools: Vec<GeminiTool>) -> (r: GeminiClient)
        ensures
            r.tools == tools,
            r.config == self.config && r.safety_settings == self.safety_settings && r.client == self.client,
    {
        GeminiClient { tools, ..self }
    }

    /// A function declaration.
    pub fn function_declaration(name: &str, description: &str, parameters: Json) -> (r: GeminiFunctionDeclaration)
        ensures
            r.name@ == name@,
            r.description@ == description@,
            r.parameters == parameters,
    {
        GeminiFunctionDeclaration { name: name.to_owned(), description: description.to_owned(), parameters }
    }

    /// The text of a candidate's first text part.
    pub fn extract_text_from_candidate(candidate: &GeminiCandidate) -> (r: Option<String>)
        ensures
            r == first_text_of(candidate.content.parts@),
    {
        let parts = &candidate.content.parts;
        let mut i: usize = 0;
        assert(parts@.subrange(0, parts@.len() as int) == parts@);
        while i < parts.len()
            invariant
                i <= parts@.len(),
                parts@ == candidate.content.parts@,
                first_text_of(parts@) == first_text_of(parts@.subrange(i as int, parts@.len() as int)),
            decreases parts@.len() - i,
        {
            assert(parts@.subrange(i as int, parts@.len() as int).drop_first()
                == parts@.subrange(i + 1, parts@.len() as int));
            assert(parts@.subrange(i as int, parts@.len() as int)[0] == parts@[i as int]);
            match &parts[i] {
                GeminiPart::Text { text } => return Some(text.clone()),
                _ => {},
            }
            i = i + 1;
        }
        None
    }

    /// Replaces the configuration.
    pub fn update_config(&mut self, config: LLMConfig) -> (r: Result<(), ClientError>)
        ensures
            r is Ok,
            final(self).config == config,
            final(self).safety_settings == old(self).safety_settings,
            final(self).tools == old(self).tools,
            final(self).client == old(self).client,
    {
        self.config = config;
        Ok(())
    }

    /// The HTTP client requests go through.
    pub fn http(&self) -> (r: &reqwest::Client)
        ensures
            *r == self.client,
    {
        &self.client
    }

    /// How a streamed reply is cut into frames.
    pub fn framing(&self) -> (r: Framing)
        ensures
            r == Framing::ObjectStream,
    {
        Framing::ObjectStream
    }

    /// Where a request goes, with the streaming method where the
    /// configuration asks for streaming.
    pub fn url(&self) -> (r: String)
        ensures
            r@ == gemini_url_view(self.config),
    {
        gemini_url(&self.config)
    }

    /// The body of a request carrying `content`.
    pub fn request_body(&self, content: &str) -> (r: Json)
        ensures
            r@ == gemini_body_view(self.config, content@, self.tools@, self.safety_settings),
    {
        gemini_body(&self.config, content, &self.tools, &self.safety_settings)
    }
}

/// A client of either service.
#[derive(Debug)]
pub enum LLMClientType {
    Anthropic(Box<AnthropicClient>),
    Gemini(Box<GeminiClient>),
}

/// The environment variable that holds a service's API key.
pub open spec fn api_key_variable_view(t: ClientType) -> Seq<char> {
    match t {
        ClientType::Anthropic => "ANTHROPIC_API_KEY_RS"@,
        ClientType::Gemini => "GEMINI_API_KEY"@,
    }
}

/// The configuration a facade starts with.
pub open spec fn default_config_ok(c: LLMConfig, api_key: Seq<char>, model: Seq<char>, streaming: bool, tools: Option<Json>) -> bool {
    &&& c.api_key@ == api_key
    &&& c.model@ == model
    &&& c.temperature is None
    &&& c.max_tokens == Some(4000i32)
    &&& c.streaming == streaming
    &&& c.system_prompt is None
    &&& c.tools == tools
    &&& c.stop_sequences is None
    &&& c.top_p is None
    &&& c.top_k is None
}

impl ClientType {
    /// The environment variable that holds this service's API key.
    pub fn api_key_variable(&self) -> (r: &'static str)
        ensures
            r@ == api_key_variable_view(*self),
    {
        match self {
            ClientType::Anthropic => "ANTHROPIC_API_KEY_RS",
            ClientType::Gemini => "GEMINI_API_KEY",
        }
    }
}

impl LLMClientType {
    /// A client of the chosen service, with this key and model, at most 4000
    /// tokens per reply and no other option set; the event-stream client also
    /// announces the prompt-caching beta.
    pub fn new(client_type: ClientType, api_key: &str, model: &str, streaming: bool, tools: Option<Json>) -> (r: Result<
        LLMClientType,
        ClientError,
    >)
        ensures
            match r {
                Ok(LLMClientType::Anthropic(c)) => client_type == ClientType::Anthropic && default_config_ok(
                    c.config,
                    api_key@,
                    model@,
                    streaming,
                    tools,
                ) && c.version@ == anthropic_version_view() && (c.beta matches Some(b) && b@ == prompt_caching_beta_view())
                    && !c.verbose && c.metadata is None,
                Ok(LLMClientType::Gemini(c)) => client_type == ClientType::Gemini && default_config_ok(
                    c.config,
                    api_key@,
                    model@,
                    streaming,
                    tools,
                ) && c.safety_settings is None && c.tools@.len() == 0,
                Err(e) => e is HttpClientUnavailable,
            },
    {
        let config = LLMConfig {
            api_key: api_key.to_owned(),
            model: model.to_owned(),
            temperature: None,
            max_tokens: Some(4000),
            streaming,
            system_prompt: None,
            tools,
            stop_sequences: None,
            top_p: None,
            top_k: None,
        };
        match client_type {
            ClientType::Anthropic => match AnthropicClient::with_config(config) {
                Ok(c) => Ok(LLMClientType::Anthropic(Box::new(c.with_beta("prompt-caching-2024-07-31")))),
                Err(e) => Err(e),
            },
            ClientType::Gemini => match GeminiClient::with_config(config) {
                Ok(c) => Ok(LLMClientType::Gemini(Box::new(c))),
                Err(e) => Err(e),
            },
        }
    }

    /// Replaces the configuration of the client within.
    pub fn update_config(&mut self, config: LLMConfig) -> (r: Result<(), ClientError>)
        ensures
            r is Ok,
            match (*old(self), *final(self)) {
                (LLMClientType::Anthropic(a), LLMClientType::Anthropic(b)) => b.config == config && b.version
                    == a.version && b.beta == a.beta && b.verbose == a.verbose && b.metadata == a.metadata
                    && b.client == a.client,
                (LLMClientType::Gemini(a), LLMClientType::Gemini(b)) => b.config == config && b.safety_settings
                    == a.safety_settings && b.tools == a.tools && b.client == a.client,
                _ => false,
            },
    {
        match self {
            LLMClientType::Anthropic(c) => c.update_config(config),
            LLMClientType::Gemini(c) => c.update_config(config),
        }
    }
}

} // verus!
