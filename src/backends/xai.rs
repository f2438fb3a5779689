//! The adapter for X.AI's chat and embedding API: what it sends for a conversation and
//! how it reads the vendor's replies. The network exchange itself is left to the caller.
use vstd::prelude::*;

use crate::chat::{ChatMessage, ChatResponse, ChatRole, StructuredOutputFormat, Tool};
use crate::completion::{CompletionRequest, CompletionResponse};
use crate::error::LLMError;
use crate::ToolCall;

verus! {

/// The endpoint that chat requests are posted to.
pub const CHAT_URL: &'static str = "https://api.x.ai/v1/chat/completions";

/// The endpoint that embedding requests are posted to.
pub const EMBEDDINGS_URL: &'static str = "https://api.x.ai/v1/embeddings";

/// Configuration of a client for X.AI's API, fixed at construction.
///
/// Sampling parameters are real numbers; they are held as the bit patterns of
/// IEEE-754 single-precision values (`f32::to_bits`) and sent on unchanged.
pub struct XAI {
    /// API key for authentication with X.AI services
    pub api_key: String,
    /// Model identifier to use for requests (e.g. "grok-2-latest")
    pub model: String,
    /// Maximum number of tokens to generate in responses
    pub max_tokens: Option<u32>,
    /// Bit pattern of the sampling temperature (0.0 to 1.0)
    pub temperature: Option<u32>,
    /// Optional system prompt to provide context
    pub system: Option<String>,
    /// Request timeout duration in seconds
    pub timeout_seconds: Option<u64>,
    /// Whether to enable streaming responses
    pub stream: Option<bool>,
    /// Bit pattern of the top-p sampling parameter
    pub top_p: Option<u32>,
    /// Top-k sampling parameter for controlling response diversity
    pub top_k: Option<u32>,
    /// Embedding encoding format
    pub embedding_encoding_format: Option<String>,
    /// Embedding dimensions
    pub embedding_dimensions: Option<u32>,
    /// JSON schema for structured output
    pub json_schema: Option<StructuredOutputFormat>,
}

/// Individual message in an X.AI chat conversation.
#[derive(Debug)]
pub struct XAIChatMessage<'a> {
    /// Role of the message sender (user, assistant, or system)
    pub role: &'a str,
    /// Content of the message
    pub content: &'a str,
}

impl<'a> View for XAIChatMessage<'a> {
    type V = (Seq<char>, Seq<char>);

    /// The role and the content.
    open spec fn view(&self) -> (Seq<char>, Seq<char>) {
        (self.role@, self.content@)
    }
}

/// The kind of output that a response format asks for.
#[derive(Debug, Clone, Copy, PartialEq, Eq, Structural)]
pub enum XAIResponseType {
    /// Free text
    Text,
    /// JSON that follows a given schema
    JsonSchema,
    /// Any JSON object
    JsonObject,
}

/// The format that the model must output: `{"type": ..., "json_schema": {...}}`.
#[derive(Debug)]
pub struct XAIResponseFormat<'a> {
    /// The kind of output
    pub response_type: XAIResponseType,
    /// The schema, for structured output
    pub json_schema: Option<&'a StructuredOutputFormat>,
}

/// Request payload for X.AI's chat API endpoint. Fields that hold `None` are left
/// out of the JSON body.
#[derive(Debug)]
pub struct XAIChatRequest<'a> {
    /// Model identifier to use
    pub model: &'a str,
    /// Array of conversation messages
    pub messages: Vec<XAIChatMessage<'a>>,
    /// Maximum tokens to generate
    pub max_tokens: Option<u32>,
    /// Bit pattern of the temperature parameter
    pub temperature: Option<u32>,
    /// Whether to stream the response
    pub stream: bool,
    /// Bit pattern of the top-p sampling parameter
    pub top_p: Option<u32>,
    /// Top-k sampling parameter
    pub top_k: Option<u32>,
    /// The output format, for structured output
    pub response_format: Option<XAIResponseFormat<'a>>,
}

/// Response from X.AI's chat API endpoint.
#[derive(Debug)]
pub struct XAIChatResponse {
    /// Array of generated responses
    pub choices: Vec<XAIChatChoice>,
}

/// Individual response choice from the chat API.
#[derive(Debug)]
pub struct XAIChatChoice {
    /// Message content and metadata
    pub message: XAIChatMsg,
}

/// Message content from a chat response.
#[derive(Debug)]
pub struct XAIChatMsg {
    /// Generated text content
    pub content: String,
}

/// Request payload for X.AI's embedding endpoint. Fields that hold `None` are left
/// out of the JSON body.
#[derive(Debug)]
pub struct XAIEmbeddingRequest<'a> {
    /// Model identifier to use
    pub model: &'a str,
    /// The texts to embed, in order
    pub input: Vec<String>,
    /// The encoding of the returned vectors
    pub encoding_format: Option<String>,
    /// The requested dimensionality
    pub dimensions: Option<u32>,
}

/// One embedding vector of a reply, as the bit patterns of its `f32` components.
#[derive(Debug)]
pub struct XAIEmbeddingData {
    /// The components of the vector
    pub embedding: Vec<u32>,
}

/// Response from X.AI's embedding endpoint.
#[derive(Debug)]
pub struct XAIEmbeddingResponse {
    /// One item per embedded text, in the order of the request
    pub data: Vec<XAIEmbeddingData>,
}

/// The model used when none is configured.
pub open spec fn default_model() -> Seq<char> {
    "grok-2-latest"@
}

/// The encoding format asked for when none is configured.
pub open spec fn default_encoding_format() -> Seq<char> {
    "float"@
}

/// The wire role of each chat role.
pub open spec fn role_text(r: ChatRole) -> Seq<char> {
    match r {
        ChatRole::User => "user"@,
        ChatRole::Assistant => "assistant"@,
    }
}

/// A message as sent: its wire role and its content.
pub open spec fn wire_message(m: ChatMessage) -> (Seq<char>, Seq<char>) {
    (role_text(m.role), m.content@)
}

/// The messages of a chat request: the system prompt first, where one is configured,
/// then each message in order.
pub open spec fn wire_messages(system: Option<String>, msgs: Seq<ChatMessage>) -> Seq<
    (Seq<char>, Seq<char>),
> {
    let mapped = msgs.map_values(|m: ChatMessage| wire_message(m));
    match system {
        Some(s) => seq![("system"@, s@)] + mapped,
        None => mapped,
    }
}

impl XAIChatResponse {
    /// The text of the first choice, if any.
    pub open spec fn first_text(&self) -> Option<Seq<char>> {
        if self.choices@.len() > 0 {
            Some(self.choices@[0].message.content@)
        } else {
            None
        }
    }
}

impl ChatResponse for XAIChatResponse {
    open spec fn reply_text(&self) -> Option<Seq<char>> {
        self.first_text()
    }

    fn text(&self) -> (r: Option<String>) {
        if self.choices.len() > 0 {
            Some(self.choices[0].message.content.clone())
        } else {
            None
        }
    }

    /// Tool calls are not read from X.AI replies: there are never any.
    fn tool_calls(&self) -> (r: Option<Vec<ToolCall>>)
        ensures
            r is None,
    {
        None
    }
}

/// The error of a call made without a credential.
pub open spec fn is_auth_error<T>(r: Result<T, LLMError>) -> bool {
    r is Err && r->Err_0 is AuthError
}

impl XAI {
    /// Creates a new X.AI client configuration; the model defaults to "grok-2-latest".
    #[allow(clippy::too_many_arguments)]
    pub fn new(
        api_key: String,
        model: Option<String>,
        max_tokens: Option<u32>,
        temperature: Option<u32>,
        timeout_seconds: Option<u64>,
        system: Option<String>,
        stream: Option<bool>,
        top_p: Option<u32>,
        top_k: Option<u32>,
        embedding_encoding_format: Option<String>,
        embedding_dimensions: Option<u32>,
        json_schema: Option<StructuredOutputFormat>,
    ) -> (r: Self)
        ensures
            r.api_key == api_key,
            model is Some ==> r.model == model->Some_0,
            model is None ==> r.model@ == default_model(),
            r.max_tokens == max_tokens,
            r.temperature == temperature,
            r.timeout_seconds == timeout_seconds,
            r.system == system,
            r.stream == stream,
            r.top_p == top_p,
            r.top_k == top_k,
            r.embedding_encoding_format == embedding_encoding_format,
            r.embedding_dimensions == embedding_dimensions,
            r.json_schema == json_schema,
    {
        proof {
            reveal_strlit("grok-2-latest");
        }
        let model = match model {
            Some(m) => m,
            None => "grok-2-latest".to_string(),
        };
        XAI {
            api_key,
            model,
            max_tokens,
            temperature,
            system,
            timeout_seconds,
            stream,
            top_p,
            top_k,
            embedding_encoding_format,
            embedding_dimensions,
            json_schema,
        }
    }

    /// Whether a credential is configured.
    pub open spec fn has_key(&self) -> bool {
        self.api_key@.len() > 0
    }

    /// The body of a chat request for `messages`, or an authentication error when
    /// no credential is configured. The system prompt, where one is configured,
    /// comes first with the role "system"; the structured-output schema, where one
    /// is configured, is sent as a "json_schema" response format.
    pub fn chat_request<'a>(&'a self, messages: &'a [ChatMessage]) -> (r: Result<
        XAIChatRequest<'a>,
        LLMError,
    >)
        ensures
            !self.has_key() <==> is_auth_error(r),
            self.has_key() <==> r is Ok,
            r is Ok ==> ({
                let q = r->Ok_0;
                &&& q.model@ == self.model@
                &&& q.messages@.len() == wire_messages(self.system, messages@).len()
                &&& forall|i: int|
                    0 <= i < q.messages@.len() ==> #[trigger] q.messages@[i]@ == wire_messages(
                        self.system,
                        messages@,
                    )[i]
                &&& q.max_tokens == self.max_tokens
                &&& q.temperature == self.temperature
                &&& q.stream == (self.stream == Some(true))
                &&& q.top_p == self.top_p
                &&& q.top_k == self.top_k
                &&& q.response_format is Some == self.json_schema is Some
                &&& q.response_format is Some ==> {
                    &&& q.response_format->Some_0.response_type == XAIResponseType::JsonSchema
                    &&& q.response_format->Some_0.json_schema is Some
                    &&& *q.response_format->Some_0.json_schema->Some_0 == self.json_schema->Some_0
                }
            }),
    {
        if self.api_key.as_str().is_empty() {
            return Err(LLMError::AuthError("Missing X.AI API key".to_string()));
        }
        proof {
            reveal_strlit("user");
            reveal_strlit("assistant");
            reveal_strlit("system");
        }
        let mut out: Vec<XAIChatMessage<'a>> = Vec::new();
        if let Some(system) = &self.system {
            out.push(XAIChatMessage { role: "system", content: system.as_str() });
        }
        let ghost head = out@.map_values(|m: XAIChatMessage<'a>| m@);
        let ghost mapped = messages@.map_values(|m: ChatMessage| wire_message(m));
        let mut i: usize = 0;
        while i < messages.len()
            invariant
                i <= messages@.len(),
                mapped == messages@.map_values(|m: ChatMessage| wire_message(m)),
                out@.map_values(|m: XAIChatMessage<'a>| m@) == head + mapped.subrange(0, i as int),
            decreases messages@.len() - i,
        {
            let m = &messages[i];
            let role = match m.role {
                ChatRole::User => "user",
                ChatRole::Assistant => "assistant",
            };
            let ghost before = out@;
            let item = XAIChatMessage { role, content: m.content.as_str() };
            assert(item@ == mapped[i as int]);
            out.push(item);
            proof {
                assert(out@ =~= before.push(item));
                assert(out@.map_values(|m: XAIChatMessage<'a>| m@) =~= before.map_values(
                    |m: XAIChatMessage<'a>| m@,
                ).push(item@));
                assert(mapped.subrange(0, i + 1) =~= mapped.subrange(0, i as int).push(mapped[i as int]));
                assert(out@.map_values(|m: XAIChatMessage<'a>| m@) =~= head + mapped.subrange(0, i + 1));
            }
            i = i + 1;
        }
        proof {
            assert(mapped.subrange(0, i as int) =~= mapped);
            assert(out@.map_values(|m: XAIChatMessage<'a>| m@) =~= wire_messages(self.system, messages@));
            assert forall|k: int| 0 <= k < out@.len() implies #[trigger] out@[k]@ == wire_messages(
                self.system,
                messages@,
            )[k] by {
                assert(out@.map_values(|m: XAIChatMessage<'a>| m@)[k] == out@[k]@);
            }
        }
        let response_format = match &self.json_schema {
            Some(s) => Some(XAIResponseFormat { response_type: XAIResponseType::JsonSchema, json_schema: Some(s) }),
            None => None,
        };
        let stream = match self.stream {
            Some(b) => b,
            None => false,
        };
        Ok(XAIChatRequest {
            model: self.model.as_str(),
            messages: out,
            max_tokens: self.max_tokens,
            temperature: self.temperature,
            stream,
            top_p: self.top_p,
            top_k: self.top_k,
            response_format,
        })
    }

    /// Chat with tools: X.AI tool calling is not implemented by this adapter, so
    /// the call fails, with an authentication error when no credential is
    /// configured and as unsupported otherwise.
    pub fn chat_with_tools_request<'a>(
        &'a self,
        messages: &'a [ChatMessage],
        tools: Option<&'a [Tool]>,
    ) -> (r: Result<XAIChatRequest<'a>, LLMError>)
        ensures
            !self.has_key() <==> is_auth_error(r),
            self.has_key() <==> (r is Err && r->Err_0 is Unsupported),
    {
        if self.api_key.as_str().is_empty() {
            return Err(LLMError::AuthError("Missing X.AI API key".to_string()));
        }
        Err(LLMError::Unsupported("X.AI tool calling is not implemented".to_string()))
    }

    /// Text completion is not offered by X.AI through this adapter: with a
    /// credential configured it answers with a fixed placeholder text and makes no
    /// network exchange.
    pub fn complete(&self, req: &CompletionRequest) -> (r: Result<CompletionResponse, LLMError>)
        ensures
            !self.has_key() <==> is_auth_error(r),
            self.has_key() <==> r is Ok,
            r is Ok ==> r->Ok_0.text@ == completion_placeholder(),
    {
        if self.api_key.as_str().is_empty() {
            return Err(LLMError::AuthError("Missing X.AI API key".to_string()));
        }
        proof {
            reveal_strlit("X.AI completion not implemented.");
        }
        Ok(CompletionResponse { text: "X.AI completion not implemented.".to_string() })
    }

    /// The body of an embedding request for `text`, or an authentication error when
    /// no credential is configured. The encoding format defaults to "float".
    pub fn embed_request<'a>(&'a self, text: Vec<String>) -> (r: Result<
        XAIEmbeddingRequest<'a>,
        LLMError,
    >)
        ensures
            !self.has_key() <==> is_auth_error(r),
            self.has_key() <==> r is Ok,
            r is Ok ==> ({
                let q = r->Ok_0;
                &&& q.model@ == self.model@
                &&& q.input == text
                &&& q.encoding_format is Some
                &&& self.embedding_encoding_format is Some ==> q.encoding_format->Some_0@
                    == self.embedding_encoding_format->Some_0@
                &&& self.embedding_encoding_format is None ==> q.encoding_format->Some_0@
                    == default_encoding_format()
                &&& q.dimensions == self.embedding_dimensions
            }),
    {
        if self.api_key.as_str().is_empty() {
            return Err(LLMError::AuthError("Missing X.AI API key".to_string()));
        }
        proof {
            reveal_strlit("float");
        }
        let emb_format = match &self.embedding_encoding_format {
            Some(f) => f.clone(),
            None => "float".to_string(),
        };
        Ok(XAIEmbeddingRequest {
            model: self.model.as_str(),
            input: text,
            encoding_format: Some(emb_format),
            dimensions: self.embedding_dimensions,
        })
    }
}

/// The text of a completion answered without the vendor.
pub open spec fn completion_placeholder() -> Seq<char> {
    "X.AI completion not implemented."@
}

impl XAIChatResponse {
    /// The reply as display text: the first choice's content, or the empty string.
    pub fn display_text(&self) -> (r: String)
        ensures
            self.first_text() is Some ==> r@ == self.first_text()->Some_0,
            self.first_text() is None ==> r@.len() == 0,
    {
        match self.text() {
            Some(t) => t,
            None => String::new(),
        }
    }
}

impl XAIEmbeddingResponse {
    /// The embedding vectors of the reply, one per returned item, in order.
    pub fn into_embeddings(self) -> (r: Vec<Vec<u32>>)
        ensures
            r@.len() == self.data@.len(),
            forall|i: int| 0 <= i < r@.len() ==> #[trigger] r@[i]@ == self.data@[i].embedding@,
    {
        let mut out: Vec<Vec<u32>> = Vec::new();
        let mut i: usize = 0;
        while i < self.data.len()
            invariant
                i <= self.data@.len(),
                out@.len() == i,
                forall|j: int| 0 <= j < i ==> #[trigger] out@[j]@ == self.data@[j].embedding@,
            decreases self.data@.len() - i,
        {
            let v = self.data[i].embedding.clone();
            assert(v@ =~= self.data@[i as int].embedding@);
            out.push(v);
            i = i + 1;
        }
        out
    }
}

} // verus!
