//! The conversation model shared by every backend: messages, attachments, tools and
//! structured-output descriptors, and the reply contract.
use std::collections::HashMap;

use vstd::prelude::*;

use crate::ToolCall;

verus! {

/// Role of a participant in a chat conversation.
#[derive(Debug, Clone, Copy, PartialEq, Eq, Structural)]
pub enum ChatRole {
    /// The user/human participant in the conversation
    User,
    /// The AI assistant participant in the conversation
    Assistant,
}

/// The supported MIME type of an image.
#[derive(Debug, Clone, Copy, PartialEq, Eq, Structural)]
#[non_exhaustive]
pub enum ImageMime {
    /// JPEG image
    JPEG,
    /// PNG image
    PNG,
    /// GIF image
    GIF,
    /// WebP image
    WEBP,
}

/// The MIME tag of each image kind.
pub open spec fn mime_text(m: ImageMime) -> Seq<char> {
    match m {
        ImageMime::JPEG => "image/jpeg"@,
        ImageMime::PNG => "image/png"@,
        ImageMime::GIF => "image/gif"@,
        ImageMime::WEBP => "image/webp"@,
    }
}

impl ImageMime {
    /// The MIME tag of this image kind.
    pub fn mime_type(&self) -> (r: &'static str)
        ensures
            r@ == mime_text(*self),
    {
        proof {
            reveal_strlit("image/jpeg");
            reveal_strlit("image/png");
            reveal_strlit("image/gif");
            reveal_strlit("image/webp");
        }
        match self {
            ImageMime::JPEG => "image/jpeg",
            ImageMime::PNG => "image/png",
            ImageMime::GIF => "image/gif",
            ImageMime::WEBP => "image/webp",
        }
    }
}

/// The type of a message in a chat conversation: exactly one kind of attachment, or none.
#[derive(Debug, Clone, PartialEq, Eq)]
pub enum MessageType {
    /// A text message
    Text,
    /// An image message
    Image(ImageMime, Vec<u8>),
    /// PDF message
    Pdf(Vec<u8>),
    /// An image URL message
    ImageURL(String),
}

/// The type of reasoning effort for a message in a chat conversation.
#[derive(Debug, Clone, Copy, PartialEq, Eq, Structural)]
pub enum ReasoningEffort {
    /// Low reasoning effort
    Low,
    /// Medium reasoning effort
    Medium,
    /// High reasoning effort
    High,
}

/// The wire name of each reasoning effort.
pub open spec fn effort_text(e: ReasoningEffort) -> Seq<char> {
    match e {
        ReasoningEffort::Low => "low"@,
        ReasoningEffort::Medium => "medium"@,
        ReasoningEffort::High => "high"@,
    }
}

impl ReasoningEffort {
    /// The wire name of this effort ("low", "medium" or "high").
    pub fn as_str(&self) -> (r: &'static str)
        ensures
            r@ == effort_text(*self),
    {
        proof {
            reveal_strlit("low");
            reveal_strlit("medium");
            reveal_strlit("high");
        }
        match self {
            ReasoningEffort::Low => "low",
            ReasoningEffort::Medium => "medium",
            ReasoningEffort::High => "high",
        }
    }
}

/// A single message in a chat conversation.
#[derive(Debug, Clone)]
pub struct ChatMessage {
    /// The role of who sent this message (user or assistant)
    pub role: ChatRole,
    /// The type of the message (text, image, pdf or image URL)
    pub message_type: MessageType,
    /// The text content of the message
    pub content: String,
}

/// `m` with its attachment replaced by `t`; role and content are kept.
pub open spec fn with_message_type(m: ChatMessage, t: MessageType) -> ChatMessage {
    ChatMessage { message_type: t, ..m }
}

/// Setting an attachment twice leaves only the second: the first leaves no trace.
pub proof fn lemma_last_attachment_wins(m: ChatMessage, first: MessageType, second: MessageType)
    ensures
        with_message_type(with_message_type(m, first), second) == with_message_type(m, second),
{
}

/// Represents a parameter in a function tool
#[derive(Debug)]
pub struct ParameterProperty {
    /// The type of the parameter (e.g. "string", "number", "array", etc)
    pub property_type: String,
    /// Description of what the parameter does
    pub description: String,
    /// When type is "array", this defines the type of the array items
    pub items: Option<Box<ParameterProperty>>,
    /// When type is "enum", this defines the possible values for the parameter
    pub enum_list: Option<Vec<String>>,
}

/// Represents the parameters schema for a function tool
#[derive(Debug)]
pub struct ParametersSchema {
    /// The type of the parameters object (usually "object")
    pub schema_type: String,
    /// Map of parameter names to their properties
    pub properties: HashMap<String, ParameterProperty>,
    /// List of required parameter names
    pub required: Vec<String>,
}

/// Represents a function definition for a tool
#[derive(Debug)]
pub struct FunctionTool {
    /// The name of the function
    pub name: String,
    /// Description of what the function does
    pub description: String,
    /// The parameters schema for the function
    pub parameters: ParametersSchema,
}

/// Represents a tool that can be used in chat
#[derive(Debug)]
pub struct Tool {
    /// The type of tool (e.g. "function")
    pub tool_type: String,
    /// The function definition if this is a function tool
    pub function: FunctionTool,
}

/// serde_json's `Value`, declared so that a schema can be held and handed on; nothing
/// is read from it, so nothing is assumed of it.
#[verifier::external_type_specification]
#[verifier::external_body]
pub struct ExJsonValue(serde_json::Value);

/// A structured-output constraint: a named JSON schema that the reply must follow.
/// The schema is carried through unchanged and never inspected.
#[derive(Debug, Clone, PartialEq)]
pub struct StructuredOutputFormat {
    /// Name of the schema
    pub name: String,
    /// The description of the schema
    pub description: Option<String>,
    /// The JSON schema for the structured output
    pub schema: Option<serde_json::Value>,
    /// Whether to enable strict schema adherence
    pub strict: Option<bool>,
}

/// The reply of a backend to one chat request.
pub trait ChatResponse {
    /// The text of the reply, if it carries one.
    spec fn reply_text(&self) -> Option<Seq<char>>;

    /// The text of the reply, if it carries one.
    fn text(&self) -> (r: Option<String>)
        ensures
            r.is_some() == self.reply_text().is_some(),
            r.is_some() ==> r.unwrap()@ == self.reply_text().unwrap(),
    ;

    /// The tool calls that the reply requests, where the backend reads them.
    fn tool_calls(&self) -> Option<Vec<ToolCall>>;

    /// The reasoning that the reply exposes; none unless a backend reads it.
    fn thinking(&self) -> (r: Option<String>)
        ensures
            r.is_none(),
    {
        None
    }
}

impl ChatMessage {
    /// Create a new builder for a user message
    pub fn user() -> (r: ChatMessageBuilder)
        ensures
            r@.role == ChatRole::User,
            r@.message_type == MessageType::Text,
            r@.content@.len() == 0,
    {
        ChatMessageBuilder::new(ChatRole::User)
    }

    /// Create a new builder for an assistant message
    pub fn assistant() -> (r: ChatMessageBuilder)
        ensures
            r@.role == ChatRole::Assistant,
            r@.message_type == MessageType::Text,
            r@.content@.len() == 0,
    {
        ChatMessageBuilder::new(ChatRole::Assistant)
    }
}

/// Builder for ChatMessage: the role is fixed at creation, content and attachment
/// may be set in any order, and the last setter of each wins.
#[derive(Debug)]
pub struct ChatMessageBuilder {
    role: ChatRole,
    message_type: MessageType,
    content: String,
}

impl View for ChatMessageBuilder {
    type V = ChatMessage;

    /// The message that `build` would return now.
    closed spec fn view(&self) -> ChatMessage {
        ChatMessage { role: self.role, message_type: self.message_type, content: self.content }
    }
}

impl ChatMessageBuilder {
    /// Create a new ChatMessageBuilder with specified role
    pub fn new(role: ChatRole) -> (r: Self)
        ensures
            r@.role == role,
            r@.message_type == MessageType::Text,
            r@.content@.len() == 0,
    {
        Self { role, message_type: MessageType::Text, content: String::new() }
    }

    /// Set the message content
    pub fn content(self, content: &str) -> (r: Self)
        ensures
            r@.role == self@.role,
            r@.message_type == self@.message_type,
            r@.content@ == content@,
    {
        let mut s = self;
        s.content = content.to_string();
        s
    }

    /// Set the message type as Image
    pub fn image(self, image_mime: ImageMime, raw_bytes: Vec<u8>) -> (r: Self)
        ensures
            r@ == with_message_type(self@, MessageType::Image(image_mime, raw_bytes)),
    {
        let mut s = self;
        s.message_type = MessageType::Image(image_mime, raw_bytes);
        s
    }

    /// Set the message type as Pdf
    pub fn pdf(self, raw_bytes: Vec<u8>) -> (r: Self)
        ensures
            r@ == with_message_type(self@, MessageType::Pdf(raw_bytes)),
    {
        let mut s = self;
        s.message_type = MessageType::Pdf(raw_bytes);
        s
    }

    /// Set the message type as ImageURL
    pub fn image_url(self, url: &str) -> (r: Self)
        ensures
            r@.role == self@.role,
            r@.content == self@.content,
            r@.message_type is ImageURL,
            r@.message_type->ImageURL_0@ == url@,
    {
        let mut s = self;
        s.message_type = MessageType::ImageURL(url.to_string());
        s
    }

    /// Build the ChatMessage
    pub fn build(self) -> (r: ChatMessage)
        ensures
            r == self@,
    {
        ChatMessage { role: self.role, message_type: self.message_type, content: self.content }
    }
}

} // verus!
