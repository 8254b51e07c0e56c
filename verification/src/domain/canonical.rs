//! The canonical representation of a model call.
//!
//! Each base protocol has its own fields and meanings; requests and responses
//! are converted into this representation before they cross a boundary, so
//! the domain knows no upstream protocol's fields. Adapters convert; what
//! this representation cannot express is a [`TranslationError`].

use vstd::prelude::*;

use crate::domain::values::{protocol_label, Protocol, TokenUsage};

verus! {

/// The role of a message.
#[derive(Debug, Clone, Copy, PartialEq, Eq, Structural)]
pub enum Role {
    System,
    User,
    Assistant,
    Tool,
}

/// One block of a message's content.
#[derive(Debug, Clone, PartialEq, Eq)]
pub enum ContentBlock {
    Text(String),
    Image { media_type: String, data: Vec<u8> },
    ToolCall { id: String, name: String, arguments: String },
    ToolResult { call_id: String, content: String },
}

/// A message: content blocks in order.
#[derive(Debug, Clone, PartialEq, Eq)]
pub struct Message {
    pub role: Role,
    pub blocks: Vec<ContentBlock>,
}

impl Message {
    /// A message of one text block.
    pub fn text(role: Role, content: &str) -> (r: Self)
        ensures
            r.role == role,
            r.blocks@.len() == 1,
            r.blocks@[0] matches ContentBlock::Text(t) && t@ == content@,
    {
        Message { role, blocks: vec![ContentBlock::Text(content.to_owned())] }
    }
}

/// A tool definition; its parameters stay as the JSON Schema text.
#[derive(Debug, Clone, PartialEq, Eq)]
pub struct ToolDefinition {
    pub name: String,
    pub description: String,
    pub schema: String,
}

/// Sampling parameters; ratios are in thousandths, so no floats are needed.
#[derive(Debug, Clone, PartialEq, Eq)]
pub struct Sampling {
    pub temperature_milli: Option<u16>,
    pub top_p_milli: Option<u16>,
    pub max_output_tokens: Option<u32>,
    pub stop: Vec<String>,
}

impl Default for Sampling {
    fn default() -> (r: Self)
        ensures
            r.temperature_milli is None,
            r.top_p_milli is None,
            r.max_output_tokens is None,
            r.stop@.len() == 0,
    {
        Sampling {
            temperature_milli: None,
            top_p_milli: None,
            max_output_tokens: None,
            stop: Vec::new(),
        }
    }
}

/// The canonical request of one model call.
#[derive(Debug, Clone, PartialEq, Eq)]
pub struct CanonicalRequest {
    pub messages: Vec<Message>,
    pub tools: Vec<ToolDefinition>,
    pub sampling: Sampling,
    /// Whether the client asked for a stream; a streaming request is only
    /// ever answered by streaming.
    pub stream: bool,
}

/// Why generation stopped.
#[derive(Debug, Clone, Copy, PartialEq, Eq, Structural)]
pub enum FinishReason {
    Stop,
    Length,
    ToolCall,
    Filtered,
    Failed,
}

/// The canonical response of one model call.
#[derive(Debug, Clone, PartialEq, Eq)]
pub struct CanonicalResponse {
    pub message: Message,
    pub finish: FinishReason,
    pub usage: TokenUsage,
}

/// Input of a model call: the routing envelope and the canonical request.
#[derive(Debug, Clone, PartialEq, Eq)]
pub struct InvokeCommand {
    /// The model name the client asked for; it selects the alias.
    pub alias: String,
    /// The client's protocol; the response is converted back into it.
    pub protocol: Protocol,
    /// Session identifier; without one the call takes no part in session affinity.
    pub session_id: Option<String>,
    pub request: CanonicalRequest,
}

/// One event of a streamed response, passed on to the client block by block.
#[derive(Debug, Clone, PartialEq, Eq)]
pub enum CanonicalEvent {
    /// A piece of content. `index` names its block; the pieces of a block
    /// arrive in order, the first one carrying the block's identity.
    Delta { index: u32, block: ContentBlock },
    /// The end, with the reason and the total usage.
    Finished { finish: FinishReason, usage: TokenUsage },
    /// An error inside the stream, which ends it; the usage so far comes along
    /// so that it can still be accounted.
    Failed { reason: String, usage: TokenUsage },
}

/// What one side's protocol cannot express of the canonical representation.
/// Neither variant means that an upstream message could not be read; that is
/// an upstream failure.
#[derive(Debug, Clone, PartialEq, Eq)]
pub enum TranslationError {
    /// The target protocol cannot carry a capability of the request.
    UnsupportedByTarget { feature: String, protocol: Protocol },
    /// The upstream's response cannot be expressed in the client's protocol.
    UnsupportedResponseByTarget { feature: String, protocol: Protocol },
}

pub open spec fn translation_error_text(e: TranslationError) -> Seq<char> {
    match e {
        TranslationError::UnsupportedByTarget { feature, protocol } => "目标协议 "@
            + protocol_label(protocol) + " 不支持"@ + feature@,
        TranslationError::UnsupportedResponseByTarget { feature, protocol } => "上游响应无法回译为"@
            + protocol_label(protocol) + "："@ + feature@,
    }
}

impl TranslationError {
    /// The message shown for this failure.
    pub fn to_string(&self) -> (r: String)
        ensures
            r@ == translation_error_text(*self),
    {
        match self {
            TranslationError::UnsupportedByTarget { feature, protocol } => {
                let mut out = crate::text::enclose("目标协议 ", protocol.label(), " 不支持");
                out.append(feature.as_str());
                out
            },
            TranslationError::UnsupportedResponseByTarget { feature, protocol } => {
                let mut out = crate::text::enclose("上游响应无法回译为", protocol.label(), "：");
                out.append(feature.as_str());
                out
            },
        }
    }
}

} // verus!
