//! Records the gateway reads from requests and writes into responses.
use vstd::prelude::*;
use crate::json::JsonValue;

verus! {

/// The local server's status.
#[derive(Debug, Clone)]
pub struct LocalServerStatus {
    pub running: bool,
    pub port: u16,
    pub endpoint_url: String,
    pub active_model: Option<String>,
    pub requests_handled: u64,
}

/// A chat message of a request.
#[derive(Debug)]
pub struct ChatMessageInput {
    pub role: String,
    pub content: JsonValue,
}

/// The function a tool offers.
#[derive(Debug)]
pub struct ToolFunction {
    pub name: String,
    pub description: Option<String>,
    pub parameters: Option<JsonValue>,
}

/// A tool a request offers to the model (JSON field `type` is `tool_type`).
#[derive(Debug)]
pub struct ToolDefinition {
    pub tool_type: String,
    pub function: ToolFunction,
}

/// The function called by a tool call.
#[derive(Debug, Clone)]
pub struct ToolCallFunctionOutput {
    pub name: String,
    pub arguments: String,
}

/// A tool call in a reply (JSON field `type` is `call_type`).
#[derive(Debug, Clone)]
pub struct ToolCallOutput {
    pub id: String,
    pub call_type: String,
    pub function: ToolCallFunctionOutput,
}

/// A chat completion request, as far as the gateway reads it; the sampling
/// temperature it may carry plays no part.
#[derive(Debug)]
pub struct ChatCompletionRequest {
    pub model: String,
    pub messages: Vec<ChatMessageInput>,
    pub tools: Option<Vec<ToolDefinition>>,
}

/// The reply message.
#[derive(Debug, Clone)]
pub struct ChatMessageOutput {
    pub role: String,
    pub content: Option<String>,
    pub tool_calls: Option<Vec<ToolCallOutput>>,
}

/// One choice of a reply.
#[derive(Debug, Clone)]
pub struct ChatChoice {
    pub index: u32,
    pub message: ChatMessageOutput,
    pub finish_reason: String,
}

/// Token counts of a call.
#[derive(Debug, Clone, Copy)]
pub struct UsageStats {
    pub prompt_tokens: u32,
    pub completion_tokens: u32,
    pub total_tokens: u32,
}

/// A chat completion reply. The throughput figure sent with it is a fixed
/// 42.5 tokens per second, added when the reply is written out.
#[derive(Debug, Clone)]
pub struct ChatCompletionResponse {
    pub id: String,
    pub object: String,
    pub created: u64,
    pub model: String,
    pub choices: Vec<ChatChoice>,
    pub usage: UsageStats,
    pub time_to_first_token_ms: u32,
}

/// An API key as listed by the gateway; the secret is shown only right after
/// the key is created.
#[derive(Debug, Clone)]
pub struct ApiKeySummary {
    pub id: String,
    pub name: String,
    pub key_prefix: String,
    pub secret_key: Option<String>,
    pub scope: String,
    pub rate_limit: String,
    pub public_endpoint: String,
    pub created: String,
    pub status: String,
}

/// The outcome of checking a custom domain.
#[derive(Debug, Clone)]
pub struct DomainVerification {
    pub domain: String,
    pub status: String,
    pub cname_target: String,
    pub tls_active: bool,
}

} // verus!
