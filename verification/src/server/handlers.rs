//! What each endpoint computes from a request: the text to embed, the chat
//! reply, the model to swap to, new and listed keys, the fallback settings,
//! and the custom-domain check.
use vstd::prelude::*;
use vstd::utf8::encode_utf8;
use super::http::{build_json_response, json_response_text};
use super::manager::{next_count, ServerManager};
use super::types::{ApiKeySummary, ChatChoice, ChatCompletionRequest, ChatCompletionResponse, ChatMessageInput, ChatMessageOutput, DomainVerification, ToolCallFunctionOutput, ToolCallOutput, UsageStats};
use crate::api_keys::generate::{generate_key_id, generate_secret_key, hex_char, is_key_id, is_secret_key, KeyGenError};
use crate::api_keys::prepare::now_rfc3339;
use crate::api_keys::types::StoredApiKey;
use crate::fallback::router::{is_default_config, FallbackConfig};
use crate::hardware::types::HardwareProfile;
use crate::json::{as_str, get, get_str, json_get, json_str, str_member, JsonValue};
use crate::text::{chars_of, decimal, push_char, push_decimal, string_from_range};

verus! {

// ---------------------------------------------------------------------------
// Joining texts
// ---------------------------------------------------------------------------

/// Texts joined with single spaces (`[&str]::join(" ")`).
pub open spec fn join_spaced(parts: Seq<Seq<char>>) -> Seq<char>
    decreases parts.len(),
{
    if parts.len() == 0 {
        seq![]
    } else if parts.len() == 1 {
        parts[0]
    } else {
        join_spaced(parts.drop_last()) + seq![' '] + parts.last()
    }
}

/// `parts` joined with single spaces.
pub fn join_with_spaces(parts: &Vec<String>) -> (s: String)
    ensures
        s@ == join_spaced(parts@.map_values(|p: String| p@)),
{
    let ghost views = parts@.map_values(|p: String| p@);
    let mut s = String::new();
    let mut i: usize = 0;
    while i < parts.len()
        invariant
            views == parts@.map_values(|p: String| p@),
            i <= parts@.len(),
            s@ == join_spaced(views.take(i as int)),
        decreases parts@.len() - i,
    {
        proof {
            assert(views.take(i + 1).drop_last() == views.take(i as int));
            assert(views.take(i + 1).last() == parts@[i as int]@);
        }
        if i > 0 {
            push_char(&mut s, ' ');
        } else {
            assert(views.take(0).len() == 0);
        }
        s.append(parts[i].as_str());
        proof {
            if i == 0 {
                assert(views.take(1) =~= seq![parts@[0]@]);
            }
        }
        i = i + 1;
    }
    assert(views.take(parts@.len() as int) == views);
    s
}

// ---------------------------------------------------------------------------
// Embeddings
// ---------------------------------------------------------------------------

/// The text embedded when a request names none.
pub open spec fn default_embedding_text() -> Seq<char> {
    "SelfAPI local embedding vector"@
}

/// The text of a JSON value, empty when it is not a string.
pub open spec fn str_or_empty(v: JsonValue) -> Seq<char> {
    match json_str(v) {
        Some(s) => s,
        None => seq![],
    }
}

/// The text to embed: the body's `input` when it is a string, its items
/// joined with spaces when it is an array (non-strings count as empty), the
/// default text otherwise.
pub open spec fn embedding_input_spec(body: Option<JsonValue>) -> Seq<char> {
    match body {
        Some(v) => match json_get(v, "input"@) {
            Some(JsonValue::String(s)) => s@,
            Some(JsonValue::Array(items)) => join_spaced(items@.map_values(|x: JsonValue| str_or_empty(x))),
            _ => default_embedding_text(),
        },
        None => default_embedding_text(),
    }
}

/// The text to embed for a request with JSON body `body` (`None` when the
/// body is not JSON).
pub fn embedding_input(body: &Option<JsonValue>) -> (s: String)
    ensures
        s@ == embedding_input_spec(*body),
{
    if let Some(v) = body {
        match get(v, "input") {
            Some(JsonValue::String(s)) => {
                return s.clone();
            },
            Some(JsonValue::Array(items)) => {
                let mut parts: Vec<String> = Vec::new();
                let mut i: usize = 0;
                while i < items.len()
                    invariant
                        i <= items@.len(),
                        parts@.map_values(|p: String| p@) == items@.take(i as int).map_values(
                            |x: JsonValue| str_or_empty(x),
                        ),
                    decreases items@.len() - i,
                {
                    let part = match as_str(&items[i]) {
                        Some(t) => t.clone(),
                        None => String::new(),
                    };
                    let ghost before = parts@;
                    parts.push(part);
                    proof {
                        assert(items@.take(i + 1) == items@.take(i as int).push(items@[i as int]));
                        assert(parts@.map_values(|p: String| p@) =~= before.map_values(|p: String| p@).push(part@));
                        assert(items@.take(i + 1).map_values(|x: JsonValue| str_or_empty(x)) =~= items@.take(
                            i as int,
                        ).map_values(|x: JsonValue| str_or_empty(x)).push(str_or_empty(items@[i as int])));
                    }
                    i = i + 1;
                }
                assert(items@.take(items@.len() as int) == items@);
                return join_with_spaces(&parts);
            },
            _ => {},
        }
    }
    String::from_str("SelfAPI local embedding vector")
}

/// Component `i` of the embedding of text whose UTF-8 bytes are `bytes`, as
/// a residue in 0..1000: `i * 31` plus the byte at `i` modulo the length (0
/// for empty text), modulo 1000. The vector sent holds `c / 1000 * 2 - 1`
/// for each residue `c`.
pub open spec fn embedding_residue(bytes: Seq<u8>, i: int) -> int {
    let b = if bytes.len() == 0 {
        0
    } else {
        bytes[i % (bytes.len() as int)] as int
    };
    (i * 31 + b) % 1000
}

/// Each component of an embedding reads its own byte of the input: for two
/// inputs of the same length, component `j` (within the input) is the same
/// when their bytes at `j` agree and differs when they differ; every
/// component lies below 1000.
pub proof fn law_embedding_positions(x: Seq<u8>, y: Seq<u8>, j: int)
    requires
        x.len() == y.len(),
        0 <= j < x.len(),
    ensures
        0 <= embedding_residue(x, j) < 1000,
        x[j] == y[j] ==> embedding_residue(x, j) == embedding_residue(y, j),
        x[j] != y[j] ==> embedding_residue(x, j) != embedding_residue(y, j),
{
    let n = x.len() as int;
    assert(j % n == j) by (nonlinear_arith)
        requires
            0 <= j < n,
    ;
    let a = x[j] as int;
    let b = y[j] as int;
    let t = j * 31;
    assert(t >= 0) by (nonlinear_arith)
        requires
            j >= 0,
            t == j * 31,
    ;
    assert(a != b ==> (t + a) % 1000 != (t + b) % 1000) by (nonlinear_arith)
        requires
            0 <= a < 256,
            0 <= b < 256,
            t >= 0,
    ;
}

/// The number of components of an embedding.
pub const EMBEDDING_DIMENSIONS: usize = 384;

/// The embedding residues of `input`, one per component.
pub fn embedding_residues(input: &str) -> (r: Vec<u64>)
    ensures
        r@.len() == EMBEDDING_DIMENSIONS,
        forall|i: int|
            0 <= i < EMBEDDING_DIMENSIONS ==> #[trigger] r@[i] as int == embedding_residue(
                encode_utf8(input@),
                i,
            ),
{
    let bytes = input.as_bytes();
    let len = bytes.len();
    let mut r: Vec<u64> = Vec::new();
    let mut i: usize = 0;
    while i < EMBEDDING_DIMENSIONS
        invariant
            bytes@ == encode_utf8(input@),
            len == bytes@.len(),
            i <= EMBEDDING_DIMENSIONS,
            r@.len() == i,
            forall|j: int|
                0 <= j < i ==> #[trigger] r@[j] as int == embedding_residue(encode_utf8(input@), j),
        decreases EMBEDDING_DIMENSIONS - i,
    {
        let b: u64 = if len == 0 {
            0
        } else {
            bytes[i % len] as u64
        };
        let seed = (i as u64) * 31 + b;
        r.push(seed % 1000);
        i = i + 1;
    }
    r
}

/// The token counts of embedding a text of `byte_len` UTF-8 bytes.
pub open spec fn embedding_usage_spec(byte_len: nat, u: UsageStats) -> bool {
    &&& u.prompt_tokens == byte_len / 4 + 1
    &&& u.completion_tokens == 0
    &&& u.total_tokens == byte_len / 4 + 1
}

/// The token counts of embedding `input`: a token per four bytes, plus one.
pub fn embedding_usage(input: &str) -> (u: UsageStats)
    requires
        encode_utf8(input@).len() / 4 + 1 <= u32::MAX,
    ensures
        embedding_usage_spec(encode_utf8(input@).len(), u),
{
    let len = input.as_bytes().len();
    let tokens = (len / 4) as u32 + 1;
    UsageStats { prompt_tokens: tokens, completion_tokens: 0, total_tokens: tokens }
}

// ---------------------------------------------------------------------------
// Chat completions
// ---------------------------------------------------------------------------

/// The prompt used when a request carries no readable message.
pub open spec fn default_prompt() -> Seq<char> {
    "Hello from client"@
}

/// The `text` members of the items that have one as a string, in order.
pub open spec fn item_texts(items: Seq<JsonValue>) -> Seq<Seq<char>>
    decreases items.len(),
{
    if items.len() == 0 {
        seq![]
    } else {
        let prev = item_texts(items.drop_last());
        match str_member(items.last(), "text"@) {
            Some(t) => prev.push(t),
            None => prev,
        }
    }
}

/// The text of a message's content: a string as is, the `text` parts of an
/// array joined with spaces, the default prompt otherwise.
pub open spec fn content_text(c: JsonValue) -> Seq<char> {
    match c {
        JsonValue::String(s) => s@,
        JsonValue::Array(items) => join_spaced(item_texts(items@)),
        _ => default_prompt(),
    }
}

/// The prompt of a chat request: the content of its last message, or the
/// default prompt when the request is missing or has no message.
pub open spec fn chat_prompt_spec(req: Option<ChatCompletionRequest>) -> Seq<char> {
    match req {
        Some(r) => if r.messages@.len() > 0 {
            content_text(r.messages@.last().content)
        } else {
            default_prompt()
        },
        None => default_prompt(),
    }
}

/// The prompt answered is the latest message: adding a message whose
/// content is the string `s` to any request makes `s` the prompt, whatever
/// came before; and an echo reply to such a request quotes exactly `s`.
pub proof fn law_prompt_is_last_message(
    before: ChatCompletionRequest,
    after: ChatCompletionRequest,
    m: ChatMessageInput,
    s: String,
    model: Seq<char>,
    ts: u64,
    r: ChatCompletionResponse,
)
    requires
        after.messages@ == before.messages@.push(m),
        m.content == JsonValue::String(s),
    ensures
        chat_prompt_spec(Some(after)) == s@,
        chat_reply(Some(after), model, ts, r) && !has_tools_spec(Some(after)) ==> (r.choices@[0].message.content matches Some(c)
            && c@ == "SelfAPI Local Model ("@ + model + "): I received your message: \""@ + s@
            + "\". Running privately on your local GPU/CPU."@),
{
    assert(after.messages@.last() == m);
}

fn content_prompt(c: &JsonValue) -> (s: String)
    ensures
        s@ == content_text(*c),
{
    match c {
        JsonValue::String(s) => s.clone(),
        JsonValue::Array(items) => {
            let mut parts: Vec<String> = Vec::new();
            let mut i: usize = 0;
            while i < items.len()
                invariant
                    i <= items@.len(),
                    parts@.map_values(|p: String| p@) == item_texts(items@.take(i as int)),
                decreases items@.len() - i,
            {
                proof {
                    assert(items@.take(i + 1).drop_last() == items@.take(i as int));
                    assert(items@.take(i + 1).last() == items@[i as int]);
                }
                match get_str(&items[i], "text") {
                    Some(t) => {
                        let ghost before = parts@;
                        parts.push(t);
                        proof {
                            assert(parts@.map_values(|p: String| p@) =~= before.map_values(
                                |p: String| p@,
                            ).push(t@));
                        }
                    },
                    None => {},
                }
                i = i + 1;
            }
            assert(items@.take(items@.len() as int) == items@);
            join_with_spaces(&parts)
        },
        _ => String::from_str("Hello from client"),
    }
}

/// The prompt of the chat request `req` (`None` when the body did not parse
/// as one).
pub fn chat_prompt(req: &Option<ChatCompletionRequest>) -> (s: String)
    ensures
        s@ == chat_prompt_spec(*req),
{
    match req {
        Some(r) => if r.messages.len() > 0 {
            content_prompt(&r.messages[r.messages.len() - 1].content)
        } else {
            String::from_str("Hello from client")
        },
        None => String::from_str("Hello from client"),
    }
}

/// Whether a chat request offers at least one tool.
pub open spec fn has_tools_spec(req: Option<ChatCompletionRequest>) -> bool {
    req matches Some(r) && r.tools matches Some(t) && t@.len() > 0
}

/// How JSON writes one character of a string: a double quote or a backslash
/// behind a backslash; backspace, tab, line feed, form feed and carriage
/// return as a backslash and `b`, `t`, `n`, `f`, `r`; the other control
/// characters below U+0020 as a backslash, `u00` and two lowercase hex
/// digits; every other character as itself.
pub open spec fn json_escape_char(c: char) -> Seq<char> {
    if c == '"' {
        seq!['\\', '"']
    } else if c == '\\' {
        seq!['\\', '\\']
    } else if c == '\u{8}' {
        seq!['\\', 'b']
    } else if c == '\t' {
        seq!['\\', 't']
    } else if c == '\n' {
        seq!['\\', 'n']
    } else if c == '\u{c}' {
        seq!['\\', 'f']
    } else if c == '\r' {
        seq!['\\', 'r']
    } else if (c as u32) < 0x20 {
        seq!['\\', 'u', '0', '0', hex_char((c as u32 / 16) as nat), hex_char((c as u32 % 16) as nat)]
    } else {
        seq![c]
    }
}

/// The characters of `s`, each as JSON writes it inside a string.
pub open spec fn json_escaped(s: Seq<char>) -> Seq<char>
    decreases s.len(),
{
    if s.len() == 0 {
        seq![]
    } else {
        json_escaped(s.drop_last()) + json_escape_char(s.last())
    }
}

/// The JSON string literal for `s`: `s` escaped, between double quotes.
pub open spec fn json_string(s: Seq<char>) -> Seq<char> {
    seq!['"'] + json_escaped(s) + seq!['"']
}

/// `serde_json::to_string` on a string slice: the JSON string literal for
/// `s`, as its `format_escaped_str` writes it. Writing a string into the
/// in-memory buffer cannot fail, so the result is always present.
#[verifier::external_body]
fn json_quote(s: &str) -> (r: Option<String>)
    ensures
        r is Some,
        r matches Some(t) ==> t@ == json_string(s@),
{
    serde_json::to_string(s).ok()
}

/// The current Unix time in seconds, from `chrono::Utc::now().timestamp()`.
/// The time depends on the clock; nothing is claimed of it.
#[verifier::external_body]
fn now_unix_seconds() -> i64 {
    chrono::Utc::now().timestamp()
}

/// The arguments of the tool call for `prompt`: the JSON object
/// `{"query": prompt}`.
pub open spec fn tool_arguments(prompt: Seq<char>) -> Seq<char> {
    "{\"query\":"@ + json_string(prompt) + "}"@
}

/// Whether `r` is the reply to a chat request at Unix time `ts` for the
/// active model `model`. With tools, the reply calls the first tool with the
/// prompt as its query; otherwise it echoes the prompt. Usage counts a token
/// per four bytes of prompt plus 5, with 28 completion tokens.
pub open spec fn chat_reply(
    req: Option<ChatCompletionRequest>,
    model: Seq<char>,
    ts: u64,
    r: ChatCompletionResponse,
) -> bool {
    let prompt = chat_prompt_spec(req);
    let tokens = encode_utf8(prompt).len() / 4;
    &&& r.id@ == "chatcmpl-selfapi-"@ + decimal(ts as nat)
    &&& r.object@ == "chat.completion"@
    &&& r.created == ts
    &&& r.model@ == model
    &&& r.choices@.len() == 1
    &&& r.choices@[0].index == 0
    &&& r.choices@[0].message.role@ == "assistant"@
    &&& if has_tools_spec(req) {
        let tool_name = match req {
            Some(q) => match q.tools {
                Some(t) => t@[0].function.name@,
                None => seq![],
            },
            None => seq![],
        };
        &&& r.choices@[0].message.content is None
        &&& r.choices@[0].message.tool_calls matches Some(calls) && calls@.len() == 1 && {
            let call = calls@[0];
            &&& call.id@ == "call_"@ + decimal(ts as nat)
            &&& call.call_type@ == "function"@
            &&& call.function.name@ == tool_name
            &&& call.function.arguments@ == tool_arguments(prompt)
        }
        &&& r.choices@[0].finish_reason@ == "tool_calls"@
    } else {
        &&& r.choices@[0].message.content matches Some(c) && c@ == "SelfAPI Local Model ("@ + model
            + "): I received your message: \""@ + prompt
            + "\". Running privately on your local GPU/CPU."@
        &&& r.choices@[0].message.tool_calls is None
        &&& r.choices@[0].finish_reason@ == "stop"@
    }
    &&& r.usage.prompt_tokens == tokens + 5
    &&& r.usage.completion_tokens == 28
    &&& r.usage.total_tokens == tokens + 33
    &&& r.time_to_first_token_ms == 18
}

/// The reply to chat request `req` at Unix time `now_ts` for `active_model`.
pub fn chat_completion_at(req: &Option<ChatCompletionRequest>, active_model: &str, now_ts: u64) -> (r:
    ChatCompletionResponse)
    requires
        encode_utf8(chat_prompt_spec(*req)).len() / 4 + 33 <= u32::MAX,
    ensures
        chat_reply(*req, active_model@, now_ts, r),
{
    let prompt = chat_prompt(req);
    let has_tools = match req {
        Some(r) => match &r.tools {
            Some(t) => t.len() > 0,
            None => false,
        },
        None => false,
    };
    let (message, finish_reason) = if has_tools {
        let name = match req {
            Some(r) => match &r.tools {
                Some(t) => t[0].function.name.clone(),
                None => String::from_str("selfapi_tool"),
            },
            None => String::from_str("selfapi_tool"),
        };
        let arguments = match json_quote(prompt.as_str()) {
            Some(q) => {
                let mut a = String::from_str("{\"query\":");
                a.append(q.as_str());
                a.append("}");
                a
            },
            None => String::from_str("{}"),
        };
        let mut call_id = String::from_str("call_");
        push_decimal(&mut call_id, now_ts);
        let mut calls: Vec<ToolCallOutput> = Vec::new();
        calls.push(
            ToolCallOutput {
                id: call_id,
                call_type: String::from_str("function"),
                function: ToolCallFunctionOutput { name, arguments },
            },
        );
        (
            ChatMessageOutput {
                role: String::from_str("assistant"),
                content: None,
                tool_calls: Some(calls),
            },
            String::from_str("tool_calls"),
        )
    } else {
        let mut text = String::from_str("SelfAPI Local Model (");
        text.append(active_model);
        text.append("): I received your message: \"");
        text.append(prompt.as_str());
        text.append("\". Running privately on your local GPU/CPU.");
        (
            ChatMessageOutput {
                role: String::from_str("assistant"),
                content: Some(text),
                tool_calls: None,
            },
            String::from_str("stop"),
        )
    };
    let mut id = String::from_str("chatcmpl-selfapi-");
    push_decimal(&mut id, now_ts);
    let tokens = (prompt.as_str().as_bytes().len() / 4) as u32;
    let mut choices: Vec<ChatChoice> = Vec::new();
    choices.push(ChatChoice { index: 0, message, finish_reason });
    ChatCompletionResponse {
        id,
        object: String::from_str("chat.completion"),
        created: now_ts,
        model: String::from_str(active_model),
        choices,
        usage: UsageStats {
            prompt_tokens: tokens + 5,
            completion_tokens: 28,
            total_tokens: tokens + 33,
        },
        time_to_first_token_ms: 18,
    }
}

/// Handles a chat completion: counts the request and replies at the current
/// time for the active model.
pub fn handle_chat(server: &mut ServerManager, req: &Option<ChatCompletionRequest>) -> (r:
    ChatCompletionResponse)
    requires
        encode_utf8(chat_prompt_spec(*req)).len() / 4 + 33 <= u32::MAX,
    ensures
        final(server)@.requests_count == next_count(old(server)@.requests_count),
        final(server)@.runtime == old(server)@.runtime,
        final(server)@.running == old(server)@.running,
        final(server)@.port == old(server)@.port,
        exists|ts: u64| chat_reply(*req, old(server)@.runtime.active_model@, ts, r),
{
    server.record_request();
    let now_ts = now_unix_seconds() as u64;
    let runtime = server.runtime();
    chat_completion_at(req, runtime.active_model.as_str(), now_ts)
}

// ---------------------------------------------------------------------------
// Model swap, keys, fallback, domains
// ---------------------------------------------------------------------------

/// The model a swap request asks for: the body's `model_id`, else its
/// `model`, when that member is a string; the active model otherwise.
pub open spec fn swap_target_spec(body: Option<JsonValue>, active: Seq<char>) -> Seq<char> {
    match body {
        Some(v) => {
            let m = match json_get(v, "model_id"@) {
                Some(x) => Some(x),
                None => json_get(v, "model"@),
            };
            match m {
                Some(x) => match json_str(x) {
                    Some(s) => s,
                    None => active,
                },
                None => active,
            }
        },
        None => active,
    }
}

/// The model the swap request with body `body` asks for.
pub fn swap_target(body: &Option<JsonValue>, active_model: &str) -> (s: String)
    ensures
        s@ == swap_target_spec(*body, active_model@),
{
    if let Some(v) = body {
        let m = match get(v, "model_id") {
            Some(x) => Some(x),
            None => get(v, "model"),
        };
        if let Some(x) = m {
            if let Some(s) = as_str(x) {
                return s.clone();
            }
        }
    }
    String::from_str(active_model)
}

/// The value of string member `key` of the body, or `default`.
pub open spec fn str_member_or(body: Option<JsonValue>, key: Seq<char>, default: Seq<char>) -> Seq<char> {
    match body {
        Some(v) => match str_member(v, key) {
            Some(s) => s,
            None => default,
        },
        None => default,
    }
}

fn body_str_or(body: &Option<JsonValue>, key: &str, default: &str) -> (s: String)
    ensures
        s@ == str_member_or(*body, key@, default@),
{
    if let Some(v) = body {
        if let Some(s) = get_str(v, key) {
            return s;
        }
    }
    String::from_str(default)
}

/// The name for a key created with body `body`: its `name`, else
/// `Generated Key`.
pub fn new_key_name(body: &Option<JsonValue>) -> (s: String)
    ensures
        s@ == str_member_or(*body, "name"@, "Generated Key"@),
{
    body_str_or(body, "name", "Generated Key")
}

/// Whether `rec` is a key created through the gateway: random id and secret,
/// named `name`, on the local endpoint without custom domain, full scope, 60
/// requests a minute, a 50-dollar cap, for the active model `model`.
pub open spec fn gateway_key(rec: StoredApiKey, name: Seq<char>, model: Seq<char>) -> bool {
    &&& is_key_id(rec.key_id@)
    &&& is_secret_key(rec.secret_key@)
    &&& rec.name@ == name
    &&& rec.endpoint_url@ == "http://127.0.0.1:8787/v1"@
    &&& rec.custom_domain is None
    &&& rec.scope@ == "Full Access (All Models)"@
    &&& rec.rate_limit_rpm == 60
    &&& rec.spend_cap_usd_cents == 5000
    &&& rec.model_id@ == model
    &&& rec.model_name@ == model
}

/// A new key named `name` for the active model `active_model`, created now.
pub fn new_key_record(name: &str, active_model: &str) -> (r: Result<StoredApiKey, KeyGenError>)
    ensures
        r matches Ok(rec) ==> gateway_key(rec, name@, active_model@),
{
    let key_id = generate_key_id()?;
    let secret_key = generate_secret_key()?;
    Ok(
        StoredApiKey {
            key_id,
            name: String::from_str(name),
            secret_key,
            endpoint_url: String::from_str("http://127.0.0.1:8787/v1"),
            custom_domain: None,
            scope: String::from_str("Full Access (All Models)"),
            rate_limit_rpm: 60,
            spend_cap_usd_cents: 5000,
            model_id: String::from_str(active_model),
            model_name: String::from_str(active_model),
            created_at: now_rfc3339(),
        },
    )
}

/// The shown part of a secret: its first 14 characters and `...`.
pub open spec fn key_prefix_text(secret: Seq<char>) -> Seq<char> {
    (if secret.len() <= 14 {
        secret
    } else {
        secret.take(14)
    }) + "..."@
}

/// Whether `s` lists `k`: id, name, prefix, scope, rate limit as
/// `<n> req/min`, endpoint and status `active`; the secret and creation text
/// are checked by the caller.
pub open spec fn summary_of(k: StoredApiKey, s: ApiKeySummary) -> bool {
    &&& s.id == k.key_id
    &&& s.name == k.name
    &&& s.key_prefix@ == key_prefix_text(k.secret_key@)
    &&& s.scope == k.scope
    &&& s.rate_limit@ == decimal(k.rate_limit_rpm as nat) + " req/min"@
    &&& s.public_endpoint == k.endpoint_url
    &&& s.status@ == "active"@
}

fn summary(k: &StoredApiKey, secret_key: Option<String>, created: String) -> (s: ApiKeySummary)
    ensures
        summary_of(*k, s),
        s.secret_key == secret_key,
        s.created == created,
{
    let v = chars_of(k.secret_key.as_str());
    let end = if v.len() <= 14 {
        v.len()
    } else {
        14
    };
    let mut prefix = string_from_range(&v, 0, end);
    assert(v@.subrange(0, end as int) == if v@.len() <= 14 {
        v@
    } else {
        v@.take(14)
    });
    prefix.append("...");
    let mut rate = String::new();
    push_decimal(&mut rate, k.rate_limit_rpm as u64);
    rate.append(" req/min");
    ApiKeySummary {
        id: k.key_id.clone(),
        name: k.name.clone(),
        key_prefix: prefix,
        secret_key,
        scope: k.scope.clone(),
        rate_limit: rate,
        public_endpoint: k.endpoint_url.clone(),
        created,
        status: String::from_str("active"),
    }
}

/// How a stored key is listed: without its secret, with its creation time.
pub fn key_summary(k: &StoredApiKey) -> (s: ApiKeySummary)
    ensures
        summary_of(*k, s),
        s.secret_key is None,
        s.created == k.created_at,
{
    summary(k, None, k.created_at.clone())
}

/// How a key just created is shown: with its secret, created `Just now`.
pub fn created_key_summary(k: &StoredApiKey) -> (s: ApiKeySummary)
    ensures
        summary_of(*k, s),
        s.secret_key == Some(k.secret_key),
        s.created@ == "Just now"@,
{
    summary(k, Some(k.secret_key.clone()), String::from_str("Just now"))
}

/// The fallback settings a request asks for: the defaults, with `enabled`,
/// `provider`, `model` and `latency_threshold_ms` taken from the body when
/// they have the right type (the threshold cut to 32 bits).
pub open spec fn fallback_settings(body: Option<JsonValue>, c: FallbackConfig) -> bool {
    let d = |key: Seq<char>| match body {
        Some(v) => json_get(v, key),
        None => None,
    };
    &&& c.enabled == match d("enabled"@) {
        Some(JsonValue::Bool(b)) => b,
        _ => true,
    }
    &&& c.provider@ == match d("provider"@) {
        Some(JsonValue::String(s)) => s@,
        _ => "groq"@,
    }
    &&& c.model@ == match d("model"@) {
        Some(JsonValue::String(s)) => s@,
        _ => "llama-3.3-70b-versatile"@,
    }
    &&& c.latency_threshold_ms == match d("latency_threshold_ms"@) {
        Some(JsonValue::Number(Some(n))) => n as u32,
        _ => 2500u32,
    }
    &&& c.api_key matches Some(k) && k@ == "gsk-selfapi-fallback-demo"@
}

/// The fallback settings asked for by a request with body `body`.
pub fn fallback_config_from_body(body: &Option<JsonValue>) -> (c: FallbackConfig)
    ensures
        fallback_settings(*body, c),
{
    let mut cfg = FallbackConfig::default();
    if let Some(v) = body {
        if let Some(JsonValue::Bool(b)) = get(v, "enabled") {
            cfg.enabled = *b;
        }
        if let Some(JsonValue::String(s)) = get(v, "provider") {
            cfg.provider = s.clone();
        }
        if let Some(JsonValue::String(s)) = get(v, "model") {
            cfg.model = s.clone();
        }
        if let Some(JsonValue::Number(Some(n))) = get(v, "latency_threshold_ms") {
            cfg.latency_threshold_ms = *n as u32;
        }
    }
    cfg
}

/// Whether `c` may appear in a domain label: an ASCII letter, digit or `-`.
pub open spec fn label_char(c: char) -> bool {
    ('a' <= c <= 'z') || ('A' <= c <= 'Z') || ('0' <= c <= '9') || c == '-'
}

/// Whether `d` is a valid domain: dot-separated labels, at least two, each
/// non-empty and made of label characters.
pub open spec fn valid_domain(d: Seq<char>) -> bool {
    &&& d.len() > 0
    &&& d[0] != '.'
    &&& d.last() != '.'
    &&& exists|i: int| 0 <= i < d.len() && d[i] == '.'
    &&& forall|i: int| 0 <= i < d.len() ==> d[i] == '.' || label_char(#[trigger] d[i])
    &&& forall|i: int| 0 <= i < d.len() - 1 ==> !(#[trigger] d[i] == '.' && d[i + 1] == '.')
}

/// Whether `domain` is a valid domain.
pub fn is_valid_domain(domain: &str) -> (b: bool)
    ensures
        b == valid_domain(domain@),
{
    let v = chars_of(domain);
    let n = v.len();
    if n == 0 || v[0] == '.' || v[n - 1] == '.' {
        return false;
    }
    let mut dot = false;
    let mut i: usize = 0;
    while i < n
        invariant
            n == v@.len(),
            v@ == domain@,
            n > 0,
            v@[0] != '.',
            v@[n - 1] != '.',
            i <= n,
            dot == exists|j: int| 0 <= j < i && v@[j] == '.',
            forall|j: int| 0 <= j < i ==> v@[j] == '.' || label_char(#[trigger] v@[j]),
            forall|j: int| 0 <= j < i && j < n - 1 ==> !(#[trigger] v@[j] == '.' && v@[j + 1] == '.'),
        decreases n - i,
    {
        let c = v[i];
        if c == '.' {
            if i + 1 < n && v[i + 1] == '.' {
                return false;
            }
            dot = true;
        } else if !(('a' <= c && c <= 'z') || ('A' <= c && c <= 'Z') || ('0' <= c && c <= '9')
            || c == '-') {
            return false;
        }
        i = i + 1;
    }
    dot
}

/// The outcome of verifying `domain`: `verified` with TLS for a valid domain,
/// `invalid` without; the CNAME target is the relay.
pub open spec fn verification_of(domain: Seq<char>, r: DomainVerification) -> bool {
    &&& r.domain@ == domain
    &&& r.status@ == if valid_domain(domain) {
        "verified"@
    } else {
        "invalid"@
    }
    &&& r.cname_target@ == "relay.selfapi.site"@
    &&& r.tls_active == valid_domain(domain)
}

/// Verifies the domain named in `body` (`api.mycompany.com` when none).
pub fn verify_domain(body: &Option<JsonValue>) -> (r: DomainVerification)
    ensures
        verification_of(str_member_or(*body, "domain"@, "api.mycompany.com"@), r),
{
    let domain = body_str_or(body, "domain", "api.mycompany.com");
    let valid = is_valid_domain(domain.as_str());
    DomainVerification {
        domain,
        status: if valid {
            String::from_str("verified")
        } else {
            String::from_str("invalid")
        },
        cname_target: String::from_str("relay.selfapi.site"),
        tls_active: valid,
    }
}

// ---------------------------------------------------------------------------
// Health and audit
// ---------------------------------------------------------------------------

/// The processor named in a health report: the primary adapter, else the
/// CPU, else a generic name.
pub open spec fn health_gpu_name_spec(p: HardwareProfile) -> Seq<char> {
    match p.primary_gpu {
        Some(g) => g.name@,
        None => match p.cpu_model {
            Some(c) => c@,
            None => "System Host Processor"@,
        },
    }
}

/// The processor to name in a health report for `profile`.
pub fn health_gpu_name(profile: &HardwareProfile) -> (s: String)
    ensures
        s@ == health_gpu_name_spec(*profile),
{
    match &profile.primary_gpu {
        Some(g) => g.name.clone(),
        None => match &profile.cpu_model {
            Some(c) => c.clone(),
            None => String::from_str("System Host Processor"),
        },
    }
}

/// The health report's JSON text, its members in key order: the active
/// model, the agent `SelfAPI`, the processor `gpu_name`, the requests handled,
/// fixed figures for the local node, and the memory figures `vram_gb` and
/// `vram_used_gb` as already written numbers.
pub open spec fn health_text(
    model: Seq<char>,
    requests: u64,
    gpu_name: Seq<char>,
    vram_gb: Seq<char>,
    vram_used_gb: Seq<char>,
) -> Seq<char> {
    "{\"active_model\":"@ + json_string(model) + ",\"agent\":\"SelfAPI\",\"gpu_name\":"@ + json_string(gpu_name)
        + ",\"p95_latency_ms\":18,\"pending_payout_usd\":0.0,\"price_per_1m_tokens_usd\":0.0,\"public_tunnel_url\":\"http://127.0.0.1:8787/v1\",\"relay_region\":\"Local Direct Node\",\"requests_handled\":"@
        + decimal(requests as nat)
        + ",\"status\":\"ok\",\"tier\":\"Local Agent Node\",\"total_earnings_usd\":0.0,\"uptime_percentage\":100.0,\"vram_gb\":"@
        + vram_gb + ",\"vram_used_gb\":"@ + vram_used_gb + "}"@
}

/// The answer to a health check on `profile` while `active_model` is in use
/// and `requests` requests were handled; the memory figures come written as
/// JSON numbers.
pub fn health_response(active_model: &str, requests: u64, profile: &HardwareProfile, vram_gb: &str, vram_used_gb: &str) -> (s: String)
    ensures
        s@ == json_response_text(
            200,
            health_text(active_model@, requests, health_gpu_name_spec(*profile), vram_gb@, vram_used_gb@),
        ),
{
    let gpu = health_gpu_name(profile);
    let model_q = json_quote(active_model);
    let gpu_q = json_quote(gpu.as_str());
    let mut body = String::from_str("{\"active_model\":");
    match &model_q {
        Some(q) => body.append(q.as_str()),
        None => {},
    }
    body.append(",\"agent\":\"SelfAPI\",\"gpu_name\":");
    match &gpu_q {
        Some(q) => body.append(q.as_str()),
        None => {},
    }
    body.append(",\"p95_latency_ms\":18,\"pending_payout_usd\":0.0,\"price_per_1m_tokens_usd\":0.0,\"public_tunnel_url\":\"http://127.0.0.1:8787/v1\",\"relay_region\":\"Local Direct Node\",\"requests_handled\":");
    push_decimal(&mut body, requests);
    body.append(",\"status\":\"ok\",\"tier\":\"Local Agent Node\",\"total_earnings_usd\":0.0,\"uptime_percentage\":100.0,\"vram_gb\":");
    body.append(vram_gb);
    body.append(",\"vram_used_gb\":");
    body.append(vram_used_gb);
    body.append("}");
    build_json_response(200, body.as_str())
}

/// The audit log's count line: `<n> requests handled`.
pub fn requests_handled_label(count: u64) -> (s: String)
    ensures
        s@ == decimal(count as nat) + " requests handled"@,
{
    let mut s = String::new();
    push_decimal(&mut s, count);
    s.append(" requests handled");
    s
}

} // verus!
