//! Routing a raw request: malformed requests, CORS preflights, untrusted
//! origins and missing keys are answered at once; every other request is
//! handed to the handler of its endpoint, or answered 404.
use vstd::prelude::*;
use super::http::{
    authorized, authorized_spec, build_cors_response, build_http_response, build_json_response,
    cors_response_text, http_response_text, is_text, is_trusted_origin, json_response_text,
    requires_api_key, requires_key_spec, trusted_spec,
};
use super::manager::ServerRuntimeState;
use crate::text::{chars_of, line_ranges, lines, occurs_at, matches_at, string_from_range, word_ranges, words};

verus! {

/// The endpoints the gateway serves.
#[derive(Debug, Clone, Copy, PartialEq, Eq, Structural)]
pub enum Route {
    Health,
    ListModels,
    Embeddings,
    ChatCompletions,
    SwapModel,
    ListKeys,
    CreateKey,
    GetFallback,
    SetFallback,
    GetMarketplace,
    ToggleMarketplace,
    ToggleTunnel,
    VerifyDomain,
    AuditLogs,
}

/// What to do with a request: send a response at once, or run an endpoint.
#[derive(Debug, Clone)]
pub enum Dispatch {
    Respond(String),
    Handle(Route),
}

/// The endpoint for `method` on `path`, if the gateway has one.
pub open spec fn route_of(method: Seq<char>, path: Seq<char>) -> Option<Route> {
    let get = method == "GET"@;
    let post = method == "POST"@;
    if get && (path == "/v1/health"@ || path == "/health"@ || path == "/v1/telemetry"@) {
        Some(Route::Health)
    } else if get && (path == "/v1/models"@ || path == "/models"@) {
        Some(Route::ListModels)
    } else if post && (path == "/v1/embeddings"@ || path == "/embeddings"@) {
        Some(Route::Embeddings)
    } else if post && (path == "/v1/chat/completions"@ || path == "/chat/completions"@) {
        Some(Route::ChatCompletions)
    } else if post && path == "/v1/models/swap"@ {
        Some(Route::SwapModel)
    } else if get && path == "/v1/keys"@ {
        Some(Route::ListKeys)
    } else if post && path == "/v1/keys"@ {
        Some(Route::CreateKey)
    } else if get && path == "/v1/fallback"@ {
        Some(Route::GetFallback)
    } else if post && path == "/v1/fallback"@ {
        Some(Route::SetFallback)
    } else if get && path == "/v1/marketplace"@ {
        Some(Route::GetMarketplace)
    } else if post && path == "/v1/marketplace"@ {
        Some(Route::ToggleMarketplace)
    } else if post && path == "/v1/tunnel/toggle"@ {
        Some(Route::ToggleTunnel)
    } else if post && path == "/v1/domain/verify"@ {
        Some(Route::VerifyDomain)
    } else if get && path == "/v1/audit-logs"@ {
        Some(Route::AuditLogs)
    } else {
        None
    }
}

proof fn lemma_route_get_v1_health()
    ensures
        route_of("GET"@, "/v1/health"@) == Some(Route::Health),
{
    reveal_strlit("/chat/completions");
    reveal_strlit("/embeddings");
    reveal_strlit("/health");
    reveal_strlit("/models");
    reveal_strlit("/v1/audit-logs");
    reveal_strlit("/v1/chat/completions");
    reveal_strlit("/v1/domain/verify");
    reveal_strlit("/v1/embeddings");
    reveal_strlit("/v1/fallback");
    reveal_strlit("/v1/health");
    reveal_strlit("/v1/keys");
    reveal_strlit("/v1/marketplace");
    reveal_strlit("/v1/models");
    reveal_strlit("/v1/models/swap");
    reveal_strlit("/v1/telemetry");
    reveal_strlit("/v1/tunnel/toggle");
    reveal_strlit("GET");
    reveal_strlit("POST");
    assert("/chat/completions"@.len() == 17);
    assert("/embeddings"@.len() == 11);
    assert("/health"@.len() == 7);
    assert("/models"@.len() == 7);
    assert("/v1/audit-logs"@.len() == 14);
    assert("/v1/chat/completions"@.len() == 20);
    assert("/v1/domain/verify"@.len() == 17);
    assert("/v1/embeddings"@.len() == 14);
    assert("/v1/fallback"@.len() == 12);
    assert("/v1/health"@.len() == 10);
    assert("/v1/keys"@.len() == 8);
    assert("/v1/marketplace"@.len() == 15);
    assert("/v1/models"@.len() == 10);
    assert("/v1/models/swap"@.len() == 15);
    assert("/v1/telemetry"@.len() == 13);
    assert("/v1/tunnel/toggle"@.len() == 17);
    assert("GET"@.len() == 3);
    assert("POST"@.len() == 4);
    assert("/v1/health"@[4] != "/v1/models"@[4]);
}

proof fn lemma_route_get_health()
    ensures
        route_of("GET"@, "/health"@) == Some(Route::Health),
{
    reveal_strlit("/chat/completions");
    reveal_strlit("/embeddings");
    reveal_strlit("/health");
    reveal_strlit("/models");
    reveal_strlit("/v1/audit-logs");
    reveal_strlit("/v1/chat/completions");
    reveal_strlit("/v1/domain/verify");
    reveal_strlit("/v1/embeddings");
    reveal_strlit("/v1/fallback");
    reveal_strlit("/v1/health");
    reveal_strlit("/v1/keys");
    reveal_strlit("/v1/marketplace");
    reveal_strlit("/v1/models");
    reveal_strlit("/v1/models/swap");
    reveal_strlit("/v1/telemetry");
    reveal_strlit("/v1/tunnel/toggle");
    reveal_strlit("GET");
    reveal_strlit("POST");
    assert("/chat/completions"@.len() == 17);
    assert("/embeddings"@.len() == 11);
    assert("/health"@.len() == 7);
    assert("/models"@.len() == 7);
    assert("/v1/audit-logs"@.len() == 14);
    assert("/v1/chat/completions"@.len() == 20);
    assert("/v1/domain/verify"@.len() == 17);
    assert("/v1/embeddings"@.len() == 14);
    assert("/v1/fallback"@.len() == 12);
    assert("/v1/health"@.len() == 10);
    assert("/v1/keys"@.len() == 8);
    assert("/v1/marketplace"@.len() == 15);
    assert("/v1/models"@.len() == 10);
    assert("/v1/models/swap"@.len() == 15);
    assert("/v1/telemetry"@.len() == 13);
    assert("/v1/tunnel/toggle"@.len() == 17);
    assert("GET"@.len() == 3);
    assert("POST"@.len() == 4);
    assert("/health"@[1] != "/models"@[1]);
}

proof fn lemma_route_get_v1_telemetry()
    ensures
        route_of("GET"@, "/v1/telemetry"@) == Some(Route::Health),
{
    reveal_strlit("/chat/completions");
    reveal_strlit("/embeddings");
    reveal_strlit("/health");
    reveal_strlit("/models");
    reveal_strlit("/v1/audit-logs");
    reveal_strlit("/v1/chat/completions");
    reveal_strlit("/v1/domain/verify");
    reveal_strlit("/v1/embeddings");
    reveal_strlit("/v1/fallback");
    reveal_strlit("/v1/health");
    reveal_strlit("/v1/keys");
    reveal_strlit("/v1/marketplace");
    reveal_strlit("/v1/models");
    reveal_strlit("/v1/models/swap");
    reveal_strlit("/v1/telemetry");
    reveal_strlit("/v1/tunnel/toggle");
    reveal_strlit("GET");
    reveal_strlit("POST");
    assert("/chat/completions"@.len() == 17);
    assert("/embeddings"@.len() == 11);
    assert("/health"@.len() == 7);
    assert("/models"@.len() == 7);
    assert("/v1/audit-logs"@.len() == 14);
    assert("/v1/chat/completions"@.len() == 20);
    assert("/v1/domain/verify"@.len() == 17);
    assert("/v1/embeddings"@.len() == 14);
    assert("/v1/fallback"@.len() == 12);
    assert("/v1/health"@.len() == 10);
    assert("/v1/keys"@.len() == 8);
    assert("/v1/marketplace"@.len() == 15);
    assert("/v1/models"@.len() == 10);
    assert("/v1/models/swap"@.len() == 15);
    assert("/v1/telemetry"@.len() == 13);
    assert("/v1/tunnel/toggle"@.len() == 17);
    assert("GET"@.len() == 3);
    assert("POST"@.len() == 4);

}

proof fn lemma_route_get_v1_models()
    ensures
        route_of("GET"@, "/v1/models"@) == Some(Route::ListModels),
{
    reveal_strlit("/chat/completions");
    reveal_strlit("/embeddings");
    reveal_strlit("/health");
    reveal_strlit("/models");
    reveal_strlit("/v1/audit-logs");
    reveal_strlit("/v1/chat/completions");
    reveal_strlit("/v1/domain/verify");
    reveal_strlit("/v1/embeddings");
    reveal_strlit("/v1/fallback");
    reveal_strlit("/v1/health");
    reveal_strlit("/v1/keys");
    reveal_strlit("/v1/marketplace");
    reveal_strlit("/v1/models");
    reveal_strlit("/v1/models/swap");
    reveal_strlit("/v1/telemetry");
    reveal_strlit("/v1/tunnel/toggle");
    reveal_strlit("GET");
    reveal_strlit("POST");
    assert("/chat/completions"@.len() == 17);
    assert("/embeddings"@.len() == 11);
    assert("/health"@.len() == 7);
    assert("/models"@.len() == 7);
    assert("/v1/audit-logs"@.len() == 14);
    assert("/v1/chat/completions"@.len() == 20);
    assert("/v1/domain/verify"@.len() == 17);
    assert("/v1/embeddings"@.len() == 14);
    assert("/v1/fallback"@.len() == 12);
    assert("/v1/health"@.len() == 10);
    assert("/v1/keys"@.len() == 8);
    assert("/v1/marketplace"@.len() == 15);
    assert("/v1/models"@.len() == 10);
    assert("/v1/models/swap"@.len() == 15);
    assert("/v1/telemetry"@.len() == 13);
    assert("/v1/tunnel/toggle"@.len() == 17);
    assert("GET"@.len() == 3);
    assert("POST"@.len() == 4);
    assert("/v1/models"@[4] != "/v1/health"@[4]);
}

proof fn lemma_route_get_models()
    ensures
        route_of("GET"@, "/models"@) == Some(Route::ListModels),
{
    reveal_strlit("/chat/completions");
    reveal_strlit("/embeddings");
    reveal_strlit("/health");
    reveal_strlit("/models");
    reveal_strlit("/v1/audit-logs");
    reveal_strlit("/v1/chat/completions");
    reveal_strlit("/v1/domain/verify");
    reveal_strlit("/v1/embeddings");
    reveal_strlit("/v1/fallback");
    reveal_strlit("/v1/health");
    reveal_strlit("/v1/keys");
    reveal_strlit("/v1/marketplace");
    reveal_strlit("/v1/models");
    reveal_strlit("/v1/models/swap");
    reveal_strlit("/v1/telemetry");
    reveal_strlit("/v1/tunnel/toggle");
    reveal_strlit("GET");
    reveal_strlit("POST");
    assert("/chat/completions"@.len() == 17);
    assert("/embeddings"@.len() == 11);
    assert("/health"@.len() == 7);
    assert("/models"@.len() == 7);
    assert("/v1/audit-logs"@.len() == 14);
    assert("/v1/chat/completions"@.len() == 20);
    assert("/v1/domain/verify"@.len() == 17);
    assert("/v1/embeddings"@.len() == 14);
    assert("/v1/fallback"@.len() == 12);
    assert("/v1/health"@.len() == 10);
    assert("/v1/keys"@.len() == 8);
    assert("/v1/marketplace"@.len() == 15);
    assert("/v1/models"@.len() == 10);
    assert("/v1/models/swap"@.len() == 15);
    assert("/v1/telemetry"@.len() == 13);
    assert("/v1/tunnel/toggle"@.len() == 17);
    assert("GET"@.len() == 3);
    assert("POST"@.len() == 4);
    assert("/models"@[1] != "/health"@[1]);
}

proof fn lemma_route_post_v1_embeddings()
    ensures
        route_of("POST"@, "/v1/embeddings"@) == Some(Route::Embeddings),
{
    reveal_strlit("/chat/completions");
    reveal_strlit("/embeddings");
    reveal_strlit("/health");
    reveal_strlit("/models");
    reveal_strlit("/v1/audit-logs");
    reveal_strlit("/v1/chat/completions");
    reveal_strlit("/v1/domain/verify");
    reveal_strlit("/v1/embeddings");
    reveal_strlit("/v1/fallback");
    reveal_strlit("/v1/health");
    reveal_strlit("/v1/keys");
    reveal_strlit("/v1/marketplace");
    reveal_strlit("/v1/models");
    reveal_strlit("/v1/models/swap");
    reveal_strlit("/v1/telemetry");
    reveal_strlit("/v1/tunnel/toggle");
    reveal_strlit("GET");
    reveal_strlit("POST");
    assert("/chat/completions"@.len() == 17);
    assert("/embeddings"@.len() == 11);
    assert("/health"@.len() == 7);
    assert("/models"@.len() == 7);
    assert("/v1/audit-logs"@.len() == 14);
    assert("/v1/chat/completions"@.len() == 20);
    assert("/v1/domain/verify"@.len() == 17);
    assert("/v1/embeddings"@.len() == 14);
    assert("/v1/fallback"@.len() == 12);
    assert("/v1/health"@.len() == 10);
    assert("/v1/keys"@.len() == 8);
    assert("/v1/marketplace"@.len() == 15);
    assert("/v1/models"@.len() == 10);
    assert("/v1/models/swap"@.len() == 15);
    assert("/v1/telemetry"@.len() == 13);
    assert("/v1/tunnel/toggle"@.len() == 17);
    assert("GET"@.len() == 3);
    assert("POST"@.len() == 4);
    assert("/v1/embeddings"@[4] != "/v1/audit-logs"@[4]);
}

proof fn lemma_route_post_embeddings()
    ensures
        route_of("POST"@, "/embeddings"@) == Some(Route::Embeddings),
{
    reveal_strlit("/chat/completions");
    reveal_strlit("/embeddings");
    reveal_strlit("/health");
    reveal_strlit("/models");
    reveal_strlit("/v1/audit-logs");
    reveal_strlit("/v1/chat/completions");
    reveal_strlit("/v1/domain/verify");
    reveal_strlit("/v1/embeddings");
    reveal_strlit("/v1/fallback");
    reveal_strlit("/v1/health");
    reveal_strlit("/v1/keys");
    reveal_strlit("/v1/marketplace");
    reveal_strlit("/v1/models");
    reveal_strlit("/v1/models/swap");
    reveal_strlit("/v1/telemetry");
    reveal_strlit("/v1/tunnel/toggle");
    reveal_strlit("GET");
    reveal_strlit("POST");
    assert("/chat/completions"@.len() == 17);
    assert("/embeddings"@.len() == 11);
    assert("/health"@.len() == 7);
    assert("/models"@.len() == 7);
    assert("/v1/audit-logs"@.len() == 14);
    assert("/v1/chat/completions"@.len() == 20);
    assert("/v1/domain/verify"@.len() == 17);
    assert("/v1/embeddings"@.len() == 14);
    assert("/v1/fallback"@.len() == 12);
    assert("/v1/health"@.len() == 10);
    assert("/v1/keys"@.len() == 8);
    assert("/v1/marketplace"@.len() == 15);
    assert("/v1/models"@.len() == 10);
    assert("/v1/models/swap"@.len() == 15);
    assert("/v1/telemetry"@.len() == 13);
    assert("/v1/tunnel/toggle"@.len() == 17);
    assert("GET"@.len() == 3);
    assert("POST"@.len() == 4);

}

proof fn lemma_route_post_v1_chat_completions()
    ensures
        route_of("POST"@, "/v1/chat/completions"@) == Some(Route::ChatCompletions),
{
    reveal_strlit("/chat/completions");
    reveal_strlit("/embeddings");
    reveal_strlit("/health");
    reveal_strlit("/models");
    reveal_strlit("/v1/audit-logs");
    reveal_strlit("/v1/chat/completions");
    reveal_strlit("/v1/domain/verify");
    reveal_strlit("/v1/embeddings");
    reveal_strlit("/v1/fallback");
    reveal_strlit("/v1/health");
    reveal_strlit("/v1/keys");
    reveal_strlit("/v1/marketplace");
    reveal_strlit("/v1/models");
    reveal_strlit("/v1/models/swap");
    reveal_strlit("/v1/telemetry");
    reveal_strlit("/v1/tunnel/toggle");
    reveal_strlit("GET");
    reveal_strlit("POST");
    assert("/chat/completions"@.len() == 17);
    assert("/embeddings"@.len() == 11);
    assert("/health"@.len() == 7);
    assert("/models"@.len() == 7);
    assert("/v1/audit-logs"@.len() == 14);
    assert("/v1/chat/completions"@.len() == 20);
    assert("/v1/domain/verify"@.len() == 17);
    assert("/v1/embeddings"@.len() == 14);
    assert("/v1/fallback"@.len() == 12);
    assert("/v1/health"@.len() == 10);
    assert("/v1/keys"@.len() == 8);
    assert("/v1/marketplace"@.len() == 15);
    assert("/v1/models"@.len() == 10);
    assert("/v1/models/swap"@.len() == 15);
    assert("/v1/telemetry"@.len() == 13);
    assert("/v1/tunnel/toggle"@.len() == 17);
    assert("GET"@.len() == 3);
    assert("POST"@.len() == 4);

}

proof fn lemma_route_post_chat_completions()
    ensures
        route_of("POST"@, "/chat/completions"@) == Some(Route::ChatCompletions),
{
    reveal_strlit("/chat/completions");
    reveal_strlit("/embeddings");
    reveal_strlit("/health");
    reveal_strlit("/models");
    reveal_strlit("/v1/audit-logs");
    reveal_strlit("/v1/chat/completions");
    reveal_strlit("/v1/domain/verify");
    reveal_strlit("/v1/embeddings");
    reveal_strlit("/v1/fallback");
    reveal_strlit("/v1/health");
    reveal_strlit("/v1/keys");
    reveal_strlit("/v1/marketplace");
    reveal_strlit("/v1/models");
    reveal_strlit("/v1/models/swap");
    reveal_strlit("/v1/telemetry");
    reveal_strlit("/v1/tunnel/toggle");
    reveal_strlit("GET");
    reveal_strlit("POST");
    assert("/chat/completions"@.len() == 17);
    assert("/embeddings"@.len() == 11);
    assert("/health"@.len() == 7);
    assert("/models"@.len() == 7);
    assert("/v1/audit-logs"@.len() == 14);
    assert("/v1/chat/completions"@.len() == 20);
    assert("/v1/domain/verify"@.len() == 17);
    assert("/v1/embeddings"@.len() == 14);
    assert("/v1/fallback"@.len() == 12);
    assert("/v1/health"@.len() == 10);
    assert("/v1/keys"@.len() == 8);
    assert("/v1/marketplace"@.len() == 15);
    assert("/v1/models"@.len() == 10);
    assert("/v1/models/swap"@.len() == 15);
    assert("/v1/telemetry"@.len() == 13);
    assert("/v1/tunnel/toggle"@.len() == 17);
    assert("GET"@.len() == 3);
    assert("POST"@.len() == 4);
    assert("/chat/completions"@[1] != "/v1/domain/verify"@[1]);
    assert("/chat/completions"@[1] != "/v1/tunnel/toggle"@[1]);
}

proof fn lemma_route_post_v1_models_swap()
    ensures
        route_of("POST"@, "/v1/models/swap"@) == Some(Route::SwapModel),
{
    reveal_strlit("/chat/completions");
    reveal_strlit("/embeddings");
    reveal_strlit("/health");
    reveal_strlit("/models");
    reveal_strlit("/v1/audit-logs");
    reveal_strlit("/v1/chat/completions");
    reveal_strlit("/v1/domain/verify");
    reveal_strlit("/v1/embeddings");
    reveal_strlit("/v1/fallback");
    reveal_strlit("/v1/health");
    reveal_strlit("/v1/keys");
    reveal_strlit("/v1/marketplace");
    reveal_strlit("/v1/models");
    reveal_strlit("/v1/models/swap");
    reveal_strlit("/v1/telemetry");
    reveal_strlit("/v1/tunnel/toggle");
    reveal_strlit("GET");
    reveal_strlit("POST");
    assert("/chat/completions"@.len() == 17);
    assert("/embeddings"@.len() == 11);
    assert("/health"@.len() == 7);
    assert("/models"@.len() == 7);
    assert("/v1/audit-logs"@.len() == 14);
    assert("/v1/chat/completions"@.len() == 20);
    assert("/v1/domain/verify"@.len() == 17);
    assert("/v1/embeddings"@.len() == 14);
    assert("/v1/fallback"@.len() == 12);
    assert("/v1/health"@.len() == 10);
    assert("/v1/keys"@.len() == 8);
    assert("/v1/marketplace"@.len() == 15);
    assert("/v1/models"@.len() == 10);
    assert("/v1/models/swap"@.len() == 15);
    assert("/v1/telemetry"@.len() == 13);
    assert("/v1/tunnel/toggle"@.len() == 17);
    assert("GET"@.len() == 3);
    assert("POST"@.len() == 4);
    assert("/v1/models/swap"@[5] != "/v1/marketplace"@[5]);
}

proof fn lemma_route_get_v1_keys()
    ensures
        route_of("GET"@, "/v1/keys"@) == Some(Route::ListKeys),
{
    reveal_strlit("/chat/completions");
    reveal_strlit("/embeddings");
    reveal_strlit("/health");
    reveal_strlit("/models");
    reveal_strlit("/v1/audit-logs");
    reveal_strlit("/v1/chat/completions");
    reveal_strlit("/v1/domain/verify");
    reveal_strlit("/v1/embeddings");
    reveal_strlit("/v1/fallback");
    reveal_strlit("/v1/health");
    reveal_strlit("/v1/keys");
    reveal_strlit("/v1/marketplace");
    reveal_strlit("/v1/models");
    reveal_strlit("/v1/models/swap");
    reveal_strlit("/v1/telemetry");
    reveal_strlit("/v1/tunnel/toggle");
    reveal_strlit("GET");
    reveal_strlit("POST");
    assert("/chat/completions"@.len() == 17);
    assert("/embeddings"@.len() == 11);
    assert("/health"@.len() == 7);
    assert("/models"@.len() == 7);
    assert("/v1/audit-logs"@.len() == 14);
    assert("/v1/chat/completions"@.len() == 20);
    assert("/v1/domain/verify"@.len() == 17);
    assert("/v1/embeddings"@.len() == 14);
    assert("/v1/fallback"@.len() == 12);
    assert("/v1/health"@.len() == 10);
    assert("/v1/keys"@.len() == 8);
    assert("/v1/marketplace"@.len() == 15);
    assert("/v1/models"@.len() == 10);
    assert("/v1/models/swap"@.len() == 15);
    assert("/v1/telemetry"@.len() == 13);
    assert("/v1/tunnel/toggle"@.len() == 17);
    assert("GET"@.len() == 3);
    assert("POST"@.len() == 4);

}

proof fn lemma_route_post_v1_keys()
    ensures
        route_of("POST"@, "/v1/keys"@) == Some(Route::CreateKey),
{
    reveal_strlit("/chat/completions");
    reveal_strlit("/embeddings");
    reveal_strlit("/health");
    reveal_strlit("/models");
    reveal_strlit("/v1/audit-logs");
    reveal_strlit("/v1/chat/completions");
    reveal_strlit("/v1/domain/verify");
    reveal_strlit("/v1/embeddings");
    reveal_strlit("/v1/fallback");
    reveal_strlit("/v1/health");
    reveal_strlit("/v1/keys");
    reveal_strlit("/v1/marketplace");
    reveal_strlit("/v1/models");
    reveal_strlit("/v1/models/swap");
    reveal_strlit("/v1/telemetry");
    reveal_strlit("/v1/tunnel/toggle");
    reveal_strlit("GET");
    reveal_strlit("POST");
    assert("/chat/completions"@.len() == 17);
    assert("/embeddings"@.len() == 11);
    assert("/health"@.len() == 7);
    assert("/models"@.len() == 7);
    assert("/v1/audit-logs"@.len() == 14);
    assert("/v1/chat/completions"@.len() == 20);
    assert("/v1/domain/verify"@.len() == 17);
    assert("/v1/embeddings"@.len() == 14);
    assert("/v1/fallback"@.len() == 12);
    assert("/v1/health"@.len() == 10);
    assert("/v1/keys"@.len() == 8);
    assert("/v1/marketplace"@.len() == 15);
    assert("/v1/models"@.len() == 10);
    assert("/v1/models/swap"@.len() == 15);
    assert("/v1/telemetry"@.len() == 13);
    assert("/v1/tunnel/toggle"@.len() == 17);
    assert("GET"@.len() == 3);
    assert("POST"@.len() == 4);

}

proof fn lemma_route_get_v1_fallback()
    ensures
        route_of("GET"@, "/v1/fallback"@) == Some(Route::GetFallback),
{
    reveal_strlit("/chat/completions");
    reveal_strlit("/embeddings");
    reveal_strlit("/health");
    reveal_strlit("/models");
    reveal_strlit("/v1/audit-logs");
    reveal_strlit("/v1/chat/completions");
    reveal_strlit("/v1/domain/verify");
    reveal_strlit("/v1/embeddings");
    reveal_strlit("/v1/fallback");
    reveal_strlit("/v1/health");
    reveal_strlit("/v1/keys");
    reveal_strlit("/v1/marketplace");
    reveal_strlit("/v1/models");
    reveal_strlit("/v1/models/swap");
    reveal_strlit("/v1/telemetry");
    reveal_strlit("/v1/tunnel/toggle");
    reveal_strlit("GET");
    reveal_strlit("POST");
    assert("/chat/completions"@.len() == 17);
    assert("/embeddings"@.len() == 11);
    assert("/health"@.len() == 7);
    assert("/models"@.len() == 7);
    assert("/v1/audit-logs"@.len() == 14);
    assert("/v1/chat/completions"@.len() == 20);
    assert("/v1/domain/verify"@.len() == 17);
    assert("/v1/embeddings"@.len() == 14);
    assert("/v1/fallback"@.len() == 12);
    assert("/v1/health"@.len() == 10);
    assert("/v1/keys"@.len() == 8);
    assert("/v1/marketplace"@.len() == 15);
    assert("/v1/models"@.len() == 10);
    assert("/v1/models/swap"@.len() == 15);
    assert("/v1/telemetry"@.len() == 13);
    assert("/v1/tunnel/toggle"@.len() == 17);
    assert("GET"@.len() == 3);
    assert("POST"@.len() == 4);

}

proof fn lemma_route_post_v1_fallback()
    ensures
        route_of("POST"@, "/v1/fallback"@) == Some(Route::SetFallback),
{
    reveal_strlit("/chat/completions");
    reveal_strlit("/embeddings");
    reveal_strlit("/health");
    reveal_strlit("/models");
    reveal_strlit("/v1/audit-logs");
    reveal_strlit("/v1/chat/completions");
    reveal_strlit("/v1/domain/verify");
    reveal_strlit("/v1/embeddings");
    reveal_strlit("/v1/fallback");
    reveal_strlit("/v1/health");
    reveal_strlit("/v1/keys");
    reveal_strlit("/v1/marketplace");
    reveal_strlit("/v1/models");
    reveal_strlit("/v1/models/swap");
    reveal_strlit("/v1/telemetry");
    reveal_strlit("/v1/tunnel/toggle");
    reveal_strlit("GET");
    reveal_strlit("POST");
    assert("/chat/completions"@.len() == 17);
    assert("/embeddings"@.len() == 11);
    assert("/health"@.len() == 7);
    assert("/models"@.len() == 7);
    assert("/v1/audit-logs"@.len() == 14);
    assert("/v1/chat/completions"@.len() == 20);
    assert("/v1/domain/verify"@.len() == 17);
    assert("/v1/embeddings"@.len() == 14);
    assert("/v1/fallback"@.len() == 12);
    assert("/v1/health"@.len() == 10);
    assert("/v1/keys"@.len() == 8);
    assert("/v1/marketplace"@.len() == 15);
    assert("/v1/models"@.len() == 10);
    assert("/v1/models/swap"@.len() == 15);
    assert("/v1/telemetry"@.len() == 13);
    assert("/v1/tunnel/toggle"@.len() == 17);
    assert("GET"@.len() == 3);
    assert("POST"@.len() == 4);

}

proof fn lemma_route_get_v1_marketplace()
    ensures
        route_of("GET"@, "/v1/marketplace"@) == Some(Route::GetMarketplace),
{
    reveal_strlit("/chat/completions");
    reveal_strlit("/embeddings");
    reveal_strlit("/health");
    reveal_strlit("/models");
    reveal_strlit("/v1/audit-logs");
    reveal_strlit("/v1/chat/completions");
    reveal_strlit("/v1/domain/verify");
    reveal_strlit("/v1/embeddings");
    reveal_strlit("/v1/fallback");
    reveal_strlit("/v1/health");
    reveal_strlit("/v1/keys");
    reveal_strlit("/v1/marketplace");
    reveal_strlit("/v1/models");
    reveal_strlit("/v1/models/swap");
    reveal_strlit("/v1/telemetry");
    reveal_strlit("/v1/tunnel/toggle");
    reveal_strlit("GET");
    reveal_strlit("POST");
    assert("/chat/completions"@.len() == 17);
    assert("/embeddings"@.len() == 11);
    assert("/health"@.len() == 7);
    assert("/models"@.len() == 7);
    assert("/v1/audit-logs"@.len() == 14);
    assert("/v1/chat/completions"@.len() == 20);
    assert("/v1/domain/verify"@.len() == 17);
    assert("/v1/embeddings"@.len() == 14);
    assert("/v1/fallback"@.len() == 12);
    assert("/v1/health"@.len() == 10);
    assert("/v1/keys"@.len() == 8);
    assert("/v1/marketplace"@.len() == 15);
    assert("/v1/models"@.len() == 10);
    assert("/v1/models/swap"@.len() == 15);
    assert("/v1/telemetry"@.len() == 13);
    assert("/v1/tunnel/toggle"@.len() == 17);
    assert("GET"@.len() == 3);
    assert("POST"@.len() == 4);
    assert("/v1/marketplace"@[5] != "/v1/models/swap"@[5]);
}

proof fn lemma_route_post_v1_marketplace()
    ensures
        route_of("POST"@, "/v1/marketplace"@) == Some(Route::ToggleMarketplace),
{
    reveal_strlit("/chat/completions");
    reveal_strlit("/embeddings");
    reveal_strlit("/health");
    reveal_strlit("/models");
    reveal_strlit("/v1/audit-logs");
    reveal_strlit("/v1/chat/completions");
    reveal_strlit("/v1/domain/verify");
    reveal_strlit("/v1/embeddings");
    reveal_strlit("/v1/fallback");
    reveal_strlit("/v1/health");
    reveal_strlit("/v1/keys");
    reveal_strlit("/v1/marketplace");
    reveal_strlit("/v1/models");
    reveal_strlit("/v1/models/swap");
    reveal_strlit("/v1/telemetry");
    reveal_strlit("/v1/tunnel/toggle");
    reveal_strlit("GET");
    reveal_strlit("POST");
    assert("/chat/completions"@.len() == 17);
    assert("/embeddings"@.len() == 11);
    assert("/health"@.len() == 7);
    assert("/models"@.len() == 7);
    assert("/v1/audit-logs"@.len() == 14);
    assert("/v1/chat/completions"@.len() == 20);
    assert("/v1/domain/verify"@.len() == 17);
    assert("/v1/embeddings"@.len() == 14);
    assert("/v1/fallback"@.len() == 12);
    assert("/v1/health"@.len() == 10);
    assert("/v1/keys"@.len() == 8);
    assert("/v1/marketplace"@.len() == 15);
    assert("/v1/models"@.len() == 10);
    assert("/v1/models/swap"@.len() == 15);
    assert("/v1/telemetry"@.len() == 13);
    assert("/v1/tunnel/toggle"@.len() == 17);
    assert("GET"@.len() == 3);
    assert("POST"@.len() == 4);
    assert("/v1/marketplace"@[5] != "/v1/models/swap"@[5]);
}

proof fn lemma_route_post_v1_tunnel_toggle()
    ensures
        route_of("POST"@, "/v1/tunnel/toggle"@) == Some(Route::ToggleTunnel),
{
    reveal_strlit("/chat/completions");
    reveal_strlit("/embeddings");
    reveal_strlit("/health");
    reveal_strlit("/models");
    reveal_strlit("/v1/audit-logs");
    reveal_strlit("/v1/chat/completions");
    reveal_strlit("/v1/domain/verify");
    reveal_strlit("/v1/embeddings");
    reveal_strlit("/v1/fallback");
    reveal_strlit("/v1/health");
    reveal_strlit("/v1/keys");
    reveal_strlit("/v1/marketplace");
    reveal_strlit("/v1/models");
    reveal_strlit("/v1/models/swap");
    reveal_strlit("/v1/telemetry");
    reveal_strlit("/v1/tunnel/toggle");
    reveal_strlit("GET");
    reveal_strlit("POST");
    assert("/chat/completions"@.len() == 17);
    assert("/embeddings"@.len() == 11);
    assert("/health"@.len() == 7);
    assert("/models"@.len() == 7);
    assert("/v1/audit-logs"@.len() == 14);
    assert("/v1/chat/completions"@.len() == 20);
    assert("/v1/domain/verify"@.len() == 17);
    assert("/v1/embeddings"@.len() == 14);
    assert("/v1/fallback"@.len() == 12);
    assert("/v1/health"@.len() == 10);
    assert("/v1/keys"@.len() == 8);
    assert("/v1/marketplace"@.len() == 15);
    assert("/v1/models"@.len() == 10);
    assert("/v1/models/swap"@.len() == 15);
    assert("/v1/telemetry"@.len() == 13);
    assert("/v1/tunnel/toggle"@.len() == 17);
    assert("GET"@.len() == 3);
    assert("POST"@.len() == 4);
    assert("/v1/tunnel/toggle"@[1] != "/chat/completions"@[1]);
    assert("/v1/tunnel/toggle"@[4] != "/v1/domain/verify"@[4]);
}

proof fn lemma_route_post_v1_domain_verify()
    ensures
        route_of("POST"@, "/v1/domain/verify"@) == Some(Route::VerifyDomain),
{
    reveal_strlit("/chat/completions");
    reveal_strlit("/embeddings");
    reveal_strlit("/health");
    reveal_strlit("/models");
    reveal_strlit("/v1/audit-logs");
    reveal_strlit("/v1/chat/completions");
    reveal_strlit("/v1/domain/verify");
    reveal_strlit("/v1/embeddings");
    reveal_strlit("/v1/fallback");
    reveal_strlit("/v1/health");
    reveal_strlit("/v1/keys");
    reveal_strlit("/v1/marketplace");
    reveal_strlit("/v1/models");
    reveal_strlit("/v1/models/swap");
    reveal_strlit("/v1/telemetry");
    reveal_strlit("/v1/tunnel/toggle");
    reveal_strlit("GET");
    reveal_strlit("POST");
    assert("/chat/completions"@.len() == 17);
    assert("/embeddings"@.len() == 11);
    assert("/health"@.len() == 7);
    assert("/models"@.len() == 7);
    assert("/v1/audit-logs"@.len() == 14);
    assert("/v1/chat/completions"@.len() == 20);
    assert("/v1/domain/verify"@.len() == 17);
    assert("/v1/embeddings"@.len() == 14);
    assert("/v1/fallback"@.len() == 12);
    assert("/v1/health"@.len() == 10);
    assert("/v1/keys"@.len() == 8);
    assert("/v1/marketplace"@.len() == 15);
    assert("/v1/models"@.len() == 10);
    assert("/v1/models/swap"@.len() == 15);
    assert("/v1/telemetry"@.len() == 13);
    assert("/v1/tunnel/toggle"@.len() == 17);
    assert("GET"@.len() == 3);
    assert("POST"@.len() == 4);
    assert("/v1/domain/verify"@[1] != "/chat/completions"@[1]);
    assert("/v1/domain/verify"@[4] != "/v1/tunnel/toggle"@[4]);
}

proof fn lemma_route_get_v1_audit_logs()
    ensures
        route_of("GET"@, "/v1/audit-logs"@) == Some(Route::AuditLogs),
{
    reveal_strlit("/chat/completions");
    reveal_strlit("/embeddings");
    reveal_strlit("/health");
    reveal_strlit("/models");
    reveal_strlit("/v1/audit-logs");
    reveal_strlit("/v1/chat/completions");
    reveal_strlit("/v1/domain/verify");
    reveal_strlit("/v1/embeddings");
    reveal_strlit("/v1/fallback");
    reveal_strlit("/v1/health");
    reveal_strlit("/v1/keys");
    reveal_strlit("/v1/marketplace");
    reveal_strlit("/v1/models");
    reveal_strlit("/v1/models/swap");
    reveal_strlit("/v1/telemetry");
    reveal_strlit("/v1/tunnel/toggle");
    reveal_strlit("GET");
    reveal_strlit("POST");
    assert("/chat/completions"@.len() == 17);
    assert("/embeddings"@.len() == 11);
    assert("/health"@.len() == 7);
    assert("/models"@.len() == 7);
    assert("/v1/audit-logs"@.len() == 14);
    assert("/v1/chat/completions"@.len() == 20);
    assert("/v1/domain/verify"@.len() == 17);
    assert("/v1/embeddings"@.len() == 14);
    assert("/v1/fallback"@.len() == 12);
    assert("/v1/health"@.len() == 10);
    assert("/v1/keys"@.len() == 8);
    assert("/v1/marketplace"@.len() == 15);
    assert("/v1/models"@.len() == 10);
    assert("/v1/models/swap"@.len() == 15);
    assert("/v1/telemetry"@.len() == 13);
    assert("/v1/tunnel/toggle"@.len() == 17);
    assert("GET"@.len() == 3);
    assert("POST"@.len() == 4);
    assert("/v1/audit-logs"@[4] != "/v1/embeddings"@[4]);
}

/// The gateway's endpoint table: each documented method and path reaches
/// its endpoint (health and telemetry, the model list, embeddings and chat
/// completions under `/v1` and at the root, the model swap, key listing and
/// creation, the fallback and marketplace settings, the tunnel toggle, domain
/// verification and the audit log).
pub proof fn law_route_table()
    ensures
        route_of("GET"@, "/v1/health"@) == Some(Route::Health),
        route_of("GET"@, "/health"@) == Some(Route::Health),
        route_of("GET"@, "/v1/telemetry"@) == Some(Route::Health),
        route_of("GET"@, "/v1/models"@) == Some(Route::ListModels),
        route_of("GET"@, "/models"@) == Some(Route::ListModels),
        route_of("POST"@, "/v1/embeddings"@) == Some(Route::Embeddings),
        route_of("POST"@, "/embeddings"@) == Some(Route::Embeddings),
        route_of("POST"@, "/v1/chat/completions"@) == Some(Route::ChatCompletions),
        route_of("POST"@, "/chat/completions"@) == Some(Route::ChatCompletions),
        route_of("POST"@, "/v1/models/swap"@) == Some(Route::SwapModel),
        route_of("GET"@, "/v1/keys"@) == Some(Route::ListKeys),
        route_of("POST"@, "/v1/keys"@) == Some(Route::CreateKey),
        route_of("GET"@, "/v1/fallback"@) == Some(Route::GetFallback),
        route_of("POST"@, "/v1/fallback"@) == Some(Route::SetFallback),
        route_of("GET"@, "/v1/marketplace"@) == Some(Route::GetMarketplace),
        route_of("POST"@, "/v1/marketplace"@) == Some(Route::ToggleMarketplace),
        route_of("POST"@, "/v1/tunnel/toggle"@) == Some(Route::ToggleTunnel),
        route_of("POST"@, "/v1/domain/verify"@) == Some(Route::VerifyDomain),
        route_of("GET"@, "/v1/audit-logs"@) == Some(Route::AuditLogs),
{
    lemma_route_get_v1_health();
    lemma_route_get_health();
    lemma_route_get_v1_telemetry();
    lemma_route_get_v1_models();
    lemma_route_get_models();
    lemma_route_post_v1_embeddings();
    lemma_route_post_embeddings();
    lemma_route_post_v1_chat_completions();
    lemma_route_post_chat_completions();
    lemma_route_post_v1_models_swap();
    lemma_route_get_v1_keys();
    lemma_route_post_v1_keys();
    lemma_route_get_v1_fallback();
    lemma_route_post_v1_fallback();
    lemma_route_get_v1_marketplace();
    lemma_route_post_v1_marketplace();
    lemma_route_post_v1_tunnel_toggle();
    lemma_route_post_v1_domain_verify();
    lemma_route_get_v1_audit_logs();
}

/// The endpoint for `method` on `path`.
pub fn route_for(method: &str, path: &str) -> (r: Option<Route>)
    ensures
        r == route_of(method@, path@),
{
    let get = is_text(method, "GET");
    let post = is_text(method, "POST");
    if get && (is_text(path, "/v1/health") || is_text(path, "/health") || is_text(path, "/v1/telemetry")) {
        Some(Route::Health)
    } else if get && (is_text(path, "/v1/models") || is_text(path, "/models")) {
        Some(Route::ListModels)
    } else if post && (is_text(path, "/v1/embeddings") || is_text(path, "/embeddings")) {
        Some(Route::Embeddings)
    } else if post && (is_text(path, "/v1/chat/completions") || is_text(path, "/chat/completions")) {
        Some(Route::ChatCompletions)
    } else if post && is_text(path, "/v1/models/swap") {
        Some(Route::SwapModel)
    } else if get && is_text(path, "/v1/keys") {
        Some(Route::ListKeys)
    } else if post && is_text(path, "/v1/keys") {
        Some(Route::CreateKey)
    } else if get && is_text(path, "/v1/fallback") {
        Some(Route::GetFallback)
    } else if post && is_text(path, "/v1/fallback") {
        Some(Route::SetFallback)
    } else if get && is_text(path, "/v1/marketplace") {
        Some(Route::GetMarketplace)
    } else if post && is_text(path, "/v1/marketplace") {
        Some(Route::ToggleMarketplace)
    } else if post && is_text(path, "/v1/tunnel/toggle") {
        Some(Route::ToggleTunnel)
    } else if post && is_text(path, "/v1/domain/verify") {
        Some(Route::VerifyDomain)
    } else if get && is_text(path, "/v1/audit-logs") {
        Some(Route::AuditLogs)
    } else {
        None
    }
}

/// The method and path of a request: the first two words of its first line.
pub open spec fn request_target(raw: Seq<char>) -> Option<(Seq<char>, Seq<char>)> {
    let ls = lines(raw);
    if ls.len() == 0 {
        None
    } else {
        let ws = words(ls[0]);
        if ws.len() < 2 {
            None
        } else {
            Some((ws[0], ws[1]))
        }
    }
}

/// The method and path of `raw_req`, if its first line has two words.
pub fn request_line(raw_req: &str) -> (r: Option<(String, String)>)
    ensures
        match r {
            Some((m, p)) => request_target(raw_req@) == Some((m@, p@)),
            None => request_target(raw_req@) is None,
        },
{
    let v = chars_of(raw_req);
    let ranges = line_ranges(&v);
    if ranges.len() == 0 {
        return None;
    }
    let (a, b) = ranges[0];
    let wr = word_ranges(&v, a, b);
    if wr.len() < 2 {
        return None;
    }
    let (m0, m1) = wr[0];
    let (p0, p1) = wr[1];
    Some((string_from_range(&v, m0, m1), string_from_range(&v, p0, p1)))
}

/// The body of the 403 answer to an untrusted origin.
pub open spec fn forbidden_body() -> Seq<char> {
    "{\"error\":{\"message\":\"Forbidden origin\",\"type\":\"origin_error\"}}"@
}

/// The body of the 401 answer to a request without the active key.
pub open spec fn unauthorized_body() -> Seq<char> {
    "{\"error\":{\"message\":\"Unauthorized: Invalid or missing API key\",\"type\":\"auth_error\"}}"@
}

/// The body of the 404 answer to an unknown endpoint.
pub open spec fn not_found_body() -> Seq<char> {
    "{\"error\":{\"message\":\"Endpoint not found\"}}"@
}

/// Whether `d` is what the gateway does with `raw` while `key` is active:
/// 400 without a method and path; the CORS answer to OPTIONS; 403 for an
/// untrusted origin; 401 for an inference call without the key; the
/// endpoint's handler; 404 otherwise.
pub open spec fn dispatched(raw: Seq<char>, key: Option<Seq<char>>, d: Dispatch) -> bool {
    match request_target(raw) {
        None => d matches Dispatch::Respond(s) && s@ == http_response_text(400, "Bad Request"@),
        Some((method, path)) => if method == "OPTIONS"@ {
            d matches Dispatch::Respond(s) && s@ == cors_response_text(raw)
        } else if !trusted_spec(raw) {
            d matches Dispatch::Respond(s) && s@ == json_response_text(403, forbidden_body())
        } else if requires_key_spec(method, path) && !authorized_spec(raw, key) {
            d matches Dispatch::Respond(s) && s@ == json_response_text(401, unauthorized_body())
        } else {
            match route_of(method, path) {
                Some(r) => d == Dispatch::Handle(r),
                None => d matches Dispatch::Respond(s) && s@ == json_response_text(
                    404,
                    not_found_body(),
                ),
            }
        },
    }
}

/// The gateway runs an inference endpoint (chat completions or embeddings)
/// only for a trusted request that presents the active key.
pub proof fn law_inference_needs_key(raw: Seq<char>, key: Option<Seq<char>>, d: Dispatch)
    requires
        dispatched(raw, key, d),
        d == Dispatch::Handle(Route::ChatCompletions) || d == Dispatch::Handle(Route::Embeddings),
    ensures
        trusted_spec(raw),
        authorized_spec(raw, key),
{
}

/// With no active key, every trusted request for a known endpoint reaches
/// that endpoint (a CORS preflight excepted).
pub proof fn law_open_without_key(raw: Seq<char>, method: Seq<char>, path: Seq<char>, r: Route, d: Dispatch)
    requires
        dispatched(raw, None, d),
        request_target(raw) == Some((method, path)),
        method != "OPTIONS"@,
        trusted_spec(raw),
        route_of(method, path) == Some(r),
    ensures
        d == Dispatch::Handle(r),
{
}

/// A request for an inference endpoint that does not present the active key
/// is answered 401 and never reaches the endpoint.
pub proof fn law_wrong_key_refused(raw: Seq<char>, key: Seq<char>, method: Seq<char>, path: Seq<char>, d: Dispatch)
    requires
        dispatched(raw, Some(key), d),
        request_target(raw) == Some((method, path)),
        method != "OPTIONS"@,
        trusted_spec(raw),
        requires_key_spec(method, path),
        !authorized_spec(raw, Some(key)),
    ensures
        d matches Dispatch::Respond(s) && s@ == json_response_text(401, unauthorized_body()),
{
}

/// What the gateway does with `raw_req` given its active key and model.
pub fn dispatch_request(raw_req: &str, runtime: &ServerRuntimeState) -> (d: Dispatch)
    ensures
        dispatched(
            raw_req@,
            match runtime.active_key {
                Some(k) => Some(k@),
                None => None,
            },
            d,
        ),
{
    let (method, path) = match request_line(raw_req) {
        Some(mp) => mp,
        None => {
            return Dispatch::Respond(build_http_response(400, "Bad Request"));
        },
    };
    if is_text(method.as_str(), "OPTIONS") {
        return Dispatch::Respond(build_cors_response(raw_req));
    }
    if !is_trusted_origin(raw_req) {
        return Dispatch::Respond(
            build_json_response(
                403,
                "{\"error\":{\"message\":\"Forbidden origin\",\"type\":\"origin_error\"}}",
            ),
        );
    }
    if requires_api_key(method.as_str(), path.as_str()) && !authorized(raw_req, &runtime.active_key) {
        return Dispatch::Respond(
            build_json_response(
                401,
                "{\"error\":{\"message\":\"Unauthorized: Invalid or missing API key\",\"type\":\"auth_error\"}}",
            ),
        );
    }
    match route_for(method.as_str(), path.as_str()) {
        Some(r) => Dispatch::Handle(r),
        None => Dispatch::Respond(
            build_json_response(404, "{\"error\":{\"message\":\"Endpoint not found\"}}"),
        ),
    }
}

/// The first position at or after `i` where `p` occurs in `s`, or -1.
pub open spec fn occurrence_from(s: Seq<char>, p: Seq<char>, i: int) -> int
    decreases s.len() + 1 - i,
{
    if i < 0 || i + p.len() > s.len() {
        -1
    } else if occurs_at(s, p, i) {
        i
    } else {
        occurrence_from(s, p, i + 1)
    }
}

/// The body of a raw request: what follows the first blank line, or the whole
/// text when there is none.
pub open spec fn body_of(raw: Seq<char>) -> Seq<char> {
    let k = occurrence_from(raw, "\r\n\r\n"@, 0);
    if k >= 0 {
        raw.skip(k + 4)
    } else {
        raw
    }
}

/// The body of `raw_req`.
pub fn request_body(raw_req: &str) -> (b: String)
    ensures
        b@ == body_of(raw_req@),
{
    let v = chars_of(raw_req);
    let sep = chars_of("\r\n\r\n");
    proof {
        reveal_strlit("\r\n\r\n");
    }
    let n = v.len();
    let mut i: usize = 0;
    while n >= 4 && i <= n - 4 && !matches_at(&v, &sep, i)
        invariant
            n == v@.len(),
            v@ == raw_req@,
            sep@ == "\r\n\r\n"@,
            sep@.len() == 4,
            i <= n,
            occurrence_from(v@, sep@, 0) == occurrence_from(v@, sep@, i as int),
        decreases n - i,
    {
        i = i + 1;
    }
    if n >= 4 && i <= n - 4 {
        assert(occurrence_from(v@, sep@, i as int) == i);
        let b = string_from_range(&v, i + 4, n);
        assert(v@.subrange(i + 4, n as int) == v@.skip(i + 4));
        b
    } else {
        assert(occurrence_from(v@, sep@, i as int) == -1);
        String::from_str(raw_req)
    }
}

} // verus!
