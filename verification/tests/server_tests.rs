use selfapi_agent::json::JsonValue;
use selfapi_agent::hardware::types::{GpuDevice, HardwareProfile, GIB};
use selfapi_agent::server::handlers::{
    chat_completion_at, embedding_input, embedding_residues, fallback_config_from_body, handle_chat,
    health_response, is_valid_domain, new_key_name, requests_handled_label, verify_domain,
};
use selfapi_agent::server::http::{authorized, bearer_token, build_json_response, header_value, reason_phrase};
use selfapi_agent::server::manager::{ServerManager, ServerRuntimeState};
use selfapi_agent::server::reading::{assess_request, ReadProgress};
use selfapi_agent::server::routes::{dispatch_request, request_body, Dispatch, Route};
use selfapi_agent::server::types::{ChatCompletionRequest, ChatMessageInput, ToolDefinition, ToolFunction};

fn runtime(key: Option<&str>) -> ServerRuntimeState {
    ServerRuntimeState { active_key: key.map(|k| k.to_string()), active_model: "test-model".to_string() }
}

fn respond_text(d: Dispatch) -> String {
    match d {
        Dispatch::Respond(s) => s,
        Dispatch::Handle(r) => panic!("handled {:?}", r),
    }
}

fn user_request(text: &str, tools: bool) -> Option<ChatCompletionRequest> {
    Some(ChatCompletionRequest {
        model: "m".to_string(),
        messages: vec![ChatMessageInput { role: "user".to_string(), content: JsonValue::String(text.to_string()) }],
        tools: if tools {
            Some(vec![ToolDefinition {
                tool_type: "function".to_string(),
                function: ToolFunction { name: "search".to_string(), description: None, parameters: None },
            }])
        } else {
            None
        },
    })
}

fn host(gpu: Option<&str>) -> HardwareProfile {
    let g = gpu.map(|name| GpuDevice {
        id: "gpu-0".to_string(),
        vendor: "nvidia".to_string(),
        name: name.to_string(),
        vram_bytes: Some(12 * GIB),
        driver_version: None,
        cuda_version: None,
        is_discrete: true,
        recommended_for_inference: true,
    });
    HardwareProfile {
        os: "linux".to_string(),
        cpu_model: Some("Test CPU".to_string()),
        total_ram_bytes: 16 * GIB,
        gpus: g.clone().into_iter().collect(),
        primary_gpu: g,
        capability_summary: String::new(),
        detected_at: "now".to_string(),
    }
}

#[test]
fn parses_health_check() {
    let runtime = runtime(None);
    let d = dispatch_request("GET /v1/health HTTP/1.1\r\n\r\n", &runtime);
    assert!(matches!(d, Dispatch::Handle(Route::Health)));
    let resp = health_response(&runtime.active_model, 0, &host(Some("Test GPU")), "12.0", "3.0");
    assert!(resp.contains("200 OK"));
    assert!(resp.contains("SelfAPI"));
}

#[test]
fn health_body_in_key_order() {
    let resp = health_response("m\"x", 7, &host(None), "16.0", "4.0");
    let body = resp.split("\r\n\r\n").nth(1).expect("body");
    assert_eq!(
        body,
        "{\"active_model\":\"m\\\"x\",\"agent\":\"SelfAPI\",\"gpu_name\":\"Test CPU\",\"p95_latency_ms\":18,\"pending_payout_usd\":0.0,\"price_per_1m_tokens_usd\":0.0,\"public_tunnel_url\":\"http://127.0.0.1:8787/v1\",\"relay_region\":\"Local Direct Node\",\"requests_handled\":7,\"status\":\"ok\",\"tier\":\"Local Agent Node\",\"total_earnings_usd\":0.0,\"uptime_percentage\":100.0,\"vram_gb\":16.0,\"vram_used_gb\":4.0}"
    );
    let parsed: serde_json::Value = serde_json::from_str(body).expect("valid JSON");
    assert_eq!(parsed["requests_handled"], 7);
}

#[test]
fn tool_arguments_escape_control_characters() {
    let t = chat_completion_at(&user_request("x\u{1}\n\\", true), "m", 1);
    let calls = t.choices[0].message.tool_calls.clone().expect("calls");
    assert_eq!(calls[0].function.arguments, "{\"query\":\"x\\u0001\\n\\\\\"}");
}

#[test]
fn handles_unauthorized_request() {
    let d = dispatch_request(
        "POST /v1/chat/completions HTTP/1.1\r\nAuthorization: Bearer wrong-key\r\n\r\n",
        &runtime(Some("sk-selfapi-valid")),
    );
    let resp = respond_text(d);
    assert!(resp.contains("401"));
    assert!(resp.contains("Unauthorized"));
}

#[test]
fn right_key_reaches_chat() {
    let d = dispatch_request(
        "POST /v1/chat/completions HTTP/1.1\r\nauthorization:   Bearer sk-selfapi-valid  \r\n\r\n{}",
        &runtime(Some("sk-selfapi-valid")),
    );
    assert!(matches!(d, Dispatch::Handle(Route::ChatCompletions)));
    let d = dispatch_request("POST /v1/embeddings HTTP/1.1\r\n\r\n", &runtime(None));
    assert!(matches!(d, Dispatch::Handle(Route::Embeddings)));
    let d = dispatch_request("POST /embeddings HTTP/1.1\r\n\r\n", &runtime(Some("k")));
    assert!(respond_text(d).starts_with("HTTP/1.1 401 Unauthorized\r\n"));
}

#[test]
fn dispatch_edge_cases() {
    let bad = respond_text(dispatch_request("", &runtime(None)));
    assert!(bad.starts_with("HTTP/1.1 400 Bad Request"));
    let bad = respond_text(dispatch_request("GET\r\n\r\n", &runtime(None)));
    assert!(bad.contains("400"));
    let cors = respond_text(dispatch_request("OPTIONS /v1/models HTTP/1.1\r\nOrigin: http://localhost:3010\r\n\r\n", &runtime(Some("k"))));
    assert!(cors.contains("204"));
    assert!(cors.contains("http://localhost:3010"));
    let forbidden = respond_text(dispatch_request("GET /v1/models HTTP/1.1\r\nOrigin: http://evil.example\r\n\r\n", &runtime(None)));
    assert!(forbidden.contains("403"));
    assert!(forbidden.contains("Forbidden origin"));
    let missing = respond_text(dispatch_request("GET /nowhere HTTP/1.1\r\n\r\n", &runtime(None)));
    assert!(missing.contains("404"));
    assert!(missing.contains("Endpoint not found"));
    assert!(matches!(dispatch_request("GET /v1/keys HTTP/1.1\r\n\r\n", &runtime(Some("k"))), Dispatch::Handle(Route::ListKeys)));
}

#[test]
fn http_helpers() {
    assert_eq!(header_value("GET / HTTP/1.1\r\nX-Thing:  a b \r\n\r\n", "x-thing").as_deref(), Some("a b"));
    assert_eq!(bearer_token("GET / HTTP/1.1\r\nAuthorization: Bearer  k1 \r\n\r\n").as_deref(), Some("k1"));
    assert_eq!(bearer_token("GET / HTTP/1.1\r\nAuthorization: Bearer \r\n\r\n").as_deref(), Some("Bearer"));
    assert!(bearer_token("GET / HTTP/1.1\r\nAuthorization:   \r\n\r\n").is_none());
    assert!(authorized("GET / HTTP/1.1\r\n\r\n", &None));
    assert!(!authorized("GET / HTTP/1.1\r\n\r\n", &Some("k".to_string())));
    assert_eq!(reason_phrase(404), "Not Found");
    assert_eq!(request_body("POST / HTTP/1.1\r\n\r\nhello"), "hello");
    let r = build_json_response(200, "{}");
    assert!(r.starts_with("HTTP/1.1 200 OK\r\n"));
    assert!(r.contains("Content-Length: 2\r\n"));
    assert!(r.ends_with("\r\n\r\n{}"));
}

#[test]
fn request_assessment() {
    assert!(matches!(assess_request(&b"GET / HTTP/1.1\r\n".to_vec()), ReadProgress::NeedMore));
    assert!(matches!(assess_request(&b"GET / HTTP/1.1\r\n\r\n".to_vec()), ReadProgress::Complete));
    assert!(matches!(assess_request(&b"POST / HTTP/1.1\r\nContent-Length: 5\r\n\r\nab".to_vec()), ReadProgress::NeedMore));
    assert!(matches!(assess_request(&b"POST / HTTP/1.1\r\nContent-Length: 5\r\n\r\nabcde".to_vec()), ReadProgress::Complete));
    assert!(matches!(assess_request(&vec![b'a'; 10 * 1024 * 1024 + 1]), ReadProgress::TooLarge));
}

#[test]
fn chat_replies() {
    let r = chat_completion_at(&user_request("hi", false), "test-model", 1700000000);
    assert_eq!(r.id, "chatcmpl-selfapi-1700000000");
    assert_eq!(r.object, "chat.completion");
    assert_eq!(r.created, 1700000000);
    let content = r.choices[0].message.content.clone().expect("content");
    assert_eq!(
        content,
        "SelfAPI Local Model (test-model): I received your message: \"hi\". Running privately on your local GPU/CPU."
    );
    assert_eq!(r.choices[0].finish_reason, "stop");
    let t = chat_completion_at(&user_request("a \"q\"", true), "test-model", 5);
    let calls = t.choices[0].message.tool_calls.clone().expect("calls");
    assert_eq!(calls[0].function.name, "search");
    assert_eq!(calls[0].function.arguments, "{\"query\":\"a \\\"q\\\"\"}");
    assert_eq!(calls[0].id, "call_5");
    assert_eq!(t.choices[0].finish_reason, "tool_calls");
}

#[test]
fn handled_chat_counts_request() {
    let mut server = ServerManager::new(8787);
    let r = handle_chat(&mut server, &None);
    assert!(r.id.starts_with("chatcmpl-selfapi-"));
    assert!(r.created > 1_600_000_000);
    assert_eq!(server.requests_handled(), 1);
    assert_eq!(requests_handled_label(server.requests_handled()), "1 requests handled");
}

#[test]
fn embeddings_input_and_vector() {
    let body = Some(JsonValue::Object(vec![(
        "input".to_string(),
        JsonValue::Array(vec![JsonValue::String("a".to_string()), JsonValue::Null, JsonValue::String("b".to_string())]),
    )]));
    assert_eq!(embedding_input(&body), "a  b");
    assert_eq!(embedding_input(&None), "SelfAPI local embedding vector");
    let v = embedding_residues("ab");
    assert_eq!(v.len(), 384);
}

#[test]
fn bodies_with_defaults() {
    assert_eq!(new_key_name(&None), "Generated Key");
    let cfg = fallback_config_from_body(&Some(JsonValue::Object(vec![
        ("enabled".to_string(), JsonValue::Bool(false)),
        ("latency_threshold_ms".to_string(), JsonValue::Number(Some(900))),
    ])));
    assert!(!cfg.enabled);
    assert_eq!(cfg.latency_threshold_ms, 900);
    assert_eq!(cfg.provider, "groq");
    assert!(is_valid_domain("api.example.com"));
    assert!(!is_valid_domain("no_dots"));
    let v = verify_domain(&None);
    assert_eq!(v.domain, "api.mycompany.com");
}
