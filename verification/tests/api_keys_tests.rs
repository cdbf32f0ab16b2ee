use selfapi_agent::api_keys::generate::{generate_key_id, generate_secret_key, token_from_fill, KeyGenError};
use selfapi_agent::api_keys::prepare::{prepare_api_access, swap_api_access};
use selfapi_agent::api_keys::snippets::build_snippets;
use selfapi_agent::api_keys::storage::{apply_active_key, local_endpoint_url, stored_key_listing};
use selfapi_agent::api_keys::types::{ApiKeyStore, StoredApiKey, DEFAULT_LOCAL_PORT};
use selfapi_agent::models::types::InstalledModel;

fn key(id: &str, model: &str) -> StoredApiKey {
    StoredApiKey {
        key_id: id.to_string(),
        name: String::new(),
        secret_key: format!("sk-selfapi-{}", id),
        endpoint_url: "http://127.0.0.1:8787/v1".to_string(),
        custom_domain: None,
        scope: "inference:all".to_string(),
        rate_limit_rpm: 60,
        spend_cap_usd_cents: 5000,
        model_id: model.to_string(),
        model_name: model.to_string(),
        created_at: "2024-01-01T00:00:00+00:00".to_string(),
    }
}

#[test]
fn secret_key_has_expected_prefix() {
    let key = generate_secret_key().expect("random source");
    assert!(key.starts_with("sk-selfapi-"));
    assert!(key.len() > 20);
}

#[test]
fn prepare_api_access_returns_snippets() {
    let grant = prepare_api_access("llama-3.2-3b-instruct", &Some(Vec::new()), None).expect("api access");
    let response = grant.response;
    assert_eq!(response.model_id, "llama-3.2-3b-instruct");
    assert!(response.secret_key.starts_with("sk-selfapi-"));
    assert_eq!(response.snippets.len(), 5);
}

#[test]
fn prepare_api_access_handles_scanned_models() {
    let grant = prepare_api_access("ollama-llama3.2-latest", &Some(Vec::new()), None).expect("scanned model access");
    let response = grant.response;
    assert_eq!(response.model_id, "ollama-llama3.2-latest");
    assert!(response.secret_key.starts_with("sk-selfapi-"));
}

#[test]
fn snippets_include_model_and_key() {
    let snippets = build_snippets("http://127.0.0.1:8787/v1", "sk-selfapi-test", "qwen2.5-7b-instruct");

    assert_eq!(snippets.len(), 5);
    assert!(snippets[0].code.contains("sk-selfapi-test"));
    assert!(snippets[1].code.contains("qwen2.5-7b-instruct"));
    assert!(snippets[3].code.contains("embeddings"));
    assert!(snippets[4].code.contains("OPENAI_API_BASE_URL"));
}

#[test]
fn local_endpoint_uses_default_port() {
    assert_eq!(local_endpoint_url(DEFAULT_LOCAL_PORT), "http://127.0.0.1:8787/v1");
}

#[test]
fn local_endpoint_other_port() {
    assert_eq!(local_endpoint_url(9), "http://127.0.0.1:9/v1");
}

#[test]
fn generated_secret_keys_are_random_hex() {
    let a = generate_secret_key().expect("random source");
    let b = generate_secret_key().expect("random source");
    assert_eq!(a.len(), "sk-selfapi-".len() + 48);
    assert!(a["sk-selfapi-".len()..].chars().all(|c| c.is_ascii_hexdigit() && !c.is_ascii_uppercase()));
    assert_ne!(a, b);
    assert_ne!(&a["sk-selfapi-".len()..], "0".repeat(48));
}

#[test]
fn generated_key_ids_have_prefix() {
    let id = generate_key_id().expect("random source");
    assert!(id.starts_with("key_"));
    assert_eq!(id.len(), 4 + 16);
}

#[test]
fn prepare_reuses_key_for_same_model() {
    let existing = key("abc", "qwen2.5-7b-instruct");
    let grant = prepare_api_access("qwen2.5-7b-instruct", &Some(Vec::new()), Some(existing)).expect("access");
    assert!(grant.record_to_save.is_none());
    assert_eq!(grant.response.secret_key, "sk-selfapi-abc");
    assert_eq!(grant.response.model_name, "qwen2.5-7b-instruct");
}

#[test]
fn prepare_issues_new_key_for_other_model() {
    let existing = key("abc", "phi-3.5-mini-instruct");
    let grant = prepare_api_access("qwen2.5-7b-instruct", &Some(Vec::new()), Some(existing)).expect("access");
    let rec = grant.record_to_save.expect("new record");
    assert_eq!(rec.model_id, "qwen2.5-7b-instruct");
    assert_eq!(rec.model_name, "Qwen2.5 7B Instruct");
    assert_eq!(rec.secret_key, grant.response.secret_key);
    assert_ne!(rec.secret_key, "sk-selfapi-abc");
}

#[test]
fn prepare_names_installed_and_scanned_models() {
    let installed = vec![InstalledModel {
        model_id: "custom-my-model.gguf".to_string(),
        model_name: "My Model.gguf".to_string(),
        quantization_id: "Custom GGUF".to_string(),
        filename: "My Model.gguf".to_string(),
        file_path: "/tmp/My Model.gguf".to_string(),
        file_size_bytes: 10,
        installed_at: "now".to_string(),
    }];
    let g = prepare_api_access("custom-my-model.gguf", &Some(installed), None).expect("access");
    assert_eq!(g.response.model_name, "My Model.gguf");
    let g = prepare_api_access("ollama-llama3.2-latest", &Some(Vec::new()), None).expect("access");
    assert_eq!(g.response.model_name, "Ollama: llama3.2-latest");
    let g = prepare_api_access("ollama-llama3.2-latest", &None, None).expect("access");
    assert_eq!(g.response.model_name, "ollama-llama3.2-latest");
}

#[test]
fn saving_active_key_replaces_same_id() {
    let store = ApiKeyStore { local_port: 9999, active_key: None, keys: vec![key("a", "m1"), key("b", "m2"), key("a", "m3")] };
    let saved = apply_active_key(store, key("a", "m4"));
    assert_eq!(saved.local_port, DEFAULT_LOCAL_PORT);
    assert_eq!(saved.active_key.as_ref().map(|k| k.model_id.clone()), Some("m4".to_string()));
    let ids: Vec<(String, String)> = saved.keys.iter().map(|k| (k.key_id.clone(), k.model_id.clone())).collect();
    assert_eq!(ids, vec![("b".to_string(), "m2".to_string()), ("a".to_string(), "m4".to_string())]);
}

#[test]
fn listing_falls_back_to_active_key() {
    let store = ApiKeyStore { local_port: 8787, active_key: Some(key("x", "m")), keys: Vec::new() };
    let listed = stored_key_listing(&store);
    assert_eq!(listed.len(), 1);
    assert_eq!(listed[0].key_id, "x");
    let empty = ApiKeyStore { local_port: 8787, active_key: None, keys: Vec::new() };
    assert!(stored_key_listing(&empty).is_empty());
}

#[test]
fn token_follows_the_random_source() {
    let buf: Vec<u8> = vec![0x00, 0xab, 0x7f];
    assert_eq!(token_from_fill(Ok(()), &buf), Ok("00ab7f".to_string()));
    assert_eq!(token_from_fill(Err(getrandom::Error::UNSUPPORTED), &buf), Err(KeyGenError::RandomSourceUnavailable));
}

#[test]
fn hot_swap_keeps_the_active_key() {
    let existing = key("abc", "phi-3.5-mini-instruct");
    let grant = swap_api_access("qwen2.5-7b-instruct", &Some(Vec::new()), Some(existing)).expect("access");
    let rec = grant.record_to_save.expect("re-pointed record");
    assert_eq!(rec.key_id, "abc");
    assert_eq!(rec.secret_key, "sk-selfapi-abc");
    assert_eq!(rec.model_id, "qwen2.5-7b-instruct");
    assert_eq!(rec.model_name, "Qwen2.5 7B Instruct");
    assert_eq!(grant.response.secret_key, "sk-selfapi-abc");
    let store = ApiKeyStore { local_port: 8787, active_key: Some(key("abc", "phi-3.5-mini-instruct")), keys: vec![key("abc", "phi-3.5-mini-instruct")] };
    let saved = apply_active_key(store, rec);
    assert_eq!(saved.keys.len(), 1);
    assert_eq!(saved.active_key.as_ref().map(|k| k.secret_key.clone()), Some("sk-selfapi-abc".to_string()));
    let fresh = swap_api_access("qwen2.5-7b-instruct", &Some(Vec::new()), None).expect("access");
    assert!(fresh.record_to_save.expect("new").secret_key.starts_with("sk-selfapi-"));
}
