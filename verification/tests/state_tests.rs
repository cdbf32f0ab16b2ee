use selfapi_agent::fallback::router::{FallbackConfig, FallbackRouter};
use selfapi_agent::hardware::types::{GpuDevice, HardwareProfile, GIB};
use selfapi_agent::marketplace::host::MarketplaceManager;
use selfapi_agent::models::types::InstalledModel;
use selfapi_agent::runtime::executor::{compute_gpu_layers, runner_label, ModelExecutor};
use selfapi_agent::runtime::hotswap::{installed_target, HotSwapManager};
use selfapi_agent::tunnel::client::TunnelClient;

fn profile(vram: Option<u64>, fit: bool) -> HardwareProfile {
    let gpu = GpuDevice {
        id: "gpu-0".to_string(),
        vendor: "nvidia".to_string(),
        name: "Test GPU".to_string(),
        vram_bytes: vram,
        driver_version: None,
        cuda_version: None,
        is_discrete: true,
        recommended_for_inference: fit,
    };
    HardwareProfile {
        os: "linux".to_string(),
        cpu_model: Some("Test CPU".to_string()),
        total_ram_bytes: 16 * GIB,
        gpus: vec![gpu.clone()],
        primary_gpu: Some(gpu),
        capability_summary: String::new(),
        detected_at: "now".to_string(),
    }
}

fn installed(id: &str) -> InstalledModel {
    InstalledModel {
        model_id: id.to_string(),
        model_name: format!("{} name", id),
        quantization_id: "Q4_K_M".to_string(),
        filename: format!("{}.gguf", id),
        file_path: format!("/models/{}.gguf", id),
        file_size_bytes: 100,
        installed_at: "now".to_string(),
    }
}

#[test]
fn fallback_triggers_on_offline_or_latency() {
    let mut router = FallbackRouter::new();
    assert!(router.should_fallback(true, 100));
    assert!(router.should_fallback(false, 3000));
    assert!(!router.should_fallback(false, 500));
}

#[test]
fn fallback_counts_and_remembers_decisions() {
    let mut router = FallbackRouter::new();
    assert_eq!(router.get_status().fallback_requests_count, 14);
    assert!(router.should_fallback(false, 2501));
    let s = router.get_status();
    assert!(s.active_fallback);
    assert_eq!(s.fallback_requests_count, 15);
    assert!(!router.should_fallback(false, 2500));
    let s = router.get_status();
    assert!(!s.active_fallback);
    assert_eq!(s.fallback_requests_count, 15);
}

#[test]
fn disabled_fallback_never_triggers() {
    let mut router = FallbackRouter::new();
    let cfg = FallbackConfig {
        enabled: false,
        provider: "openai".to_string(),
        model: "gpt".to_string(),
        latency_threshold_ms: 10,
        api_key: None,
    };
    let s = router.set_config(cfg);
    assert!(!s.config.enabled);
    assert_eq!(s.config.provider, "openai");
    assert_eq!(s.config.latency_threshold_ms, 10);
    assert!(!router.should_fallback(true, 100000));
    assert_eq!(router.get_status().fallback_requests_count, 14);
    assert!(!router.get_status().active_fallback);
}

#[test]
fn default_fallback_config() {
    let c = FallbackConfig::default();
    assert!(c.enabled);
    assert_eq!(c.provider, "groq");
    assert_eq!(c.model, "llama-3.3-70b-versatile");
    assert_eq!(c.latency_threshold_ms, 2500);
    assert_eq!(c.api_key.as_deref(), Some("gsk-selfapi-fallback-demo"));
}

#[test]
fn tunnel_client_formats_public_url() {
    let mut client = TunnelClient::new("test-node-123");
    assert_eq!(client.public_url(), "https://test-node-123.selfapi.site/v1");
    assert!(!client.get_status().connected);
    let toggled = client.toggle();
    assert!(toggled.connected);
}

#[test]
fn tunnel_toggle_twice_restores() {
    let mut client = TunnelClient::default();
    let first = client.toggle();
    let second = client.toggle();
    assert!(first.connected);
    assert!(!second.connected);
    assert_eq!(second.public_url, "https://gpu-node-9f82.selfapi.site/v1");
    assert_eq!(second.relay_node, "us-east-1.relay.selfapi.net");
    assert_eq!(second.ping_ms, 24);
    assert_eq!(second.bytes_proxied, 0);
}

#[test]
fn marketplace_manager_returns_reputation_and_earnings() {
    let mgr = MarketplaceManager::new();
    let status = mgr.get_status();
    assert!(!status.config.enabled);
    assert_eq!(status.reputation.tier, "Community Node");
    assert_eq!(status.total_earned_usd_cents, 0);
}

#[test]
fn marketplace_toggle_twice_restores() {
    let mut mgr = MarketplaceManager::new();
    let on = mgr.toggle_sharing();
    assert!(on.config.enabled);
    assert_eq!(on.config.price_per_1m_tokens_usd_cents, 20);
    assert_eq!(on.config.max_allocated_vram_deci_gb, 80);
    assert_eq!(on.reputation.uptime_basis_points, 10000);
    let off = mgr.toggle_sharing();
    assert!(!off.config.enabled);
}

#[test]
fn executor_initializes_empty() {
    let executor = ModelExecutor::new();
    assert!(executor.active_info().is_none());
}

#[test]
fn hotswap_manager_creates_empty() {
    let manager = HotSwapManager::new();
    assert!(manager.active_info().is_none());
}

#[test]
fn gpu_layers_follow_vram() {
    assert_eq!(compute_gpu_layers(&profile(Some(24 * GIB), true)), 99);
    assert_eq!(compute_gpu_layers(&profile(Some(16 * GIB), true)), 99);
    assert_eq!(compute_gpu_layers(&profile(Some(16 * GIB - 1), true)), 33);
    assert_eq!(compute_gpu_layers(&profile(Some(10 * GIB), true)), 33);
    assert_eq!(compute_gpu_layers(&profile(Some(8 * GIB), true)), 24);
    assert_eq!(compute_gpu_layers(&profile(Some(6 * GIB), true)), 12);
    assert_eq!(compute_gpu_layers(&profile(None, true)), 12);
    assert_eq!(compute_gpu_layers(&profile(Some(24 * GIB), false)), 0);
    let mut none = profile(None, false);
    none.primary_gpu = None;
    assert_eq!(compute_gpu_layers(&none), 0);
}

#[test]
fn runner_labels() {
    assert_eq!(runner_label(Some("llama-server")), "external (llama-server)");
    assert_eq!(runner_label(None), "embedded local runner");
}

#[test]
fn load_model_records_active_model() {
    let mut executor = ModelExecutor::new();
    let info = executor
        .load_model("m", "M", "Q4_K_M", "/m.gguf", true, "\"/m.gguf\"", &profile(Some(12 * GIB), true), runner_label(None))
        .expect("loaded");
    assert_eq!(info.offload_gpu_layers, 33);
    assert_eq!(info.status, "active");
    assert_eq!(executor.active_info().map(|i| i.model_id), Some("m".to_string()));
    let err = executor
        .load_model("n", "N", "Q4_K_M", "/n.gguf", false, "\"/n.gguf\"", &profile(Some(12 * GIB), true), String::new())
        .unwrap_err();
    assert_eq!(err, "Model file does not exist at \"/n.gguf\"");
    assert!(executor.active_info().is_none());
    executor.unload_current();
    assert!(executor.active_info().is_none());
}

#[test]
fn hot_swap_switches_only_to_installed_models() {
    let list = vec![installed("a"), installed("b")];
    let mut manager = HotSwapManager::new();
    let err = manager
        .hot_swap(&list, "c", true, "\"x\"", &profile(Some(8 * GIB), true), String::new())
        .unwrap_err();
    assert_eq!(err, "Model 'c' is not installed locally. Download it first.");
    assert!(manager.active_info().is_none());
    let info = manager
        .hot_swap(&list, "b", true, "\"/models/b.gguf\"", &profile(Some(8 * GIB), true), runner_label(Some("ollama")))
        .expect("swapped");
    assert_eq!(info.model_id, "b");
    assert_eq!(info.model_name, "b name");
    assert_eq!(info.file_path, "/models/b.gguf");
    assert_eq!(info.offload_gpu_layers, 24);
    assert_eq!(info.runner_type, "external (ollama)");
    assert_eq!(manager.active_info().map(|i| i.model_id), Some("b".to_string()));
    let still = manager.hot_swap(&list, "zzz", true, "", &profile(None, false), String::new());
    assert!(still.is_err());
    assert_eq!(manager.active_info().map(|i| i.model_id), Some("b".to_string()));
}

#[test]
fn installed_target_finds_first_match() {
    let mut second = installed("a");
    second.model_name = "second".to_string();
    let list = vec![installed("x"), installed("a"), second];
    let t = installed_target(&list, "a").expect("found");
    assert_eq!(t.model_name, "a name");
    assert!(installed_target(&Vec::new(), "a").is_err());
}
