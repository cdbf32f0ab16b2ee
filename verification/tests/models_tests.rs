use selfapi_agent::hardware::types::{GpuDevice, HardwareProfile, GIB};
use selfapi_agent::models::catalog::{curated_models, find_catalog_model, find_quantization};
use selfapi_agent::models::download::{
    after_fetch, begin_download, DownloadStart, FetchNext, completed_progress, compute_percent, failed_progress, initial_progress, requested_model_id,
    requested_quantization_id, reuse_existing, should_emit, status_failure_message, streaming_progress,
    DownloadState,
};
use selfapi_agent::models::recommend::{build_library, mark_default_model, pick_best_quantization, resolve_selection};
use selfapi_agent::models::scan::{add_custom_gguf, gguf_scanned_model, ollama_scanned_model};
use selfapi_agent::models::storage::{installed_model_ids, list_installed_models, register_installed_model};
use selfapi_agent::models::types::{CatalogModel, DownloadStatus, InstalledModel, ModelFit, QuantizationOption};

fn profile_with_vram(vram_gib: u64) -> HardwareProfile {
    let gpu = GpuDevice {
        id: "test-gpu".to_string(),
        vendor: "nvidia".to_string(),
        name: "Test GPU".to_string(),
        vram_bytes: Some(vram_gib * GIB),
        driver_version: Some("999".to_string()),
        cuda_version: Some("12.0".to_string()),
        is_discrete: true,
        recommended_for_inference: vram_gib >= 8,
    };
    HardwareProfile {
        os: "windows".to_string(),
        cpu_model: Some("Test CPU".to_string()),
        total_ram_bytes: 16 * GIB,
        primary_gpu: Some(gpu.clone()),
        gpus: vec![gpu],
        capability_summary: String::new(),
        detected_at: "2024-01-01T00:00:00+00:00".to_string(),
    }
}

fn installed(id: &str, path: &str) -> InstalledModel {
    InstalledModel {
        model_id: id.to_string(),
        model_name: id.to_string(),
        quantization_id: "Q4_K_M".to_string(),
        filename: format!("{}.gguf", id),
        file_path: path.to_string(),
        file_size_bytes: 7,
        installed_at: "t".to_string(),
    }
}

#[test]
fn recommends_7b_model_for_12gb_vram() {
    let mut library = build_library(&profile_with_vram(12), &Vec::new());
    mark_default_model(&mut library);
    let default = library.models.iter().find(|model| model.is_default).expect("default model");
    assert!(default.model.parameter_count_deci_b >= 70);
    assert!(default.model.parameter_count_deci_b <= 80);
    assert!(matches!(default.fit, ModelFit::Recommended));
}

#[test]
fn recommends_14b_model_for_16gb_vram() {
    let mut library = build_library(&profile_with_vram(16), &Vec::new());
    mark_default_model(&mut library);
    let default = library.models.iter().find(|model| model.is_default).expect("default model");
    assert!(default.model.parameter_count_deci_b >= 140);
    assert!(matches!(default.fit, ModelFit::Recommended));
}

#[test]
fn recommends_small_model_for_8gb_vram() {
    let mut library = build_library(&profile_with_vram(8), &Vec::new());
    mark_default_model(&mut library);
    let default = library.models.iter().find(|model| model.is_default).expect("default model");
    assert!(default.model.parameter_count_deci_b <= 70);
    assert!(matches!(default.fit, ModelFit::Recommended));
}

#[test]
fn library_has_single_default_and_marks_installed() {
    let mut library = build_library(&profile_with_vram(12), &vec!["phi-3.5-mini-instruct".to_string()]);
    assert_eq!(library.models.len(), 6);
    assert_eq!(library.available_vram_centibytes, 12 * (GIB as u128) * 100);
    mark_default_model(&mut library);
    assert_eq!(library.models.iter().filter(|m| m.is_default).count(), 1);
    let phi = library.models.iter().find(|m| m.model.id == "phi-3.5-mini-instruct").expect("phi");
    assert!(phi.installed);
    let default_id = library.default_model_id.clone().expect("default id");
    let d = library.models.iter().find(|m| m.is_default).expect("default");
    assert_eq!(d.model.id, default_id);
}

#[test]
fn catalog_lookup() {
    assert_eq!(curated_models().len(), 6);
    let m = find_catalog_model("qwen2.5-7b-instruct").expect("qwen");
    assert_eq!(m.name, "Qwen2.5 7B Instruct");
    assert!(find_quantization(&m, "Q4_K_M").is_some());
    assert!(find_quantization(&m, "Q9").is_none());
    assert!(find_catalog_model("nope").is_none());
}

#[test]
fn resolve_selection_errors() {
    let p = profile_with_vram(12);
    assert!(resolve_selection("llama-3.2-3b-instruct", "Q4_K_M", &p).is_ok());
    assert!(resolve_selection("unknown-model", "Q4_K_M", &p).is_err());
    let (m, q) = resolve_selection("llama-3.2-3b-instruct", "Q9_X", &p).expect("falls back to the recommended quantization");
    assert_eq!(m.id, "llama-3.2-3b-instruct");
    assert_eq!(q.id, "Q4_K_M");
    let err = resolve_selection("qwen2.5-14b-instruct", "Q4_K_M", &profile_with_vram(2)).unwrap_err();
    assert!(err.contains("requires more VRAM than your"));
}

#[test]
fn download_state_reads_back_writes() {
    let mut state = DownloadState::new();
    assert!(state.snapshot("a").is_none());
    state.set("a", initial_progress("a", "Q4_K_M", 1000));
    state.set("b", failed_progress("b", "Q8_0", 5, "boom"));
    let a = state.snapshot("a").expect("a");
    assert_eq!(a.status, DownloadStatus::Downloading);
    assert_eq!(a.total_bytes, Some(1000));
    state.set("a", streaming_progress("a", "Q4_K_M", 250, Some(1000)));
    let a = state.snapshot("a").expect("a");
    assert_eq!(a.bytes_downloaded, 250);
    assert_eq!(a.progress_basis_points, Some(2500));
    let b = state.snapshot("b").expect("b");
    assert_eq!(b.status, DownloadStatus::Failed);
    assert_eq!(b.error.as_deref(), Some("boom"));
    assert!(b.progress_basis_points.is_none());
}

#[test]
fn percent_values() {
    assert_eq!(compute_percent(0, None), None);
    assert_eq!(compute_percent(10, Some(0)), Some(0));
    assert_eq!(compute_percent(1, Some(3)), Some(3333));
    assert_eq!(compute_percent(3, Some(3)), Some(10000));
    assert_eq!(compute_percent(u64::MAX, Some(1)), Some(10000));
    assert_eq!(compute_percent(u64::MAX - 1, Some(u64::MAX)), Some(9999));
}

#[test]
fn emit_rule() {
    assert!(!should_emit(524288, 0, Some(10_000_000)));
    assert!(should_emit(524289, 0, Some(10_000_000)));
    assert!(should_emit(100, 50, Some(100)));
    assert!(should_emit(0, 0, None));
    assert!(!should_emit(5, 0, None));
}

#[test]
fn reuse_only_running_or_finished_jobs() {
    let running = initial_progress("a", "q", 1);
    assert!(reuse_existing(Some(running)).is_some());
    let done = completed_progress("a", "q", &installed("a", "/p"));
    assert_eq!(done.progress_basis_points, Some(10000));
    assert_eq!(done.file_path.as_deref(), Some("/p"));
    assert!(reuse_existing(Some(done)).is_some());
    assert!(reuse_existing(Some(failed_progress("a", "q", 1, "e"))).is_none());
    assert!(reuse_existing(None).is_none());
}

#[test]
fn failure_message_names_model() {
    assert_eq!(
        status_failure_message("404 Not Found", "qwen2.5-7b-instruct"),
        "Download failed with status 404 Not Found for Qwen2.5 7B Instruct. Check internet connectivity or try again."
    );
    assert_eq!(
        status_failure_message("500", "other"),
        "Download failed with status 500 for other. Check internet connectivity or try again."
    );
}

#[test]
fn request_defaults() {
    assert_eq!(requested_model_id(None), "llama-3.2-3b-instruct");
    assert_eq!(requested_model_id(Some("x".to_string())), "x");
    assert_eq!(requested_quantization_id(None), "Q4_K_M");
}

#[test]
fn scanned_model_records() {
    let o = ollama_scanned_model("llama3.2:latest", None);
    assert_eq!(o.id, "ollama-llama3.2-latest");
    assert_eq!(o.name, "Ollama — llama3.2:latest");
    assert_eq!(o.source, "Ollama API");
    assert_eq!(o.file_path, "ollama://llama3.2:latest");
    assert_eq!(o.size_bytes, 4_000_000_000);
    assert_eq!(ollama_scanned_model("m", Some(12)).size_bytes, 12);
    let g = gguf_scanned_model("My Model Q4.gguf", "/x/My Model Q4.gguf", 99);
    assert_eq!(g.id, "local-my-model-q4.gguf");
    assert_eq!(g.name, "My Model Q4.gguf");
    assert_eq!(g.source, "Local Disk GGUF");
}

#[test]
fn custom_gguf_entries() {
    let err = add_custom_gguf("/none.gguf", false, None).unwrap_err();
    assert_eq!(err, "File does not exist at /none.gguf");
    let e = add_custom_gguf("/a/Big Model.GGUF", true, Some("Big Model.GGUF".to_string())).expect("entry");
    assert_eq!(e.model_id, "custom-big-model.gguf");
    assert_eq!(e.model_name, "Big Model.GGUF");
    assert_eq!(e.quantization_id, "Custom GGUF");
    let e = add_custom_gguf("/", true, None).expect("entry");
    assert_eq!(e.filename, "custom_model.gguf");
    assert_eq!(e.model_id, "custom-custom_model.gguf");
}

#[test]
fn register_replaces_earlier_record() {
    let manifest = vec![installed("a", "/a1"), installed("b", "/b"), installed("a", "/a2")];
    let (rec, after) = register_installed_model(manifest, "a", "A", "Q8_0", "a.gguf", "/a3", 42);
    assert_eq!(rec.file_size_bytes, 42);
    assert!(!rec.installed_at.is_empty());
    let paths: Vec<&str> = after.iter().map(|m| m.file_path.as_str()).collect();
    assert_eq!(paths, vec!["/b", "/a3"]);
}

#[test]
fn listing_and_ids() {
    let records = vec![installed("a", "/a"), installed("b", "/b"), installed("a", "/a2")];
    let listed = list_installed_models(records, &vec![true, false, true]);
    assert_eq!(listed.len(), 2);
    assert_eq!(listed[1].file_path, "/a2");
    let ids = installed_model_ids(Ok(listed));
    assert_eq!(ids, vec!["a".to_string()]);
    assert!(installed_model_ids(Err("io".to_string())).is_empty());
}

fn quant(id: &str, deci: u32) -> QuantizationOption {
    QuantizationOption {
        id: id.to_string(),
        label: id.to_string(),
        min_vram_deci_gb: deci,
        file_size_bytes: 1,
        download_url: String::new(),
        filename: format!("{}.gguf", id),
    }
}

fn model_with(quants: Vec<QuantizationOption>) -> CatalogModel {
    CatalogModel {
        id: "m".to_string(),
        name: "M".to_string(),
        family: "F".to_string(),
        parameter_count_deci_b: 70,
        description: String::new(),
        quantizations: quants,
    }
}

#[test]
fn q4_k_m_chosen_when_it_fits() {
    let budget = 12 * (GIB as u128) * 100;
    let m = model_with(vec![quant("Q5_K_M", 60), quant("Q4_K_M", 50)]);
    assert_eq!(pick_best_quantization(&m, budget).map(|q| q.id), Some("Q4_K_M".to_string()));
    let big = model_with(vec![quant("Q4_K_M", 130), quant("Q3_K_S", 40), quant("Q3_K_L", 60)]);
    assert_eq!(pick_best_quantization(&big, budget).map(|q| q.id), Some("Q3_K_L".to_string()));
    let none_fit = model_with(vec![quant("Q8_0", 200), quant("Q6_K", 150)]);
    assert_eq!(pick_best_quantization(&none_fit, budget).map(|q| q.id), Some("Q8_0".to_string()));
    assert!(pick_best_quantization(&model_with(Vec::new()), budget).is_none());
}

#[test]
fn default_model_uses_q4_k_m() {
    let mut library = build_library(&profile_with_vram(12), &Vec::new());
    mark_default_model(&mut library);
    let d = library.models.iter().find(|m| m.is_default).expect("default");
    assert_eq!(d.recommended_quantization.id, "Q4_K_M");
    for m in &library.models {
        if m.fit != ModelFit::TooLarge && m.model.quantizations.iter().any(|q| q.id == "Q4_K_M") {
            assert_eq!(m.recommended_quantization.id, "Q4_K_M");
        }
    }
}

#[test]
fn catalog_shape() {
    let c = curated_models();
    assert_eq!(c.len(), 6);
    for (i, m) in c.iter().enumerate() {
        assert!(m.parameter_count_deci_b > 0);
        assert_eq!(m.quantizations[0].id, "Q4_K_M");
        for w in m.quantizations.windows(2) {
            assert!(w[0].min_vram_deci_gb < w[1].min_vram_deci_gb);
            assert_ne!(w[0].id, w[1].id);
        }
        assert!(m.quantizations.iter().all(|q| q.file_size_bytes > 0));
        for other in &c[i + 1..] {
            assert_ne!(m.id, other.id);
        }
    }
    let again = curated_models();
    assert_eq!(c.iter().map(|m| m.id.clone()).collect::<Vec<_>>(), again.iter().map(|m| m.id.clone()).collect::<Vec<_>>());
}

#[test]
fn download_steps() {
    let p = profile_with_vram(12);
    let running = initial_progress("qwen2.5-7b-instruct", "Q4_K_M", 5);
    assert!(matches!(begin_download(Some(running), "qwen2.5-7b-instruct", "Q4_K_M", &p), DownloadStart::Reuse(_)));
    match begin_download(Some(failed_progress("qwen2.5-7b-instruct", "Q4_K_M", 5, "e")), "qwen2.5-7b-instruct", "Q8_X", &p) {
        DownloadStart::Selected(m, q) => {
            assert_eq!(m.id, "qwen2.5-7b-instruct");
            assert_eq!(q.id, "Q4_K_M");
        }
        _ => panic!("expected a selection"),
    }
    match begin_download(None, "nope", "Q4_K_M", &p) {
        DownloadStart::Refused(e) => assert_eq!(e, "Unknown model: nope"),
        _ => panic!("expected a refusal"),
    }
    assert!(matches!(after_fetch("m", "q", 9, Ok(())), FetchNext::Register));
    match after_fetch("m", "q", 9, Err("net".to_string())) {
        FetchNext::Failed(p, e) => {
            assert_eq!(e, "net");
            assert_eq!(p.status, DownloadStatus::Failed);
            assert_eq!(p.total_bytes, Some(9));
            assert_eq!(p.error.as_deref(), Some("net"));
        }
        FetchNext::Register => panic!("expected a failure"),
    }
}
