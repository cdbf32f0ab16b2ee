use selfapi_agent::hardware::detect::{cpu_model_from_brand, rank_gpus};
use selfapi_agent::hardware::platform::{
    apple_silicon_device, controller_device, cuda_version_text, names_match, normalize_name, nvidia_device,
};
use selfapi_agent::hardware::types::{
    infer_vendor, is_software_adapter, recommended_for_inference, GpuDevice, GpuVendor, GIB,
};
use selfapi_agent::text::{replace_str, trimmed};

fn gpu(name: &str, vram: Option<u64>, discrete: bool) -> GpuDevice {
    GpuDevice {
        id: name.to_string(),
        vendor: "unknown".to_string(),
        name: name.to_string(),
        vram_bytes: vram,
        driver_version: None,
        cuda_version: None,
        is_discrete: discrete,
        recommended_for_inference: recommended_for_inference(vram),
    }
}

#[test]
fn vendors_from_names() {
    assert_eq!(infer_vendor("NVIDIA GeForce RTX 4090"), GpuVendor::Nvidia);
    assert_eq!(infer_vendor("Quadro P1000"), GpuVendor::Nvidia);
    assert_eq!(infer_vendor("AMD Radeon RX 7900"), GpuVendor::Amd);
    assert_eq!(infer_vendor("Intel(R) UHD Graphics"), GpuVendor::Intel);
    assert_eq!(infer_vendor("Apple M2"), GpuVendor::Apple);
    assert_eq!(infer_vendor("Matrox"), GpuVendor::Unknown);
    assert_eq!(GpuVendor::Amd.as_str(), "amd");
}

#[test]
fn software_adapters() {
    assert!(is_software_adapter("Microsoft Basic Display Adapter"));
    assert!(is_software_adapter("Meta Virtual Monitor"));
    assert!(!is_software_adapter("NVIDIA RTX A6000"));
}

#[test]
fn inference_threshold() {
    assert!(recommended_for_inference(Some(8 * GIB)));
    assert!(!recommended_for_inference(Some(8 * GIB - 1)));
    assert!(!recommended_for_inference(None));
}

#[test]
fn cuda_versions() {
    assert_eq!(cuda_version_text(12020), "12.2");
    assert_eq!(cuda_version_text(11080), "11.8");
    assert_eq!(cuda_version_text(-1500), "-1.-50");
}

#[test]
fn nvidia_records() {
    let d = nvidia_device(1, "RTX".to_string(), Some(12 * GIB), Some("550".to_string()), None);
    assert_eq!(d.id, "nvidia-1");
    assert_eq!(d.vendor, "nvidia");
    assert!(d.is_discrete);
    assert!(d.recommended_for_inference);
}

#[test]
fn controller_records() {
    let existing = vec!["NVIDIA GeForce RTX 3060".to_string()];
    assert!(controller_device(0, Some("GeForce RTX 3060".to_string()), Some(1 << 30), None, None, &existing).is_none());
    assert!(controller_device(0, Some("  ".to_string()), None, None, None, &existing).is_none());
    assert!(controller_device(0, None, None, None, None, &existing).is_none());
    assert!(controller_device(0, Some("Microsoft Basic Render Driver".to_string()), None, None, None, &existing).is_none());
    let d = controller_device(3, Some("Intel(R) Iris Xe".to_string()), Some(128 << 20), None, None, &existing).expect("kept");
    assert_eq!(d.id, "wmi-3");
    assert_eq!(d.vendor, "intel");
    assert!(!d.is_discrete);
    assert_eq!(d.vram_bytes, None);
    let d = controller_device(
        0,
        Some("AMD Radeon".to_string()),
        Some(1 << 30),
        Some("31.0".to_string()),
        Some("PCI\\VEN_1002".to_string()),
        &existing,
    )
    .expect("kept");
    assert_eq!(d.id, "PCI_VEN_1002");
    assert_eq!(d.vram_bytes, Some(1 << 30));
    assert!(d.is_discrete);
}

#[test]
fn apple_records() {
    assert!(apple_silicon_device(0).is_none());
    let d = apple_silicon_device(16 * GIB).expect("apple");
    assert_eq!(d.id, "apple-silicon-metal");
    assert_eq!(d.name, "Apple Silicon Metal (Unified Memory)");
    assert_eq!(d.driver_version.as_deref(), Some("Metal 3"));
}

#[test]
fn name_normalization() {
    assert_eq!(normalize_name("  NVIDIA GeForce RTX 4090 "), "rtx 4090");
    assert!(names_match("NVIDIA GeForce RTX 4090", "GeForce RTX 4090"));
    assert!(!names_match("RTX 4090", "RTX 4080"));
}

#[test]
fn gpu_ranking() {
    let ranked = rank_gpus(
        vec![gpu("A", Some(8 * GIB), true)],
        vec![gpu("B", Some(24 * GIB), true), gpu("A", None, false), gpu("C", None, false)],
    );
    let names: Vec<&str> = ranked.iter().map(|g| g.name.as_str()).collect();
    assert_eq!(names, vec!["B", "A", "C"]);
}

#[test]
fn cpu_brand() {
    assert_eq!(cpu_model_from_brand("  Ryzen 9 ").as_deref(), Some("Ryzen 9"));
    assert!(cpu_model_from_brand("   ").is_none());
}

#[test]
fn text_helpers() {
    assert_eq!(normalize_name("ÄBC"), "äbc");
    assert_eq!(replace_str("a::b", ":", "-"), "a--b");
    assert_eq!(replace_str("aaa", "aa", "b"), "ba");
    assert_eq!(trimmed(" \t x y \n"), "x y");
}

#[test]
fn vendor_names_round_trip() {
    for v in [GpuVendor::Nvidia, GpuVendor::Amd, GpuVendor::Intel, GpuVendor::Apple, GpuVendor::Unknown] {
        assert_eq!(infer_vendor(v.as_str()), v);
        assert_eq!(infer_vendor(&v.as_str().to_ascii_uppercase()), v);
    }
    assert_eq!(infer_vendor("GEFORCE GTX 1080"), infer_vendor("GeForce GTX 1080"));
}
