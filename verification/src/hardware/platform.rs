//! Turning what the operating system reports into adapter records: NVIDIA
//! adapters from NVML, video controllers from WMI, and Apple's unified memory.
use vstd::prelude::*;
use super::types::{
    infer_vendor, is_software_adapter, lowercase, recommended_for_inference, recommended_spec,
    software_adapter_lower, vendor_of_lower, GpuDevice, GpuVendor,
};
use crate::text::{decimal, push_char, push_decimal, replace_all, replace_str, to_lowercase, trim, trimmed};

verus! {

/// An integer in decimal, with a leading `-` when negative.
pub open spec fn signed_decimal(n: int) -> Seq<char> {
    if n < 0 {
        seq!['-'] + decimal((-n) as nat)
    } else {
        decimal(n as nat)
    }
}

fn push_signed(s: &mut String, n: i64)
    requires
        n > i64::MIN,
    ensures
        final(s)@ == old(s)@ + signed_decimal(n as int),
{
    if n < 0 {
        push_char(s, '-');
        push_decimal(s, (-n) as u64);
        assert(final(s)@ =~= old(s)@ + signed_decimal(n as int));
    } else {
        push_decimal(s, n as u64);
    }
}

/// Integer division rounding toward zero, as Rust's `/` on `i32` does.
pub open spec fn div_trunc(a: int, b: int) -> int {
    if a >= 0 {
        a / b
    } else {
        -((-a) / b)
    }
}

/// The remainder of `div_trunc`, with the sign of `a`, as Rust's `%` does.
pub open spec fn rem_trunc(a: int, b: int) -> int {
    if a >= 0 {
        a % b
    } else {
        -((-a) % b)
    }
}

/// The CUDA version that NVML's driver version number stands for:
/// `<major>.<minor>` with the major version the number divided by 1000 and
/// the minor version its remainder divided by 10.
pub open spec fn cuda_version_spec(version: i32) -> Seq<char> {
    signed_decimal(div_trunc(version as int, 1000)) + seq!['.'] + signed_decimal(
        div_trunc(rem_trunc(version as int, 1000), 10),
    )
}

/// The CUDA version text for NVML's driver version number.
pub fn cuda_version_text(version: i32) -> (s: String)
    ensures
        s@ == cuda_version_spec(version),
{
    let v = version as i64;
    let (major, minor) = if v >= 0 {
        (v / 1000, (v % 1000) / 10)
    } else {
        let a = -v;
        (-(a / 1000), -((a % 1000) / 10))
    };
    let mut s = String::new();
    push_signed(&mut s, major);
    push_char(&mut s, '.');
    let ghost mid = s@;
    push_signed(&mut s, minor);
    proof {
        if v < 0 {
            assert(rem_trunc(version as int, 1000) == -((-v) % 1000));
            assert(-rem_trunc(version as int, 1000) == (-v) % 1000);
        }
    }
    s
}

/// Whether `d` is the record of NVIDIA adapter `index` named `name`.
pub open spec fn nvidia_device_spec(
    index: u32,
    name: Seq<char>,
    vram_bytes: Option<u64>,
    driver_version: Option<String>,
    cuda_version: Option<String>,
    d: GpuDevice,
) -> bool {
    &&& d.id@ == "nvidia-"@ + decimal(index as nat)
    &&& d.vendor@ == "nvidia"@
    &&& d.name@ == name
    &&& d.vram_bytes == vram_bytes
    &&& d.driver_version == driver_version
    &&& d.cuda_version == cuda_version
    &&& d.is_discrete
    &&& d.recommended_for_inference == recommended_spec(vram_bytes)
}

/// The record of NVIDIA adapter `index`.
pub fn nvidia_device(
    index: u32,
    name: String,
    vram_bytes: Option<u64>,
    driver_version: Option<String>,
    cuda_version: Option<String>,
) -> (d: GpuDevice)
    ensures
        nvidia_device_spec(index, name@, vram_bytes, driver_version, cuda_version, d),
{
    let mut id = String::from_str("nvidia-");
    push_decimal(&mut id, index as u64);
    GpuDevice {
        id,
        vendor: String::from_str(GpuVendor::Nvidia.as_str()),
        name,
        vram_bytes,
        driver_version,
        cuda_version,
        is_discrete: true,
        recommended_for_inference: recommended_for_inference(vram_bytes),
    }
}

/// An adapter name without case and without the `nvidia ` and `geforce `
/// words, for comparing names across detections.
pub open spec fn normalized_spec(name: Seq<char>) -> Seq<char> {
    trim(replace_all(replace_all(lowercase(name), "nvidia "@, Seq::empty()), "geforce "@, Seq::empty()))
}

/// `name` normalized for comparison.
pub fn normalize_name(name: &str) -> (s: String)
    ensures
        s@ == normalized_spec(name@),
{
    proof {
        reveal_strlit("nvidia ");
        reveal_strlit("geforce ");
        reveal_strlit("");
        assert(""@ =~= Seq::<char>::empty());
    }
    let lower = to_lowercase(name);
    let a = replace_str(lower.as_str(), "nvidia ", "");
    let b = replace_str(a.as_str(), "geforce ", "");
    trimmed(b.as_str())
}

/// Whether two adapter names name the same adapter.
pub fn names_match(left: &str, right: &str) -> (b: bool)
    ensures
        b == (normalized_spec(left@) == normalized_spec(right@)),
{
    normalize_name(left) == normalize_name(right)
}

/// The smallest memory size WMI reports that is taken at face value: 512 MiB.
pub open spec fn plausible_vram(bytes: u64) -> bool {
    bytes >= 512 * 1024 * 1024
}

/// Whether a video controller is skipped: it has no name or a blank one, is
/// a software adapter, or matches one of `existing` by name.
pub open spec fn controller_skipped(name: Option<String>, existing: Seq<String>) -> bool {
    match name {
        None => true,
        Some(n) => trim(n@).len() == 0 || software_adapter_lower(lowercase(n@)) || exists|i: int|
            0 <= i < existing.len() && normalized_spec(#[trigger] existing[i]@) == normalized_spec(n@),
    }
}

/// Whether `d` is the record of video controller `index`: its vendor judged
/// from its name, its memory when plausible, its id from the PnP device id
/// (or `wmi-<index>`) with `\` made `_`, discrete unless Intel.
pub open spec fn controller_device_spec(
    index: usize,
    name: Seq<char>,
    adapter_ram: Option<u32>,
    driver_version: Option<String>,
    pnp_device_id: Option<String>,
    d: GpuDevice,
) -> bool {
    let vendor = vendor_of_lower(lowercase(name));
    let vram = match adapter_ram {
        Some(r) => if plausible_vram(r as u64) {
            Some(r as u64)
        } else {
            None
        },
        None => None,
    };
    let raw_id = match pnp_device_id {
        Some(p) => p@,
        None => "wmi-"@ + decimal(index as nat),
    };
    &&& d.id@ == replace_all(raw_id, "\\"@, "_"@)
    &&& d.vendor@ == vendor.name_spec()
    &&& d.name@ == name
    &&& d.vram_bytes == vram
    &&& d.driver_version == driver_version
    &&& d.cuda_version is None
    &&& d.is_discrete == (vendor != GpuVendor::Intel)
    &&& d.recommended_for_inference == recommended_spec(vram)
}

fn matches_existing(name: &str, existing: &Vec<String>) -> (b: bool)
    ensures
        b == exists|i: int|
            0 <= i < existing@.len() && normalized_spec(#[trigger] existing@[i]@) == normalized_spec(name@),
{
    let mut i: usize = 0;
    while i < existing.len()
        invariant
            i <= existing@.len(),
            forall|j: int| 0 <= j < i ==> normalized_spec(#[trigger] existing@[j]@) != normalized_spec(name@),
        decreases existing@.len() - i,
    {
        if names_match(existing[i].as_str(), name) {
            return true;
        }
        i = i + 1;
    }
    false
}

/// The record of video controller `index` as WMI reports it, or none when it
/// is skipped.
pub fn controller_device(
    index: usize,
    name: Option<String>,
    adapter_ram: Option<u32>,
    driver_version: Option<String>,
    pnp_device_id: Option<String>,
    existing_names: &Vec<String>,
) -> (r: Option<GpuDevice>)
    ensures
        r is None <==> controller_skipped(name, existing_names@),
        r matches Some(d) ==> name matches Some(n) && controller_device_spec(
            index,
            n@,
            adapter_ram,
            driver_version,
            pnp_device_id,
            d,
        ),
{
    let name = match name {
        Some(n) => n,
        None => {
            return None;
        },
    };
    let t = trimmed(name.as_str());
    if t.as_str().is_empty() {
        return None;
    }
    if is_software_adapter(name.as_str()) {
        return None;
    }
    if matches_existing(name.as_str(), existing_names) {
        return None;
    }
    let vendor = infer_vendor(name.as_str());
    let vram_bytes = match adapter_ram {
        Some(r) => if (r as u64) >= 512 * 1024 * 1024 {
            Some(r as u64)
        } else {
            None
        },
        None => None,
    };
    let raw_id = match pnp_device_id {
        Some(p) => p,
        None => {
            let mut s = String::from_str("wmi-");
            push_decimal(&mut s, index as u64);
            s
        },
    };
    proof {
        reveal_strlit("\\");
    }
    let id = replace_str(raw_id.as_str(), "\\", "_");
    Some(
        GpuDevice {
            id,
            vendor: String::from_str(vendor.as_str()),
            name,
            vram_bytes,
            driver_version,
            cuda_version: None,
            is_discrete: vendor != GpuVendor::Intel,
            recommended_for_inference: recommended_for_inference(vram_bytes),
        },
    )
}

/// Whether `d` is the Apple Silicon record for `total_mem` bytes of unified
/// memory.
pub open spec fn apple_device_spec(total_mem: u64, d: GpuDevice) -> bool {
    &&& d.id@ == "apple-silicon-metal"@
    &&& d.vendor@ == "apple"@
    &&& d.name@ == "Apple Silicon Metal (Unified Memory)"@
    &&& d.vram_bytes == Some(total_mem)
    &&& d.driver_version matches Some(v) && v@ == "Metal 3"@
    &&& d.cuda_version is None
    &&& d.is_discrete
    &&& d.recommended_for_inference == recommended_spec(Some(total_mem))
}

/// The Apple Silicon adapter for `total_mem` bytes of unified memory; none
/// when no memory is reported.
pub fn apple_silicon_device(total_mem: u64) -> (r: Option<GpuDevice>)
    ensures
        r is None <==> total_mem == 0,
        r matches Some(d) ==> apple_device_spec(total_mem, d),
{
    if total_mem == 0 {
        return None;
    }
    Some(
        GpuDevice {
            id: String::from_str("apple-silicon-metal"),
            vendor: String::from_str("apple"),
            name: String::from_str("Apple Silicon Metal (Unified Memory)"),
            vram_bytes: Some(total_mem),
            driver_version: Some(String::from_str("Metal 3")),
            cuda_version: None,
            is_discrete: true,
            recommended_for_inference: recommended_for_inference(Some(total_mem)),
        },
    )
}

} // verus!
