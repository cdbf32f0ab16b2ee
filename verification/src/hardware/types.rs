//! GPU vendors, devices and the hardware profile.
use vstd::prelude::*;
pub use crate::text::lowercase;
use crate::text::{
    ascii_lower_char, ascii_lowered, ascii_upper_char, ascii_uppered, contains, contains_str, is_ascii,
    lemma_absent, occurs_at, to_lowercase,
};

verus! {

/// One gibibyte, in bytes.
pub const GIB: u64 = 1073741824;

/// GPU vendors the agent tells apart.
#[derive(Debug, Clone, Copy, PartialEq, Eq, Structural)]
pub enum GpuVendor {
    Nvidia,
    Amd,
    Intel,
    Apple,
    Unknown,
}

impl GpuVendor {
    /// The vendor's lowercase name, as used in device records.
    pub open spec fn name_spec(self) -> Seq<char> {
        match self {
            GpuVendor::Nvidia => "nvidia"@,
            GpuVendor::Amd => "amd"@,
            GpuVendor::Intel => "intel"@,
            GpuVendor::Apple => "apple"@,
            GpuVendor::Unknown => "unknown"@,
        }
    }

    /// The vendor's lowercase name.
    pub fn as_str(&self) -> (s: &'static str)
        ensures
            s@ == self.name_spec(),
    {
        match self {
            GpuVendor::Nvidia => "nvidia",
            GpuVendor::Amd => "amd",
            GpuVendor::Intel => "intel",
            GpuVendor::Apple => "apple",
            GpuVendor::Unknown => "unknown",
        }
    }
}

/// One graphics adapter. Its memory is kept in bytes; the gigabyte figure
/// shown to users is derived from `vram_bytes`.
#[derive(Debug, Clone)]
pub struct GpuDevice {
    pub id: String,
    pub vendor: String,
    pub name: String,
    pub vram_bytes: Option<u64>,
    pub driver_version: Option<String>,
    pub cuda_version: Option<String>,
    pub is_discrete: bool,
    pub recommended_for_inference: bool,
}

/// The machine as detected: OS, CPU, memory and adapters, with the primary
/// adapter first in `gpus`.
#[derive(Debug, Clone)]
pub struct HardwareProfile {
    pub os: String,
    pub cpu_model: Option<String>,
    pub total_ram_bytes: u64,
    pub gpus: Vec<GpuDevice>,
    pub primary_gpu: Option<GpuDevice>,
    pub capability_summary: String,
    pub detected_at: String,
}

/// The vendor that a lowercase adapter name points to.
pub open spec fn vendor_of_lower(lower: Seq<char>) -> GpuVendor {
    if contains(lower, "nvidia"@) || contains(lower, "geforce"@) || contains(lower, "quadro"@) {
        GpuVendor::Nvidia
    } else if contains(lower, "amd"@) || contains(lower, "radeon"@) {
        GpuVendor::Amd
    } else if contains(lower, "intel"@) {
        GpuVendor::Intel
    } else if contains(lower, "apple"@) {
        GpuVendor::Apple
    } else {
        GpuVendor::Unknown
    }
}

/// The vendor named in an already lowercased adapter name.
pub fn vendor_from_lowercase(lower: &str) -> (v: GpuVendor)
    ensures
        v == vendor_of_lower(lower@),
{
    if contains_str(lower, "nvidia") || contains_str(lower, "geforce") || contains_str(
        lower,
        "quadro",
    ) {
        GpuVendor::Nvidia
    } else if contains_str(lower, "amd") || contains_str(lower, "radeon") {
        GpuVendor::Amd
    } else if contains_str(lower, "intel") {
        GpuVendor::Intel
    } else if contains_str(lower, "apple") {
        GpuVendor::Apple
    } else {
        GpuVendor::Unknown
    }
}

/// The vendor of an adapter, judged from its name in lowercase.
pub fn infer_vendor(name: &str) -> (v: GpuVendor)
    ensures
        v == vendor_of_lower(lowercase(name@)),
        is_ascii(name@) ==> v == vendor_of_lower(ascii_lowered(name@)),
{
    let lower = to_lowercase(name);
    vendor_from_lowercase(lower.as_str())
}

/// Changing the case of ASCII letters does not change the lowercased text.
pub proof fn lemma_case_free(s: Seq<char>)
    requires
        is_ascii(s),
    ensures
        is_ascii(ascii_uppered(s)),
        ascii_lowered(ascii_uppered(s)) == ascii_lowered(s),
{
    assert forall|i: int| 0 <= i < s.len() implies (#[trigger] ascii_uppered(s)[i] as u32) < 128 by {
        assert((s[i] as u32) < 128);
    }
    assert forall|i: int| 0 <= i < s.len() implies #[trigger] ascii_lowered(ascii_uppered(s))[i] == ascii_lowered(s)[i] by {
        let c = s[i];
        assert(ascii_uppered(s)[i] == ascii_upper_char(c));
    }
    assert(ascii_lowered(ascii_uppered(s)) =~= ascii_lowered(s));
}

/// An ASCII vendor judgement ignores case: an ASCII name in capitals points
/// to the same vendor as the name itself.
pub proof fn law_vendor_ignores_case(name: Seq<char>)
    requires
        is_ascii(name),
    ensures
        is_ascii(ascii_uppered(name)),
        vendor_of_lower(ascii_lowered(ascii_uppered(name))) == vendor_of_lower(ascii_lowered(name)),
{
    lemma_case_free(name);
}

proof fn lemma_lower_fixed(s: Seq<char>)
    requires
        forall|i: int| 0 <= i < s.len() ==> 'a' <= #[trigger] s[i] <= 'z',
    ensures
        is_ascii(s),
        ascii_lowered(s) == s,
{
    assert(ascii_lowered(s) =~= s);
}

proof fn lemma_contains_self(n: Seq<char>)
    ensures
        contains(n, n),
{
    assert(n.subrange(0, n.len() as int) =~= n);
    assert(occurs_at(n, n, 0));
}

proof fn lemma_vendor_of_name(v: GpuVendor)
    ensures
        vendor_of_lower(v.name_spec()) == v,
{
    match v {
        GpuVendor::Nvidia => lemma_contains_self("nvidia"@),
        GpuVendor::Amd => lemma_vendor_amd(),
        GpuVendor::Intel => lemma_vendor_intel(),
        GpuVendor::Apple => lemma_vendor_apple(),
        GpuVendor::Unknown => lemma_unknown_has_no_vendor(),
    }
}

proof fn lemma_too_long(s: Seq<char>, p: Seq<char>)
    requires
        s.len() < p.len(),
    ensures
        !contains(s, p),
{
}

proof fn lemma_vendor_amd()
    ensures
        vendor_of_lower("amd"@) == GpuVendor::Amd,
{
    reveal_strlit("amd");
    reveal_strlit("nvidia");
    reveal_strlit("geforce");
    reveal_strlit("quadro");
    lemma_too_long("amd"@, "nvidia"@);
    lemma_too_long("amd"@, "geforce"@);
    lemma_too_long("amd"@, "quadro"@);
    lemma_contains_self("amd"@);
}

proof fn lemma_vendor_intel()
    ensures
        vendor_of_lower("intel"@) == GpuVendor::Intel,
{
    reveal_strlit("intel");
    reveal_strlit("nvidia");
    reveal_strlit("geforce");
    reveal_strlit("quadro");
    reveal_strlit("amd");
    reveal_strlit("radeon");
    lemma_too_long("intel"@, "nvidia"@);
    lemma_too_long("intel"@, "geforce"@);
    lemma_too_long("intel"@, "quadro"@);
    lemma_too_long("intel"@, "radeon"@);
    lemma_absent("intel"@, "amd"@);
    lemma_contains_self("intel"@);
}

proof fn lemma_vendor_apple()
    ensures
        vendor_of_lower("apple"@) == GpuVendor::Apple,
{
    reveal_strlit("apple");
    reveal_strlit("nvidia");
    reveal_strlit("geforce");
    reveal_strlit("quadro");
    reveal_strlit("amd");
    reveal_strlit("radeon");
    reveal_strlit("intel");
    lemma_too_long("apple"@, "nvidia"@);
    lemma_too_long("apple"@, "geforce"@);
    lemma_too_long("apple"@, "quadro"@);
    lemma_too_long("apple"@, "radeon"@);
    lemma_absent("apple"@, "amd"@);
    lemma_absent("apple"@, "intel"@);
    lemma_contains_self("apple"@);
}

proof fn lemma_unknown_has_no_vendor()
    ensures
        vendor_of_lower("unknown"@) == GpuVendor::Unknown,
        !contains("unknown"@, "nvidia"@),
        !contains("unknown"@, "geforce"@),
        !contains("unknown"@, "quadro"@),
        !contains("unknown"@, "amd"@),
        !contains("unknown"@, "radeon"@),
        !contains("unknown"@, "intel"@),
        !contains("unknown"@, "apple"@),
{
    reveal_strlit("unknown");
    reveal_strlit("nvidia");
    reveal_strlit("geforce");
    reveal_strlit("quadro");
    reveal_strlit("amd");
    reveal_strlit("radeon");
    reveal_strlit("intel");
    reveal_strlit("apple");
    lemma_absent("unknown"@, "nvidia"@);
    lemma_absent("unknown"@, "geforce"@);
    lemma_absent("unknown"@, "quadro"@);
    lemma_absent("unknown"@, "amd"@);
    lemma_absent("unknown"@, "radeon"@);
    lemma_absent("unknown"@, "intel"@);
    lemma_absent("unknown"@, "apple"@);
}

proof fn lemma_name_lowercase(v: GpuVendor)
    ensures
        forall|i: int| 0 <= i < v.name_spec().len() ==> 'a' <= #[trigger] v.name_spec()[i] <= 'z',
{
    match v {
        GpuVendor::Nvidia => { reveal_strlit("nvidia"); },
        GpuVendor::Amd => { reveal_strlit("amd"); },
        GpuVendor::Intel => { reveal_strlit("intel"); },
        GpuVendor::Apple => { reveal_strlit("apple"); },
        GpuVendor::Unknown => { reveal_strlit("unknown"); },
    }
}

/// Each vendor's name points back to that vendor: `infer_vendor` on the text
/// of `as_str` gives the vendor again.
pub proof fn law_vendor_round_trip(v: GpuVendor)
    ensures
        is_ascii(v.name_spec()),
        vendor_of_lower(ascii_lowered(v.name_spec())) == v,
{
    lemma_name_lowercase(v);
    lemma_lower_fixed(v.name_spec());
    lemma_vendor_of_name(v);
}

/// Whether a lowercase adapter name is a software or virtual display adapter.
pub open spec fn software_adapter_lower(lower: Seq<char>) -> bool {
    contains(lower, "microsoft basic"@) || contains(lower, "remote desktop"@) || contains(
        lower,
        "virtual display"@,
    ) || contains(lower, "meta virtual"@)
}

/// Whether an already lowercased adapter name is a software adapter.
pub fn software_adapter_from_lowercase(lower: &str) -> (b: bool)
    ensures
        b == software_adapter_lower(lower@),
{
    contains_str(lower, "microsoft basic") || contains_str(lower, "remote desktop")
        || contains_str(lower, "virtual display") || contains_str(lower, "meta virtual")
}

/// Whether an adapter is a software or virtual display adapter, judged from
/// its name in lowercase.
pub fn is_software_adapter(name: &str) -> (b: bool)
    ensures
        b == software_adapter_lower(lowercase(name@)),
{
    let lower = to_lowercase(name);
    software_adapter_from_lowercase(lower.as_str())
}

/// Adapters with at least 8 GiB of memory are recommended for inference.
pub open spec fn recommended_spec(vram_bytes: Option<u64>) -> bool {
    match vram_bytes {
        Some(b) => b >= 8 * GIB,
        None => false,
    }
}

/// Whether an adapter with this much memory is recommended for inference.
pub fn recommended_for_inference(vram_bytes: Option<u64>) -> (b: bool)
    ensures
        b == recommended_spec(vram_bytes),
{
    match vram_bytes {
        Some(bytes) => bytes >= 8 * GIB,
        None => false,
    }
}

} // verus!
