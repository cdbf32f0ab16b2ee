//! Putting the detected adapters in order: recommended adapters first, then
//! more memory first, then by name; duplicate names (ignoring ASCII case)
//! after the first are dropped, and the first adapter is the primary one.
use vstd::prelude::*;
use super::types::{recommended_spec, GpuDevice, recommended_for_inference};
use crate::models::recommend::{lemma_str_lt_order, str_less, str_lt};
use crate::order::{stable_sort, stably_sorted, ListingOrder};
use crate::text::{chars_of, eq_ignore_ascii_case, eq_ignore_ascii_case_range, trim, trimmed};

verus! {

/// Whether memory amount `a` ranks above `b`: a known amount above an
/// unknown one, a larger above a smaller.
pub open spec fn more_memory(a: Option<u64>, b: Option<u64>) -> bool {
    match (a, b) {
        (Some(x), Some(y)) => x > y,
        (Some(_), None) => true,
        _ => false,
    }
}

/// Whether adapter `a` ranks above `b`.
pub open spec fn gpu_before(a: GpuDevice, b: GpuDevice) -> bool {
    let ra = recommended_spec(a.vram_bytes);
    let rb = recommended_spec(b.vram_bytes);
    ||| ra && !rb
    ||| ra == rb && more_memory(a.vram_bytes, b.vram_bytes)
    ||| ra == rb && a.vram_bytes == b.vram_bytes && str_lt(a.name@, b.name@)
}

/// Whether adapters `a` and `b` rank the same.
pub open spec fn gpu_tie(a: GpuDevice, b: GpuDevice) -> bool {
    a.vram_bytes == b.vram_bytes && a.name@ == b.name@
}

impl ListingOrder for GpuDevice {
    open spec fn sorts_before(self, other: Self) -> bool {
        gpu_before(self, other)
    }

    open spec fn sorts_with(self, other: Self) -> bool {
        gpu_tie(self, other)
    }

    proof fn lemma_listing_order(a: Self, b: Self, c: Self) {
        lemma_str_lt_order(a.name@, b.name@, c.name@);
        lemma_str_lt_order(b.name@, a.name@, c.name@);
    }

    fn listed_before(&self, other: &Self) -> (r: bool) {
        compare_gpu_priority(self, other)
    }
}

/// Whether adapter `left` ranks above `right`.
pub fn compare_gpu_priority(left: &GpuDevice, right: &GpuDevice) -> (r: bool)
    ensures
        r == gpu_before(*left, *right),
{
    let rl = recommended_for_inference(left.vram_bytes);
    let rr = recommended_for_inference(right.vram_bytes);
    if rl != rr {
        return rl;
    }
    match (left.vram_bytes, right.vram_bytes) {
        (Some(x), Some(y)) => {
            if x != y {
                return x > y;
            }
        },
        (Some(_), None) => {
            return true;
        },
        (None, Some(_)) => {
            return false;
        },
        (None, None) => {},
    }
    str_less(&left.name, &right.name)
}

/// `gpus` without each adapter whose name matches, ignoring ASCII case, the
/// last one kept before it (`Vec::dedup_by`).
pub open spec fn dedup_names(gpus: Seq<GpuDevice>) -> Seq<GpuDevice>
    decreases gpus.len(),
{
    if gpus.len() == 0 {
        seq![]
    } else {
        let kept = dedup_names(gpus.drop_last());
        if kept.len() > 0 && eq_ignore_ascii_case(gpus.last().name@, kept.last().name@) {
            kept
        } else {
            kept.push(gpus.last())
        }
    }
}

fn same_name(a: &GpuDevice, b: &GpuDevice) -> (r: bool)
    ensures
        r == eq_ignore_ascii_case(a.name@, b.name@),
{
    let av = chars_of(a.name.as_str());
    let bv = chars_of(b.name.as_str());
    assert(av@.subrange(0, av@.len() as int) == av@);
    eq_ignore_ascii_case_range(&av, 0, av.len(), &bv)
}

/// The adapters of both detections ranked for inference, duplicates dropped:
/// the NVIDIA adapters followed by the other adapters, stably sorted, then
/// deduplicated by name.
pub fn rank_gpus(nvidia: Vec<GpuDevice>, platform: Vec<GpuDevice>) -> (r: Vec<GpuDevice>)
    ensures
        exists|sorted: Seq<GpuDevice>|
            stably_sorted(nvidia@ + platform@, sorted) && r@ == dedup_names(sorted),
{
    let mut all = nvidia;
    let mut rest = platform;
    let ghost joined = all@ + rest@;
    all.append(&mut rest);
    assert(all@ == joined);
    let sorted = stable_sort(all);
    let total = sorted.len();
    let mut rest = sorted;
    let ghost s = rest@;
    let mut kept: Vec<GpuDevice> = Vec::new();
    let mut n: usize = 0;
    while rest.len() > 0
        invariant
            total == s.len(),
            n <= s.len(),
            rest@ == s.skip(n as int),
            kept@ == dedup_names(s.take(n as int)),
        decreases rest@.len(),
    {
        let g = rest.remove(0);
        proof {
            assert(g == s[n as int]);
            assert(s.take(n + 1).drop_last() == s.take(n as int));
            assert(s.take(n + 1).last() == g);
            assert(rest@ == s.skip(n + 1));
        }
        let dup = kept.len() > 0 && same_name(&g, &kept[kept.len() - 1]);
        if !dup {
            kept.push(g);
        }
        n = n + 1;
    }
    assert(s.take(s.len() as int) == s);
    kept
}

/// The CPU model shown for a processor brand string: the brand trimmed, or
/// none when that is empty.
pub open spec fn cpu_model_spec(brand: Seq<char>) -> Option<Seq<char>> {
    if trim(brand).len() > 0 {
        Some(trim(brand))
    } else {
        None
    }
}

/// The CPU model for the brand string of the first processor.
pub fn cpu_model_from_brand(brand: &str) -> (r: Option<String>)
    ensures
        match r {
            Some(s) => cpu_model_spec(brand@) == Some(s@),
            None => cpu_model_spec(brand@) is None,
        },
{
    let t = trimmed(brand);
    if t.as_str().is_empty() {
        None
    } else {
        Some(t)
    }
}

} // verus!
