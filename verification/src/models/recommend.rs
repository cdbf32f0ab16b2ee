//! Hardware-aware recommendations over the model catalog: which quantization
//! of each model fits the memory budget, how well it fits, in what order the
//! library lists the models, and which model is offered by default.
use vstd::prelude::*;
use crate::hardware::types::{GpuDevice, HardwareProfile, GIB};
use super::catalog::{curated_models, is_curated_catalog, lemma_catalog_ids, lemma_catalog_ids_distinct, lemma_quant_index, catalog_len, quant_index, find_quantization};
use super::types::{CatalogModel, ModelFit, ModelLibraryResponse, ModelRecommendation, QuantizationOption};
use crate::text::{decimal, push_decimal, push_char, same_text};
use crate::order::{stable_order, stable_sort, stably_sorted, ListingOrder};

verus! {

// ---------------------------------------------------------------------------
// Memory arithmetic
// ---------------------------------------------------------------------------

/// Memory needed by a quantization whose minimum is `min_deci_gb` tenths of a
/// GiB, in hundredths of a byte.
pub open spec fn need_centibytes(min_deci_gb: u32) -> int {
    min_deci_gb as int * GIB as int * 10
}

/// Whether a quantization needing `min_deci_gb` fits in `avail` (hundredths
/// of a byte): the minimum is at most the available memory.
pub open spec fn fits(min_deci_gb: u32, avail: int) -> bool {
    need_centibytes(min_deci_gb) <= avail
}

/// Whether a quantization needing `min_deci_gb` takes at most `pct` percent
/// of `avail`.
pub open spec fn within_percent(min_deci_gb: u32, avail: int, pct: int) -> bool {
    need_centibytes(min_deci_gb) * 100 <= avail * pct
}

/// How well a quantization needing `min_deci_gb` fits in `avail`: too large
/// past the budget, recommended within 85% of it, caution in between.
pub open spec fn fit_of(min_deci_gb: u32, avail: int) -> ModelFit {
    if !fits(min_deci_gb, avail) {
        ModelFit::TooLarge
    } else if within_percent(min_deci_gb, avail, 85) {
        ModelFit::Recommended
    } else {
        ModelFit::Caution
    }
}

fn need_of(min_deci_gb: u32) -> (n: u128)
    ensures
        n == need_centibytes(min_deci_gb),
        n < 0x1_0000_0000_0000_0000_0000,
{
    let m = min_deci_gb as u128;
    assert(m * 10737418240 == m * GIB as int * 10) by (nonlinear_arith)
        requires
            GIB == 1073741824,
    ;
    m * 10737418240
}

fn fits_exec(min_deci_gb: u32, avail: u128) -> (b: bool)
    ensures
        b == fits(min_deci_gb, avail as int),
{
    need_of(min_deci_gb) <= avail
}

fn within_percent_exec(min_deci_gb: u32, avail: u128, pct: u128) -> (b: bool)
    requires
        1 <= pct <= 100,
    ensures
        b == within_percent(min_deci_gb, avail as int, pct as int),
{
    let need = need_of(min_deci_gb);
    if avail >= 0x1_0000_0000_0000_0000_0000_0000 {
        assert(need * 100 <= avail * pct) by (nonlinear_arith)
            requires
                need < 0x1_0000_0000_0000_0000_0000,
                avail >= 0x1_0000_0000_0000_0000_0000_0000,
                pct >= 1,
        ;
        true
    } else {
        assert(avail * pct <= 0x1_0000_0000_0000_0000_0000_0000 * 100) by (nonlinear_arith)
            requires
                avail < 0x1_0000_0000_0000_0000_0000_0000,
                pct <= 100,
        ;
        need * 100 <= avail * pct
    }
}

/// How well a quantization needing `required_deci_gb` tenths of a GiB fits in
/// `available` hundredths of a byte.
pub fn classify_fit(required_deci_gb: u32, available: u128) -> (f: ModelFit)
    ensures
        f == fit_of(required_deci_gb, available as int),
{
    if !fits_exec(required_deci_gb, available) {
        ModelFit::TooLarge
    } else if within_percent_exec(required_deci_gb, available, 85) {
        ModelFit::Recommended
    } else {
        ModelFit::Caution
    }
}

/// The rank by which fits are listed: recommended, then caution, then too large.
pub open spec fn fit_rank_spec(f: ModelFit) -> u8 {
    match f {
        ModelFit::Recommended => 0,
        ModelFit::Caution => 1,
        ModelFit::TooLarge => 2,
    }
}

/// The rank by which a fit is listed.
pub fn fit_rank(fit: &ModelFit) -> (r: u8)
    ensures
        r == fit_rank_spec(*fit),
{
    match fit {
        ModelFit::Recommended => 0,
        ModelFit::Caution => 1,
        ModelFit::TooLarge => 2,
    }
}

// ---------------------------------------------------------------------------
// The memory budget
// ---------------------------------------------------------------------------

/// The budget from system RAM when no adapter reports its memory: 45% of the
/// RAM, but at least 3 GiB; in hundredths of a byte.
pub open spec fn ram_budget(total_ram_bytes: u64) -> int {
    let share = total_ram_bytes as int * 45;
    let floor = 3 * GIB as int * 100;
    if share >= floor {
        share
    } else {
        floor
    }
}

/// The memory budget for inference: the primary adapter's memory when it
/// reports one, else the RAM budget; in hundredths of a byte.
pub open spec fn budget_spec(p: HardwareProfile) -> int {
    match p.primary_gpu {
        Some(g) => match g.vram_bytes {
            Some(b) => b as int * 100,
            None => ram_budget(p.total_ram_bytes),
        },
        None => ram_budget(p.total_ram_bytes),
    }
}

/// Where the budget comes from: "<adapter name> VRAM", or system RAM.
pub open spec fn source_spec(p: HardwareProfile) -> Seq<char> {
    match p.primary_gpu {
        Some(g) => match g.vram_bytes {
            Some(b) => g.name@ + " VRAM"@,
            None => "system RAM (CPU fallback)"@,
        },
        None => "system RAM (CPU fallback)"@,
    }
}

/// The memory budget for inference and a description of where it comes from.
pub fn inference_budget(profile: &HardwareProfile) -> (r: (u128, String))
    ensures
        r.0 == budget_spec(*profile),
        r.1@ == source_spec(*profile),
{
    if let Some(gpu) = &profile.primary_gpu {
        if let Some(vram_bytes) = gpu.vram_bytes {
            let mut source = gpu.name.clone();
            source.append(" VRAM");
            return ((vram_bytes as u128) * 100, source);
        }
    }
    let share = (profile.total_ram_bytes as u128) * 45;
    let floor = 3 * (GIB as u128) * 100;
    let budget = if share >= floor {
        share
    } else {
        floor
    };
    (budget, String::from_str("system RAM (CPU fallback)"))
}

// ---------------------------------------------------------------------------
// Copies
// ---------------------------------------------------------------------------

/// An equal copy of a quantization.
pub fn copy_quant(q: &QuantizationOption) -> (r: QuantizationOption)
    ensures
        r == *q,
{
    QuantizationOption {
        id: q.id.clone(),
        label: q.label.clone(),
        min_vram_deci_gb: q.min_vram_deci_gb,
        file_size_bytes: q.file_size_bytes,
        download_url: q.download_url.clone(),
        filename: q.filename.clone(),
    }
}

/// A copy of a list of quantizations, element for element.
pub fn copy_quants(qs: &Vec<QuantizationOption>) -> (r: Vec<QuantizationOption>)
    ensures
        r@ == qs@,
{
    let mut r: Vec<QuantizationOption> = Vec::new();
    let mut i: usize = 0;
    while i < qs.len()
        invariant
            i <= qs@.len(),
            r@ == qs@.take(i as int),
        decreases qs@.len() - i,
    {
        r.push(copy_quant(&qs[i]));
        assert(qs@.take(i + 1) == qs@.take(i as int).push(qs@[i as int]));
        i = i + 1;
    }
    assert(qs@.take(qs@.len() as int) == qs@);
    r
}

/// Whether two catalog models hold the same values.
pub open spec fn same_model(a: CatalogModel, b: CatalogModel) -> bool {
    &&& a.id == b.id
    &&& a.name == b.name
    &&& a.family == b.family
    &&& a.parameter_count_deci_b == b.parameter_count_deci_b
    &&& a.description == b.description
    &&& a.quantizations@ == b.quantizations@
}

/// A copy of a catalog model.
pub fn copy_model(m: &CatalogModel) -> (r: CatalogModel)
    ensures
        same_model(r, *m),
{
    CatalogModel {
        id: m.id.clone(),
        name: m.name.clone(),
        family: m.family.clone(),
        parameter_count_deci_b: m.parameter_count_deci_b,
        description: m.description.clone(),
        quantizations: copy_quants(&m.quantizations),
    }
}

// ---------------------------------------------------------------------------
// One model's recommendation
// ---------------------------------------------------------------------------

/// The quantizations of `qs` that fit in `avail`, in their order.
pub open spec fn fitting(qs: Seq<QuantizationOption>, avail: int) -> Seq<QuantizationOption>
    decreases qs.len(),
{
    if qs.len() == 0 {
        seq![]
    } else {
        let prev = fitting(qs.drop_last(), avail);
        if fits(qs.last().min_vram_deci_gb, avail) {
            prev.push(qs.last())
        } else {
            prev
        }
    }
}

/// Among the quantizations of `qs` that fit, the first of those needing the
/// most memory.
pub open spec fn best_fitting(qs: Seq<QuantizationOption>, avail: int) -> Option<QuantizationOption>
    decreases qs.len(),
{
    if qs.len() == 0 {
        None
    } else {
        let prev = best_fitting(qs.drop_last(), avail);
        let q = qs.last();
        if fits(q.min_vram_deci_gb, avail) {
            match prev {
                Some(p) => if q.min_vram_deci_gb > p.min_vram_deci_gb {
                    Some(q)
                } else {
                    Some(p)
                },
                None => Some(q),
            }
        } else {
            prev
        }
    }
}

/// The quantization chosen by default when memory allows: `Q4_K_M`.
pub open spec fn preferred_quant_id() -> Seq<char> {
    "Q4_K_M"@
}

/// The quantization recommended for a model: `Q4_K_M` when the model offers
/// it and it fits; else the best fitting one; else, when none fits, the
/// model's first quantization; none for a model without any.
pub open spec fn best_quant(qs: Seq<QuantizationOption>, avail: int) -> Option<QuantizationOption> {
    let k = quant_index(qs, preferred_quant_id());
    if k < qs.len() && fits(qs[k].min_vram_deci_gb, avail) {
        Some(qs[k])
    } else {
        largest_or_first(qs, avail)
    }
}

/// The best fitting quantization, or when none fits the first one.
pub open spec fn largest_or_first(qs: Seq<QuantizationOption>, avail: int) -> Option<QuantizationOption> {
    match best_fitting(qs, avail) {
        Some(q) => Some(q),
        None => if qs.len() > 0 {
            Some(qs[0])
        } else {
            None
        },
    }
}

/// The best fitting quantization is one of those that fit.
pub proof fn lemma_best_fitting_fits(qs: Seq<QuantizationOption>, avail: int)
    ensures
        best_fitting(qs, avail) matches Some(q) ==> fits(q.min_vram_deci_gb, avail),
        best_fitting(qs, avail) is None ==> forall|i: int|
            0 <= i < qs.len() ==> !fits(#[trigger] qs[i].min_vram_deci_gb, avail),
    decreases qs.len(),
{
    if qs.len() > 0 {
        lemma_best_fitting_fits(qs.drop_last(), avail);
        if best_fitting(qs, avail) is None {
            assert forall|i: int| 0 <= i < qs.len() implies !fits(
                #[trigger] qs[i].min_vram_deci_gb,
                avail,
            ) by {
                if i < qs.len() - 1 {
                    assert(qs[i] == qs.drop_last()[i]);
                }
            }
        }
    }
}

proof fn lemma_largest_fitting(qs: Seq<QuantizationOption>, avail: int)
    ensures
        best_fitting(qs, avail) matches Some(q) ==> qs.contains(q) && forall|i: int|
            0 <= i < qs.len() && fits(#[trigger] qs[i].min_vram_deci_gb, avail) ==> qs[i].min_vram_deci_gb
                <= q.min_vram_deci_gb,
    decreases qs.len(),
{
    lemma_best_fitting_fits(qs, avail);
    if qs.len() > 0 {
        let init = qs.drop_last();
        lemma_largest_fitting(init, avail);
        lemma_best_fitting_fits(init, avail);
        let last = qs.len() - 1;
        assert(qs[last] == qs.last());
        match best_fitting(qs, avail) {
            Some(q) => {
                match best_fitting(init, avail) {
                    Some(p) => {
                        let t = choose|t: int| 0 <= t < init.len() && init[t] == p;
                        assert(qs[t] == p);
                    },
                    None => {},
                }
                assert forall|i: int|
                    0 <= i < qs.len() && fits(#[trigger] qs[i].min_vram_deci_gb, avail) implies qs[i].min_vram_deci_gb
                        <= q.min_vram_deci_gb by {
                    if i < last {
                        assert(init[i] == qs[i]);
                    }
                }
            },
            None => {},
        }
    }
}

/// The quantization selected for a model: `Q4_K_M` whenever the model offers
/// it and it fits the budget; otherwise one of those that fit needing the
/// most memory (none that fits needs more); otherwise, when none fits, the
/// first. The selection is too large for the budget exactly when none of the
/// model's quantizations fits.
pub proof fn law_quantization_choice(qs: Seq<QuantizationOption>, avail: int)
    ensures
        ({
            let k = quant_index(qs, preferred_quant_id());
            k < qs.len() && fits(qs[k].min_vram_deci_gb, avail) ==> best_quant(qs, avail) == Some(qs[k])
        }),
        ({
            let k = quant_index(qs, preferred_quant_id());
            !(k < qs.len() && fits(qs[k].min_vram_deci_gb, avail)) ==> best_quant(qs, avail) == largest_or_first(
                qs,
                avail,
            )
        }),
        best_fitting(qs, avail) matches Some(q) ==> qs.contains(q) && forall|i: int|
            0 <= i < qs.len() && fits(#[trigger] qs[i].min_vram_deci_gb, avail) ==> qs[i].min_vram_deci_gb
                <= q.min_vram_deci_gb,
        best_fitting(qs, avail) is None && qs.len() > 0 ==> best_quant(qs, avail) == Some(qs[0]),
        best_quant(qs, avail) matches Some(q) ==> (fit_of(q.min_vram_deci_gb, avail) != ModelFit::TooLarge
            <==> exists|i: int| 0 <= i < qs.len() && fits(#[trigger] qs[i].min_vram_deci_gb, avail)),
{
    lemma_largest_fitting(qs, avail);
    lemma_best_fitting_fits(qs, avail);
    let k = quant_index(qs, preferred_quant_id());
    lemma_quant_index_bounds(qs, preferred_quant_id());
    if k < qs.len() && fits(qs[k].min_vram_deci_gb, avail) {
        assert(fits(qs[k].min_vram_deci_gb, avail));
    } else {
        match best_fitting(qs, avail) {
            Some(q) => {
                let t = choose|t: int| 0 <= t < qs.len() && qs[t] == q;
                assert(fits(qs[t].min_vram_deci_gb, avail));
            },
            None => {},
        }
    }
}

proof fn lemma_quant_index_bounds(qs: Seq<QuantizationOption>, id: Seq<char>)
    ensures
        0 <= quant_index(qs, id) <= qs.len(),
    decreases qs.len(),
{
    if qs.len() > 0 && qs[0].id@ != id {
        lemma_quant_index_bounds(qs.drop_first(), id);
    }
}

/// The position of the first quantization of `qs` whose id is `id`, if any.
pub fn find_quant_in(qs: &Vec<QuantizationOption>, id: &str) -> (r: Option<usize>)
    ensures
        match r {
            Some(k) => k < qs@.len() && k == quant_index(qs@, id@),
            None => quant_index(qs@, id@) == qs@.len(),
        },
{
    let mut i: usize = 0;
    while i < qs.len() && !same_text(&qs[i].id, id)
        invariant
            i <= qs@.len(),
            forall|j: int| 0 <= j < i ==> qs@[j].id@ != id@,
        decreases qs@.len() - i,
    {
        i = i + 1;
    }
    proof {
        lemma_quant_index(qs@, id@, i as int);
    }
    if i < qs.len() {
        Some(i)
    } else {
        None
    }
}

/// The quantization to recommend for `model` within `available`: `Q4_K_M`
/// when offered and it fits, else the largest that fits, else the first.
pub fn pick_best_quantization(model: &CatalogModel, available: u128) -> (r: Option<QuantizationOption>)
    ensures
        r == best_quant(model.quantizations@, available as int),
{
    if let Some(k) = find_quant_in(&model.quantizations, "Q4_K_M") {
        if fits_exec(model.quantizations[k].min_vram_deci_gb, available) {
            return Some(copy_quant(&model.quantizations[k]));
        }
    }
    let qs = &model.quantizations;
    let mut best: Option<usize> = None;
    let mut i: usize = 0;
    while i < qs.len()
        invariant
            i <= qs@.len(),
            match best {
                Some(b) => b < i && best_fitting(qs@.take(i as int), available as int) == Some(qs@[b as int]),
                None => best_fitting(qs@.take(i as int), available as int) is None,
            },
        decreases qs@.len() - i,
    {
        proof {
            assert(qs@.take(i + 1).drop_last() == qs@.take(i as int));
            assert(qs@.take(i + 1).last() == qs@[i as int]);
        }
        if fits_exec(qs[i].min_vram_deci_gb, available) {
            match best {
                Some(b) => {
                    if qs[i].min_vram_deci_gb > qs[b].min_vram_deci_gb {
                        best = Some(i);
                    }
                },
                None => {
                    best = Some(i);
                },
            }
        }
        i = i + 1;
    }
    assert(qs@.take(qs@.len() as int) == qs@);
    match best {
        Some(b) => Some(copy_quant(&qs[b])),
        None => if qs.len() > 0 {
            Some(copy_quant(&qs[0]))
        } else {
            None
        },
    }
}

/// The quantizations of `model` that fit, in order.
fn fitting_quants(qs: &Vec<QuantizationOption>, available: u128) -> (r: Vec<QuantizationOption>)
    ensures
        r@ == fitting(qs@, available as int),
{
    let mut r: Vec<QuantizationOption> = Vec::new();
    let mut i: usize = 0;
    while i < qs.len()
        invariant
            i <= qs@.len(),
            r@ == fitting(qs@.take(i as int), available as int),
        decreases qs@.len() - i,
    {
        proof {
            assert(qs@.take(i + 1).drop_last() == qs@.take(i as int));
            assert(qs@.take(i + 1).last() == qs@[i as int]);
        }
        if fits_exec(qs[i].min_vram_deci_gb, available) {
            r.push(copy_quant(&qs[i]));
        }
        i = i + 1;
    }
    assert(qs@.take(qs@.len() as int) == qs@);
    r
}

/// Whether one of `ids` is the string `id`.
pub open spec fn id_listed(ids: Seq<String>, id: Seq<char>) -> bool {
    exists|i: int| 0 <= i < ids.len() && #[trigger] ids[i]@ == id
}

/// Whether one of `ids` equals `id`.
pub fn id_in(ids: &Vec<String>, id: &String) -> (b: bool)
    ensures
        b == id_listed(ids@, id@),
{
    let mut i: usize = 0;
    while i < ids.len()
        invariant
            i <= ids@.len(),
            forall|j: int| 0 <= j < i ==> ids@[j]@ != id@,
        decreases ids@.len() - i,
    {
        if ids[i] == *id {
            return true;
        }
        i = i + 1;
    }
    false
}

/// Whether `r` is the recommendation for `model` within `avail`: the best
/// quantization, its fit, the quantizations the user may pick (all of them
/// when even the best is too large, else those that fit), not the default,
/// and installed when its id is among `installed_ids`.
pub open spec fn is_recommendation(
    model: CatalogModel,
    avail: int,
    installed_ids: Seq<String>,
    r: ModelRecommendation,
) -> bool {
    match best_quant(model.quantizations@, avail) {
        None => false,
        Some(b) => {
            &&& same_model(r.model, model)
            &&& r.recommended_quantization == b
            &&& r.fit == fit_of(b.min_vram_deci_gb, avail)
            &&& r.available_quantizations@ == if r.fit == ModelFit::TooLarge {
                model.quantizations@
            } else {
                fitting(model.quantizations@, avail)
            }
            &&& !r.is_default
            &&& r.installed == id_listed(installed_ids, model.id@)
        },
    }
}

/// The recommendation for `model` within `available`, or none for a model
/// without quantizations.
pub fn recommend_model(model: &CatalogModel, available: u128, installed_ids: &Vec<String>) -> (r:
    Option<ModelRecommendation>)
    ensures
        r is None <==> model.quantizations@.len() == 0,
        r matches Some(rec) ==> is_recommendation(*model, available as int, installed_ids@, rec),
{
    let best = pick_best_quantization(model, available);
    let best_quant = match best {
        Some(q) => q,
        None => {
            return None;
        },
    };
    let fit = classify_fit(best_quant.min_vram_deci_gb, available);
    let available_quantizations = if fit == ModelFit::TooLarge {
        copy_quants(&model.quantizations)
    } else {
        fitting_quants(&model.quantizations, available)
    };
    Some(
        ModelRecommendation {
            model: copy_model(model),
            recommended_quantization: best_quant,
            available_quantizations,
            fit,
            is_default: false,
            installed: id_in(installed_ids, &model.id),
        },
    )
}


// ---------------------------------------------------------------------------
// Listing order
// ---------------------------------------------------------------------------

/// Lexicographic order of strings by character, as `String::cmp` orders them
/// (UTF-8 byte order and code point order agree).
pub open spec fn str_lt(a: Seq<char>, b: Seq<char>) -> bool
    decreases a.len(),
{
    if a.len() == 0 {
        b.len() > 0
    } else if b.len() == 0 {
        false
    } else if a[0] != b[0] {
        (a[0] as u32) < (b[0] as u32)
    } else {
        str_lt(a.drop_first(), b.drop_first())
    }
}

proof fn lemma_str_lt_irreflexive(a: Seq<char>)
    ensures
        !str_lt(a, a),
    decreases a.len(),
{
    if a.len() > 0 {
        lemma_str_lt_irreflexive(a.drop_first());
    }
}

proof fn lemma_str_lt_total(a: Seq<char>, b: Seq<char>)
    ensures
        a != b ==> (str_lt(a, b) || str_lt(b, a)),
    decreases a.len(),
{
    if a.len() > 0 && b.len() > 0 {
        if a[0] != b[0] {
            vstd::utf8::char_u32_cast(a[0], a[0] as u32);
            vstd::utf8::char_u32_cast(b[0], b[0] as u32);
        } else {
            lemma_str_lt_total(a.drop_first(), b.drop_first());
            if a != b {
                assert(a.drop_first() != b.drop_first()) by {
                    if a.drop_first() == b.drop_first() {
                        assert(a =~= seq![a[0]] + a.drop_first());
                        assert(b =~= seq![b[0]] + b.drop_first());
                    }
                }
            }
        }
    } else if a.len() == 0 && b.len() == 0 {
        assert(a =~= b);
    }
}

proof fn lemma_str_lt_asymmetric(a: Seq<char>, b: Seq<char>)
    ensures
        str_lt(a, b) ==> !str_lt(b, a),
    decreases a.len(),
{
    if a.len() > 0 && b.len() > 0 && a[0] == b[0] {
        lemma_str_lt_asymmetric(a.drop_first(), b.drop_first());
    }
}

proof fn lemma_str_lt_transitive(a: Seq<char>, b: Seq<char>, c: Seq<char>)
    ensures
        str_lt(a, b) && str_lt(b, c) ==> str_lt(a, c),
    decreases a.len(),
{
    if a.len() > 0 && b.len() > 0 && c.len() > 0 {
        lemma_str_lt_transitive(a.drop_first(), b.drop_first(), c.drop_first());
    }
}

/// `str_lt` is a strict total order.
pub proof fn lemma_str_lt_order(a: Seq<char>, b: Seq<char>, c: Seq<char>)
    ensures
        !str_lt(a, a),
        a != b ==> (str_lt(a, b) || str_lt(b, a)),
        str_lt(a, b) ==> !str_lt(b, a),
        str_lt(a, b) && str_lt(b, c) ==> str_lt(a, c),
{
    lemma_str_lt_irreflexive(a);
    lemma_str_lt_total(a, b);
    lemma_str_lt_asymmetric(a, b);
    lemma_str_lt_transitive(a, b, c);
}

/// Whether `a[alo..]` sorts before `b` in `String` order.
pub fn str_less(a: &String, b: &String) -> (r: bool)
    ensures
        r == str_lt(a@, b@),
{
    let av = crate::text::chars_of(a.as_str());
    let bv = crate::text::chars_of(b.as_str());
    let mut i: usize = 0;
    assert(a@.skip(0) == a@ && b@.skip(0) == b@);
    while i < av.len() && i < bv.len() && av[i] == bv[i]
        invariant
            av@ == a@,
            bv@ == b@,
            i <= av@.len(),
            i <= bv@.len(),
            str_lt(a@, b@) == str_lt(a@.skip(i as int), b@.skip(i as int)),
        decreases av@.len() - i,
    {
        proof {
            assert(a@.skip(i as int).drop_first() == a@.skip(i + 1));
            assert(b@.skip(i as int).drop_first() == b@.skip(i + 1));
            assert(a@.skip(i as int)[0] == av@[i as int]);
            assert(b@.skip(i as int)[0] == bv@[i as int]);
        }
        i = i + 1;
    }
    proof {
        if i < av@.len() {
            assert(a@.skip(i as int)[0] == av@[i as int]);
        }
        if i < bv@.len() {
            assert(b@.skip(i as int)[0] == bv@[i as int]);
        }
    }
    if i == av.len() {
        i < bv.len()
    } else if i == bv.len() {
        false
    } else {
        (av[i] as u32) < (bv[i] as u32)
    }
}

/// Whether recommendation `a` is listed before `b`: better fit first, then
/// the default model, then more parameters, then by name.
pub open spec fn rec_before(a: ModelRecommendation, b: ModelRecommendation) -> bool {
    let ra = fit_rank_spec(a.fit);
    let rb = fit_rank_spec(b.fit);
    ||| ra < rb
    ||| ra == rb && a.is_default && !b.is_default
    ||| ra == rb && a.is_default == b.is_default && a.model.parameter_count_deci_b
        > b.model.parameter_count_deci_b
    ||| ra == rb && a.is_default == b.is_default && a.model.parameter_count_deci_b
        == b.model.parameter_count_deci_b && str_lt(a.model.name@, b.model.name@)
}

/// Whether `a` and `b` agree on every listing key.
pub open spec fn rec_tie(a: ModelRecommendation, b: ModelRecommendation) -> bool {
    &&& fit_rank_spec(a.fit) == fit_rank_spec(b.fit)
    &&& a.is_default == b.is_default
    &&& a.model.parameter_count_deci_b == b.model.parameter_count_deci_b
    &&& a.model.name@ == b.model.name@
}

/// The listing order is a strict weak order whose ties are `rec_tie`.
pub proof fn lemma_rec_order(a: ModelRecommendation, b: ModelRecommendation, c: ModelRecommendation)
    ensures
        !rec_before(a, a),
        rec_before(a, b) ==> !rec_before(b, a),
        !rec_before(a, b) && !rec_before(b, a) ==> rec_tie(a, b),
        rec_before(a, b) && rec_before(b, c) ==> rec_before(a, c),
        rec_before(a, b) && rec_tie(b, c) ==> rec_before(a, c),
        rec_tie(a, b) && rec_before(b, c) ==> rec_before(a, c),
{
    lemma_str_lt_order(a.model.name@, b.model.name@, c.model.name@);
    lemma_str_lt_order(b.model.name@, a.model.name@, c.model.name@);
}

/// Whether `a` is listed before `b`.
pub fn listed_before(a: &ModelRecommendation, b: &ModelRecommendation) -> (r: bool)
    ensures
        r == rec_before(*a, *b),
{
    let ra = fit_rank(&a.fit);
    let rb = fit_rank(&b.fit);
    if ra != rb {
        return ra < rb;
    }
    if a.is_default != b.is_default {
        return a.is_default;
    }
    if a.model.parameter_count_deci_b != b.model.parameter_count_deci_b {
        return a.model.parameter_count_deci_b > b.model.parameter_count_deci_b;
    }
    str_less(&a.model.name, &b.model.name)
}

impl ListingOrder for ModelRecommendation {
    open spec fn sorts_before(self, other: Self) -> bool {
        rec_before(self, other)
    }

    open spec fn sorts_with(self, other: Self) -> bool {
        rec_tie(self, other)
    }

    proof fn lemma_listing_order(a: Self, b: Self, c: Self) {
        lemma_rec_order(a, b, c);
    }

    fn listed_before(&self, other: &Self) -> (r: bool) {
        listed_before(self, other)
    }
}

/// `v` stably sorted by the listing order.
pub fn sort_recommendations(v: Vec<ModelRecommendation>) -> (r: Vec<ModelRecommendation>)
    ensures
        stably_sorted(v@, r@),
{
    stable_sort(v)
}

// ---------------------------------------------------------------------------
// The library
// ---------------------------------------------------------------------------

/// Position of the first recommendation marked as default, or the length.
pub open spec fn first_default(ms: Seq<ModelRecommendation>) -> int
    decreases ms.len(),
{
    if ms.len() == 0 {
        0
    } else if ms[0].is_default {
        0
    } else {
        1 + first_default(ms.drop_first())
    }
}

/// Position of the first recommendation with the fit `f`, or the length.
pub open spec fn first_with_fit(ms: Seq<ModelRecommendation>, f: ModelFit) -> int
    decreases ms.len(),
{
    if ms.len() == 0 {
        0
    } else if ms[0].fit == f {
        0
    } else {
        1 + first_with_fit(ms.drop_first(), f)
    }
}

/// Position of the first recommendation for the model `id`, or the length.
pub open spec fn rec_index(ms: Seq<ModelRecommendation>, id: Seq<char>) -> int
    decreases ms.len(),
{
    if ms.len() == 0 {
        0
    } else if ms[0].model.id@ == id {
        0
    } else {
        1 + rec_index(ms.drop_first(), id)
    }
}

proof fn lemma_first_default(ms: Seq<ModelRecommendation>, k: int)
    requires
        0 <= k <= ms.len(),
        forall|j: int| 0 <= j < k ==> !(#[trigger] ms[j]).is_default,
        k == ms.len() || ms[k].is_default,
    ensures
        first_default(ms) == k,
    decreases k,
{
    if k > 0 {
        let t = ms.drop_first();
        assert forall|j: int| 0 <= j < k - 1 implies !(#[trigger] t[j]).is_default by {
            assert(t[j] == ms[j + 1]);
        }
        if k < ms.len() {
            assert(t[k - 1] == ms[k]);
        }
        lemma_first_default(t, k - 1);
    }
}

proof fn lemma_first_with_fit(ms: Seq<ModelRecommendation>, f: ModelFit, k: int)
    requires
        0 <= k <= ms.len(),
        forall|j: int| 0 <= j < k ==> (#[trigger] ms[j]).fit != f,
        k == ms.len() || ms[k].fit == f,
    ensures
        first_with_fit(ms, f) == k,
    decreases k,
{
    if k > 0 {
        let t = ms.drop_first();
        assert forall|j: int| 0 <= j < k - 1 implies (#[trigger] t[j]).fit != f by {
            assert(t[j] == ms[j + 1]);
        }
        if k < ms.len() {
            assert(t[k - 1] == ms[k]);
        }
        lemma_first_with_fit(t, f, k - 1);
    }
}

proof fn lemma_rec_index(ms: Seq<ModelRecommendation>, id: Seq<char>, k: int)
    requires
        0 <= k <= ms.len(),
        forall|j: int| 0 <= j < k ==> (#[trigger] ms[j]).model.id@ != id,
        k == ms.len() || ms[k].model.id@ == id,
    ensures
        rec_index(ms, id) == k,
    decreases k,
{
    if k > 0 {
        let t = ms.drop_first();
        assert forall|j: int| 0 <= j < k - 1 implies (#[trigger] t[j]).model.id@ != id by {
            assert(t[j] == ms[j + 1]);
        }
        if k < ms.len() {
            assert(t[k - 1] == ms[k]);
        }
        lemma_rec_index(t, id, k - 1);
    }
}

/// The id offered as default when the library is built: that of the first
/// model marked default, else of the first recommended model.
pub open spec fn default_choice(ms: Seq<ModelRecommendation>) -> Option<String> {
    let d = first_default(ms);
    let r = first_with_fit(ms, ModelFit::Recommended);
    if d < ms.len() {
        Some(ms[d].model.id)
    } else if r < ms.len() {
        Some(ms[r].model.id)
    } else {
        None
    }
}

fn choose_default_id(ms: &Vec<ModelRecommendation>) -> (r: Option<String>)
    ensures
        r == default_choice(ms@),
{
    let mut d: usize = 0;
    while d < ms.len() && !ms[d].is_default
        invariant
            d <= ms@.len(),
            forall|j: int| 0 <= j < d ==> !(#[trigger] ms@[j]).is_default,
        decreases ms@.len() - d,
    {
        d = d + 1;
    }
    proof {
        lemma_first_default(ms@, d as int);
    }
    if d < ms.len() {
        return Some(ms[d].model.id.clone());
    }
    let mut k: usize = 0;
    while k < ms.len() && ms[k].fit != ModelFit::Recommended
        invariant
            k <= ms@.len(),
            forall|j: int| 0 <= j < k ==> (#[trigger] ms@[j]).fit != ModelFit::Recommended,
        decreases ms@.len() - k,
    {
        k = k + 1;
    }
    proof {
        lemma_first_with_fit(ms@, ModelFit::Recommended, k as int);
    }
    if k < ms.len() {
        Some(ms[k].model.id.clone())
    } else {
        None
    }
}

/// Whether `out` lists the recommendations for the models of catalog `c`,
/// one per model, in listing order with ties in catalog order; `idx[j]` is
/// the catalog position of `out[j]`.
pub open spec fn catalog_order(
    c: Seq<CatalogModel>,
    avail: int,
    ids: Seq<String>,
    out: Seq<ModelRecommendation>,
    idx: Seq<int>,
) -> bool {
    &&& idx.len() == out.len()
    &&& out.len() == c.len()
    &&& forall|j: int|
        0 <= j < out.len() ==> 0 <= #[trigger] idx[j] < c.len() && is_recommendation(
            c[idx[j]],
            avail,
            ids,
            out[j],
        )
    &&& forall|j: int, l: int| 0 <= j < l < out.len() ==> idx[j] != idx[l]
    &&& forall|j: int, l: int|
        0 <= j < l < out.len() ==> rec_before(#[trigger] out[j], #[trigger] out[l]) || (rec_tie(
            out[j],
            out[l],
        ) && idx[j] < idx[l])
}

/// Whether `lib` is the library built for profile `p` with the models whose
/// ids are `ids` installed: its budget and memory source, one recommendation
/// per curated model in listing order, and the default id.
pub open spec fn library_for(p: HardwareProfile, ids: Seq<String>, lib: ModelLibraryResponse) -> bool {
    &&& lib.available_vram_centibytes as int == budget_spec(p)
    &&& lib.memory_source@ == source_spec(p)
    &&& exists|c: Seq<CatalogModel>, idx: Seq<int>|
        is_curated_catalog(c) && catalog_order(c, budget_spec(p), ids, lib.models@, idx)
    &&& lib.default_model_id == default_choice(lib.models@)
}

/// The model library for `profile`: the budget, one recommendation per
/// curated model, sorted for listing, and the default model id. The ids of
/// the installed models are given by the caller.
pub fn build_library(profile: &HardwareProfile, installed_ids: &Vec<String>) -> (lib:
    ModelLibraryResponse)
    ensures
        library_for(*profile, installed_ids@, lib),
{
    let (available, memory_source) = inference_budget(profile);
    let c = curated_models();
    let mut unsorted: Vec<ModelRecommendation> = Vec::new();
    let mut k: usize = 0;
    while k < c.len()
        invariant
            is_curated_catalog(c@),
            available as int == budget_spec(*profile),
            k <= c@.len(),
            unsorted@.len() == k,
            forall|j: int|
                0 <= j < k ==> is_recommendation(
                    c@[j],
                    available as int,
                    installed_ids@,
                    #[trigger] unsorted@[j],
                ),
        decreases c@.len() - k,
    {
        proof {
            lemma_catalog_ids(c@, k as int);
        }
        let rec = recommend_model(&c[k], available, installed_ids);
        match rec {
            Some(r) => {
                unsorted.push(r);
            },
            None => {
                assert(false);
            },
        }
        k = k + 1;
    }
    let models = sort_recommendations(unsorted);
    proof {
        let idx = choose|idx: Seq<int>| stable_order(unsorted@, models@, idx);
        assert(stable_order(unsorted@, models@, idx));
        assert forall|j: int| 0 <= j < models@.len() implies 0 <= #[trigger] idx[j] < c@.len()
            && is_recommendation(c@[idx[j]], available as int, installed_ids@, models@[j]) by {
            assert(models@[j] == unsorted@[idx[j]]);
        }
        assert(catalog_order(c@, available as int, installed_ids@, models@, idx));
    }
    let default_model_id = choose_default_id(&models);
    ModelLibraryResponse {
        available_vram_centibytes: available,
        memory_source,
        default_model_id,
        models,
    }
}


// ---------------------------------------------------------------------------
// The default model
// ---------------------------------------------------------------------------

/// Whether a recommendation may be the default: recommended, with a
/// quantization the user may pick that takes at most 65% of `budget`.
pub open spec fn eligible(m: ModelRecommendation, budget: int) -> bool {
    &&& m.fit == ModelFit::Recommended
    &&& exists|i: int|
        0 <= i < m.available_quantizations@.len() && within_percent(
            #[trigger] m.available_quantizations@[i].min_vram_deci_gb,
            budget,
            65,
        )
}

/// Among the eligible recommendations, the last of those with the most
/// parameters.
pub open spec fn largest_eligible(ms: Seq<ModelRecommendation>, budget: int) -> Option<int>
    decreases ms.len(),
{
    if ms.len() == 0 {
        None
    } else {
        let prev = largest_eligible(ms.drop_last(), budget);
        let i = ms.len() - 1;
        if eligible(ms[i], budget) {
            match prev {
                Some(p) => if ms[i].model.parameter_count_deci_b >= ms[p].model.parameter_count_deci_b {
                    Some(i)
                } else {
                    Some(p)
                },
                None => Some(i),
            }
        } else {
            prev
        }
    }
}

/// The recommendation chosen as default: the largest eligible one, else the
/// first recommended one.
pub open spec fn default_pick(ms: Seq<ModelRecommendation>, budget: int) -> Option<int> {
    match largest_eligible(ms, budget) {
        Some(i) => Some(i),
        None => {
            let r = first_with_fit(ms, ModelFit::Recommended);
            if r < ms.len() {
                Some(r)
            } else {
                None
            }
        },
    }
}

/// Among the quantizations of `qs` that take at most 65% of `budget`, the
/// last of those needing the most memory.
pub open spec fn largest_within(qs: Seq<QuantizationOption>, budget: int) -> Option<QuantizationOption>
    decreases qs.len(),
{
    if qs.len() == 0 {
        None
    } else {
        let prev = largest_within(qs.drop_last(), budget);
        let q = qs.last();
        if within_percent(q.min_vram_deci_gb, budget, 65) {
            match prev {
                Some(p) => if q.min_vram_deci_gb >= p.min_vram_deci_gb {
                    Some(q)
                } else {
                    Some(p)
                },
                None => Some(q),
            }
        } else {
            prev
        }
    }
}

/// The quantization the default model recommends among `qs`: `Q4_K_M` when
/// offered within 65% of `budget`, else the largest within 65% of it, if any.
pub open spec fn default_quant(qs: Seq<QuantizationOption>, budget: int) -> Option<QuantizationOption> {
    let k = quant_index(qs, preferred_quant_id());
    if k < qs.len() && within_percent(qs[k].min_vram_deci_gb, budget, 65) {
        Some(qs[k])
    } else {
        largest_within(qs, budget)
    }
}

/// Whether `after` is `before` once the model `best_id` is made the default:
/// marked default exactly when its id is `best_id`, and then recommending
/// `default_quant` of its quantizations when there is one.
pub open spec fn marked_entry(
    before: ModelRecommendation,
    after: ModelRecommendation,
    best_id: Seq<char>,
    budget: int,
) -> bool {
    &&& after.model == before.model
    &&& after.available_quantizations == before.available_quantizations
    &&& after.fit == before.fit
    &&& after.installed == before.installed
    &&& after.is_default == (before.model.id@ == best_id)
    &&& after.recommended_quantization == if after.is_default {
        match default_quant(before.available_quantizations@, budget) {
            Some(q) => q,
            None => before.recommended_quantization,
        }
    } else {
        before.recommended_quantization
    }
}

/// Whether `after` is the library `before` with its default model marked.
pub open spec fn marked(before: ModelLibraryResponse, after: ModelLibraryResponse) -> bool {
    let ms = before.models@;
    let budget = before.available_vram_centibytes as int;
    &&& after.available_vram_centibytes == before.available_vram_centibytes
    &&& after.memory_source == before.memory_source
    &&& match default_pick(ms, budget) {
        None => after.default_model_id == before.default_model_id && after.models@ == ms,
        Some(b) => {
            &&& after.default_model_id == Some(ms[b].model.id)
            &&& after.models@.len() == ms.len()
            &&& forall|i: int|
                0 <= i < ms.len() ==> marked_entry(
                    ms[i],
                    #[trigger] after.models@[i],
                    ms[b].model.id@,
                    budget,
                )
        },
    }
}

fn is_eligible(m: &ModelRecommendation, budget: u128) -> (b: bool)
    ensures
        b == eligible(*m, budget as int),
{
    if m.fit != ModelFit::Recommended {
        return false;
    }
    let qs = &m.available_quantizations;
    let mut i: usize = 0;
    while i < qs.len()
        invariant
            qs@ == m.available_quantizations@,
            m.fit == ModelFit::Recommended,
            i <= qs@.len(),
            forall|j: int| 0 <= j < i ==> !within_percent(#[trigger] qs@[j].min_vram_deci_gb, budget as int, 65),
        decreases qs@.len() - i,
    {
        if within_percent_exec(qs[i].min_vram_deci_gb, budget, 65) {
            assert(within_percent(m.available_quantizations@[i as int].min_vram_deci_gb, budget as int, 65));
            return true;
        }
        i = i + 1;
    }
    false
}

fn pick_default(ms: &Vec<ModelRecommendation>, budget: u128) -> (r: Option<usize>)
    ensures
        r matches Some(b) ==> b < ms@.len(),
        match r {
            Some(b) => default_pick(ms@, budget as int) == Some(b as int),
            None => default_pick(ms@, budget as int) is None,
        },
{
    let mut best: Option<usize> = None;
    let mut i: usize = 0;
    while i < ms.len()
        invariant
            i <= ms@.len(),
            match best {
                Some(b) => b < i && largest_eligible(ms@.take(i as int), budget as int) == Some(b as int),
                None => largest_eligible(ms@.take(i as int), budget as int) is None,
            },
        decreases ms@.len() - i,
    {
        proof {
            let t = ms@.take(i + 1);
            assert(t.drop_last() == ms@.take(i as int));
            assert(t[i as int] == ms@[i as int]);
            if let Some(b) = best {
                assert(t[b as int] == ms@[b as int]);
            }
        }
        if is_eligible(&ms[i], budget) {
            match best {
                Some(b) => {
                    if ms[i].model.parameter_count_deci_b >= ms[b].model.parameter_count_deci_b {
                        best = Some(i);
                    }
                },
                None => {
                    best = Some(i);
                },
            }
        }
        i = i + 1;
    }
    assert(ms@.take(ms@.len() as int) == ms@);
    if best.is_some() {
        return best;
    }
    let mut k: usize = 0;
    while k < ms.len() && ms[k].fit != ModelFit::Recommended
        invariant
            k <= ms@.len(),
            forall|j: int| 0 <= j < k ==> (#[trigger] ms@[j]).fit != ModelFit::Recommended,
        decreases ms@.len() - k,
    {
        k = k + 1;
    }
    proof {
        lemma_first_with_fit(ms@, ModelFit::Recommended, k as int);
    }
    if k < ms.len() {
        Some(k)
    } else {
        None
    }
}

fn pick_default_quant(qs: &Vec<QuantizationOption>, budget: u128) -> (r: Option<QuantizationOption>)
    ensures
        r == default_quant(qs@, budget as int),
{
    if let Some(k) = find_quant_in(qs, "Q4_K_M") {
        if within_percent_exec(qs[k].min_vram_deci_gb, budget, 65) {
            return Some(copy_quant(&qs[k]));
        }
    }
    pick_largest_within(qs, budget)
}

fn pick_largest_within(qs: &Vec<QuantizationOption>, budget: u128) -> (r: Option<QuantizationOption>)
    ensures
        r == largest_within(qs@, budget as int),
{
    let mut best: Option<usize> = None;
    let mut i: usize = 0;
    while i < qs.len()
        invariant
            i <= qs@.len(),
            match best {
                Some(b) => b < i && largest_within(qs@.take(i as int), budget as int) == Some(qs@[b as int]),
                None => largest_within(qs@.take(i as int), budget as int) is None,
            },
        decreases qs@.len() - i,
    {
        proof {
            assert(qs@.take(i + 1).drop_last() == qs@.take(i as int));
            assert(qs@.take(i + 1).last() == qs@[i as int]);
        }
        if within_percent_exec(qs[i].min_vram_deci_gb, budget, 65) {
            match best {
                Some(b) => {
                    if qs[i].min_vram_deci_gb >= qs[b].min_vram_deci_gb {
                        best = Some(i);
                    }
                },
                None => {
                    best = Some(i);
                },
            }
        }
        i = i + 1;
    }
    assert(qs@.take(qs@.len() as int) == qs@);
    match best {
        Some(b) => Some(copy_quant(&qs[b])),
        None => None,
    }
}

/// Marks the library's default model: the recommended model with the most
/// parameters that has a quantization within 65% of the budget (the last such
/// on a tie), else the first recommended model. Every entry for that model id
/// is marked default and recommends its largest quantization within 65% of
/// the budget, when it has one; all other entries are unmarked.
pub fn mark_default_model(library: &mut ModelLibraryResponse)
    ensures
        marked(*old(library), *final(library)),
{
    let budget = library.available_vram_centibytes;
    let pick = pick_default(&library.models, budget);
    let b = match pick {
        Some(b) => b,
        None => {
            return;
        },
    };
    let ghost before = library.models@;
    let best_id = library.models[b].model.id.clone();
    library.default_model_id = Some(best_id.clone());
    let mut rest: Vec<ModelRecommendation> = Vec::new();
    std::mem::swap(&mut rest, &mut library.models);
    let mut out: Vec<ModelRecommendation> = Vec::new();
    let mut n: usize = 0;
    let total = rest.len();
    while rest.len() > 0
        invariant
            total == before.len(),
            n <= before.len(),
            rest@ == before.skip(n as int),
            out@.len() == n,
            best_id@ == before[b as int].model.id@,
            forall|i: int|
                0 <= i < n ==> marked_entry(
                    before[i],
                    #[trigger] out@[i],
                    best_id@,
                    budget as int,
                ),
        decreases rest@.len(),
    {
        let mut m = rest.remove(0);
        assert(m == before[n as int]);
        let is_default = m.model.id == best_id;
        m.is_default = is_default;
        if is_default {
            let q = pick_default_quant(&m.available_quantizations, budget);
            match q {
                Some(q) => {
                    m.recommended_quantization = q;
                },
                None => {},
            }
        }
        out.push(m);
        proof {
            assert(rest@ == before.skip(n + 1));
        }
        n = n + 1;
    }
    library.models = out;
}

proof fn lemma_largest_eligible(ms: Seq<ModelRecommendation>, budget: int)
    ensures
        largest_eligible(ms, budget) matches Some(i) ==> {
            &&& 0 <= i < ms.len()
            &&& eligible(ms[i], budget)
            &&& forall|j: int|
                0 <= j < ms.len() && eligible(#[trigger] ms[j], budget)
                    ==> ms[j].model.parameter_count_deci_b <= ms[i].model.parameter_count_deci_b
        },
        largest_eligible(ms, budget) is None ==> forall|j: int| 0 <= j < ms.len() ==> !eligible(#[trigger] ms[j], budget),
    decreases ms.len(),
{
    if ms.len() > 0 {
        let init = ms.drop_last();
        lemma_largest_eligible(init, budget);
        let last = ms.len() - 1;
        match largest_eligible(ms, budget) {
            Some(i) => {
                assert forall|j: int|
                    0 <= j < ms.len() && eligible(#[trigger] ms[j], budget)
                        implies ms[j].model.parameter_count_deci_b <= ms[i].model.parameter_count_deci_b by {
                    if j < last {
                        assert(init[j] == ms[j]);
                        assert(eligible(init[j], budget));
                    }
                    match largest_eligible(init, budget) {
                        Some(pi) => {
                            assert(init[pi] == ms[pi]);
                        },
                        None => {},
                    }
                }
                match largest_eligible(init, budget) {
                    Some(pi) => {
                        assert(init[pi] == ms[pi]);
                    },
                    None => {},
                }
            },
            None => {
                assert forall|j: int| 0 <= j < ms.len() implies !eligible(#[trigger] ms[j], budget) by {
                    if j < last {
                        assert(init[j] == ms[j]);
                    }
                }
            },
        }
    }
}

proof fn lemma_first_with_fit_bounds(ms: Seq<ModelRecommendation>, f: ModelFit)
    ensures
        0 <= first_with_fit(ms, f) <= ms.len(),
        first_with_fit(ms, f) < ms.len() ==> ms[first_with_fit(ms, f)].fit == f,
        forall|j: int| 0 <= j < first_with_fit(ms, f) ==> (#[trigger] ms[j]).fit != f,
    decreases ms.len(),
{
    if ms.len() > 0 && ms[0].fit != f {
        let t = ms.drop_first();
        lemma_first_with_fit_bounds(t, f);
        assert forall|j: int| 0 <= j < first_with_fit(ms, f) implies (#[trigger] ms[j]).fit != f by {
            if j > 0 {
                assert(ms[j] == t[j - 1]);
            }
        }
        if first_with_fit(ms, f) < ms.len() {
            assert(ms[first_with_fit(ms, f)] == t[first_with_fit(t, f)]);
        }
    }
}

/// The default pick is a recommended model. When some recommended model has
/// a quantization within 65% of the budget, the pick is such a model and
/// none of those has more parameters; when no model is recommended there is
/// no pick.
pub proof fn law_default_pick(ms: Seq<ModelRecommendation>, budget: int)
    ensures
        default_pick(ms, budget) matches Some(i) ==> 0 <= i < ms.len() && ms[i].fit == ModelFit::Recommended,
        (exists|j: int| 0 <= j < ms.len() && eligible(#[trigger] ms[j], budget)) ==> (default_pick(ms, budget) matches Some(i)
            && eligible(ms[i], budget) && forall|j: int|
            0 <= j < ms.len() && eligible(#[trigger] ms[j], budget)
                ==> ms[j].model.parameter_count_deci_b <= ms[i].model.parameter_count_deci_b),
        (forall|j: int| 0 <= j < ms.len() ==> (#[trigger] ms[j]).fit != ModelFit::Recommended) ==> default_pick(ms, budget) is None,
{
    lemma_largest_eligible(ms, budget);
    lemma_first_with_fit_bounds(ms, ModelFit::Recommended);
}

/// In a library built for some machine and then given its default, at most
/// one model is marked default, and a model marked default is a recommended
/// one.
pub proof fn law_single_default(
    p: HardwareProfile,
    ids: Seq<String>,
    built: ModelLibraryResponse,
    after: ModelLibraryResponse,
)
    requires
        library_for(p, ids, built),
        marked(built, after),
    ensures
        forall|i: int, j: int|
            0 <= i < after.models@.len() && 0 <= j < after.models@.len() && (#[trigger] after.models@[i]).is_default
                && (#[trigger] after.models@[j]).is_default ==> i == j,
        forall|i: int| 0 <= i < after.models@.len() && (#[trigger] after.models@[i]).is_default ==> after.models@[i].fit
            == ModelFit::Recommended,
{
    let ms = built.models@;
    let budget = built.available_vram_centibytes as int;
    let (c, idx) = choose|c: Seq<CatalogModel>, idx: Seq<int>|
        is_curated_catalog(c) && catalog_order(c, budget_spec(p), ids, built.models@, idx);
    assert forall|i: int, j: int| 0 <= i < ms.len() && 0 <= j < ms.len() && i != j implies ms[i].model.id@
        != ms[j].model.id@ by {
        assert(is_recommendation(c[idx[i]], budget_spec(p), ids, ms[i]));
        assert(is_recommendation(c[idx[j]], budget_spec(p), ids, ms[j]));
        lemma_catalog_ids(c, idx[i]);
        lemma_catalog_ids(c, idx[j]);
        lemma_catalog_ids_distinct(idx[i], idx[j]);
    }
    assert forall|i: int| 0 <= i < ms.len() && ms[i].is_default implies false by {
        assert(is_recommendation(c[idx[i]], budget_spec(p), ids, ms[i]));
    }
    law_default_pick(ms, budget);
    match default_pick(ms, budget) {
        None => {},
        Some(b) => {
            assert forall|i: int| 0 <= i < after.models@.len() && (#[trigger] after.models@[i]).is_default implies i == b by {
                assert(marked_entry(ms[i], after.models@[i], ms[b].model.id@, budget));
            }
            assert forall|i: int| 0 <= i < after.models@.len() && (#[trigger] after.models@[i]).is_default implies after.models@[i].fit
                == ModelFit::Recommended by {
                assert(marked_entry(ms[i], after.models@[i], ms[b].model.id@, budget));
            }
        },
    }
}

// ---------------------------------------------------------------------------
// Choosing what to download
// ---------------------------------------------------------------------------

/// A memory amount in tenths of a GiB, written with one decimal.
pub open spec fn one_decimal(deci: u32) -> Seq<char> {
    decimal((deci / 10) as nat) + seq!['.', crate::text::digit_char((deci % 10) as nat)]
}

/// The quantization picked for `rec`: the one with id `qid`, else the
/// recommended one.
pub open spec fn chosen_quant(rec: ModelRecommendation, qid: Seq<char>) -> QuantizationOption {
    let qs = rec.model.quantizations@;
    let k = quant_index(qs, qid);
    if k < qs.len() {
        qs[k]
    } else {
        rec.recommended_quantization
    }
}

/// Whether `r` answers a request for model `id` in quantization `qid` from
/// `lib`: unknown models and models too large for the budget are refused,
/// as is a picked quantization that does not fit; otherwise the model and
/// the picked quantization.
pub open spec fn selection(
    lib: ModelLibraryResponse,
    id: Seq<char>,
    qid: Seq<char>,
    r: Result<(CatalogModel, QuantizationOption), String>,
) -> bool {
    let ms = lib.models@;
    let k = rec_index(ms, id);
    if k >= ms.len() {
        r matches Err(e) && e@ == "Unknown model: "@ + id
    } else {
        let rec = ms[k];
        let q = chosen_quant(rec, qid);
        if rec.fit == ModelFit::TooLarge {
            r matches Err(e) && e@ == rec.model.name@ + " requires more VRAM than your "@
                + lib.memory_source@ + " can provide."@
        } else if !fits(q.min_vram_deci_gb, lib.available_vram_centibytes as int) {
            r matches Err(e) && e@ == rec.model.name@ + " "@ + q.label@ + " needs at least "@
                + one_decimal(q.min_vram_deci_gb) + "GB VRAM."@
        } else {
            r matches Ok(pair) && pair.0 == rec.model && pair.1 == q
        }
    }
}

/// Picks model `model_id` in quantization `quantization_id` from `library`,
/// or says why it cannot be run.
pub fn select_from_library(library: ModelLibraryResponse, model_id: &str, quantization_id: &str)
    -> (r: Result<(CatalogModel, QuantizationOption), String>)
    ensures
        selection(library, model_id@, quantization_id@, r),
{
    let mut models = library.models;
    let ghost ms = models@;
    let mut k: usize = 0;
    while k < models.len() && !(models[k].model.id == String::from_str(model_id))
        invariant
            models@ == ms,
            k <= ms.len(),
            forall|j: int| 0 <= j < k ==> (#[trigger] ms[j]).model.id@ != model_id@,
        decreases ms.len() - k,
    {
        k = k + 1;
    }
    proof {
        lemma_rec_index(ms, model_id@, k as int);
    }
    if k == models.len() {
        let mut e = String::from_str("Unknown model: ");
        e.append(model_id);
        return Err(e);
    }
    let rec = models.remove(k);
    assert(rec == ms[k as int]);
    if rec.fit == ModelFit::TooLarge {
        let mut e = rec.model.name.clone();
        e.append(" requires more VRAM than your ");
        e.append(library.memory_source.as_str());
        e.append(" can provide.");
        return Err(e);
    }
    let quantization = match find_quantization(&rec.model, quantization_id) {
        Some(q) => copy_quant(q),
        None => copy_quant(&rec.recommended_quantization),
    };
    if !fits_exec(quantization.min_vram_deci_gb, library.available_vram_centibytes) {
        let mut e = rec.model.name.clone();
        e.append(" ");
        e.append(quantization.label.as_str());
        e.append(" needs at least ");
        let mut amount = String::new();
        push_decimal(&mut amount, (quantization.min_vram_deci_gb / 10) as u64);
        push_char(&mut amount, '.');
        push_char(&mut amount, crate::text::digit_of(quantization.min_vram_deci_gb % 10));
        assert(amount@ =~= one_decimal(quantization.min_vram_deci_gb));
        e.append(amount.as_str());
        e.append("GB VRAM.");
        return Err(e);
    }
    Ok((rec.model, quantization))
}

proof fn lemma_rec_index_bounds(ms: Seq<ModelRecommendation>, id: Seq<char>)
    ensures
        0 <= rec_index(ms, id) <= ms.len(),
        rec_index(ms, id) < ms.len() ==> ms[rec_index(ms, id)].model.id@ == id,
        rec_index(ms, id) == ms.len() ==> forall|j: int| 0 <= j < ms.len() ==> (#[trigger] ms[j]).model.id@ != id,
    decreases ms.len(),
{
    if ms.len() > 0 && ms[0].model.id@ != id {
        let t = ms.drop_first();
        lemma_rec_index_bounds(t, id);
        if rec_index(ms, id) < ms.len() {
            assert(ms[rec_index(ms, id)] == t[rec_index(t, id)]);
        }
        assert forall|j: int| 0 <= j < ms.len() && rec_index(ms, id) == ms.len() implies (#[trigger] ms[j]).model.id@ != id by {
            if j > 0 {
                assert(ms[j] == t[j - 1]);
            }
        }
    }
}

proof fn lemma_quant_index_found(qs: Seq<QuantizationOption>, id: Seq<char>)
    ensures
        0 <= quant_index(qs, id) <= qs.len(),
        quant_index(qs, id) < qs.len() ==> qs[quant_index(qs, id)].id@ == id,
        quant_index(qs, id) == qs.len() ==> forall|j: int| 0 <= j < qs.len() ==> (#[trigger] qs[j]).id@ != id,
    decreases qs.len(),
{
    if qs.len() > 0 && qs[0].id@ != id {
        let t = qs.drop_first();
        lemma_quant_index_found(t, id);
        if quant_index(qs, id) < qs.len() {
            assert(qs[quant_index(qs, id)] == t[quant_index(t, id)]);
        }
        assert forall|j: int| 0 <= j < qs.len() && quant_index(qs, id) == qs.len() implies (#[trigger] qs[j]).id@ != id by {
            if j > 0 {
                assert(qs[j] == t[j - 1]);
            }
        }
    }
}

/// A download request gets the model it names and, when that model offers a
/// quantization with the requested id, exactly that quantization; only when
/// it offers none with that id is the recommended one used. When the model is
/// in the library, is not too large, offers the requested id and every offer
/// with that id fits the budget, the request succeeds with it.
pub proof fn law_requested_quantization(
    lib: ModelLibraryResponse,
    id: Seq<char>,
    qid: Seq<char>,
    r: Result<(CatalogModel, QuantizationOption), String>,
)
    requires
        selection(lib, id, qid, r),
    ensures
        r matches Ok(pair) ==> pair.0.id@ == id,
        r matches Ok(pair) ==> ((exists|j: int| 0 <= j < pair.0.quantizations@.len() && (#[trigger] pair.0.quantizations@[j]).id@ == qid)
            ==> pair.1.id@ == qid && pair.0.quantizations@.contains(pair.1)),
        r matches Ok(pair) ==> ((forall|j: int| 0 <= j < pair.0.quantizations@.len() ==> (#[trigger] pair.0.quantizations@[j]).id@ != qid)
            ==> exists|k: int| 0 <= k < lib.models@.len() && lib.models@[k].model == pair.0 && pair.1 == lib.models@[k].recommended_quantization),
        ({
            let ms = lib.models@;
            forall|k: int|
                0 <= k < ms.len() && (#[trigger] ms[k]).model.id@ == id && (forall|j: int| 0 <= j < k ==> ms[j].model.id@ != id)
                    && ms[k].fit != ModelFit::TooLarge && (exists|j: int| 0 <= j < ms[k].model.quantizations@.len()
                    && (#[trigger] ms[k].model.quantizations@[j]).id@ == qid) && (forall|j: int|
                    0 <= j < ms[k].model.quantizations@.len() && (#[trigger] ms[k].model.quantizations@[j]).id@ == qid
                        ==> fits(ms[k].model.quantizations@[j].min_vram_deci_gb, lib.available_vram_centibytes as int))
                    ==> (r matches Ok(pair) && pair.1.id@ == qid)
        }),
{
    let ms = lib.models@;
    lemma_rec_index_bounds(ms, id);
    let k = rec_index(ms, id);
    if k < ms.len() {
        lemma_quant_index_found(ms[k].model.quantizations@, qid);
        let qs = ms[k].model.quantizations@;
        let qi = quant_index(qs, qid);
        if qi < qs.len() {
            assert(qs.contains(qs[qi]));
        }
        assert forall|k2: int|
            0 <= k2 < ms.len() && (#[trigger] ms[k2]).model.id@ == id && (forall|j: int| 0 <= j < k2 ==> ms[j].model.id@ != id)
                && ms[k2].fit != ModelFit::TooLarge && (exists|j: int| 0 <= j < ms[k2].model.quantizations@.len()
                && (#[trigger] ms[k2].model.quantizations@[j]).id@ == qid) && (forall|j: int|
                0 <= j < ms[k2].model.quantizations@.len() && (#[trigger] ms[k2].model.quantizations@[j]).id@ == qid
                    ==> fits(ms[k2].model.quantizations@[j].min_vram_deci_gb, lib.available_vram_centibytes as int))
                implies (r matches Ok(pair) && pair.1.id@ == qid) by {
            lemma_rec_index(ms, id, k2);
            assert(qs[qi].id@ == qid);
        }
    } else {
        assert forall|k2: int|
            0 <= k2 < ms.len() && (#[trigger] ms[k2]).model.id@ == id && (forall|j: int| 0 <= j < k2 ==> ms[j].model.id@ != id)
                && ms[k2].fit != ModelFit::TooLarge && (exists|j: int| 0 <= j < ms[k2].model.quantizations@.len()
                && (#[trigger] ms[k2].model.quantizations@[j]).id@ == qid) && (forall|j: int|
                0 <= j < ms[k2].model.quantizations@.len() && (#[trigger] ms[k2].model.quantizations@[j]).id@ == qid
                    ==> fits(ms[k2].model.quantizations@[j].min_vram_deci_gb, lib.available_vram_centibytes as int))
                implies (r matches Ok(pair) && pair.1.id@ == qid) by {
            assert(ms[k2].model.id@ != id);
        }
    }
}

/// Without a reported adapter memory the budget comes from system RAM: at
/// least 3 GiB and at least 45% of the RAM, and exactly 45% of it once that
/// reaches 3 GiB; an adapter that reports its memory gives that memory. The
/// built library carries that budget. Amounts in hundredths of a byte.
pub proof fn law_inference_budget(p: HardwareProfile, ids: Seq<String>, lib: ModelLibraryResponse)
    requires
        library_for(p, ids, lib),
    ensures
        lib.available_vram_centibytes as int == budget_spec(p),
        (p.primary_gpu matches Some(g) && g.vram_bytes is Some) ==> budget_spec(p) == p.primary_gpu->0.vram_bytes->0 * 100,
        !(p.primary_gpu matches Some(g) && g.vram_bytes is Some) ==> {
            &&& budget_spec(p) >= 3 * GIB * 100
            &&& budget_spec(p) >= p.total_ram_bytes * 45
            &&& p.total_ram_bytes * 45 >= 3 * GIB * 100 ==> budget_spec(p) == p.total_ram_bytes * 45
            &&& source_spec(p) == "system RAM (CPU fallback)"@
        },
{
}

/// Resolves which model and quantization to download for `profile`: the
/// library is built (installed models play no part in the choice), its
/// default marked, and the request picked from it.
pub fn resolve_selection(model_id: &str, quantization_id: &str, profile: &HardwareProfile) -> (r:
    Result<(CatalogModel, QuantizationOption), String>)
    ensures
        exists|built: ModelLibraryResponse, with_default: ModelLibraryResponse|
            library_for(*profile, Seq::empty(), built) && marked(built, with_default) && selection(
                with_default,
                model_id@,
                quantization_id@,
                r,
            ),
{
    let no_ids: Vec<String> = Vec::new();
    let mut library = build_library(profile, &no_ids);
    let ghost built = library;
    mark_default_model(&mut library);
    let ghost with_default = library;
    let r = select_from_library(library, model_id, quantization_id);
    assert(library_for(*profile, Seq::empty(), built) && marked(built, with_default) && selection(
        with_default,
        model_id@,
        quantization_id@,
        r,
    ));
    r
}

} // verus!
