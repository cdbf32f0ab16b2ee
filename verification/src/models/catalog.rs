//! The curated catalog of GGUF models that the agent offers.
use vstd::prelude::*;
use super::types::{CatalogModel, QuantizationOption};
use crate::text::same_text;

verus! {

/// Whether `q` holds exactly the given values.
pub open spec fn quant_is(
    q: QuantizationOption,
    id: Seq<char>,
    label: Seq<char>,
    min_vram_deci_gb: u32,
    file_size_bytes: u64,
    download_url: Seq<char>,
    filename: Seq<char>,
) -> bool {
    &&& q.id@ == id
    &&& q.label@ == label
    &&& q.min_vram_deci_gb == min_vram_deci_gb
    &&& q.file_size_bytes == file_size_bytes
    &&& q.download_url@ == download_url
    &&& q.filename@ == filename
}

/// Whether `m` holds exactly the given values, quantizations aside.
pub open spec fn model_is(
    m: CatalogModel,
    id: Seq<char>,
    name: Seq<char>,
    family: Seq<char>,
    parameter_count_deci_b: u32,
    description: Seq<char>,
) -> bool {
    &&& m.id@ == id
    &&& m.name@ == name
    &&& m.family@ == family
    &&& m.parameter_count_deci_b == parameter_count_deci_b
    &&& m.description@ == description
}

/// The number of models in the curated catalog.
pub open spec fn catalog_len() -> int {
    6
}

/// The id of the curated model at position `i`.
pub open spec fn catalog_id(i: int) -> Seq<char> {
    if i == 0 {
        "llama-3.2-3b-instruct"@
    } else if i == 1 {
        "phi-3.5-mini-instruct"@
    } else if i == 2 {
        "qwen2.5-7b-instruct"@
    } else if i == 3 {
        "mistral-7b-instruct-v0.3"@
    } else if i == 4 {
        "llama-3.1-8b-instruct"@
    } else if i == 5 {
        "qwen2.5-14b-instruct"@
    } else {
        Seq::empty()
    }
}

/// The name of the curated model at position `i`.
pub open spec fn catalog_name(i: int) -> Seq<char> {
    if i == 0 {
        "Llama 3.2 3B Instruct"@
    } else if i == 1 {
        "Phi-3.5 Mini Instruct"@
    } else if i == 2 {
        "Qwen2.5 7B Instruct"@
    } else if i == 3 {
        "Mistral 7B Instruct v0.3"@
    } else if i == 4 {
        "Llama 3.1 8B Instruct"@
    } else if i == 5 {
        "Qwen2.5 14B Instruct"@
    } else {
        Seq::empty()
    }
}

/// Whether `m` is, value for value, the curated model at position `i`.
pub open spec fn catalog_entry(m: CatalogModel, i: int) -> bool {
    if i == 0 {
        model_is(m, "llama-3.2-3b-instruct"@, "Llama 3.2 3B Instruct"@, "Meta Llama"@, 30, "Fast, lightweight general-purpose model. Great first pick for 8GB GPUs or CPU fallback."@)
        && m.quantizations@.len() == 2
        && quant_is(m.quantizations@[0], "Q4_K_M"@, "Q4_K_M (balanced)"@, 30, 2010000000, "https://huggingface.co/bartowski/Llama-3.2-3B-Instruct-GGUF/resolve/main/Llama-3.2-3B-Instruct-Q4_K_M.gguf"@, "Llama-3.2-3B-Instruct-Q4_K_M.gguf"@)
        && quant_is(m.quantizations@[1], "Q5_K_M"@, "Q5_K_M (higher quality)"@, 35, 2350000000, "https://huggingface.co/bartowski/Llama-3.2-3B-Instruct-GGUF/resolve/main/Llama-3.2-3B-Instruct-Q5_K_M.gguf"@, "Llama-3.2-3B-Instruct-Q5_K_M.gguf"@)
    } else if i == 1 {
        model_is(m, "phi-3.5-mini-instruct"@, "Phi-3.5 Mini Instruct"@, "Microsoft Phi"@, 38, "Strong reasoning for its size. Ideal when VRAM is tight but you want better quality than 3B."@)
        && m.quantizations@.len() == 2
        && quant_is(m.quantizations@[0], "Q4_K_M"@, "Q4_K_M (balanced)"@, 32, 2300000000, "https://huggingface.co/bartowski/Phi-3.5-mini-instruct-GGUF/resolve/main/Phi-3.5-mini-instruct-Q4_K_M.gguf"@, "Phi-3.5-mini-instruct-Q4_K_M.gguf"@)
        && quant_is(m.quantizations@[1], "Q8_0"@, "Q8_0 (best quality)"@, 50, 4100000000, "https://huggingface.co/bartowski/Phi-3.5-mini-instruct-GGUF/resolve/main/Phi-3.5-mini-instruct-Q8_0.gguf"@, "Phi-3.5-mini-instruct-Q8_0.gguf"@)
    } else if i == 2 {
        model_is(m, "qwen2.5-7b-instruct"@, "Qwen2.5 7B Instruct"@, "Alibaba Qwen"@, 70, "Excellent 7B all-rounder for coding and chat. Recommended default for 12GB GPUs."@)
        && m.quantizations@.len() == 2
        && quant_is(m.quantizations@[0], "Q4_K_M"@, "Q4_K_M (balanced)"@, 50, 4680000000, "https://huggingface.co/bartowski/Qwen2.5-7B-Instruct-GGUF/resolve/main/Qwen2.5-7B-Instruct-Q4_K_M.gguf"@, "Qwen2.5-7B-Instruct-Q4_K_M.gguf"@)
        && quant_is(m.quantizations@[1], "Q5_K_M"@, "Q5_K_M (higher quality)"@, 60, 5450000000, "https://huggingface.co/bartowski/Qwen2.5-7B-Instruct-GGUF/resolve/main/Qwen2.5-7B-Instruct-Q5_K_M.gguf"@, "Qwen2.5-7B-Instruct-Q5_K_M.gguf"@)
    } else if i == 3 {
        model_is(m, "mistral-7b-instruct-v0.3"@, "Mistral 7B Instruct v0.3"@, "Mistral AI"@, 70, "Proven 7B workhorse with fast inference. Strong choice for general API workloads."@)
        && m.quantizations@.len() == 2
        && quant_is(m.quantizations@[0], "Q4_K_M"@, "Q4_K_M (balanced)"@, 50, 4370000000, "https://huggingface.co/bartowski/Mistral-7B-Instruct-v0.3-GGUF/resolve/main/Mistral-7B-Instruct-v0.3-Q4_K_M.gguf"@, "Mistral-7B-Instruct-v0.3-Q4_K_M.gguf"@)
        && quant_is(m.quantizations@[1], "Q5_K_M"@, "Q5_K_M (higher quality)"@, 60, 5150000000, "https://huggingface.co/bartowski/Mistral-7B-Instruct-v0.3-GGUF/resolve/main/Mistral-7B-Instruct-v0.3-Q5_K_M.gguf"@, "Mistral-7B-Instruct-v0.3-Q5_K_M.gguf"@)
    } else if i == 4 {
        model_is(m, "llama-3.1-8b-instruct"@, "Llama 3.1 8B Instruct"@, "Meta Llama"@, 80, "High-quality 8B model for production-style chat APIs when you have 12GB+ VRAM."@)
        && m.quantizations@.len() == 2
        && quant_is(m.quantizations@[0], "Q4_K_M"@, "Q4_K_M (balanced)"@, 55, 4920000000, "https://huggingface.co/bartowski/Meta-Llama-3.1-8B-Instruct-GGUF/resolve/main/Meta-Llama-3.1-8B-Instruct-Q4_K_M.gguf"@, "Meta-Llama-3.1-8B-Instruct-Q4_K_M.gguf"@)
        && quant_is(m.quantizations@[1], "Q5_K_M"@, "Q5_K_M (higher quality)"@, 65, 5730000000, "https://huggingface.co/bartowski/Meta-Llama-3.1-8B-Instruct-GGUF/resolve/main/Meta-Llama-3.1-8B-Instruct-Q5_K_M.gguf"@, "Meta-Llama-3.1-8B-Instruct-Q5_K_M.gguf"@)
    } else if i == 5 {
        model_is(m, "qwen2.5-14b-instruct"@, "Qwen2.5 14B Instruct"@, "Alibaba Qwen"@, 140, "Larger model for 16GB+ GPUs. Better quality for complex prompts and longer context."@)
        && m.quantizations@.len() == 2
        && quant_is(m.quantizations@[0], "Q4_K_M"@, "Q4_K_M (balanced)"@, 100, 8900000000, "https://huggingface.co/bartowski/Qwen2.5-14B-Instruct-GGUF/resolve/main/Qwen2.5-14B-Instruct-Q4_K_M.gguf"@, "Qwen2.5-14B-Instruct-Q4_K_M.gguf"@)
        && quant_is(m.quantizations@[1], "Q5_K_M"@, "Q5_K_M (higher quality)"@, 120, 10200000000, "https://huggingface.co/bartowski/Qwen2.5-14B-Instruct-GGUF/resolve/main/Qwen2.5-14B-Instruct-Q5_K_M.gguf"@, "Qwen2.5-14B-Instruct-Q5_K_M.gguf"@)
    } else {
        false
    }
}

/// The first curated position at or after `i` whose id is `id`, or the
/// catalog length.
pub open spec fn catalog_position_from(id: Seq<char>, i: int) -> int
    decreases catalog_len() - i,
{
    if i >= catalog_len() {
        catalog_len()
    } else if catalog_id(i) == id {
        i
    } else {
        catalog_position_from(id, i + 1)
    }
}

/// The position of the curated model whose id is `id`, or the catalog length.
pub open spec fn catalog_position(id: Seq<char>) -> int {
    catalog_position_from(id, 0)
}

proof fn lemma_catalog_position(id: Seq<char>, i: int, k: int)
    requires
        0 <= i <= k <= catalog_len(),
        forall|j: int| i <= j < k ==> catalog_id(j) != id,
        k == catalog_len() || catalog_id(k) == id,
    ensures
        catalog_position_from(id, i) == k,
    decreases k - i,
{
    if i < k {
        lemma_catalog_position(id, i + 1, k);
    }
}

/// Whether `c` is the curated catalog, in its order.
pub open spec fn is_curated_catalog(c: Seq<CatalogModel>) -> bool {
    c.len() == catalog_len() && forall|i: int| 0 <= i < catalog_len() ==> #[trigger] catalog_entry(c[i], i)
}

/// Every curated model has its own id, and the id of the entry is the model's.
pub proof fn lemma_catalog_ids(c: Seq<CatalogModel>, i: int)
    requires
        is_curated_catalog(c),
        0 <= i < catalog_len(),
    ensures
        c[i].id@ == catalog_id(i),
        c[i].name@ == catalog_name(i),
        c[i].quantizations@.len() > 0,
{
    assert(catalog_entry(c[i], i));
}

/// No two curated models share an id.
pub proof fn lemma_catalog_ids_distinct(i: int, j: int)
    requires
        0 <= i < catalog_len(),
        0 <= j < catalog_len(),
        i != j,
    ensures
        catalog_id(i) != catalog_id(j),
{
    reveal_strlit("llama-3.2-3b-instruct");
    reveal_strlit("phi-3.5-mini-instruct");
    reveal_strlit("qwen2.5-7b-instruct");
    reveal_strlit("mistral-7b-instruct-v0.3");
    reveal_strlit("llama-3.1-8b-instruct");
    reveal_strlit("qwen2.5-14b-instruct");
    if catalog_id(i).len() == catalog_id(j).len() {
        assert(catalog_id(i)[0] != catalog_id(j)[0] || catalog_id(i)[8] != catalog_id(j)[8]);
    }
}

/// The curated catalog holds six models with distinct ids and positive
/// parameter counts. Each offers quantizations, `Q4_K_M` first; within a
/// model the quantization ids differ, the memory needed strictly grows along
/// the list (the first is the cheapest), and every file has a size.
pub proof fn law_catalog_shape(c: Seq<CatalogModel>)
    requires
        is_curated_catalog(c),
    ensures
        c.len() == 6,
        forall|i: int, j: int| 0 <= i < c.len() && 0 <= j < c.len() && i != j ==> #[trigger] c[i].id@ != #[trigger] c[j].id@,
        forall|i: int| 0 <= i < c.len() ==> (#[trigger] c[i]).parameter_count_deci_b > 0 && c[i].quantizations@.len() > 0
            && c[i].quantizations@[0].id@ == "Q4_K_M"@,
        forall|i: int, a: int, b: int|
            0 <= i < c.len() && 0 <= a < b < c[i].quantizations@.len() ==> (#[trigger] c[i].quantizations@[a]).min_vram_deci_gb
                < (#[trigger] c[i].quantizations@[b]).min_vram_deci_gb && c[i].quantizations@[a].id@ != c[i].quantizations@[b].id@,
        forall|i: int, a: int|
            0 <= i < c.len() && 0 <= a < c[i].quantizations@.len() ==> (#[trigger] c[i].quantizations@[a]).file_size_bytes > 0,
{
    reveal_strlit("Q4_K_M");
    reveal_strlit("Q5_K_M");
    reveal_strlit("Q8_0");
    assert forall|i: int, j: int| 0 <= i < c.len() && 0 <= j < c.len() && i != j implies #[trigger] c[i].id@ != #[trigger] c[j].id@ by {
        lemma_catalog_ids(c, i);
        lemma_catalog_ids(c, j);
        lemma_catalog_ids_distinct(i, j);
    }
    assert forall|i: int| 0 <= i < c.len() implies (#[trigger] c[i]).parameter_count_deci_b > 0 && c[i].quantizations@.len() > 0
        && c[i].quantizations@[0].id@ == "Q4_K_M"@ by {
        assert(catalog_entry(c[i], i));
    }
    assert forall|i: int, a: int, b: int|
        0 <= i < c.len() && 0 <= a < b < c[i].quantizations@.len() implies (#[trigger] c[i].quantizations@[a]).min_vram_deci_gb
            < (#[trigger] c[i].quantizations@[b]).min_vram_deci_gb && c[i].quantizations@[a].id@ != c[i].quantizations@[b].id@ by {
        assert(catalog_entry(c[i], i));
        assert(c[i].quantizations@[a].id@[1] != c[i].quantizations@[b].id@[1]);
    }
    assert forall|i: int, a: int|
        0 <= i < c.len() && 0 <= a < c[i].quantizations@.len() implies (#[trigger] c[i].quantizations@[a]).file_size_bytes > 0 by {
        assert(catalog_entry(c[i], i));
    }
}

/// Any two curated catalogs agree: the same ids and parameter counts, and the
/// same quantizations by id, memory and file size.
pub proof fn law_catalog_same(c1: Seq<CatalogModel>, c2: Seq<CatalogModel>)
    requires
        is_curated_catalog(c1),
        is_curated_catalog(c2),
    ensures
        c1.len() == c2.len(),
        forall|i: int| 0 <= i < c1.len() ==> (#[trigger] c1[i]).id@ == c2[i].id@ && c1[i].name@ == c2[i].name@
            && c1[i].parameter_count_deci_b == c2[i].parameter_count_deci_b
            && c1[i].quantizations@.len() == c2[i].quantizations@.len() && forall|a: int|
            0 <= a < c1[i].quantizations@.len() ==> (#[trigger] c1[i].quantizations@[a]).id@ == c2[i].quantizations@[a].id@
                && c1[i].quantizations@[a].min_vram_deci_gb == c2[i].quantizations@[a].min_vram_deci_gb
                && c1[i].quantizations@[a].file_size_bytes == c2[i].quantizations@[a].file_size_bytes,
{
    assert forall|i: int| 0 <= i < c1.len() implies (#[trigger] c1[i]).id@ == c2[i].id@ && c1[i].name@ == c2[i].name@
        && c1[i].parameter_count_deci_b == c2[i].parameter_count_deci_b
        && c1[i].quantizations@.len() == c2[i].quantizations@.len() && forall|a: int|
        0 <= a < c1[i].quantizations@.len() ==> (#[trigger] c1[i].quantizations@[a]).id@ == c2[i].quantizations@[a].id@
            && c1[i].quantizations@[a].min_vram_deci_gb == c2[i].quantizations@[a].min_vram_deci_gb
            && c1[i].quantizations@[a].file_size_bytes == c2[i].quantizations@[a].file_size_bytes by {
        assert(catalog_entry(c1[i], i));
        assert(catalog_entry(c2[i], i));
    }
}

fn quant(
    id: &str,
    label: &str,
    min_vram_deci_gb: u32,
    file_size_bytes: u64,
    download_url: &str,
    filename: &str,
) -> (q: QuantizationOption)
    ensures
        quant_is(q, id@, label@, min_vram_deci_gb, file_size_bytes, download_url@, filename@),
{
    QuantizationOption {
        id: String::from_str(id),
        label: String::from_str(label),
        min_vram_deci_gb,
        file_size_bytes,
        download_url: String::from_str(download_url),
        filename: String::from_str(filename),
    }
}

/// The curated models: each with its id, name, family, size in tenths of a
/// billion parameters, description and quantizations (minimum memory in
/// tenths of a gigabyte, file size, download URL and file name).
pub fn curated_models() -> (c: Vec<CatalogModel>)
    ensures
        is_curated_catalog(c@),
{
    let mut c: Vec<CatalogModel> = Vec::new();
    let mut quantizations: Vec<QuantizationOption> = Vec::new();
    quantizations.push(quant(
        "Q4_K_M",
        "Q4_K_M (balanced)",
        30,
        2010000000,
        "https://huggingface.co/bartowski/Llama-3.2-3B-Instruct-GGUF/resolve/main/Llama-3.2-3B-Instruct-Q4_K_M.gguf",
        "Llama-3.2-3B-Instruct-Q4_K_M.gguf",
    ));
    quantizations.push(quant(
        "Q5_K_M",
        "Q5_K_M (higher quality)",
        35,
        2350000000,
        "https://huggingface.co/bartowski/Llama-3.2-3B-Instruct-GGUF/resolve/main/Llama-3.2-3B-Instruct-Q5_K_M.gguf",
        "Llama-3.2-3B-Instruct-Q5_K_M.gguf",
    ));
    c.push(CatalogModel {
        id: String::from_str("llama-3.2-3b-instruct"),
        name: String::from_str("Llama 3.2 3B Instruct"),
        family: String::from_str("Meta Llama"),
        parameter_count_deci_b: 30,
        description: String::from_str(
            "Fast, lightweight general-purpose model. Great first pick for 8GB GPUs or CPU fallback.",
        ),
        quantizations,
    });
    assert(catalog_entry(c@[0], 0));
    let mut quantizations: Vec<QuantizationOption> = Vec::new();
    quantizations.push(quant(
        "Q4_K_M",
        "Q4_K_M (balanced)",
        32,
        2300000000,
        "https://huggingface.co/bartowski/Phi-3.5-mini-instruct-GGUF/resolve/main/Phi-3.5-mini-instruct-Q4_K_M.gguf",
        "Phi-3.5-mini-instruct-Q4_K_M.gguf",
    ));
    quantizations.push(quant(
        "Q8_0",
        "Q8_0 (best quality)",
        50,
        4100000000,
        "https://huggingface.co/bartowski/Phi-3.5-mini-instruct-GGUF/resolve/main/Phi-3.5-mini-instruct-Q8_0.gguf",
        "Phi-3.5-mini-instruct-Q8_0.gguf",
    ));
    c.push(CatalogModel {
        id: String::from_str("phi-3.5-mini-instruct"),
        name: String::from_str("Phi-3.5 Mini Instruct"),
        family: String::from_str("Microsoft Phi"),
        parameter_count_deci_b: 38,
        description: String::from_str(
            "Strong reasoning for its size. Ideal when VRAM is tight but you want better quality than 3B.",
        ),
        quantizations,
    });
    assert(catalog_entry(c@[1], 1));
    let mut quantizations: Vec<QuantizationOption> = Vec::new();
    quantizations.push(quant(
        "Q4_K_M",
        "Q4_K_M (balanced)",
        50,
        4680000000,
        "https://huggingface.co/bartowski/Qwen2.5-7B-Instruct-GGUF/resolve/main/Qwen2.5-7B-Instruct-Q4_K_M.gguf",
        "Qwen2.5-7B-Instruct-Q4_K_M.gguf",
    ));
    quantizations.push(quant(
        "Q5_K_M",
        "Q5_K_M (higher quality)",
        60,
        5450000000,
        "https://huggingface.co/bartowski/Qwen2.5-7B-Instruct-GGUF/resolve/main/Qwen2.5-7B-Instruct-Q5_K_M.gguf",
        "Qwen2.5-7B-Instruct-Q5_K_M.gguf",
    ));
    c.push(CatalogModel {
        id: String::from_str("qwen2.5-7b-instruct"),
        name: String::from_str("Qwen2.5 7B Instruct"),
        family: String::from_str("Alibaba Qwen"),
        parameter_count_deci_b: 70,
        description: String::from_str(
            "Excellent 7B all-rounder for coding and chat. Recommended default for 12GB GPUs.",
        ),
        quantizations,
    });
    assert(catalog_entry(c@[2], 2));
    let mut quantizations: Vec<QuantizationOption> = Vec::new();
    quantizations.push(quant(
        "Q4_K_M",
        "Q4_K_M (balanced)",
        50,
        4370000000,
        "https://huggingface.co/bartowski/Mistral-7B-Instruct-v0.3-GGUF/resolve/main/Mistral-7B-Instruct-v0.3-Q4_K_M.gguf",
        "Mistral-7B-Instruct-v0.3-Q4_K_M.gguf",
    ));
    quantizations.push(quant(
        "Q5_K_M",
        "Q5_K_M (higher quality)",
        60,
        5150000000,
        "https://huggingface.co/bartowski/Mistral-7B-Instruct-v0.3-GGUF/resolve/main/Mistral-7B-Instruct-v0.3-Q5_K_M.gguf",
        "Mistral-7B-Instruct-v0.3-Q5_K_M.gguf",
    ));
    c.push(CatalogModel {
        id: String::from_str("mistral-7b-instruct-v0.3"),
        name: String::from_str("Mistral 7B Instruct v0.3"),
        family: String::from_str("Mistral AI"),
        parameter_count_deci_b: 70,
        description: String::from_str(
            "Proven 7B workhorse with fast inference. Strong choice for general API workloads.",
        ),
        quantizations,
    });
    assert(catalog_entry(c@[3], 3));
    let mut quantizations: Vec<QuantizationOption> = Vec::new();
    quantizations.push(quant(
        "Q4_K_M",
        "Q4_K_M (balanced)",
        55,
        4920000000,
        "https://huggingface.co/bartowski/Meta-Llama-3.1-8B-Instruct-GGUF/resolve/main/Meta-Llama-3.1-8B-Instruct-Q4_K_M.gguf",
        "Meta-Llama-3.1-8B-Instruct-Q4_K_M.gguf",
    ));
    quantizations.push(quant(
        "Q5_K_M",
        "Q5_K_M (higher quality)",
        65,
        5730000000,
        "https://huggingface.co/bartowski/Meta-Llama-3.1-8B-Instruct-GGUF/resolve/main/Meta-Llama-3.1-8B-Instruct-Q5_K_M.gguf",
        "Meta-Llama-3.1-8B-Instruct-Q5_K_M.gguf",
    ));
    c.push(CatalogModel {
        id: String::from_str("llama-3.1-8b-instruct"),
        name: String::from_str("Llama 3.1 8B Instruct"),
        family: String::from_str("Meta Llama"),
        parameter_count_deci_b: 80,
        description: String::from_str(
            "High-quality 8B model for production-style chat APIs when you have 12GB+ VRAM.",
        ),
        quantizations,
    });
    assert(catalog_entry(c@[4], 4));
    let mut quantizations: Vec<QuantizationOption> = Vec::new();
    quantizations.push(quant(
        "Q4_K_M",
        "Q4_K_M (balanced)",
        100,
        8900000000,
        "https://huggingface.co/bartowski/Qwen2.5-14B-Instruct-GGUF/resolve/main/Qwen2.5-14B-Instruct-Q4_K_M.gguf",
        "Qwen2.5-14B-Instruct-Q4_K_M.gguf",
    ));
    quantizations.push(quant(
        "Q5_K_M",
        "Q5_K_M (higher quality)",
        120,
        10200000000,
        "https://huggingface.co/bartowski/Qwen2.5-14B-Instruct-GGUF/resolve/main/Qwen2.5-14B-Instruct-Q5_K_M.gguf",
        "Qwen2.5-14B-Instruct-Q5_K_M.gguf",
    ));
    c.push(CatalogModel {
        id: String::from_str("qwen2.5-14b-instruct"),
        name: String::from_str("Qwen2.5 14B Instruct"),
        family: String::from_str("Alibaba Qwen"),
        parameter_count_deci_b: 140,
        description: String::from_str(
            "Larger model for 16GB+ GPUs. Better quality for complex prompts and longer context.",
        ),
        quantizations,
    });
    assert(catalog_entry(c@[5], 5));
    c
}

/// Position of the first model in `c` whose id is `id`, or `c.len()`.
pub open spec fn model_index(c: Seq<CatalogModel>, id: Seq<char>) -> int
    decreases c.len(),
{
    if c.len() == 0 {
        0
    } else if c[0].id@ == id {
        0
    } else {
        1 + model_index(c.drop_first(), id)
    }
}

/// `model_index` is the first position holding the id, or the length.
pub proof fn lemma_model_index(c: Seq<CatalogModel>, id: Seq<char>, k: int)
    requires
        0 <= k <= c.len(),
        forall|j: int| 0 <= j < k ==> c[j].id@ != id,
        k == c.len() || c[k].id@ == id,
    ensures
        model_index(c, id) == k,
    decreases k,
{
    if k > 0 {
        let t = c.drop_first();
        assert forall|j: int| 0 <= j < k - 1 implies t[j].id@ != id by {
            assert(t[j] == c[j + 1]);
        }
        if k < c.len() {
            assert(t[k - 1] == c[k]);
        }
        lemma_model_index(t, id, k - 1);
    }
}

/// Position of the first quantization in `qs` whose id is `id`, or `qs.len()`.
pub open spec fn quant_index(qs: Seq<QuantizationOption>, id: Seq<char>) -> int
    decreases qs.len(),
{
    if qs.len() == 0 {
        0
    } else if qs[0].id@ == id {
        0
    } else {
        1 + quant_index(qs.drop_first(), id)
    }
}

/// `quant_index` is the first position holding the id, or the length.
pub proof fn lemma_quant_index(qs: Seq<QuantizationOption>, id: Seq<char>, k: int)
    requires
        0 <= k <= qs.len(),
        forall|j: int| 0 <= j < k ==> qs[j].id@ != id,
        k == qs.len() || qs[k].id@ == id,
    ensures
        quant_index(qs, id) == k,
    decreases k,
{
    if k > 0 {
        let t = qs.drop_first();
        assert forall|j: int| 0 <= j < k - 1 implies t[j].id@ != id by {
            assert(t[j] == qs[j + 1]);
        }
        if k < qs.len() {
            assert(t[k - 1] == qs[k]);
        }
        lemma_quant_index(t, id, k - 1);
    }
}

/// Whether the string `s` equals the string `t`.
/// The curated model whose id is `model_id`, if any.
pub fn find_catalog_model(model_id: &str) -> (r: Option<CatalogModel>)
    ensures
        r is None <==> forall|i: int| 0 <= i < catalog_len() ==> catalog_id(i) != model_id@,
        r is None <==> catalog_position(model_id@) == catalog_len(),
        r matches Some(m) ==> catalog_position(model_id@) < catalog_len() && catalog_entry(
            m,
            catalog_position(model_id@),
        ),
{
    let mut c = curated_models();
    let mut i: usize = 0;
    while i < c.len() && !same_text(&c[i].id, model_id)
        invariant
            is_curated_catalog(c@),
            i <= c@.len(),
            forall|j: int| 0 <= j < i ==> catalog_id(j) != model_id@,
        decreases c@.len() - i,
    {
        proof {
            lemma_catalog_ids(c@, i as int);
        }
        i = i + 1;
    }
    proof {
        if i < c@.len() {
            lemma_catalog_ids(c@, i as int);
        }
        lemma_catalog_position(model_id@, 0, i as int);
    }
    if i < c.len() {
        proof {
            assert(catalog_entry(c@[i as int], i as int));
        }
        Some(c.remove(i))
    } else {
        None
    }
}

/// The quantization of `model` whose id is `quantization_id`, if any.
pub fn find_quantization<'a>(model: &'a CatalogModel, quantization_id: &str) -> (r: Option<
    &'a QuantizationOption,
>)
    ensures
        r is None <==> quant_index(model.quantizations@, quantization_id@)
            == model.quantizations@.len(),
        r matches Some(q) ==> quant_index(model.quantizations@, quantization_id@)
            < model.quantizations@.len() && *q == model.quantizations@[quant_index(
            model.quantizations@,
            quantization_id@,
        )],
{
    let mut i: usize = 0;
    while i < model.quantizations.len() && !same_text(&model.quantizations[i].id, quantization_id)
        invariant
            i <= model.quantizations@.len(),
            forall|j: int| 0 <= j < i ==> model.quantizations@[j].id@ != quantization_id@,
        decreases model.quantizations@.len() - i,
    {
        i = i + 1;
    }
    proof {
        lemma_quant_index(model.quantizations@, quantization_id@, i as int);
    }
    if i < model.quantizations.len() {
        Some(&model.quantizations[i])
    } else {
        None
    }
}

} // verus!
