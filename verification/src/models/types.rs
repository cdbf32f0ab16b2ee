//! Records of the model library: catalog entries, recommendations, downloads
//! and installed models. Memory amounts are integers: a quantization's minimum
//! in tenths of a gigabyte (GiB), a library's budget in hundredths of a byte.
use vstd::prelude::*;

verus! {

/// How well a model fits the available memory.
#[derive(Debug, Clone, Copy, PartialEq, Eq, Structural)]
pub enum ModelFit {
    Recommended,
    Caution,
    TooLarge,
}

impl ModelFit {
    /// The fit's snake-case name.
    pub open spec fn name_spec(self) -> Seq<char> {
        match self {
            ModelFit::Recommended => "recommended"@,
            ModelFit::Caution => "caution"@,
            ModelFit::TooLarge => "too_large"@,
        }
    }

    /// The fit's snake-case name, as shown to the dashboard.
    pub fn as_str(&self) -> (s: &'static str)
        ensures
            s@ == self.name_spec(),
    {
        match self {
            ModelFit::Recommended => "recommended",
            ModelFit::Caution => "caution",
            ModelFit::TooLarge => "too_large",
        }
    }
}

/// One downloadable quantization of a model.
#[derive(Debug, Clone)]
pub struct QuantizationOption {
    pub id: String,
    pub label: String,
    /// Memory needed to run it, in tenths of a gigabyte (GiB).
    pub min_vram_deci_gb: u32,
    pub file_size_bytes: u64,
    pub download_url: String,
    pub filename: String,
}

/// A model of the catalog.
#[derive(Debug, Clone)]
pub struct CatalogModel {
    pub id: String,
    pub name: String,
    pub family: String,
    /// Size in tenths of a billion parameters.
    pub parameter_count_deci_b: u32,
    pub description: String,
    pub quantizations: Vec<QuantizationOption>,
}

/// A catalog model judged against the available memory.
#[derive(Debug, Clone)]
pub struct ModelRecommendation {
    pub model: CatalogModel,
    pub recommended_quantization: QuantizationOption,
    pub available_quantizations: Vec<QuantizationOption>,
    pub fit: ModelFit,
    pub is_default: bool,
    pub installed: bool,
}

/// The model library as offered to the user.
#[derive(Debug, Clone)]
pub struct ModelLibraryResponse {
    /// The memory budget for inference, in hundredths of a byte.
    pub available_vram_centibytes: u128,
    pub memory_source: String,
    pub default_model_id: Option<String>,
    pub models: Vec<ModelRecommendation>,
}

/// The state of a download.
#[derive(Debug, Clone, Copy, PartialEq, Eq, Structural)]
pub enum DownloadStatus {
    Idle,
    Downloading,
    Completed,
    Failed,
    Cancelled,
}

/// Progress of one model download.
#[derive(Debug, Clone)]
pub struct DownloadProgress {
    pub model_id: String,
    pub quantization_id: String,
    pub status: DownloadStatus,
    pub bytes_downloaded: u64,
    pub total_bytes: Option<u64>,
    /// Progress in hundredths of a percent (0 to 10000).
    pub progress_basis_points: Option<u32>,
    pub file_path: Option<String>,
    pub error: Option<String>,
}

/// A model file installed on this machine.
#[derive(Debug, Clone)]
pub struct InstalledModel {
    pub model_id: String,
    pub model_name: String,
    pub quantization_id: String,
    pub filename: String,
    pub file_path: String,
    pub file_size_bytes: u64,
    pub installed_at: String,
}

} // verus!
