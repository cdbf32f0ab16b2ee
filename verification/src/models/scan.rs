//! Models found outside the catalog: those an Ollama server lists, GGUF files
//! on disk, and a GGUF file the user adds by path. Asking Ollama and walking
//! directories is the caller's part; this module names and describes what
//! was found.
use vstd::prelude::*;
use crate::text::{lowercase, replace_all, replace_str, to_lowercase};

verus! {

/// A model found on this machine; its size in bytes.
#[derive(Debug, Clone)]
pub struct ScannedModel {
    pub id: String,
    pub name: String,
    pub source: String,
    pub file_path: String,
    pub size_bytes: u64,
}

/// What a scan found, whether Ollama answered, and how many of the searched
/// directories exist.
#[derive(Debug, Clone)]
pub struct ScanResult {
    pub scanned_models: Vec<ScannedModel>,
    pub ollama_available: bool,
    pub scanned_paths_count: u32,
}

/// The size assumed for an Ollama model that reports none: 4 GB.
pub const OLLAMA_DEFAULT_SIZE_BYTES: u64 = 4_000_000_000;

/// `name` with `:` made `-` and spaces kept.
pub open spec fn ollama_id(name: Seq<char>) -> Seq<char> {
    "ollama-"@ + replace_all(name, ":"@, "-"@)
}

/// The id of a GGUF file named `filename` and found by a scan.
pub open spec fn local_id(filename: Seq<char>) -> Seq<char> {
    "local-"@ + replace_all(lowercase(filename), " "@, "-"@)
}

/// The id of a GGUF file named `filename` and added by the user.
pub open spec fn custom_id(filename: Seq<char>) -> Seq<char> {
    "custom-"@ + replace_all(lowercase(filename), " "@, "-"@)
}

/// The record of a model that Ollama lists under `name`, with the size it
/// reports, or 4 GB when it reports none.
pub fn ollama_scanned_model(name: &str, size: Option<u64>) -> (m: ScannedModel)
    ensures
        m.id@ == ollama_id(name@),
        m.name@ == "Ollama — "@ + name@,
        m.source@ == "Ollama API"@,
        m.file_path@ == "ollama://"@ + name@,
        m.size_bytes == match size {
            Some(s) => s,
            None => OLLAMA_DEFAULT_SIZE_BYTES,
        },
{
    let mut id = String::from_str("ollama-");
    proof {
        reveal_strlit(":");
    }
    let cleaned = replace_str(name, ":", "-");
    id.append(cleaned.as_str());
    let mut display = String::from_str("Ollama — ");
    display.append(name);
    let mut path = String::from_str("ollama://");
    path.append(name);
    let size_bytes = match size {
        Some(s) => s,
        None => OLLAMA_DEFAULT_SIZE_BYTES,
    };
    ScannedModel { id, name: display, source: String::from_str("Ollama API"), file_path: path, size_bytes }
}

/// The record of a GGUF file named `filename` found at `file_path`.
pub fn gguf_scanned_model(filename: &str, file_path: &str, size_bytes: u64) -> (m: ScannedModel)
    ensures
        m.id@ == local_id(filename@),
        m.name@ == filename@,
        m.source@ == "Local Disk GGUF"@,
        m.file_path@ == file_path@,
        m.size_bytes == size_bytes,
{
    let lower = to_lowercase(filename);
    proof {
        reveal_strlit(" ");
    }
    let cleaned = replace_str(lower.as_str(), " ", "-");
    let mut id = String::from_str("local-");
    id.append(cleaned.as_str());
    ScannedModel {
        id,
        name: String::from_str(filename),
        source: String::from_str("Local Disk GGUF"),
        file_path: String::from_str(file_path),
        size_bytes,
    }
}

/// What registering a user's GGUF file records: its id, its name (the file
/// name), the quantization label `Custom GGUF`, the file name and the path.
#[derive(Debug, Clone)]
pub struct CustomModelEntry {
    pub model_id: String,
    pub model_name: String,
    pub quantization_id: String,
    pub filename: String,
    pub file_path: String,
}

/// The file name given to a user's file whose path has none.
pub open spec fn custom_filename(file_name: Option<Seq<char>>) -> Seq<char> {
    match file_name {
        Some(f) => f,
        None => "custom_model.gguf"@,
    }
}

/// Adds a GGUF file by path: an error naming the path when no file is there
/// (`exists` false), else what to register for it. `file_name` is the last
/// component of the path, if it has one.
pub fn add_custom_gguf(file_path: &str, exists: bool, file_name: Option<String>) -> (r: Result<CustomModelEntry, String>)
    ensures
        exists <==> r is Ok,
        !exists ==> (r matches Err(e) && e@ == "File does not exist at "@ + file_path@),
        r matches Ok(entry) ==> {
            let name = custom_filename(
                match file_name {
                    Some(f) => Some(f@),
                    None => None,
                },
            );
            &&& entry.model_id@ == custom_id(name)
            &&& entry.model_name@ == name
            &&& entry.quantization_id@ == "Custom GGUF"@
            &&& entry.filename@ == name
            &&& entry.file_path@ == file_path@
        },
{
    if !exists {
        let mut e = String::from_str("File does not exist at ");
        e.append(file_path);
        return Err(e);
    }
    let filename = match file_name {
        Some(f) => f,
        None => String::from_str("custom_model.gguf"),
    };
    let lower = to_lowercase(filename.as_str());
    proof {
        reveal_strlit(" ");
    }
    let cleaned = replace_str(lower.as_str(), " ", "-");
    let mut id = String::from_str("custom-");
    id.append(cleaned.as_str());
    Ok(
        CustomModelEntry {
            model_id: id,
            model_name: filename.clone(),
            quantization_id: String::from_str("Custom GGUF"),
            filename,
            file_path: String::from_str(file_path),
        },
    )
}

} // verus!
