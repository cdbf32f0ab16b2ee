//! The model in use and how it runs: how many layers go to the GPU, how the
//! runner is described, and the record kept of the active model. Starting and
//! stopping a runner process is the caller's part.
use vstd::prelude::*;
use crate::hardware::types::{HardwareProfile, GIB};

verus! {

/// The model in use: its identity and file, the layers given to the GPU, the
/// runner that serves it, and its status.
#[derive(Debug, Clone)]
pub struct ActiveModelRuntimeInfo {
    pub model_id: String,
    pub model_name: String,
    pub quantization_id: String,
    pub file_path: String,
    pub offload_gpu_layers: u32,
    pub runner_type: String,
    pub status: String,
}

/// A field-by-field copy of a runtime record.
pub fn copy_runtime_info(i: &ActiveModelRuntimeInfo) -> (r: ActiveModelRuntimeInfo)
    ensures
        r == *i,
{
    ActiveModelRuntimeInfo {
        model_id: i.model_id.clone(),
        model_name: i.model_name.clone(),
        quantization_id: i.quantization_id.clone(),
        file_path: i.file_path.clone(),
        offload_gpu_layers: i.offload_gpu_layers,
        runner_type: i.runner_type.clone(),
        status: i.status.clone(),
    }
}

/// The layers to offload for a primary adapter with `vram_bytes` of memory:
/// all of them (99) from 16 GiB, 33 from 10 GiB, 24 from 8 GiB, else 12.
pub open spec fn layers_for_vram(vram_bytes: u64) -> u32 {
    if vram_bytes >= 16 * GIB {
        99
    } else if vram_bytes >= 10 * GIB {
        33
    } else if vram_bytes >= 8 * GIB {
        24
    } else {
        12
    }
}

/// The layers to offload on `hardware`: none without a primary adapter fit
/// for inference (the CPU runs the model), else by its memory (0 bytes when
/// unknown).
pub open spec fn gpu_layers_spec(hardware: HardwareProfile) -> u32 {
    match hardware.primary_gpu {
        Some(g) => if g.recommended_for_inference {
            layers_for_vram(
                match g.vram_bytes {
                    Some(b) => b,
                    None => 0,
                },
            )
        } else {
            0
        },
        None => 0,
    }
}

/// More adapter memory never means fewer offloaded layers, and the count is
/// one of 12, 24, 33 and 99.
pub proof fn law_layers_monotone(a: u64, b: u64)
    requires
        a <= b,
    ensures
        layers_for_vram(a) <= layers_for_vram(b),
        layers_for_vram(a) == 12 || layers_for_vram(a) == 24 || layers_for_vram(a) == 33 || layers_for_vram(a) == 99,
{
}

/// How many model layers the runner offloads to the GPU on `hardware`.
pub fn compute_gpu_layers(hardware: &HardwareProfile) -> (n: u32)
    ensures
        n == gpu_layers_spec(*hardware),
{
    let gpu = match &hardware.primary_gpu {
        Some(g) => g,
        None => {
            return 0;
        },
    };
    if !gpu.recommended_for_inference {
        return 0;
    }
    let vram = match gpu.vram_bytes {
        Some(b) => b,
        None => 0,
    };
    if vram >= 16 * GIB {
        99
    } else if vram >= 10 * GIB {
        33
    } else if vram >= 8 * GIB {
        24
    } else {
        12
    }
}

/// The runner's description: `external (<binary>)` for a runner process that
/// kept running, else the embedded runner.
pub open spec fn runner_label_spec(kept_binary: Option<Seq<char>>) -> Seq<char> {
    match kept_binary {
        Some(b) => "external ("@ + b + ")"@,
        None => "embedded local runner"@,
    }
}

/// Describes the runner: `kept_binary` is the file name of a runner process
/// that started and kept running, `None` when there was no runner, it could
/// not start, or it exited at once.
pub fn runner_label(kept_binary: Option<&str>) -> (s: String)
    ensures
        s@ == runner_label_spec(
            match kept_binary {
                Some(b) => Some(b@),
                None => None,
            },
        ),
{
    match kept_binary {
        Some(b) => {
            let mut s = String::from_str("external (");
            s.append(b);
            s.append(")");
            s
        },
        None => String::from_str("embedded local runner"),
    }
}

/// The record of the active model, as kept by the executor.
pub struct ModelExecutor {
    active: Option<ActiveModelRuntimeInfo>,
}

impl View for ModelExecutor {
    type V = Option<ActiveModelRuntimeInfo>;

    closed spec fn view(&self) -> Option<ActiveModelRuntimeInfo> {
        self.active
    }
}

impl ModelExecutor {
    /// An executor with no model loaded.
    pub fn new() -> (e: Self)
        ensures
            e@ is None,
    {
        ModelExecutor { active: None }
    }

    /// The model in use, if any.
    pub fn active_info(&self) -> (r: Option<ActiveModelRuntimeInfo>)
        ensures
            r == self@,
    {
        match &self.active {
            Some(i) => Some(copy_runtime_info(i)),
            None => None,
        }
    }

    /// Forgets the model in use.
    pub fn unload_current(&mut self)
        ensures
            final(self)@ is None,
    {
        self.active = None;
    }

    /// Loads the model at `file_path` in place of the one in use. The model in
    /// use is unloaded first; when no file is there (`file_exists` false) the
    /// result is an error naming the path as `file_label` shows it, and no
    /// model is in use. Otherwise the model is in use on `hardware`, served by
    /// the runner that `runner_type` describes, its layers offloaded as
    /// `compute_gpu_layers` says and its status `active`.
    pub fn load_model(
        &mut self,
        model_id: &str,
        model_name: &str,
        quantization_id: &str,
        file_path: &str,
        file_exists: bool,
        file_label: &str,
        hardware: &HardwareProfile,
        runner_type: String,
    ) -> (r: Result<ActiveModelRuntimeInfo, String>)
        ensures
            file_exists <==> r is Ok,
            !file_exists ==> (r matches Err(e) && e@ == "Model file does not exist at "@ + file_label@)
                && final(self)@ is None,
            r matches Ok(info) ==> {
                &&& info.model_id@ == model_id@
                &&& info.model_name@ == model_name@
                &&& info.quantization_id@ == quantization_id@
                &&& info.file_path@ == file_path@
                &&& info.offload_gpu_layers == gpu_layers_spec(*hardware)
                &&& info.runner_type == runner_type
                &&& info.status@ == "active"@
                &&& final(self)@ == Some(info)
            },
    {
        self.unload_current();
        if !file_exists {
            let mut e = String::from_str("Model file does not exist at ");
            e.append(file_label);
            return Err(e);
        }
        let info = ActiveModelRuntimeInfo {
            model_id: String::from_str(model_id),
            model_name: String::from_str(model_name),
            quantization_id: String::from_str(quantization_id),
            file_path: String::from_str(file_path),
            offload_gpu_layers: compute_gpu_layers(hardware),
            runner_type,
            status: String::from_str("active"),
        };
        self.active = Some(copy_runtime_info(&info));
        Ok(info)
    }
}

} // verus!
