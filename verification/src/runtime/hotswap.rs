//! Switching the model in use to another installed model.
use vstd::prelude::*;
use super::executor::{gpu_layers_spec, ActiveModelRuntimeInfo, ModelExecutor};
use crate::hardware::types::HardwareProfile;
use crate::models::storage::copy_installed;
use crate::models::types::InstalledModel;
use crate::text::same_text;

verus! {

/// The position of the first model of `installed` whose id is `model_id`
/// (the length when there is none).
pub open spec fn installed_position(installed: Seq<InstalledModel>, model_id: Seq<char>) -> int
    decreases installed.len(),
{
    if installed.len() == 0 {
        0
    } else if installed[0].model_id@ == model_id {
        0
    } else {
        1 + installed_position(installed.drop_first(), model_id)
    }
}

proof fn lemma_installed_position(installed: Seq<InstalledModel>, model_id: Seq<char>)
    ensures
        0 <= installed_position(installed, model_id) <= installed.len(),
        installed_position(installed, model_id) < installed.len() ==> installed[installed_position(
            installed,
            model_id,
        )].model_id@ == model_id,
        forall|k: int|
            0 <= k < installed_position(installed, model_id) ==> #[trigger] installed[k].model_id@ != model_id,
    decreases installed.len(),
{
    if installed.len() > 0 && installed[0].model_id@ != model_id {
        let rest = installed.drop_first();
        lemma_installed_position(rest, model_id);
        assert forall|k: int| 0 <= k < installed_position(installed, model_id) implies #[trigger] installed[k].model_id@
            != model_id by {
            if k > 0 {
                assert(installed_position(installed, model_id) == 1 + installed_position(rest, model_id));
                assert(k - 1 < installed_position(rest, model_id));
                assert(installed[k] == rest[k - 1]);
                assert(rest[k - 1].model_id@ != model_id);
            }
        }
    }
}

/// The installed model to switch to: the first with id `target_model_id`, or
/// an error telling the user to download it first.
pub fn installed_target(installed: &Vec<InstalledModel>, target_model_id: &str) -> (r: Result<InstalledModel, String>)
    ensures
        ({
            let k = installed_position(installed@, target_model_id@);
            if k < installed@.len() {
                r == Ok::<InstalledModel, String>(installed@[k])
            } else {
                r matches Err(e) && e@ == "Model '"@ + target_model_id@
                    + "' is not installed locally. Download it first."@
            }
        }),
{
    proof {
        lemma_installed_position(installed@, target_model_id@);
    }
    let mut i: usize = 0;
    while i < installed.len()
        invariant
            i <= installed@.len(),
            forall|k: int| 0 <= k < i ==> #[trigger] installed@[k].model_id@ != target_model_id@,
        decreases installed@.len() - i,
    {
        if same_text(&installed[i].model_id, target_model_id) {
            proof {
                lemma_position_is_first(installed@, target_model_id@, i as int);
            }
            return Ok(copy_installed(&installed[i]));
        }
        i = i + 1;
    }
    proof {
        lemma_position_is_first(installed@, target_model_id@, installed@.len() as int);
    }
    let mut e = String::from_str("Model '");
    e.append(target_model_id);
    e.append("' is not installed locally. Download it first.");
    Err(e)
}

proof fn lemma_position_is_first(installed: Seq<InstalledModel>, model_id: Seq<char>, i: int)
    requires
        0 <= i <= installed.len(),
        forall|k: int| 0 <= k < i ==> #[trigger] installed[k].model_id@ != model_id,
        i < installed.len() ==> installed[i].model_id@ == model_id,
    ensures
        installed_position(installed, model_id) == i,
    decreases installed.len(),
{
    if installed.len() > 0 && i > 0 {
        let rest = installed.drop_first();
        assert(installed[0].model_id@ != model_id);
        assert forall|k: int| 0 <= k < i - 1 implies #[trigger] rest[k].model_id@ != model_id by {
            assert(rest[k] == installed[k + 1]);
        }
        if i - 1 < rest.len() {
            assert(rest[i - 1] == installed[i]);
        }
        lemma_position_is_first(rest, model_id, i - 1);
    }
}

/// Switches the model in use without restarting the app.
pub struct HotSwapManager {
    executor: ModelExecutor,
}

impl View for HotSwapManager {
    type V = Option<ActiveModelRuntimeInfo>;

    closed spec fn view(&self) -> Option<ActiveModelRuntimeInfo> {
        self.executor@
    }
}

impl HotSwapManager {
    /// A manager whose executor has no model loaded.
    pub fn new() -> (m: Self)
        ensures
            m@ is None,
    {
        HotSwapManager { executor: ModelExecutor::new() }
    }

    /// The model in use, if any.
    pub fn active_info(&self) -> (r: Option<ActiveModelRuntimeInfo>)
        ensures
            r == self@,
    {
        self.executor.active_info()
    }

    /// Switches to the installed model `target_model_id`: the error of
    /// `installed_target` when it is not installed, the model in use left as it
    /// was; else what `ModelExecutor::load_model` does with that model's file
    /// (`file_exists` and `file_label` speak of it) on `hardware`.
    pub fn hot_swap(
        &mut self,
        installed: &Vec<InstalledModel>,
        target_model_id: &str,
        file_exists: bool,
        file_label: &str,
        hardware: &HardwareProfile,
        runner_type: String,
    ) -> (r: Result<ActiveModelRuntimeInfo, String>)
        ensures
            ({
                let k = installed_position(installed@, target_model_id@);
                if k < installed@.len() {
                    let t = installed@[k];
                    &&& file_exists <==> r is Ok
                    &&& !file_exists ==> (r matches Err(e) && e@ == "Model file does not exist at "@ + file_label@)
                        && final(self)@ is None
                    &&& r matches Ok(info) ==> {
                        &&& info.model_id@ == t.model_id@
                        &&& info.model_name@ == t.model_name@
                        &&& info.quantization_id@ == t.quantization_id@
                        &&& info.file_path@ == t.file_path@
                        &&& info.offload_gpu_layers == gpu_layers_spec(*hardware)
                        &&& info.runner_type == runner_type
                        &&& info.status@ == "active"@
                        &&& final(self)@ == Some(info)
                    }
                } else {
                    &&& r matches Err(e) && e@ == "Model '"@ + target_model_id@
                        + "' is not installed locally. Download it first."@
                    &&& final(self)@ == old(self)@
                }
            }),
    {
        match installed_target(installed, target_model_id) {
            Ok(target) => self.executor.load_model(
                target.model_id.as_str(),
                target.model_name.as_str(),
                target.quantization_id.as_str(),
                target.file_path.as_str(),
                file_exists,
                file_label,
                hardware,
                runner_type,
            ),
            Err(e) => Err(e),
        }
    }
}

} // verus!
