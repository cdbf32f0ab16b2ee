//! The installed-model manifest's rules: which records are listed, which ids
//! count as installed, and what registering a model does to the manifest.
//! Reading the manifest, checking files on disk and writing the manifest back
//! are the caller's part.
use vstd::prelude::*;
use super::types::InstalledModel;
use crate::api_keys::prepare::now_rfc3339;

verus! {

/// A field-by-field copy of an installed-model record.
pub fn copy_installed(m: &InstalledModel) -> (r: InstalledModel)
    ensures
        r == *m,
{
    InstalledModel {
        model_id: m.model_id.clone(),
        model_name: m.model_name.clone(),
        quantization_id: m.quantization_id.clone(),
        filename: m.filename.clone(),
        file_path: m.file_path.clone(),
        file_size_bytes: m.file_size_bytes,
        installed_at: m.installed_at.clone(),
    }
}

/// The records of `records` whose flag in `present` is set, in order.
pub open spec fn present_records(records: Seq<InstalledModel>, present: Seq<bool>) -> Seq<InstalledModel>
    decreases records.len(),
{
    if records.len() == 0 {
        seq![]
    } else {
        let prev = present_records(records.drop_last(), present);
        if present[records.len() - 1] {
            prev.push(records.last())
        } else {
            prev
        }
    }
}

/// The installed models: the manifest's records whose file is still on disk
/// (`present[i]` says whether the file of `records[i]` exists), in order.
pub fn list_installed_models(records: Vec<InstalledModel>, present: &Vec<bool>) -> (r: Vec<InstalledModel>)
    requires
        present@.len() == records@.len(),
    ensures
        r@ == present_records(records@, present@),
{
    let mut r: Vec<InstalledModel> = Vec::new();
    let mut i: usize = 0;
    while i < records.len()
        invariant
            i <= records@.len(),
            present@.len() == records@.len(),
            r@ == present_records(records@.take(i as int), present@),
        decreases records@.len() - i,
    {
        proof {
            assert(records@.take(i + 1).drop_last() == records@.take(i as int));
            assert(records@.take(i + 1).last() == records@[i as int]);
        }
        if present[i] {
            r.push(copy_installed(&records[i]));
        }
        i = i + 1;
    }
    assert(records@.take(records@.len() as int) == records@);
    r
}

/// The ids of `models`, each once, in the order of first occurrence.
pub open spec fn distinct_ids(models: Seq<InstalledModel>) -> Seq<Seq<char>>
    decreases models.len(),
{
    if models.len() == 0 {
        seq![]
    } else {
        let prev = distinct_ids(models.drop_last());
        if prev.contains(models.last().model_id@) {
            prev
        } else {
            prev.push(models.last().model_id@)
        }
    }
}

/// The installed ids hold each model id of `models` exactly once: no id
/// twice, and an id is there exactly when some model has it.
pub proof fn lemma_distinct_ids(models: Seq<InstalledModel>)
    ensures
        forall|i: int, j: int|
            0 <= i < j < distinct_ids(models).len() ==> distinct_ids(models)[i] != distinct_ids(models)[j],
        forall|id: Seq<char>|
            distinct_ids(models).contains(id) <==> exists|k: int|
                0 <= k < models.len() && #[trigger] models[k].model_id@ == id,
    decreases models.len(),
{
    if models.len() > 0 {
        let init = models.drop_last();
        lemma_distinct_ids(init);
        let prev = distinct_ids(init);
        let last = models.len() - 1;
        assert(models[last] == models.last());
        assert forall|t: int| 0 <= t < prev.len() implies prev.push(models.last().model_id@)[t] == prev[t] by {}
        assert forall|id: Seq<char>|
            distinct_ids(models).contains(id) <==> exists|k: int|
                0 <= k < models.len() && #[trigger] models[k].model_id@ == id by {
            if prev.contains(id) {
                let k = choose|k: int| 0 <= k < init.len() && #[trigger] init[k].model_id@ == id;
                assert(models[k] == init[k]);
                let t = choose|t: int| 0 <= t < prev.len() && prev[t] == id;
                assert(distinct_ids(models)[t] == id);
            } else if id == models.last().model_id@ {
                assert(models[last].model_id@ == id);
                assert(distinct_ids(models) == prev.push(id));
                assert(distinct_ids(models)[prev.len() as int] == id);
            } else {
                assert forall|k: int| 0 <= k < models.len() implies #[trigger] models[k].model_id@ != id by {
                    if k < init.len() {
                        assert(init[k] == models[k]);
                    }
                }
                if distinct_ids(models).contains(id) {
                    let t = choose|t: int| 0 <= t < distinct_ids(models).len() && distinct_ids(models)[t] == id;
                    if t < prev.len() {
                        assert(prev[t] == id);
                    }
                }
            }
        }
    }
}

/// The ids of the installed models, each once; none when the models could
/// not be listed.
pub open spec fn installed_ids_spec(listed: Result<Seq<InstalledModel>, Seq<char>>) -> Seq<Seq<char>> {
    match listed {
        Ok(models) => distinct_ids(models),
        Err(_) => seq![],
    }
}

/// The set of installed model ids, as a list without repeats: empty when the
/// installed models could not be listed.
pub fn installed_model_ids(listed: Result<Vec<InstalledModel>, String>) -> (r: Vec<String>)
    ensures
        r@.map_values(|s: String| s@) == installed_ids_spec(
            match listed {
                Ok(v) => Ok(v@),
                Err(e) => Err(e@),
            },
        ),
        forall|i: int, j: int| 0 <= i < j < r@.len() ==> r@[i]@ != r@[j]@,
{
    let models = match listed {
        Ok(v) => v,
        Err(_) => {
            return Vec::new();
        },
    };
    let mut r: Vec<String> = Vec::new();
    let mut i: usize = 0;
    while i < models.len()
        invariant
            i <= models@.len(),
            r@.map_values(|s: String| s@) == distinct_ids(models@.take(i as int)),
        decreases models@.len() - i,
    {
        proof {
            assert(models@.take(i + 1).drop_last() == models@.take(i as int));
            assert(models@.take(i + 1).last() == models@[i as int]);
        }
        let mut seen = false;
        let mut j: usize = 0;
        while j < r.len()
            invariant
                i < models@.len(),
                j <= r@.len(),
                seen <==> exists|t: int| 0 <= t < j && r@[t]@ == models@[i as int].model_id@,
            decreases r@.len() - j,
        {
            if r[j] == models[i].model_id {
                seen = true;
            }
            j = j + 1;
        }
        proof {
            let ids = r@.map_values(|s: String| s@);
            if seen {
                let t = choose|t: int| 0 <= t < r@.len() && r@[t]@ == models@[i as int].model_id@;
                assert(ids[t] == models@[i as int].model_id@);
            } else {
                assert(!ids.contains(models@[i as int].model_id@)) by {
                    if ids.contains(models@[i as int].model_id@) {
                        let t = choose|t: int| 0 <= t < ids.len() && ids[t] == models@[i as int].model_id@;
                        assert(r@[t]@ == ids[t]);
                    }
                }
            }
        }
        if !seen {
            let ghost before = r@;
            r.push(models[i].model_id.clone());
            assert(r@.map_values(|s: String| s@) == before.map_values(|s: String| s@).push(
                models@[i as int].model_id@,
            ));
        }
        i = i + 1;
    }
    assert(models@.take(models@.len() as int) == models@);
    proof {
        lemma_distinct_ids(models@);
        let ids = r@.map_values(|s: String| s@);
        assert forall|a: int, b: int| 0 <= a < b < r@.len() implies r@[a]@ != r@[b]@ by {
            assert(ids[a] == r@[a]@);
            assert(ids[b] == r@[b]@);
        }
    }
    r
}

/// `records` without those whose model id is `model_id`, in order.
pub open spec fn without_model(records: Seq<InstalledModel>, model_id: Seq<char>) -> Seq<InstalledModel>
    decreases records.len(),
{
    if records.len() == 0 {
        seq![]
    } else {
        let prev = without_model(records.drop_last(), model_id);
        if records.last().model_id@ == model_id {
            prev
        } else {
            prev.push(records.last())
        }
    }
}

proof fn lemma_without_model(records: Seq<InstalledModel>, model_id: Seq<char>)
    ensures
        forall|i: int|
            0 <= i < without_model(records, model_id).len() ==> (#[trigger] without_model(records, model_id)[i]).model_id@
                != model_id,
        forall|m: InstalledModel| #[trigger] records.contains(m) && m.model_id@ != model_id ==> without_model(records, model_id).contains(m),
        forall|m: InstalledModel| #[trigger] without_model(records, model_id).contains(m) ==> records.contains(m),
    decreases records.len(),
{
    if records.len() > 0 {
        let init = records.drop_last();
        lemma_without_model(init, model_id);
        let prev = without_model(init, model_id);
        assert forall|m: InstalledModel| #[trigger] records.contains(m) && m.model_id@ != model_id implies without_model(records, model_id).contains(m) by {
            let t = choose|t: int| 0 <= t < records.len() && records[t] == m;
            if t < init.len() {
                assert(init[t] == m);
                assert(init.contains(m));
                let u = choose|u: int| 0 <= u < prev.len() && prev[u] == m;
                if records.last().model_id@ != model_id {
                    assert(prev.push(records.last())[u] == m);
                }
            } else {
                assert(records.last() == m);
                assert(prev.push(records.last())[prev.len() as int] == m);
            }
        }
        assert forall|m: InstalledModel| #[trigger] without_model(records, model_id).contains(m) implies records.contains(m) by {
            let u = choose|u: int| 0 <= u < without_model(records, model_id).len() && without_model(records, model_id)[u] == m;
            if u < prev.len() {
                if records.last().model_id@ != model_id {
                    assert(prev.push(records.last())[u] == prev[u]);
                }
                assert(prev[u] == m);
                assert(prev.contains(m));
                let t = choose|t: int| 0 <= t < init.len() && init[t] == m;
                assert(records[t] == m);
            } else {
                assert(records[records.len() - 1] == m);
            }
        }
    }
}

/// After a model is registered its record is the manifest's last, no other
/// record has its id, every record of another model is kept, and nothing
/// else is added.
pub proof fn law_registered_once(manifest: Seq<InstalledModel>, record: InstalledModel, after: Seq<InstalledModel>)
    requires
        after == without_model(manifest, record.model_id@).push(record),
    ensures
        after.len() > 0 && after.last() == record,
        forall|i: int| 0 <= i < after.len() - 1 ==> (#[trigger] after[i]).model_id@ != record.model_id@,
        forall|m: InstalledModel| manifest.contains(m) && m.model_id@ != record.model_id@ ==> after.contains(m),
        forall|m: InstalledModel| after.contains(m) ==> m == record || manifest.contains(m),
{
    lemma_without_model(manifest, record.model_id@);
    let kept = without_model(manifest, record.model_id@);
    assert forall|i: int| 0 <= i < after.len() - 1 implies (#[trigger] after[i]).model_id@ != record.model_id@ by {
        assert(after[i] == kept[i]);
    }
    assert forall|m: InstalledModel| manifest.contains(m) && m.model_id@ != record.model_id@ implies after.contains(m) by {
        let u = choose|u: int| 0 <= u < kept.len() && kept[u] == m;
        assert(after[u] == m);
    }
    assert forall|m: InstalledModel| after.contains(m) implies m == record || manifest.contains(m) by {
        let u = choose|u: int| 0 <= u < after.len() && after[u] == m;
        if u < kept.len() {
            assert(kept[u] == m);
            assert(kept.contains(m));
        }
    }
}

/// The manifest with `record` registered: any earlier record of its model
/// removed, and `record` appended.
pub fn upsert_installed(manifest: Vec<InstalledModel>, record: &InstalledModel) -> (r: Vec<InstalledModel>)
    ensures
        r@ == without_model(manifest@, record.model_id@).push(*record),
{
    let mut r: Vec<InstalledModel> = Vec::new();
    let mut i: usize = 0;
    while i < manifest.len()
        invariant
            i <= manifest@.len(),
            r@ == without_model(manifest@.take(i as int), record.model_id@),
        decreases manifest@.len() - i,
    {
        proof {
            assert(manifest@.take(i + 1).drop_last() == manifest@.take(i as int));
            assert(manifest@.take(i + 1).last() == manifest@[i as int]);
        }
        if !(manifest[i].model_id == record.model_id) {
            r.push(copy_installed(&manifest[i]));
        }
        i = i + 1;
    }
    assert(manifest@.take(manifest@.len() as int) == manifest@);
    r.push(copy_installed(record));
    r
}

/// Registers an installed model file: the record (stamped with the current
/// time) and the manifest with it in place of any earlier record of the same
/// model. `file_size_bytes` is the file's size on disk.
pub fn register_installed_model(
    manifest: Vec<InstalledModel>,
    model_id: &str,
    model_name: &str,
    quantization_id: &str,
    filename: &str,
    file_path: &str,
    file_size_bytes: u64,
) -> (r: (InstalledModel, Vec<InstalledModel>))
    ensures
        r.0.model_id@ == model_id@,
        r.0.model_name@ == model_name@,
        r.0.quantization_id@ == quantization_id@,
        r.0.filename@ == filename@,
        r.0.file_path@ == file_path@,
        r.0.file_size_bytes == file_size_bytes,
        r.1@ == without_model(manifest@, model_id@).push(r.0),
{
    let installed = InstalledModel {
        model_id: String::from_str(model_id),
        model_name: String::from_str(model_name),
        quantization_id: String::from_str(quantization_id),
        filename: String::from_str(filename),
        file_path: String::from_str(file_path),
        file_size_bytes,
        installed_at: now_rfc3339(),
    };
    let updated = upsert_installed(manifest, &installed);
    (installed, updated)
}

} // verus!
