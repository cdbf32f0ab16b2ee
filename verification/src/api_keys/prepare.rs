//! Preparing API access for a model: which model the key is for, whether the
//! active key can be reused, and the new key record otherwise.
use vstd::prelude::*;
use super::generate::{generate_key_id, generate_secret_key, is_key_id, is_secret_key, KeyGenError};
use super::snippets::{build_snippets, snippets_for};
use super::storage::{law_saved_key_unique, local_endpoint_text, local_endpoint_url, saved_store};
use super::types::{copy_key, ApiAccessResponse, ApiKeyStore, StoredApiKey, DEFAULT_LOCAL_PORT};
use crate::models::catalog::{catalog_id, catalog_len, catalog_name, catalog_position, catalog_entry, find_catalog_model};
use crate::models::types::InstalledModel;
use crate::text::{replace_all, replace_str};

verus! {

/// The current time in RFC 3339 form, from `chrono::Utc::now().to_rfc3339()`.
/// The time depends on the clock; nothing is claimed of the text.
#[verifier::external_body]
pub(crate) fn now_rfc3339() -> String {
    chrono::Utc::now().to_rfc3339()
}

/// Whether `resp` shows `rec`: the same key, endpoint, limits and model, the
/// public relay URL, the custom domain's URL, and the snippets for the key.
pub open spec fn response_of(rec: StoredApiKey, resp: ApiAccessResponse) -> bool {
    &&& resp.key_id == rec.key_id
    &&& resp.secret_key == rec.secret_key
    &&& resp.endpoint_url == rec.endpoint_url
    &&& resp.public_endpoint_url matches Some(u) && u@ == "https://gpu-node-9f82.selfapi.site/v1"@
    &&& match rec.custom_domain {
        Some(d) => resp.custom_domain_url matches Some(u) && u@ == "https://"@ + d@ + "/v1"@,
        None => resp.custom_domain_url is None,
    }
    &&& resp.scope == rec.scope
    &&& resp.rate_limit_rpm == rec.rate_limit_rpm
    &&& resp.spend_cap_usd_cents == rec.spend_cap_usd_cents
    &&& resp.model_id == rec.model_id
    &&& resp.model_name == rec.model_name
    &&& resp.created_at == rec.created_at
    &&& snippets_for(resp.snippets@, rec.endpoint_url@, rec.secret_key@, rec.model_id@)
}

/// The access shown for a stored key.
pub fn to_response(record: &StoredApiKey) -> (resp: ApiAccessResponse)
    ensures
        response_of(*record, resp),
{
    let custom_domain_url = match &record.custom_domain {
        Some(domain) => {
            let mut u = String::from_str("https://");
            u.append(domain.as_str());
            u.append("/v1");
            Some(u)
        },
        None => None,
    };
    ApiAccessResponse {
        key_id: record.key_id.clone(),
        secret_key: record.secret_key.clone(),
        endpoint_url: record.endpoint_url.clone(),
        public_endpoint_url: Some(String::from_str("https://gpu-node-9f82.selfapi.site/v1")),
        custom_domain_url,
        scope: record.scope.clone(),
        rate_limit_rpm: record.rate_limit_rpm,
        spend_cap_usd_cents: record.spend_cap_usd_cents,
        model_id: record.model_id.clone(),
        model_name: record.model_name.clone(),
        created_at: record.created_at.clone(),
        snippets: build_snippets(
            record.endpoint_url.as_str(),
            record.secret_key.as_str(),
            record.model_id.as_str(),
        ),
    }
}

/// Position of the first installed model with id `id`, or the length.
pub open spec fn installed_index(list: Seq<InstalledModel>, id: Seq<char>) -> int
    decreases list.len(),
{
    if list.len() == 0 {
        0
    } else if list[0].model_id@ == id {
        0
    } else {
        1 + installed_index(list.drop_first(), id)
    }
}

proof fn lemma_installed_index(list: Seq<InstalledModel>, id: Seq<char>, k: int)
    requires
        0 <= k <= list.len(),
        forall|j: int| 0 <= j < k ==> (#[trigger] list[j]).model_id@ != id,
        k == list.len() || list[k].model_id@ == id,
    ensures
        installed_index(list, id) == k,
    decreases k,
{
    if k > 0 {
        let t = list.drop_first();
        assert forall|j: int| 0 <= j < k - 1 implies (#[trigger] t[j]).model_id@ != id by {
            assert(t[j] == list[j + 1]);
        }
        if k < list.len() {
            assert(t[k - 1] == list[k]);
        }
        lemma_installed_index(t, id, k - 1);
    }
}

/// A readable name for a model found on disk or in Ollama: `ollama-` becomes
/// `Ollama: ` and `local-` becomes `Local: `.
pub open spec fn scanned_model_name(id: Seq<char>) -> Seq<char> {
    replace_all(replace_all(id, "ollama-"@, "Ollama: "@), "local-"@, "Local: "@)
}

/// The id and name a key is issued for: a curated model's, an installed
/// model's, or the id itself with a readable name; when the installed models
/// could not be listed (`None`), the id serves as both.
pub open spec fn model_identity(id: Seq<char>, installed: Option<Seq<InstalledModel>>) -> (Seq<char>, Seq<char>) {
    let c = catalog_position(id);
    if c < catalog_len() {
        (catalog_id(c), catalog_name(c))
    } else {
        match installed {
            Some(list) => {
                let k = installed_index(list, id);
                if k < list.len() {
                    (list[k].model_id@, list[k].model_name@)
                } else {
                    (id, scanned_model_name(id))
                }
            },
            None => (id, id),
        }
    }
}

/// The id and name a key for `model_id` is issued for.
pub fn resolve_model_identity(model_id: &str, installed: &Option<Vec<InstalledModel>>) -> (r: (String, String))
    ensures
        (r.0@, r.1@) == model_identity(
            model_id@,
            match installed {
                Some(l) => Some(l@),
                None => None,
            },
        ),
{
    if let Some(model) = find_catalog_model(model_id) {
        return (model.id, model.name);
    }
    match installed {
        Some(list) => {
            let mut k: usize = 0;
            while k < list.len() && !(list[k].model_id == String::from_str(model_id))
                invariant
                    k <= list@.len(),
                    forall|j: int| 0 <= j < k ==> (#[trigger] list@[j]).model_id@ != model_id@,
                decreases list@.len() - k,
            {
                k = k + 1;
            }
            proof {
                lemma_installed_index(list@, model_id@, k as int);
            }
            if k < list.len() {
                (list[k].model_id.clone(), list[k].model_name.clone())
            } else {
                proof {
                    reveal_strlit("ollama-");
                    reveal_strlit("local-");
                }
                let named = replace_str(model_id, "ollama-", "Ollama: ");
                let named = replace_str(named.as_str(), "local-", "Local: ");
                (String::from_str(model_id), named)
            }
        },
        None => (String::from_str(model_id), String::from_str(model_id)),
    }
}

/// Whether `rec` is a fresh key for the model `id` named `name`: random key
/// id and secret, unnamed, on the local endpoint with the demo custom domain,
/// full scope, 100 requests a minute and a 50-dollar spend cap.
pub open spec fn fresh_record(rec: StoredApiKey, id: Seq<char>, name: Seq<char>) -> bool {
    &&& is_key_id(rec.key_id@)
    &&& is_secret_key(rec.secret_key@)
    &&& rec.name@ == Seq::<char>::empty()
    &&& rec.endpoint_url@ == local_endpoint_text(DEFAULT_LOCAL_PORT)
    &&& rec.custom_domain matches Some(d) && d@ == "api.mycompany.com"@
    &&& rec.scope@ == "Full Access (All Models)"@
    &&& rec.rate_limit_rpm == 100
    &&& rec.spend_cap_usd_cents == 5000
    &&& rec.model_id@ == id
    &&& rec.model_name@ == name
}

/// The access granted for a model, and the key record the caller must save
/// as the active key when a new key was issued.
#[derive(Debug, Clone)]
pub struct AccessGrant {
    pub response: ApiAccessResponse,
    pub record_to_save: Option<StoredApiKey>,
}

/// Access for `model_id`. The active key `existing` is reused when it is for
/// the same model; otherwise a new key is issued and returned for saving.
/// `installed` holds the installed models, or `None` when they could not be
/// listed.
pub fn prepare_api_access(
    model_id: &str,
    installed: &Option<Vec<InstalledModel>>,
    existing: Option<StoredApiKey>,
) -> (r: Result<AccessGrant, KeyGenError>)
    ensures
        ({
            let (id, name) = model_identity(
                model_id@,
                match installed {
                    Some(l) => Some(l@),
                    None => None,
                },
            );
            match existing {
                Some(e) if e.model_id@ == id => r matches Ok(g) && g.record_to_save is None
                    && response_of(e, g.response),
                _ => r matches Ok(g) ==> (g.record_to_save matches Some(rec) && fresh_record(
                    rec,
                    id,
                    name,
                ) && response_of(rec, g.response)),
            }
        }),
{
    let (m_id, m_name) = resolve_model_identity(model_id, installed);
    if let Some(e) = existing {
        if e.model_id == m_id {
            return Ok(AccessGrant { response: to_response(&e), record_to_save: None });
        }
    }
    let record = StoredApiKey {
        key_id: generate_key_id()?,
        name: String::new(),
        secret_key: generate_secret_key()?,
        endpoint_url: local_endpoint_url(DEFAULT_LOCAL_PORT),
        custom_domain: Some(String::from_str("api.mycompany.com")),
        scope: String::from_str("Full Access (All Models)"),
        rate_limit_rpm: 100,
        spend_cap_usd_cents: 5000,
        model_id: m_id,
        model_name: m_name,
        created_at: now_rfc3339(),
    };
    let response = to_response(&record);
    Ok(AccessGrant { response, record_to_save: Some(record) })
}

/// Whether `after` is the key `before` put behind the model `id` named
/// `name`: the same key id, name, secret, endpoint, domain, scope, limits and
/// creation time; only the model changes.
pub open spec fn repointed(before: StoredApiKey, after: StoredApiKey, id: Seq<char>, name: Seq<char>) -> bool {
    &&& after.key_id == before.key_id
    &&& after.name == before.name
    &&& after.secret_key == before.secret_key
    &&& after.endpoint_url == before.endpoint_url
    &&& after.custom_domain == before.custom_domain
    &&& after.scope == before.scope
    &&& after.rate_limit_rpm == before.rate_limit_rpm
    &&& after.spend_cap_usd_cents == before.spend_cap_usd_cents
    &&& after.created_at == before.created_at
    &&& after.model_id@ == id
    &&& after.model_name@ == name
}

/// The key `key` serving the model `model_id` named `model_name` instead.
pub fn repoint_key(key: &StoredApiKey, model_id: String, model_name: String) -> (r: StoredApiKey)
    ensures
        repointed(*key, r, model_id@, model_name@),
{
    let mut r = copy_key(key);
    r.model_id = model_id;
    r.model_name = model_name;
    r
}

/// Access after switching the active model to `model_id`. An existing active
/// key is kept, put behind the new model (its id and secret unchanged) and
/// returned for saving; with no active key, access is prepared as by
/// `prepare_api_access`.
pub fn swap_api_access(
    model_id: &str,
    installed: &Option<Vec<InstalledModel>>,
    existing: Option<StoredApiKey>,
) -> (r: Result<AccessGrant, KeyGenError>)
    ensures
        ({
            let (id, name) = model_identity(
                model_id@,
                match installed {
                    Some(l) => Some(l@),
                    None => None,
                },
            );
            match existing {
                Some(e) => r matches Ok(g) && g.record_to_save matches Some(rec) && repointed(e, rec, id, name)
                    && response_of(rec, g.response),
                None => r matches Ok(g) ==> (g.record_to_save matches Some(rec) && fresh_record(rec, id, name)
                    && response_of(rec, g.response)),
            }
        }),
{
    match existing {
        Some(e) => {
            let (m_id, m_name) = resolve_model_identity(model_id, installed);
            let rec = repoint_key(&e, m_id, m_name);
            let response = to_response(&rec);
            Ok(AccessGrant { response, record_to_save: Some(rec) })
        },
        None => prepare_api_access(model_id, installed, None),
    }
}

/// A model switch keeps the active key: once the re-pointed key is saved,
/// the active key has the same id and secret as before and serves the new
/// model, and it is the one stored key with that id.
pub proof fn law_swap_keeps_key(
    store: ApiKeyStore,
    key: StoredApiKey,
    rec: StoredApiKey,
    after: ApiKeyStore,
    id: Seq<char>,
    name: Seq<char>,
)
    requires
        store.active_key == Some(key),
        repointed(key, rec, id, name),
        saved_store(store, rec, after),
    ensures
        after.active_key matches Some(a) && a.key_id == key.key_id && a.secret_key == key.secret_key
            && a.model_id@ == id,
        forall|i: int| 0 <= i < after.keys@.len() && (#[trigger] after.keys@[i]).key_id@ == key.key_id@ ==> after.keys@[i] == rec,
{
    law_saved_key_unique(store, rec, after);
    assert forall|i: int| 0 <= i < after.keys@.len() && (#[trigger] after.keys@[i]).key_id@ == key.key_id@ implies after.keys@[i] == rec by {
        if i < after.keys@.len() - 1 {
            assert(after.keys@[i].key_id@ != rec.key_id@);
        }
    }
}

} // verus!
