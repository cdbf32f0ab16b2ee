//! Records of API keys and of the access handed to the user. Amounts of money
//! are whole cents.
use vstd::prelude::*;

verus! {

/// The port of the local OpenAI-compatible endpoint.
pub const DEFAULT_LOCAL_PORT: u16 = 8787;

/// One code snippet: its language, a label for it, and its text.
#[derive(Debug, Clone)]
pub struct CodeSnippet {
    pub language: String,
    pub label: String,
    pub code: String,
}

/// What the user is shown to call their local API.
#[derive(Debug, Clone)]
pub struct ApiAccessResponse {
    pub key_id: String,
    pub secret_key: String,
    pub endpoint_url: String,
    pub public_endpoint_url: Option<String>,
    pub custom_domain_url: Option<String>,
    pub scope: String,
    pub rate_limit_rpm: u32,
    pub spend_cap_usd_cents: u64,
    pub model_id: String,
    pub model_name: String,
    pub created_at: String,
    pub snippets: Vec<CodeSnippet>,
}

/// An API key as stored on disk.
#[derive(Debug, Clone)]
pub struct StoredApiKey {
    pub key_id: String,
    pub name: String,
    pub secret_key: String,
    pub endpoint_url: String,
    pub custom_domain: Option<String>,
    pub scope: String,
    pub rate_limit_rpm: u32,
    pub spend_cap_usd_cents: u64,
    pub model_id: String,
    pub model_name: String,
    pub created_at: String,
}

/// The key store: the local port, the active key and all issued keys.
#[derive(Debug, Clone)]
pub struct ApiKeyStore {
    pub local_port: u16,
    pub active_key: Option<StoredApiKey>,
    pub keys: Vec<StoredApiKey>,
}

impl Default for ApiKeyStore {
    /// An empty store on the default port.
    fn default() -> (s: Self)
        ensures
            s.local_port == DEFAULT_LOCAL_PORT,
            s.active_key is None,
            s.keys@.len() == 0,
    {
        ApiKeyStore { local_port: DEFAULT_LOCAL_PORT, active_key: None, keys: Vec::new() }
    }
}

/// An equal copy of a stored key.
pub fn copy_key(k: &StoredApiKey) -> (r: StoredApiKey)
    ensures
        r == *k,
{
    StoredApiKey {
        key_id: k.key_id.clone(),
        name: k.name.clone(),
        secret_key: k.secret_key.clone(),
        endpoint_url: k.endpoint_url.clone(),
        custom_domain: match &k.custom_domain {
            Some(d) => Some(d.clone()),
            None => None,
        },
        scope: k.scope.clone(),
        rate_limit_rpm: k.rate_limit_rpm,
        spend_cap_usd_cents: k.spend_cap_usd_cents,
        model_id: k.model_id.clone(),
        model_name: k.model_name.clone(),
        created_at: k.created_at.clone(),
    }
}

} // verus!
