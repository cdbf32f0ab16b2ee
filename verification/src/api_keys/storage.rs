//! The key store's rules: the local endpoint URL, what saving an active key
//! does to the store, and which keys are listed. Reading and writing the
//! store file is the caller's part.
use vstd::prelude::*;
use super::types::{copy_key, ApiKeyStore, StoredApiKey, DEFAULT_LOCAL_PORT};
use crate::text::{decimal, push_decimal};

verus! {

/// The local endpoint URL for `port`: `http://127.0.0.1:<port>/v1`.
pub open spec fn local_endpoint_text(port: u16) -> Seq<char> {
    "http://127.0.0.1:"@ + decimal(port as nat) + "/v1"@
}

/// The local OpenAI-compatible endpoint URL on `port`.
pub fn local_endpoint_url(port: u16) -> (s: String)
    ensures
        s@ == local_endpoint_text(port),
{
    let mut s = String::from_str("http://127.0.0.1:");
    push_decimal(&mut s, port as u64);
    s.append("/v1");
    s
}

/// `keys` without those whose id is `key_id`, in order.
pub open spec fn without_key(keys: Seq<StoredApiKey>, key_id: Seq<char>) -> Seq<StoredApiKey>
    decreases keys.len(),
{
    if keys.len() == 0 {
        seq![]
    } else {
        let prev = without_key(keys.drop_last(), key_id);
        if keys.last().key_id@ == key_id {
            prev
        } else {
            prev.push(keys.last())
        }
    }
}

/// The store after `record` is saved as the active key: on the default port,
/// `record` active, and `record` replacing any key with its id at the end of
/// the list.
pub open spec fn saved_store(store: ApiKeyStore, record: StoredApiKey, after: ApiKeyStore) -> bool {
    &&& after.local_port == DEFAULT_LOCAL_PORT
    &&& after.active_key == Some(record)
    &&& after.keys@ == without_key(store.keys@, record.key_id@).push(record)
}

proof fn lemma_without_key(keys: Seq<StoredApiKey>, key_id: Seq<char>)
    ensures
        forall|i: int| 0 <= i < without_key(keys, key_id).len() ==> (#[trigger] without_key(keys, key_id)[i]).key_id@ != key_id,
        forall|k: StoredApiKey| #[trigger] keys.contains(k) && k.key_id@ != key_id ==> without_key(keys, key_id).contains(k),
        forall|k: StoredApiKey| #[trigger] without_key(keys, key_id).contains(k) ==> keys.contains(k),
    decreases keys.len(),
{
    if keys.len() > 0 {
        let init = keys.drop_last();
        lemma_without_key(init, key_id);
        let prev = without_key(init, key_id);
        assert forall|k: StoredApiKey| keys.contains(k) && k.key_id@ != key_id implies without_key(keys, key_id).contains(k) by {
            let t = choose|t: int| 0 <= t < keys.len() && keys[t] == k;
            if t < init.len() {
                assert(init[t] == k);
                assert(init.contains(k));
                let u = choose|u: int| 0 <= u < prev.len() && prev[u] == k;
                if keys.last().key_id@ != key_id {
                    assert(prev.push(keys.last())[u] == k);
                }
            } else {
                assert(keys.last() == k);
                assert(prev.push(keys.last())[prev.len() as int] == k);
            }
        }
        assert forall|k: StoredApiKey| without_key(keys, key_id).contains(k) implies keys.contains(k) by {
            let u = choose|u: int| 0 <= u < without_key(keys, key_id).len() && without_key(keys, key_id)[u] == k;
            if u < prev.len() {
                if keys.last().key_id@ != key_id {
                    assert(prev.push(keys.last())[u] == prev[u]);
                }
                assert(prev[u] == k);
                assert(prev.contains(k));
                let t = choose|t: int| 0 <= t < init.len() && init[t] == k;
                assert(keys[t] == k);
            } else {
                assert(keys[keys.len() - 1] == k);
            }
        }
    }
}

/// Saving a key makes it the active key and the last stored key, no other
/// stored key has its id, and every stored key with another id is kept.
pub proof fn law_saved_key_unique(store: ApiKeyStore, record: StoredApiKey, after: ApiKeyStore)
    requires
        saved_store(store, record, after),
    ensures
        after.active_key == Some(record),
        after.keys@.len() > 0 && after.keys@.last() == record,
        forall|i: int| 0 <= i < after.keys@.len() - 1 ==> (#[trigger] after.keys@[i]).key_id@ != record.key_id@,
        forall|k: StoredApiKey| store.keys@.contains(k) && k.key_id@ != record.key_id@ ==> after.keys@.contains(k),
        forall|k: StoredApiKey| after.keys@.contains(k) ==> k == record || store.keys@.contains(k),
{
    lemma_without_key(store.keys@, record.key_id@);
    let kept = without_key(store.keys@, record.key_id@);
    assert forall|i: int| 0 <= i < after.keys@.len() - 1 implies (#[trigger] after.keys@[i]).key_id@ != record.key_id@ by {
        assert(after.keys@[i] == kept[i]);
    }
    assert forall|k: StoredApiKey| store.keys@.contains(k) && k.key_id@ != record.key_id@ implies after.keys@.contains(k) by {
        let u = choose|u: int| 0 <= u < kept.len() && kept[u] == k;
        assert(after.keys@[u] == k);
    }
    assert forall|k: StoredApiKey| after.keys@.contains(k) implies k == record || store.keys@.contains(k) by {
        let u = choose|u: int| 0 <= u < after.keys@.len() && after.keys@[u] == k;
        if u < kept.len() {
            assert(kept[u] == k);
            assert(kept.contains(k));
        }
    }
}

/// The store with `record` saved as its active key.
pub fn apply_active_key(store: ApiKeyStore, record: StoredApiKey) -> (r: ApiKeyStore)
    ensures
        saved_store(store, record, r),
{
    let mut keys: Vec<StoredApiKey> = Vec::new();
    let mut i: usize = 0;
    while i < store.keys.len()
        invariant
            i <= store.keys@.len(),
            keys@ == without_key(store.keys@.take(i as int), record.key_id@),
        decreases store.keys@.len() - i,
    {
        proof {
            assert(store.keys@.take(i + 1).drop_last() == store.keys@.take(i as int));
            assert(store.keys@.take(i + 1).last() == store.keys@[i as int]);
        }
        if !(store.keys[i].key_id == record.key_id) {
            keys.push(copy_key(&store.keys[i]));
        }
        i = i + 1;
    }
    assert(store.keys@.take(store.keys@.len() as int) == store.keys@);
    keys.push(copy_key(&record));
    ApiKeyStore { local_port: DEFAULT_LOCAL_PORT, active_key: Some(record), keys }
}

/// The keys to list: the stored keys, or the active key alone when the list
/// is empty.
pub open spec fn listing_spec(store: ApiKeyStore) -> Seq<StoredApiKey> {
    if store.keys@.len() == 0 {
        match store.active_key {
            Some(a) => seq![a],
            None => store.keys@,
        }
    } else {
        store.keys@
    }
}

/// The keys of `store` to list.
pub fn stored_key_listing(store: &ApiKeyStore) -> (r: Vec<StoredApiKey>)
    ensures
        r@ == listing_spec(*store),
{
    if store.keys.len() == 0 {
        if let Some(active) = &store.active_key {
            let mut r: Vec<StoredApiKey> = Vec::new();
            r.push(copy_key(active));
            return r;
        }
    }
    let mut r: Vec<StoredApiKey> = Vec::new();
    let mut i: usize = 0;
    while i < store.keys.len()
        invariant
            i <= store.keys@.len(),
            r@ == store.keys@.take(i as int),
        decreases store.keys@.len() - i,
    {
        r.push(copy_key(&store.keys[i]));
        assert(store.keys@.take(i + 1) == store.keys@.take(i as int).push(store.keys@[i as int]));
        i = i + 1;
    }
    assert(store.keys@.take(store.keys@.len() as int) == store.keys@);
    r
}

} // verus!
