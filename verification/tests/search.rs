use vanity_search::engine::query_progress;
use vanity_search::engine::start_search;
use vanity_search::engine::SearchRequest;
use vanity_search::engine::DEFAULT_MAX_TRIALS;
use vanity_search::progress::ProgressStore;

fn request(prefix: &str, suffix: &str, bits: u16, kind: &str, max: Option<u64>) -> SearchRequest {
    SearchRequest {
        prefix: prefix.to_string(),
        suffix: suffix.to_string(),
        entropy_bits: bits,
        address_kind: kind.to_string(),
        max_trials: max,
    }
}

#[test]
fn empty_affixes_find_on_the_single_trial() {
    let mut store = ProgressStore::new();
    let req = request("", "", 256, "P2PKH", Some(1));
    let result = start_search(&req, &mut store);
    assert!(result.found);
    assert!(!result.address.is_empty());
    assert!(!result.key_material.is_empty());
    assert!(!result.public_key.is_empty());
    assert_eq!(result.address_kind, "P2PKH");
    let id = result.search_id.unwrap();
    let snap = query_progress(&store, id);
    assert_eq!(snap.progress, 1);
    assert_eq!(snap.total, 1);
    assert_eq!(snap.status, "Address Found");
}

#[test]
fn achievable_prefix_is_found_and_matches() {
    // Every pay-to-pubkey-hash address on the main network begins with '1'.
    let mut store = ProgressStore::new();
    let req = request("1", "", 256, "P2PKH", Some(25));
    let result = start_search(&req, &mut store);
    assert!(result.found);
    assert!(result.address.to_lowercase().starts_with('1'));
}

#[test]
fn impossible_affix_exhausts_the_whole_budget() {
    let mut store = ProgressStore::new();
    let long = "z".repeat(100);
    let req = request(&long, &long, 256, "P2PKH", Some(3));
    let result = start_search(&req, &mut store);
    assert!(!result.found);
    assert!(result.address.is_empty());
    assert!(result.key_material.is_empty());
    assert!(result.public_key.is_empty());
    assert_eq!(result.address_kind, "No address found");
    let id = result.search_id.unwrap();
    let snap = query_progress(&store, id);
    assert_eq!(snap.progress, 3);
    assert_eq!(snap.total, 3);
    assert_eq!(snap.status, "In Progress");
}

#[test]
fn unsupported_kind_never_finds_and_exhausts_the_budget() {
    let mut store = ProgressStore::new();
    let req = request("", "", 256, "KindX", Some(5));
    let result = start_search(&req, &mut store);
    assert!(!result.found);
    assert_eq!(result.address_kind, "No address found");
    let id = result.search_id.unwrap();
    let snap = query_progress(&store, id);
    assert_eq!(snap.progress, 5);
    assert_eq!(snap.total, 5);
}

#[test]
fn invalid_entropy_length_is_rejected_before_starting() {
    let mut store = ProgressStore::new();
    let req = request("", "", 128, "P2PKH", Some(1));
    let result = start_search(&req, &mut store);
    assert!(!result.found);
    assert!(result.search_id.is_none());
    assert!(result.address.is_empty());
    assert_eq!(result.address_kind, "Invalid key length");
    assert_eq!(store.count(), 0);

    let req = request("", "", 520, "P2PKH", Some(1));
    let result = start_search(&req, &mut store);
    assert!(!result.found);
    assert!(result.search_id.is_none());
    assert_eq!(result.address_kind, "Invalid key length");
    assert_eq!(store.count(), 0);
}

#[test]
fn oversized_entropy_samples_are_discarded_but_counted() {
    // 512-bit samples are rejected by the curve; each trial is a discarded
    // derivation that still advances progress.
    let mut store = ProgressStore::new();
    let req = request("", "", 512, "P2PKH", Some(2));
    let result = start_search(&req, &mut store);
    assert!(!result.found);
    let id = result.search_id.unwrap();
    let snap = query_progress(&store, id);
    assert_eq!(snap.progress, 2);
}

#[test]
fn p2sh_addresses_are_found() {
    // Every pay-to-script-hash address on the main network begins with '3'.
    let mut store = ProgressStore::new();
    let req = request("3", "", 256, "P2SH", Some(25));
    let result = start_search(&req, &mut store);
    assert!(result.found);
    assert!(result.address.starts_with('3'));
    assert_eq!(result.address_kind, "P2SH");
}

#[test]
fn p2wpkh_addresses_are_found() {
    // Every native segwit address on the main network begins with "bc1".
    let mut store = ProgressStore::new();
    let req = request("bc1", "", 256, "P2WPKH", Some(25));
    let result = start_search(&req, &mut store);
    assert!(result.found);
    assert!(result.address.to_lowercase().starts_with("bc1"));
    assert_eq!(result.address_kind, "P2WPKH");
}

#[test]
fn omitted_budget_takes_and_reports_the_default() {
    let mut store = ProgressStore::new();
    let req = request("", "", 256, "P2PKH", None);
    let result = start_search(&req, &mut store);
    assert!(result.found);
    let id = result.search_id.unwrap();
    let snap = query_progress(&store, id);
    assert_eq!(snap.total, DEFAULT_MAX_TRIALS);
    assert_eq!(snap.status, "Address Found");
}

#[test]
fn identical_requests_run_independently() {
    let mut store = ProgressStore::new();
    let req = request("", "", 256, "P2PKH", Some(1));
    let first = start_search(&req.clone(), &mut store);
    let second = start_search(&req, &mut store);
    assert!(first.found);
    assert!(second.found);
    let first_id = first.search_id.unwrap();
    let second_id = second.search_id.unwrap();
    assert_eq!(query_progress(&store, first_id).status, "Address Found");
    assert_eq!(query_progress(&store, second_id).status, "Address Found");
}

#[test]
fn case_insensitive_prefix_is_honoured() {
    // Uppercase the prefix; found addresses still satisfy it after folding.
    let mut store = ProgressStore::new();
    let req = request("BC1", "", 256, "P2WPKH", Some(25));
    let result = start_search(&req, &mut store);
    assert!(result.found);
    assert!(result.address.to_lowercase().starts_with("bc1"));
}
