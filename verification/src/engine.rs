//! The search engine: boundary operations for starting a search and
//! querying its progress, and the randomized-trial loop between them.
//!
//! A search runs up to its trial budget of independent attempts. Each
//! attempt draws fresh entropy, derives a key pair and an address of the
//! requested kind, and tests the address case-insensitively against the
//! request's prefix and suffix. The first match wins; exhausting the budget
//! reports a distinguished not-found outcome, never a hard error.

use vstd::prelude::*;

verus! {

use crate::crypto;
use crate::crypto::p2pkh_address_of;
use crate::crypto::p2sh_address_of;
use crate::crypto::p2wpkh_address_of;
use crate::crypto::pubkey_text_of;
use crate::crypto::scalar_ok;
use crate::crypto::wif_text_of;
use crate::crypto::DerivedKey;
use crate::crypto::SigningContext;
use crate::matching::matches_vanity;
use crate::matching::vanity_match;
use crate::progress::ProgressRecord;
use crate::progress::ProgressStore;

/// The trial budget a request gets when it names none.
pub const DEFAULT_MAX_TRIALS: u64 = 100_000;

/// The supported address encodings.
#[derive(Clone, Copy, PartialEq, Eq, Structural, Debug)]
pub enum AddressKind {
    P2pkh,
    P2sh,
    P2wpkh,
}

/// A request to search for a vanity address.
#[derive(Clone, Debug)]
pub struct SearchRequest {
    /// What the address must begin with, compared case-insensitively.
    pub prefix: String,
    /// What the address must end with, compared case-insensitively.
    pub suffix: String,
    /// Requested key length in bits; accepted between 256 and 512.
    pub entropy_bits: u16,
    /// The requested address encoding, by name; an unrecognized name makes
    /// every trial a non-match, so the search exhausts its budget.
    pub address_kind: String,
    /// The trial budget; `None` takes the default.
    pub max_trials: Option<u64>,
}

/// The outcome of a search. `found` alone distinguishes a match from the
/// not-found outcome: when nothing was found, the string fields are empty
/// and `address_kind` carries a human-readable marker instead.
#[derive(Clone, Debug)]
pub struct SearchResult {
    pub found: bool,
    pub address: String,
    /// The matching private key in wallet-import form; empty if none.
    pub key_material: String,
    pub public_key: String,
    pub address_kind: String,
    /// The identifier under which this search's progress is tracked;
    /// `None` when the request was rejected before a search started.
    pub search_id: Option<u64>,
}

/// A snapshot of a search's progress: its attempt count, its own trial
/// budget, and a status text.
pub struct ProgressSnapshot {
    pub progress: u64,
    pub total: u64,
    pub status: String,
}

/// The accepted range of requested key lengths, in bits.
pub open spec fn valid_entropy_bits(bits: u16) -> bool {
    256 <= bits && bits <= 512
}

/// Which supported kind an address-kind name denotes, if any.
pub open spec fn kind_of(s: Seq<char>) -> Option<AddressKind> {
    if s == "P2PKH"@ {
        Some(AddressKind::P2pkh)
    } else if s == "P2SH"@ {
        Some(AddressKind::P2sh)
    } else if s == "P2WPKH"@ {
        Some(AddressKind::P2wpkh)
    } else {
        None
    }
}

/// The trial budget of a request.
pub open spec fn budget_of(req: SearchRequest) -> u64 {
    match req.max_trials {
        Some(n) => n,
        None => DEFAULT_MAX_TRIALS,
    }
}

/// The address a valid entropy sample derives under the given kind, in its
/// text form.
pub open spec fn derived_address_of(e: Seq<u8>, k: AddressKind) -> Seq<char> {
    match k {
        AddressKind::P2pkh => p2pkh_address_of(e),
        AddressKind::P2sh => p2sh_address_of(e),
        AddressKind::P2wpkh => p2wpkh_address_of(e),
    }
}

/// Whether a requested key length is accepted.
pub fn entropy_bits_accepted(bits: u16) -> (r: bool)
    ensures
        r == valid_entropy_bits(bits),
{
    256 <= bits && bits <= 512
}

/// Resolves an address-kind name against the supported set.
pub fn parse_kind(s: &String) -> (r: Option<AddressKind>)
    ensures
        r == kind_of(s@),
{
    let p2pkh = "P2PKH".to_string();
    let p2sh = "P2SH".to_string();
    let p2wpkh = "P2WPKH".to_string();
    if s.eq(&p2pkh) {
        Some(AddressKind::P2pkh)
    } else if s.eq(&p2sh) {
        Some(AddressKind::P2sh)
    } else if s.eq(&p2wpkh) {
        Some(AddressKind::P2wpkh)
    } else {
        None
    }
}

/// One independent trial: derive a key pair from the given entropy, encode
/// its address of the requested kind, and test that address against the
/// prefix and suffix, case-insensitively.
///
/// On a supported kind and an entropy sample the curve accepts, the trial
/// succeeds exactly when the address that sample derives matches, and what
/// it returns is that sample's own derivation: its address, its key in
/// wallet-import form, and its public key's text. Empty affixes match
/// every address, so such a trial always succeeds. `None` comes back when
/// the sample is rejected by the curve, the kind is unsupported, or the
/// address does not match.
pub fn run_trial(
    ctx: &SigningContext,
    entropy: &Vec<u8>,
    kind: Option<AddressKind>,
    prefix: &str,
    suffix: &str,
) -> (r: Option<DerivedKey>)
    ensures
        kind is None ==> r is None,
        r is Some ==> vanity_match(r->Some_0.address@, prefix@, suffix@),
        kind is Some && entropy@.len() == 32 && scalar_ok(entropy@) ==> (r is Some
            <==> vanity_match(derived_address_of(entropy@, kind->Some_0), prefix@, suffix@)),
        kind is Some && entropy@.len() == 32 && scalar_ok(entropy@) && prefix@.len() == 0
            && suffix@.len() == 0 ==> r is Some,
        r is Some ==> entropy@.len() == 32 && scalar_ok(entropy@)
            && r->Some_0.address@ == derived_address_of(entropy@, kind->Some_0)
            && r->Some_0.key_material@ == wif_text_of(entropy@)
            && r->Some_0.public_key@ == pubkey_text_of(entropy@),
{
    let k = match kind {
        Some(k) => k,
        None => {
            return None;
        },
    };
    let derived = match k {
        AddressKind::P2pkh => crypto::derive_p2pkh(ctx, entropy),
        AddressKind::P2sh => crypto::derive_p2sh(ctx, entropy),
        AddressKind::P2wpkh => crypto::derive_p2wpkh(ctx, entropy),
    };
    let d = match derived {
        Some(d) => d,
        None => {
            return None;
        },
    };
    let matched = matches_vanity(d.address.as_str(), prefix, suffix);
    if matched {
        Some(d)
    } else {
        None
    }
}

/// Runs a search to completion: up to the request's trial budget of
/// independent attempts, stopping at the first match.
///
/// A request with an entropy length outside the accepted range is rejected
/// before anything starts: the store is untouched and no identifier is
/// minted. Otherwise a fresh identifier is tracked in the store under the
/// request's budget; its record ends with the exact number of attempts
/// made (the whole budget when nothing was found) and with `found`
/// mirroring the outcome, and the records of all other searches are
/// untouched. A found result is the derivation of one entropy sample the
/// curve accepted: its address — which matches the request's prefix and
/// suffix case-insensitively — with that same sample's key in
/// wallet-import form and its public key's text. An unrecognized address
/// kind never finds anything.
pub fn start_search(req: &SearchRequest, store: &mut ProgressStore) -> (r: SearchResult)
    ensures
        r.found ==> vanity_match(r.address@, req.prefix@, req.suffix@),
        r.found ==> r.address_kind@ == req.address_kind@,
        r.found ==> exists|e: Seq<u8>|
            {
                &&& e.len() == 32
                &&& #[trigger] scalar_ok(e)
                &&& r.address@ == derived_address_of(e, kind_of(req.address_kind@)->Some_0)
                &&& r.key_material@ == wif_text_of(e)
                &&& r.public_key@ == pubkey_text_of(e)
            },
        kind_of(req.address_kind@) is None ==> !r.found,
        !r.found ==> r.address@ =~= Seq::<char>::empty() && r.key_material@ =~= Seq::<
            char,
        >::empty() && r.public_key@ =~= Seq::<char>::empty(),
        !valid_entropy_bits(req.entropy_bits) ==> !r.found && r.search_id is None
            && r.address_kind@ == "Invalid key length"@ && final(store)@ == old(store)@,
        valid_entropy_bits(req.entropy_bits) ==> r.search_id is Some && {
            let id = r.search_id->Some_0;
            &&& final(store)@.contains_key(id)
            &&& final(store)@[id].found == r.found
            &&& final(store)@[id].total_budget == budget_of(*req)
            &&& final(store)@[id].attempts_completed <= budget_of(*req)
            &&& (r.found ==> 1 <= final(store)@[id].attempts_completed)
            &&& (!r.found ==> final(store)@[id].attempts_completed == budget_of(*req))
            &&& final(store)@.dom() =~= old(store)@.dom().insert(id)
            &&& (forall|k: u64|
                k != id && old(store)@.contains_key(k) ==> final(store)@[k] == old(store)@[k])
        },
        !r.found && valid_entropy_bits(req.entropy_bits) ==> r.address_kind@
            == "No address found"@,
{
    if !entropy_bits_accepted(req.entropy_bits) {
        return SearchResult {
            found: false,
            address: String::new(),
            key_material: String::new(),
            public_key: String::new(),
            address_kind: "Invalid key length".to_string(),
            search_id: None,
        };
    }
    let kind = parse_kind(&req.address_kind);
    let max_trials: u64 = match req.max_trials {
        Some(n) => n,
        None => DEFAULT_MAX_TRIALS,
    };
    let key_len: usize = (req.entropy_bits / 8) as usize;
    let id = crypto::random_id();
    store.start_tracking(id, max_trials);
    let ctx = crypto::secp_context();
    let ghost base = old(store)@;
    let mut i: u64 = 0;
    while i < max_trials
        invariant
            base == old(store)@,
            store@ =~= base.insert(
                id,
                ProgressRecord { attempts_completed: i, found: false, total_budget: max_trials },
            ),
            i <= max_trials,
            valid_entropy_bits(req.entropy_bits),
            max_trials == budget_of(*req),
            kind == kind_of(req.address_kind@),
        decreases max_trials - i,
    {
        let entropy = crypto::random_bytes(key_len);
        let outcome = run_trial(&ctx, &entropy, kind, req.prefix.as_str(), req.suffix.as_str());
        store.increment_attempts(id);
        i = i + 1;
        match outcome {
            Some(found_key) => {
                store.mark_found(id);
                proof {
                    assert(entropy@.len() == 32 && scalar_ok(entropy@));
                }
                return SearchResult {
                    found: true,
                    address: found_key.address,
                    key_material: found_key.key_material,
                    public_key: found_key.public_key,
                    address_kind: req.address_kind.clone(),
                    search_id: Some(id),
                };
            },
            None => {},
        }
    }
    SearchResult {
        found: false,
        address: String::new(),
        key_material: String::new(),
        public_key: String::new(),
        address_kind: "No address found".to_string(),
        search_id: Some(id),
    }
}

/// A consistent snapshot of the progress of the search `id`: its attempt
/// count, its own trial budget as the total, and a status naming whether
/// it has found its address. An identifier that was never tracked reports
/// a distinguished not-found status with no progress and the default
/// budget; the query changes nothing and cannot fail.
pub fn query_progress(store: &ProgressStore, id: u64) -> (r: ProgressSnapshot)
    ensures
        store@.contains_key(id) ==> r.progress == store@[id].attempts_completed && r.total
            == store@[id].total_budget,
        store@.contains_key(id) && store@[id].found ==> r.status@ == "Address Found"@,
        store@.contains_key(id) && !store@[id].found ==> r.status@ == "In Progress"@,
        !store@.contains_key(id) ==> r.progress == 0 && r.total == DEFAULT_MAX_TRIALS
            && r.status@ == "Progress ID not found"@,
{
    match store.read_progress(id) {
        Some(rec) => ProgressSnapshot {
            progress: rec.attempts_completed,
            total: rec.total_budget,
            status: if rec.found {
                "Address Found".to_string()
            } else {
                "In Progress".to_string()
            },
        },
        None => ProgressSnapshot {
            progress: 0,
            total: DEFAULT_MAX_TRIALS,
            status: "Progress ID not found".to_string(),
        },
    }
}

} // verus!
