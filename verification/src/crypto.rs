//! The trusted boundary to the key-derivation capability and to the source
//! of randomness.
//!
//! Key generation, elliptic-curve arithmetic and address encoding are the
//! business of the `bitcoin` crate (and the `secp256k1` crate under it);
//! randomness is the business of the `rand` crate. Every derivation result
//! is a deterministic function of the entropy sample alone, so each is
//! given a name here, and the derivation wrappers promise exactly which
//! named values they return and when they succeed. The engine's logic is
//! verified against these declarations.

use vstd::prelude::*;
use rand::Rng;
use bitcoin::blockdata::script::Script;
use bitcoin::network::constants::Network;
use bitcoin::secp256k1::Secp256k1;
use bitcoin::secp256k1::SecretKey;
use bitcoin::util::address::Address;
use bitcoin::util::key::PrivateKey;

verus! {

/// Holds secp256k1's `Secp256k1` engine. The trait bound on that type's
/// generic context parameter keeps it from being declared to the verifier
/// directly, so it lives behind this opaque struct.
#[verifier::external_body]
pub struct SigningContext {
    ctx: Secp256k1<bitcoin::secp256k1::All>,
}

/// The key material derived from one entropy sample: the address in its
/// text form, the private key in wallet-import form, and the text form of
/// the public key.
pub struct DerivedKey {
    pub address: String,
    pub key_material: String,
    pub public_key: String,
}

/// Whether a 32-byte entropy sample encodes a valid secret key for the
/// curve: the success condition of secp256k1's `SecretKey::from_slice`,
/// which depends on the bytes alone.
pub uninterp spec fn scalar_ok(e: Seq<u8>) -> bool;

/// The pay-to-pubkey-hash address derived from a valid entropy sample, in
/// its text form; a function of the bytes alone.
pub uninterp spec fn p2pkh_address_of(e: Seq<u8>) -> Seq<char>;

/// The pay-to-script-hash address derived from a valid entropy sample, in
/// its text form; a function of the bytes alone.
pub uninterp spec fn p2sh_address_of(e: Seq<u8>) -> Seq<char>;

/// The native segwit address derived from a valid entropy sample, in its
/// text form; a function of the bytes alone.
pub uninterp spec fn p2wpkh_address_of(e: Seq<u8>) -> Seq<char>;

/// The wallet-import form of the private key a valid entropy sample
/// encodes; a function of the bytes alone.
pub uninterp spec fn wif_text_of(e: Seq<u8>) -> Seq<char>;

/// The text form of the public key a valid entropy sample determines; a
/// function of the bytes alone.
pub uninterp spec fn pubkey_text_of(e: Seq<u8>) -> Seq<char>;

/// Relies on `rand::thread_rng` and `rand::Rng::gen`: an unpredictable
/// 64-bit identifier; nothing is promised of its value.
#[verifier::external_body]
pub(crate) fn random_id() -> u64 {
    rand::thread_rng().gen::<u64>()
}

/// Relies on `rand::thread_rng` and `rand::Rng::fill`: a buffer of `n`
/// random bytes; nothing is promised of their values.
#[verifier::external_body]
pub(crate) fn random_bytes(n: usize) -> (r: Vec<u8>)
    ensures
        r@.len() == n,
{
    let mut buf = vec![0u8; n];
    rand::thread_rng().fill(&mut buf[..]);
    buf
}

/// Relies on secp256k1's `Secp256k1::new`: a context with all capabilities.
#[verifier::external_body]
pub fn secp_context() -> SigningContext {
    SigningContext { ctx: Secp256k1::new() }
}

/// Relies on secp256k1's `SecretKey::from_slice` (exactly the 32-byte
/// samples valid for the curve succeed), bitcoin's `PrivateKey` (built
/// compressed, for the main network), `PrivateKey::public_key`,
/// `Address::p2pkh`, `PrivateKey::to_wif` and the keys' display forms:
/// every result is a function of the entropy bytes alone.
#[verifier::external_body]
pub(crate) fn derive_p2pkh(ctx: &SigningContext, entropy: &Vec<u8>) -> (r: Option<DerivedKey>)
    ensures
        r is Some ==> entropy@.len() == 32 && scalar_ok(entropy@),
        r is None ==> entropy@.len() != 32 || !scalar_ok(entropy@),
        r is Some ==> r->Some_0.address@ == p2pkh_address_of(entropy@),
        r is Some ==> r->Some_0.key_material@ == wif_text_of(entropy@),
        r is Some ==> r->Some_0.public_key@ == pubkey_text_of(entropy@),
{
    let sk = match SecretKey::from_slice(entropy.as_slice()).ok() {
        Some(k) => k,
        None => return None,
    };
    let private_key = PrivateKey { compressed: true, network: Network::Bitcoin, key: sk };
    let public_key = private_key.public_key(&ctx.ctx);
    let address = Address::p2pkh(&public_key, Network::Bitcoin).to_string();
    Some(DerivedKey {
        address,
        key_material: private_key.to_wif(),
        public_key: public_key.to_string(),
    })
}

/// Relies on secp256k1's `SecretKey::from_slice` (exactly the 32-byte
/// samples valid for the curve succeed), bitcoin's `PrivateKey` (built
/// compressed, for the main network), `PrivateKey::public_key`,
/// `PublicKey::pubkey_hash`, `Script::new_p2pkh`, `Address::p2sh`,
/// `PrivateKey::to_wif` and the keys' display forms: every result is a
/// function of the entropy bytes alone.
#[verifier::external_body]
pub(crate) fn derive_p2sh(ctx: &SigningContext, entropy: &Vec<u8>) -> (r: Option<DerivedKey>)
    ensures
        r is Some ==> entropy@.len() == 32 && scalar_ok(entropy@),
        r is None ==> entropy@.len() != 32 || !scalar_ok(entropy@),
        r is Some ==> r->Some_0.address@ == p2sh_address_of(entropy@),
        r is Some ==> r->Some_0.key_material@ == wif_text_of(entropy@),
        r is Some ==> r->Some_0.public_key@ == pubkey_text_of(entropy@),
{
    let sk = match SecretKey::from_slice(entropy.as_slice()).ok() {
        Some(k) => k,
        None => return None,
    };
    let private_key = PrivateKey { compressed: true, network: Network::Bitcoin, key: sk };
    let public_key = private_key.public_key(&ctx.ctx);
    let script = Script::new_p2pkh(&public_key.pubkey_hash());
    let address = Address::p2sh(&script, Network::Bitcoin).to_string();
    Some(DerivedKey {
        address,
        key_material: private_key.to_wif(),
        public_key: public_key.to_string(),
    })
}

/// Relies on secp256k1's `SecretKey::from_slice` (exactly the 32-byte
/// samples valid for the curve succeed), bitcoin's `PrivateKey` (built
/// compressed, for the main network), `PrivateKey::public_key`,
/// `Address::p2wpkh` (which refuses only uncompressed keys, and every key
/// built here is compressed), `PrivateKey::to_wif` and the keys' display
/// forms: every result is a function of the entropy bytes alone.
#[verifier::external_body]
pub(crate) fn derive_p2wpkh(ctx: &SigningContext, entropy: &Vec<u8>) -> (r: Option<DerivedKey>)
    ensures
        r is Some ==> entropy@.len() == 32 && scalar_ok(entropy@),
        r is None ==> entropy@.len() != 32 || !scalar_ok(entropy@),
        r is Some ==> r->Some_0.address@ == p2wpkh_address_of(entropy@),
        r is Some ==> r->Some_0.key_material@ == wif_text_of(entropy@),
        r is Some ==> r->Some_0.public_key@ == pubkey_text_of(entropy@),
{
    let sk = match SecretKey::from_slice(entropy.as_slice()).ok() {
        Some(k) => k,
        None => return None,
    };
    let private_key = PrivateKey { compressed: true, network: Network::Bitcoin, key: sk };
    let public_key = private_key.public_key(&ctx.ctx);
    let address = match Address::p2wpkh(&public_key, Network::Bitcoin).ok() {
        Some(a) => a.to_string(),
        None => return None,
    };
    Some(DerivedKey {
        address,
        key_material: private_key.to_wif(),
        public_key: public_key.to_string(),
    })
}

} // verus!
