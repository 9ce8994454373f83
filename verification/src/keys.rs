//! Key material: loading a secret from hex or generating a fresh one,
//! deriving the Taproot internal key and the P2TR script-pubkey, and
//! address handling for the configured network.

use vstd::prelude::*;

use crate::hexcode::{hex_decode, hex_value, is_hex_digit};
use crate::model::{DepositError, Network};

verus! {

/// Whether a 32-byte string encodes a valid secret scalar.
pub uninterp spec fn secret_ok(b: Seq<u8>) -> bool;

/// The x-only public key derived from a valid secret.
pub uninterp spec fn xonly_of(secret: Seq<u8>) -> Seq<u8>;

/// The P2TR script-pubkey for an internal key with no script tree.
pub uninterp spec fn p2tr_script_of(xonly: Seq<u8>) -> Seq<u8>;

/// The script-pubkey an address string denotes on a network, or `None`
/// when the string does not parse as an address of that network.
pub uninterp spec fn addr_script_spec(s: Seq<char>, net_code: u32) -> Option<Seq<u8>>;

/// The address string denoting a script on a network, or `None` when the
/// script has no address form.
pub uninterp spec fn addr_of_script(script: Seq<u8>, net_code: u32) -> Option<Seq<char>>;

/// Relies on secp256k1's `SecretKey::from_slice`: it accepts exactly the
/// 32-byte encodings of valid secret scalars.
#[verifier::external_body]
fn secret_check(b: &Vec<u8>) -> (r: bool)
    ensures
        r == secret_ok(b@),
        r ==> b@.len() == 32,
{
    bitcoin::secp256k1::SecretKey::from_slice(b.as_slice()).is_ok()
}

/// Relies on secp256k1's `SecretKey::new` with the thread-local
/// cryptographic RNG: a fresh random valid secret scalar, 32 bytes.
#[verifier::external_body]
fn fresh_secret_bytes() -> (r: Vec<u8>)
    ensures
        r@.len() == 32,
        secret_ok(r@),
{
    let sk = bitcoin::secp256k1::SecretKey::new(&mut bitcoin::secp256k1::rand::thread_rng());
    sk.secret_bytes().to_vec()
}

/// Relies on secp256k1's `Keypair::from_secret_key` and
/// `x_only_public_key`, and on bitcoin's `ScriptBuf::new_p2tr` with no
/// merkle root: the x-only key is 32 bytes and, being a serialized
/// public key, parses back through `XOnlyPublicKey::from_slice`; the
/// script is the BIP-341 pay-to-taproot form
/// `OP_PUSHNUM_1 OP_PUSHBYTES_32 <output key>`, 34 bytes long.
#[verifier::external_body]
fn derive_from_secret(secret: &Vec<u8>) -> (r: (Vec<u8>, Vec<u8>))
    requires
        secret_ok(secret@),
    ensures
        r.0@ == xonly_of(secret@),
        r.0@.len() == 32,
        crate::foreign::xonly_parses(r.0@),
        r.1@ == p2tr_script_of(xonly_of(secret@)),
        r.1@.len() == 34,
        r.1@[0] == 0x51u8,
        r.1@[1] == 0x20u8,
{
    let secp = bitcoin::secp256k1::Secp256k1::new();
    let sk = bitcoin::secp256k1::SecretKey::from_slice(secret.as_slice()).expect("valid secret");
    let kp = bitcoin::secp256k1::Keypair::from_secret_key(&secp, &sk);
    let (xonly, _parity) = kp.x_only_public_key();
    let script = bitcoin::ScriptBuf::new_p2tr(&secp, xonly, None);
    (xonly.serialize().to_vec(), script.into_bytes())
}

/// Relies on bitcoin's address parsing (`Address::from_str` followed by
/// `require_network` and `script_pubkey`): `Some` exactly for the address
/// strings valid on the given network, with the script they lock to.
#[verifier::external_body]
pub(crate) fn parse_address_script(addr: &str, net: Network) -> (r: Option<Vec<u8>>)
    ensures
        r is Some <==> addr_script_spec(addr@, net.code_spec()) is Some,
        r matches Some(v) ==> addr_script_spec(addr@, net.code_spec()) matches Some(s) && v@ == s,
{
    let parsed: bitcoin::Address<bitcoin::address::NetworkUnchecked> = match addr.parse() {
        Ok(a) => a,
        Err(_) => return None,
    };
    let n = match net { Network::Mainnet => bitcoin::Network::Bitcoin, Network::Testnet => bitcoin::Network::Testnet,
        Network::Signet => bitcoin::Network::Signet, Network::Regtest => bitcoin::Network::Regtest };
    match parsed.require_network(n) {
        Ok(a) => Some(a.script_pubkey().into_bytes()),
        Err(_) => None,
    }
}

/// Relies on bitcoin's `Address::from_script` and its display form:
/// `Some` exactly for scripts with an address form on the network, with
/// that address string.
#[verifier::external_body]
fn render_address(script: &Vec<u8>, net: Network) -> (r: Option<String>)
    ensures
        r is Some <==> addr_of_script(script@, net.code_spec()) is Some,
        r matches Some(v) ==> addr_of_script(script@, net.code_spec()) matches Some(s) && v@ == s,
{
    let n = match net { Network::Mainnet => bitcoin::Network::Bitcoin, Network::Testnet => bitcoin::Network::Testnet,
        Network::Signet => bitcoin::Network::Signet, Network::Regtest => bitcoin::Network::Regtest };
    let sb = bitcoin::ScriptBuf::from_bytes(script.clone());
    match bitcoin::Address::from_script(sb.as_script(), n) {
        Ok(a) => Some(a.to_string()),
        Err(_) => None,
    }
}

/// The keypair a run works with: the secret scalar, its x-only public
/// key, and the P2TR script-pubkey the funding UTXO must carry.
#[derive(Debug)]
pub struct KeyMaterial {
    pub secret: Vec<u8>,
    pub xonly: Vec<u8>,
    pub script_pubkey: Vec<u8>,
}

pub open spec fn key_material_wf(km: KeyMaterial) -> bool {
    &&& km.secret@.len() == 32
    &&& secret_ok(km.secret@)
    &&& km.xonly@ == xonly_of(km.secret@)
    &&& km.xonly@.len() == 32
    &&& crate::foreign::xonly_parses(km.xonly@)
    &&& km.script_pubkey@ == p2tr_script_of(xonly_of(km.secret@))
    &&& km.script_pubkey@.len() == 34
    &&& km.script_pubkey@[0] == 0x51
    &&& km.script_pubkey@[1] == 0x20
}

/// Whether an ASCII hex string decodes to a valid secret scalar.
pub open spec fn secret_hex_ok(s: Seq<u8>) -> bool {
    &&& s.len() % 2 == 0
    &&& forall|i: int| 0 <= i < s.len() ==> is_hex_digit(s[i])
    &&& secret_ok(hex_value(s))
}

/// Loads the keypair from an ASCII hex secret. Fails with
/// `InvalidSecret` exactly when the hex does not parse or the decoded
/// bytes are not a valid secret scalar.
pub fn load_keypair(priv_hex: &Vec<u8>) -> (r: Result<KeyMaterial, DepositError>)
    ensures
        r is Ok <==> secret_hex_ok(priv_hex@),
        r matches Ok(km) ==> key_material_wf(km) && km.secret@ == hex_value(priv_hex@),
        r matches Err(e) ==> e == DepositError::InvalidSecret,
{
    let secret = match hex_decode(priv_hex) {
        Some(b) => b,
        None => return Err(DepositError::InvalidSecret),
    };
    if !secret_check(&secret) {
        return Err(DepositError::InvalidSecret);
    }
    let (xonly, script_pubkey) = derive_from_secret(&secret);
    Ok(KeyMaterial { secret, xonly, script_pubkey })
}

/// Generates a fresh keypair from the OS-backed RNG.
pub fn generate_keypair() -> (r: KeyMaterial)
    ensures
        key_material_wf(r),
{
    let secret = fresh_secret_bytes();
    let (xonly, script_pubkey) = derive_from_secret(&secret);
    KeyMaterial { secret, xonly, script_pubkey }
}

/// The address form of the keypair's P2TR script on a network.
pub fn p2tr_address(km: &KeyMaterial, net: Network) -> (r: Option<String>)
    requires
        key_material_wf(*km),
    ensures
        r is Some <==> addr_of_script(p2tr_script_of(xonly_of(km.secret@)), net.code_spec()) is Some,
        r matches Some(v) ==> addr_of_script(p2tr_script_of(xonly_of(km.secret@)), net.code_spec())
            matches Some(s) && v@ == s,
{
    render_address(&km.script_pubkey, net)
}

} // verus!
