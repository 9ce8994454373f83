//! The boundary to the underlying Bitcoin library: declarations of its
//! opaque types, conversions from the plain model into them, and the
//! trusted calls the workflow makes.

use vstd::prelude::*;

use crate::keys::{p2tr_script_of, secret_ok, xonly_of};
use crate::model::{unsigned_view, Network, Outpoint, TxInRec, TxOutRec, TxRec};

verus! {

#[verifier::external_type_specification]
#[verifier::external_body]
pub struct ExPsbt(bitcoin::Psbt);

#[verifier::external_type_specification]
#[verifier::external_body]
pub struct ExTransaction(bitcoin::Transaction);

#[verifier::external_type_specification]
#[verifier::external_body]
pub struct ExTxOut(bitcoin::TxOut);

#[verifier::external_type_specification]
#[verifier::external_body]
pub struct ExTxIn(bitcoin::TxIn);

/// Converts an output record, one field for one field.
#[verifier::external_body]
pub(crate) fn foreign_txout(o: &TxOutRec) -> (r: bitcoin::TxOut) {
    bitcoin::TxOut {
        value: bitcoin::Amount::from_sat(o.value),
        script_pubkey: bitcoin::ScriptBuf::from_bytes(o.script_pubkey.clone()),
    }
}

/// Converts an input record, one field for one field; `None` when the
/// txid is not 32 bytes.
#[verifier::external_body]
pub(crate) fn foreign_txin(i: &TxInRec) -> (r: Option<bitcoin::TxIn>)
    ensures
        r is Some <==> i.prevout.txid@.len() == 32,
{
    let arr: [u8; 32] = i.prevout.txid.as_slice().try_into().ok()?;
    Some(bitcoin::TxIn {
        previous_output: bitcoin::OutPoint {
            txid: <bitcoin::Txid as bitcoin::hashes::Hash>::from_byte_array(arr),
            vout: i.prevout.vout,
        },
        script_sig: bitcoin::ScriptBuf::from_bytes(i.script_sig.clone()),
        sequence: bitcoin::Sequence(i.sequence),
        witness: bitcoin::Witness::from_slice(&i.witness),
    })
}

/// Converts a transaction record, one field for one field; `None` when
/// it does not have exactly one input with a 32-byte txid.
#[verifier::external_body]
pub(crate) fn foreign_tx(tx: &TxRec) -> (r: Option<bitcoin::Transaction>)
    ensures
        r is Some <==> (tx.inputs@.len() == 1 && tx.inputs@[0].prevout.txid@.len() == 32),
{
    if tx.inputs.len() != 1 {
        return None;
    }
    let txin = foreign_txin(&tx.inputs[0])?;
    Some(bitcoin::Transaction {
        version: bitcoin::transaction::Version(tx.version),
        lock_time: bitcoin::absolute::LockTime::from_consensus(tx.lock_time),
        input: vec![txin],
        output: tx.outputs.iter().map(foreign_txout).collect(),
    })
}

/// Relies on bitcoin's `Psbt::from_unsigned_tx` (the Creator role): wraps
/// the converted unsigned transaction, which must carry no signature
/// material, in a fresh PSBT.
#[verifier::external_body]
pub(crate) fn creator_psbt(tx: &TxRec) -> (r: Option<bitcoin::Psbt>)
    requires
        tx.inputs@.len() == 1,
        tx.inputs@[0].script_sig@.len() == 0,
        tx.inputs@[0].witness@.len() == 0,
    ensures
        r is Some <==> tx.inputs@[0].prevout.txid@.len() == 32,
{
    let unsigned = foreign_tx(tx)?;
    bitcoin::Psbt::from_unsigned_tx(unsigned).ok()
}

/// Whether a 32-byte string is the serialization of an x-only public
/// key, as secp256k1's `XOnlyPublicKey::from_slice` accepts it.
pub uninterp spec fn xonly_parses(b: Seq<u8>) -> bool;

/// Converts the funding output and internal key into the PSBT input
/// metadata of the Updater role: witness utxo, Taproot internal key, a
/// single key origin with an empty key source, and Taproot `SIGHASH_ALL`.
/// Relies on secp256k1's `XOnlyPublicKey::from_slice`, which accepts
/// every key string that `xonly_parses` holds of.
#[verifier::external_body]
pub(crate) fn attach_foreign_input(p: &mut bitcoin::Psbt, funding: &TxOutRec, xonly: &Vec<u8>) -> (r:
    bool)
    ensures
        xonly_parses(xonly@) ==> r,
{
    let xk = match bitcoin::XOnlyPublicKey::from_slice(xonly.as_slice()) {
        Ok(x) => x,
        Err(_) => return false,
    };
    let mut origins = std::collections::BTreeMap::new();
    origins.insert(xk, (vec![], bitcoin::bip32::KeySource::default()));
    p.inputs = vec![bitcoin::psbt::Input {
        witness_utxo: Some(foreign_txout(funding)),
        tap_key_origins: origins,
        tap_internal_key: Some(xk),
        sighash_type: Some(bitcoin::TapSighashType::All.into()),
        ..Default::default()
    }];
    true
}

/// Relies on bitcoin's `Psbt::sign` (the Signer role) for a Taproot
/// key-spend: on success the returned Schnorr signature is 64 bytes.
#[verifier::external_body]
pub(crate) fn sign_psbt(p: &mut bitcoin::Psbt, secret: &Vec<u8>, net: Network) -> (r: Option<
    Vec<u8>,
>)
    ensures
        r matches Some(sig) ==> sig@.len() == 64,
{
    let secp = bitcoin::secp256k1::Secp256k1::new();
    let sk = bitcoin::secp256k1::SecretKey::from_slice(secret.as_slice()).ok()?;
    let kp = bitcoin::secp256k1::Keypair::from_secret_key(&secp, &sk);
    let (xk, _parity) = kp.x_only_public_key();
    let kind = match net { Network::Mainnet => bitcoin::NetworkKind::Main, _ => bitcoin::NetworkKind::Test };
    let mut keys = std::collections::HashMap::new();
    keys.insert(xk, bitcoin::PrivateKey::new(sk, kind));
    if p.sign(&keys, &secp).is_err() {
        return None;
    }
    p.inputs.first().and_then(|i| i.tap_key_sig.as_ref()).map(|s| s.signature.serialize().to_vec())
}

/// The Creator, Updater and Signer roles in one step, so that the whole
/// signing path can carry a contract: builds the PSBT of the unsigned
/// transaction, attaches the funding output and internal key with
/// Taproot `SIGHASH_ALL`, and signs. Relies on bitcoin's
/// `Psbt::from_unsigned_tx` and `Psbt::sign`: when the secret is a
/// valid scalar, the key is its x-only key and the funding output is
/// that key's P2TR output, the Schnorr key-path signing succeeds, and
/// per BIP-340/341 the 64-byte signature it draws is valid for the
/// `SIGHASH_ALL` key-spend sighash under the script's tweaked output
/// key.
#[verifier::external_body]
pub(crate) fn sign_deposit_psbt(
    tx: &TxRec,
    funding: &TxOutRec,
    xonly: &Vec<u8>,
    secret: &Vec<u8>,
    net: Network,
) -> (r: Option<Vec<u8>>)
    requires
        tx.inputs@.len() == 1,
        tx.inputs@[0].prevout.txid@.len() == 32,
        tx.inputs@[0].script_sig@.len() == 0,
        tx.inputs@[0].witness@.len() == 0,
    ensures
        (secret_ok(secret@) && xonly@ == xonly_of(secret@) && funding.script_pubkey@
            == p2tr_script_of(xonly_of(secret@))) ==> r is Some,
        r matches Some(sig) ==> sig@.len() == 64,
        r matches Some(sig) ==> ((secret_ok(secret@) && xonly@ == xonly_of(secret@)
            && funding.script_pubkey@ == p2tr_script_of(xonly_of(secret@))) ==> (
        key_spend_sighash_of(
            unsigned_view(*tx),
            funding.value,
            funding.script_pubkey@,
            1,
        ) matches Some(m) && schnorr_valid(funding.script_pubkey@.subrange(2, 34), m, sig@))),
{
    let mut p = creator_psbt(tx)?;
    if !attach_foreign_input(&mut p, funding, xonly) {
        return None;
    }
    sign_psbt(&mut p, secret, net)
}

/// Converts an output of the Bitcoin library into a record, one field
/// for one field.
#[verifier::external_body]
fn record_txout(o: &bitcoin::TxOut) -> (r: TxOutRec) {
    TxOutRec { value: o.value.to_sat(), script_pubkey: o.script_pubkey.as_bytes().to_vec() }
}

/// Converts an input of the Bitcoin library into a record, one field
/// for one field.
#[verifier::external_body]
fn record_txin(i: &bitcoin::TxIn) -> (r: TxInRec) {
    TxInRec {
        prevout: Outpoint {
            txid: <bitcoin::Txid as bitcoin::hashes::Hash>::to_byte_array(i.previous_output.txid)
                .to_vec(),
            vout: i.previous_output.vout,
        },
        script_sig: i.script_sig.as_bytes().to_vec(),
        sequence: i.sequence.0,
        witness: i.witness.iter().map(|w| w.to_vec()).collect(),
    }
}

/// Relies on bitcoin's `Psbt::extract_tx_unchecked_fee_rate` (the
/// Extractor role): yields the transaction of a finalized PSBT,
/// converted field for field into a record. The fee-rate sanity check
/// of `extract_tx` is forgone: this core computes no fees and
/// broadcasts nothing, and that check's path panics on a PSBT whose
/// per-input map count disagrees with its transaction — a shape a
/// field-decoded remote response can carry.
#[verifier::external_body]
pub(crate) fn extract_spend(p: bitcoin::Psbt) -> (r: TxRec) {
    let t = p.extract_tx_unchecked_fee_rate();
    TxRec {
        version: t.version.0,
        lock_time: t.lock_time.to_consensus_u32(),
        inputs: t.input.iter().map(record_txin).collect(),
        outputs: t.output.iter().map(record_txout).collect(),
    }
}

/// Whether a 64-byte Schnorr signature is valid for a 32-byte message
/// under a 32-byte x-only public key.
pub uninterp spec fn schnorr_valid(key: Seq<u8>, msg: Seq<u8>, sig: Seq<u8>) -> bool;

/// The Taproot key-spend sighash of a single-input transaction given by
/// its `unsigned_view`, with the given previous output as the sole
/// spent output and the given sighash type; `None` when the type byte
/// is not a sighash type. Per BIP-341 the message covers exactly what
/// `unsigned_view` carries, not the input's script-sig or witness.
pub uninterp spec fn key_spend_sighash_of(
    uv: (int, u32, Seq<u8>, u32, u32, Seq<(u64, Seq<u8>)>),
    spent_value: u64,
    spent_script: Seq<u8>,
    ty: u8,
) -> Option<Seq<u8>>;

/// Relies on bitcoin's `SighashCache::taproot_key_spend_signature_hash`:
/// the 32-byte Taproot key-spend sighash of input 0, a deterministic
/// function of the transaction's signed components, the previous output
/// and the sighash type.
#[verifier::external_body]
pub(crate) fn key_spend_sighash(tx: &TxRec, prevout: &TxOutRec, ty: u8) -> (r: Option<Vec<u8>>)
    requires
        tx.inputs@.len() == 1,
        tx.inputs@[0].prevout.txid@.len() == 32,
    ensures
        r is Some <==> key_spend_sighash_of(
            unsigned_view(*tx),
            prevout.value,
            prevout.script_pubkey@,
            ty,
        ) is Some,
        r matches Some(m) ==> key_spend_sighash_of(
            unsigned_view(*tx),
            prevout.value,
            prevout.script_pubkey@,
            ty,
        ) matches Some(s) && m@ == s && m@.len() == 32,
{
    let ftx = foreign_tx(tx)?;
    let spent = vec![foreign_txout(prevout)];
    let t = bitcoin::TapSighashType::from_consensus_u8(ty).ok()?;
    let mut cache = bitcoin::sighash::SighashCache::new(&ftx);
    let h = cache
        .taproot_key_spend_signature_hash(0, &bitcoin::sighash::Prevouts::All(&spent), t)
        .ok()?;
    Some(<bitcoin::TapSighash as bitcoin::hashes::Hash>::to_byte_array(h).to_vec())
}

/// Relies on secp256k1's `verify_schnorr`: whether the signature is
/// valid for the message under the x-only key.
#[verifier::external_body]
pub(crate) fn schnorr_verify(key: &Vec<u8>, msg: &Vec<u8>, sig: &Vec<u8>) -> (r: bool)
    ensures
        r == schnorr_valid(key@, msg@, sig@),
{
    let k = match bitcoin::XOnlyPublicKey::from_slice(key.as_slice()) {
        Ok(k) => k,
        Err(_) => return false,
    };
    let s = match bitcoin::secp256k1::schnorr::Signature::from_slice(sig.as_slice()) {
        Ok(s) => s,
        Err(_) => return false,
    };
    let arr: [u8; 32] = match msg.as_slice().try_into() {
        Ok(a) => a,
        Err(_) => return false,
    };
    let m = bitcoin::secp256k1::Message::from_digest(arr);
    bitcoin::secp256k1::Secp256k1::verification_only().verify_schnorr(&s, &m, &k).is_ok()
}

/// The consensus engine's verdict on a single-input transaction record
/// spending the given previous output: whether script execution accepts
/// the spend. A deterministic function of the two records.
pub uninterp spec fn consensus_ok(tx: TxRec, prevout: TxOutRec) -> bool;

/// Relies on bitcoin's `Transaction::verify` (libbitcoinconsensus with
/// all flags): checks that the transaction can spend the given previous
/// output, resolving every input's outpoint to it. Succeeds exactly when
/// the engine accepts.
#[verifier::external_body]
pub(crate) fn consensus_check(tx: &TxRec, prevout: &TxOutRec) -> (r: Result<(), String>)
    requires
        tx.inputs@.len() == 1,
        tx.inputs@[0].prevout.txid@.len() == 32,
    ensures
        r is Ok <==> consensus_ok(*tx, *prevout),
{
    let ftx = match foreign_tx(tx) {
        Some(t) => t,
        None => return Err("unusable transaction record".to_string()),
    };
    let spent = foreign_txout(prevout);
    match ftx.verify(|_op| Some(spent.clone())) {
        Ok(()) => Ok(()),
        Err(e) => Err(format!("{:?}", e)),
    }
}

} // verus!
