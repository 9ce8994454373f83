//! The stages after the remote exchange: checking the signer's returned
//! deposit transaction against the one sent, signing the deposit
//! (Updater and Signer roles), and finalizing its input per the BIP-174
//! finalizer contract.

use vstd::prelude::*;

use crate::foreign::{key_spend_sighash_of, schnorr_valid, sign_deposit_psbt};
use crate::keys::{key_material_wf, p2tr_script_of, xonly_of, KeyMaterial};
use crate::model::{
    bytes_eq, copy_bytes, copy_txout, outpoint_eq, txin_eq, txout_eq, unsigned_view, wit_view,
    DepositError, Network, PsbtInputRec, TapSigRec, TxOutRec, TxRec, SIGHASH_ALL,
};

verus! {

/// The signer's returned deposit transaction is the one sent, except
/// that output 0's script-pubkey is now populated.
pub open spec fn returned_consistent(sent: TxRec, ret: TxRec) -> bool {
    &&& ret.version == sent.version
    &&& ret.lock_time == sent.lock_time
    &&& sent.inputs@.len() == 1
    &&& ret.inputs@.len() == 1
    &&& txin_eq(ret.inputs@[0], sent.inputs@[0])
    &&& sent.outputs@.len() >= 1
    &&& ret.outputs@.len() == sent.outputs@.len()
    &&& ret.outputs@[0].value == sent.outputs@[0].value
    &&& ret.outputs@[0].script_pubkey@.len() > 0
    &&& forall|i: int| 1 <= i < ret.outputs@.len() ==> txout_eq(ret.outputs@[i], sent.outputs@[i])
}

/// Compares two witness stacks by content.
fn wit_eq(a: &Vec<Vec<u8>>, b: &Vec<Vec<u8>>) -> (r: bool)
    ensures
        r == (wit_view(*a) == wit_view(*b)),
{
    if a.len() != b.len() {
        assert(wit_view(*a).len() != wit_view(*b).len());
        return false;
    }
    let mut i: usize = 0;
    while i < a.len()
        invariant
            i <= a@.len(),
            a@.len() == b@.len(),
            forall|j: int| 0 <= j < i ==> a@[j]@ == b@[j]@,
        decreases a@.len() - i,
    {
        if !bytes_eq(&a[i], &b[i]) {
            assert(wit_view(*a)[i as int] != wit_view(*b)[i as int]);
            return false;
        }
        i = i + 1;
    }
    assert(wit_view(*a) =~= wit_view(*b));
    true
}

/// Copies a witness stack; the result has the same view.
fn copy_wit(w: &Vec<Vec<u8>>) -> (r: Vec<Vec<u8>>)
    ensures
        wit_view(r) == wit_view(*w),
{
    let mut out: Vec<Vec<u8>> = Vec::new();
    let mut i: usize = 0;
    while i < w.len()
        invariant
            i <= w@.len(),
            out@.len() == i,
            forall|j: int| 0 <= j < i ==> out@[j]@ == w@[j]@,
        decreases w@.len() - i,
    {
        out.push(copy_bytes(&w[i]));
        i = i + 1;
    }
    assert(wit_view(out) =~= wit_view(*w));
    out
}

/// Checks the signer's returned deposit transaction against the sent
/// one; `ProtocolError` exactly when they are not consistent.
pub fn validate_returned_tx(sent: &TxRec, ret: &TxRec) -> (r: Result<(), DepositError>)
    ensures
        r is Ok <==> returned_consistent(*sent, *ret),
        r matches Err(e) ==> e == DepositError::ProtocolError,
{
    if ret.version != sent.version || ret.lock_time != sent.lock_time {
        return Err(DepositError::ProtocolError);
    }
    if sent.inputs.len() != 1 || ret.inputs.len() != 1 {
        return Err(DepositError::ProtocolError);
    }
    let si = &sent.inputs[0];
    let ri = &ret.inputs[0];
    if !bytes_eq(&ri.prevout.txid, &si.prevout.txid) || ri.prevout.vout != si.prevout.vout
        || !bytes_eq(&ri.script_sig, &si.script_sig) || ri.sequence != si.sequence
        || !wit_eq(&ri.witness, &si.witness) {
        return Err(DepositError::ProtocolError);
    }
    if sent.outputs.len() < 1 || ret.outputs.len() != sent.outputs.len() {
        return Err(DepositError::ProtocolError);
    }
    if ret.outputs[0].value != sent.outputs[0].value {
        return Err(DepositError::ProtocolError);
    }
    if ret.outputs[0].script_pubkey.len() == 0 {
        return Err(DepositError::ProtocolError);
    }
    let mut i: usize = 1;
    while i < ret.outputs.len()
        invariant
            1 <= i <= ret.outputs@.len(),
            ret.outputs@.len() == sent.outputs@.len(),
            forall|j: int| 1 <= j < i ==> txout_eq(ret.outputs@[j], sent.outputs@[j]),
        decreases ret.outputs@.len() - i,
    {
        if ret.outputs[i].value != sent.outputs[i].value
            || !bytes_eq(&ret.outputs[i].script_pubkey, &sent.outputs[i].script_pubkey) {
            return Err(DepositError::ProtocolError);
        }
        i = i + 1;
    }
    Ok(())
}

/// The witness stack of a Taproot key-path spend: the Schnorr signature
/// alone, with the sighash-type byte appended when the type is not
/// `SIGHASH_DEFAULT`.
pub open spec fn key_spend_witness(ts: TapSigRec) -> Seq<Seq<u8>> {
    if ts.hash_ty == 0 {
        seq![ts.sig@]
    } else {
        seq![ts.sig@.push(ts.hash_ty)]
    }
}

/// The fields the BIP-174 finalizer clears are cleared.
pub open spec fn cleared_ok(i: PsbtInputRec) -> bool {
    &&& i.partial_sigs_len == 0
    &&& i.sighash_type is None
    &&& i.redeem_script is None
    &&& i.witness_script is None
    &&& i.bip32_derivation_len == 0
}

/// What finalizing an input does: the final witness becomes the key-path
/// spend stack for the input's Taproot key-spend signature, the
/// transient fields are cleared, and everything else is untouched.
pub open spec fn finalizes_to(pre: PsbtInputRec, post: PsbtInputRec) -> bool {
    &&& post.witness_utxo == pre.witness_utxo
    &&& post.tap_internal_key == pre.tap_internal_key
    &&& post.tap_key_origins == pre.tap_key_origins
    &&& post.tap_key_sig == pre.tap_key_sig
    &&& cleared_ok(post)
    &&& pre.tap_key_sig matches Some(ts) ==> (post.final_script_witness matches Some(w)
        && wit_view(w) == key_spend_witness(ts))
}

/// Finalizes a PSBT input holding a Taproot key-spend signature:
/// constructs the single-element witness stack and clears
/// `partial_sigs`, `sighash_type`, `redeem_script`, `witness_script` and
/// the BIP-32 derivation map.
pub fn finalize_input(inp: &mut PsbtInputRec)
    requires
        old(inp).tap_key_sig is Some,
    ensures
        finalizes_to(*old(inp), *final(inp)),
{
    let wit_elem: Vec<u8> = match &inp.tap_key_sig {
        Some(ts) => {
            let mut e = copy_bytes(&ts.sig);
            if ts.hash_ty != 0 {
                e.push(ts.hash_ty);
            }
            e
        },
        None => {
            assert(false);
            Vec::new()
        },
    };
    let mut stack: Vec<Vec<u8>> = Vec::new();
    stack.push(wit_elem);
    proof {
        let ts = old(inp).tap_key_sig->Some_0;
        assert(wit_view(stack) =~= key_spend_witness(ts));
    }
    inp.final_script_witness = Some(stack);
    inp.partial_sigs_len = 0;
    inp.sighash_type = None;
    inp.redeem_script = None;
    inp.witness_script = None;
    inp.bip32_derivation_len = 0;
}

/// View of an optional witness stack.
pub open spec fn wit_opt_view(o: Option<Vec<Vec<u8>>>) -> Option<Seq<Seq<u8>>> {
    match o {
        None => None,
        Some(w) => Some(wit_view(w)),
    }
}

/// Finalizing an already-finalized input is a no-op on
/// `final_script_witness`, and the cleared fields stay cleared.
pub proof fn lemma_finalize_idempotent(a: PsbtInputRec, b: PsbtInputRec, c: PsbtInputRec)
    requires
        a.tap_key_sig is Some,
        finalizes_to(a, b),
        finalizes_to(b, c),
    ensures
        wit_opt_view(c.final_script_witness) == wit_opt_view(b.final_script_witness),
        cleared_ok(c),
{
}

/// The metadata the Updater role sets on the deposit's input before
/// signing: the funding output as witness utxo, the internal key, and a
/// single key origin for it.
pub open spec fn input_metadata_final(i: PsbtInputRec, funding: TxOutRec, xonly: Seq<u8>) -> bool {
    &&& i.witness_utxo matches Some(u) && txout_eq(u, funding)
    &&& i.tap_internal_key matches Some(k) && k@ == xonly
    &&& i.tap_key_origins@.len() == 1
    &&& i.tap_key_origins@[0]@ == xonly
}

/// The run's product for the deposit side: the finalized deposit
/// transaction and its finalized PSBT input.
#[derive(Debug)]
pub struct SignedDeposit {
    pub tx: TxRec,
    pub psbt_input: PsbtInputRec,
}

/// How a signed deposit relates to the transaction the signer returned:
/// same version, locktime and outputs; the sole input spends the same
/// outpoint with the same sequence, its witness now the key-path spend
/// stack of a 64-byte Schnorr signature under Taproot `SIGHASH_ALL`;
/// the PSBT input is finalized with that signature over the funding
/// output and internal key; and, whenever the funding output is the
/// internal key's own P2TR output, that signature is valid for the
/// deposit's key-spend sighash under the script's output key.
pub open spec fn signed_from(ret: TxRec, funding: TxOutRec, xonly: Seq<u8>, sd: SignedDeposit) -> bool {
    &&& input_metadata_final(sd.psbt_input, funding, xonly)
    &&& cleared_ok(sd.psbt_input)
    &&& sd.psbt_input.tap_key_sig matches Some(ts) && {
        &&& ts.sig@.len() == 64
        &&& ts.hash_ty == SIGHASH_ALL
        &&& sd.psbt_input.final_script_witness matches Some(w) && wit_view(w) == key_spend_witness(
            ts,
        )
        &&& sd.tx.version == ret.version
        &&& sd.tx.lock_time == ret.lock_time
        &&& sd.tx.outputs == ret.outputs
        &&& ret.inputs@.len() == 1
        &&& sd.tx.inputs@.len() == 1
        &&& outpoint_eq(sd.tx.inputs@[0].prevout, ret.inputs@[0].prevout)
        &&& sd.tx.inputs@[0].script_sig@.len() == 0
        &&& sd.tx.inputs@[0].sequence == ret.inputs@[0].sequence
        &&& wit_view(sd.tx.inputs@[0].witness) == key_spend_witness(ts)
        &&& (funding.script_pubkey@ == p2tr_script_of(xonly) ==> (key_spend_sighash_of(
            unsigned_view(sd.tx),
            funding.value,
            funding.script_pubkey@,
            1,
        ) matches Some(m) && schnorr_valid(funding.script_pubkey@.subrange(2, 34), m, ts.sig@)))
    }
}

/// Signs and finalizes the deposit returned by the signer: sets the
/// input metadata (witness utxo, internal key, key origin, Taproot
/// `SIGHASH_ALL`), produces the Schnorr key-spend signature, finalizes
/// the input, and assembles the broadcastable transaction. Fails only
/// with `SigningFailed`, and never when the funding output is the
/// keypair's own P2TR output.
pub fn sign_and_finalize_deposit(ret: TxRec, funding: &TxOutRec, km: &KeyMaterial, net: Network) -> (r:
    Result<SignedDeposit, DepositError>)
    requires
        ret.inputs@.len() == 1,
        ret.inputs@[0].prevout.txid@.len() == 32,
        ret.inputs@[0].script_sig@.len() == 0,
        ret.inputs@[0].witness@.len() == 0,
        key_material_wf(*km),
    ensures
        r matches Ok(sd) ==> signed_from(ret, *funding, km.xonly@, sd),
        r matches Err(e) ==> e == DepositError::SigningFailed,
        funding.script_pubkey@ == p2tr_script_of(xonly_of(km.secret@)) ==> r is Ok,
{
    let sig = match sign_deposit_psbt(&ret, funding, &km.xonly, &km.secret, net) {
        Some(s) => s,
        None => return Err(DepositError::SigningFailed),
    };

    let mut inp = PsbtInputRec::empty();
    inp.witness_utxo = Some(copy_txout(funding));
    inp.tap_internal_key = Some(copy_bytes(&km.xonly));
    let mut origins: Vec<Vec<u8>> = Vec::new();
    origins.push(copy_bytes(&km.xonly));
    inp.tap_key_origins = origins;
    inp.sighash_type = Some(SIGHASH_ALL as u32);
    inp.tap_key_sig = Some(TapSigRec { sig, hash_ty: SIGHASH_ALL });
    finalize_input(&mut inp);

    let stack: Vec<Vec<u8>> = match &inp.final_script_witness {
        Some(w) => copy_wit(w),
        None => {
            assert(false);
            Vec::new()
        },
    };
    let mut tx = ret;
    let mut i0 = match tx.inputs.pop() {
        Some(x) => x,
        None => {
            assert(false);
            return Err(DepositError::SigningFailed);
        },
    };
    i0.witness = stack;
    tx.inputs.push(i0);
    let sd = SignedDeposit { tx, psbt_input: inp };
    proof {
        // The witness is not part of the signed components, so the
        // signature's sighash is the finalized transaction's too.
        assert(unsigned_view(sd.tx) == unsigned_view(ret));
    }
    Ok(sd)
}

} // verus!
