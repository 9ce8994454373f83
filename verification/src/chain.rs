//! The chain verifier: extracts the presigned spend and checks that the
//! deposit spends the declared funding output and that the presigned
//! spend spends the deposit's output 0 — script execution through the
//! consensus engine, and the Taproot key-spend Schnorr signature check,
//! each stated over named verdicts on the plain records.

use vstd::prelude::*;

use crate::foreign::{
    consensus_check, consensus_ok, extract_spend, key_spend_sighash, key_spend_sighash_of,
    schnorr_valid, schnorr_verify,
};
use crate::model::{copy_bytes, unsigned_view, DepositError, TxOutRec, TxRec, VerifyStage};

verus! {

/// A sighash-type byte that may stand appended to a 64-byte key-spend
/// signature: BIP-341 allows only the non-default types there.
pub open spec fn valid_appended_sighash(b: u8) -> bool {
    b == 1 || b == 2 || b == 3 || b == 0x81 || b == 0x82 || b == 0x83
}

/// What a key-spend witness element parses to: the 64-byte Schnorr
/// signature and the sighash type it commits to. 64 bytes mean the
/// default type, 65 bytes carry a non-default type byte at the end;
/// anything else is no key-spend element.
pub open spec fn parsed_witness(elem: Seq<u8>) -> Option<(Seq<u8>, u8)> {
    if elem.len() == 64 {
        Some((elem, 0u8))
    } else if elem.len() == 65 && valid_appended_sighash(elem[64]) {
        Some((elem.subrange(0, 64), elem[64]))
    } else {
        None
    }
}

/// Splits a key-spend witness element into the signature and the
/// sighash type, exactly as `parsed_witness` says.
pub fn split_witness_element(elem: &Vec<u8>) -> (r: Option<(Vec<u8>, u8)>)
    ensures
        r is Some <==> parsed_witness(elem@) is Some,
        r matches Some(p) ==> parsed_witness(elem@) matches Some(q) && p.0@ == q.0 && p.1 == q.1,
{
    if elem.len() == 64 {
        let sig = copy_bytes(elem);
        assert(sig@ =~= elem@);
        Some((sig, 0))
    } else if elem.len() == 65 {
        let b = elem[64];
        if b == 1 || b == 2 || b == 3 || b == 0x81 || b == 0x82 || b == 0x83 {
            let mut sig: Vec<u8> = Vec::new();
            let mut i: usize = 0;
            while i < 64
                invariant
                    i <= 64,
                    elem@.len() == 65,
                    sig@.len() == i,
                    forall|j: int| 0 <= j < i ==> sig@[j] == elem@[j],
                decreases 64 - i,
            {
                sig.push(elem[i]);
                i = i + 1;
            }
            assert(sig@ =~= elem@.subrange(0, 64));
            Some((sig, b))
        } else {
            None
        }
    } else {
        None
    }
}

/// Extracts the x-only output key of a pay-to-taproot script:
/// `OP_PUSHNUM_1 OP_PUSHBYTES_32 <32-byte key>`.
pub fn p2tr_output_key(script: &Vec<u8>) -> (r: Option<Vec<u8>>)
    ensures
        r is Some <==> (script@.len() == 34 && script@[0] == 0x51 && script@[1] == 0x20),
        r matches Some(k) ==> k@ == script@.subrange(2, 34),
{
    if script.len() == 34 && script[0] == 0x51 && script[1] == 0x20 {
        let mut key: Vec<u8> = Vec::new();
        let mut i: usize = 2;
        while i < 34
            invariant
                2 <= i <= 34,
                script@.len() == 34,
                key@.len() == i - 2,
                forall|j: int| 0 <= j < i - 2 ==> key@[j] == script@[j + 2],
            decreases 34 - i,
        {
            key.push(script[i]);
            i = i + 1;
        }
        assert(key@ =~= script@.subrange(2, 34));
        Some(key)
    } else {
        None
    }
}

/// The first witness element of the sole input.
fn first_witness_elem(tx: &TxRec) -> (r: Option<Vec<u8>>)
    ensures
        r is Some <==> (tx.inputs@.len() == 1 && tx.inputs@[0].witness@.len() >= 1),
        r matches Some(e) ==> e@ == tx.inputs@[0].witness@[0]@,
{
    if tx.inputs.len() == 1 {
        let w = &tx.inputs[0].witness;
        if w.len() >= 1 {
            Some(copy_bytes(&w[0]))
        } else {
            None
        }
    } else {
        None
    }
}

/// The Taproot key-spend verdict on a single-input transaction record
/// against a previous output: the sole input's first witness element
/// parses as a key-spend signature, the previous output is
/// pay-to-taproot, and the signature is valid for the key-spend sighash
/// under the script's output key.
pub open spec fn key_spend_ok(tx: TxRec, prevout: TxOutRec) -> bool {
    &&& tx.inputs@.len() == 1
    &&& tx.inputs@[0].witness@.len() >= 1
    &&& parsed_witness(tx.inputs@[0].witness@[0]@) matches Some(p) && {
        &&& prevout.script_pubkey@.len() == 34
        &&& prevout.script_pubkey@[0] == 0x51
        &&& prevout.script_pubkey@[1] == 0x20
        &&& key_spend_sighash_of(
            unsigned_view(tx),
            prevout.value,
            prevout.script_pubkey@,
            p.1,
        ) matches Some(m) && schnorr_valid(prevout.script_pubkey@.subrange(2, 34), m, p.0)
    }
}

/// Checks the Taproot key-spend of the sole input of `tx` against the
/// given previous output; succeeds exactly when `key_spend_ok` holds.
fn taproot_spend_check(tx: &TxRec, prevout: &TxOutRec) -> (r: Result<(), String>)
    requires
        tx.inputs@.len() == 1,
        tx.inputs@[0].prevout.txid@.len() == 32,
    ensures
        r is Ok <==> key_spend_ok(*tx, *prevout),
{
    let elem = match first_witness_elem(tx) {
        Some(e) => e,
        None => return Err("missing key-spend witness".to_string()),
    };
    let parsed = match split_witness_element(&elem) {
        Some(p) => p,
        None => return Err("malformed key-spend witness".to_string()),
    };
    let key = match p2tr_output_key(&prevout.script_pubkey) {
        Some(k) => k,
        None => return Err("previous output is not pay-to-taproot".to_string()),
    };
    let msg = match key_spend_sighash(tx, prevout, parsed.1) {
        Some(m) => m,
        None => return Err("sighash computation failed".to_string()),
    };
    if schnorr_verify(&key, &msg, &parsed.0) {
        Ok(())
    } else {
        Err("invalid key-spend signature".to_string())
    }
}

/// Both verdicts of one verification stage.
pub open spec fn stage_ok(tx: TxRec, prevout: TxOutRec) -> bool {
    consensus_ok(tx, prevout) && key_spend_ok(tx, prevout)
}

/// Runs one verification stage on a transaction record against the
/// previous output its sole input claims to spend: script execution
/// through the consensus engine, then the Taproot key-spend Schnorr
/// signature check. Succeeds exactly when both verdicts hold; an error
/// carries the reason.
pub fn verify_stage(tx: &TxRec, prevout: &TxOutRec) -> (r: Result<(), String>)
    requires
        tx.inputs@.len() == 1,
        tx.inputs@[0].prevout.txid@.len() == 32,
    ensures
        r is Ok <==> stage_ok(*tx, *prevout),
{
    match consensus_check(tx, prevout) {
        Ok(()) => {},
        Err(reason) => {
            return Err(reason);
        },
    }
    taproot_spend_check(tx, prevout)
}

/// Runs the consensus checks of a finished run. The deposit is checked
/// against the funding output; the extracted presigned spend against
/// the deposit's output 0. A deposit-stage failure is reported if and
/// only if the deposit's verdicts fail; success requires every verdict
/// of both stages. Only single-input Taproot key-path spends pass: the
/// protocol's presigned spend is a key-path spend (script-path spends
/// are out of this core's scope), and on an engine whose flag set
/// predates Taproot the Schnorr check here is what rejects a spend that
/// does not spend the deposit's output 0.
pub fn verify_chain(deposit: &TxRec, funding: &TxOutRec, spend_psbt: bitcoin::Psbt) -> (r: Result<
    TxRec,
    DepositError,
>)
    requires
        deposit.inputs@.len() == 1,
        deposit.inputs@[0].prevout.txid@.len() == 32,
        deposit.outputs@.len() >= 1,
    ensures
        r matches Err(DepositError::ConsensusInvalid { which: VerifyStage::Deposit, reason: _ }) <==> !stage_ok(
            *deposit,
            *funding,
        ),
        r matches Err(DepositError::ConsensusInvalid { which: VerifyStage::Spend, reason: _ }) ==> stage_ok(
            *deposit,
            *funding,
        ),
        r matches Ok(spend) ==> stage_ok(*deposit, *funding) && stage_ok(
            spend,
            deposit.outputs@[0],
        ),
        r matches Err(e) ==> e matches DepositError::ConsensusInvalid { which: _, reason: _ },
{
    match verify_stage(deposit, funding) {
        Ok(()) => {},
        Err(reason) => {
            return Err(DepositError::ConsensusInvalid { which: VerifyStage::Deposit, reason });
        },
    }
    let spend = extract_spend(spend_psbt);
    if spend.inputs.len() != 1 {
        return Err(DepositError::ConsensusInvalid {
            which: VerifyStage::Spend,
            reason: "expected a single-input spend".to_string(),
        });
    }
    if spend.inputs[0].prevout.txid.len() != 32 {
        return Err(DepositError::ConsensusInvalid {
            which: VerifyStage::Spend,
            reason: "malformed spend outpoint".to_string(),
        });
    }
    match verify_stage(&spend, &deposit.outputs[0]) {
        Ok(()) => Ok(spend),
        Err(reason) => Err(DepositError::ConsensusInvalid { which: VerifyStage::Spend, reason }),
    }
}

} // verus!
