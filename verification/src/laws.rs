//! Laws that hold across a valid run, proved from the contracts of the
//! builder, the response check and the deposit signer.

use vstd::prelude::*;

use crate::builder::{unsigned_deposit_ok, Config};
use crate::chain::{key_spend_ok, parsed_witness};
use crate::keys::{key_material_wf, p2tr_script_of, KeyMaterial};
use crate::model::{wit_view, TxOutRec, TxRec, SEQUENCE_RBF};
use crate::session::{key_spend_witness, returned_consistent, signed_from, SignedDeposit};

verus! {

/// For any valid run, the finalized deposit transaction's sole input
/// spends exactly the configured funding outpoint, with the RBF
/// sequence.
pub proof fn lemma_deposit_spends_configured_prevout(
    cfg: Config,
    km: KeyMaterial,
    sent: TxRec,
    ret: TxRec,
    funding: TxOutRec,
    sd: SignedDeposit,
)
    requires
        unsigned_deposit_ok(sent, cfg),
        returned_consistent(sent, ret),
        signed_from(ret, funding, km.xonly@, sd),
    ensures
        sd.tx.inputs@.len() == 1,
        sd.tx.inputs@[0].prevout.txid@ == cfg.prevout_txid@,
        sd.tx.inputs@[0].prevout.vout == cfg.prevout_vout,
        sd.tx.inputs@[0].sequence == SEQUENCE_RBF,
{
}

/// For any valid run, the deposit's output 0 pays the configured amount
/// to the (non-empty) script the signer populated, and any further
/// outputs are the configured change, unchanged.
pub proof fn lemma_deposit_output_amount_and_script(
    cfg: Config,
    km: KeyMaterial,
    sent: TxRec,
    ret: TxRec,
    funding: TxOutRec,
    sd: SignedDeposit,
)
    requires
        unsigned_deposit_ok(sent, cfg),
        returned_consistent(sent, ret),
        signed_from(ret, funding, km.xonly@, sd),
    ensures
        sd.tx.outputs@.len() == sent.outputs@.len(),
        sd.tx.outputs@[0].value == cfg.output_amt,
        sd.tx.outputs@[0].script_pubkey@ == ret.outputs@[0].script_pubkey@,
        sd.tx.outputs@[0].script_pubkey@.len() > 0,
{
}

/// For any valid run whose declared funding output is the keypair's own
/// pay-to-taproot output, the finalized deposit meets the Taproot
/// key-spend verdict against that funding output: the Schnorr half of
/// the deposit verification holds by construction.
pub proof fn lemma_valid_run_deposit_key_spend(
    km: KeyMaterial,
    ret: TxRec,
    funding: TxOutRec,
    sd: SignedDeposit,
)
    requires
        key_material_wf(km),
        funding.script_pubkey@ == km.script_pubkey@,
        signed_from(ret, funding, km.xonly@, sd),
    ensures
        key_spend_ok(sd.tx, funding),
{
    let ts = sd.psbt_input.tap_key_sig->Some_0;
    assert(wit_view(sd.tx.inputs@[0].witness).len() == sd.tx.inputs@[0].witness@.len());
    assert(sd.tx.inputs@[0].witness@[0]@ == wit_view(sd.tx.inputs@[0].witness)[0]);
    let elem = sd.tx.inputs@[0].witness@[0]@;
    assert(key_spend_witness(ts) == seq![ts.sig@.push(1u8)]);
    assert(elem == ts.sig@.push(1u8));
    assert(elem.len() == 65);
    assert(elem[64] == 1);
    assert(elem.subrange(0, 64) =~= ts.sig@);
    assert(parsed_witness(elem) matches Some(p) && p.0 == ts.sig@ && p.1 == 1);
    assert(funding.script_pubkey@ == p2tr_script_of(km.xonly@));
}

} // verus!
