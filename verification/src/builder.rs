//! The deposit PSBT builder: from a configuration record to the unsigned
//! deposit transaction and its PSBT, before the remote exchange.

use vstd::prelude::*;

use crate::keys::{addr_script_spec, key_material_wf, parse_address_script, KeyMaterial};
use crate::model::{
    copy_bytes, psbt_input_empty, DepositError, Network, Outpoint, PsbtInputRec, PsbtRec, TxInRec,
    TxOutRec, TxRec, SEQUENCE_RBF,
};

verus! {

/// The configuration record a run consumes; an external collaborator
/// parses the command line into it.
#[derive(Debug)]
pub struct Config {
    /// Funding UTXO transaction id, 32 bytes.
    pub prevout_txid: Vec<u8>,
    /// Funding UTXO output index.
    pub prevout_vout: u32,
    /// Value of the funding UTXO, in satoshis.
    pub prev_amt: u64,
    /// Destination the presigned spend may pay.
    pub fallback_addr: String,
    /// Value sent into the deposit output.
    pub output_amt: u64,
    /// Optional change destination.
    pub change_addr: Option<String>,
    /// Required exactly when `change_addr` is set.
    pub change_amt: Option<u64>,
    pub network: Network,
}

/// The configuration is usable: change address and change amount come
/// together, and every address given parses for the declared network.
pub open spec fn config_ok(cfg: Config) -> bool {
    &&& (cfg.change_addr is Some <==> cfg.change_amt is Some)
    &&& addr_script_spec(cfg.fallback_addr@, cfg.network.code_spec()) is Some
    &&& (cfg.change_addr matches Some(a) ==> addr_script_spec(a@, cfg.network.code_spec()) is Some)
}

/// The shape of the unsigned deposit transaction built from a
/// configuration: version 2, locktime 0, exactly one input spending the
/// funding outpoint with the RBF sequence and nothing else, output 0 of
/// the deposit amount with an empty placeholder script, and an optional
/// change output paying the parsed change address.
pub open spec fn unsigned_deposit_ok(tx: TxRec, cfg: Config) -> bool {
    &&& tx.version == 2
    &&& tx.lock_time == 0
    &&& tx.inputs@.len() == 1
    &&& tx.inputs@[0].prevout.txid@ == cfg.prevout_txid@
    &&& tx.inputs@[0].prevout.vout == cfg.prevout_vout
    &&& tx.inputs@[0].script_sig@.len() == 0
    &&& tx.inputs@[0].sequence == SEQUENCE_RBF
    &&& tx.inputs@[0].witness@.len() == 0
    &&& tx.outputs@.len() >= 1
    &&& tx.outputs@[0].value == cfg.output_amt
    &&& tx.outputs@[0].script_pubkey@.len() == 0
    &&& match cfg.change_addr {
        None => tx.outputs@.len() == 1,
        Some(a) => {
            &&& tx.outputs@.len() == 2
            &&& cfg.change_amt matches Some(amt) && tx.outputs@[1].value == amt
            &&& addr_script_spec(a@, cfg.network.code_spec()) matches Some(s)
                && tx.outputs@[1].script_pubkey@ == s
        },
    }
}

/// Everything the run holds after the builder stage: the deposit PSBT
/// fresh from the Creator role, and the funding output used later both
/// for signing and for verification.
#[derive(Debug)]
pub struct DepositPlan {
    pub psbt: PsbtRec,
    pub funding: TxOutRec,
}

pub open spec fn plan_ok(plan: DepositPlan, cfg: Config, km: KeyMaterial) -> bool {
    &&& unsigned_deposit_ok(plan.psbt.tx, cfg)
    &&& plan.psbt.inputs@.len() == 1
    &&& psbt_input_empty(plan.psbt.inputs@[0])
    &&& plan.funding.value == cfg.prev_amt
    &&& plan.funding.script_pubkey@ == km.script_pubkey@
}

/// Builds the unsigned deposit transaction and wraps it in a PSBT via the
/// Creator role. Fails with `BadAddress`, before any network traffic,
/// exactly when the change address and amount do not come together or
/// some given address does not parse for the declared network.
pub fn build_deposit(cfg: &Config, km: &KeyMaterial) -> (r: Result<DepositPlan, DepositError>)
    requires
        cfg.prevout_txid@.len() == 32,
        key_material_wf(*km),
    ensures
        r is Ok <==> config_ok(*cfg),
        r matches Ok(plan) ==> plan_ok(plan, *cfg, *km),
        r matches Err(e) ==> e == DepositError::BadAddress,
{
    let change: Option<(Vec<u8>, u64)> = match (&cfg.change_addr, &cfg.change_amt) {
        (Some(addr), Some(amt)) => {
            match parse_address_script(addr.as_str(), cfg.network) {
                Some(s) => Some((s, *amt)),
                None => return Err(DepositError::BadAddress),
            }
        },
        (None, None) => None,
        _ => return Err(DepositError::BadAddress),
    };
    if parse_address_script(cfg.fallback_addr.as_str(), cfg.network).is_none() {
        return Err(DepositError::BadAddress);
    }

    let input = TxInRec {
        prevout: Outpoint { txid: copy_bytes(&cfg.prevout_txid), vout: cfg.prevout_vout },
        script_sig: Vec::new(),
        sequence: SEQUENCE_RBF,
        witness: Vec::new(),
    };
    let deposit_output = TxOutRec { value: cfg.output_amt, script_pubkey: Vec::new() };

    let mut outputs: Vec<TxOutRec> = Vec::new();
    outputs.push(deposit_output);
    match change {
        None => {},
        Some((script, amt)) => {
            outputs.push(TxOutRec { value: amt, script_pubkey: script });
        },
    }

    let mut inputs: Vec<TxInRec> = Vec::new();
    inputs.push(input);
    let tx = TxRec { version: 2, lock_time: 0, inputs, outputs };

    let mut psbt_inputs: Vec<PsbtInputRec> = Vec::new();
    psbt_inputs.push(PsbtInputRec::empty());
    let psbt = PsbtRec { tx, inputs: psbt_inputs };

    let funding = TxOutRec { value: cfg.prev_amt, script_pubkey: copy_bytes(&km.script_pubkey) };
    Ok(DepositPlan { psbt, funding })
}

} // verus!
