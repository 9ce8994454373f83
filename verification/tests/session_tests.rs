use depositor::builder::{build_deposit, Config};
use depositor::keys::{load_keypair, p2tr_address, KeyMaterial};
use depositor::model::{
    DepositError, Network, Outpoint, PsbtInputRec, TapSigRec, TxInRec, TxOutRec, TxRec,
};
use depositor::session::{finalize_input, validate_returned_tx};

const SECRET_ONE: &str = "0000000000000000000000000000000000000000000000000000000000000001";
const SECRET_TWO: &str = "0000000000000000000000000000000000000000000000000000000000000002";

fn km_from(hex: &str) -> KeyMaterial {
    load_keypair(&hex.as_bytes().to_vec()).unwrap()
}

fn copy_tx(t: &TxRec) -> TxRec {
    TxRec {
        version: t.version,
        lock_time: t.lock_time,
        inputs: t
            .inputs
            .iter()
            .map(|i| TxInRec {
                prevout: Outpoint { txid: i.prevout.txid.clone(), vout: i.prevout.vout },
                script_sig: i.script_sig.clone(),
                sequence: i.sequence,
                witness: i.witness.clone(),
            })
            .collect(),
        outputs: t
            .outputs
            .iter()
            .map(|o| TxOutRec { value: o.value, script_pubkey: o.script_pubkey.clone() })
            .collect(),
    }
}

fn plan_tx() -> (TxRec, KeyMaterial) {
    let km = km_from(SECRET_ONE);
    let km2 = km_from(SECRET_TWO);
    let cfg = Config {
        prevout_txid: vec![1u8; 32],
        prevout_vout: 0,
        prev_amt: 100_000,
        fallback_addr: p2tr_address(&km2, Network::Signet).unwrap(),
        output_amt: 90_000,
        change_addr: None,
        change_amt: None,
        network: Network::Signet,
    };
    let plan = build_deposit(&cfg, &km).unwrap();
    (plan.psbt.tx, km)
}

#[test]
fn accepts_consistent_response() {
    let (sent, km) = plan_tx();
    let mut ret = copy_tx(&sent);
    ret.outputs[0].script_pubkey = km.script_pubkey.clone();
    assert!(validate_returned_tx(&sent, &ret).is_ok());
}

#[test]
fn rejects_unfilled_output_script() {
    let (sent, _km) = plan_tx();
    let ret = copy_tx(&sent);
    let r = validate_returned_tx(&sent, &ret);
    assert!(matches!(r, Err(DepositError::ProtocolError)));
}

#[test]
fn rejects_changed_amount() {
    let (sent, km) = plan_tx();
    let mut ret = copy_tx(&sent);
    ret.outputs[0].script_pubkey = km.script_pubkey.clone();
    ret.outputs[0].value = 80_000;
    let r = validate_returned_tx(&sent, &ret);
    assert!(matches!(r, Err(DepositError::ProtocolError)));
}

#[test]
fn rejects_changed_prevout() {
    let (sent, km) = plan_tx();
    let mut ret = copy_tx(&sent);
    ret.outputs[0].script_pubkey = km.script_pubkey.clone();
    ret.inputs[0].prevout.vout = 5;
    let r = validate_returned_tx(&sent, &ret);
    assert!(matches!(r, Err(DepositError::ProtocolError)));
}

#[test]
fn rejects_extra_output() {
    let (sent, km) = plan_tx();
    let mut ret = copy_tx(&sent);
    ret.outputs[0].script_pubkey = km.script_pubkey.clone();
    ret.outputs.push(TxOutRec { value: 1, script_pubkey: km.script_pubkey.clone() });
    let r = validate_returned_tx(&sent, &ret);
    assert!(matches!(r, Err(DepositError::ProtocolError)));
}

fn signed_input() -> PsbtInputRec {
    let mut inp = PsbtInputRec::empty();
    inp.witness_utxo = Some(TxOutRec { value: 100_000, script_pubkey: vec![0x51] });
    inp.sighash_type = Some(1);
    inp.partial_sigs_len = 2;
    inp.redeem_script = Some(vec![0x00]);
    inp.witness_script = Some(vec![0x00]);
    inp.bip32_derivation_len = 1;
    inp.tap_key_sig = Some(TapSigRec { sig: vec![0xab; 64], hash_ty: 1 });
    inp
}

#[test]
fn finalize_builds_witness_and_clears_fields() {
    let mut inp = signed_input();
    finalize_input(&mut inp);
    let w = inp.final_script_witness.as_ref().unwrap();
    assert_eq!(w.len(), 1);
    assert_eq!(w[0].len(), 65);
    assert_eq!(&w[0][..64], &[0xab; 64][..]);
    assert_eq!(w[0][64], 1);
    assert_eq!(inp.partial_sigs_len, 0);
    assert!(inp.sighash_type.is_none());
    assert!(inp.redeem_script.is_none());
    assert!(inp.witness_script.is_none());
    assert_eq!(inp.bip32_derivation_len, 0);
    assert!(inp.witness_utxo.is_some());
    assert!(inp.tap_key_sig.is_some());
}

#[test]
fn finalize_twice_is_noop_on_witness() {
    let mut inp = signed_input();
    finalize_input(&mut inp);
    let first = inp.final_script_witness.clone().unwrap();
    finalize_input(&mut inp);
    let second = inp.final_script_witness.clone().unwrap();
    assert_eq!(first, second);
    assert_eq!(inp.partial_sigs_len, 0);
    assert!(inp.sighash_type.is_none());
    assert!(inp.redeem_script.is_none());
    assert!(inp.witness_script.is_none());
    assert_eq!(inp.bip32_derivation_len, 0);
}

#[test]
fn finalize_default_sighash_omits_byte() {
    let mut inp = PsbtInputRec::empty();
    inp.tap_key_sig = Some(TapSigRec { sig: vec![0xcd; 64], hash_ty: 0 });
    finalize_input(&mut inp);
    let w = inp.final_script_witness.as_ref().unwrap();
    assert_eq!(w.len(), 1);
    assert_eq!(w[0].len(), 64);
}
