use depositor::builder::{build_deposit, Config};
use depositor::keys::{load_keypair, p2tr_address, KeyMaterial};
use depositor::model::{DepositError, Network};

const SECRET_ONE: &str = "0000000000000000000000000000000000000000000000000000000000000001";
const SECRET_TWO: &str = "0000000000000000000000000000000000000000000000000000000000000002";

fn km_from(hex: &str) -> KeyMaterial {
    load_keypair(&hex.as_bytes().to_vec()).unwrap()
}

fn base_config(change: bool) -> (Config, KeyMaterial) {
    let km = km_from(SECRET_ONE);
    let km2 = km_from(SECRET_TWO);
    let fallback = p2tr_address(&km2, Network::Signet).unwrap();
    let change_addr = p2tr_address(&km, Network::Signet).unwrap();
    let cfg = Config {
        prevout_txid: vec![1u8; 32],
        prevout_vout: 7,
        prev_amt: 100_000,
        fallback_addr: fallback,
        output_amt: 90_000,
        change_addr: if change { Some(change_addr) } else { None },
        change_amt: if change { Some(9_000) } else { None },
        network: Network::Signet,
    };
    (cfg, km)
}

#[test]
fn happy_path_with_change_shape() {
    let (cfg, km) = base_config(true);
    let plan = build_deposit(&cfg, &km).unwrap();
    let tx = &plan.psbt.tx;
    assert_eq!(tx.version, 2);
    assert_eq!(tx.lock_time, 0);
    assert_eq!(tx.inputs.len(), 1);
    assert_eq!(tx.inputs[0].prevout.txid, vec![1u8; 32]);
    assert_eq!(tx.inputs[0].prevout.vout, 7);
    assert!(tx.inputs[0].script_sig.is_empty());
    assert_eq!(tx.inputs[0].sequence, 0xFFFF_FFFD);
    assert!(tx.inputs[0].witness.is_empty());
    assert_eq!(tx.outputs.len(), 2);
    assert_eq!(tx.outputs[0].value, 90_000);
    assert!(tx.outputs[0].script_pubkey.is_empty());
    assert_eq!(tx.outputs[1].value, 9_000);
    assert_eq!(tx.outputs[1].script_pubkey, km.script_pubkey);
    assert_eq!(plan.psbt.inputs.len(), 1);
    let pin = &plan.psbt.inputs[0];
    assert!(pin.witness_utxo.is_none());
    assert!(pin.tap_internal_key.is_none());
    assert!(pin.final_script_witness.is_none());
    assert_eq!(plan.funding.value, 100_000);
    assert_eq!(plan.funding.script_pubkey, km.script_pubkey);
}

#[test]
fn happy_path_without_change_has_one_output() {
    let (cfg, km) = base_config(false);
    let plan = build_deposit(&cfg, &km).unwrap();
    assert_eq!(plan.psbt.tx.outputs.len(), 1);
    assert_eq!(plan.psbt.tx.outputs[0].value, 90_000);
}

#[test]
fn change_addr_without_amount_fails_early() {
    let (mut cfg, km) = base_config(true);
    cfg.change_amt = None;
    let r = build_deposit(&cfg, &km);
    assert!(matches!(r, Err(DepositError::BadAddress)));
}

#[test]
fn change_amount_without_addr_fails_early() {
    let (mut cfg, km) = base_config(true);
    cfg.change_addr = None;
    let r = build_deposit(&cfg, &km);
    assert!(matches!(r, Err(DepositError::BadAddress)));
}

#[test]
fn mainnet_change_addr_on_signet_fails() {
    let (mut cfg, km) = base_config(true);
    cfg.change_addr = Some(p2tr_address(&km, Network::Mainnet).unwrap());
    let r = build_deposit(&cfg, &km);
    assert!(matches!(r, Err(DepositError::BadAddress)));
}

#[test]
fn unparseable_fallback_fails() {
    let (mut cfg, km) = base_config(false);
    cfg.fallback_addr = "not an address".to_string();
    let r = build_deposit(&cfg, &km);
    assert!(matches!(r, Err(DepositError::BadAddress)));
}
