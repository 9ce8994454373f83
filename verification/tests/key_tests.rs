use depositor::hexcode::hex_encode;
use depositor::keys::{generate_keypair, load_keypair, p2tr_address, KeyMaterial};
use depositor::model::{DepositError, Network};

const SECRET_ONE: &str = "0000000000000000000000000000000000000000000000000000000000000001";

fn km_from(hex: &str) -> KeyMaterial {
    load_keypair(&hex.as_bytes().to_vec()).unwrap()
}

#[test]
fn load_valid_secret() {
    let km = km_from(SECRET_ONE);
    assert_eq!(km.secret.len(), 32);
    assert_eq!(km.secret[31], 1);
    assert_eq!(km.xonly.len(), 32);
    assert_eq!(km.script_pubkey.len(), 34);
    assert_eq!(km.script_pubkey[0], 0x51);
    assert_eq!(km.script_pubkey[1], 0x20);
}

#[test]
fn load_rejects_bad_hex() {
    let r = load_keypair(&b"zz".to_vec());
    assert!(matches!(r, Err(DepositError::InvalidSecret)));
}

#[test]
fn load_rejects_odd_length() {
    let r = load_keypair(&b"abc".to_vec());
    assert!(matches!(r, Err(DepositError::InvalidSecret)));
}

#[test]
fn load_rejects_zero_scalar() {
    let zero = "0".repeat(64);
    let r = load_keypair(&zero.as_bytes().to_vec());
    assert!(matches!(r, Err(DepositError::InvalidSecret)));
}

#[test]
fn load_rejects_short_secret() {
    let r = load_keypair(&b"0001".to_vec());
    assert!(matches!(r, Err(DepositError::InvalidSecret)));
}

#[test]
fn fresh_key_reports_sixty_four_hex() {
    let km = generate_keypair();
    let secret_hex = hex_encode(&km.secret);
    let pub_hex = hex_encode(&km.xonly);
    assert_eq!(secret_hex.len(), 64);
    assert_eq!(pub_hex.len(), 64);
    let reloaded = load_keypair(&secret_hex).unwrap();
    assert_eq!(reloaded.xonly, km.xonly);
    assert_eq!(reloaded.script_pubkey, km.script_pubkey);
}

#[test]
fn address_has_taproot_prefix() {
    let km = km_from(SECRET_ONE);
    let signet = p2tr_address(&km, Network::Signet).unwrap();
    assert!(signet.starts_with("tb1p"));
    let mainnet = p2tr_address(&km, Network::Mainnet).unwrap();
    assert!(mainnet.starts_with("bc1p"));
    let regtest = p2tr_address(&km, Network::Regtest).unwrap();
    assert!(regtest.starts_with("bcrt1p"));
}

#[test]
fn address_matches_bitcoin_library() {
    let km = km_from(SECRET_ONE);
    let addr = p2tr_address(&km, Network::Signet).unwrap();
    let script = bitcoin::ScriptBuf::from_bytes(km.script_pubkey.clone());
    let expected = bitcoin::Address::from_script(script.as_script(), bitcoin::Network::Signet)
        .unwrap()
        .to_string();
    assert_eq!(addr, expected);
}
