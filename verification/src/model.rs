//! Plain data model of the transactions and PSBT inputs the deposit
//! workflow builds, and the error taxonomy of the core.

use vstd::prelude::*;

verus! {

/// Sequence value signalling replace-by-fee without locktime semantics.
pub const SEQUENCE_RBF: u32 = 0xFFFF_FFFD;

/// Taproot `SIGHASH_ALL` type value.
pub const SIGHASH_ALL: u8 = 1;

/// The network an address must belong to.
#[derive(Clone, Copy, PartialEq, Eq, Structural, Debug)]
pub enum Network {
    Mainnet,
    Testnet,
    Signet,
    Regtest,
}

impl Network {
    /// Stable numeric code; facts about address parsing are stated over it.
    pub open spec fn code_spec(self) -> u32 {
        match self {
            Network::Mainnet => 0,
            Network::Testnet => 1,
            Network::Signet => 2,
            Network::Regtest => 3,
        }
    }
}

/// Which of the two chained transactions a consensus failure belongs to.
#[derive(Clone, Copy, PartialEq, Eq, Structural, Debug)]
pub enum VerifyStage {
    Deposit,
    Spend,
}

/// Every failure the core can report; all are fatal at its boundary.
#[derive(Debug)]
pub enum DepositError {
    InvalidSecret,
    BadAddress,
    NetworkMismatch,
    RemoteUnavailable,
    ProtocolError,
    SigningFailed,
    ConsensusInvalid { which: VerifyStage, reason: String },
}

/// Identifies the UTXO a transaction input spends.
#[derive(Debug)]
pub struct Outpoint {
    /// Transaction id, 32 bytes.
    pub txid: Vec<u8>,
    /// Output index.
    pub vout: u32,
}

/// An output: amount in satoshis plus locking script.
#[derive(Debug)]
pub struct TxOutRec {
    pub value: u64,
    pub script_pubkey: Vec<u8>,
}

/// An input spending an outpoint.
#[derive(Debug)]
pub struct TxInRec {
    pub prevout: Outpoint,
    pub script_sig: Vec<u8>,
    pub sequence: u32,
    pub witness: Vec<Vec<u8>>,
}

/// A transaction in the shape this workflow builds.
#[derive(Debug)]
pub struct TxRec {
    pub version: i32,
    pub lock_time: u32,
    pub inputs: Vec<TxInRec>,
    pub outputs: Vec<TxOutRec>,
}

/// A Schnorr key-spend signature together with its sighash type.
#[derive(Debug)]
pub struct TapSigRec {
    /// 64-byte Schnorr signature.
    pub sig: Vec<u8>,
    /// Sighash type the signature commits to; 0 is `SIGHASH_DEFAULT`.
    pub hash_ty: u8,
}

/// The per-input signing metadata of a PSBT input that this workflow
/// reads or writes.
#[derive(Debug)]
pub struct PsbtInputRec {
    pub witness_utxo: Option<TxOutRec>,
    /// 32-byte x-only internal key.
    pub tap_internal_key: Option<Vec<u8>>,
    /// X-only keys mapped to an empty leaf-hash list and a default key
    /// source each; only the keys are modelled.
    pub tap_key_origins: Vec<Vec<u8>>,
    pub sighash_type: Option<u32>,
    pub tap_key_sig: Option<TapSigRec>,
    /// Modelled as the number of entries; the workflow only ever clears it.
    pub partial_sigs_len: usize,
    pub redeem_script: Option<Vec<u8>>,
    pub witness_script: Option<Vec<u8>>,
    /// Modelled as the number of entries; the workflow only ever clears it.
    pub bip32_derivation_len: usize,
    pub final_script_witness: Option<Vec<Vec<u8>>>,
}

/// A PSBT: the unsigned transaction plus one metadata record per input.
#[derive(Debug)]
pub struct PsbtRec {
    pub tx: TxRec,
    pub inputs: Vec<PsbtInputRec>,
}

/// What the Taproot key-spend sighash of a single-input transaction
/// depends on: version, locktime, the input's outpoint and sequence,
/// and the outputs. The input's script-sig and witness are not covered
/// by the BIP-341 signature message.
pub open spec fn unsigned_view(tx: TxRec) -> (int, u32, Seq<u8>, u32, u32, Seq<(u64, Seq<u8>)>)
    recommends
        tx.inputs@.len() == 1,
{
    (
        tx.version as int,
        tx.lock_time,
        tx.inputs@[0].prevout.txid@,
        tx.inputs@[0].prevout.vout,
        tx.inputs@[0].sequence,
        tx.outputs@.map_values(|o: TxOutRec| (o.value, o.script_pubkey@)),
    )
}

/// View of a witness stack as a sequence of byte sequences.
pub open spec fn wit_view(w: Vec<Vec<u8>>) -> Seq<Seq<u8>> {
    w@.map_values(|e: Vec<u8>| e@)
}

pub open spec fn outpoint_eq(a: Outpoint, b: Outpoint) -> bool {
    a.txid@ == b.txid@ && a.vout == b.vout
}

pub open spec fn txout_eq(a: TxOutRec, b: TxOutRec) -> bool {
    a.value == b.value && a.script_pubkey@ == b.script_pubkey@
}

pub open spec fn txin_eq(a: TxInRec, b: TxInRec) -> bool {
    &&& outpoint_eq(a.prevout, b.prevout)
    &&& a.script_sig@ == b.script_sig@
    &&& a.sequence == b.sequence
    &&& wit_view(a.witness) == wit_view(b.witness)
}

/// A PSBT input fresh from the Creator role: no metadata at all.
pub open spec fn psbt_input_empty(i: PsbtInputRec) -> bool {
    &&& i.witness_utxo is None
    &&& i.tap_internal_key is None
    &&& i.tap_key_origins@.len() == 0
    &&& i.sighash_type is None
    &&& i.tap_key_sig is None
    &&& i.partial_sigs_len == 0
    &&& i.redeem_script is None
    &&& i.witness_script is None
    &&& i.bip32_derivation_len == 0
    &&& i.final_script_witness is None
}

impl PsbtInputRec {
    /// The empty metadata record the Creator role attaches to each input.
    pub fn empty() -> (r: PsbtInputRec)
        ensures
            psbt_input_empty(r),
    {
        PsbtInputRec {
            witness_utxo: None,
            tap_internal_key: None,
            tap_key_origins: Vec::new(),
            sighash_type: None,
            tap_key_sig: None,
            partial_sigs_len: 0,
            redeem_script: None,
            witness_script: None,
            bip32_derivation_len: 0,
            final_script_witness: None,
        }
    }
}

/// Copies a byte vector; the result has the same view.
pub fn copy_bytes(v: &Vec<u8>) -> (r: Vec<u8>)
    ensures
        r@ == v@,
{
    let mut out: Vec<u8> = Vec::new();
    let mut i: usize = 0;
    while i < v.len()
        invariant
            i <= v@.len(),
            out@.len() == i,
            forall|j: int| 0 <= j < i ==> out@[j] == v@[j],
        decreases v@.len() - i,
    {
        out.push(v[i]);
        i = i + 1;
    }
    assert(out@ =~= v@);
    out
}

/// Compares two byte vectors by content.
pub fn bytes_eq(a: &Vec<u8>, b: &Vec<u8>) -> (r: bool)
    ensures
        r == (a@ == b@),
{
    if a.len() != b.len() {
        assert(a@.len() != b@.len());
        return false;
    }
    let mut i: usize = 0;
    while i < a.len()
        invariant
            i <= a@.len(),
            a@.len() == b@.len(),
            forall|j: int| 0 <= j < i ==> a@[j] == b@[j],
        decreases a@.len() - i,
    {
        if a[i] != b[i] {
            return false;
        }
        i = i + 1;
    }
    assert(a@ =~= b@);
    true
}

/// Copies an output record; the result is `txout_eq` to the argument.
pub fn copy_txout(t: &TxOutRec) -> (r: TxOutRec)
    ensures
        txout_eq(r, *t),
{
    TxOutRec { value: t.value, script_pubkey: copy_bytes(&t.script_pubkey) }
}

} // verus!
