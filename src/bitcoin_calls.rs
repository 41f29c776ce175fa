//! The computations that rust-bitcoin and libbitcoinconsensus perform for this
//! library. Each result that depends on its arguments alone in a way too long
//! to restate here (hashes, the consensus encoding, the script interpreter's
//! verdict) is given a name; the wrappers say which name they return.
use crate::txdata::{strip_signatures, strip_witnesses, RawTransaction, RawTxIn, TxModel};
use bitcoin::hashes::Hash as HashBytes;
use vstd::prelude::*;

verus! {

#[verifier::external_type_specification]
#[verifier::external_body]
pub struct ExBitcoinTransaction(bitcoin::Transaction);

#[verifier::external_type_specification]
#[verifier::external_body]
pub struct ExBitcoinTxIn(bitcoin::TxIn);

/// The transaction id: the double SHA-256 of the encoding without witnesses.
pub uninterp spec fn txid_of(tx: TxModel) -> Seq<u8>;

/// The consensus encoding of a transaction (with witnesses where any input has one).
pub uninterp spec fn consensus_encoding(tx: TxModel) -> Seq<u8>;

/// The BIP143 signature hash of input `input_index`, for a previous output of
/// amount `value` whose predicate script is `script_code`, with the mode ALL
/// or ALL|ANYONECANPAY.
pub uninterp spec fn segwit_v0_sighash(
    tx: TxModel,
    input_index: int,
    script_code: Seq<u8>,
    value: u64,
    anyone_can_pay: bool,
) -> Seq<u8>;

/// RIPEMD-160 of SHA-256 of `data`.
pub uninterp spec fn hash160_of(data: Seq<u8>) -> Seq<u8>;

/// Whether libbitcoinconsensus accepts input `input_index` of the encoded
/// transaction `tx_bytes` as a spend of an output with `script_pubkey` and `amount`.
pub uninterp spec fn consensus_accepts(
    script_pubkey: Seq<u8>,
    amount: u64,
    tx_bytes: Seq<u8>,
    input_index: int,
) -> bool;

/// The diagnostic (the debug text of the error code) that libbitcoinconsensus
/// gives when it refuses input `input_index` of `tx_bytes` as a spend of an
/// output with `script_pubkey` and `amount`.
pub uninterp spec fn consensus_error_text(
    script_pubkey: Seq<u8>,
    amount: u64,
    tx_bytes: Seq<u8>,
    input_index: int,
) -> Seq<char>;

/// Builds rust-bitcoin's `TxIn` holding the same fields.
#[verifier::external_body]
fn to_bitcoin_txin(txin: &RawTxIn) -> bitcoin::TxIn {
    bitcoin::TxIn {
        previous_output: bitcoin::OutPoint {
            txid: bitcoin::Txid::from_byte_array(txin.previous_output.txid),
            vout: txin.previous_output.vout,
        },
        script_sig: bitcoin::ScriptBuf::from_bytes(txin.script_sig.clone()),
        sequence: bitcoin::Sequence(txin.sequence),
        witness: bitcoin::Witness::from_slice(&txin.witness),
    }
}

/// Builds rust-bitcoin's `Transaction` holding the same fields.
#[verifier::external_body]
fn to_bitcoin_transaction(tx: &RawTransaction) -> bitcoin::Transaction {
    bitcoin::Transaction {
        version: bitcoin::transaction::Version(tx.version),
        lock_time: bitcoin::absolute::LockTime::from_consensus(tx.lock_time),
        input: tx.input.iter().map(to_bitcoin_txin).collect(),
        output: tx.output.iter().map(|o| bitcoin::TxOut {
            value: bitcoin::Amount::from_sat(o.value),
            script_pubkey: bitcoin::ScriptBuf::from_bytes(o.script_pubkey.clone()),
        }).collect(),
    }
}

/// Relies on bitcoin's `Transaction::compute_txid`, which hashes the
/// version, the inputs without their witnesses, the outputs and the lock time.
#[verifier::external_body]
pub(crate) fn compute_txid(tx: &RawTransaction) -> (r: [u8; 32])
    ensures
        r@ == txid_of(strip_witnesses(tx@)),
{
    to_bitcoin_transaction(tx).compute_txid().to_byte_array()
}

/// Relies on bitcoin's `consensus::encode::serialize` of a transaction.
#[verifier::external_body]
pub(crate) fn consensus_serialize(tx: &RawTransaction) -> (r: Vec<u8>)
    ensures
        r@ == consensus_encoding(tx@),
{
    bitcoin::consensus::encode::serialize(&to_bitcoin_transaction(tx))
}

/// Relies on bitcoin's `SighashCache::p2wsh_signature_hash`, which fails only
/// when the input index is out of bounds, and whose BIP143 digest reads neither
/// witnesses nor signature scripts.
#[verifier::external_body]
pub(crate) fn p2wsh_sighash(
    tx: &RawTransaction,
    input_index: usize,
    script_code: &Vec<u8>,
    value: u64,
    anyone_can_pay: bool,
) -> (r: Option<[u8; 32]>)
    ensures
        r is Some <==> input_index < tx.input@.len(),
        r matches Some(h) ==> h@ == segwit_v0_sighash(
            strip_signatures(tx@),
            input_index as int,
            script_code@,
            value,
            anyone_can_pay,
        ),
{
    let sighash_type = if anyone_can_pay {
        bitcoin::EcdsaSighashType::AllPlusAnyoneCanPay
    } else {
        bitcoin::EcdsaSighashType::All
    };
    let btx = to_bitcoin_transaction(tx);
    let mut cache = bitcoin::sighash::SighashCache::new(&btx);
    let script = bitcoin::Script::from_bytes(script_code);
    let amount = bitcoin::Amount::from_sat(value);
    cache.p2wsh_signature_hash(input_index, script, amount, sighash_type).ok().map(|h| h.to_byte_array())
}

/// Relies on bitcoin_hashes' `hash160::Hash::hash`.
#[verifier::external_body]
pub(crate) fn hash160(data: &Vec<u8>) -> (r: [u8; 20])
    ensures
        r@ == hash160_of(data@),
{
    bitcoin::hashes::hash160::Hash::hash(data).to_byte_array()
}

/// Relies on bitcoinconsensus' `verify` (pre-taproot rules); its error code is
/// handed back as its debug text.
#[verifier::external_body]
pub(crate) fn consensus_verify(
    script_pubkey: &Vec<u8>,
    amount: u64,
    tx_bytes: &Vec<u8>,
    input_index: usize,
) -> (r: Result<(), String>)
    ensures
        r is Ok <==> consensus_accepts(script_pubkey@, amount, tx_bytes@, input_index as int),
        r matches Err(e) ==> e@ == consensus_error_text(
            script_pubkey@,
            amount,
            tx_bytes@,
            input_index as int,
        ),
{
    bitcoinconsensus::verify(script_pubkey, amount, tx_bytes, None, input_index)
        .map_err(|e| format!("{:?}", e))
}

} // verus!
