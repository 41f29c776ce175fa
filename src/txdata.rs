//! Plain-value model of a Bitcoin transaction.
use vstd::prelude::*;

verus! {

/// Reference to an output of a transaction: the transaction id (in the
/// byte order used by the consensus encoding) and the output index.
#[derive(Clone, Copy, Debug, PartialEq, Eq)]
pub struct OutPoint {
    pub txid: [u8; 32],
    pub vout: u32,
}

/// A transaction input.
#[derive(Clone, Debug, PartialEq, Eq)]
pub struct RawTxIn {
    pub previous_output: OutPoint,
    pub script_sig: Vec<u8>,
    pub sequence: u32,
    pub witness: Vec<Vec<u8>>,
}

/// A transaction output: an amount in satoshis and its locking script.
#[derive(Clone, Debug, PartialEq, Eq)]
pub struct RawTxOut {
    pub value: u64,
    pub script_pubkey: Vec<u8>,
}

/// A raw transaction.
#[derive(Clone, Debug, PartialEq, Eq)]
pub struct RawTransaction {
    pub version: i32,
    pub lock_time: u32,
    pub input: Vec<RawTxIn>,
    pub output: Vec<RawTxOut>,
}

/// Mathematical value of an input.
pub struct InputModel {
    pub prevout_txid: Seq<u8>,
    pub prevout_vout: u32,
    pub script_sig: Seq<u8>,
    pub sequence: u32,
    pub witness: Seq<Seq<u8>>,
}

/// Mathematical value of an output.
pub struct OutputModel {
    pub value: u64,
    pub script_pubkey: Seq<u8>,
}

/// Mathematical value of a transaction.
pub struct TxModel {
    pub version: i32,
    pub lock_time: u32,
    pub inputs: Seq<InputModel>,
    pub outputs: Seq<OutputModel>,
}

impl View for RawTxIn {
    type V = InputModel;

    open spec fn view(&self) -> InputModel {
        InputModel {
            prevout_txid: self.previous_output.txid@,
            prevout_vout: self.previous_output.vout,
            script_sig: self.script_sig@,
            sequence: self.sequence,
            witness: self.witness@.map_values(|w: Vec<u8>| w@),
        }
    }
}

impl View for RawTxOut {
    type V = OutputModel;

    open spec fn view(&self) -> OutputModel {
        OutputModel { value: self.value, script_pubkey: self.script_pubkey@ }
    }
}

impl View for RawTransaction {
    type V = TxModel;

    open spec fn view(&self) -> TxModel {
        TxModel {
            version: self.version,
            lock_time: self.lock_time,
            inputs: self.input@.map_values(|i: RawTxIn| i@),
            outputs: self.output@.map_values(|o: RawTxOut| o@),
        }
    }
}

/// An input that spends `prevout` with sequence `sequence`, before any
/// witness or signature script is attached.
pub open spec fn unsigned_input(prevout: OutPoint, sequence: u32) -> InputModel {
    InputModel {
        prevout_txid: prevout.txid@,
        prevout_vout: prevout.vout,
        script_sig: Seq::empty(),
        sequence,
        witness: Seq::empty(),
    }
}

/// The transaction with every witness removed: what its id commits to.
pub open spec fn strip_witnesses(tx: TxModel) -> TxModel {
    TxModel {
        inputs: tx.inputs.map_values(|i: InputModel| InputModel { witness: Seq::empty(), ..i }),
        ..tx
    }
}

/// The transaction with every witness and signature script removed: what a
/// segwit signature hash commits to.
pub open spec fn strip_signatures(tx: TxModel) -> TxModel {
    TxModel {
        inputs: tx.inputs.map_values(
            |i: InputModel| InputModel { witness: Seq::empty(), script_sig: Seq::empty(), ..i },
        ),
        ..tx
    }
}

/// The transaction once input `index` carries `witness` and `script_sig`.
pub open spec fn with_satisfaction(
    tx: TxModel,
    index: int,
    witness: Seq<Seq<u8>>,
    script_sig: Seq<u8>,
) -> TxModel {
    TxModel {
        inputs: tx.inputs.update(
            index,
            InputModel { witness, script_sig, ..tx.inputs[index] },
        ),
        ..tx
    }
}

/// Compares two byte strings.
pub fn bytes_equal(a: &[u8], b: &[u8]) -> (r: bool)
    ensures
        r == (a@ == b@),
{
    if a.len() != b.len() {
        return false;
    }
    let mut i: usize = 0;
    while i < a.len()
        invariant
            a@.len() == b@.len(),
            i <= a@.len(),
            a@.subrange(0, i as int) == b@.subrange(0, i as int),
        decreases a@.len() - i,
    {
        if a[i] != b[i] {
            assert(a@[i as int] != b@[i as int]);
            return false;
        }
        assert(a@.subrange(0, i + 1) == a@.subrange(0, i as int).push(a@[i as int]));
        assert(b@.subrange(0, i + 1) == b@.subrange(0, i as int).push(b@[i as int]));
        i += 1;
    }
    assert(a@ == a@.subrange(0, a@.len() as int));
    assert(b@ == b@.subrange(0, b@.len() as int));
    true
}

} // verus!
