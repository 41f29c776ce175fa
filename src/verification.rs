//! Verification of a finalized transaction against the transactions whose
//! outputs it spends, by libbitcoinconsensus.
use crate::bitcoin_calls::{
    compute_txid, consensus_accepts, consensus_encoding, consensus_error_text,
    consensus_serialize, consensus_verify, txid_of,
};
use crate::error::Error;
use crate::transactions::RevaultTransaction;
use crate::txdata::{bytes_equal, strip_witnesses, InputModel, OutPoint, OutputModel, RawTransaction, TxModel};
use vstd::prelude::*;

verus! {

/// The candidate transactions, as values.
pub open spec fn candidates_model(transactions: Seq<&RawTransaction>) -> Seq<TxModel> {
    transactions.map_values(|t: &RawTransaction| t@)
}

/// The output spent by outpoint (`txid`, `vout`), searched among the
/// candidates from position `j` on: the first candidate with that id decides.
pub open spec fn resolve_from(txid: Seq<u8>, vout: u32, candidates: Seq<TxModel>, j: int) -> Option<
    OutputModel,
>
    decreases candidates.len() - j,
{
    if j < 0 || j >= candidates.len() {
        None
    } else if txid_of(strip_witnesses(candidates[j])) == txid {
        if (vout as int) < candidates[j].outputs.len() {
            Some(candidates[j].outputs[vout as int])
        } else {
            None
        }
    } else {
        resolve_from(txid, vout, candidates, j + 1)
    }
}

/// The output that `input` spends, if a candidate holds it.
pub open spec fn resolve(input: InputModel, candidates: Seq<TxModel>) -> Option<OutputModel> {
    resolve_from(input.prevout_txid, input.prevout_vout, candidates, 0)
}

/// Input `i` of `tx` spends an output held by a candidate, and the script
/// interpreter accepts it.
pub open spec fn input_verifies(tx: TxModel, i: int, candidates: Seq<TxModel>) -> bool {
    match resolve(tx.inputs[i], candidates) {
        Some(o) => consensus_accepts(o.script_pubkey, o.value, consensus_encoding(tx), i),
        None => false,
    }
}

/// Every input of `tx` verifies against the candidates.
pub open spec fn transaction_verifies(tx: TxModel, candidates: Seq<TxModel>) -> bool {
    forall|i: int| 0 <= i < tx.inputs.len() ==> input_verifies(tx, i, candidates)
}

/// The diagnostic of the script interpreter for input `i` of `tx`, when the
/// input spends an output held by a candidate.
pub open spec fn input_error_text(tx: TxModel, i: int, candidates: Seq<TxModel>) -> Option<Seq<char>> {
    match resolve(tx.inputs[i], candidates) {
        Some(o) => Some(consensus_error_text(o.script_pubkey, o.value, consensus_encoding(tx), i)),
        None => None,
    }
}

/// Looks for the output spent by `prevout`: the index of the first candidate
/// whose id is the outpoint's, and the output index if that candidate has it.
fn find_prev_output(prevout: &OutPoint, transactions: &[&RawTransaction]) -> (r: Option<(usize, usize)>)
    ensures
        match r {
            Some((j, v)) => {
                &&& j < transactions@.len()
                &&& v == prevout.vout
                &&& v < transactions@[j as int].output@.len()
                &&& resolve_from(prevout.txid@, prevout.vout, candidates_model(transactions@), 0)
                    == Some(transactions@[j as int]@.outputs[v as int])
            },
            None => resolve_from(prevout.txid@, prevout.vout, candidates_model(transactions@), 0)
                is None,
        },
{
    let ghost cands = candidates_model(transactions@);
    let mut j: usize = 0;
    while j < transactions.len()
        invariant
            j <= transactions@.len(),
            cands == candidates_model(transactions@),
            resolve_from(prevout.txid@, prevout.vout, cands, 0) == resolve_from(
                prevout.txid@,
                prevout.vout,
                cands,
                j as int,
            ),
        decreases transactions@.len() - j,
    {
        let tx: &RawTransaction = transactions[j];
        let txid = compute_txid(tx);
        assert(cands[j as int] == tx@);
        if bytes_equal(txid.as_slice(), prevout.txid.as_slice()) {
            let v = prevout.vout as usize;
            if v < tx.output.len() {
                return Some((j, v));
            } else {
                return None;
            }
        }
        j += 1;
    }
    None
}

/// Checks every input of `revault_tx` against libbitcoinconsensus, with the
/// output it spends looked up among `previous_transactions`.
///
/// # Errors
/// For the first input that does not verify:
/// - `Error::UnresolvedPrevout` if no candidate holds the output it spends;
/// - `Error::ScriptVerification` with the interpreter's diagnostic otherwise.
pub fn verify_revault_transaction<T: RevaultTransaction>(
    revault_tx: &T,
    previous_transactions: &[&RawTransaction],
) -> (r: Result<(), Error>)
    ensures
        r is Ok <==> transaction_verifies(
            revault_tx.spec_tx()@,
            candidates_model(previous_transactions@),
        ),
        r matches Err(Error::UnresolvedPrevout(i)) ==> {
            &&& i < revault_tx.spec_tx()@.inputs.len()
            &&& resolve(revault_tx.spec_tx()@.inputs[i as int], candidates_model(previous_transactions@)) is None
            &&& forall|k: int|
                0 <= k < i ==> input_verifies(
                    revault_tx.spec_tx()@,
                    k,
                    candidates_model(previous_transactions@),
                )
        },
        r matches Err(Error::ScriptVerification { input_index: i, reason }) ==> {
            &&& i < revault_tx.spec_tx()@.inputs.len()
            &&& input_error_text(revault_tx.spec_tx()@, i as int, candidates_model(previous_transactions@))
                == Some(reason@)
            &&& resolve(revault_tx.spec_tx()@.inputs[i as int], candidates_model(previous_transactions@)) is Some
            &&& !input_verifies(revault_tx.spec_tx()@, i as int, candidates_model(previous_transactions@))
            &&& forall|k: int|
                0 <= k < i ==> input_verifies(
                    revault_tx.spec_tx()@,
                    k,
                    candidates_model(previous_transactions@),
                )
        },
        r is Ok || r matches Err(Error::UnresolvedPrevout(_)) || r matches Err(
            Error::ScriptVerification { .. },
        ),
{
    let tx = revault_tx.inner_tx();
    let ghost cands = candidates_model(previous_transactions@);
    let tx_bytes = consensus_serialize(tx);
    let mut index: usize = 0;
    while index < tx.input.len()
        invariant
            index <= tx.input@.len(),
            *tx == revault_tx.spec_tx(),
            cands == candidates_model(previous_transactions@),
            tx_bytes@ == consensus_encoding(tx@),
            forall|k: int| 0 <= k < index ==> input_verifies(tx@, k, cands),
        decreases tx.input@.len() - index,
    {
        let txin = &tx.input[index];
        assert(tx@.inputs[index as int] == txin@);
        match find_prev_output(&txin.previous_output, previous_transactions) {
            Some((j, v)) => {
                let txo = &previous_transactions[j].output[v];
                assert(cands[j as int] == previous_transactions@[j as int]@);
                assert(cands[j as int].outputs[v as int] == txo@);
                match consensus_verify(&txo.script_pubkey, txo.value, &tx_bytes, index) {
                    Ok(()) => {},
                    Err(reason) => {
                        assert(!input_verifies(tx@, index as int, cands));
                        assert(!transaction_verifies(tx@, cands));
                        return Err(Error::ScriptVerification { input_index: index, reason });
                    },
                }
            },
            None => {
                assert(!input_verifies(tx@, index as int, cands));
                assert(!transaction_verifies(tx@, cands));
                return Err(Error::UnresolvedPrevout(index));
            },
        }
        index += 1;
    }
    Ok(())
}

/// No two candidates share a transaction id.
pub open spec fn ids_unique(candidates: Seq<TxModel>) -> bool {
    forall|i: int, j: int|
        0 <= i < j < candidates.len() ==> txid_of(strip_witnesses(#[trigger] candidates[i]))
            != txid_of(strip_witnesses(#[trigger] candidates[j]))
}

proof fn lemma_resolve_from_found(txid: Seq<u8>, vout: u32, candidates: Seq<TxModel>, j: int, k: int)
    requires
        0 <= j <= k < candidates.len(),
        txid_of(strip_witnesses(candidates[k])) == txid,
        forall|m: int| j <= m < k ==> txid_of(strip_witnesses(#[trigger] candidates[m])) != txid,
    ensures
        resolve_from(txid, vout, candidates, j) == (if (vout as int) < candidates[k].outputs.len() {
            Some(candidates[k].outputs[vout as int])
        } else {
            None
        }),
    decreases k - j,
{
    if j < k {
        lemma_resolve_from_found(txid, vout, candidates, j + 1, k);
    }
}

proof fn lemma_resolve_from_absent(txid: Seq<u8>, vout: u32, candidates: Seq<TxModel>, j: int)
    requires
        0 <= j <= candidates.len(),
        forall|m: int| j <= m < candidates.len() ==> txid_of(strip_witnesses(#[trigger] candidates[m])) != txid,
    ensures
        resolve_from(txid, vout, candidates, j) is None,
    decreases candidates.len() - j,
{
    if j < candidates.len() {
        lemma_resolve_from_absent(txid, vout, candidates, j + 1);
    }
}

proof fn lemma_resolve_same(input: InputModel, a: Seq<TxModel>, b: Seq<TxModel>)
    requires
        ids_unique(a),
        ids_unique(b),
        forall|t: TxModel| a.contains(t) <==> b.contains(t),
    ensures
        resolve(input, a) == resolve(input, b),
{
    let txid = input.prevout_txid;
    let vout = input.prevout_vout;
    if exists|k: int| 0 <= k < a.len() && txid_of(strip_witnesses(#[trigger] a[k])) == txid {
        let k = choose|k: int| 0 <= k < a.len() && txid_of(strip_witnesses(#[trigger] a[k])) == txid;
        assert(a.contains(a[k]));
        assert(b.contains(a[k]));
        let k2 = choose|k2: int| 0 <= k2 < b.len() && b[k2] == a[k];
        assert forall|m: int| 0 <= m < k implies txid_of(strip_witnesses(#[trigger] a[m])) != txid by {
            assert(txid_of(strip_witnesses(a[m])) != txid_of(strip_witnesses(a[k])));
        }
        assert forall|m: int| 0 <= m < k2 implies txid_of(strip_witnesses(#[trigger] b[m])) != txid by {
            assert(txid_of(strip_witnesses(b[m])) != txid_of(strip_witnesses(b[k2])));
        }
        lemma_resolve_from_found(txid, vout, a, 0, k);
        lemma_resolve_from_found(txid, vout, b, 0, k2);
    } else {
        assert forall|m: int| 0 <= m < b.len() implies txid_of(strip_witnesses(#[trigger] b[m])) != txid by {
            assert(b.contains(b[m]));
            assert(a.contains(b[m]));
            let k = choose|k: int| 0 <= k < a.len() && a[k] == b[m];
            assert(txid_of(strip_witnesses(a[k])) != txid);
        }
        lemma_resolve_from_absent(txid, vout, a, 0);
        lemma_resolve_from_absent(txid, vout, b, 0);
    }
}

/// The verification of a transaction depends on which transactions are
/// candidates, not on their order: for two candidate lists holding the same
/// transactions, each list without two of the same id, every input verifies
/// or fails alike, with the same diagnostic.
pub proof fn lemma_verification_order_independent(tx: TxModel, a: Seq<TxModel>, b: Seq<TxModel>)
    requires
        ids_unique(a),
        ids_unique(b),
        forall|t: TxModel| a.contains(t) <==> b.contains(t),
    ensures
        transaction_verifies(tx, a) == transaction_verifies(tx, b),
        forall|i: int|
            0 <= i < tx.inputs.len() ==> input_verifies(tx, i, a) == input_verifies(tx, i, b)
                && #[trigger] input_error_text(tx, i, a) == input_error_text(tx, i, b)
                && resolve(tx.inputs[i], a) == resolve(tx.inputs[i], b),
{
    assert forall|i: int| 0 <= i < tx.inputs.len() implies input_verifies(tx, i, a) == input_verifies(tx, i, b)
        && #[trigger] input_error_text(tx, i, a) == input_error_text(tx, i, b)
        && resolve(tx.inputs[i], a) == resolve(tx.inputs[i], b) by {
        lemma_resolve_same(tx.inputs[i], a, b);
    }
    if transaction_verifies(tx, a) {
        assert forall|i: int| 0 <= i < tx.inputs.len() implies input_verifies(tx, i, b) by {
            assert(input_verifies(tx, i, a));
            lemma_resolve_same(tx.inputs[i], a, b);
        }
    }
    if transaction_verifies(tx, b) {
        assert forall|i: int| 0 <= i < tx.inputs.len() implies input_verifies(tx, i, a) by {
            assert(input_verifies(tx, i, b));
            lemma_resolve_same(tx.inputs[i], a, b);
        }
    }
}

} // verus!
