//! Collects signatures for one input and answers the queries of a policy
//! satisfaction algorithm, then writes the witness it produced.
use crate::bitcoin_calls::{hash160, hash160_of};
use crate::error::Error;
use crate::transactions::RevaultTransaction;
use crate::txdata::{bytes_equal, with_satisfaction, RawTxIn, TxModel};
use vstd::prelude::*;

verus! {

/// A recorded signature: the signer's serialized public key, the DER
/// signature, and whether it was made with ALL|ANYONECANPAY (else ALL).
struct SigEntry {
    pubkey: Vec<u8>,
    sig: Vec<u8>,
    anyone_can_pay: bool,
}

/// A public key recorded under its HASH160.
struct KeyHashEntry {
    keyhash: [u8; 20],
    pubkey: Vec<u8>,
}

/// What a satisfier knows: the signature and mode recorded for each public
/// key, the public key recorded for each key hash, and the sequence of the
/// input being satisfied.
pub struct SatisfierModel {
    pub signatures: Map<Seq<u8>, (Seq<u8>, bool)>,
    pub keys_by_hash: Map<Seq<u8>, Seq<u8>>,
    pub sequence: u32,
}

/// The latest signature recorded for `key` among `entries`.
pub open spec fn latest_sig(entries: Seq<(Seq<u8>, Seq<u8>, bool)>, key: Seq<u8>) -> Option<(Seq<u8>, bool)>
    decreases entries.len(),
{
    if entries.len() == 0 {
        None
    } else if entries.last().0 == key {
        Some((entries.last().1, entries.last().2))
    } else {
        latest_sig(entries.drop_last(), key)
    }
}

/// The latest public key recorded for `keyhash` among `entries`.
pub open spec fn latest_key(entries: Seq<(Seq<u8>, Seq<u8>)>, keyhash: Seq<u8>) -> Option<Seq<u8>>
    decreases entries.len(),
{
    if entries.len() == 0 {
        None
    } else if entries.last().0 == keyhash {
        Some(entries.last().1)
    } else {
        latest_key(entries.drop_last(), keyhash)
    }
}

/// The oracle once `sig` (with its mode) is recorded for `pubkey`, and
/// `pubkey` under its HASH160.
pub open spec fn with_signature(m: SatisfierModel, pubkey: Seq<u8>, sig: Seq<u8>, anyone_can_pay: bool) -> SatisfierModel {
    SatisfierModel {
        signatures: m.signatures.insert(pubkey, (sig, anyone_can_pay)),
        keys_by_hash: m.keys_by_hash.insert(hash160_of(pubkey), pubkey),
        sequence: m.sequence,
    }
}

/// The signature oracle of one input.
pub struct RevaultInputSatisfier {
    pkhashmap: Vec<KeyHashEntry>,
    sigmap: Vec<SigEntry>,
    sequence: u32,
}

impl RevaultInputSatisfier {
    pub closed spec fn sig_entries(&self) -> Seq<(Seq<u8>, Seq<u8>, bool)> {
        self.sigmap@.map_values(|e: SigEntry| (e.pubkey@, e.sig@, e.anyone_can_pay))
    }

    pub closed spec fn key_entries(&self) -> Seq<(Seq<u8>, Seq<u8>)> {
        self.pkhashmap@.map_values(|e: KeyHashEntry| (e.keyhash@, e.pubkey@))
    }
}

impl View for RevaultInputSatisfier {
    type V = SatisfierModel;

    closed spec fn view(&self) -> SatisfierModel {
        SatisfierModel {
            signatures: Map::new(
                |k: Seq<u8>| latest_sig(self.sig_entries(), k) is Some,
                |k: Seq<u8>| latest_sig(self.sig_entries(), k).unwrap(),
            ),
            keys_by_hash: Map::new(
                |h: Seq<u8>| latest_key(self.key_entries(), h) is Some,
                |h: Seq<u8>| latest_key(self.key_entries(), h).unwrap(),
            ),
            sequence: self.sequence,
        }
    }
}

/// Copies a byte string.
fn copy_bytes(v: &Vec<u8>) -> (r: Vec<u8>)
    ensures
        r@ == v@,
{
    let r = v.clone();
    assert(r@ =~= v@);
    r
}

impl RevaultInputSatisfier {
    /// An oracle with no signature yet, for an input of sequence `sequence`.
    pub fn new(sequence: u32) -> (r: RevaultInputSatisfier)
        ensures
            r@.signatures == Map::<Seq<u8>, (Seq<u8>, bool)>::empty(),
            r@.keys_by_hash == Map::<Seq<u8>, Seq<u8>>::empty(),
            r@.sequence == sequence,
    {
        let r = RevaultInputSatisfier { pkhashmap: Vec::new(), sigmap: Vec::new(), sequence };
        assert(r@.signatures =~= Map::<Seq<u8>, (Seq<u8>, bool)>::empty());
        assert(r@.keys_by_hash =~= Map::<Seq<u8>, Seq<u8>>::empty());
        r
    }

    /// Position of the latest signature recorded for `key`.
    fn find_sig(&self, key: &Vec<u8>) -> (r: Option<usize>)
        ensures
            match r {
                Some(i) => i < self.sigmap@.len() && latest_sig(self.sig_entries(), key@) == Some(
                    (self.sigmap@[i as int].sig@, self.sigmap@[i as int].anyone_can_pay),
                ),
                None => latest_sig(self.sig_entries(), key@) is None,
            },
    {
        let ghost entries = self.sig_entries();
        let mut i: usize = self.sigmap.len();
        assert(entries.subrange(0, i as int) =~= entries);
        while i > 0
            invariant
                i <= self.sigmap@.len(),
                entries == self.sig_entries(),
                latest_sig(entries, key@) == latest_sig(entries.subrange(0, i as int), key@),
            decreases i,
        {
            let e = &self.sigmap[i - 1];
            let ghost prefix = entries.subrange(0, i as int);
            assert(prefix.last() == (e.pubkey@, e.sig@, e.anyone_can_pay));
            assert(prefix.drop_last() =~= entries.subrange(0, i - 1));
            if bytes_equal(e.pubkey.as_slice(), key.as_slice()) {
                return Some(i - 1);
            }
            i -= 1;
        }
        assert(entries.subrange(0, 0) =~= Seq::<(Seq<u8>, Seq<u8>, bool)>::empty());
        None
    }

    /// Position of the latest public key recorded for `keyhash`.
    fn find_key(&self, keyhash: &[u8; 20]) -> (r: Option<usize>)
        ensures
            match r {
                Some(i) => i < self.pkhashmap@.len() && latest_key(self.key_entries(), keyhash@)
                    == Some(self.pkhashmap@[i as int].pubkey@),
                None => latest_key(self.key_entries(), keyhash@) is None,
            },
    {
        let ghost entries = self.key_entries();
        let mut i: usize = self.pkhashmap.len();
        assert(entries.subrange(0, i as int) =~= entries);
        while i > 0
            invariant
                i <= self.pkhashmap@.len(),
                entries == self.key_entries(),
                latest_key(entries, keyhash@) == latest_key(entries.subrange(0, i as int), keyhash@),
            decreases i,
        {
            let e = &self.pkhashmap[i - 1];
            let ghost prefix = entries.subrange(0, i as int);
            assert(prefix.last() == (e.keyhash@, e.pubkey@));
            assert(prefix.drop_last() =~= entries.subrange(0, i - 1));
            if bytes_equal(e.keyhash.as_slice(), keyhash.as_slice()) {
                return Some(i - 1);
            }
            i -= 1;
        }
        assert(entries.subrange(0, 0) =~= Seq::<(Seq<u8>, Seq<u8>)>::empty());
        None
    }

    /// The signature and mode recorded for `key`, if any.
    pub fn lookup_sig(&self, key: &Vec<u8>) -> (r: Option<(Vec<u8>, bool)>)
        ensures
            r is Some <==> self@.signatures.contains_key(key@),
            r matches Some((s, a)) ==> self@.signatures[key@] == (s@, a),
    {
        match self.find_sig(key) {
            Some(i) => Some((copy_bytes(&self.sigmap[i].sig), self.sigmap[i].anyone_can_pay)),
            None => None,
        }
    }

    /// The public key recorded under `keyhash` and the signature and mode
    /// recorded for that key, if both are known.
    pub fn lookup_pkh_sig(&self, keyhash: &[u8; 20]) -> (r: Option<(Vec<u8>, (Vec<u8>, bool))>)
        ensures
            r is Some <==> (self@.keys_by_hash.contains_key(keyhash@)
                && self@.signatures.contains_key(self@.keys_by_hash[keyhash@])),
            r matches Some((k, (s, a))) ==> k@ == self@.keys_by_hash[keyhash@]
                && self@.signatures[k@] == (s@, a),
    {
        match self.find_key(keyhash) {
            Some(i) => {
                let key = copy_bytes(&self.pkhashmap[i].pubkey);
                match self.lookup_sig(&key) {
                    Some(sig) => Some((key, sig)),
                    None => None,
                }
            },
            None => None,
        }
    }

    /// Whether a relative timelock of `csv` is met: only when it is exactly
    /// the sequence of the input.
    pub fn check_after(&self, csv: u32) -> (r: bool)
        ensures
            r == (self@.sequence == csv),
    {
        self.sequence == csv
    }

    /// Records `sig` (mode ALL|ANYONECANPAY if `is_anyonecanpay`, else ALL)
    /// for `pubkey`, and the key under its HASH160; hands back what was
    /// recorded for `pubkey` before.
    pub fn insert_sig(&mut self, pubkey: Vec<u8>, sig: Vec<u8>, is_anyonecanpay: bool) -> (r: Option<(Vec<u8>, bool)>)
        ensures
            final(self)@ == with_signature(old(self)@, pubkey@, sig@, is_anyonecanpay),
            r is Some <==> old(self)@.signatures.contains_key(pubkey@),
            r matches Some((s, a)) ==> old(self)@.signatures[pubkey@] == (s@, a),
    {
        let previous = self.lookup_sig(&pubkey);
        let keyhash = hash160(&pubkey);
        let ghost old_sigs = self.sig_entries();
        let ghost old_keys = self.key_entries();
        let ghost pk = pubkey@;
        let ghost s = sig@;
        self.pkhashmap.push(KeyHashEntry { keyhash, pubkey: copy_bytes(&pubkey) });
        self.sigmap.push(SigEntry { pubkey, sig, anyone_can_pay: is_anyonecanpay });
        proof {
            assert(self.sig_entries() =~= old_sigs.push((pk, s, is_anyonecanpay)));
            assert(self.sig_entries().drop_last() =~= old_sigs);
            assert(self.key_entries() =~= old_keys.push((keyhash@, pk)));
            assert(self.key_entries().drop_last() =~= old_keys);
            assert(self@.signatures =~= old(self)@.signatures.insert(pk, (s, is_anyonecanpay)));
            assert(self@.keys_by_hash =~= old(self)@.keys_by_hash.insert(hash160_of(pk), pk));
            assert(self@ == with_signature(old(self)@, pk, s, is_anyonecanpay));
        }
        previous
    }
}

/// Drives the satisfaction of one input of a transaction.
pub struct RevaultSatisfier {
    input_index: usize,
    satisfier: RevaultInputSatisfier,
}

impl RevaultSatisfier {
    pub closed spec fn spec_input_index(&self) -> usize {
        self.input_index
    }

    pub closed spec fn spec_satisfier(&self) -> RevaultInputSatisfier {
        self.satisfier
    }

    /// A satisfier for input `input_index` of `transaction`, with no
    /// signature yet.
    ///
    /// # Errors
    /// - `Error::InputIndexOutOfBounds` if the transaction has no such input.
    pub fn new<T: RevaultTransaction>(transaction: &T, input_index: usize) -> (r: Result<RevaultSatisfier, Error>)
        ensures
            input_index >= transaction.spec_tx().input@.len() ==> r == Err::<RevaultSatisfier, Error>(
                Error::InputIndexOutOfBounds(input_index),
            ),
            input_index < transaction.spec_tx().input@.len() ==> (r matches Ok(s) && {
                &&& s.spec_input_index() == input_index
                &&& s.spec_satisfier()@.sequence == transaction.spec_tx().input@[input_index as int].sequence
                &&& s.spec_satisfier()@.signatures == Map::<Seq<u8>, (Seq<u8>, bool)>::empty()
                &&& s.spec_satisfier()@.keys_by_hash == Map::<Seq<u8>, Seq<u8>>::empty()
            }),
    {
        let tx = transaction.inner_tx();
        if input_index < tx.input.len() {
            Ok(RevaultSatisfier {
                input_index,
                satisfier: RevaultInputSatisfier::new(tx.input[input_index].sequence),
            })
        } else {
            Err(Error::InputIndexOutOfBounds(input_index))
        }
    }

    /// The index of the input being satisfied.
    pub fn input_index(&self) -> (r: usize)
        ensures
            r == self.spec_input_index(),
    {
        self.input_index
    }

    /// The signature oracle, to hand to a satisfaction algorithm.
    pub fn satisfier(&self) -> (r: &RevaultInputSatisfier)
        ensures
            *r == self.spec_satisfier(),
    {
        &self.satisfier
    }

    /// Records a signature for `pubkey` (see `RevaultInputSatisfier::insert_sig`).
    pub fn insert_sig(&mut self, pubkey: Vec<u8>, sig: Vec<u8>, is_anyonecanpay: bool) -> (r: Option<(Vec<u8>, bool)>)
        ensures
            final(self).spec_input_index() == old(self).spec_input_index(),
            final(self).spec_satisfier()@ == with_signature(
                old(self).spec_satisfier()@,
                pubkey@,
                sig@,
                is_anyonecanpay,
            ),
            r is Some <==> old(self).spec_satisfier()@.signatures.contains_key(pubkey@),
            r matches Some((s, a)) ==> old(self).spec_satisfier()@.signatures[pubkey@] == (s@, a),
    {
        self.satisfier.insert_sig(pubkey, sig, is_anyonecanpay)
    }

    /// Writes into the input the witness and signature script that the
    /// satisfaction algorithm built from this satisfier, or reports why it
    /// could not build one.
    ///
    /// # Errors
    /// - `Error::InputSatisfaction` with the algorithm's diagnostic if it failed;
    /// - `Error::InputIndexOutOfBounds` if `transaction` has no such input;
    /// - `Error::TransactionMismatch` if that input's sequence is not the one
    ///   this satisfier checks timelocks against (another transaction).
    /// The transaction is left unchanged on error.
    pub fn satisfy<T: RevaultTransaction>(
        &self,
        transaction: &mut T,
        satisfaction: Result<(Vec<Vec<u8>>, Vec<u8>), String>,
    ) -> (r: Result<(), Error>)
        ensures
            satisfaction matches Err(reason) ==> r == Err::<(), Error>(Error::InputSatisfaction(reason))
                && final(transaction).spec_tx() == old(transaction).spec_tx(),
            satisfaction is Ok && self.spec_input_index() >= old(transaction).spec_tx().input@.len()
                ==> r == Err::<(), Error>(Error::InputIndexOutOfBounds(self.spec_input_index()))
                && final(transaction).spec_tx() == old(transaction).spec_tx(),
            satisfaction is Ok && self.spec_input_index() < old(transaction).spec_tx().input@.len()
                && old(transaction).spec_tx().input@[self.spec_input_index() as int].sequence
                != self.spec_satisfier()@.sequence ==> r == Err::<(), Error>(
                Error::TransactionMismatch(self.spec_input_index()),
            ) && final(transaction).spec_tx() == old(transaction).spec_tx(),
            satisfaction matches Ok((witness, script_sig)) ==> (self.spec_input_index()
                < old(transaction).spec_tx().input@.len() && old(transaction).spec_tx().input@[
                self.spec_input_index() as int].sequence == self.spec_satisfier()@.sequence ==> (r is Ok
                && final(transaction).spec_tx()@ == with_satisfaction(
                old(transaction).spec_tx()@,
                self.spec_input_index() as int,
                witness@.map_values(|w: Vec<u8>| w@),
                script_sig@,
            ))),
    {
        match satisfaction {
            Err(reason) => Err(Error::InputSatisfaction(reason)),
            Ok((witness, script_sig)) => {
                let index = self.input_index;
                if index >= transaction.inner_tx().input.len() {
                    return Err(Error::InputIndexOutOfBounds(index));
                }
                if transaction.inner_tx().input[index].sequence != self.satisfier.sequence {
                    return Err(Error::TransactionMismatch(index));
                }
                let tx = transaction.inner_tx_mut();
                let ghost before = *tx;
                let txin = RawTxIn {
                    previous_output: tx.input[index].previous_output,
                    script_sig,
                    sequence: tx.input[index].sequence,
                    witness,
                };
                tx.input.set(index, txin);
                proof {
                    assert(tx@.inputs =~= with_satisfaction(
                        before@,
                        index as int,
                        txin@.witness,
                        txin@.script_sig,
                    ).inputs);
                }
                Ok(())
            },
        }
    }
}

/// Recording the same signature for the same key twice leaves the oracle as
/// recording it once.
pub proof fn lemma_insert_sig_idempotent(
    m: SatisfierModel,
    pubkey: Seq<u8>,
    sig: Seq<u8>,
    anyone_can_pay: bool,
)
    ensures
        with_signature(with_signature(m, pubkey, sig, anyone_can_pay), pubkey, sig, anyone_can_pay)
            == with_signature(m, pubkey, sig, anyone_can_pay),
{
    let once = with_signature(m, pubkey, sig, anyone_can_pay);
    let twice = with_signature(once, pubkey, sig, anyone_can_pay);
    assert(twice.signatures =~= once.signatures);
    assert(twice.keys_by_hash =~= once.keys_by_hash);
}

/// Writing the same witness and signature script into an input a second
/// time changes nothing, and keeps the input's sequence (so that a satisfier
/// accepts the transaction again).
pub proof fn lemma_satisfy_idempotent(tx: TxModel, index: int, witness: Seq<Seq<u8>>, script_sig: Seq<u8>)
    requires
        0 <= index < tx.inputs.len(),
    ensures
        with_satisfaction(with_satisfaction(tx, index, witness, script_sig), index, witness, script_sig)
            == with_satisfaction(tx, index, witness, script_sig),
        with_satisfaction(tx, index, witness, script_sig).inputs[index].sequence
            == tx.inputs[index].sequence,
{
    let once = with_satisfaction(tx, index, witness, script_sig);
    let twice = with_satisfaction(once, index, witness, script_sig);
    assert(twice.inputs =~= once.inputs);
}

} // verus!
