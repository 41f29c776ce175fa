//! The transaction variants of the protocol, their constructors and the
//! signature hashes of their inputs.
use crate::bitcoin_calls::{
    compute_txid, consensus_encoding, consensus_serialize, p2wsh_sighash, segwit_v0_sighash,
    txid_of,
};
use crate::error::Error;
use crate::roles::{
    CancelPrevTxout, CpfpTxOut, EmergencyPrevTxout, EmergencyTxOut, FeeBumpPrevout,
    RevaultPrevout, RevaultTxOut, SpendTxOut, UnvaultEmerPrevTxout, UnvaultPrevout, UnvaultTxOut,
    VaultPrevout, VaultTxOut,
};
use crate::txdata::{
    strip_signatures, strip_witnesses, unsigned_input, with_satisfaction, OutPoint, OutputModel,
    RawTransaction, RawTxIn, RawTxOut, TxModel,
};
use vstd::prelude::*;

verus! {

/// The sequence of an input that signals replaceability (BIP125).
pub const RBF_SEQUENCE: u32 = 0xFFFF_FFFD;

/// The version of every transaction built here.
pub const TX_VERSION: i32 = 2;

/// The transaction spending `inputs` (outpoint and sequence, in order) to
/// `outputs`, as assembled by this library: version 2, lock time zero, no
/// signature data yet.
pub open spec fn assembled(inputs: Seq<(OutPoint, u32)>, outputs: Seq<OutputModel>) -> TxModel {
    TxModel {
        version: 2,
        lock_time: 0,
        inputs: inputs.map_values(|p: (OutPoint, u32)| unsigned_input(p.0, p.1)),
        outputs,
    }
}

/// The inputs of a revaulting transaction: its main input, then the fee-bump
/// input if there is one, all with the replaceable sequence.
pub open spec fn revaulting_inputs(main: OutPoint, feebump: Option<OutPoint>) -> Seq<(OutPoint, u32)> {
    match feebump {
        Some(f) => seq![(main, RBF_SEQUENCE), (f, RBF_SEQUENCE)],
        None => seq![(main, RBF_SEQUENCE)],
    }
}

/// Lower-case hexadecimal digit of `n < 16`, as an ASCII byte.
pub open spec fn hex_digit(n: u8) -> u8 {
    if n < 10 {
        (48 + n) as u8
    } else {
        (87 + n) as u8
    }
}

/// Lower-case hexadecimal text of `bytes`, two digits per byte.
pub open spec fn hex_text(bytes: Seq<u8>) -> Seq<u8>
    decreases bytes.len(),
{
    if bytes.len() == 0 {
        Seq::empty()
    } else {
        let b = bytes.last();
        hex_text(bytes.drop_last()) + seq![hex_digit(b / 16), hex_digit(b % 16)]
    }
}

/// Builds a transaction from its inputs and outputs.
fn create_tx(inputs: Vec<(OutPoint, u32)>, outputs: Vec<RawTxOut>) -> (r: RawTransaction)
    ensures
        r@ == assembled(inputs@, outputs@.map_values(|o: RawTxOut| o@)),
{
    let mut txins: Vec<RawTxIn> = Vec::new();
    let mut i: usize = 0;
    while i < inputs.len()
        invariant
            i <= inputs@.len(),
            txins@.len() == i,
            forall|j: int|
                0 <= j < i ==> #[trigger] txins@[j]@ == unsigned_input(inputs@[j].0, inputs@[j].1),
        decreases inputs@.len() - i,
    {
        let (prevout, sequence) = inputs[i];
        let txin = RawTxIn {
            previous_output: prevout,
            script_sig: Vec::new(),
            sequence,
            witness: Vec::new(),
        };
        assert(txin@.witness =~= Seq::empty());
        txins.push(txin);
        i += 1;
    }
    let r = RawTransaction { version: TX_VERSION, lock_time: 0, input: txins, output: outputs };
    assert(r@.inputs =~= assembled(inputs@, outputs@.map_values(|o: RawTxOut| o@)).inputs);
    r
}

/// Builds the transaction of a revaulting variant.
fn create_revaulting_tx(main: OutPoint, feebump: Option<OutPoint>, txout: RawTxOut) -> (r: RawTransaction)
    ensures
        r@ == assembled(revaulting_inputs(main, feebump), seq![txout@]),
{
    let inputs = match feebump {
        Some(f) => vec![(main, RBF_SEQUENCE), (f, RBF_SEQUENCE)],
        None => vec![(main, RBF_SEQUENCE)],
    };
    assert(inputs@ =~= revaulting_inputs(main, feebump));
    let outputs = vec![txout];
    assert(outputs@.map_values(|o: RawTxOut| o@) =~= seq![txout@]);
    create_tx(inputs, outputs)
}

/// The BIP143 signature hash of an input, with mode ALL or ALL|ANYONECANPAY.
fn sighash(
    tx: &RawTransaction,
    input_index: usize,
    previous_txout: &RawTxOut,
    script_code: &Vec<u8>,
    is_anyonecanpay: bool,
) -> (r: [u8; 32])
    requires
        input_index < tx.input@.len(),
    ensures
        r@ == segwit_v0_sighash(
            strip_signatures(tx@),
            input_index as int,
            script_code@,
            previous_txout.value,
            is_anyonecanpay,
        ),
{
    match p2wsh_sighash(tx, input_index, script_code, previous_txout.value, is_anyonecanpay) {
        Some(h) => h,
        None => {
            proof {
                assert(false);
            }
            [0u8; 32]
        },
    }
}

/// Turns ASCII bytes into a string.
/// Relies on std's `String::from_utf8`, which accepts every ASCII sequence.
#[verifier::external_body]
fn ascii_string(bytes: Vec<u8>) -> (r: String)
    requires
        forall|i: int| 0 <= i < bytes@.len() ==> bytes@[i] < 128,
    ensures
        r@ == bytes@.map_values(|b: u8| b as char),
{
    String::from_utf8(bytes).unwrap_or_default()
}

/// Lower-case hexadecimal text of `bytes`.
pub fn to_hex(bytes: &Vec<u8>) -> (r: String)
    ensures
        r@ == hex_text(bytes@).map_values(|b: u8| b as char),
{
    let mut text: Vec<u8> = Vec::new();
    let mut i: usize = 0;
    while i < bytes.len()
        invariant
            i <= bytes@.len(),
            text@ == hex_text(bytes@.subrange(0, i as int)),
            forall|k: int| 0 <= k < text@.len() ==> text@[k] < 128,
        decreases bytes@.len() - i,
    {
        let b = bytes[i];
        let hi = b / 16;
        let lo = b % 16;
        let d_hi: u8 = if hi < 10 { 48 + hi } else { 87 + hi };
        let d_lo: u8 = if lo < 10 { 48 + lo } else { 87 + lo };
        proof {
            let s = bytes@.subrange(0, i + 1);
            assert(s.drop_last() =~= bytes@.subrange(0, i as int));
            assert(s.last() == b);
        }
        text.push(d_hi);
        text.push(d_lo);
        i += 1;
    }
    assert(bytes@.subrange(0, bytes@.len() as int) =~= bytes@);
    ascii_string(text)
}

/// A transaction of the protocol, wrapping one raw transaction.
pub trait RevaultTransaction {
    spec fn spec_tx(&self) -> RawTransaction;

    /// The raw transaction.
    fn inner_tx(&self) -> (r: &RawTransaction)
        ensures
            *r == self.spec_tx(),
    ;

    /// Mutable access to the raw transaction.
    fn inner_tx_mut(&mut self) -> (r: &mut RawTransaction)
        ensures
            *r == old(self).spec_tx(),
            final(self).spec_tx() == *final(r),
    ;

    /// Output `vout` of this transaction, as an outpoint for a later transaction.
    fn into_prevout(&self, vout: u32) -> (r: OutPoint)
        ensures
            r.txid@ == txid_of(strip_witnesses(self.spec_tx()@)),
            r.vout == vout,
    {
        OutPoint { txid: compute_txid(self.inner_tx()), vout }
    }

    /// The consensus encoding of the transaction.
    fn serialize(&self) -> (r: Vec<u8>)
        ensures
            r@ == consensus_encoding(self.spec_tx()@),
    {
        consensus_serialize(self.inner_tx())
    }

    /// The lower-case hexadecimal text of the consensus encoding.
    fn hex(&self) -> (r: Result<String, Error>)
        ensures
            r matches Ok(s) && s@ == hex_text(consensus_encoding(self.spec_tx()@)).map_values(
                |b: u8| b as char,
            ),
    {
        Ok(to_hex(&self.serialize()))
    }
}

/// The unvaulting transaction: spends a vault output, and is eventually spent
/// by a spend transaction unless it is revaulted.
#[derive(Debug)]
pub struct UnvaultTransaction(RawTransaction);

/// The transaction "revaulting" a spend attempt: spends the unvault output
/// back to a vault output.
#[derive(Debug)]
pub struct CancelTransaction(RawTransaction);

/// The transaction spending a vault output to the emergency script.
#[derive(Debug)]
pub struct EmergencyTransaction(RawTransaction);

/// The transaction spending an unvault output to the emergency script.
#[derive(Debug)]
pub struct UnvaultEmergencyTransaction(RawTransaction);

/// The transaction spending unvault outputs to outside addresses, and
/// possibly to a new vault output for the change.
#[derive(Debug)]
pub struct SpendTransaction(RawTransaction);

/// The funding transaction: not built here, wrapped for verification.
#[derive(Debug)]
pub struct VaultTransaction(RawTransaction);

/// The fee-bumping transaction: not built here, wrapped for verification.
#[derive(Debug)]
pub struct FeeBumpTransaction(RawTransaction);

impl RevaultTransaction for UnvaultTransaction {
    closed spec fn spec_tx(&self) -> RawTransaction {
        self.0
    }

    fn inner_tx(&self) -> (r: &RawTransaction) {
        &self.0
    }

    fn inner_tx_mut(&mut self) -> (r: &mut RawTransaction) {
        &mut self.0
    }
}

impl RevaultTransaction for CancelTransaction {
    closed spec fn spec_tx(&self) -> RawTransaction {
        self.0
    }

    fn inner_tx(&self) -> (r: &RawTransaction) {
        &self.0
    }

    fn inner_tx_mut(&mut self) -> (r: &mut RawTransaction) {
        &mut self.0
    }
}

impl RevaultTransaction for EmergencyTransaction {
    closed spec fn spec_tx(&self) -> RawTransaction {
        self.0
    }

    fn inner_tx(&self) -> (r: &RawTransaction) {
        &self.0
    }

    fn inner_tx_mut(&mut self) -> (r: &mut RawTransaction) {
        &mut self.0
    }
}

impl RevaultTransaction for UnvaultEmergencyTransaction {
    closed spec fn spec_tx(&self) -> RawTransaction {
        self.0
    }

    fn inner_tx(&self) -> (r: &RawTransaction) {
        &self.0
    }

    fn inner_tx_mut(&mut self) -> (r: &mut RawTransaction) {
        &mut self.0
    }
}

impl RevaultTransaction for SpendTransaction {
    closed spec fn spec_tx(&self) -> RawTransaction {
        self.0
    }

    fn inner_tx(&self) -> (r: &RawTransaction) {
        &self.0
    }

    fn inner_tx_mut(&mut self) -> (r: &mut RawTransaction) {
        &mut self.0
    }
}

impl RevaultTransaction for VaultTransaction {
    closed spec fn spec_tx(&self) -> RawTransaction {
        self.0
    }

    fn inner_tx(&self) -> (r: &RawTransaction) {
        &self.0
    }

    fn inner_tx_mut(&mut self) -> (r: &mut RawTransaction) {
        &mut self.0
    }
}

impl RevaultTransaction for FeeBumpTransaction {
    closed spec fn spec_tx(&self) -> RawTransaction {
        self.0
    }

    fn inner_tx(&self) -> (r: &RawTransaction) {
        &self.0
    }

    fn inner_tx_mut(&mut self) -> (r: &mut RawTransaction) {
        &mut self.0
    }
}

impl UnvaultTransaction {
    /// Spends one vault output, with the given sequence, to an unvault output
    /// and a CPFP output, in this order.
    pub fn new(
        vault_input: (VaultPrevout, u32),
        unvault_txout: UnvaultTxOut,
        cpfp_txout: CpfpTxOut,
    ) -> (r: UnvaultTransaction)
        ensures
            r.spec_tx()@ == assembled(
                seq![(vault_input.0.spec_outpoint(), vault_input.1)],
                seq![unvault_txout.spec_txout(), cpfp_txout.spec_txout()],
            ),
    {
        let inputs = vec![(vault_input.0.outpoint(), vault_input.1)];
        assert(inputs@ =~= seq![(vault_input.0.spec_outpoint(), vault_input.1)]);
        let outputs = vec![unvault_txout.get_txout(), cpfp_txout.get_txout()];
        assert(outputs@.map_values(|o: RawTxOut| o@) =~= seq![
            unvault_txout.spec_txout(),
            cpfp_txout.spec_txout(),
        ]);
        UnvaultTransaction(create_tx(inputs, outputs))
    }

    /// Signature hash of an input spending a vault output; always signs
    /// every input and output.
    pub fn signature_hash(
        &self,
        input_index: usize,
        previous_txout: &VaultTxOut,
        script_code: &Vec<u8>,
    ) -> (r: [u8; 32])
        requires
            input_index < self.spec_tx().input@.len(),
        ensures
            r@ == segwit_v0_sighash(
                strip_signatures(self.spec_tx()@),
                input_index as int,
                script_code@,
                previous_txout.spec_txout().value,
                false,
            ),
    {
        sighash(&self.0, input_index, previous_txout.inner_txout(), script_code, false)
    }
}

impl CancelTransaction {
    /// Spends the unvault output, then the fee-bump output if any, both
    /// replaceable, to one vault output.
    pub fn new(
        unvault_input: UnvaultPrevout,
        feebump_input: Option<FeeBumpPrevout>,
        vault_txout: VaultTxOut,
    ) -> (r: CancelTransaction)
        ensures
            r.spec_tx()@ == assembled(
                revaulting_inputs(
                    unvault_input.spec_outpoint(),
                    match feebump_input {
                        Some(f) => Some(f.spec_outpoint()),
                        None => None,
                    },
                ),
                seq![vault_txout.spec_txout()],
            ),
    {
        let feebump = match feebump_input {
            Some(f) => Some(f.outpoint()),
            None => None,
        };
        CancelTransaction(create_revaulting_tx(unvault_input.outpoint(), feebump, vault_txout.get_txout()))
    }

    /// Signature hash of an input spending an unvault or a fee-bump output.
    pub fn signature_hash<T: CancelPrevTxout>(
        &self,
        input_index: usize,
        previous_txout: &T,
        script_code: &Vec<u8>,
        is_anyonecanpay: bool,
    ) -> (r: [u8; 32])
        requires
            input_index < self.spec_tx().input@.len(),
        ensures
            r@ == segwit_v0_sighash(
                strip_signatures(self.spec_tx()@),
                input_index as int,
                script_code@,
                previous_txout.spec_txout().value,
                is_anyonecanpay,
            ),
    {
        sighash(&self.0, input_index, previous_txout.inner_txout(), script_code, is_anyonecanpay)
    }
}

impl EmergencyTransaction {
    /// Spends a vault output, then the fee-bump output if any, both
    /// replaceable, to one emergency output.
    pub fn new(
        vault_input: VaultPrevout,
        feebump_input: Option<FeeBumpPrevout>,
        emer_txout: EmergencyTxOut,
    ) -> (r: EmergencyTransaction)
        ensures
            r.spec_tx()@ == assembled(
                revaulting_inputs(
                    vault_input.spec_outpoint(),
                    match feebump_input {
                        Some(f) => Some(f.spec_outpoint()),
                        None => None,
                    },
                ),
                seq![emer_txout.spec_txout()],
            ),
    {
        let feebump = match feebump_input {
            Some(f) => Some(f.outpoint()),
            None => None,
        };
        EmergencyTransaction(create_revaulting_tx(vault_input.outpoint(), feebump, emer_txout.get_txout()))
    }

    /// Signature hash of an input spending a vault or a fee-bump output.
    pub fn signature_hash<T: EmergencyPrevTxout>(
        &self,
        input_index: usize,
        previous_txout: &T,
        script_code: &Vec<u8>,
        is_anyonecanpay: bool,
    ) -> (r: [u8; 32])
        requires
            input_index < self.spec_tx().input@.len(),
        ensures
            r@ == segwit_v0_sighash(
                strip_signatures(self.spec_tx()@),
                input_index as int,
                script_code@,
                previous_txout.spec_txout().value,
                is_anyonecanpay,
            ),
    {
        sighash(&self.0, input_index, previous_txout.inner_txout(), script_code, is_anyonecanpay)
    }
}

impl UnvaultEmergencyTransaction {
    /// Spends an unvault output, then the fee-bump output if any, both
    /// replaceable, to one emergency output.
    pub fn new(
        unvault_input: UnvaultPrevout,
        feebump_input: Option<FeeBumpPrevout>,
        emer_txout: EmergencyTxOut,
    ) -> (r: UnvaultEmergencyTransaction)
        ensures
            r.spec_tx()@ == assembled(
                revaulting_inputs(
                    unvault_input.spec_outpoint(),
                    match feebump_input {
                        Some(f) => Some(f.spec_outpoint()),
                        None => None,
                    },
                ),
                seq![emer_txout.spec_txout()],
            ),
    {
        let feebump = match feebump_input {
            Some(f) => Some(f.outpoint()),
            None => None,
        };
        UnvaultEmergencyTransaction(
            create_revaulting_tx(unvault_input.outpoint(), feebump, emer_txout.get_txout()),
        )
    }

    /// Signature hash of an input spending an unvault or a fee-bump output.
    pub fn signature_hash<T: UnvaultEmerPrevTxout>(
        &self,
        input_index: usize,
        previous_txout: &T,
        script_code: &Vec<u8>,
        is_anyonecanpay: bool,
    ) -> (r: [u8; 32])
        requires
            input_index < self.spec_tx().input@.len(),
        ensures
            r@ == segwit_v0_sighash(
                strip_signatures(self.spec_tx()@),
                input_index as int,
                script_code@,
                previous_txout.spec_txout().value,
                is_anyonecanpay,
            ),
    {
        sighash(&self.0, input_index, previous_txout.inner_txout(), script_code, is_anyonecanpay)
    }
}

impl SpendTransaction {
    /// Spends the unvault outputs, in order and all with `sequence` (the
    /// relative timelock of the unvault policy), to the given outputs in order.
    ///
    /// # Errors
    /// - `Error::NoSpendInput` if there is no unvault output to spend.
    /// - `Error::NoSpendOutput` (when there are inputs) if there is no output.
    pub fn new(
        unvault_inputs: &[UnvaultPrevout],
        spend_txouts: Vec<SpendTxOut>,
        sequence: u32,
    ) -> (r: Result<SpendTransaction, Error>)
        ensures
            unvault_inputs@.len() == 0 ==> r == Err::<SpendTransaction, Error>(Error::NoSpendInput),
            unvault_inputs@.len() > 0 && spend_txouts@.len() == 0 ==> r == Err::<
                SpendTransaction,
                Error,
            >(Error::NoSpendOutput),
            unvault_inputs@.len() > 0 && spend_txouts@.len() > 0 ==> (r matches Ok(t) && t.spec_tx()@
                == assembled(
                unvault_inputs@.map_values(|p: UnvaultPrevout| (p.spec_outpoint(), sequence)),
                spend_txouts@.map_values(|o: SpendTxOut| o.spec_txout()),
            )),
    {
        if unvault_inputs.len() == 0 {
            return Err(Error::NoSpendInput);
        }
        if spend_txouts.len() == 0 {
            return Err(Error::NoSpendOutput);
        }
        let mut inputs: Vec<(OutPoint, u32)> = Vec::new();
        let mut i: usize = 0;
        while i < unvault_inputs.len()
            invariant
                i <= unvault_inputs@.len(),
                inputs@ =~= unvault_inputs@.subrange(0, i as int).map_values(
                    |p: UnvaultPrevout| (p.spec_outpoint(), sequence),
                ),
            decreases unvault_inputs@.len() - i,
        {
            inputs.push((unvault_inputs[i].outpoint(), sequence));
            i += 1;
        }
        assert(unvault_inputs@.subrange(0, i as int) =~= unvault_inputs@);
        let ghost txouts = spend_txouts@;
        let ghost n = txouts.len();
        let mut txouts_left = spend_txouts;
        let mut reversed: Vec<RawTxOut> = Vec::new();
        while txouts_left.len() > 0
            invariant
                n == txouts.len(),
                reversed@.len() + txouts_left@.len() == n,
                txouts_left@ == txouts.subrange(0, txouts_left@.len() as int),
                forall|j: int|
                    0 <= j < reversed@.len() ==> #[trigger] reversed@[j]@ == txouts[n - 1 - j].spec_txout(),
            decreases txouts_left@.len(),
        {
            let o = txouts_left.pop().unwrap();
            reversed.push(o.get_txout());
        }
        let mut outputs: Vec<RawTxOut> = Vec::new();
        while reversed.len() > 0
            invariant
                n == txouts.len(),
                reversed@.len() + outputs@.len() == n,
                forall|j: int|
                    0 <= j < reversed@.len() ==> #[trigger] reversed@[j]@ == txouts[n - 1 - j].spec_txout(),
                forall|j: int| 0 <= j < outputs@.len() ==> #[trigger] outputs@[j]@ == txouts[j].spec_txout(),
            decreases reversed@.len(),
        {
            let o = reversed.pop().unwrap();
            outputs.push(o);
        }
        let r = create_tx(inputs, outputs);
        assert(outputs@.map_values(|o: RawTxOut| o@) =~= txouts.map_values(|o: SpendTxOut| o.spec_txout()));
        Ok(SpendTransaction(r))
    }

    /// Signature hash of an input spending an unvault output; always signs
    /// every input and output.
    pub fn signature_hash(
        &self,
        input_index: usize,
        previous_txout: &UnvaultTxOut,
        script_code: &Vec<u8>,
    ) -> (r: [u8; 32])
        requires
            input_index < self.spec_tx().input@.len(),
        ensures
            r@ == segwit_v0_sighash(
                strip_signatures(self.spec_tx()@),
                input_index as int,
                script_code@,
                previous_txout.spec_txout().value,
                false,
            ),
    {
        sighash(&self.0, input_index, previous_txout.inner_txout(), script_code, false)
    }
}

impl VaultTransaction {
    /// Wraps a funding transaction observed on the network.
    pub fn new(tx: RawTransaction) -> (r: VaultTransaction)
        ensures
            r.spec_tx() == tx,
    {
        VaultTransaction(tx)
    }
}

impl FeeBumpTransaction {
    /// Wraps a fee-bumping transaction observed on the network.
    pub fn new(tx: RawTransaction) -> (r: FeeBumpTransaction)
        ensures
            r.spec_tx() == tx,
    {
        FeeBumpTransaction(tx)
    }
}

/// The signature hash is a function of the transaction without its signature
/// data, the input index, the script code, the spent amount and the mode:
/// two transactions that differ only in witnesses or signature scripts give
/// every input the same signature hash, and asking twice gives the same hash.
pub proof fn lemma_sighash_deterministic(
    a: TxModel,
    b: TxModel,
    input_index: int,
    script_code: Seq<u8>,
    value: u64,
    anyone_can_pay: bool,
)
    requires
        strip_signatures(a) == strip_signatures(b),
    ensures
        segwit_v0_sighash(strip_signatures(a), input_index, script_code, value, anyone_can_pay)
            == segwit_v0_sighash(strip_signatures(b), input_index, script_code, value, anyone_can_pay),
{
}

/// A signature hash commits to no witness and no signature script: writing
/// the satisfaction of any input (this one or another) leaves the signature
/// hash of every input as it was.
pub proof fn lemma_sighash_ignores_satisfaction(
    tx: TxModel,
    satisfied_index: int,
    witness: Seq<Seq<u8>>,
    script_sig: Seq<u8>,
    input_index: int,
    script_code: Seq<u8>,
    value: u64,
    anyone_can_pay: bool,
)
    requires
        0 <= satisfied_index < tx.inputs.len(),
    ensures
        segwit_v0_sighash(
            strip_signatures(with_satisfaction(tx, satisfied_index, witness, script_sig)),
            input_index,
            script_code,
            value,
            anyone_can_pay,
        ) == segwit_v0_sighash(strip_signatures(tx), input_index, script_code, value, anyone_can_pay),
{
    let satisfied = with_satisfaction(tx, satisfied_index, witness, script_sig);
    assert(strip_signatures(satisfied).inputs =~= strip_signatures(tx).inputs);
}

/// The id of a transaction does not depend on its witnesses: writing a
/// witness into an input, with its signature script unchanged, keeps the
/// outpoints that later transactions use to spend it.
pub proof fn lemma_txid_ignores_witness(tx: TxModel, satisfied_index: int, witness: Seq<Seq<u8>>)
    requires
        0 <= satisfied_index < tx.inputs.len(),
    ensures
        txid_of(
            strip_witnesses(
                with_satisfaction(tx, satisfied_index, witness, tx.inputs[satisfied_index].script_sig),
            ),
        ) == txid_of(strip_witnesses(tx)),
{
    let satisfied = with_satisfaction(tx, satisfied_index, witness, tx.inputs[satisfied_index].script_sig);
    assert(strip_witnesses(satisfied).inputs =~= strip_witnesses(tx).inputs);
}

} // verus!
