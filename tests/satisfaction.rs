use std::str::FromStr;

use bitcoin::secp256k1::{self, Secp256k1};
use miniscript::{Descriptor, Satisfier};

use revault_tx::error::Error;
use revault_tx::roles::{
    CpfpTxOut, EmergencyTxOut, ExternalTxOut, FeeBumpPrevout, FeeBumpTxOut, SpendTxOut,
    UnvaultPrevout, UnvaultTxOut, VaultPrevout, VaultTxOut,
};
use revault_tx::satisfier::{RevaultInputSatisfier, RevaultSatisfier};
use revault_tx::transactions::{
    CancelTransaction, EmergencyTransaction, FeeBumpTransaction, RevaultTransaction,
    SpendTransaction, UnvaultEmergencyTransaction, UnvaultTransaction, VaultTransaction,
};
use revault_tx::txdata::{OutPoint, RawTransaction, RawTxIn, RawTxOut};
use revault_tx::verification::verify_revault_transaction;

struct Oracle<'a>(&'a RevaultInputSatisfier);

fn ecdsa_sig(sig: (Vec<u8>, bool)) -> Option<bitcoin::ecdsa::Signature> {
    let sighash_type = if sig.1 {
        bitcoin::EcdsaSighashType::AllPlusAnyoneCanPay
    } else {
        bitcoin::EcdsaSighashType::All
    };
    let signature = secp256k1::ecdsa::Signature::from_der(&sig.0).ok()?;
    Some(bitcoin::ecdsa::Signature { signature, sighash_type })
}

impl<'a> Satisfier<bitcoin::PublicKey> for Oracle<'a> {
    fn lookup_ecdsa_sig(&self, key: &bitcoin::PublicKey) -> Option<bitcoin::ecdsa::Signature> {
        self.0.lookup_sig(&key.to_bytes()).and_then(ecdsa_sig)
    }

    fn lookup_raw_pkh_ecdsa_sig(
        &self,
        keyhash: &bitcoin::hashes::hash160::Hash,
    ) -> Option<(bitcoin::PublicKey, bitcoin::ecdsa::Signature)> {
        let (key, sig) = self.0.lookup_pkh_sig(&bitcoin::hashes::Hash::to_byte_array(*keyhash))?;
        Some((bitcoin::PublicKey::from_slice(&key).ok()?, ecdsa_sig(sig)?))
    }

    fn check_older(&self, csv: bitcoin::relative::LockTime) -> bool {
        self.0.check_after(csv.to_consensus_u32())
    }
}

struct Participant {
    secret: secp256k1::SecretKey,
    public: bitcoin::PublicKey,
}

fn participant(secp: &Secp256k1<secp256k1::All>, seed: u8) -> Participant {
    let secret = secp256k1::SecretKey::from_slice(&[seed; 32]).unwrap();
    let public = bitcoin::PublicKey::new(secp256k1::PublicKey::from_secret_key(secp, &secret));
    Participant { secret, public }
}

fn keys(ps: &[Participant]) -> String {
    ps.iter().map(|p| p.public.to_string()).collect::<Vec<_>>().join(",")
}

fn sign_input<T: RevaultTransaction>(
    secp: &Secp256k1<secp256k1::All>,
    tx: &mut T,
    input_index: usize,
    sighash: [u8; 32],
    descriptor: &Descriptor<bitcoin::PublicKey>,
    signers: &[&Participant],
    is_anyonecanpay: bool,
) -> Result<(), Error> {
    let mut sat = RevaultSatisfier::new(tx, input_index).expect("Creating satisfier.");
    for p in signers {
        let sig = secp.sign_ecdsa(&secp256k1::Message::from_digest(sighash), &p.secret);
        sat.insert_sig(p.public.to_bytes(), sig.serialize_der().to_vec(), is_anyonecanpay);
    }
    let outcome = descriptor
        .get_satisfaction(Oracle(sat.satisfier()))
        .map(|(witness, script_sig)| (witness, script_sig.into_bytes()))
        .map_err(|e| format!("Script satisfaction error: {}.", e));
    sat.satisfy(tx, outcome)
}

fn txin(prevout: OutPoint) -> RawTxIn {
    RawTxIn { previous_output: prevout, script_sig: Vec::new(), sequence: u32::MAX, witness: Vec::new() }
}

fn expect_script_error(result: Result<(), Error>, index: usize) {
    match result {
        Err(Error::ScriptVerification { input_index, reason }) => {
            assert_eq!(input_index, index);
            assert_eq!(reason, "ERR_SCRIPT");
        }
        other => panic!("expected a script verification error, got {:?}", other),
    }
}

#[test]
fn test_transaction_chain_satisfaction() {
    const CSV_VALUE: u32 = 42;
    let secp = Secp256k1::new();
    let managers: Vec<Participant> = (1..4).map(|i| participant(&secp, i)).collect();
    let non_managers: Vec<Participant> = (4..12).map(|i| participant(&secp, i)).collect();
    let cosigners: Vec<Participant> = (12..20).map(|i| participant(&secp, i)).collect();
    let all: Vec<&Participant> = managers.iter().chain(non_managers.iter()).collect();
    let spenders: Vec<&Participant> = managers.iter().chain(cosigners.iter()).collect();

    let vault_descriptor = Descriptor::<bitcoin::PublicKey>::from_str(&format!(
        "wsh(multi(11,{},{}))",
        keys(&managers),
        keys(&non_managers)
    ))
    .expect("Vault descriptor generation error");
    let unvault_descriptor = Descriptor::<bitcoin::PublicKey>::from_str(&format!(
        "wsh(or_d(multi(11,{},{}),and_v(v:multi(3,{}),and_v(v:multi(8,{}),older({})))))",
        keys(&managers),
        keys(&non_managers),
        keys(&managers),
        keys(&cosigners),
        CSV_VALUE
    ))
    .expect("Unvault descriptor generation error");
    let cpfp_descriptor =
        Descriptor::<bitcoin::PublicKey>::from_str(&format!("wsh(multi(1,{}))", keys(&managers)))
            .expect("Unvault CPFP descriptor generation error");
    let vault_script = vault_descriptor.script_code().unwrap().into_bytes();
    let unvault_script = unvault_descriptor.script_code().unwrap().into_bytes();

    // The funding transaction
    let vault_txo = RawTxOut { value: 360, script_pubkey: vault_descriptor.script_pubkey().into_bytes() };
    let vault_tx = VaultTransaction::new(RawTransaction {
        version: 2,
        lock_time: 0,
        input: vec![txin(OutPoint { txid: [0x39u8; 32], vout: 0 })],
        output: vec![vault_txo.clone()],
    });
    let vault_prevout = VaultPrevout(vault_tx.into_prevout(0));

    // The fee-bumping utxo, from an outside wallet
    let feebump_key = participant(&secp, 42);
    let feebump_descriptor = Descriptor::new_wpkh(feebump_key.public).unwrap();
    let feebump_script = feebump_descriptor.script_code().unwrap().into_bytes();
    let feebump_txo = RawTxOut { value: 56730, script_pubkey: feebump_descriptor.script_pubkey().into_bytes() };
    let feebump_tx = FeeBumpTransaction::new(RawTransaction {
        version: 2,
        lock_time: 0,
        input: vec![txin(OutPoint { txid: [0x4bu8; 32], vout: 0 })],
        output: vec![feebump_txo.clone()],
    });
    let feebump_prevout = FeeBumpPrevout(feebump_tx.into_prevout(0));

    // The first (vault) emergency transaction, with a fee-bump input
    let emer_txo = RawTxOut { value: 450, script_pubkey: Vec::new() };
    let mut emergency_tx =
        EmergencyTransaction::new(vault_prevout, Some(feebump_prevout), EmergencyTxOut(emer_txo.clone()));
    let sighash = emergency_tx.signature_hash(0, &VaultTxOut(vault_txo.clone()), &vault_script, true);
    sign_input(&secp, &mut emergency_tx, 0, sighash, &vault_descriptor, &all, true)
        .expect("Satisfying emergency transaction");
    let sighash = emergency_tx.signature_hash(1, &FeeBumpTxOut(feebump_txo.clone()), &feebump_script, false);
    sign_input(&secp, &mut emergency_tx, 1, sighash, &feebump_descriptor, &[&feebump_key], false)
        .expect("Satisfying feebump input of the first emergency transaction.");
    verify_revault_transaction(&emergency_tx, &[vault_tx.inner_tx(), feebump_tx.inner_tx()])
        .expect("Verifying emergency transation");

    // The unvault transaction
    let unvault_txo = RawTxOut { value: 7000, script_pubkey: unvault_descriptor.script_pubkey().into_bytes() };
    let mut unvault_tx = UnvaultTransaction::new(
        (vault_prevout, u32::MAX),
        UnvaultTxOut(unvault_txo.clone()),
        CpfpTxOut(RawTxOut { value: 330, script_pubkey: cpfp_descriptor.script_pubkey().into_bytes() }),
    );
    let unvault_prevout = UnvaultPrevout(unvault_tx.into_prevout(0));

    // The cancel transaction, with a fee-bump input
    let mut cancel_tx = CancelTransaction::new(
        unvault_prevout,
        Some(feebump_prevout),
        VaultTxOut(RawTxOut { value: 6700, script_pubkey: vault_descriptor.script_pubkey().into_bytes() }),
    );
    let sighash = cancel_tx.signature_hash(0, &UnvaultTxOut(unvault_txo.clone()), &unvault_script, true);
    sign_input(&secp, &mut cancel_tx, 0, sighash, &unvault_descriptor, &all, true)
        .expect("Satisfying cancel transaction");
    let previous = [unvault_tx.inner_tx(), feebump_tx.inner_tx()];
    expect_script_error(verify_revault_transaction(&cancel_tx, &previous), 1);
    let sighash = cancel_tx.signature_hash(1, &FeeBumpTxOut(feebump_txo.clone()), &feebump_script, false);
    sign_input(&secp, &mut cancel_tx, 1, sighash, &feebump_descriptor, &[&feebump_key], false)
        .expect("Satisfying feebump input of the cancel transaction.");
    verify_revault_transaction(&cancel_tx, &previous).expect("Verifying cancel transaction");

    // The second (unvault) emergency transaction, with a fee-bump input
    let mut unemergency_tx =
        UnvaultEmergencyTransaction::new(unvault_prevout, Some(feebump_prevout), EmergencyTxOut(emer_txo.clone()));
    let sighash = unemergency_tx.signature_hash(0, &UnvaultTxOut(unvault_txo.clone()), &unvault_script, true);
    sign_input(&secp, &mut unemergency_tx, 0, sighash, &unvault_descriptor, &all, true)
        .expect("Satisfying unvault emergency transaction");
    // The fee-bump input is not satisfied yet
    expect_script_error(verify_revault_transaction(&unemergency_tx, &previous), 1);
    let sighash = unemergency_tx.signature_hash(1, &FeeBumpTxOut(feebump_txo.clone()), &feebump_script, false);
    sign_input(&secp, &mut unemergency_tx, 1, sighash, &feebump_descriptor, &[&feebump_key], false)
        .expect("Satisfying feebump input of the unvault emergency transaction.");
    verify_revault_transaction(&unemergency_tx, &previous).expect("Verifying unvault emergency transaction");
    // Confusing it with the vault emergency and passing the vault transaction fails
    assert!(
        verify_revault_transaction(&unemergency_tx, &[vault_tx.inner_tx(), feebump_tx.inner_tx()]).is_err(),
        "No error raised with wrong prevout !"
    );

    // Now the unvault transaction itself
    let sighash = unvault_tx.signature_hash(0, &VaultTxOut(vault_txo.clone()), &vault_script);
    sign_input(&secp, &mut unvault_tx, 0, sighash, &vault_descriptor, &all, false)
        .expect("Satisfying unvault transaction");
    verify_revault_transaction(&unvault_tx, &[vault_tx.inner_tx()]).expect("Verifying unvault transaction");
    assert!(matches!(
        verify_revault_transaction(&unvault_tx, &[feebump_tx.inner_tx()]),
        Err(Error::UnresolvedPrevout(0))
    ));
    // Satisfying it moved no outpoint: the cancel and emergency transactions still spend it
    assert_eq!(unvault_tx.into_prevout(0), unvault_prevout.0);

    // A spend transaction with a wrong CSV value cannot be satisfied
    let spend_txo = SpendTxOut::Destination(ExternalTxOut(RawTxOut { value: 1, script_pubkey: Vec::new() }));
    let mut spend_tx = SpendTransaction::new(&[unvault_prevout], vec![spend_txo.clone()], CSV_VALUE - 1)
        .expect("Spend transaction (n.1) creation failure");
    let sighash = spend_tx.signature_hash(0, &UnvaultTxOut(unvault_txo.clone()), &unvault_script);
    let satisfaction_res = sign_input(&secp, &mut spend_tx, 0, sighash, &unvault_descriptor, &spenders, false);
    assert_eq!(
        satisfaction_res,
        Err(Error::InputSatisfaction("Script satisfaction error: could not satisfy.".to_string()))
    );

    // "This time for sure !"
    let mut spend_tx = SpendTransaction::new(&[unvault_prevout], vec![spend_txo], CSV_VALUE)
        .expect("Spend transaction (n.2) creation failure");
    let sighash = spend_tx.signature_hash(0, &UnvaultTxOut(unvault_txo.clone()), &unvault_script);
    sign_input(&secp, &mut spend_tx, 0, sighash, &unvault_descriptor, &spenders, false)
        .expect("Satisfying second spend transaction");
    verify_revault_transaction(&spend_tx, &[unvault_tx.inner_tx()]).expect("Verifying spend transaction");

    // Every transaction has a hexadecimal representation
    vault_tx.hex().expect("Hex repr vault_tx");
    unvault_tx.hex().expect("Hex repr unvault_tx");
    spend_tx.hex().expect("Hex repr spend_tx");
    cancel_tx.hex().expect("Hex repr cancel_tx");
    emergency_tx.hex().expect("Hex repr emergency_tx");
    unemergency_tx.hex().expect("Hex repr unemergency_tx");
    feebump_tx.hex().expect("Hex repr feebump_tx");
}

#[test]
fn cancel_without_enough_signatures_is_not_satisfied() {
    let secp = Secp256k1::new();
    let managers: Vec<Participant> = (1..4).map(|i| participant(&secp, i)).collect();
    let unvault_descriptor = Descriptor::<bitcoin::PublicKey>::from_str(&format!(
        "wsh(or_d(multi(3,{}),and_v(v:pk({}),older(42))))",
        keys(&managers),
        managers[0].public,
    ))
    .unwrap();
    let unvault_txo = RawTxOut { value: 7000, script_pubkey: unvault_descriptor.script_pubkey().into_bytes() };
    let mut cancel = CancelTransaction::new(
        UnvaultPrevout(OutPoint { txid: [8u8; 32], vout: 0 }),
        None,
        VaultTxOut(RawTxOut { value: 6700, script_pubkey: vec![0x51] }),
    );
    let script_code = unvault_descriptor.script_code().unwrap().into_bytes();
    let sighash = cancel.signature_hash(0, &UnvaultTxOut(unvault_txo), &script_code, true);
    let signers: Vec<&Participant> = managers[1..].iter().collect();
    assert!(matches!(
        sign_input(&secp, &mut cancel, 0, sighash, &unvault_descriptor, &signers, true),
        Err(Error::InputSatisfaction(_))
    ));
    assert!(cancel.inner_tx().input[0].witness.is_empty());
}

#[test]
fn satisfier_refuses_another_transaction() {
    let unvault = UnvaultTransaction::new(
        (VaultPrevout(OutPoint { txid: [1u8; 32], vout: 0 }), u32::MAX),
        UnvaultTxOut(RawTxOut { value: 1, script_pubkey: vec![] }),
        CpfpTxOut(RawTxOut { value: 1, script_pubkey: vec![] }),
    );
    let mut cancel = CancelTransaction::new(
        UnvaultPrevout(OutPoint { txid: [2u8; 32], vout: 0 }),
        None,
        VaultTxOut(RawTxOut { value: 1, script_pubkey: vec![] }),
    );
    let sat = RevaultSatisfier::new(&unvault, 0).unwrap();
    let before = cancel.inner_tx().clone();
    assert!(matches!(
        sat.satisfy(&mut cancel, Ok((vec![vec![1u8]], vec![]))),
        Err(Error::TransactionMismatch(0))
    ));
    assert_eq!(cancel.inner_tx(), &before);
}

#[test]
fn timelock_must_match_exactly() {
    let sat = RevaultInputSatisfier::new(42);
    assert!(sat.check_after(42));
    assert!(!sat.check_after(41));
    assert!(!sat.check_after(43));
}

#[test]
fn insert_sig_keeps_the_last_signature() {
    let mut sat = RevaultInputSatisfier::new(0);
    let key = vec![2u8; 33];
    assert_eq!(sat.insert_sig(key.clone(), vec![1, 2], false), None);
    assert_eq!(sat.insert_sig(key.clone(), vec![1, 2], false), Some((vec![1, 2], false)));
    assert_eq!(sat.lookup_sig(&key), Some((vec![1, 2], false)));
    assert_eq!(sat.insert_sig(key.clone(), vec![3], true), Some((vec![1, 2], false)));
    assert_eq!(sat.lookup_sig(&key), Some((vec![3], true)));
    assert_eq!(sat.lookup_sig(&vec![3u8; 33]), None);
    let keyhash = bitcoin::hashes::Hash::to_byte_array(<bitcoin::hashes::hash160::Hash as bitcoin::hashes::Hash>::hash(&key));
    assert_eq!(sat.lookup_pkh_sig(&keyhash), Some((key.clone(), (vec![3], true))));
    assert_eq!(sat.lookup_pkh_sig(&[0u8; 20]), None);
}

#[test]
fn satisfier_refuses_out_of_bounds_input() {
    let unvault = UnvaultTransaction::new(
        (VaultPrevout(OutPoint { txid: [1u8; 32], vout: 0 }), u32::MAX),
        UnvaultTxOut(RawTxOut { value: 1, script_pubkey: vec![] }),
        CpfpTxOut(RawTxOut { value: 1, script_pubkey: vec![] }),
    );
    assert!(matches!(RevaultSatisfier::new(&unvault, 1), Err(Error::InputIndexOutOfBounds(1))));
    assert!(RevaultSatisfier::new(&unvault, 0).is_ok());
}

#[test]
fn satisfy_writes_the_witness_once_and_again() {
    let mut cancel = CancelTransaction::new(
        UnvaultPrevout(OutPoint { txid: [1u8; 32], vout: 0 }),
        Some(FeeBumpPrevout(OutPoint { txid: [2u8; 32], vout: 0 })),
        VaultTxOut(RawTxOut { value: 1, script_pubkey: vec![] }),
    );
    let sat = RevaultSatisfier::new(&cancel, 1).unwrap();
    let outcome = || Ok((vec![vec![9u8, 9], vec![]], vec![]));
    sat.satisfy(&mut cancel, outcome()).unwrap();
    let once = cancel.inner_tx().clone();
    assert_eq!(once.input[1].witness, vec![vec![9u8, 9], vec![]]);
    assert!(once.input[0].witness.is_empty());
    sat.satisfy(&mut cancel, outcome()).unwrap();
    assert_eq!(cancel.inner_tx(), &once);
    assert!(matches!(
        sat.satisfy(&mut cancel, Err("could not satisfy".to_string())),
        Err(Error::InputSatisfaction(ref m)) if m == "could not satisfy"
    ));
    assert_eq!(cancel.inner_tx(), &once);
}

#[test]
fn spend_requires_the_exact_timelock() {
    let secp = Secp256k1::new();
    let managers: Vec<Participant> = (1..4).map(|i| participant(&secp, i)).collect();
    let unvault_descriptor = Descriptor::<bitcoin::PublicKey>::from_str(&format!(
        "wsh(or_d(multi(3,{}),and_v(v:pk({}),older(42))))",
        keys(&managers),
        managers[0].public,
    ))
    .unwrap();
    let unvault_txo = RawTxOut { value: 7000, script_pubkey: unvault_descriptor.script_pubkey().into_bytes() };
    let unvault_tx = UnvaultTransaction::new(
        (VaultPrevout(OutPoint { txid: [5u8; 32], vout: 0 }), u32::MAX),
        UnvaultTxOut(unvault_txo.clone()),
        CpfpTxOut(RawTxOut { value: 330, script_pubkey: vec![0x51] }),
    );
    let unvault_prevout = UnvaultPrevout(unvault_tx.into_prevout(0));
    let script_code = unvault_descriptor.script_code().unwrap().into_bytes();
    let destination = SpendTxOut::Destination(ExternalTxOut(
        RawTxOut { value: 6000, script_pubkey: vec![0x51] },
    ));

    for (sequence, expect_ok) in [(41u32, false), (42, true), (43, false)] {
        let mut spend =
            SpendTransaction::new(&[unvault_prevout], vec![destination.clone()], sequence)
                .unwrap();
        assert_eq!(spend.inner_tx().input[0].sequence, sequence);
        let sighash = spend.signature_hash(0, &UnvaultTxOut(unvault_txo.clone()), &script_code);
        let outcome = sign_input(&secp, &mut spend, 0, sighash, &unvault_descriptor, &[&managers[0]], false);
        assert_eq!(outcome.is_ok(), expect_ok, "sequence {}", sequence);
        if expect_ok {
            verify_revault_transaction(&spend, &[unvault_tx.inner_tx()]).expect("Verifying spend transaction");
        } else {
            assert!(matches!(outcome, Err(Error::InputSatisfaction(_))));
        }
    }
}
