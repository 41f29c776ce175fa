//! Previous outputs and outputs tagged with the protocol role they play.
//!
//! Each role is a type of its own, so that a transaction variant can only be
//! given the roles it may spend or create.
use crate::txdata::{OutPoint, OutputModel, RawTxOut};
use vstd::prelude::*;

verus! {

/// A previous output of a known protocol role.
pub trait RevaultPrevout {
    spec fn spec_outpoint(&self) -> OutPoint;

    fn outpoint(&self) -> (r: OutPoint)
        ensures
            r == self.spec_outpoint(),
    ;
}

/// An output of a known protocol role.
pub trait RevaultTxOut {
    spec fn spec_txout(&self) -> OutputModel;

    /// The plain output.
    fn inner_txout(&self) -> (r: &RawTxOut)
        ensures
            r@ == self.spec_txout(),
    ;

    /// The plain output, consuming the tagged one.
    fn get_txout(self) -> (r: RawTxOut)
        ensures
            r@ == self.spec_txout(),
    ;
}

/// A vault output, spent by an unvault or a vault emergency transaction.
#[derive(Clone, Copy, Debug, PartialEq, Eq)]
pub struct VaultPrevout(pub OutPoint);

/// An unvault output, spent by a spend, cancel or unvault emergency transaction.
#[derive(Clone, Copy, Debug, PartialEq, Eq)]
pub struct UnvaultPrevout(pub OutPoint);

/// An output of an outside wallet, spent to raise the fee of a revaulting transaction.
#[derive(Clone, Copy, Debug, PartialEq, Eq)]
pub struct FeeBumpPrevout(pub OutPoint);

impl RevaultPrevout for VaultPrevout {
    open spec fn spec_outpoint(&self) -> OutPoint {
        self.0
    }

    fn outpoint(&self) -> (r: OutPoint) {
        self.0
    }
}

impl RevaultPrevout for UnvaultPrevout {
    open spec fn spec_outpoint(&self) -> OutPoint {
        self.0
    }

    fn outpoint(&self) -> (r: OutPoint) {
        self.0
    }
}

impl RevaultPrevout for FeeBumpPrevout {
    open spec fn spec_outpoint(&self) -> OutPoint {
        self.0
    }

    fn outpoint(&self) -> (r: OutPoint) {
        self.0
    }
}

/// An output paying to the vault policy.
#[derive(Clone, Debug, PartialEq, Eq)]
pub struct VaultTxOut(pub RawTxOut);

/// An output paying to the unvault policy.
#[derive(Clone, Debug, PartialEq, Eq)]
pub struct UnvaultTxOut(pub RawTxOut);

/// The output of an unvault transaction that lets the managers bump its fee.
#[derive(Clone, Debug, PartialEq, Eq)]
pub struct CpfpTxOut(pub RawTxOut);

/// An output paying to the emergency (disaster recovery) script.
#[derive(Clone, Debug, PartialEq, Eq)]
pub struct EmergencyTxOut(pub RawTxOut);

/// An output of an outside wallet, used to raise the fee of a revaulting transaction.
#[derive(Clone, Debug, PartialEq, Eq)]
pub struct FeeBumpTxOut(pub RawTxOut);

/// An output paying to an address outside of the protocol.
#[derive(Clone, Debug, PartialEq, Eq)]
pub struct ExternalTxOut(pub RawTxOut);

/// An output of a spend transaction: a payment, or change back to a vault.
#[derive(Clone, Debug, PartialEq, Eq)]
pub enum SpendTxOut {
    Destination(ExternalTxOut),
    Change(VaultTxOut),
}

impl RevaultTxOut for VaultTxOut {
    open spec fn spec_txout(&self) -> OutputModel {
        self.0@
    }

    fn inner_txout(&self) -> (r: &RawTxOut) {
        &self.0
    }

    fn get_txout(self) -> (r: RawTxOut) {
        self.0
    }
}

impl RevaultTxOut for UnvaultTxOut {
    open spec fn spec_txout(&self) -> OutputModel {
        self.0@
    }

    fn inner_txout(&self) -> (r: &RawTxOut) {
        &self.0
    }

    fn get_txout(self) -> (r: RawTxOut) {
        self.0
    }
}

impl RevaultTxOut for CpfpTxOut {
    open spec fn spec_txout(&self) -> OutputModel {
        self.0@
    }

    fn inner_txout(&self) -> (r: &RawTxOut) {
        &self.0
    }

    fn get_txout(self) -> (r: RawTxOut) {
        self.0
    }
}

impl RevaultTxOut for EmergencyTxOut {
    open spec fn spec_txout(&self) -> OutputModel {
        self.0@
    }

    fn inner_txout(&self) -> (r: &RawTxOut) {
        &self.0
    }

    fn get_txout(self) -> (r: RawTxOut) {
        self.0
    }
}

impl RevaultTxOut for FeeBumpTxOut {
    open spec fn spec_txout(&self) -> OutputModel {
        self.0@
    }

    fn inner_txout(&self) -> (r: &RawTxOut) {
        &self.0
    }

    fn get_txout(self) -> (r: RawTxOut) {
        self.0
    }
}

impl RevaultTxOut for ExternalTxOut {
    open spec fn spec_txout(&self) -> OutputModel {
        self.0@
    }

    fn inner_txout(&self) -> (r: &RawTxOut) {
        &self.0
    }

    fn get_txout(self) -> (r: RawTxOut) {
        self.0
    }
}

impl RevaultTxOut for SpendTxOut {
    open spec fn spec_txout(&self) -> OutputModel {
        match self {
            SpendTxOut::Destination(o) => o.0@,
            SpendTxOut::Change(o) => o.0@,
        }
    }

    fn inner_txout(&self) -> (r: &RawTxOut) {
        match self {
            SpendTxOut::Destination(o) => &o.0,
            SpendTxOut::Change(o) => &o.0,
        }
    }

    fn get_txout(self) -> (r: RawTxOut) {
        match self {
            SpendTxOut::Destination(o) => o.0,
            SpendTxOut::Change(o) => o.0,
        }
    }
}

/// The previous outputs a cancel transaction may spend.
pub trait CancelPrevTxout: RevaultTxOut {}

impl CancelPrevTxout for UnvaultTxOut {}

impl CancelPrevTxout for FeeBumpTxOut {}

/// The previous outputs a vault emergency transaction may spend.
pub trait EmergencyPrevTxout: RevaultTxOut {}

impl EmergencyPrevTxout for VaultTxOut {}

impl EmergencyPrevTxout for FeeBumpTxOut {}

/// The previous outputs an unvault emergency transaction may spend.
pub trait UnvaultEmerPrevTxout: RevaultTxOut {}

impl UnvaultEmerPrevTxout for UnvaultTxOut {}

impl UnvaultEmerPrevTxout for FeeBumpTxOut {}

} // verus!
