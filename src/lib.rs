//! Typed construction, signing and verification of the transactions of a
//! multi-party custody ("vault") protocol on Bitcoin.
//!
//! Transactions are modelled as plain values (`txdata`). The protocol roles of
//! previous outputs and outputs are distinct types (`roles`), and each
//! transaction variant only accepts the roles that it may legally spend or
//! create (`transactions`). Witnesses are assembled by `satisfier`, and a
//! finalized transaction is checked against its dependencies by `verification`.
//! Everything computed by rust-bitcoin or libbitcoinconsensus is reached
//! through the wrappers of `bitcoin_calls`.

mod bitcoin_calls;
pub mod error;
pub mod roles;
pub mod satisfier;
pub mod transactions;
pub mod txdata;
pub mod verification;

pub use bitcoin_calls::{
    consensus_accepts, consensus_encoding, hash160_of, segwit_v0_sighash, txid_of,
};
pub use error::Error;
pub use satisfier::{RevaultInputSatisfier, RevaultSatisfier};
pub use transactions::{RevaultTransaction, RBF_SEQUENCE};
pub use txdata::{OutPoint, RawTransaction, RawTxIn, RawTxOut};
pub use verification::verify_revault_transaction;
