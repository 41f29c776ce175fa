//! Errors reported by the library.
use vstd::prelude::*;

verus! {

/// What went wrong, with the detail needed to retry at a higher layer.
#[derive(Clone, Debug, PartialEq, Eq)]
pub enum Error {
    /// A spend transaction was asked for without any input to spend.
    NoSpendInput,
    /// A spend transaction was asked for without any output.
    NoSpendOutput,
    /// The input index given to a satisfier is not an input of the transaction.
    InputIndexOutOfBounds(usize),
    /// The transaction handed to a satisfier is not the one it was made for:
    /// the sequence of this input differs from the one it checks timelocks against.
    TransactionMismatch(usize),
    /// The policy could not be satisfied from the collected signatures; the
    /// satisfaction engine's diagnostic is kept.
    InputSatisfaction(String),
    /// No candidate transaction holds the output spent by this input.
    UnresolvedPrevout(usize),
    /// The script interpreter refused this input; its diagnostic is kept.
    ScriptVerification { input_index: usize, reason: String },
}

} // verus!
