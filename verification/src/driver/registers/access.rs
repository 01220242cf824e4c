//! How a register access can fail.

use vstd::prelude::*;

verus! {

/// A register could not be read.
#[derive(Clone, Debug, PartialEq, Eq)]
pub enum ReadError<SpiError> {
    /// The bus reported `SpiError` during the transaction.
    SpiTransferError(SpiError),
}

/// A register could not be written.
#[derive(Clone, Debug, PartialEq, Eq)]
pub enum WriteError<SpiError> {
    /// The bus reported `SpiError` during the transaction.
    SpiTransferError(SpiError),
}

} // verus!
