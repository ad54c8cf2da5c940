//! The closed set of failures an operation can surface.

use vstd::prelude::*;

verus! {

/// Every operation either fully applies or fails with exactly one of these
/// tags; no error is ever swallowed and no partial state survives a failure.
#[derive(Clone, Copy, Debug, PartialEq, Eq, Structural)]
pub enum CakeError {
    /// The instruction payload is too short for its opcode's fixed layout.
    InvalidPayload,
    /// A stored record's byte length differs from its kind's exact length.
    SizeMismatch,
    /// The caller's presented identity is not the shop owner.
    Unauthorized,
    /// The caller supplied a storage address other than the derived one.
    InvalidAddress,
    /// `initialize` was invoked on a slot that already carries an owner.
    AlreadyInitialized,
    /// A sale asked for more units than the product has in stock.
    InsufficientStock,
    /// A checked counter increment or price multiplication would overflow.
    ArithmeticOverflow,
    /// The external value-transfer collaborator refused or failed the payment.
    ExternalTransferFailed,
    /// The leading opcode byte names no defined operation.
    UnknownOpcode,
    /// No disambiguator in the 256-candidate walk yielded a valid address.
    DerivationExhausted,
}

} // verus!
