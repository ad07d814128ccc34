//! The error taxonomy of the protocol.

use vstd::prelude::*;

verus! {

/// Every way a request can be refused. Validation-phase failures are reported
/// before any state changes; effect- and interaction-phase failures are
/// reported after the record has been rolled back to its pre-effect state.
#[derive(Clone, Copy, Debug, PartialEq, Eq, Structural)]
pub enum ProtocolError {
    /// The record's type tag does not match the tag the operation expects.
    TypeMismatch,
    /// The record does not belong to this component.
    OwnershipMismatch,
    /// The record's address is not the one derived from the declared seeds.
    AddressDerivationMismatch,
    /// The bound identity is not the record's stored authority, or it did not
    /// sign the request.
    UnauthorizedSigner,
    /// A balance subtraction would go below zero.
    ArithmeticUnderflow,
    /// A balance addition would exceed the representable range.
    ArithmeticOverflow,
    /// A supplied value exceeds its declared limit.
    BoundsViolation,
    /// The record is already locked by an in-flight transaction.
    ReentrancyBlocked,
    /// No valid derived address exists for the declared seeds.
    DerivationExhausted,
    /// No record is stored at the requested address.
    RecordNotFound,
    /// The external interaction reported failure; the effect was rolled back.
    InteractionFailed,
}

impl ProtocolError {
    /// A short description of the error, for callers that report it.
    pub fn message(&self) -> (r: &'static str)
        ensures
            r@ == self.message_spec(),
    {
        match self {
            ProtocolError::TypeMismatch => "type tag mismatch",
            ProtocolError::OwnershipMismatch => "record owned by another component",
            ProtocolError::AddressDerivationMismatch => "address does not match derived address",
            ProtocolError::UnauthorizedSigner => "unauthorized signer",
            ProtocolError::ArithmeticUnderflow => "insufficient funds",
            ProtocolError::ArithmeticOverflow => "balance overflow",
            ProtocolError::BoundsViolation => "value exceeds declared bounds",
            ProtocolError::ReentrancyBlocked => "record locked by in-flight transaction",
            ProtocolError::DerivationExhausted => "no valid derived address found",
            ProtocolError::RecordNotFound => "no record at address",
            ProtocolError::InteractionFailed => "external interaction failed",
        }
    }

    pub open spec fn message_spec(self) -> Seq<char> {
        match self {
            ProtocolError::TypeMismatch => "type tag mismatch"@,
            ProtocolError::OwnershipMismatch => "record owned by another component"@,
            ProtocolError::AddressDerivationMismatch => "address does not match derived address"@,
            ProtocolError::UnauthorizedSigner => "unauthorized signer"@,
            ProtocolError::ArithmeticUnderflow => "insufficient funds"@,
            ProtocolError::ArithmeticOverflow => "balance overflow"@,
            ProtocolError::BoundsViolation => "value exceeds declared bounds"@,
            ProtocolError::ReentrancyBlocked => "record locked by in-flight transaction"@,
            ProtocolError::DerivationExhausted => "no valid derived address found"@,
            ProtocolError::RecordNotFound => "no record at address"@,
            ProtocolError::InteractionFailed => "external interaction failed"@,
        }
    }
}

/// A single failed predicate in a constraint chain: which kind of failure,
/// the position of the failed constraint in the chain, and the identity role
/// it named (0 for record-level constraints).
#[derive(Clone, Copy, Debug, PartialEq, Eq, Structural)]
pub struct ConstraintViolation {
    pub kind: ProtocolError,
    pub index: usize,
    pub role: usize,
}

} // verus!
