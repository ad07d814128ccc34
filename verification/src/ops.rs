//! The operations a request may ask for, and their effects.
//!
//! An effect is the pure state transition an approved operation performs on a
//! record's structured fields. Every numeric change goes through the checked
//! primitives; every bounded field is checked against its declared limit; a
//! failed effect changes nothing.

use vstd::prelude::*;

use crate::account::{RecordState, StateModel, TAG_FEE_CONFIG, TAG_MESSAGE_BOX, TAG_SETTINGS,
    TAG_VAULT};
use crate::arith::{checked_add, checked_sub};
use crate::errors::ProtocolError;

verus! {

/// The largest message a message box accepts, in bytes.
pub const MESSAGE_LIMIT: usize = 128;

/// The largest fee a fee configuration accepts, in basis points.
pub const FEE_LIMIT_BPS: u16 = 10_000;

/// One requested mutation of a record's structured fields.
#[derive(Clone, Debug)]
pub enum Operation {
    /// Replace the stored message.
    SetMessage { content: Vec<u8> },
    /// Replace the stored fee.
    SetFee { fee_bps: u16 },
    /// Subtract from the stored balance.
    Withdraw { amount: u64 },
    /// Add to the stored balance.
    Deposit { amount: u64 },
    /// Flip the pause switch.
    TogglePause,
}

/// The spec-level value of an operation.
pub enum OperationModel {
    SetMessage { content: Seq<u8> },
    SetFee { fee_bps: u16 },
    Withdraw { amount: u64 },
    Deposit { amount: u64 },
    TogglePause,
}

impl View for Operation {
    type V = OperationModel;

    open spec fn view(&self) -> OperationModel {
        match self {
            Operation::SetMessage { content } => OperationModel::SetMessage { content: content@ },
            Operation::SetFee { fee_bps } => OperationModel::SetFee { fee_bps: *fee_bps },
            Operation::Withdraw { amount } => OperationModel::Withdraw { amount: *amount },
            Operation::Deposit { amount } => OperationModel::Deposit { amount: *amount },
            Operation::TogglePause => OperationModel::TogglePause,
        }
    }
}

impl Operation {
    /// The type tag this operation's target record must carry.
    pub fn tag(&self) -> (r: u64)
        ensures
            r == op_tag(self@),
    {
        match self {
            Operation::SetMessage { .. } => TAG_MESSAGE_BOX,
            Operation::SetFee { .. } => TAG_FEE_CONFIG,
            Operation::Withdraw { .. } => TAG_VAULT,
            Operation::Deposit { .. } => TAG_VAULT,
            Operation::TogglePause => TAG_SETTINGS,
        }
    }
}

/// The type tag an operation's target record must carry.
pub open spec fn op_tag(op: OperationModel) -> u64 {
    match op {
        OperationModel::SetMessage { .. } => TAG_MESSAGE_BOX,
        OperationModel::SetFee { .. } => TAG_FEE_CONFIG,
        OperationModel::Withdraw { .. } => TAG_VAULT,
        OperationModel::Deposit { .. } => TAG_VAULT,
        OperationModel::TogglePause => TAG_SETTINGS,
    }
}

/// What an operation does to a record's structured fields: the new fields, or
/// the error that leaves them untouched.
///
/// - a message longer than `MESSAGE_LIMIT` bytes is a `BoundsViolation`;
/// - a fee above `FEE_LIMIT_BPS` is a `BoundsViolation`;
/// - a withdrawal succeeds with `balance - amount` exactly when
///   `amount <= balance`, and is an `ArithmeticUnderflow` otherwise;
/// - a deposit succeeds with `balance + amount` exactly when the sum fits in
///   the balance's width, and is an `ArithmeticOverflow` otherwise;
/// - a pause toggle always succeeds and flips the switch;
/// - an operation aimed at a record of the wrong type is a `TypeMismatch`.
pub open spec fn effect_result(s: StateModel, op: OperationModel) -> Result<
    StateModel,
    ProtocolError,
> {
    match op {
        OperationModel::SetMessage { content } => match s {
            StateModel::MessageBox { .. } => if content.len() <= MESSAGE_LIMIT {
                Ok(StateModel::MessageBox { content })
            } else {
                Err(ProtocolError::BoundsViolation)
            },
            _ => Err(ProtocolError::TypeMismatch),
        },
        OperationModel::SetFee { fee_bps } => match s {
            StateModel::FeeConfig { .. } => if fee_bps <= FEE_LIMIT_BPS {
                Ok(StateModel::FeeConfig { fee_bps })
            } else {
                Err(ProtocolError::BoundsViolation)
            },
            _ => Err(ProtocolError::TypeMismatch),
        },
        OperationModel::Withdraw { amount } => match s {
            StateModel::Vault { balance } => if amount <= balance {
                Ok(StateModel::Vault { balance: (balance - amount) as u64 })
            } else {
                Err(ProtocolError::ArithmeticUnderflow)
            },
            _ => Err(ProtocolError::TypeMismatch),
        },
        OperationModel::Deposit { amount } => match s {
            StateModel::Vault { balance } => if balance + amount <= u64::MAX {
                Ok(StateModel::Vault { balance: (balance + amount) as u64 })
            } else {
                Err(ProtocolError::ArithmeticOverflow)
            },
            _ => Err(ProtocolError::TypeMismatch),
        },
        OperationModel::TogglePause => match s {
            StateModel::Settings { paused } => Ok(StateModel::Settings { paused: !paused }),
            _ => Err(ProtocolError::TypeMismatch),
        },
    }
}

/// Perform an operation's effect on a record's structured fields.
pub fn apply_effect(s: &RecordState, op: Operation) -> (r: Result<RecordState, ProtocolError>)
    ensures
        r matches Ok(s2) ==> effect_result(s@, op@) == Ok::<StateModel, ProtocolError>(s2@),
        r matches Err(e) ==> effect_result(s@, op@) == Err::<StateModel, ProtocolError>(e),
{
    match op {
        Operation::SetMessage { content } => match s {
            RecordState::MessageBox { .. } => {
                if content.len() <= MESSAGE_LIMIT {
                    Ok(RecordState::MessageBox { content })
                } else {
                    Err(ProtocolError::BoundsViolation)
                }
            },
            _ => Err(ProtocolError::TypeMismatch),
        },
        Operation::SetFee { fee_bps } => match s {
            RecordState::FeeConfig { .. } => {
                if fee_bps <= FEE_LIMIT_BPS {
                    Ok(RecordState::FeeConfig { fee_bps })
                } else {
                    Err(ProtocolError::BoundsViolation)
                }
            },
            _ => Err(ProtocolError::TypeMismatch),
        },
        Operation::Withdraw { amount } => match s {
            RecordState::Vault { balance } => match checked_sub(*balance, amount) {
                Ok(b2) => Ok(RecordState::Vault { balance: b2 }),
                Err(e) => Err(e),
            },
            _ => Err(ProtocolError::TypeMismatch),
        },
        Operation::Deposit { amount } => match s {
            RecordState::Vault { balance } => match checked_add(*balance, amount) {
                Ok(b2) => Ok(RecordState::Vault { balance: b2 }),
                Err(e) => Err(e),
            },
            _ => Err(ProtocolError::TypeMismatch),
        },
        Operation::TogglePause => match s {
            RecordState::Settings { paused } => Ok(RecordState::Settings { paused: !*paused }),
            _ => Err(ProtocolError::TypeMismatch),
        },
    }
}

} // verus!
