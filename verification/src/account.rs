//! Resource records and their mathematical model.
//!
//! A record is a typed, owned, addressable piece of state. Its type tag
//! never changes after creation; its structured fields are the only part an
//! approved operation may rewrite; its lock flag is true only while one
//! in-flight transaction is inside its interaction window.

use vstd::prelude::*;

use crate::address::Address;

verus! {

/// Type tag of a message box record.
pub const TAG_MESSAGE_BOX: u64 = 1;

/// Type tag of a fee configuration record.
pub const TAG_FEE_CONFIG: u64 = 2;

/// Type tag of a vault record.
pub const TAG_VAULT: u64 = 3;

/// Type tag of a settings record.
pub const TAG_SETTINGS: u64 = 4;

/// The structured fields of a record, one variant per type tag.
#[derive(Clone, Debug)]
pub enum RecordState {
    /// A stored message, at most `MESSAGE_LIMIT` bytes.
    MessageBox { content: Vec<u8> },
    /// A fee in basis points, at most `FEE_LIMIT_BPS`.
    FeeConfig { fee_bps: u16 },
    /// A balance that never goes negative and never wraps.
    Vault { balance: u64 },
    /// A global pause switch.
    Settings { paused: bool },
}

/// The spec-level value of a record's structured fields.
#[verifier::ext_equal]
pub enum StateModel {
    MessageBox { content: Seq<u8> },
    FeeConfig { fee_bps: u16 },
    Vault { balance: u64 },
    Settings { paused: bool },
}

impl View for RecordState {
    type V = StateModel;

    open spec fn view(&self) -> StateModel {
        match self {
            RecordState::MessageBox { content } => StateModel::MessageBox { content: content@ },
            RecordState::FeeConfig { fee_bps } => StateModel::FeeConfig { fee_bps: *fee_bps },
            RecordState::Vault { balance } => StateModel::Vault { balance: *balance },
            RecordState::Settings { paused } => StateModel::Settings { paused: *paused },
        }
    }
}

impl StateModel {
    /// The type tag of a state: fixed by the variant, so it can never change
    /// without the record being rewritten as a whole, which no operation does.
    pub open spec fn tag(self) -> u64 {
        match self {
            StateModel::MessageBox { .. } => TAG_MESSAGE_BOX,
            StateModel::FeeConfig { .. } => TAG_FEE_CONFIG,
            StateModel::Vault { .. } => TAG_VAULT,
            StateModel::Settings { .. } => TAG_SETTINGS,
        }
    }
}

impl RecordState {
    /// The record's type tag.
    pub fn tag(&self) -> (r: u64)
        ensures
            r == self@.tag(),
    {
        match self {
            RecordState::MessageBox { .. } => TAG_MESSAGE_BOX,
            RecordState::FeeConfig { .. } => TAG_FEE_CONFIG,
            RecordState::Vault { .. } => TAG_VAULT,
            RecordState::Settings { .. } => TAG_SETTINGS,
        }
    }

    /// A copy of the state, equal in value to this one.
    pub fn duplicate(&self) -> (r: RecordState)
        ensures
            r@ == self@,
    {
        match self {
            RecordState::MessageBox { content } => {
                let mut copy: Vec<u8> = Vec::new();
                let mut i: usize = 0;
                while i < content.len()
                    invariant
                        i <= content@.len(),
                        copy@ =~= content@.subrange(0, i as int),
                    decreases content@.len() - i,
                {
                    copy.push(content[i]);
                    i += 1;
                }
                proof {
                    assert(copy@ =~= content@);
                }
                RecordState::MessageBox { content: copy }
            },
            RecordState::FeeConfig { fee_bps } => RecordState::FeeConfig { fee_bps: *fee_bps },
            RecordState::Vault { balance } => RecordState::Vault { balance: *balance },
            RecordState::Settings { paused } => RecordState::Settings { paused: *paused },
        }
    }
}

/// The spec-level value of a whole record.
#[verifier::ext_equal]
pub struct RecordModel {
    pub address: Seq<u8>,
    pub owner_id: Seq<u8>,
    pub authority: Seq<u8>,
    pub state: StateModel,
    pub locked: bool,
}

/// A resource record: its address, the id of the component that owns it, the
/// public key of its stored authority, its structured fields, and the
/// reentrancy lock flag.
#[derive(Clone, Debug)]
pub struct ResourceAccount {
    pub address: Address,
    pub owner_id: Address,
    pub authority: Address,
    pub state: RecordState,
    pub locked: bool,
}

impl View for ResourceAccount {
    type V = RecordModel;

    open spec fn view(&self) -> RecordModel {
        RecordModel {
            address: self.address@,
            owner_id: self.owner_id@,
            authority: self.authority@,
            state: self.state@,
            locked: self.locked,
        }
    }
}

impl ResourceAccount {
    /// A fresh, unlocked record.
    pub fn new(address: Address, owner_id: Address, authority: Address, state: RecordState) -> (r:
        ResourceAccount)
        ensures
            r@ == (RecordModel {
                address: address@,
                owner_id: owner_id@,
                authority: authority@,
                state: state@,
                locked: false,
            }),
    {
        ResourceAccount { address, owner_id, authority, state, locked: false }
    }
}

} // verus!
