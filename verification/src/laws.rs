//! Laws of the protocol, stated once and proved against the model that the
//! executable functions are verified to refine.
//!
//! `apply` and `apply_with_chain` each ensure that the store and the reported
//! result equal `apply_model` of their inputs, so everything proved here of
//! `apply_model` holds of every run of those functions.

use vstd::prelude::*;

use crate::account::{RecordModel, StateModel};
use crate::address::IdentityModel;
use crate::constraint::{chain_failure, chain_failure_from, chain_ok, constraint_error,
    lemma_chain_ok_iff_each,
    ConstraintModel};
use crate::coordinator::{apply_model, expected_chain};
use crate::errors::ProtocolError;
use crate::ops::{op_tag, OperationModel, FEE_LIMIT_BPS, MESSAGE_LIMIT};
use crate::registry::lookup_model;

verus! {

/// Law: the constraint chain gates every mutation. A transaction changes the
/// store only when every constraint in its chain evaluates true against the
/// target record; and whenever any single constraint is false, the store is
/// left exactly as it was and the first failed constraint's error is
/// reported.
pub proof fn lemma_apply_gated_by_chain(
    rs: Seq<RecordModel>,
    addr: Seq<u8>,
    op: OperationModel,
    ids: Seq<IdentityModel>,
    cs: Seq<ConstraintModel>,
    interaction: Option<bool>,
)
    ensures
        ({
            let outcome = apply_model(rs, addr, op, ids, cs, interaction);
            &&& outcome.0 != rs ==> (lookup_model(rs, addr) matches Some(i) && forall|k: int|
                0 <= k < cs.len() ==> constraint_error(cs[k], rs[i], ids) is None)
            &&& lookup_model(rs, addr) matches Some(i) ==> (!chain_ok(cs, rs[i], ids) ==> {
                &&& outcome.0 == rs
                &&& chain_failure(cs, rs[i], ids) matches Some(p) && outcome.1 == Err::<
                    (),
                    ProtocolError,
                >(p.1)
            })
        }),
{
    match lookup_model(rs, addr) {
        Some(i) => {
            lemma_chain_ok_iff_each(cs, rs[i], ids);
        },
        None => {},
    }
}

/// Law: withdrawals. Under an approved chain on an unlocked vault, a
/// withdrawal commits with `balance - amount` exactly when
/// `amount <= balance`; otherwise it fails with `ArithmeticUnderflow` and the
/// store is unchanged. The balance never wraps.
pub proof fn lemma_withdraw_exact(
    rs: Seq<RecordModel>,
    addr: Seq<u8>,
    amount: u64,
    ids: Seq<IdentityModel>,
    cs: Seq<ConstraintModel>,
    interaction: Option<bool>,
    i: int,
)
    requires
        lookup_model(rs, addr) == Some(i),
        0 <= i < rs.len(),
        chain_ok(cs, rs[i], ids),
        !rs[i].locked,
        rs[i].state matches StateModel::Vault { .. },
        interaction != Some(false),
    ensures
        ({
            let outcome = apply_model(rs, addr, OperationModel::Withdraw { amount }, ids, cs,
                interaction);
            let balance = rs[i].state->Vault_balance;
            &&& amount <= balance ==> outcome.0 == rs.update(
                i,
                RecordModel {
                    state: StateModel::Vault { balance: (balance - amount) as u64 },
                    ..rs[i]
                },
            ) && outcome.1 == Ok::<(), ProtocolError>(())
            &&& amount > balance ==> outcome.0 == rs && outcome.1 == Err::<(), ProtocolError>(
                ProtocolError::ArithmeticUnderflow,
            )
        }),
{
}

/// Law: deposits. Under an approved chain on an unlocked vault, a deposit
/// commits with `balance + amount` exactly when the sum fits the balance's
/// width; otherwise it fails with `ArithmeticOverflow` and the store is
/// unchanged.
pub proof fn lemma_deposit_exact(
    rs: Seq<RecordModel>,
    addr: Seq<u8>,
    amount: u64,
    ids: Seq<IdentityModel>,
    cs: Seq<ConstraintModel>,
    interaction: Option<bool>,
    i: int,
)
    requires
        lookup_model(rs, addr) == Some(i),
        0 <= i < rs.len(),
        chain_ok(cs, rs[i], ids),
        !rs[i].locked,
        rs[i].state matches StateModel::Vault { .. },
        interaction != Some(false),
    ensures
        ({
            let outcome = apply_model(rs, addr, OperationModel::Deposit { amount }, ids, cs,
                interaction);
            let balance = rs[i].state->Vault_balance;
            &&& balance + amount <= u64::MAX ==> outcome.0 == rs.update(
                i,
                RecordModel {
                    state: StateModel::Vault { balance: (balance + amount) as u64 },
                    ..rs[i]
                },
            ) && outcome.1 == Ok::<(), ProtocolError>(())
            &&& balance + amount > u64::MAX ==> outcome.0 == rs && outcome.1 == Err::<
                (),
                ProtocolError,
            >(ProtocolError::ArithmeticOverflow)
        }),
{
}

/// Law: fee-style bounded updates. Under an approved chain on an unlocked fee
/// configuration, `SetFee` commits exactly when the new fee is at most
/// `FEE_LIMIT_BPS`; a larger value fails with `BoundsViolation` and the
/// stored value is unchanged.
pub proof fn lemma_set_fee_bounded(
    rs: Seq<RecordModel>,
    addr: Seq<u8>,
    fee_bps: u16,
    ids: Seq<IdentityModel>,
    cs: Seq<ConstraintModel>,
    interaction: Option<bool>,
    i: int,
)
    requires
        lookup_model(rs, addr) == Some(i),
        0 <= i < rs.len(),
        chain_ok(cs, rs[i], ids),
        !rs[i].locked,
        rs[i].state matches StateModel::FeeConfig { .. },
        interaction != Some(false),
    ensures
        ({
            let outcome = apply_model(rs, addr, OperationModel::SetFee { fee_bps }, ids, cs,
                interaction);
            &&& fee_bps <= FEE_LIMIT_BPS ==> outcome.0 == rs.update(
                i,
                RecordModel { state: StateModel::FeeConfig { fee_bps }, ..rs[i] },
            ) && outcome.1 == Ok::<(), ProtocolError>(())
            &&& fee_bps > FEE_LIMIT_BPS ==> outcome.0 == rs && outcome.1 == Err::<
                (),
                ProtocolError,
            >(ProtocolError::BoundsViolation)
        }),
{
}

/// Law: payload-bounded updates. Under an approved chain on an unlocked
/// message box, `SetMessage` commits exactly when the message is at most
/// `MESSAGE_LIMIT` bytes; a longer one fails with `BoundsViolation` and the
/// stored message is unchanged.
pub proof fn lemma_set_message_bounded(
    rs: Seq<RecordModel>,
    addr: Seq<u8>,
    content: Seq<u8>,
    ids: Seq<IdentityModel>,
    cs: Seq<ConstraintModel>,
    interaction: Option<bool>,
    i: int,
)
    requires
        lookup_model(rs, addr) == Some(i),
        0 <= i < rs.len(),
        chain_ok(cs, rs[i], ids),
        !rs[i].locked,
        rs[i].state matches StateModel::MessageBox { .. },
        interaction != Some(false),
    ensures
        ({
            let outcome = apply_model(rs, addr, OperationModel::SetMessage { content }, ids, cs,
                interaction);
            &&& content.len() <= MESSAGE_LIMIT ==> outcome.0 == rs.update(
                i,
                RecordModel { state: StateModel::MessageBox { content }, ..rs[i] },
            ) && outcome.1 == Ok::<(), ProtocolError>(())
            &&& content.len() > MESSAGE_LIMIT ==> outcome.0 == rs && outcome.1 == Err::<
                (),
                ProtocolError,
            >(ProtocolError::BoundsViolation)
        }),
{
}

/// Law: reentrancy. A transaction that reaches a locked record — as a nested
/// re-entry from inside the interaction window of the in-flight transaction
/// that locked it does — observes `ReentrancyBlocked`, and the store keeps
/// exactly the state the outer transaction's effect committed: the nested
/// attempt rolls nothing back.
pub proof fn lemma_reentrancy_blocked(
    rs: Seq<RecordModel>,
    addr: Seq<u8>,
    op: OperationModel,
    ids: Seq<IdentityModel>,
    cs: Seq<ConstraintModel>,
    interaction: Option<bool>,
    i: int,
)
    requires
        lookup_model(rs, addr) == Some(i),
        0 <= i < rs.len(),
        chain_ok(cs, rs[i], ids),
        rs[i].locked,
    ensures
        apply_model(rs, addr, op, ids, cs, interaction) == (rs, Err::<(), ProtocolError>(
            ProtocolError::ReentrancyBlocked,
        )),
{
}

/// Law: authority binding. A request whose role-0 identity does not hold the
/// record's stored authority key never changes the store, whatever else is
/// true of the record; and when the record-level constraints of the expected
/// chain hold (type, ownership, and for message boxes the derived address),
/// the rejection is `UnauthorizedSigner` — whether or not the identity signed
/// the request.
pub proof fn lemma_authority_binding(
    rs: Seq<RecordModel>,
    addr: Seq<u8>,
    op: OperationModel,
    ids: Seq<IdentityModel>,
    component_id: Seq<u8>,
    interaction: Option<bool>,
    i: int,
)
    requires
        lookup_model(rs, addr) == Some(i),
        0 <= i < rs.len(),
        ids.len() > 0 ==> ids[0].public_key != rs[i].authority,
    ensures
        ({
            let cs = expected_chain(op, ids, component_id);
            let outcome = apply_model(rs, addr, op, ids, cs, interaction);
            &&& outcome.0 == rs
            &&& outcome.1 is Err
            &&& {
                &&& rs[i].state.tag() == op_tag(op)
                &&& rs[i].owner_id == component_id
                &&& (op is SetMessage && ids.len() > 0 ==> constraint_error(cs[2], rs[i], ids)
                    is None)
            } ==> outcome.1 == Err::<(), ProtocolError>(ProtocolError::UnauthorizedSigner)
        }),
{
    let cs = expected_chain(op, ids, component_id);
    let rec = rs[i];
    if op is SetMessage && ids.len() > 0 {
        assert(cs.len() == 5);
        assert(cs[0] == ConstraintModel::TypeMatch { expected_tag: op_tag(op) });
        assert(cs[1] == ConstraintModel::OwnershipMatch { component_id });
        assert(cs[3] == ConstraintModel::AuthorityBinding { role: 0 });
        assert(constraint_error(cs[3], rec, ids) == Some(ProtocolError::UnauthorizedSigner));
        lemma_chain_ok_iff_each(cs, rec, ids);
        assert(!chain_ok(cs, rec, ids));
        if rec.state.tag() == op_tag(op) && rec.owner_id == component_id && constraint_error(
            cs[2],
            rec,
            ids,
        ) is None {
            assert(chain_failure_from(cs, rec, ids, 3) == Some((
                3int,
                ProtocolError::UnauthorizedSigner,
            )));
            assert(chain_failure_from(cs, rec, ids, 2) == chain_failure_from(cs, rec, ids, 3));
            assert(chain_failure_from(cs, rec, ids, 1) == chain_failure_from(cs, rec, ids, 2));
            assert(chain_failure_from(cs, rec, ids, 0) == chain_failure_from(cs, rec, ids, 1));
        }
    } else {
        assert(cs.len() == 4);
        assert(cs[0] == ConstraintModel::TypeMatch { expected_tag: op_tag(op) });
        assert(cs[1] == ConstraintModel::OwnershipMatch { component_id });
        assert(cs[2] == ConstraintModel::AuthorityBinding { role: 0 });
        assert(constraint_error(cs[2], rec, ids) == Some(ProtocolError::UnauthorizedSigner));
        lemma_chain_ok_iff_each(cs, rec, ids);
        assert(!chain_ok(cs, rec, ids));
        if rec.state.tag() == op_tag(op) && rec.owner_id == component_id {
            assert(chain_failure_from(cs, rec, ids, 2) == Some((
                2int,
                ProtocolError::UnauthorizedSigner,
            )));
            assert(chain_failure_from(cs, rec, ids, 1) == chain_failure_from(cs, rec, ids, 2));
            assert(chain_failure_from(cs, rec, ids, 0) == chain_failure_from(cs, rec, ids, 1));
        }
    }
    lemma_apply_gated_by_chain(rs, addr, op, ids, cs, interaction);
}

} // verus!
