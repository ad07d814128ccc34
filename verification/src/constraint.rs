//! The ordered constraint chain that gates every mutation.
//!
//! A request may touch a record only after every predicate in the chain has
//! evaluated true, in order. The order is significant, because later checks
//! assume earlier ones already hold: a record's bytes are never interpreted
//! before its type tag matched, an address is never compared against a
//! derivation before the record's ownership matched, and a signature is never
//! trusted before the signer was bound to the record's stored authority. The
//! first failed predicate aborts validation; no partial result is returned
//! and no mutation handle is issued.

use vstd::prelude::*;

use crate::account::{RecordModel, ResourceAccount};
use crate::address::{identities_view, Identity, IdentityModel};
use crate::deriver::{derive_address, derived_address};
use crate::errors::{ConstraintViolation, ProtocolError};

verus! {

/// One predicate over a record and the request's identities.
#[derive(Clone, Debug)]
pub enum Constraint {
    /// The record's type tag equals the tag the operation expects.
    TypeMatch { expected_tag: u64 },
    /// The record belongs to the component with this id.
    OwnershipMatch { component_id: crate::address::Address },
    /// The record's address equals the address derived from these seeds under
    /// the record's owning component.
    AddressDerivationMatch { seeds: Vec<Vec<u8>> },
    /// The identity in this role holds the record's stored authority key.
    AuthorityBinding { role: usize },
    /// The identity in this role signed the request.
    SignerRequired { role: usize },
}

/// The spec-level value of a constraint.
pub enum ConstraintModel {
    TypeMatch { expected_tag: u64 },
    OwnershipMatch { component_id: Seq<u8> },
    AddressDerivationMatch { seeds: Seq<Seq<u8>> },
    AuthorityBinding { role: usize },
    SignerRequired { role: usize },
}

impl View for Constraint {
    type V = ConstraintModel;

    open spec fn view(&self) -> ConstraintModel {
        match self {
            Constraint::TypeMatch { expected_tag } => ConstraintModel::TypeMatch {
                expected_tag: *expected_tag,
            },
            Constraint::OwnershipMatch { component_id } => ConstraintModel::OwnershipMatch {
                component_id: component_id@,
            },
            Constraint::AddressDerivationMatch { seeds } => ConstraintModel::AddressDerivationMatch {
                seeds: seeds.deep_view(),
            },
            Constraint::AuthorityBinding { role } => ConstraintModel::AuthorityBinding {
                role: *role,
            },
            Constraint::SignerRequired { role } => ConstraintModel::SignerRequired { role: *role },
        }
    }
}

/// The spec-level values of a constraint chain, in evaluation order.
pub open spec fn chain_view(cs: Seq<Constraint>) -> Seq<ConstraintModel> {
    cs.map_values(|c: Constraint| c@)
}

/// What a single constraint says of a record and the request's identities:
/// `None` when it holds, otherwise the error it fails with.
pub open spec fn constraint_error(
    c: ConstraintModel,
    rec: RecordModel,
    ids: Seq<IdentityModel>,
) -> Option<ProtocolError> {
    match c {
        ConstraintModel::TypeMatch { expected_tag } => if rec.state.tag() == expected_tag {
            None
        } else {
            Some(ProtocolError::TypeMismatch)
        },
        ConstraintModel::OwnershipMatch { component_id } => if rec.owner_id == component_id {
            None
        } else {
            Some(ProtocolError::OwnershipMismatch)
        },
        ConstraintModel::AddressDerivationMatch { seeds } => match derived_address(
            seeds,
            rec.owner_id,
        ) {
            None => Some(ProtocolError::DerivationExhausted),
            Some(p) => if rec.address == p.0 {
                None
            } else {
                Some(ProtocolError::AddressDerivationMismatch)
            },
        },
        ConstraintModel::AuthorityBinding { role } => if role < ids.len() && ids[
            role as int
        ].public_key == rec.authority {
            None
        } else {
            Some(ProtocolError::UnauthorizedSigner)
        },
        ConstraintModel::SignerRequired { role } => if role < ids.len() && ids[role as int].signed {
            None
        } else {
            Some(ProtocolError::UnauthorizedSigner)
        },
    }
}

/// The identity role a constraint names; 0 for record-level constraints.
pub open spec fn constraint_role(c: ConstraintModel) -> usize {
    match c {
        ConstraintModel::AuthorityBinding { role } => role,
        ConstraintModel::SignerRequired { role } => role,
        _ => 0,
    }
}

/// The first failure in `cs[i..]`: its position in the whole chain and its
/// error, or `None` when every remaining constraint holds.
pub open spec fn chain_failure_from(
    cs: Seq<ConstraintModel>,
    rec: RecordModel,
    ids: Seq<IdentityModel>,
    i: int,
) -> Option<(int, ProtocolError)>
    decreases cs.len() - i,
{
    if i < 0 || i >= cs.len() {
        None
    } else {
        match constraint_error(cs[i], rec, ids) {
            Some(e) => Some((i, e)),
            None => chain_failure_from(cs, rec, ids, i + 1),
        }
    }
}

/// The first failure in the whole chain, or `None` when every constraint
/// holds.
pub open spec fn chain_failure(
    cs: Seq<ConstraintModel>,
    rec: RecordModel,
    ids: Seq<IdentityModel>,
) -> Option<(int, ProtocolError)> {
    chain_failure_from(cs, rec, ids, 0)
}

/// Whether every constraint in the chain holds.
pub open spec fn chain_ok(
    cs: Seq<ConstraintModel>,
    rec: RecordModel,
    ids: Seq<IdentityModel>,
) -> bool {
    chain_failure(cs, rec, ids) is None
}

/// A chain holds as a whole exactly when each of its constraints holds.
pub proof fn lemma_chain_ok_iff_each(
    cs: Seq<ConstraintModel>,
    rec: RecordModel,
    ids: Seq<IdentityModel>,
)
    ensures
        chain_ok(cs, rec, ids) <==> forall|i: int|
            0 <= i < cs.len() ==> constraint_error(cs[i], rec, ids) is None,
{
    lemma_chain_failure_from_none(cs, rec, ids, 0);
}

proof fn lemma_chain_failure_from_none(
    cs: Seq<ConstraintModel>,
    rec: RecordModel,
    ids: Seq<IdentityModel>,
    i: int,
)
    requires
        0 <= i <= cs.len(),
    ensures
        chain_failure_from(cs, rec, ids, i) is None <==> forall|j: int|
            i <= j < cs.len() ==> constraint_error(cs[j], rec, ids) is None,
    decreases cs.len() - i,
{
    if i < cs.len() {
        lemma_chain_failure_from_none(cs, rec, ids, i + 1);
    }
}

/// Witness that an ordered constraint chain evaluated true against the record
/// at one address. Only a successful validation creates one, so a handle in
/// hand is the capability to request a mutation of that record; the registry
/// refuses a mutation without it.
pub struct ValidatedHandle {
    approved: Ghost<Seq<u8>>,
}

impl ValidatedHandle {
    /// The address of the record the chain was evaluated against.
    pub closed spec fn target(&self) -> Seq<u8> {
        self.approved@
    }
}

/// Evaluate one constraint against a record and the request's identities.
fn eval_constraint(c: &Constraint, rec: &ResourceAccount, ids: &Vec<Identity>) -> (r: Option<
    ProtocolError,
>)
    ensures
        r == constraint_error(c@, rec@, identities_view(ids@)),
{
    match c {
        Constraint::TypeMatch { expected_tag } => {
            if rec.state.tag() == *expected_tag {
                None
            } else {
                Some(ProtocolError::TypeMismatch)
            }
        },
        Constraint::OwnershipMatch { component_id } => {
            if rec.owner_id.equals(component_id) {
                None
            } else {
                Some(ProtocolError::OwnershipMismatch)
            }
        },
        Constraint::AddressDerivationMatch { seeds } => {
            match derive_address(seeds, &rec.owner_id) {
                Err(_) => Some(ProtocolError::DerivationExhausted),
                Ok((derived, _bump)) => {
                    if rec.address.equals(&derived) {
                        None
                    } else {
                        Some(ProtocolError::AddressDerivationMismatch)
                    }
                },
            }
        },
        Constraint::AuthorityBinding { role } => {
            if *role < ids.len() && ids[*role].public_key.equals(&rec.authority) {
                None
            } else {
                Some(ProtocolError::UnauthorizedSigner)
            }
        },
        Constraint::SignerRequired { role } => {
            if *role < ids.len() && ids[*role].signed {
                None
            } else {
                Some(ProtocolError::UnauthorizedSigner)
            }
        },
    }
}

/// Evaluate an ordered constraint chain against a record and the request's
/// identities. Succeeds with a mutation handle for the record exactly when
/// every constraint holds; otherwise reports the first failed constraint, its
/// position and the role it named, and issues no handle.
pub fn validate(rec: &ResourceAccount, ids: &Vec<Identity>, constraints: &Vec<Constraint>) -> (r:
    Result<ValidatedHandle, ConstraintViolation>)
    ensures
        r is Ok <==> chain_ok(chain_view(constraints@), rec@, identities_view(ids@)),
        r matches Ok(h) ==> h.target() == rec@.address,
        r matches Err(v) ==> {
            let f = chain_failure(chain_view(constraints@), rec@, identities_view(ids@));
            &&& f matches Some(p)
            &&& v.kind == p.1
            &&& v.index == p.0
            &&& v.role == constraint_role(chain_view(constraints@)[p.0])
        },
{
    let ghost cs = chain_view(constraints@);
    let ghost recm = rec@;
    let ghost idsm = identities_view(ids@);
    let mut i: usize = 0;
    while i < constraints.len()
        invariant
            i <= constraints@.len(),
            cs == chain_view(constraints@),
            recm == rec@,
            idsm == identities_view(ids@),
            chain_failure(cs, recm, idsm) == chain_failure_from(cs, recm, idsm, i as int),
        decreases constraints@.len() - i,
    {
        let c = &constraints[i];
        match eval_constraint(c, rec, ids) {
            Some(e) => {
                let role = match c {
                    Constraint::AuthorityBinding { role } => *role,
                    Constraint::SignerRequired { role } => *role,
                    _ => 0,
                };
                return Err(ConstraintViolation { kind: e, index: i, role });
            },
            None => {
                i += 1;
            },
        }
    }
    Ok(ValidatedHandle { approved: Ghost(rec@.address) })
}

} // verus!
