//! The transaction coordinator.
//!
//! Phases, strictly ordered: validate (no side effects), effect (checked
//! state mutation under the record's lock), interaction (the one point where
//! control may leave the core), then commit or rollback. By the time any
//! interaction begins, the effect is already committed to the record, so a
//! nested re-entry observes up-to-date state — and is refused by the lock. If
//! the interaction fails, the record is restored to its exact pre-effect
//! fields and the lock is released before the error propagates: the caller
//! observes the record as if the transaction never ran.

use vstd::prelude::*;

use crate::account::{RecordModel, RecordState, StateModel};
use crate::address::{identities_view, Address, Identity, IdentityModel};
use crate::constraint::{chain_failure, chain_view, chain_ok, validate, Constraint,
    ConstraintModel, ValidatedHandle};
use crate::errors::ProtocolError;
use crate::guard::{acquire, release};
use crate::ops::{apply_effect, effect_result, op_tag, Operation, OperationModel};
use crate::registry::{lemma_lookup_found, lookup_model, AccountRegistry};

verus! {

/// The seed that marks a message box's derived address.
pub open spec fn message_seed() -> Seq<u8> {
    seq![109u8, 101u8, 115u8, 115u8, 97u8, 103u8, 101u8]
}

/// The bytes of `message_seed`, for building a derivation constraint.
fn message_seed_vec() -> (r: Vec<u8>)
    ensures
        r@ == message_seed(),
{
    let mut s: Vec<u8> = Vec::new();
    s.push(109);
    s.push(101);
    s.push(115);
    s.push(115);
    s.push(97);
    s.push(103);
    s.push(101);
    proof {
        assert(s@ =~= message_seed());
    }
    s
}

/// The ordered constraint chain an operation must pass, for a component with
/// the given id. Every chain checks, in order: the record's type tag, its
/// ownership, for message boxes its derived address, then that the identity
/// in role 0 holds the record's stored authority key and signed the request.
pub open spec fn expected_chain(
    op: OperationModel,
    ids: Seq<IdentityModel>,
    component_id: Seq<u8>,
) -> Seq<ConstraintModel> {
    let head = seq![
        ConstraintModel::TypeMatch { expected_tag: op_tag(op) },
        ConstraintModel::OwnershipMatch { component_id },
    ];
    let tail = seq![
        ConstraintModel::AuthorityBinding { role: 0 },
        ConstraintModel::SignerRequired { role: 0 },
    ];
    if op is SetMessage && ids.len() > 0 {
        head + seq![
            ConstraintModel::AddressDerivationMatch {
                seeds: seq![message_seed(), ids[0].public_key],
            },
        ] + tail
    } else {
        head + tail
    }
}

/// What one whole transaction does to the store: the store afterwards and the
/// reported result.
///
/// In order: the record is looked up; the constraint chain is evaluated
/// against it; the reentrancy lock is checked; the effect is computed with
/// checked arithmetic; and the optional interaction outcome decides commit or
/// rollback. The first failure stops the transaction with the store exactly
/// as it was; only a run that passes them all commits the effect, and the
/// lock is free again afterwards either way.
pub open spec fn apply_model(
    rs: Seq<RecordModel>,
    addr: Seq<u8>,
    op: OperationModel,
    ids: Seq<IdentityModel>,
    cs: Seq<ConstraintModel>,
    interaction: Option<bool>,
) -> (Seq<RecordModel>, Result<(), ProtocolError>) {
    match lookup_model(rs, addr) {
        None => (rs, Err(ProtocolError::RecordNotFound)),
        Some(i) => match chain_failure(cs, rs[i], ids) {
            Some(p) => (rs, Err(p.1)),
            None => if rs[i].locked {
                (rs, Err(ProtocolError::ReentrancyBlocked))
            } else {
                match effect_result(rs[i].state, op) {
                    Err(e) => (rs, Err(e)),
                    Ok(s2) => match interaction {
                        Some(false) => (rs, Err(ProtocolError::InteractionFailed)),
                        _ => (rs.update(i, RecordModel { state: s2, ..rs[i] }), Ok(())),
                    },
                }
            },
        },
    }
}

/// A transaction that has passed validation and committed its effect, and
/// whose interaction window is open: the record it holds locked, the
/// pre-effect fields it restores on rollback, and the mutation handle it
/// acts under.
pub struct InFlight {
    index: usize,
    snapshot: RecordState,
    handle: ValidatedHandle,
}

impl InFlight {
    /// The index of the locked record.
    pub closed spec fn index_spec(&self) -> int {
        self.index as int
    }

    /// The record's structured fields before the effect ran.
    pub closed spec fn snapshot_spec(&self) -> StateModel {
        self.snapshot@
    }

    /// The address of the locked record.
    pub closed spec fn target(&self) -> Seq<u8> {
        self.handle.target()
    }
}

/// The transaction coordinator of one component. Its id is explicit
/// configuration, not ambient state; every ownership constraint it issues
/// names this id.
pub struct TransactionCoordinator {
    pub component_id: Address,
}

impl TransactionCoordinator {
    /// A coordinator for the component with the given id.
    pub fn new(component_id: Address) -> (r: TransactionCoordinator)
        ensures
            r.component_id@ == component_id@,
    {
        TransactionCoordinator { component_id }
    }

    /// The constraint chain `apply` evaluates for an operation.
    pub fn expected_constraint_chain(&self, op: &Operation, ids: &Vec<Identity>) -> (r: Vec<
        Constraint,
    >)
        ensures
            chain_view(r@) == expected_chain(op@, identities_view(ids@), self.component_id@),
    {
        let ghost target = expected_chain(op@, identities_view(ids@), self.component_id@);
        let mut chain: Vec<Constraint> = Vec::new();
        chain.push(Constraint::TypeMatch { expected_tag: op.tag() });
        chain.push(Constraint::OwnershipMatch { component_id: self.component_id });
        if matches!(op, Operation::SetMessage { .. }) && ids.len() > 0 {
            let mut seeds: Vec<Vec<u8>> = Vec::new();
            seeds.push(message_seed_vec());
            seeds.push(ids[0].public_key.to_seed());
            proof {
                assert(seeds.deep_view() =~~= seq![
                    message_seed(),
                    identities_view(ids@)[0].public_key,
                ]);
            }
            chain.push(Constraint::AddressDerivationMatch { seeds });
        }
        chain.push(Constraint::AuthorityBinding { role: 0 });
        chain.push(Constraint::SignerRequired { role: 0 });
        proof {
            assert(chain_view(chain@) =~= target);
        }
        chain
    }

    /// Run validate and effect for one transaction and open its interaction
    /// window.
    ///
    /// On success the effect is already committed to the record — a nested
    /// observer sees the updated fields — and the record is locked until
    /// `complete`. On any failure the store is exactly as it was: a failed
    /// lookup, a failed constraint, a locked record and a failed effect each
    /// report their own error, in that order of evaluation, and nothing
    /// changes.
    pub fn begin(
        &self,
        reg: &mut AccountRegistry,
        addr: &Address,
        op: Operation,
        ids: &Vec<Identity>,
        constraints: &Vec<Constraint>,
    ) -> (r: Result<InFlight, ProtocolError>)
        ensures
            ({
                let rs = old(reg)@;
                let cs = chain_view(constraints@);
                let idsm = identities_view(ids@);
                match r {
                    Err(e) => final(reg)@ == rs && match lookup_model(rs, addr@) {
                        None => e == ProtocolError::RecordNotFound,
                        Some(i) => match chain_failure(cs, rs[i], idsm) {
                            Some(p) => e == p.1,
                            None => if rs[i].locked {
                                e == ProtocolError::ReentrancyBlocked
                            } else {
                                effect_result(rs[i].state, op@) == Err::<StateModel, ProtocolError>(
                                    e,
                                )
                            },
                        },
                    },
                    Ok(t) => {
                        &&& lookup_model(rs, addr@) == Some(t.index_spec())
                        &&& chain_ok(cs, rs[t.index_spec()], idsm)
                        &&& !rs[t.index_spec()].locked
                        &&& effect_result(rs[t.index_spec()].state, op@) matches Ok(s2)
                            && final(reg)@ == rs.update(
                            t.index_spec(),
                            RecordModel { state: s2, locked: true, ..rs[t.index_spec()] },
                        )
                        &&& t.snapshot_spec() == rs[t.index_spec()].state
                        &&& t.target() == addr@
                    },
                }
            }),
    {
        let ghost rs = reg@;
        proof {
            lemma_lookup_found(rs, addr@, 0);
        }
        let i = match reg.lookup(addr) {
            None => {
                return Err(ProtocolError::RecordNotFound);
            },
            Some(i) => i,
        };
        let handle = match validate(reg.record(i), ids, constraints) {
            Err(v) => {
                return Err(v.kind);
            },
            Ok(h) => h,
        };
        match acquire(reg, i, &handle) {
            Err(e) => {
                return Err(e);
            },
            Ok(()) => {},
        }
        let snapshot = reg.record(i).state.duplicate();
        let new_state = match apply_effect(&reg.record(i).state, op) {
            Err(e) => {
                release(reg, i, &handle);
                proof {
                    assert(reg@ =~= rs);
                }
                return Err(e);
            },
            Ok(s) => s,
        };
        reg.set_state(i, new_state, &handle);
        proof {
            let t_i = i as int;
            assert(reg@ =~= rs.update(
                t_i,
                RecordModel {
                    state: effect_result(rs[t_i].state, op@)->Ok_0,
                    locked: true,
                    ..rs[t_i]
                },
            ));
        }
        Ok(InFlight { index: i, snapshot, handle })
    }

    /// Close a transaction's interaction window. A successful interaction
    /// (or none) commits: the record keeps its new fields and the lock is
    /// released. A failed interaction rolls back: the record is restored to
    /// its exact pre-effect fields, the lock is released, and the failure is
    /// reported.
    pub fn complete(
        &self,
        reg: &mut AccountRegistry,
        transaction: InFlight,
        interaction_ok: bool,
    ) -> (r: Result<(), ProtocolError>)
        requires
            0 <= transaction.index_spec() < old(reg)@.len(),
            old(reg)@[transaction.index_spec()].locked,
            transaction.target() == old(reg)@[transaction.index_spec()].address,
        ensures
            ({
                let rs = old(reg)@;
                let i = transaction.index_spec();
                if interaction_ok {
                    r == Result::<(), ProtocolError>::Ok(()) && final(reg)@ == rs.update(
                        i,
                        RecordModel { locked: false, ..rs[i] },
                    )
                } else {
                    r == Result::<(), ProtocolError>::Err(ProtocolError::InteractionFailed)
                        && final(reg)@ == rs.update(
                        i,
                        RecordModel { state: transaction.snapshot_spec(), locked: false, ..rs[i] },
                    )
                }
            }),
    {
        let InFlight { index, snapshot, handle } = transaction;
        if interaction_ok {
            release(reg, index, &handle);
            Ok(())
        } else {
            reg.set_state(index, snapshot, &handle);
            release(reg, index, &handle);
            proof {
                assert(reg@ =~= old(reg)@.update(
                    index as int,
                    RecordModel {
                        state: transaction.snapshot_spec(),
                        locked: false,
                        ..old(reg)@[index as int]
                    },
                ));
            }
            Err(ProtocolError::InteractionFailed)
        }
    }

    /// Run one whole transaction under an explicit constraint chain.
    /// `interaction` is the outcome of the optional external interaction:
    /// `None` when the transaction has no interaction phase, otherwise
    /// whether the interaction succeeded.
    pub fn apply_with_chain(
        &self,
        reg: &mut AccountRegistry,
        addr: &Address,
        op: Operation,
        ids: &Vec<Identity>,
        constraints: &Vec<Constraint>,
        interaction: Option<bool>,
    ) -> (r: Result<(), ProtocolError>)
        ensures
            ({
                let outcome = apply_model(
                    old(reg)@,
                    addr@,
                    op@,
                    identities_view(ids@),
                    chain_view(constraints@),
                    interaction,
                );
                final(reg)@ == outcome.0 && r == outcome.1
            }),
    {
        let ghost rs = reg@;
        proof {
            lemma_lookup_found(rs, addr@, 0);
        }
        let transaction = match self.begin(reg, addr, op, ids, constraints) {
            Err(e) => {
                return Err(e);
            },
            Ok(t) => t,
        };
        let ghost t_i = transaction.index_spec();
        let ghost outcome = apply_model(
            rs,
            addr@,
            op@,
            identities_view(ids@),
            chain_view(constraints@),
            interaction,
        );
        let interaction_ok = match interaction {
            None => true,
            Some(ok) => ok,
        };
        let r = self.complete(reg, transaction, interaction_ok);
        proof {
            if interaction_ok {
                assert(reg@ =~= outcome.0);
            } else {
                assert(reg@ =~= rs);
            }
        }
        r
    }

    /// Run one whole transaction under the expected constraint chain for its
    /// operation: the record is mutated if and only if every constraint in
    /// that chain evaluates true, the lock is free, the effect is within
    /// bounds and the interaction (if any) succeeds; on any failure the store
    /// is byte-for-byte unchanged and the first failure is reported.
    pub fn apply(
        &self,
        reg: &mut AccountRegistry,
        addr: &Address,
        op: Operation,
        ids: &Vec<Identity>,
        interaction: Option<bool>,
    ) -> (r: Result<(), ProtocolError>)
        ensures
            ({
                let outcome = apply_model(
                    old(reg)@,
                    addr@,
                    op@,
                    identities_view(ids@),
                    expected_chain(op@, identities_view(ids@), self.component_id@),
                    interaction,
                );
                final(reg)@ == outcome.0 && r == outcome.1
            }),
    {
        let chain = self.expected_constraint_chain(&op, ids);
        self.apply_with_chain(reg, addr, op, ids, &chain, interaction)
    }
}

} // verus!
