//! The resource store.
//!
//! The registry is a pure store: it looks records up by address and holds
//! them; it never performs identity or ownership checks itself. Mutating a
//! stored record requires a `ValidatedHandle` for that record's address, and
//! only a successful constraint evaluation issues one, so a caller cannot
//! rewrite state around the protocol.

use vstd::prelude::*;

use crate::account::{RecordModel, RecordState, ResourceAccount};
use crate::constraint::ValidatedHandle;

verus! {

/// First index in `rs[i..]` whose record sits at `addr`, or `None`.
pub open spec fn lookup_from(rs: Seq<RecordModel>, addr: Seq<u8>, i: int) -> Option<int>
    decreases rs.len() - i,
{
    if i < 0 || i >= rs.len() {
        None
    } else if rs[i].address == addr {
        Some(i)
    } else {
        lookup_from(rs, addr, i + 1)
    }
}

/// The index of the record stored at `addr`, or `None`.
pub open spec fn lookup_model(rs: Seq<RecordModel>, addr: Seq<u8>) -> Option<int> {
    lookup_from(rs, addr, 0)
}

/// Addresses are unique: no two stored records share one.
pub open spec fn registry_wf(rs: Seq<RecordModel>) -> bool {
    forall|i: int, j: int|
        0 <= i < rs.len() && 0 <= j < rs.len() && i != j ==> rs[i].address != rs[j].address
}

/// A found index is in range and holds the looked-up address.
pub proof fn lemma_lookup_found(rs: Seq<RecordModel>, addr: Seq<u8>, i: int)
    requires
        0 <= i <= rs.len(),
    ensures
        lookup_from(rs, addr, i) matches Some(k) ==> i <= k < rs.len() && rs[k].address == addr,
        lookup_from(rs, addr, i) is None ==> forall|k: int|
            i <= k < rs.len() ==> rs[k].address != addr,
    decreases rs.len() - i,
{
    if i < rs.len() {
        lemma_lookup_found(rs, addr, i + 1);
    }
}

/// The resource store: records indexed by their unique addresses.
pub struct AccountRegistry {
    pub(crate) records: Vec<ResourceAccount>,
}

impl View for AccountRegistry {
    type V = Seq<RecordModel>;

    closed spec fn view(&self) -> Seq<RecordModel> {
        self.records@.map_values(|r: ResourceAccount| r@)
    }
}

impl AccountRegistry {
    /// Addresses are unique in this store.
    pub open spec fn wf(&self) -> bool {
        registry_wf(self@)
    }

    /// An empty store.
    pub fn new() -> (r: AccountRegistry)
        ensures
            r@ == Seq::<RecordModel>::empty(),
            r.wf(),
    {
        let r = AccountRegistry { records: Vec::new() };
        proof {
            assert(r@ =~= Seq::<RecordModel>::empty());
        }
        r
    }

    /// How many records are stored.
    pub fn len(&self) -> (r: usize)
        ensures
            r == self@.len(),
    {
        self.records.len()
    }

    /// The record at a known index, read-only.
    pub fn record(&self, i: usize) -> (r: &ResourceAccount)
        requires
            i < self@.len(),
        ensures
            r@ == self@[i as int],
    {
        &self.records[i]
    }

    /// The index of the record stored at `addr`, or `None`. A pure read: no
    /// identity or ownership check happens here.
    pub fn lookup(&self, addr: &crate::address::Address) -> (r: Option<usize>)
        ensures
            match r {
                Some(i) => lookup_model(self@, addr@) == Some(i as int),
                None => lookup_model(self@, addr@) is None,
            },
    {
        let ghost rs = self@;
        let mut i: usize = 0;
        while i < self.records.len()
            invariant
                i <= self.records@.len(),
                rs == self@,
                rs.len() == self.records@.len(),
                lookup_model(rs, addr@) == lookup_from(rs, addr@, i as int),
            decreases self.records@.len() - i,
        {
            if self.records[i].address.equals(addr) {
                return Some(i);
            }
            i += 1;
        }
        None
    }

    /// Store a fresh record. Succeeds exactly when no record already sits at
    /// its address; the store is otherwise unchanged. This is the
    /// initialization path; it is not a protocol mutation.
    pub fn insert(&mut self, rec: ResourceAccount) -> (r: bool)
        requires
            old(self).wf(),
        ensures
            final(self).wf(),
            r <==> lookup_model(old(self)@, rec@.address) is None,
            r ==> final(self)@ == old(self)@.push(rec@),
            !r ==> final(self)@ == old(self)@,
    {
        proof {
            lemma_lookup_found(self@, rec@.address, 0);
        }
        match self.lookup(&rec.address) {
            Some(_) => false,
            None => {
                let ghost pre = self@;
                let ghost recm = rec@;
                self.records.push(rec);
                proof {
                    assert(self@ =~= pre.push(recm));
                    lemma_lookup_found(pre, recm.address, 0);
                    assert forall|i: int, j: int|
                        0 <= i < self@.len() && 0 <= j < self@.len() && i != j implies self@[
                        i
                    ].address != self@[j].address by {}
                }
                true
            },
        }
    }

    /// Rewrite the structured fields of the record at `i`. The caller must
    /// hold a mutation handle for that record's address: handles are only
    /// obtainable from a successful constraint evaluation, so a direct write
    /// around the protocol cannot happen.
    pub fn set_state(&mut self, i: usize, state: RecordState, handle: &ValidatedHandle)
        requires
            i < old(self)@.len(),
            handle.target() == old(self)@[i as int].address,
        ensures
            final(self)@ == old(self)@.update(
                i as int,
                RecordModel { state: state@, ..old(self)@[i as int] },
            ),
    {
        let ghost pre = self@;
        let rec = &mut self.records[i];
        rec.state = state;
        proof {
            assert(self@ =~= pre.update(i as int, RecordModel { state: state@, ..pre[i as int] }));
        }
    }

    /// Set or clear the lock flag of the record at `i`, for the reentrancy
    /// guard. Gated by the same mutation handle as any other write.
    pub(crate) fn set_locked(&mut self, i: usize, locked: bool, handle: &ValidatedHandle)
        requires
            i < old(self)@.len(),
            handle.target() == old(self)@[i as int].address,
        ensures
            final(self)@ == old(self)@.update(
                i as int,
                RecordModel { locked, ..old(self)@[i as int] },
            ),
    {
        let ghost pre = self@;
        let rec = &mut self.records[i];
        rec.locked = locked;
        proof {
            assert(self@ =~= pre.update(i as int, RecordModel { locked, ..pre[i as int] }));
        }
    }
}

} // verus!
