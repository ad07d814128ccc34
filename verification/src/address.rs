//! Addresses and identities.
//!
//! An address is a fixed 32-byte value. It names a record in the registry,
//! the component that owns a record, and the public key of an identity: the
//! three live in the same address space.

use vstd::prelude::*;

verus! {

/// A 32-byte address. Also used as a public key and as a component id.
#[derive(Clone, Copy, Debug, PartialEq, Eq, Hash)]
pub struct Address {
    pub bytes: [u8; 32],
}

impl View for Address {
    type V = Seq<u8>;

    open spec fn view(&self) -> Seq<u8> {
        self.bytes@
    }
}

impl Address {
    pub fn new(bytes: [u8; 32]) -> (r: Address)
        ensures
            r@ == bytes@,
    {
        Address { bytes }
    }

    /// Whether two addresses hold the same bytes.
    pub fn equals(&self, other: &Address) -> (r: bool)
        ensures
            r <==> self@ == other@,
    {
        let mut i: usize = 0;
        while i < 32
            invariant
                i <= 32,
                forall|j: int| 0 <= j < i ==> self.bytes@[j] == other.bytes@[j],
            decreases 32 - i,
        {
            if self.bytes[i] != other.bytes[i] {
                return false;
            }
            i += 1;
        }
        proof {
            assert(self@ =~= other@);
        }
        true
    }

    /// The address as a byte vector, for use as a derivation seed.
    pub fn to_seed(&self) -> (r: Vec<u8>)
        ensures
            r@ == self@,
    {
        let mut out: Vec<u8> = Vec::new();
        let mut i: usize = 0;
        while i < 32
            invariant
                i <= 32,
                out@ =~= self.bytes@.subrange(0, i as int),
            decreases 32 - i,
        {
            out.push(self.bytes[i]);
            i += 1;
        }
        proof {
            assert(out@ =~= self@);
        }
        out
    }
}

/// The spec-level value of an identity: its public key and whether it signed
/// the request.
pub struct IdentityModel {
    pub public_key: Seq<u8>,
    pub signed: bool,
}

/// An identity supplied with a request by the runtime. Signature validity is
/// established by the runtime and handed in as a boolean fact; it is never
/// computed here.
#[derive(Clone, Copy, Debug)]
pub struct Identity {
    pub public_key: Address,
    pub signed: bool,
}

impl View for Identity {
    type V = IdentityModel;

    open spec fn view(&self) -> IdentityModel {
        IdentityModel { public_key: self.public_key@, signed: self.signed }
    }
}

/// The spec-level values of a request's identities, in role order.
pub open spec fn identities_view(ids: Seq<Identity>) -> Seq<IdentityModel> {
    ids.map_values(|i: Identity| i@)
}

} // verus!
