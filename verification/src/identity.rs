use vstd::prelude::*;

verus! {

/// An opaque participant identity.
///
/// The hosting environment authenticates callers and addresses accounts;
/// the escrow logic only ever compares identities for equality, so a single
/// machine word is enough to stand for one.
#[derive(Clone, Copy, Debug, Hash, PartialEq, Eq, Structural)]
pub struct Identity {
    pub value: u64,
}

} // verus!
