use vstd::prelude::*;

verus! {

/// An opaque participant or asset identity, already authenticated by the
/// host before any operation is admitted. The engine never inspects
/// credentials; it only compares identities for equality.
#[derive(Clone, Copy, PartialEq, Eq, Structural, Debug)]
pub struct AccountId {
    pub value: u128,
}

} // verus!
