use vstd::prelude::*;

verus! {

/// A stable identity (a principal) held as its raw bytes.
///
/// The host's identity values are opaque fixed-size identifiers; this crate
/// works on their byte representation directly so that every derivation over
/// them can be verified.
#[derive(Clone, Debug, PartialEq, Eq)]
pub struct PrincipalId {
    pub bytes: Vec<u8>,
}

impl PrincipalId {
    /// A valid stable identity carries between 1 and 29 bytes. The deposit
    /// derivation is registered only for such identities: a zero-length
    /// identity has no derived sub-identity, and the host never issues
    /// identities longer than 29 bytes.
    pub open spec fn wf(self) -> bool {
        1 <= self.bytes@.len() <= 29
    }
}

/// An account on a remote ledger: an owning identity together with an
/// optional 32-byte sub-identity that partitions the owner's balance.
#[derive(Clone, Debug, PartialEq, Eq)]
pub struct AccountRef {
    pub owner: PrincipalId,
    pub subaccount: Option<Vec<u8>>,
}

} // verus!
