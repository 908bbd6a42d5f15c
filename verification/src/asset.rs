use vstd::prelude::*;

verus! {

/// The asset a deposit must be paid in: the host chain's native asset, or
/// a fungible token the host knows under a numeric identifier.
///
/// The host boundary translates its own token-identifier type to and from
/// this one; the state machine only ever compares assets for equality.
#[derive(Clone, Copy, Debug, PartialEq, Eq, Structural)]
pub enum AssetId {
    /// The host chain's native asset.
    Native,
    /// A fungible token, by the host's numeric identifier for it.
    Token(u64),
}

} // verus!
