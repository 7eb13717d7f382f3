//! Origins and dispatch errors shared by all pallets.

use vstd::prelude::*;

verus! {

/// An account, as the test runtime of these pallets defines it.
pub type AccountId = u64;

/// A block number, as the test runtime of these pallets defines it.
pub type BlockNumber = u64;

/// The origin of a dispatchable call.
#[derive(Clone, Copy, Debug, PartialEq, Eq)]
pub enum Origin {
    /// The root (sudo) origin.
    Root,
    /// A call signed by an account.
    Signed(AccountId),
    /// An unsigned call.
    Unsigned,
}

/// The error `ensure_signed` gives for an origin that is not signed.
#[derive(Clone, Copy, Debug, PartialEq, Eq)]
pub struct BadOrigin;

/// The error of a dispatchable: a bad origin, or an error of the pallet itself.
#[derive(Clone, Copy, Debug, PartialEq, Eq)]
pub enum DispatchError<E> {
    BadOrigin,
    Module(E),
}

/// The account that signed `origin`, if it is signed.
pub open spec fn signer_of(origin: Origin) -> Option<AccountId> {
    match origin {
        Origin::Signed(who) => Some(who),
        _ => None,
    }
}

/// Returns the signer of a signed origin, and `BadOrigin` for any other.
pub fn ensure_signed(origin: Origin) -> (r: Result<AccountId, BadOrigin>)
    ensures
        match signer_of(origin) {
            Some(who) => r == Ok::<AccountId, BadOrigin>(who),
            None => r == Err::<AccountId, BadOrigin>(BadOrigin),
        },
{
    match origin {
        Origin::Signed(who) => Ok(who),
        _ => Err(BadOrigin),
    }
}

} // verus!
