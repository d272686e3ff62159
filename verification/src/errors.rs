//! The reasons for which an operation refuses to act.

use vstd::prelude::*;

verus! {

/// Every failure an entry point can report. Each operation's contract says
/// exactly which inputs produce which variant; a refused call changes no
/// state and moves no value.
#[derive(Clone, Copy, Debug, PartialEq, Eq, Structural)]
pub enum Error {
    /// Initialization was given a royalty rate above 100% (10000 basis points).
    InvalidRoyalty,
    /// Initialization was given a payment asset id that is neither the native
    /// asset nor a syntactically valid fungible-asset identifier.
    InvalidAsset,
    /// A registration request was made although a token class is already issued.
    AlreadyIssued,
    /// The operation needs an issued token class, and none is issued yet.
    TokenNotIssued,
    /// The attached payment is not in the configured payment asset.
    WrongAsset,
    /// The attached payment amount is below the configured unit price.
    InsufficientPayment,
    /// The contract holds no balance of the asset a withdrawal asked for.
    NothingToWithdraw,
}

} // verus!
