//! Why a registration is refused.

use vstd::prelude::*;

verus! {

/// The reasons for which a registration is refused. A refused registration
/// changes nothing.
#[derive(Clone, Copy, Debug, PartialEq, Eq, Structural)]
pub enum RegisterError {
    /// The address supplied for the record is not the one derived for the
    /// caller, or no address can be derived for the caller at all.
    AddressMismatch,
    /// An account already exists at the derived address.
    AlreadyRegistered,
    /// The caller cannot pay for the storage of the record.
    InsufficientFunds,
}

} // verus!
