//! The Soroban host's address type, as far as the ledger needs it: a value
//! that is carried through and copied, never inspected.

use vstd::prelude::*;

verus! {

/// An account or contract address. Nothing inside it is visible to proofs.
#[verifier::external_type_specification]
#[verifier::external_body]
pub struct ExAddress(soroban_sdk::Address);

/// `Address::clone`, which the library's records rely on when they are
/// copied: the copy is the same address, a second handle to the same host
/// object.
pub assume_specification[ <soroban_sdk::Address as Clone>::clone ](
    address: &soroban_sdk::Address,
) -> (copy: soroban_sdk::Address)
    ensures
        copy == *address,
;

} // verus!
