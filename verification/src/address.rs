//! Account addresses.

use vstd::prelude::*;

verus! {

/// `anchor_lang::prelude::Pubkey`, the address of an account. It is taken as
/// an opaque value: the library only carries addresses from its inputs to the
/// records, instructions and events it gives out, and claims nothing of what
/// an address holds.
#[verifier::external_type_specification]
#[verifier::external_body]
pub struct ExPubkey(anchor_lang::prelude::Pubkey);

} // verus!
