//! The identity of a network participant, as the host chain defines it.

use vstd::prelude::*;

verus! {

/// `anchor_lang::prelude::Pubkey`, the 32-byte address the host verifies
/// callers against. The library never looks inside one: it stores the value
/// it is handed and copies it into the events it emits.
#[verifier::external_type_specification]
#[verifier::external_body]
pub struct ExPubkey(anchor_lang::prelude::Pubkey);

} // verus!
