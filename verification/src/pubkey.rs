//! Account addresses are the framework's own `Pubkey`, carried through the
//! logic as opaque values and compared only for equality.
use anchor_lang::prelude::Pubkey;
use vstd::prelude::*;

verus! {

#[verifier::external_type_specification]
#[verifier::external_body]
pub struct ExPubkey(Pubkey);

/// Compares two addresses with `Pubkey`'s `PartialEq`, which `Address` derives
/// over its 32 bytes; the contract claims that the comparison is exactly
/// equality of the two values.
#[verifier::external_body]
pub fn same_key(a: &Pubkey, b: &Pubkey) -> (r: bool)
    ensures
        r == (*a == *b),
{
    a == b
}

} // verus!
