//! Run tokens: one is minted for every request, and the scheduler compares the
//! one it runs under with the latest to notice that it has been superseded.

use vstd::prelude::*;

verus! {

/// `token` carries the marks of a random UUID: version 4 in bits 76 to 79 and
/// the variant `10` in bits 62 and 63.
pub open spec fn is_random_uuid(token: u128) -> bool {
    token & 0x0000_0000_0000_f000_c000_0000_0000_0000u128
        == 0x0000_0000_0000_4000_8000_0000_0000_0000u128
}

/// Mints a token: the 128-bit value of `uuid::Uuid::new_v4()`.
///
/// Trusted. The value is random, so the contract claims only what the
/// constructor fixes in every outcome, the version and variant bits. That two
/// tokens differ is likely and not promised.
#[verifier::external_body]
pub(crate) fn fresh_token() -> (token: u128)
    ensures
        is_random_uuid(token),
{
    uuid::Uuid::new_v4().as_u128()
}

} // verus!
