use vstd::prelude::*;

verus! {

/// How many yoctoNEAR, the unit that buy-ins are counted in, make one NEAR.
pub const YOCTO_PER_NEAR: u128 = 1_000_000_000_000_000_000_000_000;

/// Calls `near_sdk::NearToken::from_near` and reads the token back with
/// `as_yoctonear`. The contract claims what the crate's code does: the amount
/// is multiplied by ten to the power of 24. That multiplication must not
/// overflow, which `requires` asks of the caller.
#[verifier::external_body]
fn yocto_of_near(near: u128) -> (yocto: u128)
    requires
        near * YOCTO_PER_NEAR <= u128::MAX,
    ensures
        yocto == near * YOCTO_PER_NEAR,
{
    near_sdk::NearToken::from_near(near).as_yoctonear()
}

/// One NEAR in yoctoNEAR.
pub fn one_near() -> (yocto: u128)
    ensures
        yocto == YOCTO_PER_NEAR,
{
    yocto_of_near(1)
}

} // verus!
