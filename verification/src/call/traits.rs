//! Conversions into a call target.

use crate::call::InterCall;
use candid::Principal;
use vstd::prelude::*;
use vstd::std_specs::convert::FromSpecImpl;

verus! {

impl From<Principal> for InterCall {
    fn from(principal: Principal) -> (target: InterCall) {
        InterCall(principal)
    }
}

impl FromSpecImpl<Principal> for InterCall {
    open spec fn obeys_from_spec() -> bool {
        true
    }

    open spec fn from_spec(principal: Principal) -> InterCall {
        InterCall(principal)
    }
}

impl From<&Principal> for InterCall {
    fn from(principal: &Principal) -> (target: InterCall) {
        InterCall(*principal)
    }
}

impl FromSpecImpl<&Principal> for InterCall {
    open spec fn obeys_from_spec() -> bool {
        true
    }

    open spec fn from_spec(principal: &Principal) -> InterCall {
        InterCall(*principal)
    }
}

} // verus!
