//! The target of a call to another canister.

pub mod traits;

use candid::Principal;
use vstd::prelude::*;

verus! {

/// The identifier of a canister or a user: up to 29 bytes, opaque here. It is
/// carried through as it is; nothing here reads it.
#[verifier::external_type_specification]
#[verifier::external_body]
pub struct ExPrincipal(Principal);

/// A canister to call, named by its principal.
#[derive(Copy, Clone, PartialEq, Eq, Hash, Debug)]
pub struct InterCall(pub Principal);

/// The principal that a text stands for, or `None` where the text is not the
/// textual form of any principal. The textual form is the base-32 encoding of
/// a checksum followed by the principal's bytes, in groups of five characters
/// separated by dashes.
pub uninterp spec fn principal_of_text(text: Seq<char>) -> Option<Principal>;

/// `Principal::from_text` of candid: parses the textual form of a principal.
/// The result depends on the text alone; a text that is refused gives `None`,
/// whatever the reason.
#[verifier::external_body]
fn parse_principal(text: &str) -> (parsed: Option<Principal>)
    ensures
        parsed == principal_of_text(text@),
{
    Principal::from_text(text).ok()
}

impl InterCall {
    /// The canister named by `text`, which must be the textual form of a
    /// principal.
    pub fn from_text(text: &str) -> (target: InterCall)
        requires
            principal_of_text(text@) is Some,
        ensures
            Some(target.0) == principal_of_text(text@),
    {
        match parse_principal(text) {
            Some(principal) => InterCall(principal),
            None => vstd::pervasive::unreached(),
        }
    }

    /// The canister named by `text`, or `None` where `text` is not the
    /// textual form of a principal.
    pub fn try_from_text(text: &str) -> (target: Option<InterCall>)
        ensures
            target == (match principal_of_text(text@) {
                Some(principal) => Some(InterCall(principal)),
                None => None,
            }),
    {
        match parse_principal(text) {
            Some(_) => Some(InterCall::from_text(text)),
            None => None,
        }
    }
}

} // verus!
