//! Handing a call to the host and reading its outcome.
//!
//! The host performs the call and suspends the caller meanwhile; that part is
//! not here. Here is what is decided on either side of it: what is submitted
//! (the request, its fee and the entry point), and what the caller gets for
//! each thing the host can answer. A submitted call ends in exactly one of two
//! ways: the host rejected it, or the target answered. Nothing is retried.

use crate::http::cost::quote;
use crate::http::{HttpHeader, HttpRequest};
use candid::Nat;
use vstd::prelude::*;

verus! {

/// The natural number of the interface description language, of any size.
/// It is carried through as it is; nothing here reads it.
#[verifier::external_type_specification]
#[verifier::external_body]
pub struct ExNat(Nat);

/// What the target answered: a status code, the response's headers in order,
/// and its body, already reduced by the transform where one was bound.
#[derive(PartialEq, Eq, Debug)]
pub struct HttpResponse {
    pub status: Nat,
    pub headers: Vec<HttpHeader>,
    pub body: Vec<u8>,
}

/// The code with which the host rejects a call.
#[derive(Copy, Clone, PartialEq, Eq, Hash, Debug, Structural)]
pub enum RejectionCode {
    NoError,
    SysFatal,
    SysTransient,
    DestinationInvalid,
    CanisterReject,
    CanisterError,
    Unknown,
}

/// The host's entry points for outbound calls.
#[derive(Copy, Clone, PartialEq, Eq, Hash, Debug, Structural)]
pub enum EntryPoint {
    /// The plain outcall. A transform, if any, is the one named in the request.
    Plain,
    /// The outcall that installs a function supplied with this one call as
    /// the transform.
    WithClosure,
}

/// What is handed to the host: the request, the fee paid for it, and the
/// entry point.
#[derive(Clone, PartialEq, Eq, Debug)]
pub struct Submission {
    pub request: HttpRequest,
    pub cycles: u128,
    pub entry: EntryPoint,
}

/// Why a call failed.
#[derive(Copy, Clone, PartialEq, Eq, Hash, Debug, Structural)]
pub enum FailureKind {
    /// The host rejected the call: it never reached the network, or it broke
    /// a rule that the host enforces.
    HostRejected,
    /// The target answered with a status that reports an error. No call ends
    /// with this kind: such an answer is a success that carries the status.
    /// It names the case for callers that sort responses themselves.
    RemoteStatus,
}

/// How a call ended.
#[derive(PartialEq, Eq, Debug)]
pub enum Outcome {
    /// The target answered. Any status counts, also one that reports an
    /// error: what to make of it is the caller's business.
    Success(HttpResponse),
    /// The call failed, with the host's message.
    Failure(FailureKind, String),
}

impl HttpRequest {
    /// Prepares the request for the host's plain entry point: the request as
    /// it is, with its fee.
    pub fn submit(self) -> (submission: Submission)
        ensures
            submission.request == self,
            submission.cycles == quote(self@),
            submission.entry == EntryPoint::Plain,
    {
        let cycles = self.calculate_cycle_cost();
        Submission { request: self, cycles, entry: EntryPoint::Plain }
    }

    /// Prepares the request for the entry point that takes a transform
    /// function with the call. The host installs that function as the
    /// request's transform, so the request must not name one itself.
    pub fn submit_with_closure(self) -> (submission: Submission)
        requires
            self.transform is None,
        ensures
            submission.request == self,
            submission.cycles == quote(self@),
            submission.entry == EntryPoint::WithClosure,
    {
        let cycles = self.calculate_cycle_cost();
        Submission { request: self, cycles, entry: EntryPoint::WithClosure }
    }
}

/// Reads the host's answer to a submitted call. A response is a success
/// whatever its status, and is handed on untouched. A rejection is a failure
/// that carries the host's message; the code is dropped.
pub fn resolve(reply: Result<HttpResponse, (RejectionCode, String)>) -> (outcome: Outcome)
    ensures
        outcome == (match reply {
            Ok(response) => Outcome::Success(response),
            Err(rejection) => Outcome::Failure(FailureKind::HostRejected, rejection.1),
        }),
{
    match reply {
        Ok(response) => Outcome::Success(response),
        Err(rejection) => Outcome::Failure(FailureKind::HostRejected, rejection.1),
    }
}

impl Outcome {
    /// The outcome as a `Result`: the response, or the failure's message.
    pub fn into_result(self) -> (result: Result<HttpResponse, String>)
        ensures
            result == (match self {
                Outcome::Success(response) => Ok::<HttpResponse, String>(response),
                Outcome::Failure(_, message) => Err::<HttpResponse, String>(message),
            }),
    {
        match self {
            Outcome::Success(response) => Ok(response),
            Outcome::Failure(_, message) => Err(message),
        }
    }
}

} // verus!
