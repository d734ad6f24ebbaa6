//! The fee of an outbound call.
//!
//! The fee is a function of the request's shape alone: the byte lengths of
//! its URL, headers and body, its method, and the cap on the response's size.
//! It reads no clock, no randomness and nothing outside the request, so every
//! replica computes the same fee for the same request before anything is
//! sent. The schedule is the platform's published one for a subnet of
//! thirteen nodes.

use crate::http::{HeaderView, HttpMethod, HttpRequest, RequestView};
use vstd::prelude::*;
use vstd::utf8::encode_utf8;

verus! {

/// The fee charged for every call, whatever its size.
pub const BASE_FEE: u128 = 49_140_000;

/// The fee charged for each byte of the request.
pub const REQUEST_BYTE_FEE: u128 = 5_200;

/// The fee charged for each byte that the response is allowed to have.
pub const RESPONSE_BYTE_FEE: u128 = 10_400;

/// The response-size cap that the platform applies where a request sets none.
pub const DEFAULT_MAX_RESPONSE_BYTES: u64 = 2_000_000;

/// The number of bytes that a text takes in UTF-8.
pub open spec fn text_bytes(text: Seq<char>) -> nat {
    encode_utf8(text).len()
}

/// The number of bytes in a header: those of its name and those of its value.
pub open spec fn header_bytes(header: HeaderView) -> nat {
    text_bytes(header.name) + text_bytes(header.value)
}

/// The number of bytes in all headers of a list together.
pub open spec fn headers_bytes(headers: Seq<HeaderView>) -> nat
    decreases headers.len(),
{
    if headers.len() == 0 {
        0
    } else {
        headers_bytes(headers.drop_last()) + header_bytes(headers.last())
    }
}

/// The number of bytes in a method's name.
pub open spec fn method_bytes(method: HttpMethod) -> nat {
    match method {
        HttpMethod::GET => 3,
        HttpMethod::POST => 4,
        HttpMethod::HEAD => 4,
    }
}

/// The number of bytes in the body; zero where none is set.
pub open spec fn body_bytes(body: Option<Seq<u8>>) -> nat {
    match body {
        Some(bytes) => bytes.len(),
        None => 0,
    }
}

/// The size of a request for the purpose of the fee: the bytes of its URL,
/// headers, body and method name.
pub open spec fn request_bytes(request: RequestView) -> nat {
    text_bytes(request.url) + headers_bytes(request.headers) + body_bytes(request.body)
        + method_bytes(request.method)
}

/// The response size that is paid for: the request's cap, or the platform's
/// default where it sets none.
pub open spec fn response_cap(request: RequestView) -> nat {
    match request.max_response_bytes {
        Some(cap) => cap as nat,
        None => DEFAULT_MAX_RESPONSE_BYTES as nat,
    }
}

/// The fee of a request, as a number without bound.
pub open spec fn exact_cost(request: RequestView) -> nat {
    BASE_FEE as nat + REQUEST_BYTE_FEE as nat * request_bytes(request) + RESPONSE_BYTE_FEE as nat
        * response_cap(request)
}

/// A number as a 128-bit quantity: itself where it fits, the largest
/// 128-bit value where it does not.
pub open spec fn capped(amount: nat) -> u128 {
    if amount <= u128::MAX {
        amount as u128
    } else {
        u128::MAX
    }
}

/// The fee quoted for a request: its exact fee, or the largest 128-bit value
/// where the exact fee does not fit in 128 bits.
pub open spec fn quote(request: RequestView) -> u128 {
    capped(exact_cost(request))
}

/// Two requests have the same shape where their URLs take the same number of
/// bytes, they use the same method, they have the same number of headers and
/// each header takes as many bytes as the header in its place in the other,
/// their bodies have the same length, and they pay for the same response
/// size. What the bytes are, and which transform is bound, is no part of it.
pub open spec fn same_shape(a: RequestView, b: RequestView) -> bool {
    &&& text_bytes(a.url) == text_bytes(b.url)
    &&& a.method == b.method
    &&& a.headers.len() == b.headers.len()
    &&& forall|i: int|
        0 <= i < a.headers.len() ==> header_bytes(#[trigger] a.headers[i]) == header_bytes(
            b.headers[i],
        )
    &&& body_bytes(a.body) == body_bytes(b.body)
    &&& response_cap(a) == response_cap(b)
}

/// Header lists that agree in length and, place by place, in the bytes each
/// header takes, take the same number of bytes in all.
proof fn lemma_headers_bytes_by_place(a: Seq<HeaderView>, b: Seq<HeaderView>)
    requires
        a.len() == b.len(),
        forall|i: int| 0 <= i < a.len() ==> header_bytes(#[trigger] a[i]) == header_bytes(b[i]),
    ensures
        headers_bytes(a) == headers_bytes(b),
    decreases a.len(),
{
    if a.len() > 0 {
        assert(header_bytes(a[a.len() - 1]) == header_bytes(b[a.len() - 1]));
        assert forall|i: int| 0 <= i < a.drop_last().len() implies header_bytes(
            #[trigger] a.drop_last()[i],
        ) == header_bytes(b.drop_last()[i]) by {
            assert(a.drop_last()[i] == a[i]);
            assert(b.drop_last()[i] == b[i]);
        }
        lemma_headers_bytes_by_place(a.drop_last(), b.drop_last());
    }
}

/// Determinism: the quote is a function of the request. Two requests that
/// hold the same values get the same quote, whenever and wherever it is
/// computed.
pub proof fn lemma_quote_deterministic(a: HttpRequest, b: HttpRequest)
    requires
        a@ == b@,
    ensures
        quote(a@) == quote(b@),
{
}

/// The quote depends on the request's shape alone: two requests of the same
/// shape get the same quote, whatever their contents.
pub proof fn lemma_quote_depends_on_shape_only(a: RequestView, b: RequestView)
    requires
        same_shape(a, b),
    ensures
        exact_cost(a) == exact_cost(b),
        quote(a) == quote(b),
{
    lemma_headers_bytes_by_place(a.headers, b.headers);
}

/// Monotonicity: with URL, method and headers fixed, a request with a body at
/// least as long and a paid response size at least as large is quoted at
/// least as much.
pub proof fn lemma_quote_monotone(a: RequestView, b: RequestView)
    requires
        a.url == b.url,
        a.method == b.method,
        a.headers == b.headers,
        body_bytes(a.body) <= body_bytes(b.body),
        response_cap(a) <= response_cap(b),
    ensures
        exact_cost(a) <= exact_cost(b),
        quote(a) <= quote(b),
{
    assert(request_bytes(a) <= request_bytes(b));
    assert(REQUEST_BYTE_FEE as nat * request_bytes(a) <= REQUEST_BYTE_FEE as nat * request_bytes(b))
        by (nonlinear_arith)
        requires
            request_bytes(a) <= request_bytes(b),
    ;
    assert(RESPONSE_BYTE_FEE as nat * response_cap(a) <= RESPONSE_BYTE_FEE as nat * response_cap(b))
        by (nonlinear_arith)
        requires
            response_cap(a) <= response_cap(b),
    ;
}

/// The sum of two capped amounts, capped again.
fn capped_sum(a: u128, b: u128, Ghost(x): Ghost<nat>, Ghost(y): Ghost<nat>) -> (sum: u128)
    requires
        a == capped(x),
        b == capped(y),
    ensures
        sum == capped(x + y),
{
    a.saturating_add(b)
}

/// A capped amount times a positive rate, capped again.
fn capped_product(rate: u128, a: u128, Ghost(x): Ghost<nat>) -> (product: u128)
    requires
        a == capped(x),
        rate >= 1,
    ensures
        product == capped(rate as nat * x),
{
    proof {
        assert(rate as nat * x >= x) by (nonlinear_arith)
            requires
                rate >= 1,
        ;
        if x <= u128::MAX {
            assert(rate as nat * x == rate * a);
        } else {
            assert(rate * a >= a) by (nonlinear_arith)
                requires
                    rate >= 1,
            ;
        }
    }
    match rate.checked_mul(a) {
        Some(product) => product,
        None => u128::MAX,
    }
}

/// The fee schedule for HTTPS outcalls.
pub struct HttpsOutcallCost;

impl HttpsOutcallCost {
    /// The response size that `request` pays for.
    pub fn max_response_bytes(request: &HttpRequest) -> (cap: u64)
        ensures
            cap == response_cap(request@),
    {
        match request.max_response_bytes {
            Some(cap) => cap,
            None => DEFAULT_MAX_RESPONSE_BYTES,
        }
    }

    /// The size of `request` for the purpose of the fee, capped at the
    /// largest 128-bit value.
    pub fn request_size(request: &HttpRequest) -> (size: u128)
        ensures
            size == capped(request_bytes(request@)),
    {
        let ghost view = request@;
        let mut size: u128 = request.url.as_str().as_bytes().len() as u128;
        let mut i: usize = 0;
        while i < request.headers.len()
            invariant
                i <= request.headers@.len(),
                view == request@,
                size == capped(text_bytes(view.url) + headers_bytes(view.headers.take(i as int))),
            decreases request.headers@.len() - i,
        {
            let ghost so_far = text_bytes(view.url) + headers_bytes(view.headers.take(i as int));
            let header = &request.headers[i];
            let name_len = header.name.as_str().as_bytes().len() as u128;
            let value_len = header.value.as_str().as_bytes().len() as u128;
            proof {
                let upto = view.headers.take(i + 1);
                assert(upto.drop_last() =~= view.headers.take(i as int));
                assert(upto.last() == header@);
            }
            size = capped_sum(size, name_len, Ghost(so_far), Ghost(text_bytes(header@.name)));
            size = capped_sum(
                size,
                value_len,
                Ghost(so_far + text_bytes(header@.name)),
                Ghost(text_bytes(header@.value)),
            );
            i = i + 1;
        }
        assert(view.headers.take(i as int) =~= view.headers);
        let ghost headed = text_bytes(view.url) + headers_bytes(view.headers);
        let body_len = match &request.body {
            Some(bytes) => bytes.len() as u128,
            None => 0,
        };
        size = capped_sum(size, body_len, Ghost(headed), Ghost(body_bytes(view.body)));
        let method_len: u128 = match request.method {
            HttpMethod::GET => 3,
            HttpMethod::POST => 4,
            HttpMethod::HEAD => 4,
        };
        capped_sum(
            size,
            method_len,
            Ghost(headed + body_bytes(view.body)),
            Ghost(method_bytes(view.method)),
        )
    }

    /// The fee quoted for `request`.
    pub fn total(request: &HttpRequest) -> (fee: u128)
        ensures
            fee == quote(request@),
    {
        let size = Self::request_size(request);
        let cap = Self::max_response_bytes(request) as u128;
        let for_request = capped_product(REQUEST_BYTE_FEE, size, Ghost(request_bytes(request@)));
        let for_response = capped_product(RESPONSE_BYTE_FEE, cap, Ghost(response_cap(request@)));
        let fixed = capped_sum(
            BASE_FEE,
            for_request,
            Ghost(BASE_FEE as nat),
            Ghost(REQUEST_BYTE_FEE as nat * request_bytes(request@)),
        );
        capped_sum(
            fixed,
            for_response,
            Ghost(BASE_FEE as nat + REQUEST_BYTE_FEE as nat * request_bytes(request@)),
            Ghost(RESPONSE_BYTE_FEE as nat * response_cap(request@)),
        )
    }
}

impl HttpRequest {
    /// The fee that sending this request costs. It depends on the request's
    /// shape alone, so the same request always gets the same quote.
    pub fn calculate_cycle_cost(&self) -> (fee: u128)
        ensures
            fee == quote(self@),
    {
        HttpsOutcallCost::total(self)
    }
}

} // verus!
