//! Building a description of an outbound HTTP call.
//!
//! An [`HttpRequest`] is an owned value. Every setter takes the request and
//! hands back the changed request; nothing else is touched.

pub mod cost;
pub mod dispatch;

pub use cost::HttpsOutcallCost;

use vstd::prelude::*;
use vstd::string::StringSliceAdditionalSpecFns;
use vstd::string::StrSliceExecFns;

verus! {

/// The HTTP methods an outbound call can use.
#[derive(Copy, Clone, PartialEq, Eq, Hash, Debug, Structural)]
pub enum HttpMethod {
    GET,
    POST,
    HEAD,
}

/// One header line: a name and its value.
#[derive(Clone, PartialEq, Eq, Hash, Debug)]
pub struct HttpHeader {
    pub name: String,
    pub value: String,
}

/// What a header holds, as text.
pub struct HeaderView {
    pub name: Seq<char>,
    pub value: Seq<char>,
}

impl View for HttpHeader {
    type V = HeaderView;

    open spec fn view(&self) -> HeaderView {
        HeaderView { name: self.name@, value: self.value@ }
    }
}

/// A reference to the function that reduces a raw response before replicas
/// compare it: the function's name, and bytes handed to it with each response.
#[derive(Clone, PartialEq, Eq, Hash, Debug)]
pub struct TransformContext {
    pub function: String,
    pub context: Vec<u8>,
}

/// What a transform reference holds.
pub struct TransformView {
    pub function: Seq<char>,
    pub context: Seq<u8>,
}

impl View for TransformContext {
    type V = TransformView;

    open spec fn view(&self) -> TransformView {
        TransformView { function: self.function@, context: self.context@ }
    }
}

/// The description of one outbound call.
#[derive(Clone, PartialEq, Eq, Debug)]
pub struct HttpRequest {
    pub url: String,
    pub max_response_bytes: Option<u64>,
    pub method: HttpMethod,
    pub headers: Vec<HttpHeader>,
    pub body: Option<Vec<u8>>,
    pub transform: Option<TransformContext>,
}

/// What a request holds: the target, the method, the headers in the order in
/// which they were added, the body if one was set, the cap on the response's
/// size if one was set, and the transform if one was bound.
pub struct RequestView {
    pub url: Seq<char>,
    pub max_response_bytes: Option<u64>,
    pub method: HttpMethod,
    pub headers: Seq<HeaderView>,
    pub body: Option<Seq<u8>>,
    pub transform: Option<TransformView>,
}

impl View for HttpRequest {
    type V = RequestView;

    open spec fn view(&self) -> RequestView {
        RequestView {
            url: self.url@,
            max_response_bytes: self.max_response_bytes,
            method: self.method,
            headers: header_views(self.headers@),
            body: match self.body {
                Some(bytes) => Some(bytes@),
                None => None,
            },
            transform: match self.transform {
                Some(transform) => Some(transform@),
                None => None,
            },
        }
    }
}

/// The headers of a list, each as text, in the list's order.
pub open spec fn header_views(headers: Seq<HttpHeader>) -> Seq<HeaderView> {
    headers.map_values(|header: HttpHeader| header@)
}

/// Name and value pairs as headers, in the pairs' order.
pub open spec fn pair_views(pairs: Seq<(String, String)>) -> Seq<HeaderView> {
    pairs.map_values(|pair: (String, String)| HeaderView { name: pair.0@, value: pair.1@ })
}

/// The header that announces a JSON body.
pub open spec fn json_content_type() -> HeaderView {
    HeaderView { name: "Content-Type"@, value: "application/json"@ }
}

/// A request after headers were added to it: the headers it had, then the
/// added ones, in their order; all else as before.
pub open spec fn with_headers(before: RequestView, added: Seq<HeaderView>) -> RequestView {
    RequestView { headers: before.headers + added, ..before }
}

/// A request after it was made a POST of `payload` with the response cap
/// `cap`: the method is POST, the JSON content type follows the headers it
/// had, the cap is `cap`, the body is `payload`; URL and transform as before.
pub open spec fn posted(before: RequestView, payload: Seq<u8>, cap: Option<u64>) -> RequestView {
    RequestView {
        method: HttpMethod::POST,
        headers: before.headers.push(json_content_type()),
        max_response_bytes: cap,
        body: Some(payload),
        ..before
    }
}

/// What a POST always has: the method POST, the given payload as its body,
/// the given cap, and the JSON content type as its last header, after the
/// headers that were there.
pub proof fn lemma_post_shape(before: RequestView, payload: Seq<u8>, cap: Option<u64>)
    ensures
        posted(before, payload, cap).method == HttpMethod::POST,
        posted(before, payload, cap).body == Some(payload),
        posted(before, payload, cap).max_response_bytes == cap,
        posted(before, payload, cap).headers.len() == before.headers.len() + 1,
        posted(before, payload, cap).headers.last() == json_content_type(),
        posted(before, payload, cap).headers.drop_last() == before.headers,
{
    assert(posted(before, payload, cap).headers.drop_last() =~= before.headers);
}

/// A POST of a request that had no JSON content type among its headers has
/// exactly one: the header in the last place, and in no other.
pub proof fn lemma_post_single_content_type(
    before: RequestView,
    payload: Seq<u8>,
    cap: Option<u64>,
)
    requires
        !before.headers.contains(json_content_type()),
    ensures
        forall|i: int|
            0 <= i < posted(before, payload, cap).headers.len() ==> (#[trigger] posted(
                before,
                payload,
                cap,
            ).headers[i] == json_content_type() <==> i == before.headers.len()),
{
    let after = posted(before, payload, cap).headers;
    assert forall|i: int| 0 <= i < after.len() implies (#[trigger] after[i] == json_content_type()
        <==> i == before.headers.len()) by {
        if i < before.headers.len() {
            assert(after[i] == before.headers[i]);
            assert(before.headers.contains(before.headers[i]));
        }
    }
}

/// Headers accumulate: adding `first` and then `second` leaves the headers
/// that were there, then those of `first`, then those of `second`. Nothing is
/// replaced and the order of the calls is kept.
pub proof fn lemma_headers_accumulate(
    before: RequestView,
    first: Seq<HeaderView>,
    second: Seq<HeaderView>,
)
    ensures
        with_headers(with_headers(before, first), second) == with_headers(before, first + second),
        with_headers(with_headers(before, first), second).headers == before.headers + first
            + second,
        before.headers.len() == 0 ==> with_headers(with_headers(before, first), second).headers
            == first + second,
{
    assert((before.headers + first) + second =~= before.headers + (first + second));
    if before.headers.len() == 0 {
        assert(before.headers + first + second =~= first + second);
    }
}

impl HttpRequest {
    /// A request for `url`: a GET without headers, body, response cap or
    /// transform.
    pub fn new(url: String) -> (request: HttpRequest)
        ensures
            request@ == (RequestView {
                url: url@,
                max_response_bytes: None,
                method: HttpMethod::GET,
                headers: Seq::empty(),
                body: None,
                transform: None,
            }),
    {
        let request = HttpRequest {
            url,
            headers: Vec::new(),
            method: HttpMethod::GET,
            max_response_bytes: None,
            transform: None,
            body: None,
        };
        assert(header_views(request.headers@) =~= Seq::empty());
        request
    }

    /// Makes the request a GET; nothing else changes.
    pub fn get(self) -> (request: HttpRequest)
        ensures
            request@ == (RequestView { method: HttpMethod::GET, ..self@ }),
    {
        self.method(HttpMethod::GET)
    }

    /// Makes the request a POST of `json_string`: the method becomes POST, a
    /// `Content-Type: application/json` header is appended to the headers
    /// already there, the response cap becomes `max_response_bytes` (unset
    /// where that is `None`), and the body becomes the bytes of `json_string`.
    pub fn post(self, json_string: &str, max_response_bytes: Option<u64>) -> (request: HttpRequest)
        ensures
            request@ == posted(self@, json_string.spec_bytes(), max_response_bytes),
    {
        let ghost before = self@;
        let mut pairs: Vec<(String, String)> = Vec::new();
        pairs.push(("Content-Type".to_owned(), "application/json".to_owned()));
        assert(pair_views(pairs@) =~= seq![json_content_type()]);
        let request = self.method(HttpMethod::POST).add_headers(pairs).max_response_bytes(
            max_response_bytes,
        ).body(json_string);
        assert(request@.headers =~= before.headers.push(json_content_type()));
        request
    }

    /// Replaces the target URL; nothing else changes.
    pub fn url(self, url: &str) -> (request: HttpRequest)
        ensures
            request@ == (RequestView { url: url@, ..self@ }),
    {
        let mut request = self;
        request.url = url.to_owned();
        request
    }

    /// Replaces the method; nothing else changes.
    pub fn method(self, http_method: HttpMethod) -> (request: HttpRequest)
        ensures
            request@ == (RequestView { method: http_method, ..self@ }),
    {
        let mut request = self;
        request.method = http_method;
        request
    }

    /// Sets the body to the bytes of `body`; nothing else changes.
    pub fn body(self, body: &str) -> (request: HttpRequest)
        ensures
            request@ == (RequestView { body: Some(body.spec_bytes()), ..self@ }),
    {
        let mut request = self;
        request.body = Some(body.as_bytes_vec());
        request
    }

    /// Appends `headers`, in their order, after the headers already there.
    /// No header is replaced or removed, and a name may occur more than once.
    pub fn add_headers(self, headers: Vec<(String, String)>) -> (request: HttpRequest)
        ensures
            request@ == with_headers(self@, pair_views(headers@)),
    {
        let ghost before = self@;
        let mut request = self;
        let mut i: usize = 0;
        while i < headers.len()
            invariant
                i <= headers@.len(),
                request@ == (RequestView {
                    headers: before.headers + pair_views(headers@.take(i as int)),
                    ..before
                }),
            decreases headers@.len() - i,
        {
            let ghost so_far = request@.headers;
            let pair = &headers[i];
            let header = HttpHeader { name: pair.0.clone(), value: pair.1.clone() };
            request.headers.push(header);
            assert(request@.headers =~= so_far.push(header@));
            assert(pair_views(headers@.take(i + 1)) =~= pair_views(headers@.take(i as int)).push(
                header@,
            ));
            assert(request@.headers =~= before.headers + pair_views(headers@.take(i + 1)));
            i = i + 1;
        }
        assert(headers@.take(i as int) =~= headers@);
        request
    }

    /// Binds the transform named `method`, with `context` as the bytes handed
    /// to it. Without a context the transform gets the empty byte sequence.
    /// Nothing else changes.
    pub fn transform_context(self, method: &str, context: Option<Vec<u8>>) -> (request: HttpRequest)
        ensures
            request@ == (RequestView {
                transform: Some(
                    TransformView {
                        function: method@,
                        context: match context {
                            Some(bytes) => bytes@,
                            None => Seq::empty(),
                        },
                    },
                ),
                ..self@
            }),
    {
        let bytes = match context {
            Some(bytes) => bytes,
            None => Vec::new(),
        };
        let mut request = self;
        request.transform = Some(TransformContext { function: method.to_owned(), context: bytes });
        request
    }

    /// Sets the cap on the response's size, or removes it where
    /// `max_response_bytes` is `None`; nothing else changes.
    pub fn max_response_bytes(self, max_response_bytes: Option<u64>) -> (request: HttpRequest)
        ensures
            request@ == (RequestView { max_response_bytes: max_response_bytes, ..self@ }),
    {
        let mut request = self;
        request.max_response_bytes = max_response_bytes;
        request
    }
}

} // verus!
