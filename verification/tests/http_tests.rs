use canister_utils::http::cost::{
    BASE_FEE, DEFAULT_MAX_RESPONSE_BYTES, REQUEST_BYTE_FEE, RESPONSE_BYTE_FEE,
};
use canister_utils::http::{HttpHeader, HttpMethod, HttpRequest, HttpsOutcallCost, TransformContext};

fn header(name: &str, value: &str) -> HttpHeader {
    HttpHeader { name: name.to_string(), value: value.to_string() }
}

fn pair(name: &str, value: &str) -> (String, String) {
    (name.to_string(), value.to_string())
}

#[test]
fn new_request_is_a_bare_get() {
    let request = HttpRequest::new("https://example.com".to_string());
    assert_eq!(request.url, "https://example.com");
    assert_eq!(request.method, HttpMethod::GET);
    assert!(request.headers.is_empty());
    assert_eq!(request.body, None);
    assert_eq!(request.max_response_bytes, None);
    assert_eq!(request.transform, None);
}

#[test]
fn get_sets_only_the_method() {
    let request = HttpRequest::new("u".to_string())
        .method(HttpMethod::HEAD)
        .add_headers(vec![pair("A", "1")])
        .body("x")
        .max_response_bytes(Some(9))
        .get();
    assert_eq!(request.method, HttpMethod::GET);
    assert_eq!(request.url, "u");
    assert_eq!(request.headers, vec![header("A", "1")]);
    assert_eq!(request.body, Some(b"x".to_vec()));
    assert_eq!(request.max_response_bytes, Some(9));
}

#[test]
fn post_sets_method_header_cap_and_body() {
    let request = HttpRequest::new("https://example.com/rpc".to_string())
        .post("{\"jsonrpc\":\"2.0\"}", Some(1024));
    assert_eq!(request.method, HttpMethod::POST);
    assert_eq!(request.headers, vec![header("Content-Type", "application/json")]);
    assert_eq!(request.body, Some(b"{\"jsonrpc\":\"2.0\"}".to_vec()));
    assert_eq!(request.max_response_bytes, Some(1024));
    assert_eq!(request.url, "https://example.com/rpc");
    assert_eq!(request.transform, None);
}

#[test]
fn post_without_cap_leaves_the_cap_unset() {
    let request =
        HttpRequest::new("u".to_string()).max_response_bytes(Some(5)).post("{}", None);
    assert_eq!(request.max_response_bytes, None);
    assert_eq!(request.body, Some(b"{}".to_vec()));
}

#[test]
fn post_has_exactly_one_content_type_header() {
    let request = HttpRequest::new("u".to_string())
        .add_headers(vec![pair("Accept", "*/*")])
        .post("{}", None);
    let json = header("Content-Type", "application/json");
    assert_eq!(request.headers.iter().filter(|h| **h == json).count(), 1);
    assert_eq!(request.headers, vec![header("Accept", "*/*"), json]);
}

#[test]
fn post_appends_after_existing_headers() {
    let request = HttpRequest::new("u".to_string())
        .add_headers(vec![pair("Content-Type", "application/json")])
        .post("{}", None);
    assert_eq!(request.headers.len(), 2);
}

#[test]
fn post_body_is_the_payload_in_utf8() {
    let request = HttpRequest::new("u".to_string()).post("é€", None);
    assert_eq!(request.body, Some(vec![0xc3, 0xa9, 0xe2, 0x82, 0xac]));
}

#[test]
fn url_replaces_the_url() {
    let request = HttpRequest::new("a".to_string()).post("{}", Some(1)).url("https://b");
    assert_eq!(request.url, "https://b");
    assert_eq!(request.method, HttpMethod::POST);
    assert_eq!(request.max_response_bytes, Some(1));
    assert_eq!(request.headers.len(), 1);
}

#[test]
fn method_replaces_the_method() {
    let request = HttpRequest::new("a".to_string());
    assert_eq!(request.method(HttpMethod::HEAD).method, HttpMethod::HEAD);
    let request = HttpRequest::new("a".to_string());
    assert_eq!(request.method(HttpMethod::POST).method, HttpMethod::POST);
}

#[test]
fn body_sets_the_bytes() {
    let request = HttpRequest::new("a".to_string()).body("hello");
    assert_eq!(request.body, Some(b"hello".to_vec()));
    let request = request.body("");
    assert_eq!(request.body, Some(vec![]));
    assert_eq!(request.method, HttpMethod::GET);
}

#[test]
fn add_headers_appends_in_call_order() {
    let request = HttpRequest::new("a".to_string())
        .add_headers(vec![pair("A", "1")])
        .add_headers(vec![pair("B", "2")]);
    assert_eq!(request.headers, vec![header("A", "1"), header("B", "2")]);
    assert_ne!(request.headers, vec![header("B", "2")]);
    assert_ne!(request.headers, vec![header("B", "2"), header("A", "1")]);
}

#[test]
fn add_headers_keeps_duplicates_and_order_within_a_call() {
    let request = HttpRequest::new("a".to_string())
        .add_headers(vec![pair("X", "1"), pair("Y", "2"), pair("X", "1")])
        .add_headers(vec![])
        .add_headers(vec![pair("X", "3")]);
    assert_eq!(
        request.headers,
        vec![header("X", "1"), header("Y", "2"), header("X", "1"), header("X", "3")]
    );
}

#[test]
fn transform_context_without_context_is_empty() {
    let request = HttpRequest::new("a".to_string()).transform_context("clean", None);
    assert_eq!(
        request.transform,
        Some(TransformContext { function: "clean".to_string(), context: vec![] })
    );
}

#[test]
fn transform_context_keeps_the_bytes() {
    let bytes: Vec<u8> = vec![0, 255, 7, 7, 0];
    let request =
        HttpRequest::new("a".to_string()).transform_context("clean", Some(bytes.clone()));
    let transform = request.transform.unwrap();
    assert_eq!(transform.function, "clean");
    assert_eq!(transform.context, bytes);
}

#[test]
fn transform_context_replaces_an_earlier_one() {
    let request = HttpRequest::new("a".to_string())
        .transform_context("one", Some(vec![1]))
        .transform_context("two", None);
    assert_eq!(
        request.transform,
        Some(TransformContext { function: "two".to_string(), context: vec![] })
    );
}

#[test]
fn max_response_bytes_sets_and_clears() {
    let request = HttpRequest::new("a".to_string()).max_response_bytes(Some(2048));
    assert_eq!(request.max_response_bytes, Some(2048));
    assert_eq!(request.max_response_bytes(None).max_response_bytes, None);
}

#[test]
fn cost_of_a_bare_get() {
    // 19 bytes of URL and 3 of method; the default cap of 2,000,000 bytes.
    let request = HttpRequest::new("https://example.com".to_string());
    assert_eq!(request.calculate_cycle_cost(), 49_140_000 + 5_200 * 22 + 10_400 * 2_000_000);
    assert_eq!(request.calculate_cycle_cost(), 20_849_254_400);
}

#[test]
fn cost_of_a_post() {
    // URL 5, header 12 + 16, body 2, method 4: 39 bytes; cap 1000.
    let request = HttpRequest::new("https".to_string()).post("{}", Some(1000));
    assert_eq!(HttpsOutcallCost::request_size(&request), 39);
    assert_eq!(HttpsOutcallCost::max_response_bytes(&request), 1000);
    assert_eq!(request.calculate_cycle_cost(), 49_140_000 + 5_200 * 39 + 10_400 * 1000);
    assert_eq!(request.calculate_cycle_cost(), 59_742_800);
}

#[test]
fn cost_follows_the_schedule() {
    let request = HttpRequest::new("abc".to_string())
        .method(HttpMethod::HEAD)
        .add_headers(vec![pair("k", "v"), pair("kk", "vvv")])
        .max_response_bytes(Some(0));
    let size: u128 = 3 + 4 + 2 + 5;
    assert_eq!(HttpsOutcallCost::request_size(&request), size);
    assert_eq!(HttpsOutcallCost::total(&request), BASE_FEE + REQUEST_BYTE_FEE * size);
    assert_eq!(HttpsOutcallCost::total(&request), request.calculate_cycle_cost());
    let uncapped = request.max_response_bytes(None);
    assert_eq!(HttpsOutcallCost::max_response_bytes(&uncapped), DEFAULT_MAX_RESPONSE_BYTES);
    assert_eq!(
        uncapped.calculate_cycle_cost(),
        BASE_FEE + REQUEST_BYTE_FEE * size + RESPONSE_BYTE_FEE * 2_000_000
    );
}

#[test]
fn cost_counts_bytes_not_characters() {
    let ascii = HttpRequest::new("ab".to_string()).max_response_bytes(Some(0));
    let wide = HttpRequest::new("é€".to_string()).max_response_bytes(Some(0));
    assert_eq!(HttpsOutcallCost::request_size(&ascii), 2 + 3);
    assert_eq!(HttpsOutcallCost::request_size(&wide), 5 + 3);
}

#[test]
fn cost_is_the_same_each_time() {
    let request = HttpRequest::new("https://example.com".to_string())
        .post("{\"a\":1}", Some(4096))
        .transform_context("t", Some(vec![1, 2, 3]));
    let first = request.calculate_cycle_cost();
    let second = request.calculate_cycle_cost();
    assert_eq!(first, second);
    assert_eq!(request.clone().calculate_cycle_cost(), first);
}

#[test]
fn cost_depends_on_shape_only() {
    let a = HttpRequest::new("https://aaa".to_string())
        .add_headers(vec![pair("ab", "cd")])
        .body("xyz")
        .transform_context("one", None);
    let b = HttpRequest::new("https://bbb".to_string())
        .add_headers(vec![pair("a", "bcd")])
        .body("123")
        .transform_context("another", Some(vec![9; 100]));
    assert_eq!(a.calculate_cycle_cost(), b.calculate_cycle_cost());
}

#[test]
fn cost_grows_with_the_body() {
    let mut last = 0u128;
    for len in [0usize, 1, 2, 100, 10_000] {
        let body = "x".repeat(len);
        let cost = HttpRequest::new("u".to_string()).body(&body).calculate_cycle_cost();
        assert!(cost >= last);
        last = cost;
    }
    let without = HttpRequest::new("u".to_string()).calculate_cycle_cost();
    let with_empty = HttpRequest::new("u".to_string()).body("").calculate_cycle_cost();
    assert_eq!(without, with_empty);
}

#[test]
fn cost_grows_with_the_response_cap() {
    let mut last = 0u128;
    for cap in [0u64, 1, 1024, 2_000_000, u64::MAX] {
        let cost = HttpRequest::new("u".to_string())
            .max_response_bytes(Some(cap))
            .calculate_cycle_cost();
        assert!(cost >= last);
        last = cost;
    }
    assert_eq!(
        HttpRequest::new("u".to_string()).max_response_bytes(Some(u64::MAX)).calculate_cycle_cost(),
        49_140_000 + 5_200 * 4 + 10_400 * (u64::MAX as u128)
    );
}

#[test]
fn unset_cap_costs_as_the_default_cap() {
    let unset = HttpRequest::new("u".to_string()).calculate_cycle_cost();
    let default = HttpRequest::new("u".to_string())
        .max_response_bytes(Some(2_000_000))
        .calculate_cycle_cost();
    assert_eq!(unset, default);
}
