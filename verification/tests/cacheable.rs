use burley::is_cacheable_response;
use http::{header, HeaderMap, HeaderValue, Method, StatusCode};

fn with_cache_control(values: &[&[u8]]) -> HeaderMap {
    let mut headers = HeaderMap::new();
    for value in values {
        headers.append(
            header::CACHE_CONTROL,
            HeaderValue::from_bytes(value).expect("valid header"),
        );
    }
    headers
}

fn get_ok(headers: &HeaderMap) -> bool {
    is_cacheable_response(Method::GET.as_str(), StatusCode::OK.as_u16(), headers, 128, 1024)
}

#[test]
fn get_200_without_forbidden_headers_is_cacheable() {
    let headers = HeaderMap::new();

    assert!(is_cacheable_response(
        Method::GET.as_str(),
        StatusCode::OK.as_u16(),
        &headers,
        128,
        1024
    ));
}

#[test]
fn non_ok_status_is_not_cacheable() {
    let headers = HeaderMap::new();
    assert!(!is_cacheable_response(
        Method::GET.as_str(),
        StatusCode::HTTP_VERSION_NOT_SUPPORTED.as_u16(),
        &headers,
        128,
        1024
    ));
}

#[test]
fn massive_body_is_not_cacheable() {
    let headers = HeaderMap::new();
    assert!(!is_cacheable_response(
        Method::GET.as_str(),
        StatusCode::HTTP_VERSION_NOT_SUPPORTED.as_u16(),
        &headers,
        1024,
        128,
    ));
}

#[test]
fn non_get_response_is_not_cacheable() {
    let headers = HeaderMap::new();

    assert!(!is_cacheable_response(
        Method::POST.as_str(),
        StatusCode::OK.as_u16(),
        &headers,
        128,
        1024
    ));
}

#[test]
fn set_cookie_response_is_not_cacheable() {
    let mut headers = HeaderMap::new();
    headers.insert(
        header::SET_COOKIE,
        "session=abc".parse().expect("valid header"),
    );

    assert!(!is_cacheable_response(
        Method::GET.as_str(),
        StatusCode::OK.as_u16(),
        &headers,
        128,
        1024
    ));
}

#[test]
fn no_store_response_is_not_cacheable() {
    let mut headers = HeaderMap::new();
    headers.insert(
        header::CACHE_CONTROL,
        "private, no-store".parse().expect("valid header"),
    );

    assert!(!is_cacheable_response(
        Method::GET.as_str(),
        StatusCode::OK.as_u16(),
        &headers,
        128,
        1024
    ));
}

#[test]
fn body_at_the_limit_is_cacheable() {
    let headers = HeaderMap::new();
    assert!(is_cacheable_response("GET", 200, &headers, 1024, 1024));
    assert!(!is_cacheable_response("GET", 200, &headers, 1025, 1024));
}

#[test]
fn only_status_200_is_cacheable() {
    let headers = HeaderMap::new();
    assert!(!is_cacheable_response("GET", 201, &headers, 1, 10));
    assert!(!is_cacheable_response("GET", 304, &headers, 1, 10));
    assert!(!is_cacheable_response("GET", 404, &headers, 1, 10));
}

#[test]
fn method_must_be_exactly_get() {
    let headers = HeaderMap::new();
    assert!(!is_cacheable_response("get", 200, &headers, 1, 10));
    assert!(!is_cacheable_response("HEAD", 200, &headers, 1, 10));
    assert!(!is_cacheable_response("GETS", 200, &headers, 1, 10));
    assert!(!is_cacheable_response("", 200, &headers, 1, 10));
}

#[test]
fn no_store_ignores_case_and_surrounding_space() {
    assert!(!get_ok(&with_cache_control(&[b"NO-STORE"])));
    assert!(!get_ok(&with_cache_control(&[b"No-Store"])));
    assert!(!get_ok(&with_cache_control(&[b"max-age=0,\t no-store \t"])));
    assert!(!get_ok(&with_cache_control(&[b"no-store,max-age=60"])));
}

#[test]
fn other_directives_allow_storing() {
    assert!(get_ok(&with_cache_control(&[b"max-age=60, public"])));
    assert!(get_ok(&with_cache_control(&[b"no-storex"])));
    assert!(get_ok(&with_cache_control(&[b"no-cache"])));
    assert!(get_ok(&with_cache_control(&[b"no store"])));
    assert!(get_ok(&with_cache_control(&[b""])));
    assert!(get_ok(&with_cache_control(&[b","])));
}

#[test]
fn no_store_in_any_value_forbids_storing() {
    assert!(!get_ok(&with_cache_control(&[b"public", b"no-store"])));
    assert!(!get_ok(&with_cache_control(&[b"no-store", b"public"])));
}

#[test]
fn value_that_is_not_text_is_ignored() {
    assert!(get_ok(&with_cache_control(&[b"no-store, \x80"])));
    assert!(!get_ok(&with_cache_control(&[b"no-store, \x80", b"no-store"])));
}

#[test]
fn set_cookie_in_any_case_is_found() {
    let mut headers = HeaderMap::new();
    headers.insert("Set-Cookie", "a=b".parse().expect("valid header"));
    assert!(!get_ok(&headers));
}
