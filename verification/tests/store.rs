use burley::proxy::{
    cache_and_tag_response, cache_headers, cached_response, headers_can_be_tagged,
    response_from_cache, set_cache_header, store_response_at, try_cache_and_tag_response,
    try_response_from_cache, try_set_cache_header,
};
use burley::{CacheEntry, DataStore};
use chrono::NaiveDateTime;
use http::{header, HeaderMap, HeaderValue};
use std::path::PathBuf;

fn stamp() -> NaiveDateTime {
    chrono::DateTime::from_timestamp(1_700_000_000, 0)
        .expect("valid time")
        .naive_utc()
}

fn entry(body: &[u8]) -> CacheEntry {
    CacheEntry {
        content: body.to_vec(),
        headers: HeaderMap::new(),
        status: 200,
        timestamp: stamp(),
    }
}

fn store() -> DataStore {
    DataStore::new(1024 * 1024, PathBuf::from("/tmp/burley-store"))
}

#[test]
fn new_store_is_empty() {
    let s = store();
    assert!(s.is_empty());
    assert_eq!(s.len(), 0);
    assert_eq!(s.total_size(), 0);
    assert_eq!(s.max_store_size(), 1024 * 1024);
    assert_eq!(s.store(), &PathBuf::from("/tmp/burley-store"));
    assert!(s.get("http://example.test/").is_none());
}

#[test]
fn get_returns_what_insert_stored() {
    let mut s = store();
    s.insert("http://a.test/".to_string(), entry(b"alpha"));
    s.insert("http://b.test/".to_string(), entry(b"beta!"));
    let a = s.get("http://a.test/").expect("stored");
    assert_eq!(a.content, b"alpha".to_vec());
    assert_eq!(a.status, 200);
    assert_eq!(a.timestamp, stamp());
    let b = s.get("http://b.test/").expect("stored");
    assert_eq!(b.content, b"beta!".to_vec());
    assert!(s.get("http://c.test/").is_none());
    assert_eq!(s.len(), 2);
    assert!(!s.is_empty());
}

#[test]
fn insert_replaces_the_entry_for_a_url() {
    let mut s = store();
    s.insert("http://a.test/".to_string(), entry(b"first"));
    s.insert("http://a.test/".to_string(), entry(b"second entry"));
    assert_eq!(s.len(), 1);
    assert_eq!(s.get("http://a.test/").expect("stored").content, b"second entry".to_vec());
    assert_eq!(s.total_size(), 12);
}

#[test]
fn total_size_sums_the_bodies() {
    let mut s = store();
    s.insert("http://a.test/".to_string(), entry(&[0u8; 100]));
    s.insert("http://b.test/".to_string(), entry(&[1u8; 23]));
    assert_eq!(s.total_size(), 123);
}

#[test]
fn duplicate_copies_the_entry() {
    let mut e = entry(b"body");
    e.headers.insert(header::CONTENT_TYPE, HeaderValue::from_static("text/plain"));
    let copy = e.duplicate();
    assert_eq!(copy.content, e.content);
    assert_eq!(copy.headers, e.headers);
    assert_eq!(copy.status, e.status);
}

#[test]
fn cache_headers_drops_hop_by_hop_fields() {
    let mut headers = HeaderMap::new();
    headers.insert(header::TRANSFER_ENCODING, HeaderValue::from_static("chunked"));
    headers.insert(header::CONNECTION, HeaderValue::from_static("close"));
    headers.insert(header::CONTENT_TYPE, HeaderValue::from_static("text/plain"));
    headers.append(header::VARY, HeaderValue::from_static("a"));
    headers.append(header::VARY, HeaderValue::from_static("b"));
    let cached = cache_headers(&headers);
    assert!(!cached.contains_key(header::TRANSFER_ENCODING));
    assert!(!cached.contains_key(header::CONNECTION));
    assert_eq!(cached[header::CONTENT_TYPE], "text/plain");
    let vary: Vec<_> = cached.get_all(header::VARY).iter().collect();
    assert_eq!(vary, vec!["a", "b"]);
    assert_eq!(cached.len(), 3);
    assert_eq!(headers.len(), 5);
}

#[test]
fn set_cache_header_replaces_the_value() {
    let mut headers = HeaderMap::new();
    headers.append("x-burley-cache", HeaderValue::from_static("one"));
    headers.append("x-burley-cache", HeaderValue::from_static("two"));
    set_cache_header(&mut headers, "hit");
    let values: Vec<_> = headers.get_all("x-burley-cache").iter().collect();
    assert_eq!(values, vec!["hit"]);
}

fn big_map() -> HeaderMap {
    let mut big = HeaderMap::new();
    for i in 0..6554 {
        big.insert(
            http::HeaderName::from_bytes(format!("x-field-{i}").as_bytes()).expect("valid name"),
            HeaderValue::from_static("v"),
        );
    }
    big
}

#[test]
fn small_header_maps_can_be_tagged() {
    assert!(headers_can_be_tagged(&HeaderMap::new()));
    let mut almost = big_map();
    almost.remove("x-field-0");
    assert!(headers_can_be_tagged(&almost));
    assert!(!headers_can_be_tagged(&big_map()));
}

#[test]
fn maps_just_under_the_bound_are_tagged() {
    let mut headers = big_map();
    headers.remove("x-field-0");
    assert!(try_set_cache_header(&mut headers, "miss"));
    assert_eq!(headers["x-burley-cache"], "miss");
    let mut e = entry(b"body");
    e.headers = big_map();
    e.headers.remove("x-field-1");
    assert_eq!(try_response_from_cache(e).headers["x-burley-cache"], "hit");
    let mut s = store();
    let mut headers = big_map();
    headers.remove("x-field-2");
    assert!(!try_cache_and_tag_response(&mut s, "POST", "http://a.test/".to_string(), 200, &mut headers, b"x"));
    assert_eq!(headers["x-burley-cache"], "miss");
}

#[test]
fn checked_tagging_leaves_big_maps_alone() {
    let mut small = HeaderMap::new();
    assert!(try_set_cache_header(&mut small, "miss"));
    assert_eq!(small["x-burley-cache"], "miss");
    let mut big = big_map();
    assert!(!try_set_cache_header(&mut big, "miss"));
    assert!(!big.contains_key("x-burley-cache"));
    assert_eq!(big.len(), 6554);

    let mut e = entry(b"body");
    e.headers = big_map();
    let parts = try_response_from_cache(e);
    assert!(!parts.headers.contains_key("x-burley-cache"));
    assert_eq!(parts.body, b"body".to_vec());
    let parts = try_response_from_cache(entry(b"body"));
    assert_eq!(parts.headers["x-burley-cache"], "hit");

    let mut s = store();
    let mut headers = big_map();
    assert!(try_cache_and_tag_response(&mut s, "GET", "http://a.test/".to_string(), 200, &mut headers, b"x"));
    assert!(!headers.contains_key("x-burley-cache"));
    assert_eq!(s.get("http://a.test/").expect("stored").headers.len(), 6554);
    let mut headers = HeaderMap::new();
    assert!(!try_cache_and_tag_response(&mut s, "POST", "http://b.test/".to_string(), 200, &mut headers, b"x"));
    assert_eq!(headers["x-burley-cache"], "miss");
    assert_eq!(s.len(), 1);
}

#[test]
fn only_gets_are_answered_from_the_store() {
    let mut s = store();
    s.insert("http://a.test/".to_string(), entry(b"alpha"));
    assert_eq!(
        cached_response(&s, "GET", "http://a.test/").expect("hit").content,
        b"alpha".to_vec()
    );
    assert!(cached_response(&s, "POST", "http://a.test/").is_none());
    assert!(cached_response(&s, "GET", "http://b.test/").is_none());
}

#[test]
fn response_from_cache_is_tagged_hit() {
    let mut e = entry(b"cached body");
    e.status = 200;
    e.headers.insert(header::CONTENT_TYPE, HeaderValue::from_static("text/plain"));
    let parts = response_from_cache(e);
    assert_eq!(parts.status, 200);
    assert_eq!(parts.body, b"cached body".to_vec());
    assert_eq!(parts.headers["x-burley-cache"], "hit");
    assert_eq!(parts.headers[header::CONTENT_TYPE], "text/plain");
}

#[test]
fn store_response_keeps_cacheable_responses() {
    let mut s = store();
    let mut headers = HeaderMap::new();
    headers.insert(header::CONNECTION, HeaderValue::from_static("close"));
    headers.insert(header::CONTENT_TYPE, HeaderValue::from_static("text/plain"));
    let kept = store_response_at(&mut s, "GET", "http://a.test/".to_string(), 200, &headers, b"hello", stamp());
    assert!(kept);
    let e = s.get("http://a.test/").expect("stored");
    assert_eq!(e.content, b"hello".to_vec());
    assert_eq!(e.timestamp, stamp());
    assert!(!e.headers.contains_key(header::CONNECTION));
    assert_eq!(e.headers[header::CONTENT_TYPE], "text/plain");
}

#[test]
fn store_response_refuses_what_may_not_be_stored() {
    let mut s = DataStore::new(4, PathBuf::from("/tmp/burley-store"));
    let headers = HeaderMap::new();
    assert!(!store_response_at(&mut s, "GET", "http://a.test/".to_string(), 200, &headers, b"hello", stamp()));
    assert!(!store_response_at(&mut s, "POST", "http://b.test/".to_string(), 200, &headers, b"hi", stamp()));
    assert!(!store_response_at(&mut s, "GET", "http://c.test/".to_string(), 500, &headers, b"hi", stamp()));
    assert!(store_response_at(&mut s, "GET", "http://d.test/".to_string(), 200, &headers, b"hi", stamp()));
    assert_eq!(s.len(), 1);
}

#[test]
fn repeated_get_is_answered_from_the_store() {
    let mut s = store();
    let mut first = HeaderMap::new();
    first.insert(header::CONTENT_TYPE, HeaderValue::from_static("text/plain"));
    let kept = cache_and_tag_response(&mut s, "GET", "http://up.test/cached".to_string(), 200, &mut first, b"response-1");
    assert!(kept);
    assert_eq!(first["x-burley-cache"], "miss");

    let hit = cached_response(&s, "GET", "http://up.test/cached").expect("cached");
    assert!(!hit.headers.contains_key("x-burley-cache"));
    let second = response_from_cache(hit);
    assert_eq!(second.headers["x-burley-cache"], "hit");
    assert_eq!(second.body, b"response-1".to_vec());
    assert_eq!(second.status, 200);
}

#[test]
fn uncacheable_response_is_tagged_miss_and_not_kept() {
    let mut s = store();
    let mut headers = HeaderMap::new();
    headers.insert(header::SET_COOKIE, HeaderValue::from_static("a=b"));
    let kept = cache_and_tag_response(&mut s, "GET", "http://up.test/".to_string(), 200, &mut headers, b"x");
    assert!(!kept);
    assert_eq!(headers["x-burley-cache"], "miss");
    assert!(s.is_empty());
}
