//! The decisions of the plain-HTTP proxy path: answering from the store,
//! storing what comes back from upstream, and tagging responses.

use chrono::NaiveDateTime;
use http::HeaderMap;
use vstd::prelude::*;
use vstd::slice::slice_to_vec;

use crate::headers::{
    ascii_bytes, header_fields, header_map_clone, header_map_insert, header_map_keys_len,
    header_map_remove, insert_key_bound, is_plain_value_text,
};
use crate::policy::{cacheable, is_cacheable_response, is_get, method_is_get, only_get_is_get};
use crate::store::{current_time, CacheEntry, DataStore, EntryView};

verus! {

/// The bytes of the `transfer-encoding` header name.
pub open spec fn transfer_encoding_name() -> Seq<u8> {
    seq![116u8, 114u8, 97u8, 110u8, 115u8, 102u8, 101u8, 114u8, 45u8, 101u8, 110u8, 99u8, 111u8, 100u8, 105u8, 110u8, 103u8]
}

/// The bytes of the `connection` header name.
pub open spec fn connection_name() -> Seq<u8> {
    seq![99u8, 111u8, 110u8, 110u8, 101u8, 99u8, 116u8, 105u8, 111u8, 110u8]
}

/// The bytes of `x-burley-cache`, the header that tells a client whether the
/// proxy answered from its store.
pub open spec fn cache_header_name() -> Seq<u8> {
    seq![120u8, 45u8, 98u8, 117u8, 114u8, 108u8, 101u8, 121u8, 45u8, 99u8, 97u8, 99u8, 104u8, 101u8]
}

/// The headers kept with a stored response: all but `transfer-encoding` and
/// `connection`.
pub open spec fn stored_fields(fields: Map<Seq<u8>, Seq<Seq<u8>>>) -> Map<Seq<u8>, Seq<Seq<u8>>> {
    fields.remove(transfer_encoding_name()).remove(connection_name())
}

/// What a store answers to a request: the entry under its URL, for a `GET` only.
pub open spec fn answer_from_store(
    stored: Map<Seq<char>, EntryView>,
    method: Seq<char>,
    cache_key: Seq<char>,
) -> Option<EntryView> {
    if is_get(method) && stored.dom().contains(cache_key) {
        Some(stored[cache_key])
    } else {
        None
    }
}

/// The store after an upstream response came back: the response is kept under
/// the request's URL where [`cacheable`] allows it, and nothing changes otherwise.
pub open spec fn store_after_response(
    stored: Map<Seq<char>, EntryView>,
    max_store_size: u64,
    method: Seq<char>,
    cache_key: Seq<char>,
    status: u16,
    fields: Map<Seq<u8>, Seq<Seq<u8>>>,
    body: Seq<u8>,
    timestamp: NaiveDateTime,
) -> Map<Seq<char>, EntryView> {
    if cacheable(method, status, fields, body.len() as int, (max_store_size as usize) as int) {
        stored.insert(
            cache_key,
            EntryView { content: body, headers: stored_fields(fields), status, timestamp },
        )
    } else {
        stored
    }
}

/// The headers to keep with a stored response: a copy without
/// `transfer-encoding` and `connection`.
pub fn cache_headers(headers: &HeaderMap) -> (cached: HeaderMap)
    ensures
        header_fields(cached) == stored_fields(header_fields(*headers)),
{
    let mut cached = header_map_clone(headers);
    proof {
        reveal_strlit("transfer-encoding");
        reveal_strlit("connection");
        assert(ascii_bytes("transfer-encoding"@) =~= transfer_encoding_name());
        assert(ascii_bytes("connection"@) =~= connection_name());
    }
    header_map_remove(&mut cached, "transfer-encoding");
    header_map_remove(&mut cached, "connection");
    cached
}

/// Sets `x-burley-cache` to `value`, in place of any value it had.
pub fn set_cache_header(headers: &mut HeaderMap, value: &'static str)
    requires
        is_plain_value_text(value@),
        header_fields(*old(headers)).dom().len() < insert_key_bound(),
    ensures
        header_fields(*final(headers)) == header_fields(*old(headers)).insert(
            cache_header_name(),
            seq![ascii_bytes(value@)],
        ),
{
    proof {
        reveal_strlit("x-burley-cache");
        assert(ascii_bytes("x-burley-cache"@) =~= cache_header_name());
    }
    header_map_insert(headers, "x-burley-cache", value);
}

/// Whether the map holds few enough names for [`set_cache_header`] (and the
/// functions that tag responses) to take it.
pub fn headers_can_be_tagged(headers: &HeaderMap) -> (fits: bool)
    ensures
        fits == (header_fields(*headers).dom().len() < insert_key_bound()),
{
    header_map_keys_len(headers) < 6554
}

/// The parts of a response the proxy sends: status, headers and body.
pub struct ResponseParts {
    pub status: u16,
    pub headers: HeaderMap,
    pub body: Vec<u8>,
}

/// The bytes of `hit`.
pub open spec fn hit() -> Seq<u8> {
    seq![104u8, 105u8, 116u8]
}

/// The bytes of `miss`.
pub open spec fn miss() -> Seq<u8> {
    seq![109u8, 105u8, 115u8, 115u8]
}

/// The stored entry for a `GET` of `cache_key`, if the store holds one; none
/// for any other method.
pub fn cached_response(store: &DataStore, method: &str, cache_key: &str) -> (found: Option<CacheEntry>)
    ensures
        match found {
            Some(entry) => answer_from_store(store@.entries, method@, cache_key@) == Some(entry@),
            None => answer_from_store(store@.entries, method@, cache_key@) is None,
        },
{
    if !method_is_get(method) {
        return None;
    }
    store.get(cache_key)
}

/// The response sent for a stored entry: its status, its headers with
/// `x-burley-cache: hit`, and its body.
pub fn response_from_cache(entry: CacheEntry) -> (response: ResponseParts)
    requires
        entry@.headers.dom().len() < insert_key_bound(),
    ensures
        response.status == entry@.status,
        response.body@ == entry@.content,
        header_fields(response.headers) == entry@.headers.insert(cache_header_name(), seq![hit()]),
{
    let CacheEntry { content, mut headers, status, timestamp: _ } = entry;
    proof {
        reveal_strlit("hit");
        assert(ascii_bytes("hit"@) =~= hit());
    }
    set_cache_header(&mut headers, "hit");
    ResponseParts { status, headers, body: content }
}

/// Keeps an upstream response in the store, stamped with `timestamp`, where
/// [`cacheable`] allows it (with the store's largest body as the limit); says
/// whether it did.
pub fn store_response_at(
    store: &mut DataStore,
    method: &str,
    cache_key: String,
    status: u16,
    headers: &HeaderMap,
    body: &[u8],
    timestamp: NaiveDateTime,
) -> (stored: bool)
    ensures
        stored == cacheable(
            method@,
            status,
            header_fields(*headers),
            body@.len() as int,
            (old(store)@.max_store_size as usize) as int,
        ),
        final(store)@.entries == store_after_response(
            old(store)@.entries,
            old(store)@.max_store_size,
            method@,
            cache_key@,
            status,
            header_fields(*headers),
            body@,
            timestamp,
        ),
        final(store)@.max_store_size == old(store)@.max_store_size,
        final(store)@.store == old(store)@.store,
{
    let max_body_len: usize = store.max_store_size() as usize;
    let should_cache = is_cacheable_response(method, status, headers, body.len(), max_body_len);
    if should_cache {
        let entry = CacheEntry {
            content: slice_to_vec(body),
            headers: cache_headers(headers),
            status,
            timestamp,
        };
        store.insert(cache_key, entry);
    }
    should_cache
}

/// What the proxy does with an upstream response once its body is in: keeps
/// it in the store where [`cacheable`] allows it, stamped with the current
/// time, and tags the response's own headers with `x-burley-cache: miss`
/// (after the stored copy was taken). Says whether it kept the response.
pub fn cache_and_tag_response(
    store: &mut DataStore,
    method: &str,
    cache_key: String,
    status: u16,
    headers: &mut HeaderMap,
    body: &[u8],
) -> (stored: bool)
    requires
        header_fields(*old(headers)).dom().len() < insert_key_bound(),
    ensures
        stored == cacheable(
            method@,
            status,
            header_fields(*old(headers)),
            body@.len() as int,
            (old(store)@.max_store_size as usize) as int,
        ),
        stored ==> final(store)@.entries == store_after_response(
            old(store)@.entries,
            old(store)@.max_store_size,
            method@,
            cache_key@,
            status,
            header_fields(*old(headers)),
            body@,
            final(store)@.entries[cache_key@].timestamp,
        ),
        !stored ==> final(store)@.entries == old(store)@.entries,
        header_fields(*final(headers)) == header_fields(*old(headers)).insert(
            cache_header_name(),
            seq![miss()],
        ),
        final(store)@.max_store_size == old(store)@.max_store_size,
        final(store)@.store == old(store)@.store,
{
    let timestamp = current_time();
    let stored = store_response_at(store, method, cache_key, status, headers, body, timestamp);
    proof {
        reveal_strlit("miss");
        assert(ascii_bytes("miss"@) =~= miss());
    }
    set_cache_header(headers, "miss");
    stored
}

/// Sets `x-burley-cache` to `value` where [`set_cache_header`] can take the
/// map, and says whether it did. A map of 6554 names or more is left as it
/// was, untagged: `HeaderMap::insert` would tag most such maps too, but may
/// panic on them when its table is in its collision state, which cannot be
/// seen from outside.
pub fn try_set_cache_header(headers: &mut HeaderMap, value: &'static str) -> (tagged: bool)
    requires
        is_plain_value_text(value@),
    ensures
        tagged == (header_fields(*old(headers)).dom().len() < insert_key_bound()),
        tagged ==> header_fields(*final(headers)) == header_fields(*old(headers)).insert(
            cache_header_name(),
            seq![ascii_bytes(value@)],
        ),
        !tagged ==> header_fields(*final(headers)) == header_fields(*old(headers)),
{
    if headers_can_be_tagged(headers) {
        set_cache_header(headers, value);
        true
    } else {
        false
    }
}

/// The response sent for a stored entry, as [`response_from_cache`] makes it
/// where the entry's headers can be tagged; with 6554 names or more the
/// headers are sent as stored, without `x-burley-cache: hit` (see
/// [`try_set_cache_header`] for why).
pub fn try_response_from_cache(entry: CacheEntry) -> (response: ResponseParts)
    ensures
        response.status == entry@.status,
        response.body@ == entry@.content,
        entry@.headers.dom().len() < insert_key_bound() ==> header_fields(response.headers)
            == entry@.headers.insert(cache_header_name(), seq![hit()]),
        !(entry@.headers.dom().len() < insert_key_bound()) ==> header_fields(response.headers)
            == entry@.headers,
{
    if headers_can_be_tagged(&entry.headers) {
        response_from_cache(entry)
    } else {
        let CacheEntry { content, headers, status, timestamp: _ } = entry;
        ResponseParts { status, headers, body: content }
    }
}

/// What the proxy does with an upstream response, as [`cache_and_tag_response`]
/// does it where the response's headers can be tagged; with 6554 names or
/// more the response is kept or not by the same rule and its headers are left
/// as they were, without `x-burley-cache: miss` (see [`try_set_cache_header`]
/// for why).
pub fn try_cache_and_tag_response(
    store: &mut DataStore,
    method: &str,
    cache_key: String,
    status: u16,
    headers: &mut HeaderMap,
    body: &[u8],
) -> (stored: bool)
    ensures
        stored == cacheable(
            method@,
            status,
            header_fields(*old(headers)),
            body@.len() as int,
            (old(store)@.max_store_size as usize) as int,
        ),
        stored ==> final(store)@.entries == store_after_response(
            old(store)@.entries,
            old(store)@.max_store_size,
            method@,
            cache_key@,
            status,
            header_fields(*old(headers)),
            body@,
            final(store)@.entries[cache_key@].timestamp,
        ),
        !stored ==> final(store)@.entries == old(store)@.entries,
        header_fields(*old(headers)).dom().len() < insert_key_bound() ==> header_fields(
            *final(headers),
        ) == header_fields(*old(headers)).insert(cache_header_name(), seq![miss()]),
        !(header_fields(*old(headers)).dom().len() < insert_key_bound()) ==> header_fields(
            *final(headers),
        ) == header_fields(*old(headers)),
        final(store)@.max_store_size == old(store)@.max_store_size,
        final(store)@.store == old(store)@.store,
{
    if headers_can_be_tagged(headers) {
        cache_and_tag_response(store, method, cache_key, status, headers, body)
    } else {
        let timestamp = current_time();
        store_response_at(store, method, cache_key, status, headers, body, timestamp)
    }
}

/// A response that was stored for a `GET` of a URL is what a later `GET` of
/// that URL is answered with: the same body and status, its headers without
/// `transfer-encoding` and `connection`.
pub proof fn stored_response_is_served(
    stored: Map<Seq<char>, EntryView>,
    max_store_size: u64,
    method: Seq<char>,
    cache_key: Seq<char>,
    status: u16,
    fields: Map<Seq<u8>, Seq<Seq<u8>>>,
    body: Seq<u8>,
    timestamp: NaiveDateTime,
)
    requires
        cacheable(method, status, fields, body.len() as int, (max_store_size as usize) as int),
    ensures
        answer_from_store(
            store_after_response(stored, max_store_size, method, cache_key, status, fields, body, timestamp),
            method,
            cache_key,
        ) == Some(EntryView { content: body, headers: stored_fields(fields), status, timestamp }),
{
}

/// Requests other than `GET` are never answered from the store, and their
/// responses never enter it.
pub proof fn other_methods_bypass_store(
    stored: Map<Seq<char>, EntryView>,
    max_store_size: u64,
    method: Seq<char>,
    cache_key: Seq<char>,
    status: u16,
    fields: Map<Seq<u8>, Seq<Seq<u8>>>,
    body: Seq<u8>,
    timestamp: NaiveDateTime,
)
    requires
        !is_get(method),
    ensures
        answer_from_store(stored, method, cache_key) is None,
        store_after_response(stored, max_store_size, method, cache_key, status, fields, body, timestamp)
            == stored,
{
}

/// A response that may not be stored leaves the store as it was.
pub proof fn refused_response_leaves_store(
    stored: Map<Seq<char>, EntryView>,
    max_store_size: u64,
    method: Seq<char>,
    cache_key: Seq<char>,
    status: u16,
    fields: Map<Seq<u8>, Seq<Seq<u8>>>,
    body: Seq<u8>,
    timestamp: NaiveDateTime,
)
    requires
        !cacheable(method, status, fields, body.len() as int, (max_store_size as usize) as int),
    ensures
        store_after_response(stored, max_store_size, method, cache_key, status, fields, body, timestamp)
            == stored,
{
}

/// Storing the response for one URL changes what no other URL is answered with.
pub proof fn other_urls_unaffected(
    stored: Map<Seq<char>, EntryView>,
    max_store_size: u64,
    method: Seq<char>,
    cache_key: Seq<char>,
    status: u16,
    fields: Map<Seq<u8>, Seq<Seq<u8>>>,
    body: Seq<u8>,
    timestamp: NaiveDateTime,
    other_method: Seq<char>,
    other_key: Seq<char>,
)
    requires
        other_key != cache_key,
    ensures
        answer_from_store(
            store_after_response(stored, max_store_size, method, cache_key, status, fields, body, timestamp),
            other_method,
            other_key,
        ) == answer_from_store(stored, other_method, other_key),
{
}

/// Only a request whose method is exactly `GET` is answered from the store,
/// and a `GET` of a stored URL is answered with what is stored under it.
pub proof fn only_gets_are_answered(
    stored: Map<Seq<char>, EntryView>,
    method: Seq<char>,
    cache_key: Seq<char>,
)
    ensures
        answer_from_store(stored, method, cache_key) is Some ==> (method.len() == 3 && method[0]
            == 'G' && method[1] == 'E' && method[2] == 'T'),
        (method.len() == 3 && method[0] == 'G' && method[1] == 'E' && method[2] == 'T'
            && stored.dom().contains(cache_key)) ==> answer_from_store(stored, method, cache_key)
            == Some(stored[cache_key]),
{
    only_get_is_get(method);
}

/// The headers kept with a stored response are those it came with, every
/// field with all its values, but for `transfer-encoding` and `connection`.
pub proof fn stored_headers_keep_other_fields(fields: Map<Seq<u8>, Seq<Seq<u8>>>, name: Seq<u8>)
    requires
        name != seq![116u8, 114u8, 97u8, 110u8, 115u8, 102u8, 101u8, 114u8, 45u8, 101u8, 110u8, 99u8, 111u8, 100u8, 105u8, 110u8, 103u8],
        name != seq![99u8, 111u8, 110u8, 110u8, 101u8, 99u8, 116u8, 105u8, 111u8, 110u8],
    ensures
        stored_fields(fields).dom().contains(name) == fields.dom().contains(name),
        fields.dom().contains(name) ==> stored_fields(fields)[name] == fields[name],
{
    assert(transfer_encoding_name() =~= seq![116u8, 114u8, 97u8, 110u8, 115u8, 102u8, 101u8, 114u8, 45u8, 101u8, 110u8, 99u8, 111u8, 100u8, 105u8, 110u8, 103u8]);
    assert(connection_name() =~= seq![99u8, 111u8, 110u8, 110u8, 101u8, 99u8, 116u8, 105u8, 111u8, 110u8]);
}

/// The headers kept with a stored response hold no `transfer-encoding` and no
/// `connection` field.
pub proof fn stored_headers_drop_hop_by_hop(fields: Map<Seq<u8>, Seq<Seq<u8>>>)
    ensures
        !stored_fields(fields).dom().contains(
            seq![116u8, 114u8, 97u8, 110u8, 115u8, 102u8, 101u8, 114u8, 45u8, 101u8, 110u8, 99u8, 111u8, 100u8, 105u8, 110u8, 103u8],
        ),
        !stored_fields(fields).dom().contains(
            seq![99u8, 111u8, 110u8, 110u8, 101u8, 99u8, 116u8, 105u8, 111u8, 110u8],
        ),
{
    assert(transfer_encoding_name() =~= seq![116u8, 114u8, 97u8, 110u8, 115u8, 102u8, 101u8, 114u8, 45u8, 101u8, 110u8, 99u8, 111u8, 100u8, 105u8, 110u8, 103u8]);
    assert(connection_name() =~= seq![99u8, 111u8, 110u8, 110u8, 101u8, 99u8, 116u8, 105u8, 111u8, 110u8]);
}

} // verus!
