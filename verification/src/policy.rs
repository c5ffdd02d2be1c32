//! Which upstream responses the proxy keeps in its store.

use http::HeaderMap;
use vstd::prelude::*;
use vstd::string::StrSliceExecFns;

use crate::cache_control::{
    any_forbids_storing, forbids_storing, no_store_between_commas_forbids_storing,
    value_forbids_storing,
};
use crate::headers::{
    ascii_bytes, field_values, header_fields, header_map_contains, header_map_values,
};

verus! {

/// The bytes of the `set-cookie` header name.
pub open spec fn set_cookie_name() -> Seq<u8> {
    seq![115u8, 101u8, 116u8, 45u8, 99u8, 111u8, 111u8, 107u8, 105u8, 101u8]
}

/// The bytes of the `cache-control` header name.
pub open spec fn cache_control_name() -> Seq<u8> {
    seq![99u8, 97u8, 99u8, 104u8, 101u8, 45u8, 99u8, 111u8, 110u8, 116u8, 114u8, 111u8, 108u8]
}

/// The request method `GET`.
pub open spec fn is_get(method: Seq<char>) -> bool {
    method == seq!['G', 'E', 'T']
}

/// A response may be stored when it answers a `GET` with `200 OK`, its body
/// is no longer than the limit, it sets no cookie, and none of its
/// `Cache-Control` values forbids storing.
pub open spec fn cacheable(
    method: Seq<char>,
    status: u16,
    fields: Map<Seq<u8>, Seq<Seq<u8>>>,
    body_len: int,
    max_body_len: int,
) -> bool {
    &&& is_get(method)
    &&& status == 200
    &&& body_len <= max_body_len
    &&& !fields.dom().contains(set_cookie_name())
    &&& !any_forbids_storing(field_values(fields, cache_control_name()))
}

/// Whether a request method is `GET`.
pub fn method_is_get(method: &str) -> (r: bool)
    ensures
        r == is_get(method@),
{
    if method.unicode_len() != 3 {
        return false;
    }
    let r = method.get_char(0) == 'G' && method.get_char(1) == 'E' && method.get_char(2) == 'T';
    proof {
        if r {
            assert(method@ =~= seq!['G', 'E', 'T']);
        }
    }
    r
}

/// Whether the proxy stores the upstream response to a request: see
/// [`cacheable`] for the rule.
pub fn is_cacheable_response(
    method: &str,
    status: u16,
    headers: &HeaderMap,
    body_len: usize,
    max_body_len: usize,
) -> (r: bool)
    ensures
        r == cacheable(method@, status, header_fields(*headers), body_len as int, max_body_len as int),
{
    if !method_is_get(method) {
        return false;
    }
    if status != 200 {
        return false;
    }
    if body_len > max_body_len {
        return false;
    }
    proof {
        reveal_strlit("set-cookie");
        reveal_strlit("cache-control");
        assert(ascii_bytes("set-cookie"@) =~= set_cookie_name());
        assert(ascii_bytes("cache-control"@) =~= cache_control_name());
    }
    if header_map_contains(headers, "set-cookie") {
        return false;
    }
    let values = header_map_values(headers, "cache-control");
    let ghost vals = values@.map_values(|v: Vec<u8>| v@);
    let mut i: usize = 0;
    while i < values.len()
        invariant
            i <= values.len(),
            vals == values@.map_values(|v: Vec<u8>| v@),
            vals == field_values(header_fields(*headers), cache_control_name()),
            forall|j: int| 0 <= j < i ==> !#[trigger] forbids_storing(vals[j]),
        decreases values.len() - i,
    {
        if value_forbids_storing(&values[i]) {
            assert(forbids_storing(vals[i as int]));
            return false;
        }
        i = i + 1;
    }
    true
}

/// `GET` is the one method of three characters `G`, `E`, `T`: no other method
/// counts as `GET`.
pub proof fn only_get_is_get(method: Seq<char>)
    ensures
        is_get(method) <==> (method.len() == 3 && method[0] == 'G' && method[1] == 'E'
            && method[2] == 'T'),
{
    if method.len() == 3 && method[0] == 'G' && method[1] == 'E' && method[2] == 'T' {
        assert(method =~= seq!['G', 'E', 'T']);
    }
}

/// A storable response answers a `GET` with status 200, its body is within
/// the limit, and it sets no cookie.
pub proof fn storable_means_plain_ok_get(
    method: Seq<char>,
    status: u16,
    fields: Map<Seq<u8>, Seq<Seq<u8>>>,
    body_len: int,
    max_body_len: int,
)
    requires
        cacheable(method, status, fields, body_len, max_body_len),
    ensures
        method.len() == 3 && method[0] == 'G' && method[1] == 'E' && method[2] == 'T',
        status == 200,
        body_len <= max_body_len,
        !fields.dom().contains(seq![115u8, 101u8, 116u8, 45u8, 99u8, 111u8, 111u8, 107u8, 105u8, 101u8]),
{
    only_get_is_get(method);
    assert(seq![115u8, 101u8, 116u8, 45u8, 99u8, 111u8, 111u8, 107u8, 105u8, 101u8] =~= set_cookie_name());
}

/// A `GET` answered with status 200, a body within the limit, and neither a
/// cookie nor any `Cache-Control` field, may be stored.
pub proof fn plain_ok_get_is_storable(
    method: Seq<char>,
    status: u16,
    fields: Map<Seq<u8>, Seq<Seq<u8>>>,
    body_len: int,
    max_body_len: int,
)
    requires
        method.len() == 3 && method[0] == 'G' && method[1] == 'E' && method[2] == 'T',
        status == 200,
        body_len <= max_body_len,
        !fields.dom().contains(seq![115u8, 101u8, 116u8, 45u8, 99u8, 111u8, 111u8, 107u8, 105u8, 101u8]),
        !fields.dom().contains(
            seq![99u8, 97u8, 99u8, 104u8, 101u8, 45u8, 99u8, 111u8, 110u8, 116u8, 114u8, 111u8, 108u8],
        ),
    ensures
        cacheable(method, status, fields, body_len, max_body_len),
{
    only_get_is_get(method);
    assert(seq![115u8, 101u8, 116u8, 45u8, 99u8, 111u8, 111u8, 107u8, 105u8, 101u8] =~= set_cookie_name());
    assert(seq![99u8, 97u8, 99u8, 104u8, 101u8, 45u8, 99u8, 111u8, 110u8, 116u8, 114u8, 111u8, 108u8]
        =~= cache_control_name());
}

/// A response one of whose `Cache-Control` values reads as text (of any
/// length) and holds `no-store` between commas or at either end is never
/// stored, whatever else it holds.
pub proof fn no_store_value_prevents_storing(
    method: Seq<char>,
    status: u16,
    fields: Map<Seq<u8>, Seq<Seq<u8>>>,
    body_len: int,
    max_body_len: int,
    i: int,
    value: Seq<u8>,
    before: Seq<u8>,
    after: Seq<u8>,
)
    requires
        fields.dom().contains(
            seq![99u8, 97u8, 99u8, 104u8, 101u8, 45u8, 99u8, 111u8, 110u8, 116u8, 114u8, 111u8, 108u8],
        ),
        0 <= i < fields[seq![99u8, 97u8, 99u8, 104u8, 101u8, 45u8, 99u8, 111u8, 110u8, 116u8, 114u8, 111u8, 108u8]].len(),
        fields[seq![99u8, 97u8, 99u8, 104u8, 101u8, 45u8, 99u8, 111u8, 110u8, 116u8, 114u8, 111u8, 108u8]][i]
            == value,
        value == before + seq![110u8, 111u8, 45u8, 115u8, 116u8, 111u8, 114u8, 101u8] + after,
        forall|k: int| 0 <= k < value.len() ==> (32 <= #[trigger] value[k] && value[k] < 127) || value[k] == 9,
        before.len() == 0 || before.last() == 44u8,
        after.len() == 0 || after[0] == 44u8,
    ensures
        !cacheable(method, status, fields, body_len, max_body_len),
{
    let cc = seq![99u8, 97u8, 99u8, 104u8, 101u8, 45u8, 99u8, 111u8, 110u8, 116u8, 114u8, 111u8, 108u8];
    assert(cc =~= cache_control_name());
    no_store_between_commas_forbids_storing(value, before, after);
    assert(forbids_storing(field_values(fields, cache_control_name())[i]));
}

} // verus!
