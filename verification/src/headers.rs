//! HTTP header maps, taken as the multimap of header fields they hold.

use http::{HeaderMap, HeaderName, HeaderValue};
use vstd::prelude::*;

verus! {

#[verifier::external_type_specification]
#[verifier::external_body]
#[verifier::reject_recursive_types(T)]
pub struct ExHeaderMap<T>(HeaderMap<T>);

#[verifier::external_type_specification]
#[verifier::external_body]
pub struct ExHeaderValue(HeaderValue);

/// What a header map holds: each header name (always lower case in a map),
/// as bytes, to the bytes of each of its values, in the order in which they
/// were added.
pub uninterp spec fn header_fields(headers: HeaderMap) -> Map<Seq<u8>, Seq<Seq<u8>>>;

/// The values a field map holds under `name`, none if it holds no such field.
pub open spec fn field_values(fields: Map<Seq<u8>, Seq<Seq<u8>>>, name: Seq<u8>) -> Seq<Seq<u8>> {
    if fields.dom().contains(name) {
        fields[name]
    } else {
        Seq::empty()
    }
}

pub open spec fn is_name_char(c: char) -> bool {
    ('a' <= c && c <= 'z') || ('0' <= c && c <= '9') || c == '-'
}

/// A lower-case header name made of letters, digits and dashes, short enough
/// that a map looks it up as it is.
pub open spec fn is_lower_header_name(name: Seq<char>) -> bool {
    &&& 0 < name.len() <= 64
    &&& forall|i: int| 0 <= i < name.len() ==> #[trigger] is_name_char(name[i])
}

/// The bytes of a string of ASCII characters.
pub open spec fn ascii_bytes(s: Seq<char>) -> Seq<u8> {
    s.map_values(|c: char| c as u8)
}

/// A byte that a header value may hold and still read as text.
pub open spec fn is_visible_ascii(b: u8) -> bool {
    (32 <= b && b < 127) || b == 9
}

/// A text that can be written as a header value as it is.
pub open spec fn is_plain_value_text(v: Seq<char>) -> bool {
    forall|i: int|
        0 <= i < v.len() ==> {
            let c = #[trigger] v[i];
            (' ' <= c && c <= '~') || c == '\t'
        }
}

/// The number of distinct names below which inserting into a header map
/// never needs a table larger than the largest one a map may have, whatever
/// state its table is in.
pub open spec fn insert_key_bound() -> nat {
    6554
}

/// `HeaderMap::contains_key` with a lower-case name: whether the map holds a
/// field of that name.
#[verifier::external_body]
pub(crate) fn header_map_contains(headers: &HeaderMap, name: &str) -> (present: bool)
    requires
        is_lower_header_name(name@),
    ensures
        present == header_fields(*headers).dom().contains(ascii_bytes(name@)),
{
    headers.contains_key(name)
}

/// `HeaderMap::get_all` with a lower-case name, each value handed out as its
/// bytes: the values of that field, in order.
#[verifier::external_body]
pub(crate) fn header_map_values(headers: &HeaderMap, name: &str) -> (values: Vec<Vec<u8>>)
    requires
        is_lower_header_name(name@),
    ensures
        values@.map_values(|v: Vec<u8>| v@) == field_values(
            header_fields(*headers),
            ascii_bytes(name@),
        ),
{
    let mut values = Vec::new();
    for value in headers.get_all(name) {
        values.push(value.as_bytes().to_vec());
    }
    values
}

/// `HeaderMap::remove` with a lower-case name: the field and all its values
/// leave the map; nothing else changes.
#[verifier::external_body]
pub(crate) fn header_map_remove(headers: &mut HeaderMap, name: &str)
    requires
        is_lower_header_name(name@),
    ensures
        header_fields(*final(headers)) == header_fields(*old(headers)).remove(ascii_bytes(name@)),
{
    headers.remove(name);
}

/// `HeaderMap::insert` of a name and a value given as static text: the field
/// then holds that one value, whatever it held before; nothing else changes.
/// While the map holds fewer names than the bound, its table grows at most to
/// its largest size (with fewer names than 6554, a table of 32768 slots is
/// never outgrown), so the call does not panic there.
#[verifier::external_body]
pub(crate) fn header_map_insert(headers: &mut HeaderMap, name: &'static str, value: &'static str)
    requires
        is_lower_header_name(name@),
        is_plain_value_text(value@),
        header_fields(*old(headers)).dom().len() < insert_key_bound(),
    ensures
        header_fields(*final(headers)) == header_fields(*old(headers)).insert(
            ascii_bytes(name@),
            seq![ascii_bytes(value@)],
        ),
{
    headers.insert(HeaderName::from_static(name), HeaderValue::from_static(value));
}

/// `HeaderMap::keys_len`: the number of distinct names the map holds.
#[verifier::external_body]
pub(crate) fn header_map_keys_len(headers: &HeaderMap) -> (count: usize)
    ensures
        count == header_fields(*headers).dom().len(),
{
    headers.keys_len()
}

/// `HeaderMap::clone`: a map with the same fields.
#[verifier::external_body]
pub(crate) fn header_map_clone(headers: &HeaderMap) -> (copy: HeaderMap)
    ensures
        header_fields(copy) == header_fields(*headers),
{
    headers.clone()
}

} // verus!
