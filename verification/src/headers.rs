//! The header collection of a request, and the one question the proxy asks of it.
//!
//! Requests carry their headers in `hyper::HeaderMap`. Verus sees nothing
//! inside that type, so this module gives its contents a mathematical name and
//! states, without proof, what a lookup returns in terms of that name.

use vstd::prelude::*;

verus! {

/// `hyper::HeaderMap`, the multimap from header names to header values.
/// Declared as an opaque type; [`header_values`] names what a map holds.
#[verifier::external_type_specification]
#[verifier::external_body]
#[verifier::reject_recursive_types(T)]
pub struct ExHeaderMap<T>(hyper::HeaderMap<T>);

/// `hyper::header::HeaderValue`, the value type of a header map. Declared as
/// an opaque type; the library itself handles header values as raw bytes.
#[verifier::external_type_specification]
#[verifier::external_body]
pub struct ExHeaderValue(hyper::header::HeaderValue);

/// What a header map holds: every header name that has at least one value,
/// spelled in lower case as the map keeps it, mapped to the bytes of its
/// values in the order in which the map hands them out, oldest first. A name
/// without values is not in the domain.
pub uninterp spec fn header_values(headers: hyper::HeaderMap) -> Map<Seq<char>, Seq<Seq<u8>>>;

/// Names that a header map stores exactly as they are written: one to
/// sixty-four characters, each a lower-case letter, a digit or a hyphen.
pub open spec fn is_canonical_name(name: Seq<char>) -> bool {
    &&& 1 <= name.len() <= 64
    &&& forall|i: int|
        0 <= i < name.len() ==> {
            let c = #[trigger] name[i];
            ('a' <= c && c <= 'z') || ('0' <= c && c <= '9') || c == '-'
        }
}

/// The first value stored under `name`, if there is one.
pub open spec fn first_value_of(values: Map<Seq<char>, Seq<Seq<u8>>>, name: Seq<char>) -> Option<
    Seq<u8>,
> {
    if values.contains_key(name) && values[name].len() > 0 {
        Some(values[name][0])
    } else {
        None
    }
}

/// Calls `HeaderMap::get` with a string key and copies out the bytes of the
/// value it finds (`HeaderValue::as_bytes`).
///
/// Not proved, but taken from the map's documentation: a canonical name is
/// looked up as it stands, and the answer is the first value stored under it,
/// or `None` when the map has no value for it. Longer names and names with
/// other characters are left out because the map rewrites or rejects them.
#[verifier::external_body]
pub(crate) fn first_value(headers: &hyper::HeaderMap, name: &str) -> (value: Option<Vec<u8>>)
    requires
        is_canonical_name(name@),
    ensures
        value is Some <==> header_values(*headers).contains_key(name@),
        value matches Some(bytes) ==> first_value_of(header_values(*headers), name@) == Some(
            bytes@,
        ),
{
    match headers.get(name) {
        Some(found) => Some(found.as_bytes().to_vec()),
        None => None,
    }
}

} // verus!
