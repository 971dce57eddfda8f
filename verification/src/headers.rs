//! NATS message headers, held in `async_nats::HeaderMap`.
//!
//! A header map is seen through `header_entries`: each header name maps to
//! the list of values stored under it.

use async_nats::HeaderMap;
use vstd::prelude::*;

verus! {

#[verifier::external_type_specification]
#[verifier::external_body]
pub struct ExHeaderMap(HeaderMap);

/// What a header map holds: for each header name, its values in order.
pub uninterp spec fn header_entries(headers: HeaderMap) -> Map<Seq<char>, Seq<Seq<char>>>;

/// A header name that `async_nats` accepts: visible ASCII characters only,
/// and no `:`.
pub open spec fn valid_header_name(name: Seq<char>) -> bool {
    forall|i: int|
        0 <= i < name.len() ==> 0x21 <= (#[trigger] name[i]) as int <= 0x7e && name[i] != ':'
}

/// A header value that `async_nats` accepts: no carriage return, no line feed.
pub open spec fn valid_header_value(value: Seq<char>) -> bool {
    forall|i: int| 0 <= i < value.len() ==> (#[trigger] value[i]) != '\r' && value[i] != '\n'
}

/// `HeaderMap::new`: a map without any header.
#[verifier::external_body]
pub fn header_map_new() -> (map: HeaderMap)
    ensures
        header_entries(map) =~= Map::empty(),
{
    HeaderMap::new()
}

/// `HeaderMap::insert` with a `&str` name and value: the name now holds the
/// single value given, replacing whatever it held. The crate panics on a name
/// or value outside the forms above, so those are left out.
#[verifier::external_body]
pub fn header_map_insert(headers: &mut HeaderMap, name: &str, value: &str)
    requires
        valid_header_name(name@),
        valid_header_value(value@),
    ensures
        header_entries(*final(headers)) == header_entries(*old(headers)).insert(
            name@,
            seq![value@],
        ),
{
    headers.insert(name, value);
}

/// The values of two strings joined are accepted as a header value when both
/// parts are.
pub proof fn lemma_header_value_concat(a: Seq<char>, b: Seq<char>)
    requires
        valid_header_value(a),
        valid_header_value(b),
    ensures
        valid_header_value(a + b),
{
    assert forall|i: int| 0 <= i < (a + b).len() implies (#[trigger] (a + b)[i]) != '\r' && (a
        + b)[i] != '\n' by {
        if i < a.len() {
            assert((a + b)[i] == a[i]);
        } else {
            assert((a + b)[i] == b[i - a.len()]);
        }
    }
}

} // verus!
