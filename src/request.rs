use vstd::prelude::*;
use vstd::string::StringSliceAdditionalSpecFns;
use pingora_http::RequestHeader;

verus! {

#[verifier::external_type_specification]
#[verifier::external_body]
pub struct ExRequestHeader(RequestHeader);

/// The distinct header names of a request, lower-cased.
pub uninterp spec fn header_names(r: RequestHeader) -> Set<Seq<u8>>;

/// The values held under the Host header of a request, in order.
pub uninterp spec fn host_values(r: RequestHeader) -> Seq<Seq<u8>>;

/// Distinct header names a request may hold for the Host header still to be
/// set on it; the header map's table stays well under its fixed maximum.
pub const MAX_HEADER_NAMES: usize = 4096;

/// The lower-cased name of the host-identity header.
pub open spec fn host_name() -> Seq<u8> {
    seq![104u8, 111u8, 115u8, 116u8]
}

/// A byte that a header value may hold: tab, or any byte but the ASCII
/// control characters and DEL.
pub open spec fn header_byte_ok(b: u8) -> bool {
    (b >= 32 && b != 127) || b == 9
}

/// Every byte of `v` may stand in a header value.
pub open spec fn header_value_ok(v: Seq<u8>) -> bool {
    forall|i: int| 0 <= i < v.len() ==> #[trigger] header_byte_ok(v[i])
}

/// Relies on pingora_http::RequestHeader::insert_header with a `&str` value:
/// the value converts to a header value exactly when every byte passes
/// `header_byte_ok`; on failure nothing is changed; on success every earlier
/// Host value is replaced by this one and no other header changes. The header
/// map, and the case map that keeps the same names, panic only when growing
/// past a fixed maximum, which the bound on distinct names keeps clear of.
#[verifier::external_body]
pub(crate) fn insert_host(request: &mut RequestHeader, value: &str) -> (accepted: bool)
    requires
        header_names(*old(request)).len() < MAX_HEADER_NAMES,
    ensures
        accepted == header_value_ok(value.spec_bytes()),
        accepted ==> host_values(*final(request)) == seq![value.spec_bytes()],
        accepted ==> header_names(*final(request)) == header_names(*old(request)).insert(host_name()),
        !accepted ==> *final(request) == *old(request),
{
    request.insert_header("Host", value).is_ok()
}

/// Relies on http::HeaderMap::keys_len: the number of distinct header names.
#[verifier::external_body]
pub(crate) fn header_name_count(request: &RequestHeader) -> (n: usize)
    ensures
        n == header_names(*request).len(),
{
    request.headers.keys_len()
}

} // verus!
