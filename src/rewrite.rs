use vstd::prelude::*;
use vstd::string::StringSliceAdditionalSpecFns;
use vstd::utf8::encode_utf8;
use pingora_http::RequestHeader;
use crate::request::{
    MAX_HEADER_NAMES, header_byte_ok, header_name_count, header_names, header_value_ok, host_name,
    host_values, insert_host,
};

verus! {

/// The resolved upstream for one request and the virtual host to present to it.
#[derive(Debug)]
pub struct ForwardingDecision {
    pub upstream: String,
    pub virtual_host: String,
}

/// The request refused the host-identity header value.
#[derive(Clone, Copy, Debug, PartialEq, Eq, Structural)]
pub enum RewriteError {
    HeaderRejected,
}

/// The bytes of a decision's virtual host, as they go on the wire.
pub open spec fn host_bytes(d: ForwardingDecision) -> Seq<u8> {
    encode_utf8(d.virtual_host@)
}

/// A usable virtual host: non-empty, every byte allowed in a header value.
pub open spec fn virtual_host_ok(v: Seq<u8>) -> bool {
    v.len() > 0 && header_value_ok(v)
}

/// `after` is `before` with its Host header set to exactly `v`: that one value,
/// the other header names kept.
pub open spec fn host_rewritten(before: RequestHeader, after: RequestHeader, v: Seq<u8>) -> bool {
    &&& host_values(after) == seq![v]
    &&& header_names(after) == header_names(before).insert(host_name())
}

/// Whether `v` is a usable virtual host; checked once on the configured value.
pub fn check_virtual_host(v: &str) -> (r: bool)
    ensures
        r == virtual_host_ok(v.spec_bytes()),
{
    let b = v.as_bytes();
    if b.len() == 0 {
        return false;
    }
    let mut i: usize = 0;
    while i < b.len()
        invariant
            b@ == v.spec_bytes(),
            i <= b@.len(),
            forall|p: int| 0 <= p < i ==> #[trigger] header_byte_ok(b@[p]),
        decreases b@.len() - i,
    {
        let c = b[i];
        if !((c >= 32 && c != 127) || c == 9) {
            assert(!header_byte_ok(b@[i as int]));
            return false;
        }
        i = i + 1;
    }
    true
}

/// Sets the Host header of the outbound `request` to the decision's virtual
/// host, replacing whatever it carried. The request refuses a value with a
/// byte that no header value may hold, and a request already at the limit of
/// distinct header names; either way it is left as it was.
pub fn rewrite(request: &mut RequestHeader, decision: &ForwardingDecision) -> (r: Result<(), RewriteError>)
    ensures
        r is Ok <==> header_value_ok(host_bytes(*decision)) && header_names(*old(request)).len()
            < MAX_HEADER_NAMES,
        r is Ok ==> host_rewritten(*old(request), *final(request), host_bytes(*decision)),
        r is Err ==> r == Err::<(), RewriteError>(RewriteError::HeaderRejected) && *final(request)
            == *old(request),
{
    if header_name_count(request) >= MAX_HEADER_NAMES {
        return Err(RewriteError::HeaderRejected);
    }
    if insert_host(request, decision.virtual_host.as_str()) {
        Ok(())
    } else {
        Err(RewriteError::HeaderRejected)
    }
}

} // verus!
