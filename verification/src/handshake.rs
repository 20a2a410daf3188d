//! The handshake run on every new connection before any payload byte flows.
//!
//! The initiator writes one frame carrying a UTF-8 service name. The responder
//! reads it, looks the name up in its service map, dials the mapped backend,
//! and only then echoes the identical name frame back as the acknowledgment.
//! The initiator accepts the connection only when the acknowledgment equals
//! the name it sent, byte for byte. Any other outcome tears the connection
//! down: no rejection frame is ever written.

use vstd::prelude::*;
use crate::frame::spec_frame;
use crate::frame::encode_frame;
use crate::namemap::NameMap;
use vstd::utf8::valid_utf8;
use vstd::utf8::decode_utf8;
use vstd::utf8::encode_utf8;
use vstd::utf8::encode_utf8_decode_utf8;

verus! {

/// The longest service name the responder accepts, in bytes. The length
/// prefix could announce far more; capping it keeps a hostile or buggy peer
/// from forcing unbounded buffer growth.
pub const MAX_SERVICE_NAME_LEN: u64 = 1024;

/// Relies on str::from_utf8: succeeds exactly on valid UTF-8, and the
/// resulting string carries exactly the given bytes.
#[verifier::external_body]
fn string_from_utf8(bytes: &[u8]) -> (r: Option<String>)
    ensures
        r is Some <==> valid_utf8(bytes@),
        r matches Some(s) ==> encode_utf8(s@) == bytes@,
{
    core::str::from_utf8(bytes).ok().map(|s| s.to_owned())
}

/// Whether the responder accepts a request for the service named by these
/// bytes: the name is non-empty, within the length cap, valid UTF-8, and
/// present in the service map.
pub open spec fn accepts(services: Map<Seq<char>, Seq<char>>, name: Seq<u8>) -> bool {
    &&& 0 < name.len() <= MAX_SERVICE_NAME_LEN
    &&& valid_utf8(name)
    &&& services.contains_key(decode_utf8(name))
}

/// The responder's answer to an accepted request: the backend address to
/// dial, and the acknowledgment frame to write back to the frontend once that
/// dial has succeeded. The acknowledgment is the identical name frame.
pub struct RoutedRequest {
    pub backend_address: String,
    pub ack: Vec<u8>,
}

/// The responder's routing decision for one request name read from the wire.
///
/// Returns the backend address and acknowledgment frame exactly when the map
/// holds the name; an empty name, one over the cap, one that is not UTF-8, or
/// one absent from the map is refused, and the caller closes the connection
/// without dialing anything and without writing a reply.
pub fn route_request(services: &NameMap<String>, name: &[u8]) -> (r: Option<RoutedRequest>)
    requires
        services.wf(),
    ensures
        r is Some <==> accepts(services@, name@),
        r matches Some(routed) ==> ({
            &&& routed.backend_address@ == services@[decode_utf8(name@)]
            &&& routed.ack@ == spec_frame(name@)
        }),
{
    if name.len() == 0 {
        return None;
    }
    if (name.len() as u64) > MAX_SERVICE_NAME_LEN {
        return None;
    }
    let name_string = match string_from_utf8(name) {
        Some(s) => s,
        None => {
            return None;
        },
    };
    proof {
        encode_utf8_decode_utf8(name_string@);
        assert(decode_utf8(name@) == name_string@);
    }
    match services.get(&name_string) {
        Some(address) => Some(RoutedRequest { backend_address: address.clone(), ack: encode_frame(name) }),
        None => None,
    }
}

/// Compares two byte strings.
pub fn bytes_eq(a: &[u8], b: &[u8]) -> (r: bool)
    ensures
        r == (a@ == b@),
{
    if a.len() != b.len() {
        return false;
    }
    let n = a.len();
    for i in 0..n
        invariant
            n == a@.len(),
            n == b@.len(),
            forall|j: int| 0 <= j < i ==> a@[j] == b@[j],
    {
        if a[i] != b[i] {
            return false;
        }
    }
    proof {
        assert(a@ =~= b@);
    }
    true
}

/// The initiator's validation of the responder's acknowledgment: it must
/// equal the sent name exactly. A mismatch in length or content is a
/// handshake failure, and the caller tears the connection down.
pub fn ack_matches(name: &[u8], ack: &[u8]) -> (r: bool)
    ensures
        r == (ack@ == name@),
{
    bytes_eq(ack, name)
}

} // verus!
