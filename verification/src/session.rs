//! Byte-level models of one relay session, and the laws they obey.
//!
//! A session joins a frontend connection to a backend connection. Within one
//! connection the handshake bytes are fully exchanged before any payload byte
//! is forwarded, and after the handshake the relay copies bytes verbatim in
//! both directions. These models state each role's whole observable behavior
//! as a function of the byte streams it receives, which is exact because a
//! session holds no other state: the proofs below about routing round trips,
//! rejection, atomicity, isolation and tunnel transparency all hang on them.

use vstd::prelude::*;
use crate::frame::spec_frame;
use crate::frame::has_complete_frame;
use crate::frame::spec_frame_payload;
use crate::frame::spec_frame_rest;
use crate::frame::lemma_frame_round_trip;
use crate::frame::parse_frame;
use crate::handshake::accepts;
use crate::handshake::route_request;
use crate::handshake::ack_matches;
use crate::namemap::NameMap;
use vstd::utf8::decode_utf8;

verus! {

/// What the responder makes of one frontend connection, as a function of the
/// service map and the complete byte stream the frontend sends: `None` when
/// the connection is torn down with nothing dialed, nothing answered and
/// nothing forwarded; otherwise the backend address it dials, the
/// acknowledgment frame it writes back — before any forwarding — and the
/// payload bytes it then relays on to the backend, exactly the bytes that
/// follow the request frame.
pub open spec fn spec_responder_session(
    services: Map<Seq<char>, Seq<char>>,
    frontend_input: Seq<u8>,
) -> Option<(Seq<char>, Seq<u8>, Seq<u8>)> {
    if has_complete_frame(frontend_input) && accepts(
        services,
        spec_frame_payload(frontend_input),
    ) {
        let name = spec_frame_payload(frontend_input);
        Some((services[decode_utf8(name)], spec_frame(name), spec_frame_rest(frontend_input)))
    } else {
        None
    }
}

/// What the initiator makes of the stream coming back from the remote proxy,
/// given the name it sent: `None` when no complete acknowledgment frame
/// arrives or the acknowledgment differs from the name — the connection is
/// torn down and nothing reaches the local application; otherwise the bytes
/// after the acknowledgment, which it relays verbatim to the local
/// application.
pub open spec fn spec_initiator_session(name: Seq<u8>, proxy_input: Seq<u8>) -> Option<Seq<u8>> {
    if has_complete_frame(proxy_input) && spec_frame_payload(proxy_input) == name {
        Some(spec_frame_rest(proxy_input))
    } else {
        None
    }
}

/// The responder's whole handling of one frontend connection, executable.
///
/// Mirrors `spec_responder_session` exactly: on acceptance it yields the
/// backend address dialed, the acknowledgment frame written back, and the
/// bytes relayed to the backend.
pub struct ResponderOutcome {
    pub backend_address: String,
    pub ack: Vec<u8>,
    pub forwarded: Vec<u8>,
}

/// Runs the responder role over the full byte stream of one frontend
/// connection.
pub fn responder_session(services: &NameMap<String>, frontend_input: &[u8]) -> (r: Option<
    ResponderOutcome,
>)
    requires
        services.wf(),
    ensures
        r is Some <==> spec_responder_session(services@, frontend_input@) is Some,
        r matches Some(o) ==> spec_responder_session(services@, frontend_input@) == Some(
            (o.backend_address@, o.ack@, o.forwarded@),
        ),
{
    let (name, consumed) = match parse_frame(frontend_input) {
        Some(pc) => pc,
        None => {
            return None;
        },
    };
    let routed = match route_request(services, name.as_slice()) {
        Some(routed) => routed,
        None => {
            return None;
        },
    };
    let rest = vstd::slice::slice_subrange(frontend_input, consumed, frontend_input.len());
    let forwarded = vstd::slice::slice_to_vec(rest);
    proof {
        assert(forwarded@ =~= spec_frame_rest(frontend_input@));
    }
    Some(
        ResponderOutcome {
            backend_address: routed.backend_address,
            ack: routed.ack,
            forwarded,
        },
    )
}

/// Runs the initiator role over the full byte stream coming back from the
/// remote proxy: validates the acknowledgment against the sent name and
/// yields the bytes relayed on to the local application.
pub fn initiator_session(name: &[u8], proxy_input: &[u8]) -> (r: Option<Vec<u8>>)
    ensures
        r is Some <==> spec_initiator_session(name@, proxy_input@) is Some,
        r matches Some(relayed) ==> spec_initiator_session(name@, proxy_input@) == Some(relayed@),
{
    let (ack, consumed) = match parse_frame(proxy_input) {
        Some(pc) => pc,
        None => {
            return None;
        },
    };
    if !ack_matches(name, ack.as_slice()) {
        return None;
    }
    let rest = vstd::slice::slice_subrange(proxy_input, consumed, proxy_input.len());
    let relayed = vstd::slice::slice_to_vec(rest);
    proof {
        assert(relayed@ =~= spec_frame_rest(proxy_input@));
    }
    Some(relayed)
}

/// What one relay session does once a pair is established: each direction is
/// copied verbatim, and the session reports how many bytes went each way.
pub struct RelayReport {
    /// The bytes delivered to the backend: the frontend's stream, verbatim.
    pub to_backend: Vec<u8>,
    /// The bytes delivered to the frontend: the backend's stream, verbatim.
    pub to_frontend: Vec<u8>,
    /// Bytes copied frontend to backend.
    pub frontend_to_backend: u64,
    /// Bytes copied backend to frontend.
    pub backend_to_frontend: u64,
}

/// Joins an established pair: copies each direction verbatim and reports byte
/// counts that equal the number of bytes actually delivered on each side.
pub fn relay_session(frontend_input: &[u8], backend_input: &[u8]) -> (r: RelayReport)
    ensures
        r.to_backend@ == frontend_input@,
        r.to_frontend@ == backend_input@,
        r.frontend_to_backend == frontend_input@.len(),
        r.backend_to_frontend == backend_input@.len(),
{
    let to_backend = vstd::slice::slice_to_vec(frontend_input);
    let to_frontend = vstd::slice::slice_to_vec(backend_input);
    let frontend_to_backend = to_backend.len() as u64;
    let backend_to_frontend = to_frontend.len() as u64;
    RelayReport { to_backend, to_frontend, frontend_to_backend, backend_to_frontend }
}

/// Round-trip routing: an initiator that sends a valid handshake for a name
/// in the service map, followed by arbitrary payload bytes, gets its payload
/// delivered verbatim to the routed backend; and when that backend echoes the
/// payload, the initiator receives exactly the bytes it sent, byte for byte.
pub proof fn lemma_round_trip_routing(
    services: Map<Seq<char>, Seq<char>>,
    name: Seq<u8>,
    payload: Seq<u8>,
)
    requires
        accepts(services, name),
    ensures
        spec_responder_session(services, spec_frame(name) + payload) == Some(
            (services[decode_utf8(name)], spec_frame(name), payload),
        ),
        spec_initiator_session(name, spec_frame(name) + payload) == Some(payload),
{
    lemma_frame_round_trip(name, payload);
}

/// Unknown-service rejection: a request frame whose name is absent from the
/// service map leaves the responder with nothing: no backend address is
/// resolved, so no backend is ever dialed, no acknowledgment is written, and
/// zero payload bytes are forwarded.
pub proof fn lemma_unknown_service_rejected(
    services: Map<Seq<char>, Seq<char>>,
    frontend_input: Seq<u8>,
)
    requires
        has_complete_frame(frontend_input),
        !services.contains_key(decode_utf8(spec_frame_payload(frontend_input))),
    ensures
        spec_responder_session(services, frontend_input) is None,
{
}

/// Handshake atomicity: while the request frame is still incomplete — any
/// strict prefix of it, however the peer interleaves its writes — the
/// responder forwards nothing and dials nothing; and when payload bytes are
/// injected right behind the request frame without waiting for the
/// acknowledgment, the framing is still honored: the acknowledgment covers
/// exactly the name, and exactly the injected bytes are forwarded, none of
/// them consumed by the handshake.
pub proof fn lemma_handshake_atomicity(
    services: Map<Seq<char>, Seq<char>>,
    name: Seq<u8>,
    payload: Seq<u8>,
)
    requires
        accepts(services, name),
    ensures
        forall|k: int|
            0 <= k < spec_frame(name).len() ==> spec_responder_session(
                services,
                #[trigger] spec_frame(name).take(k),
            ) is None,
        spec_responder_session(services, spec_frame(name) + payload) == Some(
            (services[decode_utf8(name)], spec_frame(name), payload),
        ),
{
    lemma_frame_round_trip(name, payload);
    lemma_frame_round_trip(name, Seq::<u8>::empty());
    assert(spec_frame(name) + Seq::<u8>::empty() =~= spec_frame(name));
    let whole = spec_frame(name);
    assert forall|k: int|
        0 <= k < whole.len() implies spec_responder_session(
        services,
        #[trigger] whole.take(k),
    ) is None by {
        let prefix = whole.take(k);
        if prefix.len() >= 8 {
            assert(prefix.take(8) =~= whole.take(8));
            assert(crate::frame::spec_frame_len(prefix) == name.len());
            assert(prefix.len() < 8 + name.len());
            assert(!has_complete_frame(prefix));
        }
    }
}

/// The outcome of many concurrent responder sessions, each keyed by its own
/// connection: every session is handled by the same pure function of the
/// shared read-only service map and that session's own frontend stream.
pub open spec fn spec_concurrent_sessions(
    services: Map<Seq<char>, Seq<char>>,
    frontend_inputs: Map<int, Seq<u8>>,
) -> Map<int, Option<(Seq<char>, Seq<u8>, Seq<u8>)>> {
    Map::new(
        |k: int| frontend_inputs.contains_key(k),
        |k: int| spec_responder_session(services, frontend_inputs[k]),
    )
}

/// Concurrent isolation: a session's outcome depends on the shared service
/// map and its own frontend stream alone — however every other concurrent
/// session's stream changes, session `k` resolves the same backend, writes
/// the same acknowledgment, and forwards the same bytes; and the bytes that
/// reach its backend are drawn from its own frontend stream, so one session's
/// payload never appears in another session's backend stream.
pub proof fn lemma_concurrent_isolation(
    services: Map<Seq<char>, Seq<char>>,
    frontend_inputs_a: Map<int, Seq<u8>>,
    frontend_inputs_b: Map<int, Seq<u8>>,
    k: int,
)
    requires
        frontend_inputs_a.contains_key(k),
        frontend_inputs_b.contains_key(k),
        frontend_inputs_a[k] == frontend_inputs_b[k],
    ensures
        spec_concurrent_sessions(services, frontend_inputs_a)[k] == spec_concurrent_sessions(
            services,
            frontend_inputs_b,
        )[k],
        spec_concurrent_sessions(services, frontend_inputs_a)[k] matches Some(outcome)
            ==> outcome.2 == spec_frame_rest(frontend_inputs_a[k]),
{
}

/// Tunnel equivalence: one proxy hop is transparent to payload content. The
/// routed backend receives from the tunnel exactly the bytes the local
/// application sent — what a direct connection would have delivered — and for
/// any reply stream the backend produces, the local application receives
/// exactly that stream, as it would have over a direct connection.
pub proof fn lemma_tunnel_transparency(
    services: Map<Seq<char>, Seq<char>>,
    name: Seq<u8>,
    payload: Seq<u8>,
    backend_reply: Seq<u8>,
)
    requires
        accepts(services, name),
    ensures
        spec_responder_session(services, spec_frame(name) + payload) == Some(
            (services[decode_utf8(name)], spec_frame(name), payload),
        ),
        spec_initiator_session(name, spec_frame(name) + backend_reply) == Some(backend_reply),
{
    lemma_frame_round_trip(name, payload);
    lemma_frame_round_trip(name, backend_reply);
}

} // verus!
