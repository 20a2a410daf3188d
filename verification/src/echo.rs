//! The echo responder used to exercise the relay end to end.
//!
//! It reads frames in a loop; for each non-empty frame it answers one frame
//! whose payload reports how many bytes arrived and who is answering. A
//! zero-length frame, an incomplete frame or a read failure ends the
//! conversation.

use vstd::prelude::*;
use crate::frame::spec_frame;
use crate::frame::has_complete_frame;
use crate::frame::spec_frame_len;
use crate::frame::spec_frame_rest;
use crate::frame::parse_frame;
use crate::frame::encode_frame;
use vstd::string::StrSliceExecFns;
use vstd::utf8::encode_utf8;

verus! {

/// The decimal digits of `n` in ASCII, most significant first, with no
/// leading zeros.
pub open spec fn spec_dec_digits(n: u64) -> Seq<u8>
    decreases n,
{
    if n < 10 {
        seq![(48 + n) as u8]
    } else {
        spec_dec_digits(n / 10).push((48 + n % 10) as u8)
    }
}

/// Formats `n` in decimal.
pub fn format_u64(n: u64) -> (r: Vec<u8>)
    ensures
        r@ == spec_dec_digits(n),
    decreases n,
{
    if n < 10 {
        let mut r: Vec<u8> = Vec::new();
        r.push((48 + n) as u8);
        proof {
            assert(r@ =~= spec_dec_digits(n));
        }
        r
    } else {
        let mut r = format_u64(n / 10);
        r.push((48 + n % 10) as u8);
        proof {
            assert(r@ =~= spec_dec_digits(n));
        }
        r
    }
}

/// The reply the echo responder sends for a message of `len` bytes.
pub open spec fn spec_echo_reply(len: u64, name: Seq<char>) -> Seq<u8> {
    encode_utf8("Echoing back "@) + spec_dec_digits(len) + encode_utf8(" bytes from "@)
        + encode_utf8(name) + seq![10u8]
}

/// Builds the echo reply for a message of `len` bytes, unframed.
pub fn echo_reply(len: u64, name: &str) -> (r: Vec<u8>)
    ensures
        r@ == spec_echo_reply(len, name@),
{
    let mut r = ("Echoing back ").as_bytes_vec();
    let mut digits = format_u64(len);
    r.append(&mut digits);
    let mut mid = (" bytes from ").as_bytes_vec();
    r.append(&mut mid);
    let mut name_bytes = name.as_bytes_vec();
    r.append(&mut name_bytes);
    r.push(10);
    proof {
        assert(r@ =~= spec_echo_reply(len, name@));
    }
    r
}

/// Builds the echo reply for a message of `len` bytes, framed for the wire.
pub fn echo_reply_frame(len: u64, name: &str) -> (r: Vec<u8>)
    ensures
        r@ == spec_frame(spec_echo_reply(len, name@)),
{
    let reply = echo_reply(len, name);
    encode_frame(reply.as_slice())
}

/// Whether a received reply is the echo responder's answer to a message of
/// `len` bytes.
pub fn reply_matches(reply: &[u8], len: u64, name: &str) -> (r: bool)
    ensures
        r == (reply@ == spec_echo_reply(len, name@)),
{
    let expected = echo_reply(len, name);
    crate::handshake::bytes_eq(reply, expected.as_slice())
}

/// Everything the echo responder writes over one connection, as a function of
/// the complete byte stream it receives: one reply frame per complete
/// non-empty frame, in order, stopping at the first zero-length or incomplete
/// frame.
pub open spec fn spec_echo_session(input: Seq<u8>, name: Seq<char>) -> Seq<u8>
    decreases input.len(),
{
    if has_complete_frame(input) && spec_frame_len(input) > 0 {
        spec_frame(spec_echo_reply(spec_frame_len(input), name)) + spec_echo_session(
            spec_frame_rest(input),
            name,
        )
    } else {
        Seq::empty()
    }
}

/// Runs the echo conversation over the full byte stream of one connection.
pub fn echo_session(input: &[u8], name: &str) -> (r: Vec<u8>)
    ensures
        r@ == spec_echo_session(input@, name@),
    decreases input@.len(),
{
    match parse_frame(input) {
        Some((payload, consumed)) => {
            if payload.len() == 0 {
                return Vec::new();
            }
            let mut r = echo_reply_frame(payload.len() as u64, name);
            let rest = vstd::slice::slice_subrange(input, consumed, input.len());
            let mut tail = echo_session(rest, name);
            r.append(&mut tail);
            proof {
                assert(r@ =~= spec_echo_session(input@, name@));
            }
            r
        },
        None => Vec::new(),
    }
}

/// The echo responder's identity: where it listens and the name it answers
/// with.
pub struct Server {
    addr: String,
    name: String,
}

impl Server {
    /// Constructs an immutable echo responder.
    pub fn new(addr: &str, name: &str) -> (r: Self)
        ensures
            r.spec_addr() == addr@,
            r.spec_name() == name@,
    {
        Server { addr: addr.to_owned(), name: name.to_owned() }
    }

    /// The listening address.
    pub closed spec fn spec_addr(self) -> Seq<char> {
        self.addr@
    }

    /// The name carried in every reply.
    pub closed spec fn spec_name(self) -> Seq<char> {
        self.name@
    }

    /// The address to bind the accept loop to.
    pub fn addr(&self) -> (r: &String)
        ensures
            r@ == self.spec_addr(),
    {
        &self.addr
    }

    /// The name carried in every reply.
    pub fn name(&self) -> (r: &String)
        ensures
            r@ == self.spec_name(),
    {
        &self.name
    }
}

} // verus!
