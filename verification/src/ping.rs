//! The ping initiator used to exercise the relay end to end.
//!
//! It dials an address a fixed number of times; each time it sends one framed
//! ping message and checks that the answer is the echo responder's reply.

use vstd::prelude::*;
use crate::echo::spec_dec_digits;
use crate::echo::format_u64;
use vstd::string::StrSliceExecFns;
use vstd::utf8::encode_utf8;

verus! {

/// The message sent on ping number `seq` (counted from zero) to `address`.
pub open spec fn spec_ping_message(seq: u32, address: Seq<char>) -> Seq<u8> {
    encode_utf8("Ping "@) + spec_dec_digits((seq + 1) as u64) + encode_utf8(" to "@) + encode_utf8(
        address,
    ) + seq![10u8]
}

/// Builds the message for ping number `seq` (counted from zero), unframed.
pub fn ping_message(seq: u32, address: &str) -> (r: Vec<u8>)
    ensures
        r@ == spec_ping_message(seq, address@),
{
    let mut r = ("Ping ").as_bytes_vec();
    let mut digits = format_u64(seq as u64 + 1);
    r.append(&mut digits);
    let mut mid = (" to ").as_bytes_vec();
    r.append(&mut mid);
    let mut addr_bytes = address.as_bytes_vec();
    r.append(&mut addr_bytes);
    r.push(10);
    proof {
        assert(r@ =~= spec_ping_message(seq, address@));
    }
    r
}

/// The ping initiator: whom to dial, what to call the far end, how many times
/// to ping and how long to pause between pings, in milliseconds.
pub struct Ping {
    pub name: String,
    pub address: String,
    pub count: u32,
    pub interval: u64,
}

impl Ping {
    /// Constructs an immutable ping initiator.
    pub fn new(name: &str, address: &str, count: u32, interval: u64) -> (r: Self)
        ensures
            r.name@ == name@,
            r.address@ == address@,
            r.count == count,
            r.interval == interval,
    {
        Ping { name: name.to_owned(), address: address.to_owned(), count, interval }
    }
}

} // verus!
