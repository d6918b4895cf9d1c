//! The two-message discovery protocol.
//!
//! A client broadcasts a fixed request datagram; every listening daemon
//! answers the sender with a fixed reply, meaning only "a daemon is
//! reachable at this address".  The sockets live in the unverified shell;
//! the payloads and the request check are decided here.

use crate::strutil::str_eq;
use vstd::prelude::*;
use vstd::string::StringExecFns;

verus! {

/// The broadcast payload a client discovers daemons with.
pub fn discovery_request() -> (r: String)
    ensures
        r@ == "SPARK_DISCOVER"@,
{
    String::from_str("SPARK_DISCOVER")
}

/// The payload a daemon answers a discovery request with.
pub fn discovery_reply() -> (r: String)
    ensures
        r@ == "SPARK_HERE"@,
{
    String::from_str("SPARK_HERE")
}

/// Whether a received datagram is a discovery request.  A daemon answers
/// exactly these and ignores everything else.
pub fn is_discovery_request(msg: &str) -> (r: bool)
    ensures
        r == (msg@ == "SPARK_DISCOVER"@),
{
    str_eq(msg, "SPARK_DISCOVER")
}

} // verus!
