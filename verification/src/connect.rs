//! How the host reaches the worker: the ports it tries, in their order,
//! and the waits it allows.

use vstd::prelude::*;
use vstd::string::StringExecFns;
use crate::protocol::{RACK_WINE_PORT_BASE, RACK_WINE_PORT_MAX};
use crate::text::{decimal, decimal_string};

verus! {

/// Milliseconds that the host gives the worker to open its socket.
pub const STARTUP_DELAY_MS: u64 = 2000;

/// Seconds after which a read or a write on the socket is given up.
pub const IO_TIMEOUT_SECS: u64 = 30;

/// The port to try after `previous` has refused, or first of all: the ports
/// of the reserved range from the lowest to the highest, then none.
pub open spec fn port_after(previous: Option<u16>) -> Option<u16> {
    match previous {
        None => Some(RACK_WINE_PORT_BASE),
        Some(port) => if port < RACK_WINE_PORT_BASE {
            Some(RACK_WINE_PORT_BASE)
        } else if port < RACK_WINE_PORT_MAX {
            Some((port + 1) as u16)
        } else {
            None
        },
    }
}

/// The port to try next. The first port that accepts a connection wins;
/// where this gives none, no port did, and connecting has failed.
pub fn next_port(previous: Option<u16>) -> (next: Option<u16>)
    ensures
        next == port_after(previous),
        next matches Some(port) ==> RACK_WINE_PORT_BASE <= port <= RACK_WINE_PORT_MAX,
{
    match previous {
        None => Some(RACK_WINE_PORT_BASE),
        Some(port) => if port < RACK_WINE_PORT_BASE {
            Some(RACK_WINE_PORT_BASE)
        } else if port < RACK_WINE_PORT_MAX {
            Some(port + 1)
        } else {
            None
        },
    }
}

/// How many ports were tried before `next` came up as the port to try;
/// all of the range, once there is none left.
pub open spec fn ports_tried(next: Option<u16>) -> int {
    match next {
        Some(port) => port - RACK_WINE_PORT_BASE,
        None => RACK_WINE_PORT_MAX - RACK_WINE_PORT_BASE + 1,
    }
}

/// Each port of the reserved range is tried once, and the one after it
/// next: probing by `next_port` ends after a hundred ports.
pub proof fn lemma_probe_order(port: u16)
    requires
        RACK_WINE_PORT_BASE <= port <= RACK_WINE_PORT_MAX,
    ensures
        ports_tried(port_after(Some(port))) == ports_tried(Some(port)) + 1,
        port_after(Some(port)) is None <==> port == RACK_WINE_PORT_MAX,
        ports_tried(port_after(None)) == 0,
        ports_tried(None) == 100,
{
}

/// The address of the worker's socket for a port: the loopback address.
pub fn host_address(port: u16) -> (s: String)
    ensures
        s@ == "127.0.0.1:"@ + decimal(port as nat),
{
    let digits: String = decimal_string(port as u64);
    String::from_str("127.0.0.1:").concat(digits.as_str())
}

} // verus!
