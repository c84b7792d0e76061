//! Core logic of an always-on networked microcontroller: the wireless
//! connection supervisor, the network readiness gate, the bounded HTTPS
//! time-fetch client, and the clock bootstrap policy that sequences them.
//!
//! Everything here is plain state-machine and parsing logic over fixed-size
//! data. The asynchronous radio, socket and timer plumbing lives outside the
//! library and drives these state machines with the events it observes.

pub mod bootstrap;
pub mod clock;
pub mod http;
pub mod web;
pub mod wifi;

use vstd::prelude::*;

verus! {

/// Marks the unrecoverable-fault path: the firmware parks the core after
/// calling this. The spinning itself is the runtime's affair; nothing
/// observable happens after the call.
pub fn panic() -> (halted: bool)
    ensures
        halted,
{
    true
}

} // verus!
