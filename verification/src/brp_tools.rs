//! Settings of the remote protocol server and the hotkey screenshot counter.
use vstd::prelude::*;
use crate::text::{parse_u16, parsed_u16};

verus! {

/// The port the remote protocol listens on: the configured one when it
/// parses as a port number above zero, else `default_port`.
pub open spec fn brp_port(configured: Option<Seq<char>>, default_port: u16) -> u16 {
    match configured {
        Some(text) => match parsed_u16(text) {
            Some(port) => if port > 0 {
                port
            } else {
                default_port
            },
            None => default_port,
        },
        None => default_port,
    }
}

/// Chooses the remote protocol port from the configured text, if any.
pub fn effective_brp_port(configured: Option<&str>, default_port: u16) -> (r: u16)
    ensures
        r == brp_port(
            match configured {
                Some(t) => Some(t@),
                None => None,
            },
            default_port,
        ),
{
    match configured {
        Some(text) => match parse_u16(text) {
            Some(port) => if port > 0 {
                port
            } else {
                default_port
            },
            None => default_port,
        },
        None => default_port,
    }
}

/// How many hotkey screenshots have been taken.
pub struct CaptureCounter(pub u32);

impl CaptureCounter {
    pub fn new() -> (r: Self)
        ensures
            r.0 == 0,
    {
        CaptureCounter(0)
    }

    /// The number of this screenshot; the count goes up by one.
    pub fn advance(&mut self) -> (n: u32)
        requires
            old(self).0 < u32::MAX,
        ensures
            n == old(self).0,
            final(self).0 == old(self).0 + 1,
    {
        let n = self.0;
        self.0 = n + 1;
        n
    }
}

} // verus!
