//! The ping probe: its settings and the host that it aims at.

use vstd::prelude::*;
use core::time::Duration;
use crate::hosts::{address_part, address_part_of};
use crate::text::{after, after_first, before, before_first, chars_of, slice_of, string_of, trim, trim_seq};

verus! {

/// The ping engine: how many echo requests one test sends, and how long it
/// waits for each.
pub struct PingEngine {
    count: u32,
    timeout: Duration,
}

/// The number of echo requests that a requested count comes to: at least
/// one, at most a hundred.
pub open spec fn clamped_count(count: u32) -> u32 {
    if count < 1 {
        1
    } else if count > 100 {
        100
    } else {
        count
    }
}

impl PingEngine {
    /// The number of echo requests one test sends.
    pub closed spec fn echo_count(&self) -> u32 {
        self.count
    }

    /// How long the engine waits for each reply.
    pub closed spec fn reply_timeout(&self) -> Duration {
        self.timeout
    }

    /// A ping engine that sends `count` requests, held between 1 and 100.
    pub fn new(count: u32, timeout: Duration) -> (r: PingEngine)
        ensures
            r.echo_count() == clamped_count(count),
            r.reply_timeout() == timeout,
    {
        let at_least_one = if count < 1 { 1 } else { count };
        let c = if at_least_one > 100 { 100 } else { at_least_one };
        PingEngine { count: c, timeout }
    }

    /// The number of echo requests that one test sends.
    pub fn count(&self) -> (r: u32)
        ensures
            r == self.echo_count(),
    {
        self.count
    }

    /// How long the engine waits for each reply.
    pub fn timeout(&self) -> (r: Duration)
        ensures
            r == self.reply_timeout(),
    {
        self.timeout
    }
}

/// The host that the ping engine probes: protocol and path are removed as
/// for DNS; an address written in brackets (`[2001:db8::1]`, possibly with
/// `:port` after it) gives what lies between the brackets, and any other
/// host loses its `:port`.
pub open spec fn ping_host_text(input: Seq<char>) -> Seq<char> {
    let p = address_part(trim_seq(input));
    if p.len() > 0 && p[0] == '[' && after_first(p.drop_first(), seq![']']) is Some {
        before_first(p.drop_first(), seq![']'])
    } else {
        before_first(p, seq![':'])
    }
}

/// The host that the ping engine probes.
pub fn extract_host(input: &str) -> (r: String)
    ensures
        r@ == ping_host_text(input@),
{
    let t = trim(&chars_of(input));
    let p = address_part_of(&t);
    let close: Vec<char> = vec![']'];
    assert(close@ =~= seq![']']);
    let colon: Vec<char> = vec![':'];
    assert(colon@ =~= seq![':']);
    if p.len() > 0 && p[0] == '[' {
        let rest = slice_of(&p, 1, p.len());
        assert(rest@ =~= p@.drop_first());
        if after(&rest, &close).is_some() {
            return string_of(&before(&rest, &close));
        }
    }
    string_of(&before(&p, &colon))
}

} // verus!
