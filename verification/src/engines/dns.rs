//! The DNS probe: which host it resolves for a target.

use vstd::prelude::*;
use crate::hosts::{host_part, host_part_of};
use crate::text::{chars_of, string_of, trim, trim_seq};

verus! {

/// The DNS engine; resolution itself goes through the system's resolver.
pub struct DnsEngine;

/// The host that the DNS probe resolves for a target (trimmed first).
pub open spec fn dns_host(input: Seq<char>) -> Seq<char> {
    host_part(trim_seq(input))
}

/// The host that the DNS probe resolves: protocol, path and port removed.
pub fn extract_host(input: &str) -> (r: String)
    ensures
        r@ == dns_host(input@),
{
    let t = trim(&chars_of(input));
    string_of(&host_part_of(&t))
}

} // verus!
