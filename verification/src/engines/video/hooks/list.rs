//! The hook scripts in the order they are injected, and how a cookie's
//! `sameSite` text is read.

use vstd::prelude::*;
use super::{media_element, media_source, mutation, network_api};
use crate::text::{ascii_lower_seq, ascii_lowercase, chars_of, seq_eq, trim, trim_seq};

verus! {

/// The scripts in injection order: media element, network API, Media
/// Source, mutation observer.
pub open spec fn hook_order() -> Seq<Seq<char>> {
    seq![
        media_element::MEDIA_ELEMENT_HOOK@,
        network_api::NETWORK_API_HOOK@,
        media_source::MEDIA_SOURCE_HOOK@,
        mutation::MUTATION_HOOK@,
    ]
}

/// The scripts to inject, in order.
pub fn hook_scripts() -> (r: Vec<&'static str>)
    ensures
        r@.map_values(|s: &'static str| s@) == hook_order(),
{
    let v = vec![
        media_element::hook_script(),
        network_api::hook_script(),
        media_source::hook_script(),
        mutation::hook_script(),
    ];
    assert(v@.map_values(|s: &'static str| s@) =~= hook_order());
    v
}

/// A cookie's same-site policy.
#[derive(Debug, Clone, Copy, PartialEq, Eq, Structural)]
pub enum SameSite {
    Strict,
    Lax,
    NoRestriction,
}

/// The policy that a `sameSite` text names, read trimmed and without
/// regard to ASCII case.
pub open spec fn same_site_of(value: Seq<char>) -> Option<SameSite> {
    let v = ascii_lower_seq(trim_seq(value));
    if v == "strict"@ {
        Some(SameSite::Strict)
    } else if v == "lax"@ {
        Some(SameSite::Lax)
    } else if v == "none"@ || v == "no_restriction"@ {
        Some(SameSite::NoRestriction)
    } else {
        None
    }
}

/// Reads a cookie's `sameSite` text.
pub fn parse_same_site(value: &str) -> (r: Option<SameSite>)
    ensures
        r == same_site_of(value@),
{
    let v = ascii_lowercase(&trim(&chars_of(value)));
    if seq_eq(&v, &chars_of("strict")) {
        Some(SameSite::Strict)
    } else if seq_eq(&v, &chars_of("lax")) {
        Some(SameSite::Lax)
    } else if seq_eq(&v, &chars_of("none")) || seq_eq(&v, &chars_of("no_restriction")) {
        Some(SameSite::NoRestriction)
    } else {
        None
    }
}

} // verus!
