//! The page-level collectors: the host of a media request and whether a
//! URL names a video resource.

use vstd::prelude::*;
use crate::text::{before, before_first, chars_of, contains_seq, contains_str, second, second_piece, string_of};

verus! {

/// The host of a media request URL, if it names one after `://`.
pub open spec fn media_host(url: Seq<char>) -> Option<Seq<char>> {
    match second_piece(url, seq![':', '/', '/']) {
        Some(p) => Some(before_first(before_first(p, seq!['/']), seq![':'])),
        None => None,
    }
}

/// The host of a media request URL.
pub fn extract_host(url: &str) -> (r: Option<String>)
    ensures
        match media_host(url@) {
            Some(h) => r matches Some(s) && s@ == h,
            None => r is None,
        },
{
    let u = chars_of(url);
    let sep: Vec<char> = vec![':', '/', '/'];
    assert(sep@ =~= seq![':', '/', '/']);
    let slash: Vec<char> = vec!['/'];
    assert(slash@ =~= seq!['/']);
    let colon: Vec<char> = vec![':'];
    assert(colon@ =~= seq![':']);
    match second(&u, &sep) {
        Some(p) => {
            let a = before(&p, &slash);
            let b = before(&a, &colon);
            Some(string_of(&b))
        },
        None => None,
    }
}

/// A URL that looks like a video resource by its extension.
pub open spec fn video_url(u: Seq<char>) -> bool {
    ||| contains_seq(u, ".mp4"@)
    ||| contains_seq(u, ".m3u8"@)
    ||| contains_seq(u, ".mpd"@)
    ||| contains_seq(u, ".m4s"@)
    ||| contains_seq(u, ".ts"@)
    ||| contains_seq(u, ".flv"@)
    ||| contains_seq(u, ".webm"@)
}

/// Whether a URL looks like a video resource by its extension.
pub fn is_video_url(url: &str) -> (r: bool)
    ensures
        r == video_url(url@),
{
    let u = chars_of(url);
    contains_str(&u, ".mp4") || contains_str(&u, ".m3u8") || contains_str(&u, ".mpd")
        || contains_str(&u, ".m4s") || contains_str(&u, ".ts") || contains_str(&u, ".flv")
        || contains_str(&u, ".webm")
}

} // verus!
