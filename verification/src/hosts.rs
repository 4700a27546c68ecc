//! Pieces of target text shared by the probes: the host part of a target,
//! the media markers that the page hooks look for, and splitting at a
//! separator.

use vstd::prelude::*;
use crate::text::{
    before, before_first, contains_seq, contains_str, first_occ, lemma_first_occ, second,
    second_piece, slice_of,
};

verus! {

/// The host part of a target: after `://` (up to a second `://`) when it
/// has one, before the first `/`, before the first `:`.
pub open spec fn host_part(t: Seq<char>) -> Seq<char> {
    let after_protocol = match second_piece(t, seq![':', '/', '/']) {
        Some(p) => p,
        None => t,
    };
    before_first(before_first(after_protocol, seq!['/']), seq![':'])
}

/// The address part of a target: after `://` (up to a second `://`) when
/// it has one, before the first `/`; the port, if any, is still on it.
pub open spec fn address_part(t: Seq<char>) -> Seq<char> {
    let after_protocol = match second_piece(t, seq![':', '/', '/']) {
        Some(p) => p,
        None => t,
    };
    before_first(after_protocol, seq!['/'])
}

pub fn address_part_of(t: &Vec<char>) -> (r: Vec<char>)
    ensures
        r@ == address_part(t@),
{
    let sep: Vec<char> = vec![':', '/', '/'];
    assert(sep@ =~= seq![':', '/', '/']);
    let slash: Vec<char> = vec!['/'];
    assert(slash@ =~= seq!['/']);
    let after_protocol = match second(t, &sep) {
        Some(p) => p,
        None => t.clone(),
    };
    before(&after_protocol, &slash)
}

pub fn host_part_of(t: &Vec<char>) -> (r: Vec<char>)
    ensures
        r@ == host_part(t@),
{
    let sep: Vec<char> = vec![':', '/', '/'];
    assert(sep@ =~= seq![':', '/', '/']);
    let slash: Vec<char> = vec!['/'];
    assert(slash@ =~= seq!['/']);
    let colon: Vec<char> = vec![':'];
    assert(colon@ =~= seq![':']);
    let after_protocol = match second(t, &sep) {
        Some(p) => p,
        None => t.clone(),
    };
    let after_path = before(&after_protocol, &slash);
    before(&after_path, &colon)
}

/// A lower-cased URL that looks like media to the script hooks.
pub open spec fn hooked_media(l: Seq<char>) -> bool {
    ||| contains_seq(l, ".mp4"@)
    ||| contains_seq(l, ".m3u8"@)
    ||| contains_seq(l, ".mpd"@)
    ||| contains_seq(l, ".m4s"@)
    ||| contains_seq(l, ".ts"@)
    ||| contains_seq(l, ".flv"@)
    ||| contains_seq(l, ".webm"@)
    ||| contains_seq(l, "videoplayback"@)
    ||| contains_seq(l, "mime=video"@)
}

pub fn hooked_media_of(l: &Vec<char>) -> (r: bool)
    ensures
        r == hooked_media(l@),
{
    contains_str(l, ".mp4") || contains_str(l, ".m3u8") || contains_str(l, ".mpd")
        || contains_str(l, ".m4s") || contains_str(l, ".ts") || contains_str(l, ".flv")
        || contains_str(l, ".webm") || contains_str(l, "videoplayback") || contains_str(
        l,
        "mime=video",
    )
}

/// The pieces of `s` between the separators `sep` (`str::split`).
pub open spec fn pieces(s: Seq<char>, sep: char) -> Seq<Seq<char>>
    decreases s.len(),
{
    match first_occ(s, seq![sep], 0) {
        Some(i) => if 0 <= i < s.len() {
            seq![s.take(i)] + pieces(s.skip(i + 1), sep)
        } else {
            seq![s]
        },
        None => seq![s],
    }
}

/// The texts held by a list of character vectors.
pub open spec fn views(v: Seq<Vec<char>>) -> Seq<Seq<char>> {
    v.map_values(|p: Vec<char>| p@)
}

/// Splits `s` at every `sep`.
pub fn split_all(s: &Vec<char>, sep: char) -> (r: Vec<Vec<char>>)
    ensures
        views(r@) == pieces(s@, sep),
    decreases s.len(),
{
    let sv: Vec<char> = vec![sep];
    assert(sv@ =~= seq![sep]);
    proof {
        lemma_first_occ(s@, seq![sep], 0);
    }
    match crate::text::find(s, &sv) {
        Some(i) => {
            let head = slice_of(s, 0, i);
            let tail = slice_of(s, i + 1, s.len());
            assert(head@ =~= s@.take(i as int));
            assert(tail@ =~= s@.skip(i + 1));
            let rest = split_all(&tail, sep);
            let mut out: Vec<Vec<char>> = Vec::new();
            out.push(head);
            let mut k: usize = 0;
            while k < rest.len()
                invariant
                    k <= rest.len(),
                    views(out@) == seq![s@.take(i as int)] + views(rest@).take(k as int),
                decreases rest.len() - k,
            {
                let piece = slice_of(&rest[k], 0, rest[k].len());
                assert(piece@ =~= rest@[k as int]@);
                let ghost old_out = out@;
                out.push(piece);
                assert(out@ =~= old_out.push(piece));
                assert(views(out@) =~= views(old_out).push(piece@));
                assert(views(rest@).take(k + 1) =~= views(rest@).take(k as int).push(
                    rest@[k as int]@,
                ));
                k = k + 1;
                assert(views(out@) =~= seq![s@.take(i as int)] + views(rest@).take(k as int));
            }
            assert(views(rest@).take(rest.len() as int) =~= views(rest@));
            out
        },
        None => {
            let mut out: Vec<Vec<char>> = Vec::new();
            out.push(s.clone());
            assert(views(out@) =~= seq![s@]);
            out
        },
    }
}

} // verus!
