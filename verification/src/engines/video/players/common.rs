//! What the adapters share.

use vstd::prelude::*;
use crate::text::owned;

verus! {

/// What was learnt of the player on a page.
#[derive(Debug, Clone)]
pub struct PlayerInfo {
    pub platform: String,
    pub player_type: String,
    pub video_selector: Option<String>,
    pub play_trigger_js: Option<String>,
}

/// The texts of a list of strings.
pub open spec fn texts(v: Seq<String>) -> Seq<Seq<char>> {
    v.map_values(|s: String| s@)
}

/// Owned copies of a list of string slices.
pub fn strings_of(v: &Vec<&str>) -> (r: Vec<String>)
    ensures
        texts(r@) == v@.map_values(|s: &str| s@),
{
    let mut out: Vec<String> = Vec::new();
    let mut i: usize = 0;
    while i < v.len()
        invariant
            i <= v.len(),
            texts(out@) == v@.take(i as int).map_values(|s: &str| s@),
        decreases v.len() - i,
    {
        let ghost old_out = out@;
        let s = owned(v[i]);
        out.push(s);
        assert(out@ =~= old_out.push(s));
        assert(texts(out@) =~= texts(old_out).push(s@));
        assert(v@.take(i + 1) =~= v@.take(i as int).push(v@[i as int]));
        assert(texts(out@) =~= v@.take(i + 1).map_values(|s: &str| s@));
        i = i + 1;
    }
    assert(v@.take(v.len() as int) =~= v@);
    out
}

} // verus!
