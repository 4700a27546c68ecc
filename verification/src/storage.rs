//! Where screenshots are kept: a file per tested URL, named after the URL
//! with everything but letters, digits, `_`, `.` and `-` taken out.

use vstd::prelude::*;
use crate::text::{
    chars_of, concat, is_alphanumeric, matches_at, occurs_at, string_of, unicode_alphanumeric,
};

verus! {

/// The screenshot store.
pub struct StorageManager;

/// `s` from position `i` on, with every `://` (found left to right, not
/// overlapping) replaced by `_`.
pub open spec fn collapse_schemes(s: Seq<char>, i: int) -> Seq<char>
    decreases s.len() - i,
{
    if i < 0 || i >= s.len() {
        Seq::empty()
    } else if i + 3 <= s.len() && occurs_at(s, "://"@, i) {
        seq!['_'] + collapse_schemes(s, i + 3)
    } else {
        seq![s[i]] + collapse_schemes(s, i + 1)
    }
}

/// A separator of URL parts becomes `_`.
pub open spec fn unseparated(c: char) -> char {
    if c == '/' || c == ':' || c == '?' || c == '&' || c == '=' {
        '_'
    } else {
        c
    }
}

/// The characters that a file name keeps.
pub open spec fn file_safe(c: char) -> bool {
    unicode_alphanumeric(c) || c == '_' || c == '.' || c == '-'
}

/// The file name (without extension) for a URL's screenshot.
pub open spec fn sanitized(url: Seq<char>) -> Seq<char> {
    collapse_schemes(url, 0).map_values(|c: char| unseparated(c)).filter(|c: char| file_safe(c))
}

/// Turns a URL into a safe file name.
pub fn sanitize_url_for_filename(url: &str) -> (r: String)
    ensures
        r@ == sanitized(url@),
{
    let s = chars_of(url);
    let pat = chars_of("://");
    proof {
        reveal_strlit("://");
    }
    let mut collapsed: Vec<char> = Vec::new();
    let mut i: usize = 0;
    while i < s.len()
        invariant
            i <= s.len(),
            pat@ == "://"@,
            "://"@.len() == 3,
            collapsed@ + collapse_schemes(s@, i as int) == collapse_schemes(s@, 0),
        decreases s.len() - i,
    {
        if s.len() - i >= 3 && matches_at(&s, &pat, i) {
            collapsed.push('_');
            assert(collapse_schemes(s@, i as int) == seq!['_'] + collapse_schemes(s@, i + 3));
            i = i + 3;
        } else {
            let c = s[i];
            collapsed.push(c);
            assert(collapse_schemes(s@, i as int) == seq![c] + collapse_schemes(s@, i + 1));
            i = i + 1;
        }
        assert(collapsed@ + collapse_schemes(s@, i as int) =~= collapse_schemes(s@, 0));
    }
    assert(collapse_schemes(s@, i as int) =~= Seq::<char>::empty());
    assert(collapsed@ =~= collapse_schemes(s@, 0));
    let ghost mapped = collapsed@.map_values(|c: char| unseparated(c));
    let ghost keep = |c: char| file_safe(c);
    let mut out: Vec<char> = Vec::new();
    let mut k: usize = 0;
    while k < collapsed.len()
        invariant
            k <= collapsed.len(),
            mapped == collapsed@.map_values(|c: char| unseparated(c)),
            keep == (|c: char| file_safe(c)),
            out@ == mapped.take(k as int).filter(keep),
        decreases collapsed.len() - k,
    {
        let c0 = collapsed[k];
        let c = if c0 == '/' || c0 == ':' || c0 == '?' || c0 == '&' || c0 == '=' {
            '_'
        } else {
            c0
        };
        assert(c == mapped[k as int]);
        let keeps = is_alphanumeric(c) || c == '_' || c == '.' || c == '-';
        if keeps {
            out.push(c);
        }
        proof {
            reveal(Seq::filter);
            let p1 = mapped.take(k + 1);
            assert(p1.drop_last() =~= mapped.take(k as int));
            assert(p1.last() == c);
            assert(keep(c) == keeps);
        }
        k = k + 1;
    }
    assert(mapped.take(collapsed.len() as int) =~= mapped);
    string_of(&out)
}

impl StorageManager {
    /// The full path of a stored screenshot: the directory, `/`, and the
    /// path relative to it.
    pub fn get_screenshot_path(screenshot_dir: &str, relative_path: &str) -> (r: String)
        ensures
            r@ == screenshot_dir@ + "/"@ + relative_path@,
    {
        let p = concat(&concat(&chars_of(screenshot_dir), &chars_of("/")), &chars_of(relative_path));
        string_of(&p)
    }

    /// Where the screenshot of a URL for a task is stored, relative to the
    /// screenshot directory: `{task_id}/{name}.png`.
    pub fn screenshot_relative_path(task_id: &str, url: &str) -> (r: String)
        ensures
            r@ == task_id@ + "/"@ + sanitized(url@) + ".png"@,
    {
        let name = chars_of(sanitize_url_for_filename(url).as_str());
        let p = concat(
            &concat(&concat(&chars_of(task_id), &chars_of("/")), &name),
            &chars_of(".png"),
        );
        string_of(&p)
    }

    /// The directory that holds a task's screenshots: `{dir}/{task_id}`.
    pub fn task_dir(screenshot_dir: &str, task_id: &str) -> (r: String)
        ensures
            r@ == screenshot_dir@ + "/"@ + task_id@,
    {
        let p = concat(&concat(&chars_of(screenshot_dir), &chars_of("/")), &chars_of(task_id));
        string_of(&p)
    }
}

} // verus!
