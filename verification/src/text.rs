//! Character-sequence helpers on which the rest of the library builds.
//!
//! Strings are handled as sequences of `char`; every helper here is stated
//! over `Seq<char>` so that the callers' contracts can speak of the text they
//! inspect directly.

use vstd::prelude::*;

verus! {

// ───────────────────────── conversions ─────────────────────────

/// Appends one character to a `String` (`String::push`).
#[verifier::external_body]
pub(crate) fn push_char(s: &mut String, c: char)
    ensures
        final(s)@ == old(s)@.push(c),
{
    s.push(c);
}

/// The characters of a string slice, in order.
pub fn chars_of(s: &str) -> (r: Vec<char>)
    ensures
        r@ == s@,
{
    let mut v: Vec<char> = Vec::new();
    for c in it: s.chars()
        invariant
            v@ == it.seq().take(it.index() as int),
    {
        v.push(c);
    }
    v
}

/// A `String` holding exactly the given characters.
pub fn string_of(v: &Vec<char>) -> (r: String)
    ensures
        r@ == v@,
{
    let mut s = String::new();
    let mut i: usize = 0;
    while i < v.len()
        invariant
            i <= v.len(),
            s@ == v@.take(i as int),
        decreases v.len() - i,
    {
        push_char(&mut s, v[i]);
        assert(v@.take(i as int).push(v@[i as int]) =~= v@.take(i + 1));
        i = i + 1;
    }
    assert(v@.take(v.len() as int) =~= v@);
    s
}

/// A copy of a string slice as a `String`.
pub fn owned(s: &str) -> (r: String)
    ensures
        r@ == s@,
{
    s.to_owned()
}

/// The text of an optional string.
pub open spec fn opt_text(o: Option<String>) -> Option<Seq<char>> {
    match o {
        Some(s) => Some(s@),
        None => None,
    }
}

/// The text of an optional string slice.
pub open spec fn opt_str(o: Option<&str>) -> Option<Seq<char>> {
    match o {
        Some(s) => Some(s@),
        None => None,
    }
}

/// A copy of an optional string.
pub fn copy_opt(o: &Option<String>) -> (r: Option<String>)
    ensures
        opt_text(r) == opt_text(*o),
{
    match o {
        Some(s) => Some(s.clone()),
        None => None,
    }
}

// ───────────────────────── occurrences ─────────────────────────

/// `n` occurs in `h` starting at position `i`.
pub open spec fn occurs_at(h: Seq<char>, n: Seq<char>, i: int) -> bool {
    0 <= i && i + n.len() <= h.len() && h.subrange(i, i + n.len()) == n
}

/// The first position at or after `from` where `n` occurs in `h`.
pub open spec fn first_occ(h: Seq<char>, n: Seq<char>, from: int) -> Option<int>
    decreases h.len() - from,
{
    if from < 0 || from + n.len() > h.len() {
        None
    } else if n.len() == 0 || h.subrange(from, from + n.len()) == n {
        Some(from)
    } else {
        first_occ(h, n, from + 1)
    }
}

/// `n` occurs somewhere in `h` (`str::contains`).
pub open spec fn contains_seq(h: Seq<char>, n: Seq<char>) -> bool {
    first_occ(h, n, 0) is Some
}

/// `h` begins with `n` (`str::starts_with`).
pub open spec fn starts_with_seq(h: Seq<char>, n: Seq<char>) -> bool {
    n.len() <= h.len() && h.take(n.len() as int) == n
}

/// `h` ends with `n` (`str::ends_with`).
pub open spec fn ends_with_seq(h: Seq<char>, n: Seq<char>) -> bool {
    n.len() <= h.len() && h.skip(h.len() - n.len()) == n
}

/// What `first_occ` returns is an occurrence, and none comes before it.
pub proof fn lemma_first_occ(h: Seq<char>, n: Seq<char>, from: int)
    requires
        0 <= from,
    ensures
        match first_occ(h, n, from) {
            Some(i) => from <= i && occurs_at(h, n, i) && forall|j: int|
                from <= j < i ==> !occurs_at(h, n, j),
            None => forall|j: int| from <= j ==> !occurs_at(h, n, j),
        },
    decreases h.len() - from,
{
    if from + n.len() > h.len() {
    } else if n.len() == 0 || h.subrange(from, from + n.len()) == n {
        if n.len() == 0 {
            assert(h.subrange(from, from + n.len()) =~= n);
        }
    } else {
        lemma_first_occ(h, n, from + 1);
    }
}

/// `n` occurs in `h` at position `i`.
pub fn matches_at(h: &Vec<char>, n: &Vec<char>, i: usize) -> (r: bool)
    ensures
        r == occurs_at(h@, n@, i as int),
{
    if n.len() > h.len() || i > h.len() - n.len() {
        return false;
    }
    let mut k: usize = 0;
    while k < n.len()
        invariant
            k <= n.len(),
            i + n.len() <= h.len(),
            forall|j: int| 0 <= j < k ==> h@[i + j] == n@[j],
        decreases n.len() - k,
    {
        if h[i + k] != n[k] {
            assert(h@.subrange(i as int, i + n.len())[k as int] != n@[k as int]);
            return false;
        }
        k = k + 1;
    }
    assert(h@.subrange(i as int, i + n.len()) =~= n@);
    true
}

/// The first position at or after `from` where `n` occurs in `h`.
pub fn find_from(h: &Vec<char>, n: &Vec<char>, from: usize) -> (r: Option<usize>)
    ensures
        match first_occ(h@, n@, from as int) {
            Some(i) => r == Some(i as usize),
            None => r is None,
        },
        r matches Some(i) ==> occurs_at(h@, n@, i as int),
{
    proof {
        lemma_first_occ(h@, n@, from as int);
    }
    if n.len() > h.len() || from > h.len() - n.len() {
        return None;
    }
    let last = h.len() - n.len();
    let mut i = from;
    while i <= last
        invariant
            from <= i,
            last == h.len() - n.len(),
            i <= last + 1,
            first_occ(h@, n@, from as int) == first_occ(h@, n@, i as int),
        decreases last + 1 - i,
    {
        let m = matches_at(h, n, i);
        if m || n.len() == 0 {
            assert(h@.subrange(i as int, i + n.len()) =~= n@ || m);
            return Some(i);
        }
        i = i + 1;
    }
    None
}

/// The first position where `n` occurs in `h` (`str::find`).
pub fn find(h: &Vec<char>, n: &Vec<char>) -> (r: Option<usize>)
    ensures
        match first_occ(h@, n@, 0) {
            Some(i) => r == Some(i as usize),
            None => r is None,
        },
        r matches Some(i) ==> occurs_at(h@, n@, i as int),
{
    find_from(h, n, 0)
}

/// `n` occurs somewhere in `h`.
pub fn contains(h: &Vec<char>, n: &Vec<char>) -> (r: bool)
    ensures
        r == contains_seq(h@, n@),
{
    find(h, n).is_some()
}

/// `n` occurs somewhere in `h`, the needle given as a string slice.
pub fn contains_str(h: &Vec<char>, n: &str) -> (r: bool)
    ensures
        r == contains_seq(h@, n@),
{
    let nv = chars_of(n);
    contains(h, &nv)
}

/// `h` begins with `n`.
pub fn starts_with(h: &Vec<char>, n: &Vec<char>) -> (r: bool)
    ensures
        r == starts_with_seq(h@, n@),
{
    let m = matches_at(h, n, 0);
    proof {
        if n.len() <= h.len() {
            assert(h@.take(n.len() as int) =~= h@.subrange(0, n.len() as int));
        }
    }
    m
}

/// `h` ends with `n`.
pub fn ends_with(h: &Vec<char>, n: &Vec<char>) -> (r: bool)
    ensures
        r == ends_with_seq(h@, n@),
{
    if n.len() > h.len() {
        return false;
    }
    let m = matches_at(h, n, h.len() - n.len());
    assert(h@.skip(h.len() - n.len()) =~= h@.subrange(h.len() - n.len(), h.len() as int));
    m
}


/// `v[a..b]` as a new vector.
pub fn slice_of(v: &Vec<char>, a: usize, b: usize) -> (r: Vec<char>)
    requires
        a <= b <= v.len(),
    ensures
        r@ == v@.subrange(a as int, b as int),
{
    let mut out: Vec<char> = Vec::new();
    let mut i = a;
    while i < b
        invariant
            a <= i <= b,
            b <= v.len(),
            out@ == v@.subrange(a as int, i as int),
        decreases b - i,
    {
        out.push(v[i]);
        assert(v@.subrange(a as int, i as int).push(v@[i as int]) =~= v@.subrange(a as int, i + 1));
        i = i + 1;
    }
    out
}

// ───────────────────────── splitting ─────────────────────────

/// The text before the first `sep` (`s.split(sep).next()`), or all of it.
pub open spec fn before_first(h: Seq<char>, sep: Seq<char>) -> Seq<char> {
    match first_occ(h, sep, 0) {
        Some(i) => h.take(i),
        None => h,
    }
}

/// The text after the first `sep`, if `sep` occurs.
pub open spec fn after_first(h: Seq<char>, sep: Seq<char>) -> Option<Seq<char>> {
    match first_occ(h, sep, 0) {
        Some(i) => Some(h.skip(i + sep.len())),
        None => None,
    }
}

/// The second piece of `s.split(sep)` (`s.split(sep).nth(1)`), if there is one.
pub open spec fn second_piece(h: Seq<char>, sep: Seq<char>) -> Option<Seq<char>> {
    match after_first(h, sep) {
        Some(rest) => Some(before_first(rest, sep)),
        None => None,
    }
}

/// The text before the first `sep`, or all of it.
pub fn before(h: &Vec<char>, sep: &Vec<char>) -> (r: Vec<char>)
    ensures
        r@ == before_first(h@, sep@),
{
    proof {
        lemma_first_occ(h@, sep@, 0);
    }
    match find(h, sep) {
        Some(i) => slice_of(h, 0, i),
        None => h.clone(),
    }
}

/// The text after the first `sep`, if `sep` occurs.
pub fn after(h: &Vec<char>, sep: &Vec<char>) -> (r: Option<Vec<char>>)
    ensures
        match after_first(h@, sep@) {
            Some(t) => r is Some && r->0@ == t,
            None => r is None,
        },
{
    proof {
        lemma_first_occ(h@, sep@, 0);
    }
    let found = find(h, sep);
    match found {
        Some(i) => {
            assert(occurs_at(h@, sep@, i as int));
            let sl = sep.len();
            let hl = h.len();
            assert(i + sl <= hl);
            let start: usize = i + sl;
            let t = slice_of(h, start, hl);
            assert(t@ =~= h@.skip(i + sep.len()));
            Some(t)
        },
        None => None,
    }
}

/// The second piece of the split of `h` at `sep`, if there is one.
pub fn second(h: &Vec<char>, sep: &Vec<char>) -> (r: Option<Vec<char>>)
    ensures
        match second_piece(h@, sep@) {
            Some(t) => r is Some && r->0@ == t,
            None => r is None,
        },
{
    match after(h, sep) {
        Some(rest) => Some(before(&rest, sep)),
        None => None,
    }
}

// ───────────────────────── trimming ─────────────────────────

/// `char::is_whitespace`: the Unicode `White_Space` property.
pub open spec fn is_ws(c: char) -> bool {
    ||| ('\u{9}' <= c && c <= '\u{d}')
    ||| c == ' '
    ||| c == '\u{85}'
    ||| c == '\u{a0}'
    ||| c == '\u{1680}'
    ||| ('\u{2000}' <= c && c <= '\u{200a}')
    ||| c == '\u{2028}'
    ||| c == '\u{2029}'
    ||| c == '\u{202f}'
    ||| c == '\u{205f}'
    ||| c == '\u{3000}'
}

/// `char::is_whitespace`.
pub fn is_whitespace(c: char) -> (r: bool)
    ensures
        r == is_ws(c),
{
    ('\u{9}' <= c && c <= '\u{d}') || c == ' ' || c == '\u{85}' || c == '\u{a0}' || c == '\u{1680}'
        || ('\u{2000}' <= c && c <= '\u{200a}') || c == '\u{2028}' || c == '\u{2029}'
        || c == '\u{202f}' || c == '\u{205f}' || c == '\u{3000}'
}

/// `c` is stripped by a trim that removes the characters of `set`, and
/// white space as well when `ws` holds.
pub open spec fn strippable(c: char, set: Seq<char>, ws: bool) -> bool {
    set.contains(c) || (ws && is_ws(c))
}

/// `h` with every leading strippable character removed.
pub open spec fn strip_start(h: Seq<char>, set: Seq<char>, ws: bool) -> Seq<char>
    decreases h.len(),
{
    if h.len() > 0 && strippable(h[0], set, ws) {
        strip_start(h.drop_first(), set, ws)
    } else {
        h
    }
}

/// `h` with every trailing strippable character removed.
pub open spec fn strip_end(h: Seq<char>, set: Seq<char>, ws: bool) -> Seq<char>
    decreases h.len(),
{
    if h.len() > 0 && strippable(h.last(), set, ws) {
        strip_end(h.drop_last(), set, ws)
    } else {
        h
    }
}

/// `h` with leading and trailing strippable characters removed
/// (`str::trim_matches`; with an empty set and `ws`, `str::trim`).
pub open spec fn strip(h: Seq<char>, set: Seq<char>, ws: bool) -> Seq<char> {
    strip_end(strip_start(h, set, ws), set, ws)
}

/// `str::trim`.
pub open spec fn trim_seq(h: Seq<char>) -> Seq<char> {
    strip(h, Seq::empty(), true)
}

/// What `strip_start` leaves is a suffix of `h` that starts with a character
/// it would not strip.
pub proof fn lemma_strip_start_shape(h: Seq<char>, set: Seq<char>, ws: bool)
    ensures
        strip_start(h, set, ws).len() <= h.len(),
        strip_start(h, set, ws) == h.skip(h.len() - strip_start(h, set, ws).len()),
        strip_start(h, set, ws).len() > 0 ==> !strippable(strip_start(h, set, ws)[0], set, ws),
    decreases h.len(),
{
    if h.len() > 0 && strippable(h[0], set, ws) {
        lemma_strip_start_shape(h.drop_first(), set, ws);
        let r = strip_start(h.drop_first(), set, ws);
        assert(h.drop_first().skip(h.drop_first().len() - r.len()) =~= h.skip(h.len() - r.len()));
    } else {
        assert(h.skip(0) =~= h);
    }
}

/// What `strip_end` leaves is a prefix of `h` that ends with a character it
/// would not strip.
pub proof fn lemma_strip_end_shape(h: Seq<char>, set: Seq<char>, ws: bool)
    ensures
        strip_end(h, set, ws).len() <= h.len(),
        strip_end(h, set, ws) == h.take(strip_end(h, set, ws).len() as int),
        strip_end(h, set, ws).len() > 0 ==> !strippable(strip_end(h, set, ws).last(), set, ws),
    decreases h.len(),
{
    if h.len() > 0 && strippable(h.last(), set, ws) {
        lemma_strip_end_shape(h.drop_last(), set, ws);
        let r = strip_end(h.drop_last(), set, ws);
        assert(h.drop_last().take(r.len() as int) =~= h.take(r.len() as int));
    } else {
        assert(h.take(h.len() as int) =~= h);
    }
}

/// What `strip` leaves starts and ends with characters it would not strip.
pub proof fn lemma_strip_ends(h: Seq<char>, set: Seq<char>, ws: bool)
    ensures
        strip(h, set, ws).len() > 0 ==> !strippable(strip(h, set, ws)[0], set, ws) && !strippable(
            strip(h, set, ws).last(),
            set,
            ws,
        ),
{
    let x = strip_start(h, set, ws);
    lemma_strip_start_shape(h, set, ws);
    lemma_strip_end_shape(x, set, ws);
    let u = strip_end(x, set, ws);
    if u.len() > 0 {
        assert(u[0] == x[0]);
    }
}

/// A text that starts and ends with characters that a strip would not
/// remove is left as it is.
pub proof fn lemma_strip_noop(h: Seq<char>, set: Seq<char>, ws: bool)
    requires
        h.len() > 0 ==> !strippable(h[0], set, ws) && !strippable(h.last(), set, ws),
    ensures
        strip(h, set, ws) == h,
{
}

/// `c` is strippable.
pub fn is_strippable(c: char, set: &Vec<char>, ws: bool) -> (r: bool)
    ensures
        r == strippable(c, set@, ws),
{
    let mut k: usize = 0;
    while k < set.len()
        invariant
            k <= set.len(),
            forall|j: int| 0 <= j < k ==> set@[j] != c,
        decreases set.len() - k,
    {
        if set[k] == c {
            assert(set@.contains(c));
            return true;
        }
        k = k + 1;
    }
    ws && is_whitespace(c)
}

proof fn lemma_strip_start_skip(h: Seq<char>, set: Seq<char>, ws: bool, i: int)
    requires
        0 <= i < h.len(),
        strippable(h[i], set, ws),
    ensures
        strip_start(h.skip(i), set, ws) == strip_start(h.skip(i + 1), set, ws),
{
    assert(h.skip(i).drop_first() =~= h.skip(i + 1));
}

proof fn lemma_strip_end_take(h: Seq<char>, set: Seq<char>, ws: bool, j: int)
    requires
        0 < j <= h.len(),
        strippable(h[j - 1], set, ws),
    ensures
        strip_end(h.take(j), set, ws) == strip_end(h.take(j - 1), set, ws),
{
    assert(h.take(j).drop_last() =~= h.take(j - 1));
}

/// `h` with leading and trailing strippable characters removed.
pub fn strip_chars(h: &Vec<char>, set: &Vec<char>, ws: bool) -> (r: Vec<char>)
    ensures
        r@ == strip(h@, set@, ws),
{
    let mut i: usize = 0;
    assert(h@.skip(0) =~= h@);
    while i < h.len() && is_strippable(h[i], set, ws)
        invariant
            i <= h.len(),
            strip_start(h@, set@, ws) == strip_start(h@.skip(i as int), set@, ws),
        decreases h.len() - i,
    {
        proof {
            lemma_strip_start_skip(h@, set@, ws, i as int);
        }
        i = i + 1;
    }
    let t = slice_of(h, i, h.len());
    assert(t@ =~= h@.skip(i as int));
    assert(strip_start(h@, set@, ws) == t@);
    let mut j: usize = t.len();
    assert(t@.take(j as int) =~= t@);
    while j > 0 && is_strippable(t[j - 1], set, ws)
        invariant
            j <= t.len(),
            strip_end(t@, set@, ws) == strip_end(t@.take(j as int), set@, ws),
        decreases j,
    {
        proof {
            lemma_strip_end_take(t@, set@, ws, j as int);
        }
        j = j - 1;
    }
    let r = slice_of(&t, 0, j);
    assert(r@ =~= t@.take(j as int));
    r
}

/// `str::trim`.
pub fn trim(h: &Vec<char>) -> (r: Vec<char>)
    ensures
        r@ == trim_seq(h@),
{
    let empty: Vec<char> = Vec::new();
    assert(empty@ =~= Seq::<char>::empty());
    strip_chars(h, &empty, true)
}

// ───────────────────────── letter case ─────────────────────────

/// `str::to_lowercase` (full Unicode lower-casing).
pub uninterp spec fn unicode_lowercase(s: Seq<char>) -> Seq<char>;

/// Every character is ASCII.
pub open spec fn ascii_text(s: Seq<char>) -> bool {
    forall|i: int| 0 <= i < s.len() ==> (#[trigger] s[i] as u32) < 128
}

/// Lower-cases a string slice with `str::to_lowercase`; the result is named
/// `unicode_lowercase` of the input. Of ASCII text it is the ASCII
/// lower-casing, as the Unicode case mapping that std documents gives
/// (`A`-`Z` to `a`-`z`, every other ASCII character to itself).
#[verifier::external_body]
pub(crate) fn to_lowercase(s: &str) -> (r: String)
    ensures
        r@ == unicode_lowercase(s@),
        ascii_text(s@) ==> r@ == ascii_lower_seq(s@),
{
    s.to_lowercase()
}

/// `char::to_ascii_lowercase`.
pub open spec fn ascii_lower_char(c: char) -> char {
    if 'A' <= c && c <= 'Z' {
        ((c as u32) + 32) as char
    } else {
        c
    }
}

/// `char::to_ascii_uppercase`.
pub open spec fn ascii_upper_char(c: char) -> char {
    if 'a' <= c && c <= 'z' {
        ((c as u32) - 32) as char
    } else {
        c
    }
}

/// `str::to_ascii_uppercase`.
pub open spec fn ascii_upper_seq(s: Seq<char>) -> Seq<char> {
    s.map_values(|c: char| ascii_upper_char(c))
}

/// `str::to_ascii_lowercase`.
pub open spec fn ascii_lower_seq(s: Seq<char>) -> Seq<char> {
    s.map_values(|c: char| ascii_lower_char(c))
}

/// `char::to_ascii_lowercase`.
pub fn ascii_lower(c: char) -> (r: char)
    ensures
        r == ascii_lower_char(c),
{
    if 'A' <= c && c <= 'Z' {
        let u = (c as u32) + 32;
        assert(u <= 0x7f);
        char_from_ascii(u as u8)
    } else {
        c
    }
}

/// The ASCII character with the given code.
pub fn char_from_ascii(b: u8) -> (r: char)
    requires
        b <= 0x7f,
    ensures
        r == (b as char),
        r as u32 == b as u32,
{
    b as char
}

/// `str::to_ascii_lowercase`.
pub fn ascii_lowercase(s: &Vec<char>) -> (r: Vec<char>)
    ensures
        r@ == ascii_lower_seq(s@),
{
    let mut out: Vec<char> = Vec::new();
    let mut i: usize = 0;
    while i < s.len()
        invariant
            i <= s.len(),
            out@ =~= ascii_lower_seq(s@.take(i as int)),
        decreases s.len() - i,
    {
        out.push(ascii_lower(s[i]));
        i = i + 1;
        assert(ascii_lower_seq(s@.take(i as int)) =~= ascii_lower_seq(s@.take(i - 1)).push(
            ascii_lower_char(s@[i - 1]),
        ));
    }
    assert(s@.take(s.len() as int) =~= s@);
    out
}

// ───────────────────────── numbers ─────────────────────────

/// The decimal digit for `d`.
pub open spec fn digit_char(d: nat) -> char {
    ((d + 48) as u32) as char
}

/// The decimal rendering of `n` (`u64`'s `Display`).
pub open spec fn decimal(n: nat) -> Seq<char>
    decreases n,
{
    if n < 10 {
        seq![digit_char(n)]
    } else {
        decimal(n / 10).push(digit_char(n % 10))
    }
}

/// The decimal rendering of `n`.
pub fn decimal_of(n: u64) -> (r: Vec<char>)
    ensures
        r@ == decimal(n as nat),
    decreases n,
{
    let d = (n % 10) as u8;
    let c = char_from_ascii(d + 48);
    if n < 10 {
        let mut v: Vec<char> = Vec::new();
        v.push(c);
        assert(v@ =~= seq![digit_char(n as nat)]);
        v
    } else {
        let mut v = decimal_of(n / 10);
        v.push(c);
        v
    }
}

/// `a` followed by `b`.
pub fn concat(a: &Vec<char>, b: &Vec<char>) -> (r: Vec<char>)
    ensures
        r@ == a@ + b@,
{
    let mut out = a.clone();
    let mut i: usize = 0;
    while i < b.len()
        invariant
            i <= b.len(),
            out@ == a@ + b@.take(i as int),
        decreases b.len() - i,
    {
        out.push(b[i]);
        i = i + 1;
        assert(a@ + b@.take(i as int) =~= (a@ + b@.take(i - 1)).push(b@[i - 1]));
    }
    assert(b@.take(b.len() as int) =~= b@);
    out
}

/// Two sequences of characters are equal.
pub fn seq_eq(a: &Vec<char>, b: &Vec<char>) -> (r: bool)
    ensures
        r == (a@ == b@),
{
    if a.len() != b.len() {
        return false;
    }
    let mut i: usize = 0;
    while i < a.len()
        invariant
            i <= a.len(),
            a.len() == b.len(),
            forall|j: int| 0 <= j < i ==> a@[j] == b@[j],
        decreases a.len() - i,
    {
        if a[i] != b[i] {
            return false;
        }
        i = i + 1;
    }
    assert(a@ =~= b@);
    true
}


// ───────────────────────── character classes ─────────────────────────

/// `char::is_control`: general category Cc.
pub open spec fn is_cc(c: char) -> bool {
    c <= '\u{1f}' || ('\u{7f}' <= c && c <= '\u{9f}')
}

/// `char::is_control`.
pub fn is_control(c: char) -> (r: bool)
    ensures
        r == is_cc(c),
{
    c <= '\u{1f}' || ('\u{7f}' <= c && c <= '\u{9f}')
}

/// `char::is_alphanumeric`: the Unicode `Alphabetic` or `Numeric` property.
pub uninterp spec fn unicode_alphanumeric(c: char) -> bool;

/// Asks `char::is_alphanumeric`; the answer is named `unicode_alphanumeric`.
/// Of an ASCII character it is whether the character is a letter or a
/// digit (std's `is_ascii_alphanumeric` is the ASCII restriction of it).
#[verifier::external_body]
pub(crate) fn is_alphanumeric(c: char) -> (r: bool)
    ensures
        r == unicode_alphanumeric(c),
        (c as u32) < 128 ==> r == (('a' <= c && c <= 'z') || ('A' <= c && c <= 'Z') || ('0' <= c && c <= '9')),
{
    c.is_alphanumeric()
}

/// `char::len_utf8`: how many bytes UTF-8 takes for `c`.
pub open spec fn char_bytes(c: char) -> nat {
    if c <= '\u{7f}' {
        1
    } else if c <= '\u{7ff}' {
        2
    } else if c <= '\u{ffff}' {
        3
    } else {
        4
    }
}

/// How many bytes UTF-8 takes for `s` (`str::len`).
pub open spec fn utf8_len(s: Seq<char>) -> nat
    decreases s.len(),
{
    if s.len() == 0 {
        0
    } else {
        utf8_len(s.drop_last()) + char_bytes(s.last())
    }
}

proof fn lemma_utf8_len_prefix(s: Seq<char>, i: int)
    requires
        0 <= i <= s.len(),
    ensures
        utf8_len(s.take(i)) <= utf8_len(s),
    decreases s.len() - i,
{
    if i < s.len() {
        lemma_utf8_len_prefix(s, i + 1);
        assert(s.take(i + 1).drop_last() =~= s.take(i));
    } else {
        assert(s.take(i) =~= s);
    }
}

/// UTF-8 takes more than `limit` bytes for `s` (`str::len() > limit`).
pub fn utf8_len_exceeds(s: &Vec<char>, limit: usize) -> (r: bool)
    ensures
        r == (utf8_len(s@) > limit),
{
    let mut n: usize = 0;
    let mut i: usize = 0;
    while i < s.len()
        invariant
            i <= s.len(),
            n == utf8_len(s@.take(i as int)),
            n <= limit,
        decreases s.len() - i,
    {
        let c = s[i];
        let b: usize = if c <= '\u{7f}' {
            1
        } else if c <= '\u{7ff}' {
            2
        } else if c <= '\u{ffff}' {
            3
        } else {
            4
        };
        assert(s@.take(i + 1).drop_last() =~= s@.take(i as int));
        if b > limit - n {
            proof {
                lemma_utf8_len_prefix(s@, i + 1);
            }
            return true;
        }
        n = n + b;
        i = i + 1;
    }
    assert(s@.take(s.len() as int) =~= s@);
    false
}

/// `a`, then the characters `b`, as one `String`.
pub fn join2(a: &str, b: &Vec<char>) -> (r: String)
    ensures
        r@ == a@ + b@,
{
    let av = chars_of(a);
    let ab = concat(&av, b);
    string_of(&ab)
}

/// `a`, then the characters `b`, then `c`, as one `String`.
pub fn join3(a: &str, b: &Vec<char>, c: &str) -> (r: String)
    ensures
        r@ == a@ + b@ + c@,
{
    let av = chars_of(a);
    let cv = chars_of(c);
    let ab = concat(&av, b);
    let abc = concat(&ab, &cv);
    string_of(&abc)
}

} // verus!
