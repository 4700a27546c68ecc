//! Cookies for the video sites: which platforms are supported, how a
//! platform is named or recognised from a URL, and which cookie lists are
//! accepted for a platform.

use vstd::prelude::*;
use crate::hosts::views;
use crate::config::{builtin_for, builtin_from, builtin_table, mentions, platform_for, VideoPlatformConfig};
use crate::jsonlist::{stored_list, stored_strings};
use crate::ordered::{insert_sorted, lex_lt, members, strictly_sorted, strings_from};
use crate::text::{
    unicode_lowercase, ascii_lower_char, ascii_lower_seq, ascii_upper_char, ascii_upper_seq, decimal, decimal_of, is_ws, lemma_strip_ends, lemma_strip_noop, ascii_lowercase, chars_of, concat, contains_seq, contains_str, ends_with,
    ends_with_seq, opt_text, seq_eq, strip, strip_chars, string_of, trim, trim_seq,
};

verus! {

/// What the status listing says of one platform's stored cookies.
#[derive(Debug, Clone)]
pub struct VideoCookieStatus {
    pub platform: String,
    pub cookie_count: i64,
    pub domains: Vec<String>,
    pub updated_at: String,
}

/// A portable backup of one platform's stored cookies, still encrypted.
#[derive(Debug, Clone)]
pub struct VideoCookieBackup {
    pub version: u32,
    pub platform: String,
    pub encrypted_payload: String,
    pub cookie_count: i64,
    pub domains: Vec<String>,
    pub updated_at: String,
}

/// The cookie store's rules.
pub struct VideoCookieService;

/// One entry of an imported cookie list: a JSON object, read for its
/// string `name` and `domain` and for whether its `value` is a string; or
/// something that is not an object.
pub enum CookieItem {
    NotObject,
    Object { name: Option<String>, domain: Option<String>, value_is_string: bool },
}

/// An imported cookie list: a JSON array of entries, or something else.
pub enum CookiePayload {
    NotArray,
    Items(Vec<CookieItem>),
}

/// The supported platforms, in the order they are listed.
pub open spec fn platforms() -> Seq<Seq<char>> {
    seq!["youtube"@, "bilibili"@, "sohu"@, "youku"@, "mgtv"@, "pptv"@, "qq"@]
}

/// The platform that a (lower-cased, trimmed) name or alias stands for.
pub open spec fn platform_alias(n: Seq<char>) -> Option<Seq<char>> {
    if n == "youtube"@ || n == "youtu.be"@ {
        Some("youtube"@)
    } else if n == "bilibili"@ || n == "b23"@ {
        Some("bilibili"@)
    } else if n == "sohu"@ || n == "tv.sohu"@ {
        Some("sohu"@)
    } else if n == "youku"@ || n == "tudou"@ {
        Some("youku"@)
    } else if n == "mgtv"@ || n == "mango"@ || n == "hunantv"@ {
        Some("mgtv"@)
    } else if n == "pptv"@ || n == "pps"@ {
        Some("pptv"@)
    } else if n == "qq"@ || n == "tencent"@ || n == "vqq"@ {
        Some("qq"@)
    } else {
        None
    }
}

/// The platform whose site a URL is on, judged by the host names it
/// mentions (without regard to ASCII case), in a fixed order.
pub open spec fn platform_of_url(url: Seq<char>) -> Option<Seq<char>> {
    let l = ascii_lower_seq(url);
    if contains_seq(l, "youtube.com"@) || contains_seq(l, "youtu.be"@) {
        Some("youtube"@)
    } else if contains_seq(l, "bilibili.com"@) || contains_seq(l, "b23.tv"@) {
        Some("bilibili"@)
    } else if contains_seq(l, "sohu.com"@) {
        Some("sohu"@)
    } else if contains_seq(l, "youku.com"@) || contains_seq(l, "tudou.com"@) {
        Some("youku"@)
    } else if contains_seq(l, "mgtv.com"@) || contains_seq(l, "hunantv.com"@) {
        Some("mgtv"@)
    } else if contains_seq(l, "pptv.com"@) || contains_seq(l, "pps.tv"@) {
        Some("pptv"@)
    } else if contains_seq(l, "v.qq.com"@) || contains_seq(l, "video.qq.com"@) {
        Some("qq"@)
    } else {
        None
    }
}

/// The text of an optional static string.
pub open spec fn opt_static(o: Option<&'static str>) -> Option<Seq<char>> {
    match o {
        Some(s) => Some(s@),
        None => None,
    }
}

impl VideoCookieService {
    /// The supported platforms.
    pub fn supported_platforms() -> (r: Vec<&'static str>)
        ensures
            r@.map_values(|s: &'static str| s@) == platforms(),
    {
        let v = vec!["youtube", "bilibili", "sohu", "youku", "mgtv", "pptv", "qq"];
        assert(v@.map_values(|s: &'static str| s@) =~= platforms());
        v
    }

    /// The platform that a name or alias stands for, read trimmed and
    /// without regard to ASCII case.
    pub fn normalize_platform(platform: &str) -> (r: Option<&'static str>)
        ensures
            opt_static(r) == platform_alias(ascii_lower_seq(trim_seq(platform@))),
    {
        let n = ascii_lowercase(&trim(&chars_of(platform)));
        if seq_eq(&n, &chars_of("youtube")) || seq_eq(&n, &chars_of("youtu.be")) {
            Some("youtube")
        } else if seq_eq(&n, &chars_of("bilibili")) || seq_eq(&n, &chars_of("b23")) {
            Some("bilibili")
        } else if seq_eq(&n, &chars_of("sohu")) || seq_eq(&n, &chars_of("tv.sohu")) {
            Some("sohu")
        } else if seq_eq(&n, &chars_of("youku")) || seq_eq(&n, &chars_of("tudou")) {
            Some("youku")
        } else if seq_eq(&n, &chars_of("mgtv")) || seq_eq(&n, &chars_of("mango")) || seq_eq(
            &n,
            &chars_of("hunantv"),
        ) {
            Some("mgtv")
        } else if seq_eq(&n, &chars_of("pptv")) || seq_eq(&n, &chars_of("pps")) {
            Some("pptv")
        } else if seq_eq(&n, &chars_of("qq")) || seq_eq(&n, &chars_of("tencent")) || seq_eq(
            &n,
            &chars_of("vqq"),
        ) {
            Some("qq")
        } else {
            None
        }
    }

    /// The platform whose site a URL is on.
    pub fn platform_for_url(url: &str) -> (r: Option<&'static str>)
        ensures
            opt_static(r) == platform_of_url(url@),
    {
        let l = ascii_lowercase(&chars_of(url));
        if contains_str(&l, "youtube.com") || contains_str(&l, "youtu.be") {
            Some("youtube")
        } else if contains_str(&l, "bilibili.com") || contains_str(&l, "b23.tv") {
            Some("bilibili")
        } else if contains_str(&l, "sohu.com") {
            Some("sohu")
        } else if contains_str(&l, "youku.com") || contains_str(&l, "tudou.com") {
            Some("youku")
        } else if contains_str(&l, "mgtv.com") || contains_str(&l, "hunantv.com") {
            Some("mgtv")
        } else if contains_str(&l, "pptv.com") || contains_str(&l, "pps.tv") {
            Some("pptv")
        } else if contains_str(&l, "v.qq.com") || contains_str(&l, "video.qq.com") {
            Some("qq")
        } else {
            None
        }
    }
}

/// A name of lower-case ASCII letters reads as itself, trimmed and
/// lower-cased.
proof fn lemma_plain_name(p: Seq<char>)
    requires
        forall|i: int| 0 <= i < p.len() ==> 'a' <= #[trigger] p[i] <= 'z',
    ensures
        ascii_lower_seq(trim_seq(p)) == p,
{
    if p.len() > 0 {
        assert('a' <= p[0] <= 'z');
        assert('a' <= p[p.len() - 1] <= 'z');
    }
    lemma_strip_noop(p, Seq::empty(), true);
    assert(ascii_lower_seq(p) =~= p);
}

/// The seven names are the platforms.
proof fn lemma_platform_names()
    ensures
        platforms().len() == 7,
        platforms()[0] == "youtube"@,
        platforms()[1] == "bilibili"@,
        platforms()[2] == "sohu"@,
        platforms()[3] == "youku"@,
        platforms()[4] == "mgtv"@,
        platforms()[5] == "pptv"@,
        platforms()[6] == "qq"@,
{
}

/// Each supported platform's name stands for that platform (read trimmed
/// and lower-cased, as `normalize_platform` reads it); every platform
/// that a name, an alias or a URL is taken for is a supported one; so
/// normalising a platform name twice gives what it gave once.
pub proof fn platform_names_are_fixed_points(name: Seq<char>, url: Seq<char>)
    ensures
        forall|i: int|
            0 <= i < platforms().len() ==> platform_alias(ascii_lower_seq(trim_seq(#[trigger] platforms()[i])))
                == Some(platforms()[i]),
        platform_alias(name) matches Some(q) ==> platforms().contains(q),
        platform_of_url(url) matches Some(q) ==> platforms().contains(q),
        platform_alias(ascii_lower_seq(trim_seq(name))) matches Some(p) ==> platform_alias(
            ascii_lower_seq(trim_seq(p)),
        ) == Some(p),
{
    reveal_strlit("youtube");
    reveal_strlit("youtu.be");
    reveal_strlit("bilibili");
    reveal_strlit("b23");
    reveal_strlit("sohu");
    reveal_strlit("tv.sohu");
    reveal_strlit("youku");
    reveal_strlit("tudou");
    reveal_strlit("mgtv");
    reveal_strlit("mango");
    reveal_strlit("hunantv");
    reveal_strlit("pptv");
    reveal_strlit("pps");
    reveal_strlit("qq");
    reveal_strlit("tencent");
    reveal_strlit("vqq");
    lemma_platform_names();
    let ps = platforms();
    assert forall|i: int| 0 <= i < ps.len() implies platform_alias(ascii_lower_seq(trim_seq(#[trigger] ps[i])))
        == Some(ps[i]) by {
        lemma_plain_name(ps[i]);
        assert(ps[i].len() > 0);
        if i != 0 {
            assert(ps[i] != "youtube"@ && ps[i] != "youtu.be"@);
        }
    }
    assert(ps.contains(ps[0]) && ps.contains(ps[1]) && ps.contains(ps[2]) && ps.contains(ps[3]));
    assert(ps.contains(ps[4]) && ps.contains(ps[5]) && ps.contains(ps[6]));
}

/// `normalize_platform` reads a name trimmed and without regard to ASCII
/// case, so reading an already read name again changes nothing: names
/// that differ only in surrounding white space or ASCII case stand for the
/// same platform.
pub proof fn platform_reading_is_stable(name: Seq<char>, other: Seq<char>)
    ensures
        ascii_lower_seq(trim_seq(ascii_lower_seq(trim_seq(name)))) == ascii_lower_seq(trim_seq(name)),
        ascii_lower_seq(trim_seq(name)) == ascii_lower_seq(trim_seq(other)) ==> platform_alias(
            ascii_lower_seq(trim_seq(name)),
        ) == platform_alias(ascii_lower_seq(trim_seq(other))),
{
    let t = trim_seq(name);
    let l = ascii_lower_seq(t);
    lemma_strip_ends(name, Seq::empty(), true);
    if l.len() > 0 {
        assert(l[0] == ascii_lower_char(t[0]));
        assert(l[l.len() - 1] == ascii_lower_char(t[t.len() - 1]));
        assert(!is_ws(l[0]));
        assert(!is_ws(l[l.len() - 1]));
    }
    lemma_strip_noop(l, Seq::empty(), true);
    assert(ascii_lower_seq(l) =~= l);
}

/// Upper-casing a name before it is read changes nothing:
/// `normalize_platform` gives the same answer for `name` as for
/// `name.trim().to_ascii_uppercase()`, so a platform name is recognised
/// whatever its ASCII case and surrounding white space.
pub proof fn platform_reading_ignores_upper_case(name: Seq<char>)
    ensures
        ascii_lower_seq(trim_seq(ascii_upper_seq(trim_seq(name)))) == ascii_lower_seq(trim_seq(name)),
        platform_alias(ascii_lower_seq(trim_seq(ascii_upper_seq(trim_seq(name))))) == platform_alias(
            ascii_lower_seq(trim_seq(name)),
        ),
{
    let t = trim_seq(name);
    let u = ascii_upper_seq(t);
    lemma_strip_ends(name, Seq::empty(), true);
    if u.len() > 0 {
        assert(u[0] == ascii_upper_char(t[0]));
        assert(u[u.len() - 1] == ascii_upper_char(t[t.len() - 1]));
        assert(!is_ws(u[0]));
        assert(!is_ws(u[u.len() - 1]));
    }
    lemma_strip_noop(u, Seq::empty(), true);
    assert forall|i: int| 0 <= i < t.len() implies #[trigger] ascii_lower_char(ascii_upper_char(t[i]))
        == ascii_lower_char(t[i]) by {
        let c = t[i];
        if 'a' <= c && c <= 'z' {
            assert('A' <= ascii_upper_char(c) && ascii_upper_char(c) <= 'Z');
        }
    }
    assert(ascii_lower_seq(u) =~= ascii_lower_seq(t));
}

proof fn lemma_mentions_two(l: Seq<char>, a: Seq<char>, b: Seq<char>)
    ensures
        mentions(l, seq![a, b]) == (contains_seq(l, a) || contains_seq(l, b)),
{
    let ks = seq![a, b];
    if contains_seq(l, a) {
        assert(contains_seq(l, ks[0]));
    }
    if contains_seq(l, b) {
        assert(contains_seq(l, ks[1]));
    }
}

proof fn lemma_mentions_one(l: Seq<char>, a: Seq<char>)
    ensures
        mentions(l, seq![a]) == contains_seq(l, a),
{
    let ks = seq![a];
    if contains_seq(l, a) {
        assert(contains_seq(l, ks[0]));
    }
}

/// The name of the built-in platform that a URL is tested under, if any.
pub open spec fn builtin_name(url: Seq<char>) -> Option<Seq<char>> {
    match builtin_for(url) {
        Some((n, _)) => Some(n),
        None => None,
    }
}

/// On an ASCII URL (whose Unicode lower-casing is its ASCII lower-casing,
/// as `str::to_lowercase` gives), the platform whose cookies a URL uses is
/// the built-in platform it is tested under: `platform_for_url` gives
/// nothing exactly when `match_platform` with no configured platforms
/// falls back to plain HTML5, and otherwise the same name; both try the
/// sites in the same order, so the first match wins in both.
pub proof fn cookie_platform_agrees_with_builtin(url: Seq<char>)
    requires
        unicode_lowercase(url) == ascii_lower_seq(url),
    ensures
        platform_of_url(url) == builtin_name(url),
        platform_for(Seq::<VideoPlatformConfig>::empty(), url).0 == match platform_of_url(url) {
            Some(n) => n,
            None => "html5"@,
        },
{
    let l = ascii_lower_seq(url);
    let t = builtin_table();
    reveal_with_fuel(builtin_from, 8);
    lemma_mentions_two(l, "youtube.com"@, "youtu.be"@);
    lemma_mentions_two(l, "bilibili.com"@, "b23.tv"@);
    lemma_mentions_one(l, "sohu.com"@);
    lemma_mentions_two(l, "youku.com"@, "tudou.com"@);
    lemma_mentions_two(l, "mgtv.com"@, "hunantv.com"@);
    lemma_mentions_two(l, "pptv.com"@, "pps.tv"@);
    lemma_mentions_two(l, "v.qq.com"@, "video.qq.com"@);
    assert(t[0] == ("youtube"@, seq!["youtube.com"@, "youtu.be"@]));
    assert(t[1] == ("bilibili"@, seq!["bilibili.com"@, "b23.tv"@]));
    assert(t[2] == ("sohu"@, seq!["sohu.com"@]));
    assert(t[3] == ("youku"@, seq!["youku.com"@, "tudou.com"@]));
    assert(t[4] == ("mgtv"@, seq!["mgtv.com"@, "hunantv.com"@]));
    assert(t[5] == ("pptv"@, seq!["pptv.com"@, "pps.tv"@]));
    assert(t[6] == ("qq"@, seq!["v.qq.com"@, "video.qq.com"@]));
    assert(t.len() == 7);
    let ghost empty = Seq::<VideoPlatformConfig>::empty();
    assert(!(exists|i: int| 0 <= i < empty.len() && crate::config::recognises(#[trigger] empty[i]@.1, url)));
}

// ───────────────────────── domains ─────────────────────────

/// A cookie domain as stored: trimmed, without leading or trailing dots,
/// ASCII lower-cased.
pub open spec fn normalized_domain(d: Seq<char>) -> Seq<char> {
    ascii_lower_seq(strip(trim_seq(d), seq!['.'], false))
}

/// Normalises a cookie domain.
pub fn normalize_domain(domain: &str) -> (r: String)
    ensures
        r@ == normalized_domain(domain@),
{
    let dot: Vec<char> = vec!['.'];
    assert(dot@ =~= seq!['.']);
    let t = trim(&chars_of(domain));
    let s = strip_chars(&t, &dot, false);
    string_of(&ascii_lowercase(&s))
}

/// Neither end of the text is white space.
pub open spec fn no_space_at_ends(n: Seq<char>) -> bool {
    n.len() > 0 ==> !is_ws(n[0]) && !is_ws(n.last())
}

/// Normalising a normalised domain changes nothing. (It can change
/// something only where dots hid white space at an end: `". x"` normalises
/// to `" x"`, and that to `"x"`; those inputs are left out.)
pub proof fn normalizing_is_idempotent(d: Seq<char>)
    requires
        no_space_at_ends(normalized_domain(d)),
    ensures
        normalized_domain(normalized_domain(d)) == normalized_domain(d),
{
    let u = strip(trim_seq(d), seq!['.'], false);
    let n = normalized_domain(d);
    lemma_strip_ends(trim_seq(d), seq!['.'], false);
    if n.len() > 0 {
        assert(n[0] == ascii_lower_char(u[0]));
        assert(n.last() == ascii_lower_char(u.last()));
        assert(!seq!['.'].contains(u[0]));
        assert(!seq!['.'].contains(u.last()));
        assert(u[0] != '.') by {
            if u[0] == '.' {
                assert(seq!['.'][0] == u[0]);
            }
        }
        assert(u.last() != '.') by {
            if u.last() == '.' {
                assert(seq!['.'][0] == u.last());
            }
        }
        assert(!seq!['.'].contains(n[0]));
        assert(!seq!['.'].contains(n.last()));
    }
    lemma_strip_noop(n, Seq::empty(), true);
    assert(trim_seq(n) == n);
    lemma_strip_noop(n, seq!['.'], false);
    assert(ascii_lower_seq(n) =~= n);
}

/// A domain belongs to a list of site domains when it is one of them or a
/// subdomain of one.
pub open spec fn domain_allowed(d: Seq<char>, allowed: Seq<Seq<char>>) -> bool {
    exists|i: int|
        0 <= i < allowed.len() && (d == #[trigger] allowed[i] || ends_with_seq(
            d,
            seq!['.'] + allowed[i],
        ))
}

/// Whether a domain belongs to the given site domains.
pub fn is_allowed_domain(domain: &str, allowed: &Vec<&str>) -> (r: bool)
    ensures
        r == domain_allowed(domain@, allowed@.map_values(|s: &str| s@)),
{
    let ghost al = allowed@.map_values(|s: &str| s@);
    let d = chars_of(domain);
    let dot: Vec<char> = vec!['.'];
    let mut i: usize = 0;
    while i < allowed.len()
        invariant
            i <= allowed.len(),
            al == allowed@.map_values(|s: &str| s@),
            d@ == domain@,
            dot@ == seq!['.'],
            forall|j: int|
                0 <= j < i ==> !(d@ == #[trigger] al[j] || ends_with_seq(d@, seq!['.'] + al[j])),
        decreases allowed.len() - i,
    {
        let suffix = chars_of(allowed[i]);
        let dotted = concat(&dot, &suffix);
        if seq_eq(&d, &suffix) || ends_with(&d, &dotted) {
            assert(d@ == al[i as int] || ends_with_seq(d@, seq!['.'] + al[i as int]));
            return true;
        }
        i = i + 1;
    }
    false
}

/// The site domains whose cookies a platform accepts.
pub open spec fn platform_domains(platform: Seq<char>) -> Seq<Seq<char>> {
    if platform == "youtube"@ {
        seq!["youtube.com"@, "google.com"@, "googleusercontent.com"@]
    } else if platform == "bilibili"@ {
        seq!["bilibili.com"@, "b23.tv"@]
    } else if platform == "sohu"@ {
        seq!["sohu.com"@]
    } else if platform == "youku"@ {
        seq!["youku.com"@, "tudou.com"@]
    } else if platform == "mgtv"@ {
        seq!["mgtv.com"@, "hunantv.com"@]
    } else if platform == "pptv"@ {
        seq!["pptv.com"@, "pps.tv"@]
    } else if platform == "qq"@ {
        seq!["qq.com"@]
    } else {
        seq![]
    }
}

/// The site domains whose cookies a platform accepts.
pub fn allowed_domains(platform: &str) -> (r: Vec<&'static str>)
    ensures
        r@.map_values(|s: &'static str| s@) == platform_domains(platform@),
{
    let p = chars_of(platform);
    let v: Vec<&'static str> = if seq_eq(&p, &chars_of("youtube")) {
        vec!["youtube.com", "google.com", "googleusercontent.com"]
    } else if seq_eq(&p, &chars_of("bilibili")) {
        vec!["bilibili.com", "b23.tv"]
    } else if seq_eq(&p, &chars_of("sohu")) {
        vec!["sohu.com"]
    } else if seq_eq(&p, &chars_of("youku")) {
        vec!["youku.com", "tudou.com"]
    } else if seq_eq(&p, &chars_of("mgtv")) {
        vec!["mgtv.com", "hunantv.com"]
    } else if seq_eq(&p, &chars_of("pptv")) {
        vec!["pptv.com", "pps.tv"]
    } else if seq_eq(&p, &chars_of("qq")) {
        vec!["qq.com"]
    } else {
        vec![]
    };
    assert(v@.map_values(|s: &'static str| s@) =~= platform_domains(platform@));
    v
}

// ───────────────────────── imported lists ─────────────────────────

pub open spec fn not_array_message() -> Seq<char> {
    "Cookie JSON 必须是数组"@
}

pub open spec fn empty_list_message() -> Seq<char> {
    "Cookie JSON 不能为空"@
}

pub open spec fn not_object_message() -> Seq<char> {
    "Cookie 数组中包含非对象项"@
}

pub open spec fn missing_fields_message() -> Seq<char> {
    "Cookie 必须包含 name/domain 字段，value 必须是字符串"@
}

/// The refusal of a cookie whose domain is not the platform's.
pub open spec fn foreign_domain_message(platform: Seq<char>, domain: Seq<char>) -> Seq<char> {
    "Cookie 域名不属于平台 "@ + platform + ": "@ + domain
}

/// The text of an optional field, or the empty text.
pub open spec fn field_text(o: Option<String>) -> Seq<char> {
    match o {
        Some(s) => s@,
        None => Seq::empty(),
    }
}

/// The verdict on one entry: the normalised domain it contributes, or why
/// it is refused.
pub open spec fn item_verdict(platform: Seq<char>, item: CookieItem) -> Result<Seq<char>, Seq<char>> {
    match item {
        CookieItem::NotObject => Err(not_object_message()),
        CookieItem::Object { name, domain, value_is_string } => {
            let n = field_text(name);
            let d = field_text(domain);
            if !value_is_string || n.len() == 0 || d.len() == 0 {
                Err(missing_fields_message())
            } else if !domain_allowed(normalized_domain(d), platform_domains(platform)) {
                Err(foreign_domain_message(platform, d))
            } else {
                Ok(normalized_domain(d))
            }
        },
    }
}

/// The verdict on the first `n` entries: the set of their domains, or the
/// refusal of the first entry that is refused.
pub open spec fn items_verdict(platform: Seq<char>, items: Seq<CookieItem>, n: int) -> Result<
    Set<Seq<char>>,
    Seq<char>,
>
    decreases n,
{
    if n <= 0 {
        Ok(Set::empty())
    } else {
        match items_verdict(platform, items, n - 1) {
            Err(e) => Err(e),
            Ok(s) => match item_verdict(platform, items[n - 1]) {
                Err(e) => Err(e),
                Ok(d) => Ok(s.insert(d)),
            },
        }
    }
}

proof fn lemma_refusal_persists(platform: Seq<char>, items: Seq<CookieItem>, k: int, n: int)
    requires
        0 <= k <= n,
        items_verdict(platform, items, k) is Err,
    ensures
        items_verdict(platform, items, n) == items_verdict(platform, items, k),
    decreases n - k,
{
    if n > k {
        lemma_refusal_persists(platform, items, k, n - 1);
    }
}

/// The verdict on an imported list for a platform: how many cookies it
/// holds and the set of their domains, or why it is refused.
pub open spec fn payload_verdict(platform: Seq<char>, cookies: CookiePayload) -> Result<
    (int, Set<Seq<char>>),
    Seq<char>,
> {
    match cookies {
        CookiePayload::NotArray => Err(not_array_message()),
        CookiePayload::Items(v) => if v.len() == 0 {
            Err(empty_list_message())
        } else {
            match items_verdict(platform, v@, v.len() as int) {
                Ok(s) => Ok((v.len() as int, s)),
                Err(e) => Err(e),
            }
        },
    }
}

/// Checks an imported cookie list for a platform: it is a non-empty array
/// of objects, each with a string value, a name and a domain of the
/// platform's. Returns the number of cookies and their distinct normalised
/// domains in increasing order.
pub fn validate_cookie_payload(platform: &str, cookies: &CookiePayload) -> (r: Result<
    (i64, Vec<String>),
    String,
>)
    ensures
        match payload_verdict(platform@, *cookies) {
            Ok((n, s)) => r matches Ok((count, domains)) && count == n as i64 && strictly_sorted(
                domains@.map_values(|x: String| x@),
            ) && members(domains@.map_values(|x: String| x@)) == s,
            Err(e) => r matches Err(m) && m@ == e,
        },
{
    let items = match cookies {
        CookiePayload::NotArray => return Err(string_of(&chars_of("Cookie JSON 必须是数组"))),
        CookiePayload::Items(v) => v,
    };
    if items.len() == 0 {
        return Err(string_of(&chars_of("Cookie JSON 不能为空")));
    }
    let allowed = allowed_domains(platform);
    let mut domains: Vec<Vec<char>> = Vec::new();
    let mut k: usize = 0;
    while k < items.len()
        invariant
            k <= items.len(),
            *cookies == CookiePayload::Items(*items),
            items.len() > 0,
            allowed@.map_values(|s: &'static str| s@) == platform_domains(platform@),
            items_verdict(platform@, items@, k as int) matches Ok(s) && members(views(domains@))
                == s,
            strictly_sorted(views(domains@)),
        decreases items.len() - k,
    {
        let item = &items[k];
        assert(*item == items@[k as int]);
        match item {
            CookieItem::NotObject => {
                proof {
                    assert(item_verdict(platform@, items@[k as int]) is Err);
                    assert(items_verdict(platform@, items@, k + 1) is Err);
                    lemma_refusal_persists(platform@, items@, k + 1, items.len() as int);
                }
                return Err(string_of(&chars_of("Cookie 数组中包含非对象项")));
            },
            CookieItem::Object { name, domain, value_is_string } => {
                let n = match name {
                    Some(s) => chars_of(s.as_str()),
                    None => Vec::new(),
                };
                let d = match domain {
                    Some(s) => chars_of(s.as_str()),
                    None => Vec::new(),
                };
                proof {
                    assert(n@ == field_text(*name));
                    assert(d@ == field_text(*domain));
                }
                if !*value_is_string || n.len() == 0 || d.len() == 0 {
                    proof {
                        assert(item_verdict(platform@, items@[k as int]) is Err);
                        assert(items_verdict(platform@, items@, k + 1) is Err);
                        lemma_refusal_persists(platform@, items@, k + 1, items.len() as int);
                    }
                    return Err(
                        string_of(&chars_of("Cookie 必须包含 name/domain 字段，value 必须是字符串")),
                    );
                }
                let raw = string_of(&d);
                let normalized = normalize_domain(raw.as_str());
                if !is_allowed_domain(normalized.as_str(), &allowed) {
                    let a = chars_of("Cookie 域名不属于平台 ");
                    let b = chars_of(platform);
                    let c = chars_of(": ");
                    let msg = concat(&concat(&concat(&a, &b), &c), &d);
                    proof {
                        assert(item_verdict(platform@, items@[k as int]) is Err);
                        assert(items_verdict(platform@, items@, k + 1) is Err);
                        lemma_refusal_persists(platform@, items@, k + 1, items.len() as int);
                    }
                    return Err(string_of(&msg));
                }
                let nd = chars_of(normalized.as_str());
                insert_sorted(&mut domains, nd);
            },
        }
        k = k + 1;
    }
    let count = items.len() as i64;
    Ok((count, strings_from(&domains)))
}


// ───────────────────────── stored records ─────────────────────────

/// The refusal of an unknown platform name.
pub open spec fn unknown_platform_message(platform: Seq<char>) -> Seq<char> {
    "不支持的平台: "@ + platform
}

/// The platform that a request names, or the refusal that names it.
pub fn platform_or_error(platform: &str) -> (r: Result<&'static str, String>)
    ensures
        match platform_alias(ascii_lower_seq(trim_seq(platform@))) {
            Some(p) => r matches Ok(q) && q@ == p,
            None => r matches Err(m) && m@ == unknown_platform_message(platform@),
        },
{
    match VideoCookieService::normalize_platform(platform) {
        Some(p) => Ok(p),
        None => Err(string_of(&concat(&chars_of("不支持的平台: "), &chars_of(platform)))),
    }
}

/// The backup format that this version writes and reads.
pub const BACKUP_VERSION: u32 = 1;

/// The platform of a backup to restore, or why it is refused: an unknown
/// version first, then an unknown platform.
pub fn backup_platform(backup: &VideoCookieBackup) -> (r: Result<&'static str, String>)
    ensures
        backup.version != BACKUP_VERSION ==> (r matches Err(m) && m@ == "不支持的 Cookie 备份版本: "@
            + decimal(backup.version as nat)),
        backup.version == BACKUP_VERSION ==> match platform_alias(
            ascii_lower_seq(trim_seq(backup.platform@)),
        ) {
            Some(p) => r matches Ok(q) && q@ == p,
            None => r matches Err(m) && m@ == unknown_platform_message(backup.platform@),
        },
{
    if backup.version != BACKUP_VERSION {
        let msg = concat(&chars_of("不支持的 Cookie 备份版本: "), &decimal_of(backup.version as u64));
        return Err(string_of(&msg));
    }
    platform_or_error(backup.platform.as_str())
}

/// The domains recorded with a platform's cookies: the stored JSON list, or
/// no domains when the record does not read as one.
pub fn parse_domain_summary(raw: &str) -> (r: Vec<String>)
    ensures
        r@.map_values(|x: String| x@) == stored_list(raw@),
{
    stored_strings(raw)
}

} // verus!
