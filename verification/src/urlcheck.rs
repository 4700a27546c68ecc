//! Checks on the targets that users submit: web URLs must be `http`/`https`
//! and must not name a reserved IP address (server-side request forgery),
//! and ping targets must be a plain host name or a bracketed IP address.

use vstd::prelude::*;
use crate::netaddr::{ip_of, is_private_ip, parse_ip, reserved, IpAddress};
use crate::text::{
    after, before, chars_of, utf8_len_exceeds, is_alphanumeric, is_cc, is_control, is_whitespace, is_ws,
    join2, join3, owned, second, second_piece, after_first, before_first, strip, strip_chars, trim,
    trim_seq, unicode_alphanumeric, utf8_len, first_occ, lemma_first_occ, lemma_strip_noop, occurs_at,
};

verus! {

/// What a parsed URL tells the checks: its scheme and its host.
pub struct UrlParts {
    pub scheme: String,
    pub host: Option<String>,
}

/// `url::Url::parse`, seen through `Url::scheme` and `Url::host_str`:
/// `(scheme, host)` of the absolute URL that the text spells, if it spells one.
pub uninterp spec fn url_parts(input: Seq<char>) -> Option<(Seq<char>, Option<Seq<char>>)>;

/// Parses an absolute URL with `url::Url::parse` and reports its scheme
/// (`Url::scheme`) and host (`Url::host_str`). The result is named
/// `url_parts` of the input; the URL grammar itself is left to that name.
#[verifier::external_body]
pub(crate) fn parse_url(input: &str) -> (r: Option<UrlParts>)
    ensures
        match url_parts(input@) {
            Some((scheme, host)) => r matches Some(p) && p.scheme@ == scheme && match host {
                Some(h) => p.host matches Some(ph) && ph@ == h,
                None => p.host is None,
            },
            None => r is None,
        },
{
    match url::Url::parse(input) {
        Ok(u) => Some(
            UrlParts { scheme: u.scheme().to_string(), host: u.host_str().map(|h| h.to_string()) },
        ),
        Err(_) => None,
    }
}

/// The host of a URL as the collectors report it: the parsed host, or the
/// empty text when the URL does not parse or names no host.
pub open spec fn host_or_empty(url: Seq<char>) -> Seq<char> {
    match url_parts(url) {
        Some((_, Some(h))) => h,
        _ => Seq::empty(),
    }
}

/// The host of a URL, or the empty string.
pub fn url_host(url: &str) -> (r: String)
    ensures
        r@ == host_or_empty(url@),
{
    match parse_url(url) {
        Some(p) => match p.host {
            Some(h) => h,
            None => String::new(),
        },
        None => String::new(),
    }
}

/// The verdict on a URL submitted for testing: `Ok`, or the message that
/// refuses it.
pub open spec fn url_verdict(url: Seq<char>) -> Result<(), Seq<char>> {
    if url.len() == 0 {
        Err("URL 不能为空"@)
    } else if utf8_len(url) > 2048 {
        Err("URL 过长"@)
    } else {
        match url_parts(url) {
            None => Err("无效的 URL: "@ + url),
            Some((scheme, host)) => if scheme != "http"@ && scheme != "https"@ {
                Err("不支持的协议: "@ + scheme + "（仅支持 http/https）"@)
            } else {
                match host {
                    None => Err("无法解析主机名"@),
                    Some(h) => match ip_of(strip(h, seq!['[', ']'], false)) {
                        Some(ip) => if reserved(ip) {
                            Err("不允许访问内网地址: "@ + h)
                        } else {
                            Ok(())
                        },
                        None => Ok(()),
                    },
                }
            },
        }
    }
}

/// The result of a check matches a verdict.
pub open spec fn agrees(r: Result<(), String>, v: Result<(), Seq<char>>) -> bool {
    match v {
        Ok(()) => r is Ok,
        Err(m) => r matches Err(e) && e@ == m,
    }
}

/// Checks a URL submitted for testing (protection against requests to
/// internal addresses).
pub fn validate_url(url: &str) -> (r: Result<(), String>)
    ensures
        agrees(r, url_verdict(url@)),
{
    let u = chars_of(url);
    if u.len() == 0 {
        return Err(owned("URL 不能为空"));
    }
    if utf8_len_exceeds(&u, 2048) {
        return Err(owned("URL 过长"));
    }
    let parsed = match parse_url(url) {
        Some(p) => p,
        None => {
            return Err(join2("无效的 URL: ", &u));
        },
    };
    let scheme = chars_of(parsed.scheme.as_str());
    let http = chars_of("http");
    let https = chars_of("https");
    if !crate::text::seq_eq(&scheme, &http) && !crate::text::seq_eq(&scheme, &https) {
        return Err(join3("不支持的协议: ", &scheme, "（仅支持 http/https）"));
    }
    let host = match &parsed.host {
        Some(h) => h,
        None => return Err(owned("无法解析主机名")),
    };
    let hv = chars_of(host.as_str());
    let brackets: Vec<char> = vec!['[', ']'];
    assert(brackets@ =~= seq!['[', ']']);
    let bare = strip_chars(&hv, &brackets, false);
    if let Some(ip) = parse_ip(&bare) {
        if is_private_ip(&ip) {
            return Err(join2("不允许访问内网地址: ", &hv));
        }
    }
    Ok(())
}

/// `url::Url::parse`, then `Url::port_or_known_default`: the port that the
/// URL names, or the scheme's default port; nothing when the text does not
/// parse or neither is known.
pub uninterp spec fn url_port(input: Seq<char>) -> Option<u16>;

/// Reads the port of a URL with `url::Url::parse` and
/// `Url::port_or_known_default`; the result is named `url_port`.
#[verifier::external_body]
fn parse_url_port(input: &str) -> (r: Option<u16>)
    ensures
        r == url_port(input@),
{
    url::Url::parse(input).ok().and_then(|u| u.port_or_known_default())
}

/// Where the host of an accepted URL is to be resolved: nowhere when the
/// host is an IP address itself (the check on the URL has judged it),
/// else the host with the URL's port (80 when none is known).
pub open spec fn lookup_plan(url: Seq<char>) -> Result<Option<(Seq<char>, u16)>, Seq<char>> {
    match url_verdict(url) {
        Err(e) => Err(e),
        Ok(()) => match url_parts(url) {
            Some((_, Some(h))) => if ip_of(h) is Some {
                Ok(None)
            } else {
                Ok(
                    Some(
                        (
                            h,
                            match url_port(url) {
                                Some(p) => p,
                                None => 80,
                            },
                        ),
                    ),
                )
            },
            _ => Err("无法解析主机名"@),
        },
    }
}

/// Checks a URL and says which host and port must be resolved before it
/// is fetched: the refusal of `validate_url` unchanged; nothing to resolve
/// when the host is an IP address; else the URL's host and port.
pub fn lookup_target(url: &str) -> (r: Result<Option<(String, u16)>, String>)
    ensures
        match lookup_plan(url@) {
            Err(e) => r matches Err(m) && m@ == e,
            Ok(None) => r matches Ok(None),
            Ok(Some((h, p))) => r matches Ok(Some((rh, rp))) && rh@ == h && rp == p,
        },
{
    match validate_url(url) {
        Err(e) => return Err(e),
        Ok(()) => {},
    }
    let host = match parse_url(url) {
        Some(parts) => match parts.host {
            Some(h) => h,
            None => return Err(owned("无法解析主机名")),
        },
        None => return Err(owned("无法解析主机名")),
    };
    if parse_ip(&chars_of(host.as_str())).is_some() {
        return Ok(None);
    }
    let port = match parse_url_port(url) {
        Some(p) => p,
        None => 80,
    };
    Ok(Some((host, port)))
}

/// The verdict on the addresses that a host resolved to: refused when any
/// of them is reserved.
pub open spec fn resolved_ok(addrs: Seq<IpAddress>) -> bool {
    forall|i: int| 0 <= i < addrs.len() ==> !reserved(#[trigger] addrs[i])
}

/// Judges the addresses that a URL's host resolved to: `Ok` when none is
/// reserved, else the message that names the host.
pub fn resolved_verdict(host: &str, addrs: &Vec<IpAddress>) -> (r: Result<(), String>)
    ensures
        (r is Ok) == resolved_ok(addrs@),
        r matches Err(m) ==> m@ == "不允许访问内网地址: "@ + host@,
{
    let mut i: usize = 0;
    while i < addrs.len()
        invariant
            i <= addrs.len(),
            forall|j: int| 0 <= j < i ==> !reserved(#[trigger] addrs@[j]),
        decreases addrs.len() - i,
    {
        if is_private_ip(&addrs[i]) {
            return Err(join2("不允许访问内网地址: ", &chars_of(host)));
        }
        i = i + 1;
    }
    Ok(())
}

/// A character that may stand in a plain ping host name.
pub open spec fn host_char(c: char) -> bool {
    unicode_alphanumeric(c) || c == '.' || c == '-' || c == '_'
}

/// The host that a ping target names, and whether it was given in brackets:
/// `[host]…`, else the piece after `//` up to `/`, else the text before `:`.
pub open spec fn ping_host(t: Seq<char>) -> (Seq<char>, bool) {
    if t.len() > 0 && t[0] == '[' && after_first(t.drop_first(), seq![']']) is Some {
        (before_first(t.drop_first(), seq![']']), true)
    } else {
        match second_piece(t, seq!['/', '/']) {
            Some(p) => (before_first(p, seq!['/']), false),
            None => (before_first(t, seq![':']), false),
        }
    }
}

/// The verdict on a ping target.
pub open spec fn ping_verdict(target: Seq<char>) -> Result<(), Seq<char>> {
    let t = trim_seq(target);
    if t.len() == 0 || utf8_len(t) > 253 || exists|i: int|
        0 <= i < t.len() && (is_ws(#[trigger] t[i]) || is_cc(t[i])) {
        Err("无效的 Ping 目标"@)
    } else {
        let (host, bracketed) = ping_host(t);
        if host.len() == 0 || (!bracketed && exists|i: int|
            0 <= i < host.len() && !host_char(#[trigger] host[i])) || (bracketed && ip_of(host)
            is None) {
            Err("无效的 Ping 主机名"@)
        } else {
            Ok(())
        }
    }
}

/// An ASCII letter or digit.
pub open spec fn ascii_letter_or_digit(c: char) -> bool {
    ('a' <= c && c <= 'z') || ('A' <= c && c <= 'Z') || ('0' <= c && c <= '9')
}

/// A character of a plain ASCII host name: a letter or digit (which
/// `char::is_alphanumeric` counts as alphanumeric), a dot, a hyphen or an
/// underscore.
pub open spec fn plain_host_ascii(c: char) -> bool {
    ||| c == '.'
    ||| c == '-'
    ||| c == '_'
    ||| ascii_letter_or_digit(c) && unicode_alphanumeric(c)
}

/// ASCII text takes a byte a character.
proof fn lemma_ascii_utf8_len(s: Seq<char>)
    requires
        forall|i: int| 0 <= i < s.len() ==> #[trigger] s[i] <= '\u{7f}',
    ensures
        utf8_len(s) == s.len(),
    decreases s.len(),
{
    if s.len() > 0 {
        assert(s.last() == s[s.len() - 1]);
        let d = s.drop_last();
        assert forall|i: int| 0 <= i < d.len() implies #[trigger] d[i] <= '\u{7f}' by {
            assert(d[i] == s[i]);
        }
        lemma_ascii_utf8_len(d);
    }
}

/// A character that does not occur in `t` has no first occurrence there.
proof fn lemma_absent(t: Seq<char>, n: Seq<char>)
    requires
        n.len() > 0,
        forall|i: int| 0 <= i < t.len() ==> #[trigger] t[i] != n[0],
    ensures
        first_occ(t, n, 0) is None,
{
    lemma_first_occ(t, n, 0);
    if let Some(i) = first_occ(t, n, 0) {
        assert(occurs_at(t, n, i));
        assert(t.subrange(i, i + n.len())[0] == n[0]);
        assert(t[i] == n[0]);
    }
}

/// A plain host name of ASCII letters, digits, dots, hyphens and
/// underscores, of at most 253 characters, is a valid ping target.
pub proof fn plain_host_names_are_ping_targets(target: Seq<char>)
    requires
        0 < target.len() <= 253,
        forall|i: int| 0 <= i < target.len() ==> plain_host_ascii(#[trigger] target[i]),
    ensures
        ping_verdict(target) is Ok,
{
    assert forall|i: int| 0 <= i < target.len() implies #[trigger] target[i] <= '\u{7f}' && !is_ws(target[i])
        && !is_cc(target[i]) && target[i] != ':' && target[i] != '/' && target[i] != '[' && host_char(target[i]) by {
        assert(plain_host_ascii(target[i]));
    }
    assert(!is_ws(target[0]) && !is_ws(target.last()));
    lemma_strip_noop(target, Seq::empty(), true);
    let t = trim_seq(target);
    assert(t == target);
    lemma_ascii_utf8_len(t);
    lemma_absent(t, seq![':']);
    lemma_absent(t, seq!['/', '/']);
    assert(after_first(t, seq!['/', '/']) is None);
    assert(before_first(t, seq![':']) == t);
    assert(ping_host(t) == (t, false));
}

/// Whether some character of `t` is white space or a control character.
fn has_space_or_control(t: &Vec<char>) -> (r: bool)
    ensures
        r == exists|i: int| 0 <= i < t.len() && (is_ws(#[trigger] t@[i]) || is_cc(t@[i])),
{
    let mut i: usize = 0;
    while i < t.len()
        invariant
            i <= t.len(),
            forall|j: int| 0 <= j < i ==> !(is_ws(#[trigger] t@[j]) || is_cc(t@[j])),
        decreases t.len() - i,
    {
        if is_whitespace(t[i]) || is_control(t[i]) {
            return true;
        }
        i = i + 1;
    }
    false
}

/// Whether some character of `h` cannot stand in a plain host name.
fn has_non_host_char(h: &Vec<char>) -> (r: bool)
    ensures
        r == exists|i: int| 0 <= i < h.len() && !host_char(#[trigger] h@[i]),
{
    let mut i: usize = 0;
    while i < h.len()
        invariant
            i <= h.len(),
            forall|j: int| 0 <= j < i ==> host_char(#[trigger] h@[j]),
        decreases h.len() - i,
    {
        let c = h[i];
        if !(is_alphanumeric(c) || c == '.' || c == '-' || c == '_') {
            return true;
        }
        i = i + 1;
    }
    false
}

/// The host that a ping target names, and whether it was bracketed.
fn ping_host_of(t: &Vec<char>) -> (r: (Vec<char>, bool))
    ensures
        (r.0@, r.1) == ping_host(t@),
{
    let close: Vec<char> = vec![']'];
    assert(close@ =~= seq![']']);
    if t.len() > 0 && t[0] == '[' {
        let mut rest: Vec<char> = Vec::new();
        let mut i: usize = 1;
        while i < t.len()
            invariant
                1 <= i <= t.len(),
                rest@ == t@.subrange(1, i as int),
            decreases t.len() - i,
        {
            rest.push(t[i]);
            assert(t@.subrange(1, i as int).push(t@[i as int]) =~= t@.subrange(1, i + 1));
            i = i + 1;
        }
        assert(rest@ =~= t@.drop_first());
        if after(&rest, &close).is_some() {
            return (before(&rest, &close), true);
        }
    }
    let slashes: Vec<char> = vec!['/', '/'];
    assert(slashes@ =~= seq!['/', '/']);
    let slash: Vec<char> = vec!['/'];
    assert(slash@ =~= seq!['/']);
    let colon: Vec<char> = vec![':'];
    assert(colon@ =~= seq![':']);
    match second(t, &slashes) {
        Some(p) => (before(&p, &slash), false),
        None => (before(t, &colon), false),
    }
}

/// Checks a ping target.
pub fn validate_ping_target(target: &str) -> (r: Result<(), String>)
    ensures
        agrees(r, ping_verdict(target@)),
{
    let t = trim(&chars_of(target));
    if t.len() == 0 || utf8_len_exceeds(&t, 253) || has_space_or_control(&t) {
        return Err(owned("无效的 Ping 目标"));
    }
    let (host, bracketed) = ping_host_of(&t);
    if host.len() == 0 || (!bracketed && has_non_host_char(&host)) || (bracketed && parse_ip(
        &host,
    ).is_none()) {
        return Err(owned("无效的 Ping 主机名"));
    }
    Ok(())
}

} // verus!
