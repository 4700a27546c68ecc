//! Application settings: the video-platform table that decides how a video
//! URL is tested, and the checks that refuse unsafe settings at start-up.

use vstd::prelude::*;
use crate::netaddr::{entry_well_formed, is_valid_proxy_entry};
use crate::text::{
    chars_of, concat, contains, contains_seq, decimal, decimal_of, join2, owned, seq_eq,
    string_of, to_lowercase, unicode_lowercase, utf8_len, utf8_len_exceeds,
};

verus! {

/// A video platform: its name, the keywords that recognise its URLs, and
/// whether its videos are only checked for reachability.
#[derive(Debug, Clone)]
pub struct VideoPlatformConfig {
    pub name: String,
    pub url_keywords: Vec<String>,
    pub detect_only: Option<bool>,
}

/// The texts of a list of strings.
pub open spec fn texts(v: Seq<String>) -> Seq<Seq<char>> {
    v.map_values(|s: String| s@)
}

impl View for VideoPlatformConfig {
    type V = (Seq<char>, Seq<Seq<char>>, Option<bool>);

    open spec fn view(&self) -> Self::V {
        (self.name@, texts(self.url_keywords@), self.detect_only)
    }
}

/// A platform recognises a URL: some keyword occurs in it, case-insensitively.
pub open spec fn recognises(keywords: Seq<Seq<char>>, url: Seq<char>) -> bool {
    keywords.len() > 0 && exists|i: int|
        0 <= i < keywords.len() && contains_seq(
            unicode_lowercase(url),
            unicode_lowercase(#[trigger] keywords[i]),
        )
}

/// A copy of a list of strings.
pub fn copy_strings(v: &Vec<String>) -> (r: Vec<String>)
    ensures
        texts(r@) == texts(v@),
{
    let mut out: Vec<String> = Vec::new();
    let mut i: usize = 0;
    while i < v.len()
        invariant
            i <= v.len(),
            texts(out@) == texts(v@).take(i as int),
        decreases v.len() - i,
    {
        let s = owned(v[i].as_str());
        let ghost before = out@;
        out.push(s);
        assert(out@ =~= before.push(s));
        assert(texts(out@) =~= texts(before).push(s@));
        assert(texts(v@).take(i + 1) =~= texts(v@).take(i as int).push(v@[i as int]@));
        i = i + 1;
    }
    assert(texts(v@).take(v.len() as int) =~= texts(v@));
    out
}

impl VideoPlatformConfig {
    /// Whether this platform recognises the URL.
    pub fn matches_url(&self, url: &str) -> (r: bool)
        ensures
            r == recognises(self@.1, url@),
    {
        if self.url_keywords.len() == 0 {
            return false;
        }
        let lower = chars_of(to_lowercase(url).as_str());
        let mut i: usize = 0;
        while i < self.url_keywords.len()
            invariant
                i <= self.url_keywords.len(),
                lower@ == unicode_lowercase(url@),
                forall|j: int|
                    0 <= j < i ==> !contains_seq(
                        lower@,
                        unicode_lowercase(#[trigger] texts(self.url_keywords@)[j]),
                    ),
            decreases self.url_keywords.len() - i,
        {
            let kw = chars_of(to_lowercase(self.url_keywords[i].as_str()).as_str());
            if contains(&lower, &kw) {
                assert(contains_seq(
                    unicode_lowercase(url@),
                    unicode_lowercase(texts(self.url_keywords@)[i as int]),
                ));
                return true;
            }
            i = i + 1;
        }
        false
    }

    /// Whether this platform's videos are only checked for reachability.
    pub fn is_detect_only(&self) -> (r: bool)
        ensures
            r == (self.detect_only == Some(true)),
    {
        match self.detect_only {
            Some(b) => b,
            None => false,
        }
    }

    /// A copy of this platform entry.
    pub fn copy(&self) -> (r: VideoPlatformConfig)
        ensures
            r@ == self@,
    {
        VideoPlatformConfig {
            name: owned(self.name.as_str()),
            url_keywords: copy_strings(&self.url_keywords),
            detect_only: self.detect_only,
        }
    }
}

/// The built-in platforms, in the order they are tried: a name and the
/// keywords that recognise it.
pub open spec fn builtin_table() -> Seq<(Seq<char>, Seq<Seq<char>>)> {
    seq![
        ("youtube"@, seq!["youtube.com"@, "youtu.be"@]),
        ("bilibili"@, seq!["bilibili.com"@, "b23.tv"@]),
        ("sohu"@, seq!["sohu.com"@]),
        ("youku"@, seq!["youku.com"@, "tudou.com"@]),
        ("mgtv"@, seq!["mgtv.com"@, "hunantv.com"@]),
        ("pptv"@, seq!["pptv.com"@, "pps.tv"@]),
        ("qq"@, seq!["v.qq.com"@, "video.qq.com"@]),
    ]
}

/// Some keyword of the list occurs in the lower-cased URL.
pub open spec fn mentions(lower: Seq<char>, keywords: Seq<Seq<char>>) -> bool {
    exists|i: int| 0 <= i < keywords.len() && contains_seq(lower, #[trigger] keywords[i])
}

/// The first built-in platform from position `k` on whose keywords occur in
/// the lower-cased URL.
pub open spec fn builtin_from(lower: Seq<char>, k: int) -> Option<(Seq<char>, Seq<Seq<char>>)>
    decreases builtin_table().len() - k,
{
    if k < 0 || k >= builtin_table().len() {
        None
    } else if mentions(lower, builtin_table()[k].1) {
        Some(builtin_table()[k])
    } else {
        builtin_from(lower, k + 1)
    }
}

/// The built-in platform for a URL, if one is recognised.
pub open spec fn builtin_for(url: Seq<char>) -> Option<(Seq<char>, Seq<Seq<char>>)> {
    builtin_from(unicode_lowercase(url), 0)
}

fn strings_of(items: &Vec<&str>) -> (r: Vec<String>)
    ensures
        texts(r@) == items@.map_values(|s: &str| s@),
{
    let mut out: Vec<String> = Vec::new();
    let mut i: usize = 0;
    while i < items.len()
        invariant
            i <= items.len(),
            texts(out@) == items@.map_values(|s: &str| s@).take(i as int),
        decreases items.len() - i,
    {
        let s = owned(items[i]);
        let ghost before = out@;
        out.push(s);
        assert(out@ =~= before.push(s));
        assert(texts(out@) =~= texts(before).push(s@));
        assert(items@.map_values(|s: &str| s@).take(i + 1) =~= items@.map_values(
            |s: &str| s@,
        ).take(i as int).push(items@[i as int]@));
        i = i + 1;
    }
    assert(items@.map_values(|s: &str| s@).take(items.len() as int) =~= items@.map_values(
        |s: &str| s@,
    ));
    out
}

fn mentions_any(lower: &Vec<char>, keywords: &Vec<&str>) -> (r: bool)
    ensures
        r == mentions(lower@, keywords@.map_values(|s: &str| s@)),
{
    let ghost ks = keywords@.map_values(|s: &str| s@);
    let mut i: usize = 0;
    while i < keywords.len()
        invariant
            i <= keywords.len(),
            ks == keywords@.map_values(|s: &str| s@),
            forall|j: int| 0 <= j < i ==> !contains_seq(lower@, #[trigger] ks[j]),
        decreases keywords.len() - i,
    {
        let kw = chars_of(keywords[i]);
        if contains(lower, &kw) {
            assert(contains_seq(lower@, ks[i as int]));
            return true;
        }
        i = i + 1;
    }
    false
}

proof fn lemma_builtin_table()
    ensures
        builtin_table().len() == 7,
        builtin_table()[0] == ("youtube"@, seq!["youtube.com"@, "youtu.be"@]),
        builtin_table()[1] == ("bilibili"@, seq!["bilibili.com"@, "b23.tv"@]),
        builtin_table()[2] == ("sohu"@, seq!["sohu.com"@]),
        builtin_table()[3] == ("youku"@, seq!["youku.com"@, "tudou.com"@]),
        builtin_table()[4] == ("mgtv"@, seq!["mgtv.com"@, "hunantv.com"@]),
        builtin_table()[5] == ("pptv"@, seq!["pptv.com"@, "pps.tv"@]),
        builtin_table()[6] == ("qq"@, seq!["v.qq.com"@, "video.qq.com"@]),
{
}

/// The built-in platform entry for a URL, if one is recognised.
pub fn builtin_platform(url: &str) -> (r: Option<VideoPlatformConfig>)
    ensures
        match builtin_for(url@) {
            Some((name, keywords)) => r matches Some(c) && c@ == (name, keywords, None::<bool>),
            None => r is None,
        },
{
    let lower = chars_of(to_lowercase(url).as_str());
    let table: Vec<(&str, Vec<&str>)> = vec![
        ("youtube", vec!["youtube.com", "youtu.be"]),
        ("bilibili", vec!["bilibili.com", "b23.tv"]),
        ("sohu", vec!["sohu.com"]),
        ("youku", vec!["youku.com", "tudou.com"]),
        ("mgtv", vec!["mgtv.com", "hunantv.com"]),
        ("pptv", vec!["pptv.com", "pps.tv"]),
        ("qq", vec!["v.qq.com", "video.qq.com"]),
    ];
    proof {
        lemma_builtin_table();
    }
    let mut k: usize = 0;
    while k < table.len()
        invariant
            k <= table.len(),
            table.len() == 7,
            lower@ == unicode_lowercase(url@),
            forall|j: int|
                0 <= j < 7 ==> (#[trigger] table@[j]).0@ == builtin_table()[j].0
                    && table@[j].1@.map_values(|s: &str| s@) == builtin_table()[j].1,
            builtin_from(lower@, 0) == builtin_from(lower@, k as int),
            builtin_table().len() == 7,
        decreases table.len() - k,
    {
        if mentions_any(&lower, &table[k].1) {
            let name = owned(table[k].0);
            let keywords = strings_of(&table[k].1);
            return Some(VideoPlatformConfig { name, url_keywords: keywords, detect_only: None });
        }
        k = k + 1;
    }
    None
}

/// The platform entry that a URL is tested under: the first configured
/// platform that recognises it, else the built-in one, else plain HTML5.
pub open spec fn platform_for(configured: Seq<VideoPlatformConfig>, url: Seq<char>) -> (
    Seq<char>,
    Seq<Seq<char>>,
    Option<bool>,
) {
    if exists|i: int| 0 <= i < configured.len() && recognises(#[trigger] configured[i]@.1, url) {
        let i = choose|i: int|
            0 <= i < configured.len() && recognises(#[trigger] configured[i]@.1, url) && forall|
                j: int,
            | 0 <= j < i ==> !recognises(#[trigger] configured[j]@.1, url);
        configured[i]@
    } else {
        match builtin_for(url) {
            Some((name, keywords)) => (name, keywords, None),
            None => ("html5"@, Seq::empty(), None),
        }
    }
}

/// The platform entry that a URL is tested under.
pub fn match_platform(platforms: &Vec<VideoPlatformConfig>, url: &str) -> (r: VideoPlatformConfig)
    ensures
        r@ == platform_for(platforms@, url@),
{
    let mut i: usize = 0;
    while i < platforms.len()
        invariant
            i <= platforms.len(),
            forall|j: int| 0 <= j < i ==> !recognises(#[trigger] platforms@[j]@.1, url@),
        decreases platforms.len() - i,
    {
        if platforms[i].matches_url(url) {
            let ghost w = choose|w: int|
                0 <= w < platforms@.len() && recognises(#[trigger] platforms@[w]@.1, url@)
                    && forall|j: int| 0 <= j < w ==> !recognises(#[trigger] platforms@[j]@.1, url@);
            proof {
                assert(0 <= i < platforms@.len() && recognises(platforms@[i as int]@.1, url@)
                    && forall|j: int| 0 <= j < i ==> !recognises(#[trigger] platforms@[j]@.1, url@));
                if w < i {
                    assert(!recognises(platforms@[w]@.1, url@));
                }
                if w > i {
                    assert(!recognises(platforms@[i as int]@.1, url@));
                }
                assert(w == i);
            }
            return platforms[i].copy();
        }
        i = i + 1;
    }
    match builtin_platform(url) {
        Some(c) => c,
        None => {
            let r = VideoPlatformConfig {
                name: owned("html5"),
                url_keywords: Vec::new(),
                detect_only: None,
            };
            assert(texts(r.url_keywords@) =~= Seq::<Seq<char>>::empty());
            r
        },
    }
}

// ───────────────────────── settings ─────────────────────────

/// Where the HTTP server listens, and which proxies may report client addresses.
#[derive(Debug, Clone)]
pub struct ServerConfig {
    pub host: String,
    pub port: u16,
    pub trusted_proxies: Vec<String>,
}

/// Where the database lives.
#[derive(Debug, Clone)]
pub struct DatabaseConfig {
    pub path: String,
}

/// How the service logs.
#[derive(Debug, Clone)]
pub struct LoggingConfig {
    pub level: String,
    pub file_dir: String,
    pub format: String,
    pub console: bool,
    pub file: bool,
}

/// The browser used for website tests.
#[derive(Debug, Clone)]
pub struct BrowserConfig {
    pub path: String,
    pub headless: bool,
}

/// The browser used for video tests.
#[derive(Debug, Clone)]
pub struct VideoBrowserConfig {
    pub path: String,
    pub headless: bool,
    pub user_data_dir: Option<String>,
}

/// How many tasks run at once, and how long a probe may take.
#[derive(Debug, Clone)]
pub struct TaskConfig {
    pub concurrency: usize,
    pub timeout_seconds: u64,
}

/// Where screenshots, exports and keys are stored.
#[derive(Debug, Clone)]
pub struct StorageConfig {
    pub screenshot_dir: String,
    pub excel_dir: String,
    pub secure_dir: String,
}

/// How login tokens are signed and how long they last.
#[derive(Debug, Clone)]
pub struct JwtConfig {
    pub secret: String,
    pub expiration_hours: i64,
}

/// All settings of the service.
#[derive(Debug, Clone)]
pub struct AppConfig {
    pub server: ServerConfig,
    pub database: DatabaseConfig,
    pub logging: LoggingConfig,
    pub browser: BrowserConfig,
    pub task: TaskConfig,
    pub storage: StorageConfig,
    pub jwt: JwtConfig,
    pub video_platforms: Vec<VideoPlatformConfig>,
    pub video_browser: VideoBrowserConfig,
}

/// The log format when none is configured.
pub fn default_log_format() -> (r: String)
    ensures
        r@ == "console"@,
{
    owned("console")
}

/// Console and file logging are on unless configured off.
pub fn default_true() -> (r: bool)
    ensures
        r,
{
    true
}

/// Where keys are stored when no directory is configured.
pub fn default_secure_dir() -> (r: String)
    ensures
        r@ == "./storage"@,
{
    owned("./storage")
}

/// The placeholder signing secret that a deployment must replace.
pub open spec fn placeholder_secret() -> Seq<char> {
    "netpulse-jwt-secret-change-in-production"@
}

/// The first trusted-proxy entry from position `k` on that is neither an
/// address nor a CIDR network.
pub open spec fn first_bad_proxy(proxies: Seq<Seq<char>>, k: int) -> Option<Seq<char>>
    decreases proxies.len() - k,
{
    if k < 0 || k >= proxies.len() {
        None
    } else if !entry_well_formed(proxies[k]) {
        Some(proxies[k])
    } else {
        first_bad_proxy(proxies, k + 1)
    }
}

/// The verdict on the settings: the signing secret must not be the
/// placeholder and must take at least 32 bytes, and every trusted proxy must
/// be an address or a CIDR network.
pub open spec fn config_verdict(secret: Seq<char>, proxies: Seq<Seq<char>>) -> Result<(), Seq<char>> {
    if secret == placeholder_secret() {
        Err("JWT secret must be changed from the default placeholder"@)
    } else if utf8_len(secret) < 32 {
        Err("JWT secret must be at least 32 bytes"@)
    } else {
        match first_bad_proxy(proxies, 0) {
            Some(p) => Err("invalid trusted proxy address or CIDR: "@ + p),
            None => Ok(()),
        }
    }
}

impl AppConfig {
    /// Refuses unsafe settings.
    pub fn validate(&self) -> (r: Result<(), String>)
        ensures
            crate::urlcheck::agrees(r, config_verdict(self.jwt.secret@, texts(self.server.trusted_proxies@))),
    {
        let secret = chars_of(self.jwt.secret.as_str());
        let placeholder = chars_of("netpulse-jwt-secret-change-in-production");
        if seq_eq(&secret, &placeholder) {
            return Err(owned("JWT secret must be changed from the default placeholder"));
        }
        if !utf8_len_exceeds(&secret, 31) {
            return Err(owned("JWT secret must be at least 32 bytes"));
        }
        let proxies = &self.server.trusted_proxies;
        let ghost ps = texts(proxies@);
        let mut i: usize = 0;
        while i < proxies.len()
            invariant
                i <= proxies.len(),
                ps == texts(proxies@),
                self.jwt.secret@ != placeholder_secret(),
                utf8_len(self.jwt.secret@) >= 32,
                proxies == &self.server.trusted_proxies,
                first_bad_proxy(ps, 0) == first_bad_proxy(ps, i as int),
            decreases proxies.len() - i,
        {
            if !is_valid_proxy_entry(proxies[i].as_str()) {
                let p = chars_of(proxies[i].as_str());
                return Err(join2("invalid trusted proxy address or CIDR: ", &p));
            }
            i = i + 1;
        }
        Ok(())
    }

    /// The `host:port` address the server listens on.
    pub fn server_addr(&self) -> (r: String)
        ensures
            r@ == self.server.host@ + seq![':'] + decimal(self.server.port as nat),
    {
        let host = chars_of(self.server.host.as_str());
        let mut with_colon = host;
        with_colon.push(':');
        let port = decimal_of(self.server.port as u64);
        let all = concat(&with_colon, &port);
        string_of(&all)
    }

    /// Where the database lives.
    pub fn database_path(&self) -> (r: &str)
        ensures
            r@ == self.database.path@,
    {
        self.database.path.as_str()
    }
}

} // verus!
