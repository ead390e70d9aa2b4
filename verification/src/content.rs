//! Web content tools: search result shaping, the rules a URL fetch must
//! pass (scheme, SSRF guards, size caps, content types), readable-text
//! extraction, and the error payloads the model sees.
use vstd::prelude::*;

use crate::llm::ToolDefinition;
use crate::settings::{AiMedia, Bucket, Settings};
use crate::text::{all_digits, ascii_lower, collapse_ws, decimal, decimal_value, ends_with, opt_view, trim};

verus! {

/// Names of the web tools; calls with these names go to the content executor.
pub const WEB_TOOL_SEARCH: &'static str = "web_search";

pub const WEB_TOOL_FETCH: &'static str = "fetch_url";

/// Whether `name` is one of the web tools (`web_search`, `fetch_url`).
pub fn is_web_tool(name: &str) -> (r: bool)
    ensures
        r == (name@ == WEB_TOOL_SEARCH@ || name@ == WEB_TOOL_FETCH@),
{
    crate::text::str_eq(name, WEB_TOOL_SEARCH) || crate::text::str_eq(name, WEB_TOOL_FETCH)
}

/// What `web_search` tells the model.
pub const WEB_SEARCH_DESCRIPTION: &'static str = "Search the web for current information and return concise results with URLs.";

/// The JSON schema of the `web_search` arguments.
pub const WEB_SEARCH_PARAMETERS: &'static str = "{\"properties\":{\"max_results\":{\"maximum\":10,\"minimum\":1,\"type\":\"integer\"},\"query\":{\"description\":\"Search query\",\"type\":\"string\"}},\"required\":[\"query\"],\"type\":\"object\"}";

/// What `fetch_url` tells the model.
pub const FETCH_URL_DESCRIPTION: &'static str = "Fetch a URL and return extracted readable plain text content.";

/// The web tools offered to the model; `fetch_url_schema` is the JSON
/// schema of the fetch arguments.
pub fn ai_tools(fetch_url_schema: &String) -> (r: Vec<ToolDefinition>)
    ensures
        r@.len() == 2,
        r@[0].name@ == WEB_TOOL_SEARCH@,
        r@[0].description@ == WEB_SEARCH_DESCRIPTION@,
        r@[0].parameters@ == WEB_SEARCH_PARAMETERS@,
        r@[1].name@ == WEB_TOOL_FETCH@,
        r@[1].description@ == FETCH_URL_DESCRIPTION@,
        r@[1].parameters == *fetch_url_schema,
{
    let mut v: Vec<ToolDefinition> = Vec::new();
    v.push(ToolDefinition {
        name: String::from_str(WEB_TOOL_SEARCH),
        description: String::from_str(WEB_SEARCH_DESCRIPTION),
        parameters: String::from_str(WEB_SEARCH_PARAMETERS),
    });
    v.push(ToolDefinition {
        name: String::from_str(WEB_TOOL_FETCH),
        description: String::from_str(FETCH_URL_DESCRIPTION),
        parameters: fetch_url_schema.clone(),
    });
    v
}

/// The Döner price index tool.
pub const DOENER_TOOL_NAME: &'static str = "doener_index";

/// What `doener_index` tells the model.
pub const DOENER_DESCRIPTION: &'static str = "Look up the German Döner price index from dönerindex.com. Without `city`, returns the country-wide aggregate (location count, avg/min/max price). With `city` (free-form), returns the top matching cities and their per-city aggregate. Use this for any question about Döner prices, kebab prices, or how expensive Döner is in a German city.";

/// The JSON schema of the `doener_index` arguments.
pub const DOENER_PARAMETERS: &'static str = "{\"properties\":{\"city\":{\"description\":\"Optional city name or prefix. German spelling preferred (e.g. 'Köln', 'München').\",\"type\":\"string\"}},\"type\":\"object\"}";

pub fn doener_tool() -> (r: ToolDefinition)
    ensures
        r.name@ == DOENER_TOOL_NAME@,
        r.description@ == DOENER_DESCRIPTION@,
        r.parameters@ == DOENER_PARAMETERS@,
{
    ToolDefinition {
        name: String::from_str(DOENER_TOOL_NAME),
        description: String::from_str(DOENER_DESCRIPTION),
        parameters: String::from_str(DOENER_PARAMETERS),
    }
}

// ---------------------------------------------------------------------------
// Text shaping
// ---------------------------------------------------------------------------

pub open spec fn truncated_chars(v: Seq<char>, max: usize) -> Seq<char> {
    if v.len() <= max {
        v
    } else {
        v.take(max as int) + "..."@
    }
}

/// `value` cut to `max_chars` characters, with `...` when cut.
pub fn truncate_chars(value: &str, max_chars: usize) -> (r: String)
    ensures
        r@ == truncated_chars(value@, max_chars),
{
    let cs = crate::text::chars_of(value);
    if cs.len() <= max_chars {
        return String::from_str(value);
    }
    let mut head: Vec<char> = Vec::new();
    crate::text::push_range(&mut head, &cs, 0, max_chars);
    assert(head@ =~= value@.take(max_chars as int));
    let mut out = crate::text::string_from(&head);
    crate::text::append(&mut out, "...");
    out
}

/// Whitespace runs collapsed to single spaces, ends trimmed.
pub fn collapse_ws_text(s: &str) -> (r: String)
    ensures
        r@ == collapse_ws(s@),
{
    crate::text::collapse_whitespace(s)
}

/// The cache key form of a search query.
pub fn normalize_query(query: &str) -> (r: String)
    ensures
        r@ == collapse_ws(query@),
{
    crate::text::collapse_whitespace(query)
}

/// The cache key form of a URL.
pub fn normalize_url(url: &str) -> (r: String)
    ensures
        r@ == ascii_lower(trim(url@)),
{
    let t = crate::text::trimmed(url);
    crate::text::to_ascii_lowercase(t.as_str())
}

/// One search hit as the model sees it.
#[derive(Debug, Clone, PartialEq, Eq)]
pub struct SearchResult {
    pub title: String,
    pub url: String,
    pub snippet: String,
    pub published_at: Option<String>,
    pub source: Option<String>,
}

/// A search hit shaped for the model: title collapsed and cut to 200
/// characters, snippet (the content, or empty) to 500.
pub fn search_result(
    title: &str,
    url: String,
    content: &Option<String>,
    published_date: Option<String>,
    engine: Option<String>,
) -> (r: SearchResult)
    ensures
        r.title@ == truncated_chars(collapse_ws(title@), 200),
        r.url == url,
        r.snippet@ == truncated_chars(
            collapse_ws(
                match *content {
                    Some(c) => c@,
                    None => Seq::<char>::empty(),
                },
            ),
            500,
        ),
        r.published_at == published_date,
        r.source == engine,
{
    let t = crate::text::collapse_whitespace(title);
    let c = match content {
        Some(c) => crate::text::collapse_whitespace(c.as_str()),
        None => crate::text::collapse_whitespace(""),
    };
    proof {
        reveal_strlit("");
    }
    SearchResult {
        title: truncate_chars(t.as_str(), 200),
        url,
        snippet: truncate_chars(c.as_str(), 500),
        published_at: published_date,
        source: engine,
    }
}

/// Results a search keeps: the request, at most 10.
pub fn search_result_limit(max_results: usize) -> (r: usize)
    ensures
        r == (if max_results < 10 {
            max_results
        } else {
            10
        }),
{
    if max_results < 10 {
        max_results
    } else {
        10
    }
}

// ---------------------------------------------------------------------------
// Size caps
// ---------------------------------------------------------------------------

/// Per-bucket size caps, in bytes.
#[derive(Debug, Clone, Copy)]
pub struct BucketCaps {
    pub image: u64,
    pub pdf: u64,
    pub audio: u64,
    pub video: u64,
    pub text: u64,
}

pub open spec fn cap_of(c: BucketCaps, b: Bucket) -> u64 {
    match b {
        Bucket::Image => c.image,
        Bucket::Pdf => c.pdf,
        Bucket::Audio => c.audio,
        Bucket::Video => c.video,
        Bucket::Text => c.text,
    }
}

pub open spec fn max_cap(c: BucketCaps) -> u64 {
    let a = if c.image >= c.pdf { c.image } else { c.pdf };
    let b = if a >= c.audio { a } else { c.audio };
    let d = if b >= c.video { b } else { c.video };
    if d >= c.text { d } else { c.text }
}

impl BucketCaps {
    /// The caps of the media settings.
    pub fn from_media(m: &AiMedia) -> (r: BucketCaps)
        ensures
            r.image == m.max_image_size,
            r.pdf == m.max_pdf_size,
            r.audio == m.max_audio_size,
            r.video == m.max_video_size,
            r.text == m.max_text_size,
    {
        BucketCaps {
            image: m.max_image_size,
            pdf: m.max_pdf_size,
            audio: m.max_audio_size,
            video: m.max_video_size,
            text: m.max_text_size,
        }
    }

    pub fn cap_for(&self, b: Bucket) -> (r: u64)
        ensures
            r == cap_of(*self, b),
    {
        match b {
            Bucket::Image => self.image,
            Bucket::Pdf => self.pdf,
            Bucket::Audio => self.audio,
            Bucket::Video => self.video,
            Bucket::Text => self.text,
        }
    }

    /// The largest cap: the most any fetch may read.
    pub fn max(&self) -> (r: u64)
        ensures
            r == max_cap(*self),
            r >= self.image && r >= self.pdf && r >= self.audio && r >= self.video && r >= self.text,
    {
        let mut m = self.image;
        if self.pdf > m {
            m = self.pdf;
        }
        if self.audio > m {
            m = self.audio;
        }
        if self.video > m {
            m = self.video;
        }
        if self.text > m {
            m = self.text;
        }
        m
    }
}

// ---------------------------------------------------------------------------
// SSRF guards
// ---------------------------------------------------------------------------

/// An IP address literal.
#[derive(Debug, Clone, Copy, PartialEq, Eq)]
pub enum IpLiteral {
    V4(u8, u8, u8, u8),
    V6(u16, u16, u16, u16, u16, u16, u16, u16),
}

/// Loopback, private, link-local, broadcast, unspecified and documentation
/// IPv4 addresses; loopback, unique-local, unicast link-local and
/// unspecified IPv6 addresses.
pub open spec fn blocked_ip(ip: IpLiteral) -> bool {
    match ip {
        IpLiteral::V4(a, b, c, d) => {
            ||| a == 127
            ||| a == 10
            ||| (a == 172 && 16 <= b && b < 32)
            ||| (a == 192 && b == 168)
            ||| (a == 169 && b == 254)
            ||| (a == 255 && b == 255 && c == 255 && d == 255)
            ||| (a == 0 && b == 0 && c == 0 && d == 0)
            ||| (a == 192 && b == 0 && c == 2)
            ||| (a == 198 && b == 51 && c == 100)
            ||| (a == 203 && b == 0 && c == 113)
        },
        IpLiteral::V6(s0, s1, s2, s3, s4, s5, s6, s7) => {
            let zero_prefix = s0 == 0 && s1 == 0 && s2 == 0 && s3 == 0 && s4 == 0 && s5 == 0
                && s6 == 0;
            ||| (zero_prefix && s7 == 1)
            ||| (0xfc00 <= s0 && s0 < 0xfe00)
            ||| (0xfe80 <= s0 && s0 < 0xfec0)
            ||| (zero_prefix && s7 == 0)
        },
    }
}

pub fn is_blocked_ip(ip: IpLiteral) -> (r: bool)
    ensures
        r == blocked_ip(ip),
{
    match ip {
        IpLiteral::V4(a, b, c, d) => {
            a == 127 || a == 10 || (a == 172 && 16 <= b && b < 32) || (a == 192 && b == 168) || (a
                == 169 && b == 254) || (a == 255 && b == 255 && c == 255 && d == 255) || (a == 0
                && b == 0 && c == 0 && d == 0) || (a == 192 && b == 0 && c == 2) || (a == 198 && b
                == 51 && c == 100) || (a == 203 && b == 0 && c == 113)
        },
        IpLiteral::V6(s0, s1, s2, s3, s4, s5, s6, s7) => {
            let zero_prefix = s0 == 0 && s1 == 0 && s2 == 0 && s3 == 0 && s4 == 0 && s5 == 0 && s6
                == 0;
            (zero_prefix && s7 == 1) || (0xfc00 <= s0 && s0 < 0xfe00) || (0xfe80 <= s0 && s0
                < 0xfec0) || (zero_prefix && s7 == 0)
        },
    }
}

/// A URL host that is refused without a lookup: none, `localhost` or a
/// `.localhost` name (any case), or a blocked IP literal. `ip` is the host
/// read as an IP literal, when it is one.
pub open spec fn blocked_host(host: Option<Seq<char>>, ip: Option<IpLiteral>) -> bool {
    match host {
        None => true,
        Some(h) => ascii_lower(h) == "localhost"@ || ends_with(ascii_lower(h), ".localhost"@) || (
        ip matches Some(a) && blocked_ip(a)),
    }
}

pub fn is_blocked_host_literal(host: &Option<String>, ip: Option<IpLiteral>) -> (r: bool)
    ensures
        r == blocked_host(opt_view(*host), ip),
{
    match host {
        None => true,
        Some(h) => {
            let lower = crate::text::to_ascii_lowercase(h.as_str());
            if crate::text::str_eq(lower.as_str(), "localhost") {
                return true;
            }
            let cs = crate::text::chars_of(lower.as_str());
            let suffix = crate::text::chars_of(".localhost");
            if crate::text::ends_with_chars(&cs, &suffix) {
                return true;
            }
            match ip {
                Some(a) => is_blocked_ip(a),
                None => false,
            }
        },
    }
}

/// Whether the addresses a host name resolved to make it a blocked
/// target: none at all, or any blocked one.
pub open spec fn blocked_resolution(addrs: Seq<IpLiteral>) -> bool {
    addrs.len() == 0 || exists|i: int| 0 <= i < addrs.len() && blocked_ip(#[trigger] addrs[i])
}

pub fn resolves_to_blocked(addrs: &Vec<IpLiteral>) -> (r: bool)
    ensures
        r == blocked_resolution(addrs@),
{
    if addrs.len() == 0 {
        return true;
    }
    let mut i: usize = 0;
    while i < addrs.len()
        invariant
            i <= addrs@.len(),
            forall|j: int| 0 <= j < i ==> !blocked_ip(#[trigger] addrs@[j]),
        decreases addrs@.len() - i,
    {
        if is_blocked_ip(addrs[i]) {
            return true;
        }
        i += 1;
    }
    false
}

// ---------------------------------------------------------------------------
// Fetch rules
// ---------------------------------------------------------------------------

/// Why a fetch was refused.
#[derive(Debug, Clone, PartialEq, Eq)]
pub enum FetchError {
    InvalidUrl,
    UnsupportedScheme(String),
    BlockedHost,
    TooLarge,
    UnsupportedContentType,
    NoReadableContent,
    /// A transport failure, with its message.
    Transport(String),
}

impl FetchError {
    pub fn message(&self) -> (r: String)
        ensures
            r@ == (match *self {
                FetchError::InvalidUrl => "Invalid URL"@,
                FetchError::UnsupportedScheme(s) => "Unsupported URL scheme: "@ + s@,
                FetchError::BlockedHost => "Blocked target host"@,
                FetchError::TooLarge => "Response too large"@,
                FetchError::UnsupportedContentType => "Unsupported content type"@,
                FetchError::NoReadableContent => "No readable content extracted"@,
                FetchError::Transport(m) => m@,
            }),
    {
        match self {
            FetchError::InvalidUrl => String::from_str("Invalid URL"),
            FetchError::UnsupportedScheme(s) => crate::text::concat(
                "Unsupported URL scheme: ",
                s.as_str(),
            ),
            FetchError::BlockedHost => String::from_str("Blocked target host"),
            FetchError::TooLarge => String::from_str("Response too large"),
            FetchError::UnsupportedContentType => String::from_str("Unsupported content type"),
            FetchError::NoReadableContent => String::from_str("No readable content extracted"),
            FetchError::Transport(m) => m.clone(),
        }
    }
}

/// The scheme, host and port of a parsed URL.
pub uninterp spec fn url_parts(raw: Seq<char>) -> Option<(Seq<char>, Option<Seq<char>>)>;

/// The scheme and host of a URL (`url::Url::parse`, `scheme()`,
/// `host_str()`); `None` when it does not parse. The result is named, not
/// described.
#[verifier::external_body]
fn parse_url_parts(raw: &str) -> (r: Option<(String, Option<String>)>)
    ensures
        match r {
            Some(p) => url_parts(raw@) == Some((p.0@, opt_view(p.1))),
            None => url_parts(raw@) is None,
        },
{
    match url::Url::parse(raw) {
        Ok(u) => match u.host_str() {
            Some(h) => Some((u.scheme().to_string(), Some(h.to_string()))),
            None => Some((u.scheme().to_string(), None)),
        },
        Err(_) => None,
    }
}

/// The dot-separated fields of `s` (`str::split('.')`).
pub open spec fn dot_fields(s: Seq<char>) -> Seq<Seq<char>>
    decreases s.len(),
{
    if s.len() == 0 {
        seq![Seq::<char>::empty()]
    } else {
        let r = dot_fields(s.drop_last());
        if s.last() == '.' {
            r.push(Seq::<char>::empty())
        } else {
            r.drop_last().push(r.last().push(s.last()))
        }
    }
}

proof fn lemma_dot_fields_nonempty(s: Seq<char>)
    ensures
        dot_fields(s).len() >= 1,
    decreases s.len(),
{
    if s.len() > 0 {
        lemma_dot_fields_nonempty(s.drop_last());
    }
}

/// A decimal octet as `Ipv4Addr`'s parser reads it: one to three digits,
/// no leading zero, at most 255.
pub open spec fn octet_ok(f: Seq<char>) -> bool {
    &&& 1 <= f.len() <= 3
    &&& all_digits(f)
    &&& (f.len() == 1 || f[0] != '0')
    &&& decimal_value(f) <= 255
}

/// What `host.parse::<IpAddr>()` reads from a URL's host text: four
/// octets in dotted decimal. An IPv6 host keeps its brackets in the host
/// text, which that parse refuses, so it is no literal here either.
pub open spec fn ip_literal_of(host: Seq<char>) -> Option<IpLiteral> {
    let f = dot_fields(host);
    if f.len() == 4 && octet_ok(f[0]) && octet_ok(f[1]) && octet_ok(f[2]) && octet_ok(f[3]) {
        Some(
            IpLiteral::V4(
                decimal_value(f[0]) as u8,
                decimal_value(f[1]) as u8,
                decimal_value(f[2]) as u8,
                decimal_value(f[3]) as u8,
            ),
        )
    } else {
        None
    }
}

pub open spec fn char_views(v: Seq<Vec<char>>) -> Seq<Seq<char>> {
    v.map_values(|x: Vec<char>| x@)
}

fn octet_value(f: &Vec<char>) -> (r: Option<u8>)
    ensures
        octet_ok(f@) ==> r == Some(decimal_value(f@) as u8),
        !octet_ok(f@) ==> r is None,
{
    if f.len() < 1 || f.len() > 3 {
        return None;
    }
    if f.len() > 1 && f[0] == '0' {
        return None;
    }
    assert(f@.subrange(0, f@.len() as int) =~= f@);
    match crate::text::parse_decimal(f, 0, f.len()) {
        Some(v) => if v <= 255 {
            Some(v as u8)
        } else {
            None
        },
        None => None,
    }
}

/// Reads a URL's host text as an IPv4 literal.
fn parse_ip(host: &str) -> (r: Option<IpLiteral>)
    ensures
        r == ip_literal_of(host@),
{
    let cs = crate::text::chars_of(host);
    let mut done: Vec<Vec<char>> = Vec::new();
    let mut cur: Vec<char> = Vec::new();
    let mut i: usize = 0;
    assert(cs@.take(0) =~= Seq::<char>::empty());
    assert(char_views(done@).push(cur@) =~= dot_fields(cs@.take(0)));
    while i < cs.len()
        invariant
            i <= cs@.len(),
            cs@ == host@,
            char_views(done@).push(cur@) == dot_fields(cs@.take(i as int)),
        decreases cs@.len() - i,
    {
        let ghost prev = cs@.take(i as int);
        assert(cs@.take(i + 1).drop_last() =~= prev);
        assert(cs@.take(i + 1).last() == cs@[i as int]);
        proof {
            lemma_dot_fields_nonempty(prev);
        }
        if cs[i] == '.' {
            let ghost before = done@;
            let finished = cur;
            done.push(finished);
            cur = Vec::new();
            assert(char_views(done@) =~= char_views(before).push(finished@));
            assert(char_views(done@).push(cur@) =~= dot_fields(cs@.take(i + 1)));
        } else {
            let ghost old_cur = cur@;
            cur.push(cs[i]);
            assert(char_views(done@).push(cur@) =~= char_views(done@).push(old_cur).drop_last().push(
                old_cur.push(cs@[i as int]),
            ));
            assert(char_views(done@).push(cur@) =~= dot_fields(cs@.take(i + 1)));
        }
        i += 1;
    }
    assert(cs@.take(cs@.len() as int) =~= cs@);
    if done.len() != 3 {
        return None;
    }
    assert(char_views(done@)[0] == done@[0]@);
    assert(char_views(done@)[1] == done@[1]@);
    assert(char_views(done@)[2] == done@[2]@);
    let a = octet_value(&done[0]);
    let b = octet_value(&done[1]);
    let c = octet_value(&done[2]);
    let d = octet_value(&cur);
    match (a, b, c, d) {
        (Some(a), Some(b), Some(c), Some(d)) => Some(IpLiteral::V4(a, b, c, d)),
        _ => None,
    }
}

/// The host of a URL read as an IP literal.
pub open spec fn host_ip(host: Option<Seq<char>>) -> Option<IpLiteral> {
    match host {
        Some(h) => ip_literal_of(h),
        None => None,
    }
}

/// What a fetch needs to know before it sends a request.
pub struct FetchTarget {
    pub host: Option<String>,
    /// Whether the host must still be resolved and its addresses checked.
    pub resolve_check: bool,
}

/// The checks before a request: the URL parses, its scheme is `http` or
/// `https`, and, with the SSRF guards on, its host is not a blocked
/// literal. A host that is no IP literal must still be resolved.
pub fn precheck_fetch(raw_url: &str, ssrf_enabled: bool) -> (r: Result<FetchTarget, FetchError>)
    ensures
        match url_parts(raw_url@) {
            None => r == Err::<FetchTarget, FetchError>(FetchError::InvalidUrl),
            Some((scheme, host)) => if scheme != "http"@ && scheme != "https"@ {
                r matches Err(FetchError::UnsupportedScheme(s)) && s@ == scheme
            } else if ssrf_enabled && blocked_host(host, host_ip(host)) {
                r == Err::<FetchTarget, FetchError>(FetchError::BlockedHost)
            } else {
                r matches Ok(t) && opt_view(t.host) == host && t.resolve_check == (ssrf_enabled
                    && host_ip(host) is None)
            },
        },
{
    let (scheme, host) = match parse_url_parts(raw_url) {
        Some(p) => p,
        None => return Err(FetchError::InvalidUrl),
    };
    if !crate::text::str_eq(scheme.as_str(), "http") && !crate::text::str_eq(scheme.as_str(), "https") {
        return Err(FetchError::UnsupportedScheme(scheme));
    }
    let ip = match &host {
        Some(h) => parse_ip(h.as_str()),
        None => None,
    };
    if ssrf_enabled && is_blocked_host_literal(&host, ip) {
        return Err(FetchError::BlockedHost);
    }
    let resolve_check = ssrf_enabled && ip.is_none();
    Ok(FetchTarget { host, resolve_check })
}

/// Whether a URL's host is refused without a lookup (the SSRF guard on a
/// literal host).
pub fn url_host_is_blocked(raw_url: &str) -> (r: Option<bool>)
    ensures
        match url_parts(raw_url@) {
            None => r is None,
            Some((_, host)) => r == Some(blocked_host(host, host_ip(host))),
        },
{
    let (_, host) = match parse_url_parts(raw_url) {
        Some(p) => p,
        None => return None,
    };
    let ip = match &host {
        Some(h) => parse_ip(h.as_str()),
        None => None,
    };
    Some(is_blocked_host_literal(&host, ip))
}

/// A declared or read length over the largest cap is refused.
pub fn over_max_cap(length: u64, caps: &BucketCaps) -> (r: bool)
    ensures
        r == (length > max_cap(*caps)),
{
    length > caps.max()
}

/// The MIME type `infer` reads from the first bytes of a body.
pub uninterp spec fn sniffed_mime(head: Seq<u8>) -> Option<Seq<char>>;

/// `infer::get(head).map(|k| k.mime_type())`; the result is named.
#[verifier::external_body]
fn sniff_mime(head: &[u8]) -> (r: Option<String>)
    ensures
        opt_view(r) == sniffed_mime(head@),
{
    match infer::get(head) {
        Some(k) => Some(k.mime_type().to_string()),
        None => None,
    }
}

/// The content type of a fetched body: the response header, else what the
/// first 16 bytes look like, else `application/octet-stream`.
pub open spec fn picked_content_type(header_ct: Seq<char>, body: Seq<u8>) -> Seq<char> {
    if header_ct.len() > 0 {
        header_ct
    } else {
        match sniffed_mime(body.take(if body.len() < 16 { body.len() as int } else { 16 })) {
            Some(m) => m,
            None => "application/octet-stream"@,
        }
    }
}

/// Computes [`picked_content_type`].
pub fn pick_content_type(header_ct: String, body: &Vec<u8>) -> (r: String)
    ensures
        r@ == picked_content_type(header_ct@, body@),
        header_ct@.len() > 0 ==> r == header_ct,
        header_ct@.len() == 0 ==> r@ == (match sniffed_mime(
            body@.take(if body@.len() < 16 { body@.len() as int } else { 16 }),
        ) {
            Some(m) => m,
            None => "application/octet-stream"@,
        }),
{
    if crate::text::chars_of(header_ct.as_str()).len() > 0 {
        return header_ct;
    }
    let n: usize = if body.len() < 16 {
        body.len()
    } else {
        16
    };
    let mut head: Vec<u8> = Vec::new();
    let mut i: usize = 0;
    while i < n
        invariant
            n <= body@.len(),
            i <= n,
            head@ == body@.take(i as int),
        decreases n - i,
    {
        head.push(body[i]);
        assert(head@ =~= body@.take(i + 1));
        i += 1;
    }
    match sniff_mime(head.as_slice()) {
        Some(m) => m,
        None => String::from_str("application/octet-stream"),
    }
}

/// The media type of a content type: before any `;`, trimmed, lower-cased.
pub open spec fn media_type(ct: Seq<char>) -> Seq<char> {
    let head = if crate::text::contains(ct, ";"@) {
        ct.take(
            choose|i: int| crate::text::occurs_at(ct, ";"@, i) && forall|j: int|
                0 <= j < i ==> !crate::text::occurs_at(ct, ";"@, j),
        )
    } else {
        ct
    };
    ascii_lower(trim(head))
}

pub fn media_type_of(ct: &str) -> (r: String)
    ensures
        r@ == media_type(ct@),
{
    let cs = crate::text::chars_of(ct);
    let mut semi: Vec<char> = Vec::new();
    semi.push(';');
    proof {
        reveal_strlit(";");
        assert(semi@ =~= ";"@);
    }
    let head = match crate::text::find_chars(&cs, &semi) {
        Some(i) => {
            let mut h: Vec<char> = Vec::new();
            crate::text::push_range(&mut h, &cs, 0, i);
            proof {
                let c = choose|k: int| crate::text::occurs_at(cs@, ";"@, k) && forall|j: int|
                    0 <= j < k ==> !crate::text::occurs_at(cs@, ";"@, j);
                assert(crate::text::occurs_at(cs@, ";"@, i as int));
                assert(c == i);
                assert(h@ =~= cs@.take(i as int));
            }
            crate::text::string_from(&h)
        },
        None => String::from_str(ct),
    };
    let t = crate::text::trimmed(head.as_str());
    crate::text::to_ascii_lowercase(t.as_str())
}

/// HTML-like media types get readable-text extraction.
pub open spec fn html_like(ct: Seq<char>) -> bool {
    let m = media_type(ct);
    m == "text/html"@ || m == "application/xhtml+xml"@ || m == "application/xml"@ || m
        == "text/xml"@
}

pub fn is_html_content_type(content_type: &str) -> (r: bool)
    ensures
        r == html_like(content_type@),
{
    let m = media_type_of(content_type);
    let s = m.as_str();
    crate::text::str_eq(s, "text/html") || crate::text::str_eq(s, "application/xhtml+xml")
        || crate::text::str_eq(s, "application/xml") || crate::text::str_eq(s, "text/xml")
}

// ---------------------------------------------------------------------------
// Readable text
// ---------------------------------------------------------------------------

/// The views of one outer match: per inner match, its text nodes.
pub open spec fn group_views(g: Vec<Vec<String>>) -> Seq<Seq<Seq<char>>> {
    g@.map_values(|n: Vec<String>| crate::memory::inject::views_of(n@))
}

/// The views of all outer matches.
pub open spec fn groups_views(v: Seq<Vec<Vec<String>>>) -> Seq<Seq<Seq<Seq<char>>>> {
    v.map_values(|g: Vec<Vec<String>>| group_views(g))
}

/// For each element matching `outer` in the HTML document `html`, in
/// document order: for each element matching `inner` inside it, in document
/// order, that element's text nodes.
pub uninterp spec fn selected_text_nodes(html: Seq<char>, outer: Seq<char>, inner: Seq<char>) -> Seq<
    Seq<Seq<Seq<char>>>,
>;

/// The text nodes of the whole document, in document order.
pub uninterp spec fn root_text_nodes(html: Seq<char>) -> Seq<Seq<char>>;

/// `scraper`: parse the document and the two selectors, then for each
/// `outer` match the text nodes of each `inner` match within it, as they
/// come (an unparseable selector selects nothing). The result is named.
#[verifier::external_body]
fn select_text_nodes(html: &str, outer: &str, inner: &str) -> (r: Vec<Vec<Vec<String>>>)
    ensures
        groups_views(r@) == selected_text_nodes(html@, outer@, inner@),
{
    let doc = scraper::Html::parse_document(html);
    match (scraper::Selector::parse(outer), scraper::Selector::parse(inner)) {
        (Ok(o), Ok(i)) => doc.select(&o).map(|m| m.select(&i).map(|n| n.text().map(
            |t| t.to_string(),
        ).collect()).collect()).collect(),
        _ => Vec::new(),
    }
}

/// `scraper`: the text nodes of the parsed document's root element. Named.
#[verifier::external_body]
fn document_text_nodes(html: &str) -> (r: Vec<String>)
    ensures
        crate::memory::inject::views_of(r@) == root_text_nodes(html@),
{
    scraper::Html::parse_document(html).root_element().text().map(|t| t.to_string()).collect()
}

/// The text of each element of one outer match: its text nodes joined by
/// spaces.
pub open spec fn element_texts(group: Seq<Seq<Seq<char>>>) -> Seq<Seq<char>> {
    group.map_values(|nodes: Seq<Seq<char>>| crate::text::join(nodes, " "@))
}

/// The element texts of all outer matches, one after the other.
pub open spec fn all_element_texts(groups: Seq<Seq<Seq<Seq<char>>>>) -> Seq<Seq<char>>
    decreases groups.len(),
{
    if groups.len() == 0 {
        Seq::empty()
    } else {
        all_element_texts(groups.drop_last()) + element_texts(groups.last())
    }
}

fn element_text_list(group: &Vec<Vec<String>>) -> (r: Vec<String>)
    ensures
        crate::memory::inject::views_of(r@) == element_texts(group_views(*group)),
{
    let ghost g = group_views(*group);
    let mut out: Vec<String> = Vec::new();
    let mut j: usize = 0;
    while j < group.len()
        invariant
            j <= group@.len(),
            g == group_views(*group),
            crate::memory::inject::views_of(out@) == element_texts(g).take(j as int),
        decreases group@.len() - j,
    {
        let t = crate::memory::inject::join_strings(&group[j], " ");
        let ghost before = crate::memory::inject::views_of(out@);
        out.push(t);
        assert(crate::memory::inject::views_of(out@) =~= before.push(t@));
        assert(element_texts(g).take(j + 1) =~= element_texts(g).take(j as int).push(t@));
        j += 1;
    }
    assert(element_texts(g).take(j as int) =~= element_texts(g));
    out
}

fn all_element_text_list(groups: &Vec<Vec<Vec<String>>>) -> (r: Vec<String>)
    ensures
        crate::memory::inject::views_of(r@) == all_element_texts(groups_views(groups@)),
{
    let ghost gs = groups_views(groups@);
    let mut out: Vec<String> = Vec::new();
    let mut i: usize = 0;
    while i < groups.len()
        invariant
            i <= groups@.len(),
            gs == groups_views(groups@),
            crate::memory::inject::views_of(out@) == all_element_texts(gs.take(i as int)),
        decreases groups@.len() - i,
    {
        let part = element_text_list(&groups[i]);
        assert(gs.take(i + 1).drop_last() =~= gs.take(i as int));
        assert(gs.take(i + 1).last() == group_views(groups@[i as int]));
        let mut k: usize = 0;
        let ghost start = crate::memory::inject::views_of(out@);
        while k < part.len()
            invariant
                k <= part@.len(),
                crate::memory::inject::views_of(out@) == start + crate::memory::inject::views_of(
                    part@,
                ).take(k as int),
            decreases part@.len() - k,
        {
            let ghost before = crate::memory::inject::views_of(out@);
            out.push(part[k].clone());
            assert(crate::memory::inject::views_of(out@) =~= before.push(part@[k as int]@));
            assert(crate::memory::inject::views_of(part@).take(k + 1) =~= crate::memory::inject::views_of(
                part@,
            ).take(k as int).push(part@[k as int]@));
            k += 1;
        }
        assert(crate::memory::inject::views_of(part@).take(k as int) =~= crate::memory::inject::views_of(
            part@,
        ));
        i += 1;
    }
    assert(gs.take(i as int) =~= gs);
    out
}

/// The non-empty collapsed texts, in order.
pub open spec fn readable_chunks(texts: Seq<Seq<char>>) -> Seq<Seq<char>>
    decreases texts.len(),
{
    if texts.len() == 0 {
        Seq::empty()
    } else {
        let rest = readable_chunks(texts.drop_last());
        let c = collapse_ws(texts.last());
        if c.len() == 0 {
            rest
        } else {
            rest.push(c)
        }
    }
}

pub const ARTICLE_SELECTOR: &'static str = "article, main";

pub const PARAGRAPH_SELECTOR: &'static str = "p, h1, h2, h3, li, blockquote";

/// The readable text of an HTML page: the paragraphs of its articles; else
/// the paragraphs of its body; else all of its text, collapsed.
pub open spec fn readable_text(html: Seq<char>) -> Seq<char> {
    let a = readable_chunks(
        all_element_texts(selected_text_nodes(html, ARTICLE_SELECTOR@, PARAGRAPH_SELECTOR@)),
    );
    let body = selected_text_nodes(html, "body"@, PARAGRAPH_SELECTOR@);
    let b = if body.len() > 0 {
        readable_chunks(element_texts(body[0]))
    } else {
        Seq::empty()
    };
    if a.len() > 0 {
        crate::text::join(a, "\n"@)
    } else if b.len() > 0 {
        crate::text::join(b, "\n"@)
    } else {
        collapse_ws(crate::text::join(root_text_nodes(html), " "@))
    }
}

/// The non-empty texts after collapsing whitespace, in order.
pub open spec fn collapsed_nonempty(texts: Seq<Seq<char>>) -> Seq<Seq<char>> {
    texts.map_values(|t: Seq<char>| collapse_ws(t)).filter(|c: Seq<char>| c.len() > 0)
}

proof fn lemma_chunks_are_collapsed_nonempty(texts: Seq<Seq<char>>)
    ensures
        readable_chunks(texts) == collapsed_nonempty(texts),
    decreases texts.len(),
{
    reveal(Seq::filter);
    if texts.len() > 0 {
        lemma_chunks_are_collapsed_nonempty(texts.drop_last());
        let m = texts.map_values(|t: Seq<char>| collapse_ws(t));
        assert(m.drop_last() =~= texts.drop_last().map_values(|t: Seq<char>| collapse_ws(t)));
        assert(m.last() == collapse_ws(texts.last()));
    } else {
        assert(collapsed_nonempty(texts) =~= Seq::<Seq<char>>::empty());
    }
}

/// The paragraph texts of the page's articles (`article`, `main`), each
/// element's text nodes joined by spaces, in document order.
pub open spec fn article_paragraphs(html: Seq<char>) -> Seq<Seq<char>> {
    all_element_texts(selected_text_nodes(html, ARTICLE_SELECTOR@, PARAGRAPH_SELECTOR@))
}

/// The paragraph texts of the page's first `body`, if it has one.
pub open spec fn body_paragraphs(html: Seq<char>) -> Seq<Seq<char>> {
    let b = selected_text_nodes(html, "body"@, PARAGRAPH_SELECTOR@);
    if b.len() > 0 {
        element_texts(b[0])
    } else {
        Seq::empty()
    }
}

/// Articles win: when a page's articles hold a paragraph that is not blank,
/// its readable text is exactly the article paragraphs, whitespace
/// collapsed, blank ones left out, joined by newlines; paragraphs outside
/// the articles (navigation, footers) play no part. Only without such a
/// paragraph do the paragraphs of the body count, and only without those
/// all of the page's text.
pub proof fn lemma_article_paragraphs_win(html: Seq<char>)
    ensures
        collapsed_nonempty(article_paragraphs(html)).len() > 0 ==> readable_text(html)
            == crate::text::join(collapsed_nonempty(article_paragraphs(html)), "\n"@),
        collapsed_nonempty(article_paragraphs(html)).len() == 0 && collapsed_nonempty(
            body_paragraphs(html),
        ).len() > 0 ==> readable_text(html) == crate::text::join(
            collapsed_nonempty(body_paragraphs(html)),
            "\n"@,
        ),
        collapsed_nonempty(article_paragraphs(html)).len() == 0 && collapsed_nonempty(
            body_paragraphs(html),
        ).len() == 0 ==> readable_text(html) == collapse_ws(
            crate::text::join(root_text_nodes(html), " "@),
        ),
{
    lemma_chunks_are_collapsed_nonempty(article_paragraphs(html));
    lemma_chunks_are_collapsed_nonempty(body_paragraphs(html));
    let b = selected_text_nodes(html, "body"@, PARAGRAPH_SELECTOR@);
    if b.len() == 0 {
        assert(collapsed_nonempty(Seq::<Seq<char>>::empty()) =~= Seq::<Seq<char>>::empty()) by {
            reveal(Seq::filter);
        }
        assert(readable_chunks(Seq::<Seq<char>>::empty()) =~= Seq::<Seq<char>>::empty());
    }
}

/// Two pages whose articles hold the same paragraphs, one of them not
/// blank, read the same, whatever else they hold.
pub proof fn lemma_readable_text_depends_on_articles_only(a: Seq<char>, b: Seq<char>)
    requires
        article_paragraphs(a) == article_paragraphs(b),
        collapsed_nonempty(article_paragraphs(a)).len() > 0,
    ensures
        readable_text(a) == readable_text(b),
{
    lemma_article_paragraphs_win(a);
    lemma_article_paragraphs_win(b);
}

fn chunks_of(texts: &Vec<String>) -> (r: Vec<String>)
    ensures
        crate::memory::inject::views_of(r@) == readable_chunks(
            crate::memory::inject::views_of(texts@),
        ),
{
    let ghost all = crate::memory::inject::views_of(texts@);
    let mut out: Vec<String> = Vec::new();
    let mut i: usize = 0;
    while i < texts.len()
        invariant
            i <= texts@.len(),
            all == crate::memory::inject::views_of(texts@),
            crate::memory::inject::views_of(out@) == readable_chunks(all.take(i as int)),
        decreases texts@.len() - i,
    {
        assert(all.take(i + 1).drop_last() =~= all.take(i as int));
        let c = crate::text::collapse_whitespace(texts[i].as_str());
        if crate::text::chars_of(c.as_str()).len() > 0 {
            let ghost before = crate::memory::inject::views_of(out@);
            out.push(c);
            assert(crate::memory::inject::views_of(out@) =~= before.push(c@));
        }
        i += 1;
    }
    assert(all.take(i as int) =~= all);
    out
}

pub fn extract_readable_text(html: &str) -> (r: String)
    ensures
        r@ == readable_text(html@),
{
    let articles = select_text_nodes(html, ARTICLE_SELECTOR, PARAGRAPH_SELECTOR);
    let a = chunks_of(&all_element_text_list(&articles));
    if a.len() > 0 {
        return crate::memory::inject::join_strings(&a, "\n");
    }
    let body = select_text_nodes(html, "body", PARAGRAPH_SELECTOR);
    let b = if body.len() > 0 {
        proof {
            assert(groups_views(body@)[0] == group_views(body@[0]));
        }
        chunks_of(&element_text_list(&body[0]))
    } else {
        Vec::new()
    };
    if b.len() > 0 {
        return crate::memory::inject::join_strings(&b, "\n");
    }
    let nodes = document_text_nodes(html);
    let all = crate::memory::inject::join_strings(&nodes, " ");
    crate::text::collapse_whitespace(all.as_str())
}

/// `String::from_utf8_lossy(bytes)`: invalid sequences become U+FFFD.
pub uninterp spec fn lossy_text(bytes: Seq<u8>) -> Seq<char>;

/// `String::from_utf8_lossy`; the result is named.
#[verifier::external_body]
fn utf8_lossy(bytes: &[u8]) -> (r: String)
    ensures
        r@ == lossy_text(bytes@),
{
    String::from_utf8_lossy(bytes).to_string()
}

/// The text of a text-bucket body: readable text for HTML-like types,
/// collapsed whitespace otherwise; nothing readable is an error.
pub open spec fn text_payload_spec(content_type: Seq<char>, body: Seq<u8>) -> Option<Seq<char>> {
    let text = lossy_text(body);
    let t = if html_like(content_type) {
        readable_text(text)
    } else {
        collapse_ws(text)
    };
    if t.len() == 0 {
        None
    } else {
        Some(t)
    }
}

pub fn text_payload(content_type: &str, body: &Vec<u8>) -> (r: Result<String, FetchError>)
    ensures
        match text_payload_spec(content_type@, body@) {
            Some(t) => r matches Ok(s) && s@ == t,
            None => r == Err::<String, FetchError>(FetchError::NoReadableContent),
        },
{
    let text = utf8_lossy(body.as_slice());
    let t = if is_html_content_type(content_type) {
        extract_readable_text(text.as_str())
    } else {
        crate::text::collapse_whitespace(text.as_str())
    };
    if crate::text::chars_of(t.as_str()).len() == 0 {
        Err(FetchError::NoReadableContent)
    } else {
        Ok(t)
    }
}

/// A fetched body: extracted text for the text bucket, raw bytes otherwise.
#[derive(Debug, Clone)]
pub enum Payload {
    Text(String),
    Bytes(Vec<u8>),
}

#[derive(Debug, Clone)]
pub struct FetchedContent {
    pub url: String,
    pub bucket: Bucket,
    /// The MIME type, used as a data-URL prefix or for display.
    pub content_type: String,
    pub payload: Payload,
}

/// The checks after a body was read: its bucket is known (`bucket` is what
/// the content sniffing said), it is within that bucket's cap, and a text
/// body has readable content.
pub fn finish_fetch(
    raw_url: &str,
    header_ct: String,
    body: Vec<u8>,
    bucket: Option<Bucket>,
    caps: &BucketCaps,
) -> (r: Result<FetchedContent, FetchError>)
    ensures
        match bucket {
            None => r == Err::<FetchedContent, FetchError>(FetchError::UnsupportedContentType),
            Some(b) => if body@.len() > cap_of(*caps, b) {
                r == Err::<FetchedContent, FetchError>(FetchError::TooLarge)
            } else {
                let ct = picked_content_type(header_ct@, body@);
                match r {
                    Ok(f) => f.url@ == raw_url@ && f.bucket == b && f.content_type@ == ct && (
                    header_ct@.len() > 0 ==> f.content_type == header_ct) && (b == Bucket::Text
                        ==> (f.payload matches Payload::Text(t) && text_payload_spec(ct, body@)
                        == Some(t@))) && (b != Bucket::Text ==> (f.payload matches Payload::Bytes(
                        v,
                    ) && v@ == body@)),
                    Err(e) => b == Bucket::Text && e == FetchError::NoReadableContent
                        && text_payload_spec(ct, body@) is None,
                }
            },
        },
{
    let b = match bucket {
        Some(b) => b,
        None => return Err(FetchError::UnsupportedContentType),
    };
    if body.len() as u64 > caps.cap_for(b) {
        return Err(FetchError::TooLarge);
    }
    let content_type = pick_content_type(header_ct, &body);
    let payload = match b {
        Bucket::Text => match text_payload(content_type.as_str(), &body) {
            Ok(t) => Payload::Text(t),
            Err(e) => return Err(e),
        },
        _ => Payload::Bytes(body),
    };
    Ok(FetchedContent { url: String::from_str(raw_url), bucket: b, content_type, payload })
}

// ---------------------------------------------------------------------------
// Executor payloads
// ---------------------------------------------------------------------------

/// The error code of a failed fetch, from its (lower-cased) message.
pub open spec fn fetch_error_code(msg: Seq<char>) -> Seq<char> {
    let m = ascii_lower(msg);
    if crate::text::contains(m, "blocked"@) {
        "fetch_blocked"@
    } else if crate::text::contains(m, "too large"@) {
        "payload_too_large"@
    } else if crate::text::contains(m, "unsupported"@) {
        "unsupported_content_type"@
    } else if crate::text::contains(m, "timed out"@) {
        "fetch_timeout"@
    } else {
        "fetch_failed"@
    }
}

pub fn map_fetch_err(msg: &str) -> (r: &'static str)
    ensures
        r@ == fetch_error_code(msg@),
{
    let m = crate::text::to_ascii_lowercase(msg);
    if crate::text::str_contains(m.as_str(), "blocked") {
        "fetch_blocked"
    } else if crate::text::str_contains(m.as_str(), "too large") {
        "payload_too_large"
    } else if crate::text::str_contains(m.as_str(), "unsupported") {
        "unsupported_content_type"
    } else if crate::text::str_contains(m.as_str(), "timed out") {
        "fetch_timeout"
    } else {
        "fetch_failed"
    }
}

/// The error code of a failed media analysis.
pub fn map_media_err(msg: &str) -> (r: &'static str)
    ensures
        r@ == (if crate::text::contains(ascii_lower(msg@), "timed out"@) {
            "analysis_timeout"@
        } else {
            "analysis_failed"@
        }),
{
    let m = crate::text::to_ascii_lowercase(msg);
    if crate::text::str_contains(m.as_str(), "timed out") {
        "analysis_timeout"
    } else {
        "analysis_failed"
    }
}

/// The error code of a failed search: a timeout anywhere in the cause chain.
pub fn search_error_code(causes: &Vec<String>) -> (r: &'static str)
    ensures
        r@ == (if exists|i: int|
            0 <= i < causes@.len() && crate::text::contains(
                ascii_lower(#[trigger] causes@[i]@),
                "timed out"@,
            ) {
            "search_timeout"@
        } else {
            "search_failed"@
        }),
{
    let mut i: usize = 0;
    while i < causes.len()
        invariant
            i <= causes@.len(),
            forall|j: int|
                0 <= j < i ==> !crate::text::contains(
                    ascii_lower(#[trigger] causes@[j]@),
                    "timed out"@,
                ),
        decreases causes@.len() - i,
    {
        let m = crate::text::to_ascii_lowercase(causes[i].as_str());
        if crate::text::str_contains(m.as_str(), "timed out") {
            return "search_timeout";
        }
        i += 1;
    }
    "search_failed"
}

/// The lowercase hexadecimal digit of `n` (`0 <= n < 16`).
pub open spec fn lower_hex_digit(n: int) -> char {
    if n < 10 {
        (n + 48) as char
    } else {
        (n + 87) as char
    }
}

/// How serde_json writes one character inside a string literal: `"` and
/// `\` get a backslash, backspace, form feed, newline, carriage return and
/// tab their short escapes, other characters below U+0020 `\u00xx` with
/// lowercase hex digits, and everything else stands as it is.
pub open spec fn json_escape_char(c: char) -> Seq<char> {
    if c == '"' {
        seq!['\\', '"']
    } else if c == '\\' {
        seq!['\\', '\\']
    } else if c == '\u{8}' {
        seq!['\\', 'b']
    } else if c == '\u{c}' {
        seq!['\\', 'f']
    } else if c == '\n' {
        seq!['\\', 'n']
    } else if c == '\r' {
        seq!['\\', 'r']
    } else if c == '\t' {
        seq!['\\', 't']
    } else if (c as int) < 0x20 {
        seq!['\\', 'u', '0', '0', lower_hex_digit((c as int) / 16), lower_hex_digit((c as int) % 16)]
    } else {
        seq![c]
    }
}

/// `s` with every character escaped as in [`json_escape_char`].
pub open spec fn json_escape(s: Seq<char>) -> Seq<char>
    decreases s.len(),
{
    if s.len() == 0 {
        Seq::empty()
    } else {
        json_escape(s.drop_last()) + json_escape_char(s.last())
    }
}

/// The JSON string literal of `s`.
pub open spec fn json_quoted(s: Seq<char>) -> Seq<char> {
    seq!['"'] + json_escape(s) + seq!['"']
}

/// `serde_json::Value::String(s).to_string()`: `s` in double quotes, each
/// character escaped as serde_json's compact formatter does.
#[verifier::external_body]
pub(crate) fn json_string(s: &str) -> (r: String)
    ensures
        r@ == json_quoted(s@),
{
    serde_json::Value::String(s.to_string()).to_string()
}

/// `{"details":…,"error":…}`, keys in serde_json's sorted order.
pub fn error_payload(code: &str, details: &str) -> (r: String)
    ensures
        r@ == "{\"details\":"@ + json_quoted(details@) + ",\"error\":"@ + json_quoted(code@)
            + "}"@,
{
    let mut s = String::from_str("{\"details\":");
    crate::text::append(&mut s, json_string(details).as_str());
    crate::text::append(&mut s, ",\"error\":");
    crate::text::append(&mut s, json_string(code).as_str());
    crate::text::append(&mut s, "}");
    s
}

/// Why a tool call's arguments could not be used: the provider sent text
/// that is not JSON, or JSON of the wrong shape.
#[derive(Debug, Clone, PartialEq, Eq)]
pub enum ToolArgsError {
    Provider { error: String, raw: String },
    Deserialize { error: String },
}

/// The payload answering unusable arguments, keys in serde_json's sorted
/// order.
pub fn args_error_payload(tool: &str, err: &ToolArgsError) -> (r: String)
    ensures
        r@ == match err {
            ToolArgsError::Provider { error, raw } => "{\"details\":"@ + json_quoted(error@)
                + ",\"error\":\"invalid_arguments_json\",\"raw\":"@ + json_quoted(raw@)
                + ",\"tool\":"@ + json_quoted(tool@) + "}"@,
            ToolArgsError::Deserialize { error } => "{\"details\":"@ + json_quoted(error@)
                + ",\"error\":\"invalid_arguments\",\"tool\":"@ + json_quoted(tool@) + "}"@,
        },
{
    match err {
        ToolArgsError::Provider { error, raw } => {
            let mut s = String::from_str("{\"details\":");
            crate::text::append(&mut s, json_string(error.as_str()).as_str());
            crate::text::append(&mut s, ",\"error\":\"invalid_arguments_json\",\"raw\":");
            crate::text::append(&mut s, json_string(raw.as_str()).as_str());
            crate::text::append(&mut s, ",\"tool\":");
            crate::text::append(&mut s, json_string(tool).as_str());
            crate::text::append(&mut s, "}");
            s
        },
        ToolArgsError::Deserialize { error } => {
            let mut s = String::from_str("{\"details\":");
            crate::text::append(&mut s, json_string(error.as_str()).as_str());
            crate::text::append(&mut s, ",\"error\":\"invalid_arguments\",\"tool\":");
            crate::text::append(&mut s, json_string(tool).as_str());
            crate::text::append(&mut s, "}");
            s
        },
    }
}

/// What the chat-history tool answers when its arguments are unusable.
pub fn history_args_error_text(tool: &str, err: &ToolArgsError) -> (r: String)
    ensures
        r@ == match err {
            ToolArgsError::Provider { error, raw } => "Error: tool '"@ + tool@
                + "' arguments were not valid JSON ("@ + error@ + "). Raw text: "@ + raw@,
            ToolArgsError::Deserialize { error } => "Error: tool '"@ + tool@
                + "' arguments were the wrong shape ("@ + error@ + ")"@,
        },
{
    match err {
        ToolArgsError::Provider { error, raw } => {
            let mut s = String::from_str("Error: tool '");
            crate::text::append(&mut s, tool);
            crate::text::append(&mut s, "' arguments were not valid JSON (");
            crate::text::append(&mut s, error.as_str());
            crate::text::append(&mut s, "). Raw text: ");
            crate::text::append(&mut s, raw.as_str());
            s
        },
        ToolArgsError::Deserialize { error } => {
            let mut s = String::from_str("Error: tool '");
            crate::text::append(&mut s, tool);
            crate::text::append(&mut s, "' arguments were the wrong shape (");
            crate::text::append(&mut s, error.as_str());
            crate::text::append(&mut s, ")");
            s
        },
    }
}

/// `{"error":"unknown_tool","tool":…}`.
pub fn unknown_tool_payload(tool: &str) -> (r: String)
    ensures
        r@ == "{\"error\":\"unknown_tool\",\"tool\":"@ + json_quoted(tool@) + "}"@,
{
    let mut s = String::from_str("{\"error\":\"unknown_tool\",\"tool\":");
    crate::text::append(&mut s, json_string(tool).as_str());
    crate::text::append(&mut s, "}");
    s
}

/// The results a search may return under the current settings: the web
/// block's limit, or 5.
pub fn current_max_results(s: &Settings) -> (r: usize)
    ensures
        r == (match s.ai.web {
            Some(w) => w.max_results,
            None => 5,
        }),
{
    match &s.ai.web {
        Some(w) => w.max_results,
        None => 5,
    }
}

/// A validated search request.
pub struct SearchPlan {
    pub query: String,
    pub max_results: usize,
    pub cache_key: String,
}

/// Checks a `web_search` call: the trimmed query must be non-empty; the
/// result count is the request (or the live limit) clamped to
/// `1..=live_max`; the cache key is the normalized query and the count.
pub fn plan_web_search(query: &str, requested: Option<usize>, live_max: usize) -> (r: Result<
    SearchPlan,
    String,
>)
    requires
        live_max >= 1,
    ensures
        trim(query@).len() == 0 ==> (r matches Err(e) && e@ == "{\"details\":"@ + json_quoted(
            "query cannot be empty"@,
        ) + ",\"error\":"@ + json_quoted("invalid_arguments"@) + "}"@),
        trim(query@).len() > 0 ==> (r matches Ok(p) && p.query@ == trim(query@) && p.max_results
            == (match requested {
            Some(n) => if n < 1 {
                1
            } else if n > live_max {
                live_max
            } else {
                n
            },
            None => live_max,
        }) && p.cache_key@ == collapse_ws(trim(query@)) + "::"@ + decimal(p.max_results as nat)),
{
    let q = crate::text::trimmed(query);
    if crate::text::chars_of(q.as_str()).len() == 0 {
        return Err(error_payload("invalid_arguments", "query cannot be empty"));
    }
    let want = match requested {
        Some(n) => n,
        None => live_max,
    };
    let effective = if want < 1 {
        1
    } else if want > live_max {
        live_max
    } else {
        want
    };
    let mut key = normalize_query(q.as_str());
    crate::text::append(&mut key, "::");
    crate::text::append(&mut key, crate::text::decimal_string(effective as u64).as_str());
    Ok(SearchPlan { query: q, max_results: effective, cache_key: key })
}

/// The cache key of a `read_url` call: the normalized URL and the
/// lower-cased instruction (trimmed; empty when absent or blank).
pub fn read_cache_key(url: &str, instruction: &Option<String>) -> (r: (Option<String>, String))
    ensures
        opt_view(r.0) == (match *instruction {
            Some(i) => if trim(i@).len() == 0 {
                None
            } else {
                Some(trim(i@))
            },
            None => None,
        }),
        r.1@ == ascii_lower(trim(url@)) + "::"@ + ascii_lower(
            match opt_view(r.0) {
                Some(i) => i,
                None => Seq::<char>::empty(),
            },
        ),
{
    let instr = match instruction {
        Some(i) => {
            let t = crate::text::trimmed(i.as_str());
            if crate::text::chars_of(t.as_str()).len() == 0 {
                None
            } else {
                Some(t)
            }
        },
        None => None,
    };
    let mut key = normalize_url(url);
    crate::text::append(&mut key, "::");
    match &instr {
        Some(i) => crate::text::append(
            &mut key,
            crate::text::to_ascii_lowercase(i.as_str()).as_str(),
        ),
        None => {
            let e = crate::text::to_ascii_lowercase("");
            proof {
                reveal_strlit("");
            }
            crate::text::append(&mut key, e.as_str());
        },
    }
    (instr, key)
}

} // verus!
