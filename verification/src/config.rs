//! Bootstrap configuration read from `config.toml`, and its validation.
//!
//! Secrets are held as their plain text here; durations as whole seconds.
//! `validate_config` reports the first violated rule, in a fixed order, with
//! the message the bot prints before it refuses to start.
use vstd::prelude::*;

use crate::settings::validate::{debug_quoted, debug_string, parses_as_url, url_parses};
use crate::text::{
    all_digits, blank, decimal, decimal_string, decimal_value, find_chars, chars_of, is_ascii_hexdigit,
    is_ascii_digit, is_blank, occurs_at, opt_view, parse_decimal, starts_with, str_starts_with, hex_val,
};

verus! {

#[derive(Debug, Clone)]
pub struct TwitchConfiguration {
    pub channel: String,
    pub username: String,
    pub refresh_token: String,
    pub client_id: String,
    pub client_secret: String,
    pub expected_latency: u32,
    pub hidden_admins: Vec<String>,
    /// Twitch user IDs granted read-only viewer access to the dashboard.
    pub viewer_allowlist: Vec<String>,
    /// Twitch user ID granted full dashboard access, settings included.
    pub owner: Option<String>,
    pub admin_channel: Option<String>,
    pub ai_channel: Option<String>,
}

#[derive(Debug, Clone)]
pub struct AviationstackConfig {
    pub enabled: bool,
    pub api_key: String,
    pub base_url: String,
    pub timeout_secs: u64,
}

/// Bootstrap-only AI configuration: the API key. Every other AI knob lives
/// in the dashboard settings.
#[derive(Debug, Clone)]
pub struct AiBootstrap {
    pub api_key: String,
}

#[derive(Debug, Clone)]
pub struct SuspendConfig {
    pub default_duration_secs: u64,
}

/// A scheduled message.
#[derive(Debug, Clone)]
pub struct ScheduleConfig {
    pub name: String,
    pub message: String,
    /// Interval in `hh:mm` form (`"01:30"` is one hour thirty minutes).
    pub interval: String,
    /// Start date, ISO 8601 (`YYYY-MM-DDTHH:MM:SS`).
    pub start_date: Option<String>,
    /// End date, ISO 8601 (`YYYY-MM-DDTHH:MM:SS`).
    pub end_date: Option<String>,
    /// Daily active window start, `HH:MM`.
    pub active_time_start: Option<String>,
    /// Daily active window end, `HH:MM`.
    pub active_time_end: Option<String>,
    pub enabled: bool,
}

#[derive(Debug, Clone)]
pub struct WebConfig {
    pub enabled: bool,
    pub bind_addr: String,
    pub public_url: String,
    /// Hex-encoded signing key.
    pub session_secret: String,
    pub session_ttl_secs: u64,
    pub mod_check_refresh_secs: u64,
}

#[derive(Debug, Clone)]
pub struct Configuration {
    pub twitch: TwitchConfiguration,
    pub aviationstack: Option<AviationstackConfig>,
    pub suspend: SuspendConfig,
    pub ai: Option<AiBootstrap>,
    pub schedules: Vec<ScheduleConfig>,
    pub web: WebConfig,
}

// ---------------------------------------------------------------------------
// Defaults of optional keys
// ---------------------------------------------------------------------------

pub fn default_expected_latency() -> (r: u32)
    ensures
        r == 100,
{
    100
}

pub fn default_aviationstack_base_url() -> (r: String)
    ensures
        r@ == "https://api.aviationstack.com/v1"@,
{
    String::from_str("https://api.aviationstack.com/v1")
}

pub fn default_aviationstack_timeout_secs() -> (r: u64)
    ensures
        r == 5,
{
    5
}

pub fn default_suspend_duration() -> (r: u64)
    ensures
        r == 600,
{
    600
}

pub fn default_enabled() -> (r: bool)
    ensures
        r,
{
    true
}

pub fn default_web_bind() -> (r: String)
    ensures
        r@ == "127.0.0.1:8080"@,
{
    String::from_str("127.0.0.1:8080")
}

/// Seven days, in seconds.
pub fn default_session_ttl() -> (r: u64)
    ensures
        r == 7 * 24 * 60 * 60,
{
    7 * 24 * 60 * 60
}

pub fn default_mod_check_refresh() -> (r: u64)
    ensures
        r == 300,
{
    300
}

/// The chat-log service history prefill reads from by default.
pub fn default_base_url() -> (r: String)
    ensures
        r@ == "https://logs.zonian.dev"@,
{
    String::from_str("https://logs.zonian.dev")
}

/// The default prefill threshold 0.5, as the bit pattern of its `f64`.
pub fn default_threshold() -> (r: u64)
    ensures
        r == crate::settings::THRESHOLD_HALF_BITS,
{
    crate::settings::THRESHOLD_HALF_BITS
}

impl Default for SuspendConfig {
    fn default() -> (r: Self)
        ensures
            r.default_duration_secs == 600,
    {
        SuspendConfig { default_duration_secs: default_suspend_duration() }
    }
}

impl Default for WebConfig {
    fn default() -> (r: Self)
        ensures
            !r.enabled,
            r.bind_addr@ == "127.0.0.1:8080"@,
            r.public_url@ == Seq::<char>::empty(),
            r.session_secret@ == Seq::<char>::empty(),
            r.session_ttl_secs == 604800,
            r.mod_check_refresh_secs == 300,
    {
        WebConfig {
            enabled: false,
            bind_addr: default_web_bind(),
            public_url: String::new(),
            session_secret: String::new(),
            session_ttl_secs: default_session_ttl(),
            mod_check_refresh_secs: default_mod_check_refresh(),
        }
    }
}

impl Configuration {
    /// A minimal configuration: channel `test_chan`, user `bot`, no AI,
    /// no schedules, web off.
    pub fn test_default() -> (r: Self)
        ensures
            r.twitch.channel@ == "test_chan"@,
            r.twitch.username@ == "bot"@,
            r.twitch.refresh_token@ == "test"@,
            r.twitch.client_id@ == "test"@,
            r.twitch.client_secret@ == "test"@,
            r.twitch.expected_latency == 100,
            r.twitch.hidden_admins@.len() == 0,
            r.twitch.viewer_allowlist@.len() == 0,
            r.twitch.owner is None,
            r.twitch.admin_channel is None,
            r.twitch.ai_channel is None,
            r.aviationstack is None,
            r.suspend.default_duration_secs == 600,
            r.ai is None,
            r.schedules@.len() == 0,
            !r.web.enabled,
            r.web.bind_addr@ == "127.0.0.1:8080"@,
            r.web.public_url@ == Seq::<char>::empty(),
            r.web.session_secret@ == Seq::<char>::empty(),
            r.web.session_ttl_secs == 604800,
            r.web.mod_check_refresh_secs == 300,
    {
        Configuration {
            twitch: TwitchConfiguration {
                channel: String::from_str("test_chan"),
                username: String::from_str("bot"),
                refresh_token: String::from_str("test"),
                client_id: String::from_str("test"),
                client_secret: String::from_str("test"),
                expected_latency: 100,
                hidden_admins: Vec::new(),
                viewer_allowlist: Vec::new(),
                owner: None,
                admin_channel: None,
                ai_channel: None,
            },
            aviationstack: None,
            suspend: SuspendConfig::default(),
            ai: None,
            schedules: Vec::new(),
            web: WebConfig::default(),
        }
    }
}

// ---------------------------------------------------------------------------
// Hex decoding of the session secret
// ---------------------------------------------------------------------------

#[verifier::external_type_specification]
#[verifier::external_body]
pub struct ExFromHexError(hex::FromHexError);

/// `hex::decode(s)`: two hex digits (either case) per byte. It fails on an
/// odd length and on any other character; otherwise byte `i` is the value of
/// digits `2i` and `2i + 1`.
#[verifier::external_body]
fn hex_decode(s: &str) -> (r: Result<Vec<u8>, hex::FromHexError>)
    ensures
        r is Ok <==> is_hex_text(s@),
        r matches Ok(b) ==> b@.len() * 2 == s@.len() && forall|i: int|
            0 <= i < b@.len() ==> #[trigger] b@[i] == hex_val(s@[2 * i]) * 16 + hex_val(
                s@[2 * i + 1],
            ),
{
    hex::decode(s)
}

/// An even number of hex digits.
pub open spec fn is_hex_text(s: Seq<char>) -> bool {
    s.len() % 2 == 0 && forall|i: int| 0 <= i < s.len() ==> is_ascii_hexdigit(#[trigger] s[i])
}

/// How many bytes `hex::decode` gives for `s`, counting a failure as none.
pub open spec fn hex_byte_len(s: Seq<char>) -> nat {
    if is_hex_text(s) {
        s.len() / 2
    } else {
        0
    }
}

fn decoded_len(s: &str) -> (r: usize)
    ensures
        r == hex_byte_len(s@),
{
    match hex_decode(s) {
        Ok(b) => b.len(),
        Err(_) => 0,
    }
}

// ---------------------------------------------------------------------------
// Schedule intervals
// ---------------------------------------------------------------------------

/// A non-empty run of digits whose value fits in a `u64`.
pub open spec fn number_text(d: Seq<char>) -> bool {
    d.len() > 0 && all_digits(d) && decimal_value(d) <= u64::MAX
}

/// `hours:minutes`, both decimal numbers, minutes below sixty.
pub open spec fn interval_ok(s: Seq<char>) -> bool {
    exists|k: int|
        0 <= k < s.len() && s[k] == ':' && number_text(#[trigger] s.take(k)) && number_text(
            s.skip(k + 1),
        ) && decimal_value(s.skip(k + 1)) < 60
}

/// The witness body of `interval_ok`.
pub open spec fn interval_split_at(s: Seq<char>, k: int) -> bool {
    0 <= k < s.len() && s[k] == ':' && number_text(s.take(k)) && number_text(s.skip(k + 1))
        && decimal_value(s.skip(k + 1)) < 60
}

proof fn lemma_interval_ok_witness(s: Seq<char>)
    requires
        interval_ok(s),
    ensures
        exists|k: int| interval_split_at(s, k),
{
    let k = choose|k: int|
        0 <= k < s.len() && s[k] == ':' && number_text(#[trigger] s.take(k)) && number_text(
            s.skip(k + 1),
        ) && decimal_value(s.skip(k + 1)) < 60;
    assert(interval_split_at(s, k));
}

/// Whether `interval` is a valid `hh:mm` schedule interval.
pub fn parse_interval_ok(interval: &str) -> (r: bool)
    ensures
        r == interval_ok(interval@),
{
    let cs = chars_of(interval);
    let mut colon: Vec<char> = Vec::new();
    colon.push(':');
    let ghost s = interval@;
    let k = match find_chars(&cs, &colon) {
        Some(k) => k,
        None => {
            proof {
                if interval_ok(s) {
                    lemma_interval_ok_witness(s);
                    let j = choose|j: int| interval_split_at(s, j);
                    assert(s.subrange(j, j + 1) =~= colon@);
                    assert(occurs_at(cs@, colon@, j));
                }
            }
            return false;
        },
    };
    assert(cs@[k as int] == ':') by {
        assert(cs@.subrange(k as int, k + 1) =~= colon@);
        assert(cs@.subrange(k as int, k + 1)[0] == cs@[k as int]);
    }
    let hours = parse_decimal(&cs, 0, k);
    let minutes = parse_decimal(&cs, k + 1, cs.len());
    assert(cs@.subrange(0, k as int) =~= s.take(k as int));
    assert(cs@.subrange(k + 1, cs.len() as int) =~= s.skip(k + 1));
    let ok = match (hours, minutes) {
        (Some(_), Some(m)) => m < 60,
        _ => false,
    };
    proof {
        if ok {
            assert(interval_split_at(s, k as int));
            assert(number_text(s.take(k as int)));
        } else if interval_ok(s) {
            lemma_interval_ok_witness(s);
            let j = choose|j: int| interval_split_at(s, j);
            if j < k {
                assert(s.subrange(j, j + 1) =~= colon@);
                assert(occurs_at(cs@, colon@, j));
            } else if j > k {
                assert(s.take(j)[k as int] == ':');
                assert(!is_ascii_digit(s.take(j)[k as int]));
            }
        }
    }
    ok
}

// ---------------------------------------------------------------------------
// The rules
// ---------------------------------------------------------------------------

pub open spec fn first(a: Option<Seq<char>>, b: Option<Seq<char>>) -> Option<Seq<char>> {
    if a is Some {
        a
    } else {
        b
    }
}

pub open spec fn fail_if(cond: bool, msg: Seq<char>) -> Option<Seq<char>> {
    if cond {
        Some(msg)
    } else {
        None
    }
}

pub open spec fn twitch_error(t: TwitchConfiguration) -> Option<Seq<char>> {
    first(
        fail_if(blank(t.channel@), "twitch.channel cannot be empty"@),
        first(
            fail_if(blank(t.username@), "twitch.username cannot be empty"@),
            first(
                fail_if(
                    t.expected_latency > 1000,
                    "twitch.expected_latency must be <= 1000ms (got "@ + decimal(
                        t.expected_latency as nat,
                    ) + ")"@,
                ),
                first(admin_channel_error(t), ai_channel_error(t)),
            ),
        ),
    )
}

pub open spec fn admin_channel_error(t: TwitchConfiguration) -> Option<Seq<char>> {
    match t.admin_channel {
        None => None,
        Some(a) => first(
            fail_if(blank(a@), "twitch.admin_channel cannot be empty when specified"@),
            fail_if(
                a@ == t.channel@,
                "twitch.admin_channel must be different from twitch.channel"@,
            ),
        ),
    }
}

pub open spec fn ai_channel_error(t: TwitchConfiguration) -> Option<Seq<char>> {
    match t.ai_channel {
        None => None,
        Some(x) => first(
            fail_if(blank(x@), "twitch.ai_channel cannot be empty when specified"@),
            first(
                fail_if(x@ == t.channel@, "twitch.ai_channel must be different from twitch.channel"@),
                fail_if(
                    t.admin_channel matches Some(a) && x@ == a@,
                    "twitch.ai_channel must be different from twitch.admin_channel"@,
                ),
            ),
        ),
    }
}

pub open spec fn suspend_error(s: SuspendConfig) -> Option<Seq<char>> {
    fail_if(
        s.default_duration_secs < 1 || s.default_duration_secs > 604800,
        "suspend.default_duration_secs must be between 1 and 604800 (7 days) (got "@ + decimal(
            s.default_duration_secs as nat,
        ) + ")"@,
    )
}

pub open spec fn aviationstack_error(o: Option<AviationstackConfig>) -> Option<Seq<char>> {
    match o {
        None => None,
        Some(a) => first(
            fail_if(
                a.enabled && blank(a.api_key@),
                "aviationstack.api_key cannot be empty when aviationstack is enabled"@,
            ),
            first(
                fail_if(blank(a.base_url@), "aviationstack.base_url cannot be empty"@),
                first(
                    fail_if(
                        !url_parses(a.base_url@),
                        "aviationstack.base_url must be a valid URL (got "@ + debug_quoted(
                            a.base_url@,
                        ) + ")"@,
                    ),
                    fail_if(a.timeout_secs == 0, "aviationstack.timeout_secs must be > 0"@),
                ),
            ),
        ),
    }
}

pub open spec fn ai_bootstrap_error(o: Option<AiBootstrap>) -> Option<Seq<char>> {
    fail_if(o matches Some(b) && blank(b.api_key@), "ai.api_key cannot be empty"@)
}

pub open spec fn schedule_error(s: ScheduleConfig) -> Option<Seq<char>> {
    first(
        fail_if(blank(s.name@), "Schedule name cannot be empty"@),
        first(
            fail_if(blank(s.message@), "Schedule '"@ + s.name@ + "' message cannot be empty"@),
            first(
                fail_if(
                    blank(s.interval@),
                    "Schedule '"@ + s.name@ + "' interval cannot be empty"@,
                ),
                fail_if(
                    !interval_ok(s.interval@),
                    "Schedule '"@ + s.name@ + "' has invalid interval format"@,
                ),
            ),
        ),
    )
}

/// The first failing schedule's message.
pub open spec fn schedules_error(s: Seq<ScheduleConfig>) -> Option<Seq<char>>
    decreases s.len(),
{
    if s.len() == 0 {
        None
    } else {
        first(schedule_error(s[0]), schedules_error(s.drop_first()))
    }
}

pub open spec fn web_error(w: WebConfig) -> Option<Seq<char>> {
    if !w.enabled {
        None
    } else {
        first(
            fail_if(
                hex_byte_len(w.session_secret@) < 32,
                "web.session_secret must be ≥32 bytes hex when web.enabled = true"@,
            ),
            first(
                fail_if(
                    !starts_with(w.public_url@, "https://"@),
                    "web.public_url must start with https:// when web.enabled = true (got "@
                        + debug_quoted(w.public_url@) + ")"@,
                ),
                first(
                    fail_if(
                        w.session_ttl_secs < 3600 || w.session_ttl_secs > 2592000,
                        "web.session_ttl must be between 1h and 30d (got "@ + decimal(
                            w.session_ttl_secs as nat,
                        ) + "s)"@,
                    ),
                    fail_if(
                        w.mod_check_refresh_secs < 30 || w.mod_check_refresh_secs > 3600,
                        "web.mod_check_refresh must be between 30s and 1h (got "@ + decimal(
                            w.mod_check_refresh_secs as nat,
                        ) + "s)"@,
                    ),
                ),
            ),
        )
    }
}

/// The first rule `c` breaks, as the message that reports it.
pub open spec fn config_error(c: Configuration) -> Option<Seq<char>> {
    first(
        twitch_error(c.twitch),
        first(
            suspend_error(c.suspend),
            first(
                aviationstack_error(c.aviationstack),
                first(
                    ai_bootstrap_error(c.ai),
                    first(schedules_error(c.schedules@), web_error(c.web)),
                ),
            ),
        ),
    )
}

// ---------------------------------------------------------------------------
// Checking
// ---------------------------------------------------------------------------

/// `a + b + c` as a `String`.
fn join3(a: &str, b: &str, c: &str) -> (r: String)
    ensures
        r@ == a@ + b@ + c@,
{
    let mut s = String::from_str(a);
    crate::text::append(&mut s, b);
    crate::text::append(&mut s, c);
    s
}

fn fail(msg: String) -> (r: Option<String>)
    ensures
        opt_view(r) == Some(msg@),
{
    Some(msg)
}

fn check_admin_channel(t: &TwitchConfiguration) -> (r: Option<String>)
    ensures
        opt_view(r) == admin_channel_error(*t),
{
    match &t.admin_channel {
        None => None,
        Some(a) => {
            if is_blank(a.as_str()) {
                fail(String::from_str("twitch.admin_channel cannot be empty when specified"))
            } else if *a == t.channel {
                fail(String::from_str("twitch.admin_channel must be different from twitch.channel"))
            } else {
                None
            }
        },
    }
}

fn check_ai_channel(t: &TwitchConfiguration) -> (r: Option<String>)
    ensures
        opt_view(r) == ai_channel_error(*t),
{
    match &t.ai_channel {
        None => None,
        Some(x) => {
            if is_blank(x.as_str()) {
                return fail(String::from_str("twitch.ai_channel cannot be empty when specified"));
            }
            if *x == t.channel {
                return fail(
                    String::from_str("twitch.ai_channel must be different from twitch.channel"),
                );
            }
            match &t.admin_channel {
                Some(a) => {
                    if *x == *a {
                        return fail(
                            String::from_str(
                                "twitch.ai_channel must be different from twitch.admin_channel",
                            ),
                        );
                    }
                },
                None => {},
            }
            None
        },
    }
}

fn check_twitch(t: &TwitchConfiguration) -> (r: Option<String>)
    ensures
        opt_view(r) == twitch_error(*t),
{
    if is_blank(t.channel.as_str()) {
        return fail(String::from_str("twitch.channel cannot be empty"));
    }
    if is_blank(t.username.as_str()) {
        return fail(String::from_str("twitch.username cannot be empty"));
    }
    if t.expected_latency > 1000 {
        let n = decimal_string(t.expected_latency as u64);
        return fail(join3("twitch.expected_latency must be <= 1000ms (got ", n.as_str(), ")"));
    }
    let admin = check_admin_channel(t);
    if admin.is_some() {
        return admin;
    }
    check_ai_channel(t)
}

fn check_suspend(s: &SuspendConfig) -> (r: Option<String>)
    ensures
        opt_view(r) == suspend_error(*s),
{
    if s.default_duration_secs < 1 || s.default_duration_secs > 604800 {
        let n = decimal_string(s.default_duration_secs);
        fail(
            join3(
                "suspend.default_duration_secs must be between 1 and 604800 (7 days) (got ",
                n.as_str(),
                ")",
            ),
        )
    } else {
        None
    }
}

fn check_aviationstack(o: &Option<AviationstackConfig>) -> (r: Option<String>)
    ensures
        opt_view(r) == aviationstack_error(*o),
{
    match o {
        None => None,
        Some(a) => {
            if a.enabled && is_blank(a.api_key.as_str()) {
                return fail(
                    String::from_str(
                        "aviationstack.api_key cannot be empty when aviationstack is enabled",
                    ),
                );
            }
            if is_blank(a.base_url.as_str()) {
                return fail(String::from_str("aviationstack.base_url cannot be empty"));
            }
            if !parses_as_url(a.base_url.as_str()) {
                let shown = debug_string(a.base_url.as_str());
                return fail(
                    join3("aviationstack.base_url must be a valid URL (got ", shown.as_str(), ")"),
                );
            }
            if a.timeout_secs == 0 {
                return fail(String::from_str("aviationstack.timeout_secs must be > 0"));
            }
            None
        },
    }
}

fn check_ai_bootstrap(o: &Option<AiBootstrap>) -> (r: Option<String>)
    ensures
        opt_view(r) == ai_bootstrap_error(*o),
{
    match o {
        Some(b) => {
            if is_blank(b.api_key.as_str()) {
                fail(String::from_str("ai.api_key cannot be empty"))
            } else {
                None
            }
        },
        None => None,
    }
}

fn check_schedule(s: &ScheduleConfig) -> (r: Option<String>)
    ensures
        opt_view(r) == schedule_error(*s),
{
    if is_blank(s.name.as_str()) {
        return fail(String::from_str("Schedule name cannot be empty"));
    }
    if is_blank(s.message.as_str()) {
        return fail(join3("Schedule '", s.name.as_str(), "' message cannot be empty"));
    }
    if is_blank(s.interval.as_str()) {
        return fail(join3("Schedule '", s.name.as_str(), "' interval cannot be empty"));
    }
    if !parse_interval_ok(s.interval.as_str()) {
        return fail(join3("Schedule '", s.name.as_str(), "' has invalid interval format"));
    }
    None
}

fn check_schedules(s: &Vec<ScheduleConfig>) -> (r: Option<String>)
    ensures
        opt_view(r) == schedules_error(s@),
{
    let mut i: usize = 0;
    assert(s@.skip(0) =~= s@);
    while i < s.len()
        invariant
            i <= s.len(),
            schedules_error(s@) == schedules_error(s@.skip(i as int)),
        decreases s.len() - i,
    {
        let ghost rest = s@.skip(i as int);
        assert(rest[0] == s@[i as int]);
        assert(rest.drop_first() =~= s@.skip(i + 1));
        let r = check_schedule(&s[i]);
        if r.is_some() {
            return r;
        }
        i += 1;
    }
    assert(s@.skip(i as int) =~= Seq::<ScheduleConfig>::empty());
    None
}

fn check_web(w: &WebConfig) -> (r: Option<String>)
    ensures
        opt_view(r) == web_error(*w),
{
    if !w.enabled {
        return None;
    }
    if decoded_len(w.session_secret.as_str()) < 32 {
        return fail(
            String::from_str("web.session_secret must be ≥32 bytes hex when web.enabled = true"),
        );
    }
    if !str_starts_with(w.public_url.as_str(), "https://") {
        let shown = debug_string(w.public_url.as_str());
        return fail(
            join3(
                "web.public_url must start with https:// when web.enabled = true (got ",
                shown.as_str(),
                ")",
            ),
        );
    }
    if w.session_ttl_secs < 3600 || w.session_ttl_secs > 2592000 {
        let n = decimal_string(w.session_ttl_secs);
        return fail(join3("web.session_ttl must be between 1h and 30d (got ", n.as_str(), "s)"));
    }
    if w.mod_check_refresh_secs < 30 || w.mod_check_refresh_secs > 3600 {
        let n = decimal_string(w.mod_check_refresh_secs);
        return fail(
            join3("web.mod_check_refresh must be between 30s and 1h (got ", n.as_str(), "s)"),
        );
    }
    None
}

/// Checks the rules serde cannot express. `Err` carries the message of the
/// first rule broken, exactly when one is.
pub fn validate_config(config: &Configuration) -> (r: Result<(), String>)
    ensures
        match r {
            Ok(()) => config_error(*config) is None,
            Err(m) => config_error(*config) == Some(m@),
        },
{
    match check_twitch(&config.twitch) {
        Some(m) => return Err(m),
        None => {},
    }
    match check_suspend(&config.suspend) {
        Some(m) => return Err(m),
        None => {},
    }
    match check_aviationstack(&config.aviationstack) {
        Some(m) => return Err(m),
        None => {},
    }
    match check_ai_bootstrap(&config.ai) {
        Some(m) => return Err(m),
        None => {},
    }
    match check_schedules(&config.schedules) {
        Some(m) => return Err(m),
        None => {},
    }
    match check_web(&config.web) {
        Some(m) => Err(m),
        None => Ok(()),
    }
}

} // verus!
