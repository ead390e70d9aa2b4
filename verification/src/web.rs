//! The dashboard's decisions: how an error answers, who passes the
//! moderator gate, what a settings form patches and what the reply says.
//! Serving HTTP and rendering templates are the caller's part.

use vstd::prelude::*;
use crate::settings::overrides::{
    AiBehaviorOverrides, AiConnectionOverrides, AiDreamerOverrides, AiEmotesOverrides,
    AiHistoryOverrides, AiMediaOverrides, AiMemoryOverrides, AiOverrides, AiPrefillOverrides,
    AiWebOverrides, CooldownsOverrides, PingsOverrides, SettingsOverrides,
};
use crate::settings::{
    ai_defaults, AiBackendKind, AiSettings, Cooldowns, PingsSettings, Settings, SettingsSection,
    SCHEMA_VERSION,
};
use crate::text::{all_digits, decimal_value, is_ascii_alphanumeric, join, trim};
use crate::memory::inject::{join_strings, views_of};

verus! {

// ---------------------------------------------------------------------------
// Errors and their answers
// ---------------------------------------------------------------------------

/// An error of a dashboard handler; each variant has its own answer.
#[derive(Debug, Clone, PartialEq, Eq)]
pub enum WebError {
    Unauthenticated { next: String },
    Forbidden,
    CsrfMismatch,
    Validation { field: String, msg: String },
    DuplicateName { name: String },
    Conflict { kind: String, id: String, current_body: String, current_mtime: u64, draft: String },
    OAuthExchange(String),
    /// An internal failure, with its message for the log.
    Internal(String),
}

/// The body of an answer.
#[derive(Debug, Clone, PartialEq, Eq)]
pub enum ResponseBody {
    /// A redirect to this location.
    Redirect(String),
    /// Plain text.
    Text(String),
    /// The "access denied" page.
    DeniedPage,
    /// The memory conflict page with these values.
    ConflictPage { kind: String, id: String, current_body: String, current_mtime: u64, draft: String },
}

/// An HTTP answer: status code and body.
#[derive(Debug, Clone, PartialEq, Eq)]
pub struct WebResponse {
    pub status: u16,
    pub body: ResponseBody,
}

/// Bytes `urlencoding` leaves as they are: ASCII alphanumerics and `-_.~`.
pub open spec fn url_safe(c: char) -> bool {
    is_ascii_alphanumeric(c) || c == '-' || c == '_' || c == '.' || c == '~'
}

pub open spec fn upper_hex_digit(d: nat) -> char {
    if d < 10 {
        crate::text::digit_char(d)
    } else if d == 10 {
        'A'
    } else if d == 11 {
        'B'
    } else if d == 12 {
        'C'
    } else if d == 13 {
        'D'
    } else if d == 14 {
        'E'
    } else {
        'F'
    }
}

/// The UTF-8 encoding of `c`.
pub open spec fn utf8_bytes(c: char) -> Seq<u8> {
    let u = c as u32;
    if u < 0x80 {
        seq![u as u8]
    } else if u < 0x800 {
        seq![(0xC0 + u / 64) as u8, (0x80 + u % 64) as u8]
    } else if u < 0x10000 {
        seq![(0xE0 + u / 4096) as u8, (0x80 + (u / 64) % 64) as u8, (0x80 + u % 64) as u8]
    } else {
        seq![
            (0xF0 + u / 262144) as u8,
            (0x80 + (u / 4096) % 64) as u8,
            (0x80 + (u / 64) % 64) as u8,
            (0x80 + u % 64) as u8,
        ]
    }
}

/// Each byte as `%` and two upper-case hex digits.
pub open spec fn percent_bytes(bs: Seq<u8>) -> Seq<char>
    decreases bs.len(),
{
    if bs.len() == 0 {
        Seq::empty()
    } else {
        let b = bs.last();
        percent_bytes(bs.drop_last()) + seq![
            '%',
            upper_hex_digit((b / 16) as nat),
            upper_hex_digit((b % 16) as nat),
        ]
    }
}

/// Percent-encoding as `urlencoding::encode` does it: ASCII alphanumerics
/// and `-_.~` stay, every byte of the UTF-8 encoding of any other character
/// becomes `%` and two upper-case hex digits.
pub open spec fn url_encoded(s: Seq<char>) -> Seq<char>
    decreases s.len(),
{
    if s.len() == 0 {
        Seq::empty()
    } else {
        let c = s.last();
        url_encoded(s.drop_last()) + if url_safe(c) {
            seq![c]
        } else {
            percent_bytes(utf8_bytes(c))
        }
    }
}

/// `urlencoding::encode`: the crate's `encode_into` writes, byte by byte of
/// the UTF-8 input, safe bytes as they are and others as `%XX`.
#[verifier::external_body]
fn url_encode(s: &str) -> (r: String)
    ensures
        r@ == url_encoded(s@),
{
    urlencoding::encode(s).into_owned()
}

/// The status code an error answers with.
pub open spec fn status_of(e: WebError) -> u16 {
    match e {
        WebError::Unauthenticated { .. } => 303,
        WebError::Forbidden => 403,
        WebError::CsrfMismatch => 403,
        WebError::Validation { .. } => 400,
        WebError::DuplicateName { .. } => 400,
        WebError::Conflict { .. } => 409,
        WebError::OAuthExchange(_) => 502,
        WebError::Internal(_) => 500,
    }
}

/// The text of a plain-text answer, or the location of a redirect.
pub open spec fn response_text(e: WebError) -> Seq<char> {
    match e {
        WebError::Unauthenticated { next } => "/login?next="@ + url_encoded(next@),
        WebError::CsrfMismatch => "Session expired, reload and try again"@,
        WebError::Validation { field, msg } => "validation: "@ + field@ + ": "@ + msg@,
        WebError::DuplicateName { name } => "ping `"@ + name@ + "` already exists"@,
        WebError::OAuthExchange(m) => "oauth exchange failed: "@ + m@,
        WebError::Internal(m) => "internal error"@,
        _ => Seq::empty(),
    }
}

impl WebError {
    /// How the error answers: a redirect to the login page, the denied or
    /// conflict page, or a status with a short text. An internal error
    /// answers without its message.
    pub fn response(self) -> (r: WebResponse)
        ensures
            r.status == status_of(self),
            match self {
                WebError::Unauthenticated { .. } => r.body matches ResponseBody::Redirect(l) && l@
                    == response_text(self),
                WebError::Forbidden => r.body == ResponseBody::DeniedPage,
                WebError::Conflict { kind, id, current_body, current_mtime, draft } => r.body
                    == (ResponseBody::ConflictPage { kind, id, current_body, current_mtime, draft }),
                _ => r.body matches ResponseBody::Text(t) && t@ == response_text(self),
            },
    {
        proof {
            reveal_strlit("/login?next=");
            reveal_strlit("Session expired, reload and try again");
            reveal_strlit("validation: ");
            reveal_strlit(": ");
            reveal_strlit("ping `");
            reveal_strlit("` already exists");
            reveal_strlit("oauth exchange failed: ");
            reveal_strlit("internal error");
        }
        match self {
            WebError::Unauthenticated { next } => {
                let enc = url_encode(next.as_str());
                WebResponse {
                    status: 303,
                    body: ResponseBody::Redirect(crate::text::concat("/login?next=", enc.as_str())),
                }
            },
            WebError::Forbidden => WebResponse { status: 403, body: ResponseBody::DeniedPage },
            WebError::CsrfMismatch => WebResponse {
                status: 403,
                body: ResponseBody::Text(crate::text::owned("Session expired, reload and try again")),
            },
            WebError::Validation { field, msg } => {
                let mut t = crate::text::owned("validation: ");
                crate::text::append(&mut t, field.as_str());
                crate::text::append(&mut t, ": ");
                crate::text::append(&mut t, msg.as_str());
                WebResponse { status: 400, body: ResponseBody::Text(t) }
            },
            WebError::DuplicateName { name } => {
                let mut t = crate::text::owned("ping `");
                crate::text::append(&mut t, name.as_str());
                crate::text::append(&mut t, "` already exists");
                WebResponse { status: 400, body: ResponseBody::Text(t) }
            },
            WebError::Conflict { kind, id, current_body, current_mtime, draft } => WebResponse {
                status: 409,
                body: ResponseBody::ConflictPage { kind, id, current_body, current_mtime, draft },
            },
            WebError::OAuthExchange(m) => WebResponse {
                status: 502,
                body: ResponseBody::Text(crate::text::concat("oauth exchange failed: ", m.as_str())),
            },
            WebError::Internal(_) => WebResponse {
                status: 500,
                body: ResponseBody::Text(crate::text::owned("internal error")),
            },
        }
    }
}

// ---------------------------------------------------------------------------
// The moderator gate
// ---------------------------------------------------------------------------

#[derive(Debug, Clone, Copy, PartialEq, Eq)]
pub enum ModCheckOutcome {
    Allow,
    Deny,
}

/// A hidden admin or the broadcaster passes at once; anyone else is
/// decided by the moderator list (`None`: ask it).
pub fn check_is_mod_locally(user_id: &str, broadcaster_id: &str, hidden_admins: &Vec<String>) -> (r:
    Option<ModCheckOutcome>)
    ensures
        r == (if (exists|i: int| 0 <= i < hidden_admins@.len() && (#[trigger] hidden_admins@[i])@
            == user_id@) || user_id@ == broadcaster_id@ {
            Some(ModCheckOutcome::Allow)
        } else {
            None::<ModCheckOutcome>
        }),
{
    let mut i: usize = 0;
    while i < hidden_admins.len()
        invariant
            i <= hidden_admins@.len(),
            forall|j: int| 0 <= j < i ==> (#[trigger] hidden_admins@[j])@ != user_id@,
        decreases hidden_admins@.len() - i,
    {
        if crate::text::str_eq(hidden_admins[i].as_str(), user_id) {
            return Some(ModCheckOutcome::Allow);
        }
        i += 1;
    }
    if crate::text::str_eq(user_id, broadcaster_id) {
        Some(ModCheckOutcome::Allow)
    } else {
        None
    }
}

/// Allows a user the moderator list names; denies anyone else.
pub fn outcome_from_moderator_list(is_moderator: bool) -> (r: ModCheckOutcome)
    ensures
        r == (if is_moderator { ModCheckOutcome::Allow } else { ModCheckOutcome::Deny }),
{
    if is_moderator {
        ModCheckOutcome::Allow
    } else {
        ModCheckOutcome::Deny
    }
}

/// A Twitch user as helix reports it.
#[derive(Debug, Clone, PartialEq, Eq)]
pub struct HelixUser {
    pub id: String,
    pub login: String,
    pub display_name: String,
}

/// One page of the moderator list.
pub struct ModeratorPage {
    pub user_ids: Vec<String>,
    pub cursor: Option<String>,
}

/// What to do after reading a page of the moderator list.
#[derive(Debug, Clone, PartialEq, Eq)]
pub enum PageStep {
    /// The user is a moderator.
    Found,
    /// Read the page after this cursor.
    Next(String),
    /// The list is exhausted without the user.
    NotFound,
}

/// The query of one moderator-list request: the channel, the user looked
/// for, pages of 100, and the cursor of the page to read when there is one.
pub open spec fn moderator_query_spec(broadcaster_id: Seq<char>, user_id: Seq<char>, cursor: Option<
    Seq<char>,
>) -> Seq<(Seq<char>, Seq<char>)> {
    seq![
        ("broadcaster_id"@, broadcaster_id),
        ("user_id"@, user_id),
        ("first"@, "100"@),
    ] + match cursor {
        Some(c) => seq![("after"@, c)],
        None => Seq::empty(),
    }
}

/// The query pairs of a moderator-list request, in order.
pub fn moderator_query(broadcaster_id: &str, user_id: &str, cursor: &Option<String>) -> (r: Vec<
    (String, String),
>)
    ensures
        r@.map_values(|p: (String, String)| (p.0@, p.1@)) == moderator_query_spec(
            broadcaster_id@,
            user_id@,
            crate::text::opt_view(*cursor),
        ),
{
    let mut q: Vec<(String, String)> = Vec::new();
    q.push((crate::text::owned("broadcaster_id"), crate::text::owned(broadcaster_id)));
    q.push((crate::text::owned("user_id"), crate::text::owned(user_id)));
    q.push((crate::text::owned("first"), crate::text::owned("100")));
    match cursor {
        Some(c) => q.push((crate::text::owned("after"), crate::text::owned(c.as_str()))),
        None => {},
    }
    assert(q@.map_values(|p: (String, String)| (p.0@, p.1@)) =~= moderator_query_spec(
        broadcaster_id@,
        user_id@,
        crate::text::opt_view(*cursor),
    ));
    q
}

/// The user is on the page: found. Otherwise a non-empty cursor leads on,
/// and without one the list is exhausted.
pub fn moderator_page_step(page: &ModeratorPage, user_id: &str) -> (r: PageStep)
    ensures
        (exists|i: int| 0 <= i < page.user_ids@.len() && (#[trigger] page.user_ids@[i])@
            == user_id@) ==> r == PageStep::Found,
        !(exists|i: int| 0 <= i < page.user_ids@.len() && (#[trigger] page.user_ids@[i])@
            == user_id@) ==> match page.cursor {
            Some(c) => if c@.len() > 0 {
                r matches PageStep::Next(n) && n@ == c@
            } else {
                r == PageStep::NotFound
            },
            None => r == PageStep::NotFound,
        },
{
    let mut i: usize = 0;
    while i < page.user_ids.len()
        invariant
            i <= page.user_ids@.len(),
            forall|j: int| 0 <= j < i ==> (#[trigger] page.user_ids@[j])@ != user_id@,
        decreases page.user_ids@.len() - i,
    {
        if crate::text::str_eq(page.user_ids[i].as_str(), user_id) {
            return PageStep::Found;
        }
        i += 1;
    }
    match &page.cursor {
        Some(c) => {
            if crate::text::chars_of(c.as_str()).len() > 0 {
                PageStep::Next(crate::text::owned(c.as_str()))
            } else {
                PageStep::NotFound
            }
        },
        None => PageStep::NotFound,
    }
}

/// The wall clock.
pub struct SystemClock;

impl SystemClock {
    /// Milliseconds since the Unix epoch, never before it.
    pub fn now(&self) -> (r: i64)
        ensures
            r >= 0,
    {
        crate::memory::store::now_ms()
    }
}

/// A memory user id in a URL: one to 32 ASCII digits.
pub fn is_valid_user_id(s: &str) -> (r: bool)
    ensures
        r == (s@.len() > 0 && s@.len() <= 32 && all_digits(s@)),
{
    let cs = crate::text::chars_of(s);
    if cs.len() == 0 || cs.len() > 32 {
        return false;
    }
    let mut i: usize = 0;
    while i < cs.len()
        invariant
            i <= cs@.len(),
            cs@ == s@,
            forall|j: int| 0 <= j < i ==> crate::text::is_ascii_digit(#[trigger] cs@[j]),
        decreases cs@.len() - i,
    {
        if !('0' <= cs[i] && cs[i] <= '9') {
            return false;
        }
        i += 1;
    }
    true
}

// ---------------------------------------------------------------------------
// The settings page
// ---------------------------------------------------------------------------

/// The fields of the settings form. A checkbox is `Some` when checked; the
/// prefill threshold is the bit pattern of the submitted number.
pub struct SaveForm {
    pub csrf: String,
    pub cooldown_ai: u64,
    pub cooldown_news: u64,
    pub cooldown_up: u64,
    pub cooldown_feedback: u64,
    pub cooldown_doener: u64,
    pub ping_cooldown: u64,
    pub ping_public: Option<String>,
    pub ai_connection_backend: Option<String>,
    pub ai_connection_base_url: Option<String>,
    pub ai_connection_model: Option<String>,
    pub ai_connection_timeout: Option<u64>,
    pub ai_connection_reasoning_effort: Option<String>,
    pub ai_behavior_max_turn_rounds: Option<usize>,
    pub ai_behavior_max_writes_per_turn: Option<usize>,
    pub ai_behavior_persona_name: Option<String>,
    pub ai_history_length: Option<u64>,
    pub ai_history_ai_channel_length: Option<u64>,
    pub ai_memory_soul_bytes: Option<usize>,
    pub ai_memory_lore_bytes: Option<usize>,
    pub ai_memory_user_bytes: Option<usize>,
    pub ai_memory_state_bytes: Option<usize>,
    pub ai_memory_inject_byte_budget: Option<usize>,
    pub ai_memory_max_state_files: Option<usize>,
    pub ai_dreamer_enabled: Option<String>,
    pub ai_dreamer_model: Option<String>,
    pub ai_dreamer_reasoning_effort: Option<String>,
    pub ai_dreamer_run_at: Option<String>,
    pub ai_dreamer_timeout_secs: Option<u64>,
    pub ai_dreamer_max_rounds: Option<usize>,
    pub ai_prefill_card_visible: Option<String>,
    pub ai_prefill_enabled: Option<String>,
    pub ai_prefill_base_url: Option<String>,
    pub ai_prefill_threshold_bits: Option<u64>,
    pub ai_web_card_visible: Option<String>,
    pub ai_web_enabled: Option<String>,
    pub ai_web_base_url: Option<String>,
    pub ai_web_timeout: Option<u64>,
    pub ai_web_max_results: Option<usize>,
    pub ai_web_max_rounds: Option<usize>,
    pub ai_web_cache_ttl_secs: Option<u64>,
    pub ai_web_cache_capacity: Option<usize>,
    pub ai_emotes_card_visible: Option<String>,
    pub ai_emotes_enabled: Option<String>,
    pub ai_emotes_include_global: Option<String>,
    pub ai_emotes_refresh_interval_secs: Option<u64>,
    pub ai_emotes_max_prompt_emotes: Option<usize>,
    pub ai_emotes_min_baseline_emotes: Option<usize>,
    pub ai_emotes_base_url: Option<String>,
    pub ai_media_model: Option<String>,
    pub ai_media_timeout: Option<u64>,
    pub ai_media_max_image_size: Option<String>,
    pub ai_media_max_pdf_size: Option<String>,
    pub ai_media_max_audio_size: Option<String>,
    pub ai_media_max_video_size: Option<String>,
    pub ai_media_max_text_size: Option<String>,
}

/// What `bytesize::ByteSize::from_str` makes of a text, in bytes.
pub uninterp spec fn byte_size_of(s: Seq<char>) -> Option<u64>;

/// `s.parse::<bytesize::ByteSize>().ok()` as a byte count. The result is
/// named; for plain digits whose value fits a `u64` it is that value, as
/// the crate first tries `u64::from_str`.
#[verifier::external_body]
fn parse_byte_size(s: &str) -> (r: Option<u64>)
    ensures
        r == byte_size_of(s@),
        s@.len() > 0 && all_digits(s@) && decimal_value(s@) <= u64::MAX ==> r == Some(
            decimal_value(s@) as u64,
        ),
{
    match s.parse::<bytesize::ByteSize>() {
        Ok(b) => Some(b.as_u64()),
        Err(_) => None,
    }
}

/// A text field whose blank value clears the override.
pub open spec fn clear_if_blank(o: Option<String>) -> Option<Option<String>> {
    match o {
        Some(s) => if trim(s@).len() == 0 { Some(None) } else { Some(Some(s)) },
        None => None,
    }
}

/// A text field whose empty value clears the override.
pub open spec fn clear_if_empty(o: Option<String>) -> Option<Option<String>> {
    match o {
        Some(s) => if s@.len() == 0 { Some(None) } else { Some(Some(s)) },
        None => None,
    }
}

/// A reasoning effort: the `none` choice clears it, and so does a blank
/// value (`trimmed`) or an empty one.
pub open spec fn effort_override(o: Option<String>, trimmed: bool) -> Option<Option<String>> {
    match o {
        Some(s) => if s@ == "none"@ || (if trimmed { trim(s@).len() == 0 } else { s@.len() == 0 }) {
            Some(None)
        } else {
            Some(Some(s))
        },
        None => None,
    }
}

/// A toggle card: not in the form leaves it; shown, its checkbox decides.
pub open spec fn card_toggle(visible: Option<String>, checked: Option<String>) -> Option<bool> {
    if visible is Some {
        Some(checked is Some)
    } else {
        None
    }
}

pub open spec fn backend_named(o: Option<String>) -> Option<AiBackendKind> {
    match o {
        Some(s) => if s@ == "openai"@ {
            Some(AiBackendKind::OpenAi)
        } else if s@ == "ollama"@ {
            Some(AiBackendKind::Ollama)
        } else {
            None
        },
        None => None,
    }
}

pub open spec fn persona_override(o: Option<String>) -> Option<Seq<char>> {
    match o {
        Some(s) => if trim(s@).len() > 0 { Some(trim(s@)) } else { None },
        None => None,
    }
}

pub open spec fn size_override(o: Option<String>) -> Option<u64> {
    match o {
        Some(s) => byte_size_of(s@),
        None => None,
    }
}

/// The AI patch a form asks for (the persona name apart, which
/// `persona_override` gives).
pub open spec fn form_ai_overrides(f: SaveForm, a: AiOverrides) -> bool {
    &&& a.connection.backend == backend_named(f.ai_connection_backend)
    &&& a.connection.base_url == clear_if_blank(f.ai_connection_base_url)
    &&& a.connection.model == f.ai_connection_model
    &&& a.connection.timeout == f.ai_connection_timeout
    &&& a.connection.reasoning_effort == effort_override(f.ai_connection_reasoning_effort, true)
    &&& a.behavior.max_turn_rounds == f.ai_behavior_max_turn_rounds
    &&& a.behavior.max_writes_per_turn == f.ai_behavior_max_writes_per_turn
    &&& crate::text::opt_view(a.behavior.persona_name) == persona_override(f.ai_behavior_persona_name)
    &&& a.history == (AiHistoryOverrides {
        length: f.ai_history_length,
        ai_channel_length: f.ai_history_ai_channel_length,
    })
    &&& a.memory == (AiMemoryOverrides {
        soul_bytes: f.ai_memory_soul_bytes,
        lore_bytes: f.ai_memory_lore_bytes,
        user_bytes: f.ai_memory_user_bytes,
        state_bytes: f.ai_memory_state_bytes,
        inject_byte_budget: f.ai_memory_inject_byte_budget,
        max_state_files: f.ai_memory_max_state_files,
    })
    &&& a.dreamer == (AiDreamerOverrides {
        enabled: Some(f.ai_dreamer_enabled is Some),
        model: clear_if_empty(f.ai_dreamer_model),
        reasoning_effort: effort_override(f.ai_dreamer_reasoning_effort, false),
        run_at: f.ai_dreamer_run_at,
        timeout_secs: f.ai_dreamer_timeout_secs,
        max_rounds: f.ai_dreamer_max_rounds,
    })
    &&& a.prefill == (AiPrefillOverrides {
        enabled: card_toggle(f.ai_prefill_card_visible, f.ai_prefill_enabled),
        base_url: f.ai_prefill_base_url,
        threshold_bits: f.ai_prefill_threshold_bits,
    })
    &&& a.web == (AiWebOverrides {
        enabled: card_toggle(f.ai_web_card_visible, f.ai_web_enabled),
        base_url: f.ai_web_base_url,
        timeout: f.ai_web_timeout,
        max_results: f.ai_web_max_results,
        max_rounds: f.ai_web_max_rounds,
        cache_ttl_secs: f.ai_web_cache_ttl_secs,
        cache_capacity: f.ai_web_cache_capacity,
    })
    &&& a.emotes == (AiEmotesOverrides {
        enabled: card_toggle(f.ai_emotes_card_visible, f.ai_emotes_enabled),
        include_global: if f.ai_emotes_card_visible is Some {
            Some(f.ai_emotes_include_global is Some)
        } else {
            None
        },
        refresh_interval_secs: f.ai_emotes_refresh_interval_secs,
        max_prompt_emotes: f.ai_emotes_max_prompt_emotes,
        min_baseline_emotes: f.ai_emotes_min_baseline_emotes,
        base_url: clear_if_empty(f.ai_emotes_base_url),
    })
    &&& a.media == (AiMediaOverrides {
        model: f.ai_media_model,
        timeout: f.ai_media_timeout,
        max_image_size: size_override(f.ai_media_max_image_size),
        max_pdf_size: size_override(f.ai_media_max_pdf_size),
        max_audio_size: size_override(f.ai_media_max_audio_size),
        max_video_size: size_override(f.ai_media_max_video_size),
        max_text_size: size_override(f.ai_media_max_text_size),
    })
}

fn clone_opt_string(o: &Option<String>) -> (r: Option<String>)
    ensures
        r == *o,
{
    match o {
        Some(s) => Some(s.clone()),
        None => None,
    }
}

fn blank_clears(o: &Option<String>) -> (r: Option<Option<String>>)
    ensures
        r == clear_if_blank(*o),
{
    match o {
        Some(s) => if crate::text::chars_of(crate::text::trimmed(s.as_str()).as_str()).len() == 0 {
            Some(None)
        } else {
            Some(Some(s.clone()))
        },
        None => None,
    }
}

fn empty_clears(o: &Option<String>) -> (r: Option<Option<String>>)
    ensures
        r == clear_if_empty(*o),
{
    match o {
        Some(s) => if crate::text::chars_of(s.as_str()).len() == 0 {
            Some(None)
        } else {
            Some(Some(s.clone()))
        },
        None => None,
    }
}

fn effort_of(o: &Option<String>, trimmed: bool) -> (r: Option<Option<String>>)
    ensures
        r == effort_override(*o, trimmed),
{
    proof {
        reveal_strlit("none");
    }
    match o {
        Some(s) => {
            let empty = if trimmed {
                crate::text::chars_of(crate::text::trimmed(s.as_str()).as_str()).len() == 0
            } else {
                crate::text::chars_of(s.as_str()).len() == 0
            };
            if crate::text::str_eq(s.as_str(), "none") || empty {
                Some(None)
            } else {
                Some(Some(s.clone()))
            }
        },
        None => None,
    }
}

fn toggle_of(visible: &Option<String>, checked: &Option<String>) -> (r: Option<bool>)
    ensures
        r == card_toggle(*visible, *checked),
{
    if visible.is_some() {
        Some(checked.is_some())
    } else {
        None
    }
}

fn size_of(o: &Option<String>) -> (r: Option<u64>)
    ensures
        r == size_override(*o),
{
    match o {
        Some(s) => parse_byte_size(s.as_str()),
        None => None,
    }
}

/// The sparse AI patch a submitted form asks for: absent fields leave
/// their setting, blank or `none` values clear an optional one, toggle
/// cards count only when shown, and size caps parse as byte sizes.
pub fn form_into_ai_overrides(f: &SaveForm) -> (r: AiOverrides)
    ensures
        form_ai_overrides(*f, r),
{
    proof {
        reveal_strlit("openai");
        reveal_strlit("ollama");
    }
    let backend = match &f.ai_connection_backend {
        Some(s) => if crate::text::str_eq(s.as_str(), "openai") {
            Some(AiBackendKind::OpenAi)
        } else if crate::text::str_eq(s.as_str(), "ollama") {
            Some(AiBackendKind::Ollama)
        } else {
            None
        },
        None => None,
    };
    let persona_name = match &f.ai_behavior_persona_name {
        Some(s) => {
            let t = crate::text::trimmed(s.as_str());
            if crate::text::chars_of(t.as_str()).len() > 0 {
                Some(t)
            } else {
                None
            }
        },
        None => None,
    };
    let connection = AiConnectionOverrides {
        backend,
        base_url: blank_clears(&f.ai_connection_base_url),
        model: clone_opt_string(&f.ai_connection_model),
        timeout: f.ai_connection_timeout,
        reasoning_effort: effort_of(&f.ai_connection_reasoning_effort, true),
    };
    let behavior = AiBehaviorOverrides {
        max_turn_rounds: f.ai_behavior_max_turn_rounds,
        max_writes_per_turn: f.ai_behavior_max_writes_per_turn,
        persona_name,
    };
    let history = AiHistoryOverrides {
        length: f.ai_history_length,
        ai_channel_length: f.ai_history_ai_channel_length,
    };
    let memory = AiMemoryOverrides {
        soul_bytes: f.ai_memory_soul_bytes,
        lore_bytes: f.ai_memory_lore_bytes,
        user_bytes: f.ai_memory_user_bytes,
        state_bytes: f.ai_memory_state_bytes,
        inject_byte_budget: f.ai_memory_inject_byte_budget,
        max_state_files: f.ai_memory_max_state_files,
    };
    let dreamer = AiDreamerOverrides {
        enabled: Some(f.ai_dreamer_enabled.is_some()),
        model: empty_clears(&f.ai_dreamer_model),
        reasoning_effort: effort_of(&f.ai_dreamer_reasoning_effort, false),
        run_at: clone_opt_string(&f.ai_dreamer_run_at),
        timeout_secs: f.ai_dreamer_timeout_secs,
        max_rounds: f.ai_dreamer_max_rounds,
    };
    let prefill = AiPrefillOverrides {
        enabled: toggle_of(&f.ai_prefill_card_visible, &f.ai_prefill_enabled),
        base_url: clone_opt_string(&f.ai_prefill_base_url),
        threshold_bits: f.ai_prefill_threshold_bits,
    };
    let web = AiWebOverrides {
        enabled: toggle_of(&f.ai_web_card_visible, &f.ai_web_enabled),
        base_url: clone_opt_string(&f.ai_web_base_url),
        timeout: f.ai_web_timeout,
        max_results: f.ai_web_max_results,
        max_rounds: f.ai_web_max_rounds,
        cache_ttl_secs: f.ai_web_cache_ttl_secs,
        cache_capacity: f.ai_web_cache_capacity,
    };
    let include_global = if f.ai_emotes_card_visible.is_some() {
        Some(f.ai_emotes_include_global.is_some())
    } else {
        None
    };
    let emotes = AiEmotesOverrides {
        enabled: toggle_of(&f.ai_emotes_card_visible, &f.ai_emotes_enabled),
        include_global,
        refresh_interval_secs: f.ai_emotes_refresh_interval_secs,
        max_prompt_emotes: f.ai_emotes_max_prompt_emotes,
        min_baseline_emotes: f.ai_emotes_min_baseline_emotes,
        base_url: empty_clears(&f.ai_emotes_base_url),
    };
    let media = AiMediaOverrides {
        model: clone_opt_string(&f.ai_media_model),
        timeout: f.ai_media_timeout,
        max_image_size: size_of(&f.ai_media_max_image_size),
        max_pdf_size: size_of(&f.ai_media_max_pdf_size),
        max_audio_size: size_of(&f.ai_media_max_audio_size),
        max_video_size: size_of(&f.ai_media_max_video_size),
        max_text_size: size_of(&f.ai_media_max_text_size),
    };
    AiOverrides { connection, behavior, history, memory, dreamer, prefill, web, emotes, media }
}

/// The patch a save applies: every cooldown and ping field as submitted
/// (an unchecked `ping_public` is `false`), and the AI patch of the form.
pub fn save_patch(f: &SaveForm) -> (r: SettingsOverrides)
    ensures
        r.schema_version == SCHEMA_VERSION,
        r.cooldowns == (CooldownsOverrides {
            ai: Some(f.cooldown_ai),
            news: Some(f.cooldown_news),
            up: Some(f.cooldown_up),
            feedback: Some(f.cooldown_feedback),
            doener: Some(f.cooldown_doener),
        }),
        r.pings == (PingsOverrides {
            cooldown: Some(f.ping_cooldown),
            public: Some(f.ping_public is Some),
        }),
        form_ai_overrides(*f, r.ai),
{
    SettingsOverrides {
        schema_version: SCHEMA_VERSION,
        cooldowns: CooldownsOverrides {
            ai: Some(f.cooldown_ai),
            news: Some(f.cooldown_news),
            up: Some(f.cooldown_up),
            feedback: Some(f.cooldown_feedback),
            doener: Some(f.cooldown_doener),
        },
        pings: PingsOverrides { cooldown: Some(f.ping_cooldown), public: Some(f.ping_public.is_some()) },
        ai: form_into_ai_overrides(f),
    }
}

/// The settings to show again after a failed save: cooldowns and pings as
/// submitted, the AI section at its compiled defaults.
pub fn submitted_settings(f: &SaveForm) -> (r: Settings)
    ensures
        r.schema_version == SCHEMA_VERSION,
        r.cooldowns == (Cooldowns {
            ai: f.cooldown_ai,
            news: f.cooldown_news,
            up: f.cooldown_up,
            feedback: f.cooldown_feedback,
            doener: f.cooldown_doener,
        }),
        r.pings == (PingsSettings { cooldown: f.ping_cooldown, public: f.ping_public is Some }),
        ai_defaults(r.ai),
{
    Settings {
        schema_version: SCHEMA_VERSION,
        cooldowns: Cooldowns {
            ai: f.cooldown_ai,
            news: f.cooldown_news,
            up: f.cooldown_up,
            feedback: f.cooldown_feedback,
            doener: f.cooldown_doener,
        },
        pings: PingsSettings { cooldown: f.ping_cooldown, public: f.ping_public.is_some() },
        ai: AiSettings::default(),
    }
}

/// The changed AI fields that only a restart applies, in this order.
pub open spec fn restart_keys(before: AiSettings, after: AiSettings) -> Seq<Seq<char>> {
    (if before.connection.backend != after.connection.backend {
        seq!["ai.connection.backend"@]
    } else {
        Seq::empty()
    }) + (if crate::text::opt_view(before.connection.base_url) != crate::text::opt_view(
        after.connection.base_url,
    ) {
        seq!["ai.connection.base_url"@]
    } else {
        Seq::empty()
    }) + (if before.prefill is None && after.prefill is Some {
        seq!["ai.prefill (enabling requires restart)"@]
    } else {
        Seq::empty()
    }) + (if before.web is None && after.web is Some {
        seq!["ai.web (enabling requires restart)"@]
    } else {
        Seq::empty()
    }) + (if before.emotes is None && after.emotes is Some {
        seq!["ai.emotes (enabling requires restart)"@]
    } else {
        Seq::empty()
    }) + (if before.prefill is Some && after.prefill is Some && before.prefill->0.base_url@
        != after.prefill->0.base_url@ {
        seq!["ai.prefill.base_url"@]
    } else {
        Seq::empty()
    })
}

fn push_key(out: &mut Vec<String>, key: &str)
    ensures
        views_of(final(out)@) == views_of(old(out)@).push(key@),
{
    let ghost before = out@;
    out.push(crate::text::owned(key));
    assert(views_of(out@) =~= views_of(before).push(key@));
}

fn same_opt_string(a: &Option<String>, b: &Option<String>) -> (r: bool)
    ensures
        r == (crate::text::opt_view(*a) == crate::text::opt_view(*b)),
{
    match (a, b) {
        (Some(x), Some(y)) => crate::text::str_eq(x.as_str(), y.as_str()),
        (None, None) => true,
        _ => false,
    }
}

/// The changed AI fields that take effect only after a restart.
pub fn restart_required(before: &AiSettings, after: &AiSettings) -> (r: Vec<String>)
    ensures
        views_of(r@) == restart_keys(*before, *after),
{
    proof {
        reveal_strlit("ai.connection.backend");
        reveal_strlit("ai.connection.base_url");
        reveal_strlit("ai.prefill (enabling requires restart)");
        reveal_strlit("ai.web (enabling requires restart)");
        reveal_strlit("ai.emotes (enabling requires restart)");
        reveal_strlit("ai.prefill.base_url");
    }
    let mut out: Vec<String> = Vec::new();
    let ghost k0 = views_of(out@);
    let backend_changed = match (before.connection.backend, after.connection.backend) {
        (AiBackendKind::OpenAi, AiBackendKind::OpenAi) => false,
        (AiBackendKind::Ollama, AiBackendKind::Ollama) => false,
        _ => true,
    };
    if backend_changed {
        push_key(&mut out, "ai.connection.backend");
    }
    if !same_opt_string(&before.connection.base_url, &after.connection.base_url) {
        push_key(&mut out, "ai.connection.base_url");
    }
    if before.prefill.is_none() && after.prefill.is_some() {
        push_key(&mut out, "ai.prefill (enabling requires restart)");
    }
    if before.web.is_none() && after.web.is_some() {
        push_key(&mut out, "ai.web (enabling requires restart)");
    }
    if before.emotes.is_none() && after.emotes.is_some() {
        push_key(&mut out, "ai.emotes (enabling requires restart)");
    }
    match (&before.prefill, &after.prefill) {
        (Some(a), Some(b)) => {
            if !crate::text::str_eq(a.base_url.as_str(), b.base_url.as_str()) {
                push_key(&mut out, "ai.prefill.base_url");
            }
        },
        _ => {},
    }
    assert(views_of(out@) =~= restart_keys(*before, *after));
    out
}

/// The flash after a successful save, naming what needs a restart.
pub fn save_flash(restart: &Vec<String>) -> (r: String)
    ensures
        r@ == if restart@.len() == 0 {
            "Settings saved."@
        } else {
            "Settings saved. Restart bot to apply: "@ + join(views_of(restart@), ", "@)
        },
{
    proof {
        reveal_strlit("Settings saved.");
        reveal_strlit("Settings saved. Restart bot to apply: ");
        reveal_strlit(", ");
    }
    if restart.len() == 0 {
        crate::text::owned("Settings saved.")
    } else {
        let joined = join_strings(restart, ", ");
        crate::text::concat("Settings saved. Restart bot to apply: ", joined.as_str())
    }
}

/// The section a reset URL names; only `cooldowns` and `pings` can be
/// reset from the page.
pub fn reset_section_named(section: &str) -> (r: Result<SettingsSection, WebError>)
    ensures
        section@ == "cooldowns"@ ==> r == Ok::<SettingsSection, WebError>(SettingsSection::Cooldowns),
        section@ == "pings"@ ==> r == Ok::<SettingsSection, WebError>(SettingsSection::Pings),
        section@ != "cooldowns"@ && section@ != "pings"@ ==> (r matches Err(WebError::Validation {
            field,
            msg,
        }) && field@ == "section"@ && msg@ == "unknown section `"@ + section@ + "`"@),
{
    proof {
        reveal_strlit("cooldowns");
        reveal_strlit("pings");
        reveal_strlit("section");
        reveal_strlit("unknown section `");
        reveal_strlit("`");
        assert("pings"@ != "cooldowns"@) by {
            assert("pings"@.len() != "cooldowns"@.len());
        }
    }
    if crate::text::str_eq(section, "cooldowns") {
        Ok(SettingsSection::Cooldowns)
    } else if crate::text::str_eq(section, "pings") {
        Ok(SettingsSection::Pings)
    } else {
        let mut msg = crate::text::owned("unknown section `");
        crate::text::append(&mut msg, section);
        crate::text::append(&mut msg, "`");
        Err(WebError::Validation { field: crate::text::owned("section"), msg })
    }
}

/// The flash after a reset.
pub const RESET_FLASH: &'static str = "Reset to defaults.";

/// The error of a memory page whose user id is not numeric.
pub fn user_id_error() -> (r: WebError)
    ensures
        r matches WebError::Validation { field, msg } && field@ == "user_id"@ && msg@
            == "must be numeric, 1-32 digits"@,
{
    proof {
        reveal_strlit("user_id");
        reveal_strlit("must be numeric, 1-32 digits");
    }
    WebError::Validation {
        field: crate::text::owned("user_id"),
        msg: crate::text::owned("must be numeric, 1-32 digits"),
    }
}

} // verus!
