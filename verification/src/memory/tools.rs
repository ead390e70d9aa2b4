//! The rules of the memory-file tools a chat turn (or the nightly dreamer)
//! may call: who may write what, the per-turn write quota, the cap on
//! state files, and how a `say` line is shaped.
use vstd::prelude::*;

use crate::llm::{json_string_member, ToolCall, ToolDefinition};

verus! {

/// Longest `say` line, in characters.
pub const SAY_MAX_CHARS: usize = 500;

/// The role a memory tool call runs with.
#[derive(Debug, Clone, Copy, PartialEq, Eq)]
pub enum Role {
    Regular,
    Moderator,
    Broadcaster,
    Dreamer,
}

impl Role {
    pub fn as_str(self) -> (r: &'static str)
        ensures
            r@ == (match self {
                Role::Regular => "regular"@,
                Role::Moderator => "moderator"@,
                Role::Broadcaster => "broadcaster"@,
                Role::Dreamer => "dreamer"@,
            }),
    {
        match self {
            Role::Regular => "regular",
            Role::Moderator => "moderator",
            Role::Broadcaster => "broadcaster",
            Role::Dreamer => "dreamer",
        }
    }
}

/// The chat speaker's role from the names of their badges.
pub fn classify_role_v2(badges: &Vec<String>) -> (r: Role)
    ensures
        r == (if has_badge(badges@, "broadcaster"@) {
            Role::Broadcaster
        } else if has_badge(badges@, "moderator"@) {
            Role::Moderator
        } else {
            Role::Regular
        }),
{
    if badge_present(badges, "broadcaster") {
        Role::Broadcaster
    } else if badge_present(badges, "moderator") {
        Role::Moderator
    } else {
        Role::Regular
    }
}

pub open spec fn has_badge(badges: Seq<String>, name: Seq<char>) -> bool {
    exists|i: int| 0 <= i < badges.len() && (#[trigger] badges[i])@ == name
}

pub(crate) fn badge_present(badges: &Vec<String>, name: &str) -> (r: bool)
    ensures
        r == has_badge(badges@, name@),
{
    let mut i: usize = 0;
    while i < badges.len()
        invariant
            i <= badges@.len(),
            forall|j: int| 0 <= j < i ==> (#[trigger] badges@[j])@ != name@,
        decreases badges@.len() - i,
    {
        if crate::text::str_eq(badges[i].as_str(), name) {
            return true;
        }
        i += 1;
    }
    false
}

/// A memory file a `write_file` call may target.
#[derive(Debug, Clone, PartialEq, Eq)]
pub enum WritePath {
    Soul,
    Lore,
    User { user_id: String },
}

/// Why a state slug was refused.
#[derive(Debug, Clone, Copy, PartialEq, Eq)]
pub enum SlugError {
    Invalid,
    Reserved,
}

/// Why a store write failed.
#[derive(Debug, Clone, PartialEq, Eq)]
pub enum WriteError {
    /// The body is over the file's byte cap.
    Full,
    Io(String),
}

/// The tool result text of a store write.
pub fn write_result_text(r: &Result<(), WriteError>) -> (s: String)
    ensures
        s@ == (match *r {
            Ok(()) => "ok"@,
            Err(WriteError::Full) => "file_full"@,
            Err(WriteError::Io(e)) => "io_error: "@ + e@,
        }),
{
    match r {
        Ok(()) => String::from_str("ok"),
        Err(WriteError::Full) => String::from_str("file_full"),
        Err(WriteError::Io(e)) => crate::text::concat("io_error: ", e.as_str()),
    }
}

/// The byte cap of a memory file.
pub open spec fn file_cap(path: WritePath, caps: crate::settings::AiMemory) -> usize {
    match path {
        WritePath::Soul => caps.soul_bytes,
        WritePath::Lore => caps.lore_bytes,
        WritePath::User { .. } => caps.user_bytes,
    }
}

/// Each memory file is capped by the setting named after it: SOUL by
/// `soul_bytes`, LORE by `lore_bytes`, a user file by `user_bytes`.
pub proof fn lemma_file_caps(caps: crate::settings::AiMemory, user_id: String)
    ensures
        file_cap(WritePath::Soul, caps) == caps.soul_bytes,
        file_cap(WritePath::Lore, caps) == caps.lore_bytes,
        file_cap(WritePath::User { user_id }, caps) == caps.user_bytes,
{
}

pub fn write_limit(path: &WritePath, caps: &crate::settings::AiMemory) -> (r: usize)
    ensures
        r == file_cap(*path, *caps),
{
    match path {
        WritePath::Soul => caps.soul_bytes,
        WritePath::Lore => caps.lore_bytes,
        WritePath::User { .. } => caps.user_bytes,
    }
}

/// A body fits its file when its UTF-8 length is within the cap; a larger
/// one is refused as full.
pub fn check_body_size(body: &str, limit: usize) -> (r: Result<(), WriteError>)
    ensures
        r is Ok <==> crate::text::utf8_len(body@) <= limit,
        r is Err ==> r == Err::<(), WriteError>(WriteError::Full),
{
    let cs = crate::text::chars_of(body);
    match crate::text::utf8_len_upto(&cs, limit) {
        None => Err(WriteError::Full),
        Some(_) => Ok(()),
    }
}

/// The creator recorded on a state file: the one already recorded, else
/// the writer.
pub fn state_creator(prior: Option<String>, writer: Option<&str>) -> (r: Option<String>)
    ensures
        crate::text::opt_view(r) == match prior {
            Some(p) => Some(p@),
            None => match writer {
                Some(w) => Some(w@),
                None => None,
            },
        },
{
    match prior {
        Some(p) => Some(p),
        None => match writer {
            Some(w) => Some(crate::text::owned(w)),
            None => None,
        },
    }
}

/// Whether `role`, speaking as `speaker`, may write `path`: SOUL only the
/// dreamer; LORE everyone but regulars; a user file a regular only their
/// own, everyone else any.
pub open spec fn may_write(role: Role, speaker: Seq<char>, path: WritePath) -> bool {
    match path {
        WritePath::Soul => role == Role::Dreamer,
        WritePath::Lore => role != Role::Regular,
        WritePath::User { user_id } => role != Role::Regular || user_id@ == speaker,
    }
}

/// The per-turn budget of write-class calls (`say` is never counted).
pub struct WriteQuota {
    pub used: usize,
    pub max: usize,
}

/// One `try_consume`: a write is granted while some are left; once the
/// budget is spent the count stays at the limit.
pub open spec fn consume_step(q: WriteQuota) -> (bool, WriteQuota) {
    if q.used < q.max {
        (true, WriteQuota { used: (q.used + 1) as usize, max: q.max })
    } else {
        (false, WriteQuota { used: q.max, max: q.max })
    }
}

/// The answers of `n` successive `try_consume` calls from `q`.
pub open spec fn consume_answers(q: WriteQuota, n: nat) -> Seq<bool>
    decreases n,
{
    if n == 0 {
        Seq::empty()
    } else {
        seq![consume_step(q).0] + consume_answers(consume_step(q).1, (n - 1) as nat)
    }
}

proof fn lemma_consume_answers_from(q: WriteQuota, n: nat)
    requires
        q.used <= q.max,
    ensures
        consume_answers(q, n).len() == n,
        forall|i: int| 0 <= i < n ==> #[trigger] consume_answers(q, n)[i] == (q.used + i < q.max),
    decreases n,
{
    if n > 0 {
        let next = consume_step(q).1;
        lemma_consume_answers_from(next, (n - 1) as nat);
        let rest = consume_answers(next, (n - 1) as nat);
        assert forall|i: int| 0 <= i < n implies #[trigger] consume_answers(q, n)[i] == (q.used + i
            < q.max) by {
            if i > 0 {
                assert(consume_answers(q, n)[i] == rest[i - 1]);
            }
        }
    }
}

/// The first-N law of the write budget: of `n` successive writes in a
/// fresh turn with a budget of `max`, exactly the first `max` are granted.
pub proof fn lemma_first_writes_granted(max: usize, n: nat)
    ensures
        consume_answers(WriteQuota { used: 0, max }, n).len() == n,
        forall|i: int| 0 <= i < n ==> #[trigger] consume_answers(WriteQuota { used: 0, max }, n)[i]
            == (i < max),
{
    lemma_consume_answers_from(WriteQuota { used: 0, max }, n);
}

impl WriteQuota {
    pub fn new(max: usize) -> (r: WriteQuota)
        ensures
            r.used == 0,
            r.max == max,
    {
        WriteQuota { used: 0, max }
    }

    /// Takes one write from the budget; `false` once it is spent.
    pub fn try_consume(&mut self) -> (r: bool)
        requires
            old(self).used <= old(self).max,
        ensures
            (r, *final(self)) == consume_step(*old(self)),
            r == (old(self).used < old(self).max),
            final(self).max == old(self).max,
            final(self).used == (if r {
                old(self).used + 1
            } else {
                old(self).max as int
            }),
            final(self).used <= final(self).max,
    {
        if self.used >= self.max {
            self.used = self.max;
            false
        } else {
            self.used = self.used + 1;
            true
        }
    }
}

/// The rules one chat turn runs under.
pub struct ChatTurnRules {
    pub speaker_user_id: String,
    pub speaker_role: Role,
    /// How many state files may exist at once.
    pub max_state_files: usize,
    pub quota: WriteQuota,
}

impl ChatTurnRules {
    pub open spec fn well_formed(&self) -> bool {
        self.quota.used <= self.quota.max
    }

    pub fn new(
        speaker_user_id: String,
        speaker_role: Role,
        max_state_files: usize,
        max_writes_per_turn: usize,
    ) -> (r: ChatTurnRules)
        ensures
            r.well_formed(),
            r.speaker_user_id == speaker_user_id,
            r.speaker_role == speaker_role,
            r.max_state_files == max_state_files,
            r.quota.used == 0,
            r.quota.max == max_writes_per_turn,
    {
        ChatTurnRules {
            speaker_user_id,
            speaker_role,
            max_state_files,
            quota: WriteQuota::new(max_writes_per_turn),
        }
    }

    /// The dreamer's rules: speaker `dreamer`, role `Dreamer`.
    pub fn dreamer(max_state_files: usize, max_writes_per_turn: usize) -> (r: ChatTurnRules)
        ensures
            r.well_formed(),
            r.speaker_user_id@ == "dreamer"@,
            r.speaker_role == Role::Dreamer,
            r.max_state_files == max_state_files,
            r.quota.used == 0,
            r.quota.max == max_writes_per_turn,
    {
        ChatTurnRules::new(String::from_str("dreamer"), Role::Dreamer, max_state_files, max_writes_per_turn)
    }

    pub fn permitted_write_path(&self, path: &WritePath) -> (r: bool)
        ensures
            r == may_write(self.speaker_role, self.speaker_user_id@, *path),
    {
        match path {
            WritePath::Soul => match self.speaker_role {
                Role::Dreamer => true,
                _ => false,
            },
            WritePath::Lore => match self.speaker_role {
                Role::Regular => false,
                _ => true,
            },
            WritePath::User { user_id } => match self.speaker_role {
                Role::Regular => *user_id == self.speaker_user_id,
                _ => true,
            },
        }
    }

    /// Gates a `write_file` call, given its parsed path (`None` when the
    /// path did not parse) and whether the body passed its check. On `Ok`
    /// one write was taken from the quota.
    pub fn check_write_file(&mut self, path: &Option<WritePath>, body_ok: bool) -> (r: Result<
        (),
        &'static str,
    >)
        requires
            old(self).well_formed(),
        ensures
            final(self).well_formed(),
            final(self).speaker_user_id == old(self).speaker_user_id,
            final(self).speaker_role == old(self).speaker_role,
            final(self).max_state_files == old(self).max_state_files,
            final(self).quota.max == old(self).quota.max,
            match *path {
                None => r matches Err(e) && e@ == "invalid_path"@ && final(self).quota
                    == old(self).quota,
                Some(p) => if !may_write(old(self).speaker_role, old(self).speaker_user_id@, p) {
                    r matches Err(e) && e@ == "permission_denied"@ && final(self).quota == old(self).quota
                } else if !body_ok {
                    r matches Err(e) && e@ == "invalid_body"@ && final(self).quota == old(self).quota
                } else if old(self).quota.used >= old(self).quota.max {
                    r matches Err(e) && e@ == "write_quota_exhausted"@ && final(self).quota.used
                        == old(self).quota.max
                } else {
                    r is Ok && final(self).quota.used == old(self).quota.used + 1
                },
            },
    {
        match path {
            None => Err("invalid_path"),
            Some(p) => {
                if !self.permitted_write_path(p) {
                    return Err("permission_denied");
                }
                if !body_ok {
                    return Err("invalid_body");
                }
                if !self.quota.try_consume() {
                    return Err("write_quota_exhausted");
                }
                Ok(())
            },
        }
    }

    /// Gates a `write_state` call, given the parsed slug, the body check,
    /// whether the state file is new, and how many state files exist.
    /// Only a new file counts against the state-file cap.
    pub fn check_write_state(
        &mut self,
        slug: Result<String, SlugError>,
        body_ok: bool,
        is_new: bool,
        state_count: usize,
    ) -> (r: Result<String, &'static str>)
        requires
            old(self).well_formed(),
        ensures
            final(self).well_formed(),
            final(self).speaker_user_id == old(self).speaker_user_id,
            final(self).speaker_role == old(self).speaker_role,
            final(self).max_state_files == old(self).max_state_files,
            final(self).quota.max == old(self).quota.max,
            match slug {
                Err(SlugError::Invalid) => r matches Err(e) && e@ == "invalid_slug"@ && final(self).quota == old(self).quota,
                Err(SlugError::Reserved) => r matches Err(e) && e@ == "reserved_slug"@ && final(self).quota == old(self).quota,
                Ok(s) => if !body_ok {
                    r matches Err(e) && e@ == "invalid_body"@ && final(self).quota == old(self).quota
                } else if is_new && state_count >= old(self).max_state_files {
                    r matches Err(e) && e@ == "state_full"@ && final(self).quota == old(self).quota
                } else if old(self).quota.used >= old(self).quota.max {
                    r matches Err(e) && e@ == "write_quota_exhausted"@ && final(self).quota.used
                        == old(self).quota.max
                } else {
                    r == Ok::<String, &'static str>(s) && final(self).quota.used == old(self).quota.used + 1
                },
            },
    {
        let s = match slug {
            Ok(s) => s,
            Err(SlugError::Invalid) => return Err("invalid_slug"),
            Err(SlugError::Reserved) => return Err("reserved_slug"),
        };
        if !body_ok {
            return Err("invalid_body");
        }
        if is_new && state_count >= self.max_state_files {
            return Err("state_full");
        }
        if !self.quota.try_consume() {
            return Err("write_quota_exhausted");
        }
        Ok(s)
    }

    /// Gates a `delete_state` call, given the parsed slug and the file's
    /// creator: a regular may only delete state files they created.
    pub fn check_delete_state(&mut self, slug: Result<String, SlugError>, owner: &Option<String>) -> (r:
        Result<String, &'static str>)
        requires
            old(self).well_formed(),
        ensures
            final(self).well_formed(),
            final(self).speaker_user_id == old(self).speaker_user_id,
            final(self).speaker_role == old(self).speaker_role,
            final(self).max_state_files == old(self).max_state_files,
            final(self).quota.max == old(self).quota.max,
            match slug {
                Err(SlugError::Invalid) => r matches Err(e) && e@ == "invalid_slug"@ && final(self).quota == old(self).quota,
                Err(SlugError::Reserved) => r matches Err(e) && e@ == "reserved_slug"@ && final(self).quota == old(self).quota,
                Ok(s) => if old(self).speaker_role == Role::Regular && !(owner matches Some(o)
                    && o@ == old(self).speaker_user_id@) {
                    r matches Err(e) && e@ == "permission_denied"@ && final(self).quota == old(self).quota
                } else if old(self).quota.used >= old(self).quota.max {
                    r matches Err(e) && e@ == "write_quota_exhausted"@ && final(self).quota.used
                        == old(self).quota.max
                } else {
                    r == Ok::<String, &'static str>(s) && final(self).quota.used == old(self).quota.used + 1
                },
            },
    {
        let s = match slug {
            Ok(s) => s,
            Err(SlugError::Invalid) => return Err("invalid_slug"),
            Err(SlugError::Reserved) => return Err("reserved_slug"),
        };
        let allowed = match self.speaker_role {
            Role::Regular => match owner {
                Some(o) => *o == self.speaker_user_id,
                None => false,
            },
            _ => true,
        };
        if !allowed {
            return Err("permission_denied");
        }
        if !self.quota.try_consume() {
            return Err("write_quota_exhausted");
        }
        Ok(s)
    }

    /// The display name passed with a user-file write: only for the
    /// speaker's own file.
    pub fn display_name_for<'a>(&self, target_user_id: &str, display: &'a str) -> (r: Option<&'a str>)
        ensures
            target_user_id@ == self.speaker_user_id@ ==> r == Some(display),
            target_user_id@ != self.speaker_user_id@ ==> r is None,
    {
        if crate::text::str_eq(target_user_id, self.speaker_user_id.as_str()) {
            Some(display)
        } else {
            None
        }
    }
}

// ---------------------------------------------------------------------------
// say
// ---------------------------------------------------------------------------

/// A `say` text as it goes to chat: over 500 characters it is cut to 499
/// plus `…`; line breaks become spaces.
pub open spec fn say_text(t: Seq<char>) -> Seq<char> {
    let cut = if t.len() > SAY_MAX_CHARS {
        t.take(SAY_MAX_CHARS - 1).push('\u{2026}')
    } else {
        t
    };
    cut.map_values(|c: char| if c == '\n' || c == '\r' { ' ' } else { c })
}

/// A `say` line never exceeds 500 characters and never breaks the chat
/// line; a text within the limit only has its line breaks replaced.
pub proof fn lemma_say_line_fits(t: Seq<char>)
    ensures
        say_text(t).len() <= SAY_MAX_CHARS,
        forall|i: int| 0 <= i < say_text(t).len() ==> (#[trigger] say_text(t)[i]) != '\n' && say_text(t)[i] != '\r',
        t.len() <= SAY_MAX_CHARS ==> say_text(t).len() == t.len(),
{
}

pub fn say_line(text: &str) -> (r: String)
    ensures
        r@ == say_text(text@),
{
    let cs = crate::text::chars_of(text);
    let n: usize = if cs.len() > SAY_MAX_CHARS {
        SAY_MAX_CHARS - 1
    } else {
        cs.len()
    };
    let mut out: Vec<char> = Vec::new();
    let mut i: usize = 0;
    while i < n
        invariant
            n <= cs@.len(),
            i <= n,
            cs@ == text@,
            out@ == cs@.take(i as int).map_values(
                |c: char|
                    if c == '\n' || c == '\r' {
                        ' '
                    } else {
                        c
                    },
            ),
        decreases n - i,
    {
        let c = cs[i];
        out.push(
            if c == '\n' || c == '\r' {
                ' '
            } else {
                c
            },
        );
        assert(out@ =~= cs@.take(i + 1).map_values(
            |c: char|
                if c == '\n' || c == '\r' {
                    ' '
                } else {
                    c
                },
        ));
        i += 1;
    }
    if cs.len() > SAY_MAX_CHARS {
        out.push('\u{2026}');
        assert(out@ =~= cs@.take(SAY_MAX_CHARS - 1).push('\u{2026}').map_values(
            |c: char|
                if c == '\n' || c == '\r' {
                    ' '
                } else {
                    c
                },
        ));
    } else {
        assert(cs@.take(i as int) =~= cs@);
    }
    crate::text::string_from(&out)
}

// ---------------------------------------------------------------------------
// Dispatch and definitions
// ---------------------------------------------------------------------------

/// The tool a call names.
#[derive(Debug, Clone, Copy, PartialEq, Eq)]
pub enum MemoryTool {
    WriteFile,
    WriteState,
    DeleteState,
    Say,
    Unknown,
}

pub open spec fn tool_named(name: Seq<char>, dreamer: bool) -> MemoryTool {
    if name == "write_file"@ {
        MemoryTool::WriteFile
    } else if name == "write_state"@ {
        MemoryTool::WriteState
    } else if name == "delete_state"@ {
        MemoryTool::DeleteState
    } else if name == "say"@ && !dreamer {
        MemoryTool::Say
    } else {
        MemoryTool::Unknown
    }
}

/// Which tool `name` is; the dreamer has no `say`.
pub fn memory_tool(name: &str, dreamer: bool) -> (r: MemoryTool)
    ensures
        r == tool_named(name@, dreamer),
{
    if crate::text::str_eq(name, "write_file") {
        MemoryTool::WriteFile
    } else if crate::text::str_eq(name, "write_state") {
        MemoryTool::WriteState
    } else if crate::text::str_eq(name, "delete_state") {
        MemoryTool::DeleteState
    } else if crate::text::str_eq(name, "say") && !dreamer {
        MemoryTool::Say
    } else {
        MemoryTool::Unknown
    }
}

/// The JSON schemas of the four argument shapes.
pub struct ToolSchemas {
    pub write_file: String,
    pub write_state: String,
    pub delete_state: String,
    pub say: String,
}

/// What each memory-file tool tells the model.
pub const CHAT_WRITE_FILE_DESCRIPTION: &'static str = "Overwrite a memory file (SOUL.md, LORE.md, or users/<id>.md). Body is the new full prose body; frontmatter is store-managed. Permission-gated by speaker role.";

pub const CHAT_WRITE_STATE_DESCRIPTION: &'static str = "Create or overwrite a state file at state/<slug>.md. slug is lowercase a–z 0–9 dashes, ≤64 chars.";

pub const CHAT_DELETE_STATE_DESCRIPTION: &'static str = "Remove a state file. Regulars may only delete state files they created.";

pub const CHAT_SAY_DESCRIPTION: &'static str = "Append one chat line. Aim for ≤3 sentences per call; the app truncates >500 chars to ≤500 + …. Multiple calls produce multiple lines.";

pub const DREAMER_WRITE_FILE_DESCRIPTION: &'static str = "Overwrite SOUL.md / LORE.md / users/<id>.md.";

pub const DREAMER_WRITE_STATE_DESCRIPTION: &'static str = "Overwrite state/<slug>.md.";

pub const DREAMER_DELETE_STATE_DESCRIPTION: &'static str = "Remove a stale state file.";

fn tool(name: &str, description: &str, schema: &String) -> (r: ToolDefinition)
    ensures
        r.name@ == name@,
        r.description@ == description@,
        r.parameters == *schema,
{
    ToolDefinition {
        name: String::from_str(name),
        description: String::from_str(description),
        parameters: schema.clone(),
    }
}

/// The chat-turn tools: `write_file`, `write_state`, `delete_state`, `say`.
pub fn chat_turn_tools(schemas: &ToolSchemas) -> (r: Vec<ToolDefinition>)
    ensures
        r@.len() == 4,
        r@[0].name@ == "write_file"@ && r@[0].parameters == schemas.write_file,
        r@[1].name@ == "write_state"@ && r@[1].parameters == schemas.write_state,
        r@[2].name@ == "delete_state"@ && r@[2].parameters == schemas.delete_state,
        r@[3].name@ == "say"@ && r@[3].parameters == schemas.say,
        r@[0].description@ == CHAT_WRITE_FILE_DESCRIPTION@,
        r@[1].description@ == CHAT_WRITE_STATE_DESCRIPTION@,
        r@[2].description@ == CHAT_DELETE_STATE_DESCRIPTION@,
        r@[3].description@ == CHAT_SAY_DESCRIPTION@,
{
    let mut v: Vec<ToolDefinition> = Vec::new();
    v.push(tool("write_file", CHAT_WRITE_FILE_DESCRIPTION, &schemas.write_file));
    v.push(tool("write_state", CHAT_WRITE_STATE_DESCRIPTION, &schemas.write_state));
    v.push(tool("delete_state", CHAT_DELETE_STATE_DESCRIPTION, &schemas.delete_state));
    v.push(tool("say", CHAT_SAY_DESCRIPTION, &schemas.say));
    v
}

/// The dreamer's tools: `write_file`, `write_state`, `delete_state`.
pub fn dreamer_tools(schemas: &ToolSchemas) -> (r: Vec<ToolDefinition>)
    ensures
        r@.len() == 3,
        r@[0].name@ == "write_file"@ && r@[0].parameters == schemas.write_file,
        r@[1].name@ == "write_state"@ && r@[1].parameters == schemas.write_state,
        r@[2].name@ == "delete_state"@ && r@[2].parameters == schemas.delete_state,
        r@[0].description@ == DREAMER_WRITE_FILE_DESCRIPTION@,
        r@[1].description@ == DREAMER_WRITE_STATE_DESCRIPTION@,
        r@[2].description@ == DREAMER_DELETE_STATE_DESCRIPTION@,
{
    let mut v: Vec<ToolDefinition> = Vec::new();
    v.push(tool("write_file", DREAMER_WRITE_FILE_DESCRIPTION, &schemas.write_file));
    v.push(tool("write_state", DREAMER_WRITE_STATE_DESCRIPTION, &schemas.write_state));
    v.push(tool("delete_state", DREAMER_DELETE_STATE_DESCRIPTION, &schemas.delete_state));
    v
}

// ---------------------------------------------------------------------------
// Tool arguments
// ---------------------------------------------------------------------------

/// Arguments of `write_file`.
#[derive(Debug, Clone, PartialEq, Eq)]
pub struct WriteFileArgs {
    pub path: String,
    pub body: String,
}

/// Arguments of `write_state`.
#[derive(Debug, Clone, PartialEq, Eq)]
pub struct WriteStateArgs {
    pub slug: String,
    pub body: String,
}

/// Arguments of `delete_state`.
#[derive(Debug, Clone, PartialEq, Eq)]
pub struct DeleteStateArgs {
    pub slug: String,
}

/// Arguments of `say`.
#[derive(Debug, Clone, PartialEq, Eq)]
pub struct SayArgs {
    pub text: String,
}

impl WriteFileArgs {
    /// The arguments of a call: present when the call's JSON holds string
    /// members `path` and `body`.
    pub fn from_call(call: &ToolCall) -> (r: Option<WriteFileArgs>)
        ensures
            match r {
                Some(a) => json_string_member(call.arguments@, "path"@) == Some(a.path@)
                    && json_string_member(call.arguments@, "body"@) == Some(a.body@),
                None => json_string_member(call.arguments@, "path"@) is None
                    || json_string_member(call.arguments@, "body"@) is None,
            },
    {
        match (call.str_arg("path"), call.str_arg("body")) {
            (Some(path), Some(body)) => Some(WriteFileArgs { path, body }),
            _ => None,
        }
    }
}

impl WriteStateArgs {
    /// The arguments of a call: present when the call's JSON holds string
    /// members `slug` and `body`.
    pub fn from_call(call: &ToolCall) -> (r: Option<WriteStateArgs>)
        ensures
            match r {
                Some(a) => json_string_member(call.arguments@, "slug"@) == Some(a.slug@)
                    && json_string_member(call.arguments@, "body"@) == Some(a.body@),
                None => json_string_member(call.arguments@, "slug"@) is None
                    || json_string_member(call.arguments@, "body"@) is None,
            },
    {
        match (call.str_arg("slug"), call.str_arg("body")) {
            (Some(slug), Some(body)) => Some(WriteStateArgs { slug, body }),
            _ => None,
        }
    }
}

impl DeleteStateArgs {
    /// The arguments of a call: present when the call's JSON holds a
    /// string member `slug`.
    pub fn from_call(call: &ToolCall) -> (r: Option<DeleteStateArgs>)
        ensures
            match r {
                Some(a) => json_string_member(call.arguments@, "slug"@) == Some(a.slug@),
                None => json_string_member(call.arguments@, "slug"@) is None,
            },
    {
        match call.str_arg("slug") {
            Some(slug) => Some(DeleteStateArgs { slug }),
            None => None,
        }
    }
}

impl SayArgs {
    /// The arguments of a call: present when the call's JSON holds a
    /// string member `text`.
    pub fn from_call(call: &ToolCall) -> (r: Option<SayArgs>)
        ensures
            match r {
                Some(a) => json_string_member(call.arguments@, "text"@) == Some(a.text@),
                None => json_string_member(call.arguments@, "text"@) is None,
            },
    {
        match call.str_arg("text") {
            Some(text) => Some(SayArgs { text }),
            None => None,
        }
    }
}

/// What a `say` call answers and sends: `invalid_arguments` without a
/// text; otherwise `ok` and the chat line.
pub fn handle_say(call: &ToolCall) -> (r: (&'static str, Option<String>))
    ensures
        match json_string_member(call.arguments@, "text"@) {
            Some(t) => r.0@ == "ok"@ && (r.1 matches Some(line) && line@ == say_text(t)),
            None => r.0@ == "invalid_arguments"@ && r.1 is None,
        },
{
    proof {
        reveal_strlit("ok");
        reveal_strlit("invalid_arguments");
    }
    match SayArgs::from_call(call) {
        Some(a) => ("ok", Some(say_line(a.text.as_str()))),
        None => ("invalid_arguments", None),
    }
}

} // verus!
