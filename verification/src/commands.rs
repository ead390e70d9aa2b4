//! Chat command decisions: the ping commands, `!aireact`, AI-reaction
//! settings input, and how the dispatcher routes one chat message.
use vstd::prelude::*;

use crate::text::{ascii_lower, blank, collapse_ws, contains, opt_view, trim, words};

verus! {

// ---------------------------------------------------------------------------
// Text helpers
// ---------------------------------------------------------------------------

/// Where `c` first occurs in `s`; `s.len()` when it does not.
pub open spec fn index_of_char(s: Seq<char>, c: char) -> nat
    decreases s.len(),
{
    if s.len() == 0 {
        0
    } else if s[0] == c {
        0
    } else {
        1 + index_of_char(s.drop_first(), c)
    }
}

proof fn lemma_index_of_char_bound(s: Seq<char>, c: char)
    ensures
        index_of_char(s, c) <= s.len(),
        index_of_char(s, c) < s.len() ==> s[index_of_char(s, c) as int] == c,
    decreases s.len(),
{
    if s.len() > 0 && s[0] != c {
        lemma_index_of_char_bound(s.drop_first(), c);
    }
}

fn find_char(cs: &Vec<char>, c: char) -> (r: usize)
    ensures
        r == index_of_char(cs@, c),
        r <= cs@.len(),
{
    let mut i: usize = 0;
    assert(cs@.skip(0) =~= cs@);
    while i < cs.len() && cs[i] != c
        invariant
            i <= cs@.len(),
            index_of_char(cs@, c) == i + index_of_char(cs@.skip(i as int), c),
        decreases cs@.len() - i,
    {
        assert(cs@.skip(i as int)[0] == cs@[i as int]);
        assert(cs@.skip(i as int).drop_first() =~= cs@.skip(i + 1));
        i += 1;
    }
    proof {
        if i < cs@.len() {
            assert(cs@.skip(i as int)[0] == cs@[i as int]);
        }
    }
    i
}

/// Unicode lower-casing (`str::to_lowercase`).
pub uninterp spec fn lowercase_text(s: Seq<char>) -> Seq<char>;

/// `str::to_lowercase`; the result is named.
#[verifier::external_body]
pub(crate) fn to_lowercase(s: &str) -> (r: String)
    ensures
        r@ == lowercase_text(s@),
{
    s.to_lowercase()
}

// ---------------------------------------------------------------------------
// StreamElements ping commands
// ---------------------------------------------------------------------------

/// `!lp`: lists the channel's ping commands. The StreamElements client
/// that fetches them is the caller's.
pub struct ListPingsCommand {
    pub channel_id: String,
}

impl ListPingsCommand {
    pub fn new(channel_id: String) -> (r: ListPingsCommand)
        ensures
            r.channel_id == channel_id,
    {
        ListPingsCommand { channel_id }
    }

    pub fn name(&self) -> (r: &'static str)
        ensures
            r@ == "!lp"@,
    {
        proof {
            reveal_strlit("!lp");
        }
        "!lp"
    }
}

/// `!tp`: toggles the sender's mention in a ping command. The
/// StreamElements client that edits it is the caller's.
pub struct TogglePingCommand {
    pub channel_id: String,
}

impl TogglePingCommand {
    pub fn new(channel_id: String) -> (r: TogglePingCommand)
        ensures
            r.channel_id == channel_id,
    {
        TogglePingCommand { channel_id }
    }

    pub fn name(&self) -> (r: &'static str)
        ensures
            r@ == "!tp"@,
    {
        proof {
            reveal_strlit("!tp");
        }
        "!tp"
    }
}

/// The ping commands `!tp` may toggle, in listing order.
pub open spec fn ping_command_names() -> Seq<Seq<char>> {
    seq![
        "ackern"@,
        "amra"@,
        "arbeitszeitbetrug"@,
        "dayz"@,
        "dbd"@,
        "deadlock"@,
        "eft"@,
        "euv"@,
        "fetentiere"@,
        "front"@,
        "hoi"@,
        "kluft"@,
        "kreuzzug"@,
        "ron"@,
        "ttt"@,
        "vicky"@,
    ]
}

/// The toggleable ping commands.
pub fn ping_commands() -> (r: Vec<&'static str>)
    ensures
        r@.map_values(|s: &'static str| s@) == ping_command_names(),
{
    let v: Vec<&'static str> = vec![
        "ackern",
        "amra",
        "arbeitszeitbetrug",
        "dayz",
        "dbd",
        "deadlock",
        "eft",
        "euv",
        "fetentiere",
        "front",
        "hoi",
        "kluft",
        "kreuzzug",
        "ron",
        "ttt",
        "vicky",
    ];
    assert(v@.map_values(|s: &'static str| s@) =~= ping_command_names());
    v
}

pub open spec fn is_ping_command(name: Seq<char>) -> bool {
    exists|i: int| 0 <= i < ping_command_names().len() && ping_command_names()[i] == name
}

pub fn is_ping_command_name(name: &str) -> (r: bool)
    ensures
        r == is_ping_command(name@),
{
    let cmds = ping_commands();
    let mut i: usize = 0;
    while i < cmds.len()
        invariant
            i <= cmds@.len(),
            cmds@.map_values(|s: &'static str| s@) == ping_command_names(),
            forall|j: int| 0 <= j < i ==> ping_command_names()[j] != name@,
        decreases cmds@.len() - i,
    {
        assert(cmds@.map_values(|s: &'static str| s@)[i as int] == cmds@[i as int]@);
        if crate::text::str_eq(cmds[i], name) {
            return true;
        }
        i += 1;
    }
    false
}

/// A StreamElements command: its name and its reply text.
#[derive(Debug, Clone)]
pub struct SeCommand {
    pub command: String,
    pub reply: String,
}

/// The `!lp` answer.
pub open spec fn list_pings_reply(
    commands: Seq<SeCommand>,
    filter: Option<Seq<char>>,
    login_lower: Seq<char>,
) -> Seq<char> {
    let f = match filter {
        Some(f) => f,
        None => "enabled"@,
    };
    if f == "enabled"@ || f == "disabled"@ {
        let want = f == "enabled"@;
        crate::text::join(pinged_commands(commands, login_lower, want), " "@)
    } else if f == "all"@ {
        crate::text::join(ping_command_names(), " "@)
    } else {
        "Das weiß ich nicht Sadding"@
    }
}

/// Ping commands whose (lower-cased) reply does (or does not) mention
/// `@login`, in list order.
pub open spec fn pinged_commands(commands: Seq<SeCommand>, login_lower: Seq<char>, mentioned: bool) -> Seq<
    Seq<char>,
>
    decreases commands.len(),
{
    if commands.len() == 0 {
        Seq::empty()
    } else {
        let rest = pinged_commands(commands.drop_last(), login_lower, mentioned);
        let c = commands.last();
        if is_ping_command(c.command@) && contains(lowercase_text(c.reply@), "@"@ + login_lower)
            == mentioned {
            rest.push(c.command@)
        } else {
            rest
        }
    }
}

/// Whether `c`'s reply, lower-cased, mentions `@login_lower`.
pub open spec fn mentions_login(c: SeCommand, login_lower: Seq<char>) -> bool {
    contains(lowercase_text(c.reply@), "@"@ + login_lower)
}

/// The names of the ping commands among `cmds` whose mention of the login
/// is `mentioned`, in list order, as a filter over the commands.
pub open spec fn ping_names_where(cmds: Seq<SeCommand>, login_lower: Seq<char>, mentioned: bool) -> Seq<
    Seq<char>,
> {
    cmds.filter(
        |c: SeCommand| is_ping_command(c.command@) && mentions_login(c, login_lower) == mentioned,
    ).map_values(|c: SeCommand| c.command@)
}

proof fn lemma_pinged_is_filter(cmds: Seq<SeCommand>, login_lower: Seq<char>, mentioned: bool)
    ensures
        pinged_commands(cmds, login_lower, mentioned) == ping_names_where(cmds, login_lower, mentioned),
    decreases cmds.len(),
{
    reveal(Seq::filter);
    let pred = |c: SeCommand| is_ping_command(c.command@) && mentions_login(c, login_lower) == mentioned;
    if cmds.len() > 0 {
        lemma_pinged_is_filter(cmds.drop_last(), login_lower, mentioned);
        let sub = cmds.drop_last().filter(pred);
        if pred(cmds.last()) {
            assert(sub.push(cmds.last()).map_values(|c: SeCommand| c.command@) =~= sub.map_values(
                |c: SeCommand| c.command@,
            ).push(cmds.last().command@));
        }
    } else {
        assert(ping_names_where(cmds, login_lower, mentioned) =~= Seq::<Seq<char>>::empty());
    }
}

proof fn lemma_listed_when_matching(cmds: Seq<SeCommand>, login_lower: Seq<char>, mentioned: bool, c: SeCommand)
    requires
        cmds.contains(c),
        is_ping_command(c.command@),
        mentions_login(c, login_lower) == mentioned,
    ensures
        ping_names_where(cmds, login_lower, mentioned).contains(c.command@),
{
    let pred = |x: SeCommand| is_ping_command(x.command@) && mentions_login(x, login_lower) == mentioned;
    let i = choose|i: int| 0 <= i < cmds.len() && cmds[i] == c;
    cmds.lemma_filter_contains(pred, i);
    let f = cmds.filter(pred);
    let k = choose|k: int| 0 <= k < f.len() && f[k] == c;
    assert(ping_names_where(cmds, login_lower, mentioned)[k] == c.command@);
}

proof fn lemma_listed_only_matching(cmds: Seq<SeCommand>, login_lower: Seq<char>, mentioned: bool, i: int)
    requires
        0 <= i < ping_names_where(cmds, login_lower, mentioned).len(),
    ensures
        exists|c: SeCommand|
            cmds.contains(c) && is_ping_command(c.command@) && mentions_login(c, login_lower)
                == mentioned && c.command@ == ping_names_where(cmds, login_lower, mentioned)[i],
{
    let pred = |x: SeCommand| is_ping_command(x.command@) && mentions_login(x, login_lower) == mentioned;
    let f = cmds.filter(pred);
    cmds.lemma_filter_pred(pred, i);
    assert(f.contains(f[i]));
    cmds.lemma_filter_contains_rev(pred, f[i]);
    assert(ping_names_where(cmds, login_lower, mentioned)[i] == f[i].command@);
}

/// `!lp enabled` (the default) lists the ping commands whose reply mentions
/// `@login`, and `!lp disabled` exactly those whose reply does not: each
/// ping command of the channel is in the listing that matches its reply,
/// and every listed name belongs to a ping command whose reply matches.
pub proof fn lemma_ping_listings(cmds: Seq<SeCommand>, login_lower: Seq<char>)
    ensures
        list_pings_reply(cmds, Some("enabled"@), login_lower) == crate::text::join(
            ping_names_where(cmds, login_lower, true),
            " "@,
        ),
        list_pings_reply(cmds, None, login_lower) == list_pings_reply(cmds, Some("enabled"@), login_lower),
        list_pings_reply(cmds, Some("disabled"@), login_lower) == crate::text::join(
            ping_names_where(cmds, login_lower, false),
            " "@,
        ),
        forall|c: SeCommand, m: bool|
            #![trigger ping_names_where(cmds, login_lower, m).contains(c.command@)]
            cmds.contains(c) && is_ping_command(c.command@) && mentions_login(c, login_lower) == m
                ==> ping_names_where(cmds, login_lower, m).contains(c.command@),
        forall|m: bool, i: int|
            0 <= i < ping_names_where(cmds, login_lower, m).len() ==> exists|c: SeCommand|
                cmds.contains(c) && is_ping_command(c.command@) && mentions_login(c, login_lower) == m
                    && c.command@ == #[trigger] ping_names_where(cmds, login_lower, m)[i],
{
    reveal_strlit("enabled");
    reveal_strlit("disabled");
    reveal_strlit("all");
    assert("disabled"@[0] != "enabled"@[0]);
    assert("disabled"@.len() != "all"@.len());
    lemma_pinged_is_filter(cmds, login_lower, true);
    lemma_pinged_is_filter(cmds, login_lower, false);
    assert forall|c: SeCommand, m: bool|
        #![trigger ping_names_where(cmds, login_lower, m).contains(c.command@)]
        cmds.contains(c) && is_ping_command(c.command@) && mentions_login(c, login_lower) == m
            implies ping_names_where(cmds, login_lower, m).contains(c.command@) by {
        lemma_listed_when_matching(cmds, login_lower, m, c);
    }
    assert forall|m: bool, i: int| 0 <= i < ping_names_where(cmds, login_lower, m).len() implies exists|
        c: SeCommand,
    |
        cmds.contains(c) && is_ping_command(c.command@) && mentions_login(c, login_lower) == m
            && c.command@ == #[trigger] ping_names_where(cmds, login_lower, m)[i] by {
        lemma_listed_only_matching(cmds, login_lower, m, i);
    }
}

/// The `!lp [enabled|disabled|all]` answer for the sender `login`.
pub fn list_pings(commands: &Vec<SeCommand>, filter: Option<&str>, login: &str) -> (r: String)
    ensures
        r@ == list_pings_reply(
            commands@,
            match filter {
                Some(f) => Some(f@),
                None => None,
            },
            lowercase_text(login@),
        ),
{
    let f = match filter {
        Some(f) => f,
        None => "enabled",
    };
    let login_lower = to_lowercase(login);
    let needle = crate::text::concat("@", login_lower.as_str());
    if crate::text::str_eq(f, "enabled") || crate::text::str_eq(f, "disabled") {
        let want = crate::text::str_eq(f, "enabled");
        let mut names: Vec<String> = Vec::new();
        let mut i: usize = 0;
        while i < commands.len()
            invariant
                i <= commands@.len(),
                needle@ == "@"@ + lowercase_text(login@),
                crate::memory::inject::views_of(names@) == pinged_commands(
                    commands@.take(i as int),
                    lowercase_text(login@),
                    want,
                ),
            decreases commands@.len() - i,
        {
            assert(commands@.take(i + 1).drop_last() =~= commands@.take(i as int));
            let c = &commands[i];
            if is_ping_command_name(c.command.as_str()) {
                let lower = to_lowercase(c.reply.as_str());
                if crate::text::str_contains(lower.as_str(), needle.as_str()) == want {
                    let ghost before = crate::memory::inject::views_of(names@);
                    names.push(c.command.clone());
                    assert(crate::memory::inject::views_of(names@) =~= before.push(c.command@));
                }
            }
            i += 1;
        }
        assert(commands@.take(i as int) =~= commands@);
        crate::memory::inject::join_strings(&names, " ")
    } else if crate::text::str_eq(f, "all") {
        let cmds = ping_commands();
        let mut names: Vec<String> = Vec::new();
        let mut i: usize = 0;
        while i < cmds.len()
            invariant
                i <= cmds@.len(),
                cmds@.map_values(|s: &'static str| s@) == ping_command_names(),
                crate::memory::inject::views_of(names@) == ping_command_names().take(i as int),
            decreases cmds@.len() - i,
        {
            assert(cmds@.map_values(|s: &'static str| s@)[i as int] == cmds@[i as int]@);
            let ghost before = crate::memory::inject::views_of(names@);
            let item = String::from_str(cmds[i]);
            names.push(item);
            assert(crate::memory::inject::views_of(names@) == before.push(item@));
            assert(item@ == ping_command_names()[i as int]);
            assert(crate::memory::inject::views_of(names@) =~= ping_command_names().take(i + 1));
            i += 1;
        }
        assert(ping_command_names().take(i as int) =~= ping_command_names());
        crate::memory::inject::join_strings(&names, " ")
    } else {
        String::from_str("Das weiß ich nicht Sadding")
    }
}

/// Whether `c` has a meaning of its own in a regular expression.
pub open spec fn is_regex_meta(c: char) -> bool {
    c == '\\' || c == '.' || c == '+' || c == '*' || c == '?' || c == '(' || c == ')' || c
        == '|' || c == '[' || c == ']' || c == '{' || c == '}' || c == '^' || c == '$' || c == '#'
        || c == '&' || c == '-' || c == '~'
}

/// `s` with a backslash in front of every meta character.
pub open spec fn regex_escape_spec(s: Seq<char>) -> Seq<char>
    decreases s.len(),
{
    if s.len() == 0 {
        Seq::empty()
    } else {
        regex_escape_spec(s.drop_last()) + (if is_regex_meta(s.last()) {
            seq!['\\', s.last()]
        } else {
            seq![s.last()]
        })
    }
}

/// `regex::escape`: every regex meta character of `s` (as listed by
/// `regex_syntax::is_meta_character`) gets a backslash in front.
#[verifier::external_body]
fn regex_escape(s: &str) -> (r: String)
    ensures
        r@ == regex_escape_spec(s@),
{
    regex::escape(s)
}

/// The case-insensitive pattern for a mention of `login`: an optional `@`,
/// optional whitespace, then the login taken literally.
pub open spec fn mention_pattern(login: Seq<char>) -> Seq<char> {
    "(?i)@?\\s*"@ + regex_escape_spec(login)
}

/// Builds [`mention_pattern`] for `login`.
pub fn mention_pattern_for(login: &str) -> (r: String)
    ensures
        r@ == mention_pattern(login@),
{
    let escaped = regex_escape(login);
    crate::text::concat("(?i)@?\\s*", escaped.as_str())
}

/// Whether `pattern`, compiled by `regex::Regex::new`, matches `text`;
/// `None` when the pattern does not compile.
pub uninterp spec fn regex_match(pattern: Seq<char>, text: Seq<char>) -> Option<bool>;

/// `text` with every match of the compiled `pattern` replaced by `rep`;
/// `None` when the pattern does not compile.
pub uninterp spec fn regex_replaced(pattern: Seq<char>, text: Seq<char>, rep: Seq<char>) -> Option<
    Seq<char>,
>;

/// `regex::Regex::new(pattern)`, then `is_match(text)`. The result is named.
#[verifier::external_body]
fn regex_is_match(pattern: &str, text: &str) -> (r: Option<bool>)
    ensures
        r == regex_match(pattern@, text@),
{
    match regex::Regex::new(pattern) {
        Ok(re) => Some(re.is_match(text)),
        Err(_) => None,
    }
}

/// `regex::Regex::new(pattern)`, then `replace_all(text, rep)`. The result
/// is named.
#[verifier::external_body]
fn regex_replace_all(pattern: &str, text: &str, rep: &str) -> (r: Option<String>)
    ensures
        opt_view(r) == regex_replaced(pattern@, text@, rep@),
{
    match regex::Regex::new(pattern) {
        Ok(re) => Some(re.replace_all(text, rep).to_string()),
        Err(_) => None,
    }
}

/// `reply` with `@name` added: after the first `@…` token, or in front.
pub open spec fn with_mention(reply: Seq<char>, name: Seq<char>) -> Seq<char> {
    let a = index_of_char(reply, '@');
    if a < reply.len() {
        let rest = reply.skip(a as int);
        let p = a + index_of_char(rest, ' ');
        reply.take(p as int) + " @"@ + name + reply.skip(p as int)
    } else {
        "@"@ + name + " "@ + reply
    }
}

/// What `!tp` does.
pub enum TogglePing {
    /// Answer this and stop.
    Reply(&'static str),
    /// Save the command with this reply, then confirm with the second text.
    Update(String, &'static str),
    /// The mention pattern could not be built.
    PatternError,
}

/// The `!tp <name>` decision for the sender (`login`, display `name`) over
/// the channel's StreamElements commands: toggles the sender's mention in
/// the named ping command's reply, whitespace collapsed.
pub fn toggle_ping(
    command_name: Option<&str>,
    commands: &Vec<SeCommand>,
    login: &str,
    display_name: &str,
) -> (r: TogglePing)
    ensures
        match command_name {
            None => r matches TogglePing::Reply(m) && m@ == "Das kann ich nicht FDM"@,
            Some(n) => if !is_ping_command(n@) {
                r matches TogglePing::Reply(m) && m@ == "Das finde ich nicht FDM"@
            } else if !(exists|i: int| 0 <= i < commands@.len() && (#[trigger] commands@[i]).command@ == n@) {
                r matches TogglePing::Reply(m) && m@ == "Das gibt es nicht FDM"@
            } else {
                let c = commands@[first_command_index(commands@, n@)];
                match regex_match(mention_pattern(login@), c.reply@) {
                    None => r is PatternError,
                    Some(true) => match regex_replaced(mention_pattern(login@), c.reply@, ""@) {
                        None => r is PatternError,
                        Some(s) => r matches TogglePing::Update(t, m) && t@ == collapse_ws(s) && m@
                            == "Hab ich aus gemacht Okayge"@,
                    },
                    Some(false) => r matches TogglePing::Update(t, m) && t@ == collapse_ws(
                        with_mention(c.reply@, display_name@),
                    ) && m@ == "Hab ich an gemacht Okayge"@,
                }
            },
        },
{
    let n = match command_name {
        Some(n) => n,
        None => return TogglePing::Reply("Das kann ich nicht FDM"),
    };
    if !is_ping_command_name(n) {
        return TogglePing::Reply("Das finde ich nicht FDM");
    }
    let idx = match find_command(commands, n) {
        Some(i) => i,
        None => return TogglePing::Reply("Das gibt es nicht FDM"),
    };
    let reply = commands[idx].reply.as_str();
    let pattern = mention_pattern_for(login);
    match regex_is_match(pattern.as_str(), reply) {
        None => TogglePing::PatternError,
        Some(true) => match regex_replace_all(pattern.as_str(), reply, "") {
            None => TogglePing::PatternError,
            Some(s) => TogglePing::Update(
                crate::text::collapse_whitespace(s.as_str()),
                "Hab ich aus gemacht Okayge",
            ),
        },
        Some(false) => {
            let cs = crate::text::chars_of(reply);
            let a = find_char(&cs, '@');
            let added = if a < cs.len() {
                let mut rest: Vec<char> = Vec::new();
                crate::text::push_range(&mut rest, &cs, a, cs.len());
                assert(rest@ =~= cs@.skip(a as int));
                let t = find_char(&rest, ' ');
                let p = a + t;
                let mut head: Vec<char> = Vec::new();
                crate::text::push_range(&mut head, &cs, 0, p);
                let mut tail: Vec<char> = Vec::new();
                crate::text::push_range(&mut tail, &cs, p, cs.len());
                assert(head@ =~= cs@.take(p as int));
                assert(tail@ =~= cs@.skip(p as int));
                let mut s = crate::text::string_from(&head);
                crate::text::append(&mut s, " @");
                crate::text::append(&mut s, display_name);
                crate::text::append(&mut s, crate::text::string_from(&tail).as_str());
                s
            } else {
                let mut s = String::from_str("@");
                crate::text::append(&mut s, display_name);
                crate::text::append(&mut s, " ");
                crate::text::append(&mut s, reply);
                s
            };
            TogglePing::Update(
                crate::text::collapse_whitespace(added.as_str()),
                "Hab ich an gemacht Okayge",
            )
        },
    }
}

/// The first command named `n` (meaningful when there is one).
pub open spec fn first_command_index(cs: Seq<SeCommand>, n: Seq<char>) -> int {
    choose|i: int|
        0 <= i < cs.len() && (#[trigger] cs[i]).command@ == n && forall|j: int|
            0 <= j < i ==> cs[j].command@ != n
}

fn find_command(cs: &Vec<SeCommand>, n: &str) -> (r: Option<usize>)
    ensures
        match r {
            Some(i) => i < cs@.len() && i == first_command_index(cs@, n@) && exists|k: int|
                0 <= k < cs@.len() && (#[trigger] cs@[k]).command@ == n@,
            None => !(exists|k: int| 0 <= k < cs@.len() && (#[trigger] cs@[k]).command@ == n@),
        },
{
    let mut i: usize = 0;
    while i < cs.len()
        invariant
            i <= cs@.len(),
            forall|j: int| 0 <= j < i ==> (#[trigger] cs@[j]).command@ != n@,
        decreases cs@.len() - i,
    {
        if crate::text::str_eq(cs[i].command.as_str(), n) {
            proof {
                let c = first_command_index(cs@, n@);
                assert(cs@[i as int].command@ == n@);
                if c < i {
                } else if c > i {
                }
            }
            return Some(i);
        }
        i += 1;
    }
    None
}

// ---------------------------------------------------------------------------
// !ping administration
// ---------------------------------------------------------------------------

/// The reply to a non-admin using an admin-only subcommand.
pub const ADMIN_DENIED_MSG: &'static str = "Das darfst du nicht FDM";

/// Whether the sender may administer: a broadcaster or moderator badge, or
/// a hidden admin id.
pub fn is_admin(badges: &Vec<String>, sender_id: &str, hidden_admin_ids: &Vec<String>) -> (r: bool)
    ensures
        r == (crate::memory::tools::has_badge(badges@, "broadcaster"@)
            || crate::memory::tools::has_badge(badges@, "moderator"@) || exists|i: int|
            0 <= i < hidden_admin_ids@.len() && (#[trigger] hidden_admin_ids@[i])@ == sender_id@),
{
    let mut i: usize = 0;
    while i < badges.len()
        invariant
            i <= badges@.len(),
            forall|j: int|
                0 <= j < i ==> (#[trigger] badges@[j])@ != "broadcaster"@ && badges@[j]@
                    != "moderator"@,
        decreases badges@.len() - i,
    {
        if crate::text::str_eq(badges[i].as_str(), "broadcaster") || crate::text::str_eq(
            badges[i].as_str(),
            "moderator",
        ) {
            return true;
        }
        i += 1;
    }
    let mut k: usize = 0;
    while k < hidden_admin_ids.len()
        invariant
            k <= hidden_admin_ids@.len(),
            forall|j: int| 0 <= j < k ==> (#[trigger] hidden_admin_ids@[j])@ != sender_id@,
        decreases hidden_admin_ids@.len() - k,
    {
        if crate::text::str_eq(hidden_admin_ids[k].as_str(), sender_id) {
            return true;
        }
        k += 1;
    }
    false
}

/// `s` without its leading `@` characters.
pub open spec fn strip_ats(s: Seq<char>) -> Seq<char>
    decreases s.len(),
{
    if s.len() > 0 && s[0] == '@' {
        strip_ats(s.drop_first())
    } else {
        s
    }
}

fn strip_leading_ats(s: &str) -> (r: String)
    ensures
        r@ == strip_ats(s@),
{
    let cs = crate::text::chars_of(s);
    let mut i: usize = 0;
    assert(cs@.skip(0) =~= cs@);
    while i < cs.len() && cs[i] == '@'
        invariant
            i <= cs@.len(),
            strip_ats(cs@) == strip_ats(cs@.skip(i as int)),
        decreases cs@.len() - i,
    {
        assert(cs@.skip(i as int)[0] == '@');
        assert(cs@.skip(i as int).drop_first() =~= cs@.skip(i + 1));
        i += 1;
    }
    proof {
        if i < cs@.len() {
            assert(cs@.skip(i as int)[0] == cs@[i as int]);
        }
    }
    let mut out: Vec<char> = Vec::new();
    crate::text::push_range(&mut out, &cs, i, cs.len());
    assert(out@ =~= cs@.skip(i as int));
    crate::text::string_from(&out)
}

/// What a `!ping` subcommand asks for.
pub enum PingAdminAction {
    /// Answer with this text.
    Reply(&'static str),
    Create { name: String, template: String },
    Delete { name: String },
    Add { name: String, user: String },
    Remove { name: String, user: String },
    Join { name: String },
    Leave { name: String },
    List,
}


/// Parses `!ping <sub> …`. Names and users are lower-cased, users lose
/// leading `@`s, and the admin-only subcommands (`create`, `delete`, `add`,
/// `remove`) are refused to non-admins.
pub fn plan_ping_admin(args: &Vec<String>, is_admin: bool) -> (r: PingAdminAction)
    ensures
        ({
            let a = args@;
            let sub = if a.len() > 0 {
                a[0]@
            } else {
                Seq::<char>::empty()
            };
            if sub == "create"@ || sub == "delete"@ || sub == "add"@ || sub == "remove"@ {
                if !is_admin {
                    r matches PingAdminAction::Reply(m) && m@ == ADMIN_DENIED_MSG@
                } else if sub == "create"@ {
                    if a.len() < 3 {
                        r matches PingAdminAction::Reply(m) && m@
                            == "Nutze: !ping create <name> <template>"@
                    } else {
                        r matches PingAdminAction::Create { name, template } && name@
                            == lowercase_text(a[1]@) && template@ == crate::text::join(
                            crate::memory::inject::views_of(a.skip(2)),
                            " "@,
                        )
                    }
                } else if sub == "delete"@ {
                    if a.len() < 2 {
                        r matches PingAdminAction::Reply(m) && m@ == "Nutze: !ping delete <name>"@
                    } else {
                        r matches PingAdminAction::Delete { name } && name@ == lowercase_text(
                            a[1]@,
                        )
                    }
                } else if a.len() < 3 {
                    r matches PingAdminAction::Reply(m) && m@ == (if sub == "add"@ {
                        "Nutze: !ping add <name> <user>"@
                    } else {
                        "Nutze: !ping remove <name> <user>"@
                    })
                } else if sub == "add"@ {
                    r matches PingAdminAction::Add { name, user } && name@ == lowercase_text(a[1]@)
                        && user@ == lowercase_text(strip_ats(a[2]@))
                } else {
                    r matches PingAdminAction::Remove { name, user } && name@ == lowercase_text(
                        a[1]@,
                    ) && user@ == lowercase_text(strip_ats(a[2]@))
                }
            } else if sub == "join"@ || sub == "leave"@ {
                if a.len() < 2 {
                    r matches PingAdminAction::Reply(m) && m@ == (if sub == "join"@ {
                        "Nutze: !ping join <name>"@
                    } else {
                        "Nutze: !ping leave <name>"@
                    })
                } else if sub == "join"@ {
                    r matches PingAdminAction::Join { name } && name@ == lowercase_text(a[1]@)
                } else {
                    r matches PingAdminAction::Leave { name } && name@ == lowercase_text(a[1]@)
                }
            } else if sub == "list"@ {
                r is List
            } else {
                r matches PingAdminAction::Reply(m) && m@
                    == "Nutze: join, leave, list (oder create, delete, add, remove als Mod)"@
            }
        }),
{
    let sub: &str = if args.len() > 0 {
        args[0].as_str()
    } else {
        ""
    };
    proof {
        reveal_strlit("");
        reveal_strlit("create");
        reveal_strlit("delete");
        reveal_strlit("add");
        reveal_strlit("remove");
        reveal_strlit("join");
        reveal_strlit("leave");
        reveal_strlit("list");
    }
    assert(sub@ == (if args@.len() > 0 {
        args@[0]@
    } else {
        Seq::<char>::empty()
    }));
    let is_create = crate::text::str_eq(sub, "create");
    let is_delete = crate::text::str_eq(sub, "delete");
    let is_add = crate::text::str_eq(sub, "add");
    let is_remove = crate::text::str_eq(sub, "remove");
    let is_join = crate::text::str_eq(sub, "join");
    let is_leave = crate::text::str_eq(sub, "leave");
    let is_list = crate::text::str_eq(sub, "list");
    if is_create || is_delete || is_add || is_remove {
        if !is_admin {
            return PingAdminAction::Reply(ADMIN_DENIED_MSG);
        }
        if is_create {
            if args.len() < 3 {
                return PingAdminAction::Reply("Nutze: !ping create <name> <template>");
            }
            let mut rest: Vec<String> = Vec::new();
            let mut i: usize = 2;
            while i < args.len()
                invariant
                    2 <= i <= args@.len(),
                    rest@ == args@.subrange(2, i as int),
                decreases args@.len() - i,
            {
                rest.push(args[i].clone());
                assert(rest@ =~= args@.subrange(2, i + 1));
                i += 1;
            }
            assert(rest@ =~= args@.skip(2));
            let name = to_lowercase(args[1].as_str());
            let template = crate::memory::inject::join_strings(&rest, " ");
            return PingAdminAction::Create { name, template };
        }
        if is_delete {
            if args.len() < 2 {
                return PingAdminAction::Reply("Nutze: !ping delete <name>");
            }
            return PingAdminAction::Delete { name: to_lowercase(args[1].as_str()) };
        }
        if args.len() < 3 {
            if is_add {
                return PingAdminAction::Reply("Nutze: !ping add <name> <user>");
            }
            return PingAdminAction::Reply("Nutze: !ping remove <name> <user>");
        }
        let name = to_lowercase(args[1].as_str());
        let user = to_lowercase(strip_leading_ats(args[2].as_str()).as_str());
        if is_add {
            PingAdminAction::Add { name, user }
        } else {
            PingAdminAction::Remove { name, user }
        }
    } else if is_join || is_leave {
        if args.len() < 2 {
            if is_join {
                return PingAdminAction::Reply("Nutze: !ping join <name>");
            }
            return PingAdminAction::Reply("Nutze: !ping leave <name>");
        }
        let name = to_lowercase(args[1].as_str());
        if is_join {
            PingAdminAction::Join { name }
        } else {
            PingAdminAction::Leave { name }
        }
    } else if is_list {
        PingAdminAction::List
    } else {
        PingAdminAction::Reply("Nutze: join, leave, list (oder create, delete, add, remove als Mod)")
    }
}

/// How a ping-store operation went.
pub enum PingOpResult {
    Done,
    /// The store refused, with its message.
    Failed(String),
    /// `join`/`leave` named a ping that does not exist.
    NoSuchPing,
}

/// The chat answer to an executed `!ping` action.
pub fn ping_admin_reply(action: &PingAdminAction, result: &PingOpResult) -> (r: String)
    ensures
        match (*action, *result) {
            (PingAdminAction::Create { name, .. }, PingOpResult::Done) => r@ == "Ping \""@ + name@
                + "\" erstellt Okayge"@,
            (PingAdminAction::Delete { name }, PingOpResult::Done) => r@ == "Ping \""@ + name@
                + "\" gelöscht Okayge"@,
            (PingAdminAction::Add { name, user }, PingOpResult::Done) => r@ == user@ + " zu \""@
                + name@ + "\" hinzugefügt Okayge"@,
            (PingAdminAction::Remove { name, user }, PingOpResult::Done) => r@ == user@
                + " aus \""@ + name@ + "\" entfernt Okayge"@,
            (PingAdminAction::Join { .. }, PingOpResult::Done) => r@ == "Hab ich gemacht Okayge"@,
            (PingAdminAction::Leave { .. }, PingOpResult::Done) => r@ == "Hab ich gemacht Okayge"@,
            (PingAdminAction::Join { .. }, PingOpResult::Failed(_)) => r@ == "Bist du schon FDM"@,
            (PingAdminAction::Leave { .. }, PingOpResult::Failed(_)) => r@
                == "Bist du nicht drin FDM"@,
            (PingAdminAction::Join { name }, PingOpResult::NoSuchPing) => r@ == "Ping \""@ + name@
                + "\" gibt es nicht FDM"@,
            (PingAdminAction::Leave { name }, PingOpResult::NoSuchPing) => r@ == "Ping \""@ + name@
                + "\" gibt es nicht FDM"@,
            (PingAdminAction::Reply(m), _) => r@ == m@,
            (PingAdminAction::List, _) => r@ == Seq::<char>::empty(),
            (_, PingOpResult::Failed(e)) => r@ == e@ + " FDM"@,
            (_, PingOpResult::NoSuchPing) => r@ == Seq::<char>::empty(),
        },
{
    let quoted = |pre: &str, name: &String, post: &str| -> (s: String)
        ensures
            s@ == pre@ + name@ + post@,
        {
            let mut s = String::from_str(pre);
            crate::text::append(&mut s, name.as_str());
            crate::text::append(&mut s, post);
            s
        };
    match (action, result) {
        (PingAdminAction::Create { name, .. }, PingOpResult::Done) => quoted(
            "Ping \"",
            name,
            "\" erstellt Okayge",
        ),
        (PingAdminAction::Delete { name }, PingOpResult::Done) => quoted(
            "Ping \"",
            name,
            "\" gelöscht Okayge",
        ),
        (PingAdminAction::Add { name, user }, PingOpResult::Done) => {
            let mut s = user.clone();
            crate::text::append(&mut s, " zu \"");
            crate::text::append(&mut s, name.as_str());
            crate::text::append(&mut s, "\" hinzugefügt Okayge");
            s
        },
        (PingAdminAction::Remove { name, user }, PingOpResult::Done) => {
            let mut s = user.clone();
            crate::text::append(&mut s, " aus \"");
            crate::text::append(&mut s, name.as_str());
            crate::text::append(&mut s, "\" entfernt Okayge");
            s
        },
        (PingAdminAction::Join { .. }, PingOpResult::Done) => String::from_str(
            "Hab ich gemacht Okayge",
        ),
        (PingAdminAction::Leave { .. }, PingOpResult::Done) => String::from_str(
            "Hab ich gemacht Okayge",
        ),
        (PingAdminAction::Join { .. }, PingOpResult::Failed(_)) => String::from_str(
            "Bist du schon FDM",
        ),
        (PingAdminAction::Leave { .. }, PingOpResult::Failed(_)) => String::from_str(
            "Bist du nicht drin FDM",
        ),
        (PingAdminAction::Join { name }, PingOpResult::NoSuchPing) => quoted(
            "Ping \"",
            name,
            "\" gibt es nicht FDM",
        ),
        (PingAdminAction::Leave { name }, PingOpResult::NoSuchPing) => quoted(
            "Ping \"",
            name,
            "\" gibt es nicht FDM",
        ),
        (PingAdminAction::Reply(m), _) => String::from_str(m),
        (PingAdminAction::List, _) => String::new(),
        (_, PingOpResult::Failed(e)) => crate::text::concat(e.as_str(), " FDM"),
        (_, PingOpResult::NoSuchPing) => String::new(),
    }
}

/// The `!ping list` answer: the sender's pings, or `Keine Pings`.
pub fn ping_list_reply(pings: &Vec<String>) -> (r: String)
    ensures
        pings@.len() == 0 ==> r@ == "Keine Pings"@,
        pings@.len() > 0 ==> r@ == crate::text::join(crate::memory::inject::views_of(pings@), " "@),
{
    if pings.len() == 0 {
        String::from_str("Keine Pings")
    } else {
        crate::memory::inject::join_strings(pings, " ")
    }
}

/// `word` without one leading `!`.
pub open spec fn without_bang(word: Seq<char>) -> Seq<char> {
    if word.len() > 0 && word[0] == '!' {
        word.drop_first()
    } else {
        word
    }
}

/// The ping a trigger word names.
pub fn ping_name_of(word: &str) -> (r: String)
    ensures
        r@ == without_bang(word@),
{
    let cs = crate::text::chars_of(word);
    if cs.len() > 0 && cs[0] == '!' {
        let mut out: Vec<char> = Vec::new();
        crate::text::push_range(&mut out, &cs, 1, cs.len());
        assert(out@ =~= word@.drop_first());
        crate::text::string_from(&out)
    } else {
        String::from_str(word)
    }
}

/// The ping a triggering message names: its first word without `!`.
pub fn ping_trigger_name(message_text: &str) -> (r: String)
    ensures
        r@ == without_bang(
            if words(message_text@).len() > 0 {
                words(message_text@)[0]
            } else {
                Seq::<char>::empty()
            },
        ),
{
    let ws = crate::text::split_whitespace(message_text);
    assert(ws@.len() == words(message_text@).len());
    if ws.len() > 0 {
        assert(ws@[0]@ == words(message_text@)[0]);
        ping_name_of(ws[0].as_str())
    } else {
        proof {
            reveal_strlit("");
        }
        ping_name_of("")
    }
}

// ---------------------------------------------------------------------------
// AI reactions
// ---------------------------------------------------------------------------

/// Whether reactions are on when no setting says otherwise.
pub fn default_global_enabled() -> (r: bool)
    ensures
        r,
{
    true
}

#[derive(Debug, Clone, Copy, PartialEq, Eq)]
pub enum AiReactionLevel {
    Low,
    Medium,
    High,
}

/// Bit patterns of the level percentages 1, 5 and 15 as `f64`.
pub const LOW_PROBABILITY_BITS: u64 = 0x3ff0000000000000;

pub const MEDIUM_PROBABILITY_BITS: u64 = 0x4014000000000000;

pub const HIGH_PROBABILITY_BITS: u64 = 0x402e000000000000;

impl AiReactionLevel {
    /// The level's percentage, as the bit pattern of an `f64`.
    pub fn probability_percent_bits(self) -> (r: u64)
        ensures
            r == match self {
                AiReactionLevel::Low => LOW_PROBABILITY_BITS,
                AiReactionLevel::Medium => MEDIUM_PROBABILITY_BITS,
                AiReactionLevel::High => HIGH_PROBABILITY_BITS,
            },
    {
        match self {
            AiReactionLevel::Low => LOW_PROBABILITY_BITS,
            AiReactionLevel::Medium => MEDIUM_PROBABILITY_BITS,
            AiReactionLevel::High => HIGH_PROBABILITY_BITS,
        }
    }
}

#[derive(Debug, Clone, PartialEq, Eq)]
pub enum ParseAiReactionProbabilityError {
    Empty,
    Invalid,
    OutOfRange,
}

impl ParseAiReactionProbabilityError {
    /// How the error reads in chat.
    pub fn message(&self) -> (r: &'static str)
        ensures
            r@ == (match *self {
                ParseAiReactionProbabilityError::Empty => "Wert fehlt"@,
                ParseAiReactionProbabilityError::Invalid => "Unbekannte Stufe oder ungültige Zahl"@,
                ParseAiReactionProbabilityError::OutOfRange => "Chance muss zwischen 0.01 und 100 liegen"@,
            }),
    {
        match self {
            ParseAiReactionProbabilityError::Empty => "Wert fehlt",
            ParseAiReactionProbabilityError::Invalid => "Unbekannte Stufe oder ungültige Zahl",
            ParseAiReactionProbabilityError::OutOfRange => "Chance muss zwischen 0.01 und 100 liegen",
        }
    }
}

/// A probability as typed: a named level, or the text of a number.
pub enum ProbabilityInput {
    Level(AiReactionLevel),
    /// The number text with a trailing `%` run removed and `,` read as `.`.
    Number(String),
}

pub open spec fn level_named(w: Seq<char>) -> Option<AiReactionLevel> {
    if w == "low"@ || w == "niedrig"@ || w == "selten"@ {
        Some(AiReactionLevel::Low)
    } else if w == "medium"@ || w == "mittel"@ || w == "normal"@ || w == "on"@ || w == "an"@ {
        Some(AiReactionLevel::Medium)
    } else if w == "high"@ || w == "hoch"@ || w == "oft"@ {
        Some(AiReactionLevel::High)
    } else {
        None
    }
}

/// `s` without its trailing `%` characters.
pub open spec fn strip_percent(s: Seq<char>) -> Seq<char>
    decreases s.len(),
{
    if s.len() > 0 && s.last() == '%' {
        strip_percent(s.drop_last())
    } else {
        s
    }
}

/// Reads a probability: blank is an error, a level name (any ASCII case)
/// is a level, anything else is number text for the caller to parse.
pub fn classify_probability_input(input: &str) -> (r: Result<ProbabilityInput, ParseAiReactionProbabilityError>)
    ensures
        trim(input@).len() == 0 ==> r == Err::<ProbabilityInput, ParseAiReactionProbabilityError>(ParseAiReactionProbabilityError::Empty),
        trim(input@).len() > 0 ==> match level_named(ascii_lower(trim(input@))) {
            Some(l) => r matches Ok(ProbabilityInput::Level(m)) && m == l,
            None => r matches Ok(ProbabilityInput::Number(t)) && t@ == crate::text::replace_all(
                strip_percent(ascii_lower(trim(input@))),
                ","@,
                "."@,
            ),
        },
{
    let t = crate::text::trimmed(input);
    if crate::text::chars_of(t.as_str()).len() == 0 {
        return Err(ParseAiReactionProbabilityError::Empty);
    }
    let lower = crate::text::to_ascii_lowercase(t.as_str());
    let w = lower.as_str();
    proof {
        reveal_strlit("low");
        reveal_strlit("niedrig");
        reveal_strlit("selten");
        reveal_strlit("medium");
        reveal_strlit("mittel");
        reveal_strlit("normal");
        reveal_strlit("on");
        reveal_strlit("an");
        reveal_strlit("high");
        reveal_strlit("hoch");
        reveal_strlit("oft");
        reveal_strlit(",");
        reveal_strlit(".");
    }
    let e = |x: &str| -> (b: bool)
        ensures
            b == (w@ == x@),
        { crate::text::str_eq(w, x) };
    if e("low") || e("niedrig") || e("selten") {
        return Ok(ProbabilityInput::Level(AiReactionLevel::Low));
    }
    if e("medium") || e("mittel") || e("normal") || e("on") || e("an") {
        return Ok(ProbabilityInput::Level(AiReactionLevel::Medium));
    }
    if e("high") || e("hoch") || e("oft") {
        return Ok(ProbabilityInput::Level(AiReactionLevel::High));
    }
    let cs = crate::text::chars_of(w);
    let mut n: usize = cs.len();
    assert(cs@.take(n as int) =~= cs@);
    while n > 0 && cs[n - 1] == '%'
        invariant
            n <= cs@.len(),
            strip_percent(cs@) == strip_percent(cs@.take(n as int)),
        decreases n,
    {
        assert(cs@.take(n as int).drop_last() =~= cs@.take(n - 1));
        n -= 1;
    }
    assert(cs@.take(cs@.len() as int) =~= cs@);
    let mut head: Vec<char> = Vec::new();
    crate::text::push_range(&mut head, &cs, 0, n);
    assert(head@ =~= cs@.take(n as int));
    let stripped = crate::text::string_from(&head);
    Ok(ProbabilityInput::Number(crate::text::str_replace(stripped.as_str(), ",", ".")))
}

/// The user turn of a random reaction.
pub fn random_reaction_prompt(username: &str, message: &str) -> (r: String)
    ensures
        r@ == "A Twitch chatter @"@ + username@
            + " wrote this message and opted in to occasional AI reactions. Reply directly to the message in the same language. Keep it brief enough for Twitch chat (1-2 short sentences). Do not mention that the reaction was random or opt-in.\n\nMessage: "@
            + message@,
{
    let mut s = String::from_str("A Twitch chatter @");
    crate::text::append(&mut s, username);
    crate::text::append(&mut s, " wrote this message and opted in to occasional AI reactions. Reply directly to the message in the same language. Keep it brief enough for Twitch chat (1-2 short sentences). Do not mention that the reaction was random or opt-in.\n\nMessage: ");
    crate::text::append(&mut s, message);
    s
}

/// What `!aireact` asks for.
pub enum AiReactAction {
    /// Answer with this text.
    Reply(&'static str),
    /// Opt in with this probability text.
    UserSet(String),
    UserOff,
    Status,
    GlobalOn,
    GlobalOff,
    GlobalStatus,
}


/// Routes `!aireact [sub] [value]`.
pub fn plan_ai_react(ai_available: bool, args: &Vec<String>, is_admin: bool) -> (r: AiReactAction)
    ensures
        ({
            let a = args@;
            let sub = if a.len() > 0 {
                a[0]@
            } else {
                "status"@
            };
            if !ai_available {
                r matches AiReactAction::Reply(m) && m@ == "AI ist nicht konfiguriert FDM"@
            } else if sub == "global"@ {
                let act = if a.len() > 1 {
                    a[1]@
                } else {
                    "status"@
                };
                if !is_admin {
                    r matches AiReactAction::Reply(m) && m@ == ADMIN_DENIED_MSG@
                } else if act == "on"@ || act == "an"@ || act == "enable"@ || act == "aktivieren"@ {
                    r is GlobalOn
                } else if act == "off"@ || act == "aus"@ || act == "disable"@ || act
                    == "deaktivieren"@ {
                    r is GlobalOff
                } else if act == "status"@ {
                    r is GlobalStatus
                } else {
                    r matches AiReactAction::Reply(m) && m@ == "Nutze: !aireact global on|off|status"@
                }
            } else if sub == "off"@ || sub == "aus"@ || sub == "disable"@ || sub == "deaktivieren"@ {
                r is UserOff
            } else if sub == "status"@ {
                r is Status
            } else if sub == "on"@ || sub == "an"@ {
                r matches AiReactAction::UserSet(v) && v@ == (if a.len() > 1 {
                    a[1]@
                } else {
                    "medium"@
                })
            } else {
                r matches AiReactAction::UserSet(v) && v@ == sub
            }
        }),
{
    proof {
        reveal_strlit("global");
        reveal_strlit("status");
        reveal_strlit("on");
        reveal_strlit("an");
        reveal_strlit("enable");
        reveal_strlit("aktivieren");
        reveal_strlit("off");
        reveal_strlit("aus");
        reveal_strlit("disable");
        reveal_strlit("deaktivieren");
    }
    if !ai_available {
        return AiReactAction::Reply("AI ist nicht konfiguriert FDM");
    }
    let sub: &str = if args.len() > 0 {
        args[0].as_str()
    } else {
        "status"
    };
    assert(sub@ == (if args@.len() > 0 {
        args@[0]@
    } else {
        "status"@
    }));
    if crate::text::str_eq(sub, "global") {
        if !is_admin {
            return AiReactAction::Reply(ADMIN_DENIED_MSG);
        }
        let act: &str = if args.len() > 1 {
            args[1].as_str()
        } else {
            "status"
        };
        assert(act@ == (if args@.len() > 1 {
            args@[1]@
        } else {
            "status"@
        }));
        let e = |x: &str| -> (b: bool)
            ensures
                b == (act@ == x@),
            { crate::text::str_eq(act, x) };
        if e("on") || e("an") || e("enable") || e("aktivieren") {
            AiReactAction::GlobalOn
        } else if e("off") || e("aus") || e("disable") || e("deaktivieren") {
            AiReactAction::GlobalOff
        } else if e("status") {
            AiReactAction::GlobalStatus
        } else {
            AiReactAction::Reply("Nutze: !aireact global on|off|status")
        }
    } else {
        let e = |x: &str| -> (b: bool)
            ensures
                b == (sub@ == x@),
            { crate::text::str_eq(sub, x) };
        if e("off") || e("aus") || e("disable") || e("deaktivieren") {
            AiReactAction::UserOff
        } else if e("status") {
            AiReactAction::Status
        } else if e("on") || e("an") {
            if args.len() > 1 {
                AiReactAction::UserSet(args[1].clone())
            } else {
                AiReactAction::UserSet(String::from_str("medium"))
            }
        } else {
            AiReactAction::UserSet(String::from_str(sub))
        }
    }
}

/// The `!aireact` answers that do not depend on a probability.
pub fn ai_react_reply(action: &AiReactAction, removed_or_enabled: bool) -> (r: &'static str)
    ensures
        match *action {
            AiReactAction::Reply(m) => r == m,
            AiReactAction::GlobalOn => r@ == "AI-Reaktionen global aktiviert Okayge"@,
            AiReactAction::GlobalOff => r@ == "AI-Reaktionen global deaktiviert Okayge"@,
            AiReactAction::GlobalStatus => r@ == (if removed_or_enabled {
                "AI-Reaktionen global: an"@
            } else {
                "AI-Reaktionen global: aus"@
            }),
            AiReactAction::UserOff => r@ == (if removed_or_enabled {
                "AI-Reaktionen für deine Nachrichten deaktiviert Okayge"@
            } else {
                "AI-Reaktionen waren für dich nicht aktiviert Okayge"@
            }),
            _ => r@ == Seq::<char>::empty(),
        },
{
    proof {
        reveal_strlit("");
    }
    match action {
        AiReactAction::Reply(m) => m,
        AiReactAction::GlobalOn => "AI-Reaktionen global aktiviert Okayge",
        AiReactAction::GlobalOff => "AI-Reaktionen global deaktiviert Okayge",
        AiReactAction::GlobalStatus => if removed_or_enabled {
            "AI-Reaktionen global: an"
        } else {
            "AI-Reaktionen global: aus"
        },
        AiReactAction::UserOff => if removed_or_enabled {
            "AI-Reaktionen für deine Nachrichten deaktiviert Okayge"
        } else {
            "AI-Reaktionen waren für dich nicht aktiviert Okayge"
        },
        _ => "",
    }
}

/// The `!aireact status` answer; `probability` is the user's rendered
/// chance, when they opted in.
pub fn ai_react_status_reply(global_enabled: bool, probability: &Option<String>) -> (r: String)
    ensures
        r@ == (match *probability {
            Some(p) => if global_enabled {
                "AI-Reaktionen für dich: "@ + p@ + " Chance"@
            } else {
                "AI-Reaktionen für dich: "@ + p@ + " Chance, aber global aus"@
            },
            None => if global_enabled {
                "AI-Reaktionen für dich: aus"@
            } else {
                "AI-Reaktionen für dich: aus, global aus"@
            },
        }),
{
    match probability {
        Some(p) => {
            let mut s = String::from_str("AI-Reaktionen für dich: ");
            crate::text::append(&mut s, p.as_str());
            if global_enabled {
                crate::text::append(&mut s, " Chance");
            } else {
                crate::text::append(&mut s, " Chance, aber global aus");
            }
            s
        },
        None => if global_enabled {
            String::from_str("AI-Reaktionen für dich: aus")
        } else {
            String::from_str("AI-Reaktionen für dich: aus, global aus")
        },
    }
}

/// The answer to setting a probability: the rendered chance on success,
/// the parse error and usage otherwise.
pub fn ai_react_set_reply(result: &Result<String, ParseAiReactionProbabilityError>) -> (r: String)
    ensures
        r@ == (match *result {
            Ok(p) => "AI-Reaktionen aktiviert: "@ + p@ + " Chance Okayge"@,
            Err(e) => e.message_spec()
                + " FDM. Nutze: !aireact low|medium|high|<prozent> oder !aireact off"@,
        }),
{
    match result {
        Ok(p) => {
            let mut s = String::from_str("AI-Reaktionen aktiviert: ");
            crate::text::append(&mut s, p.as_str());
            crate::text::append(&mut s, " Chance Okayge");
            s
        },
        Err(e) => crate::text::concat(
            e.message(),
            " FDM. Nutze: !aireact low|medium|high|<prozent> oder !aireact off",
        ),
    }
}

impl ParseAiReactionProbabilityError {
    pub open spec fn message_spec(&self) -> Seq<char> {
        match *self {
            ParseAiReactionProbabilityError::Empty => "Wert fehlt"@,
            ParseAiReactionProbabilityError::Invalid => "Unbekannte Stufe oder ungültige Zahl"@,
            ParseAiReactionProbabilityError::OutOfRange => "Chance muss zwischen 0.01 und 100 liegen"@,
        }
    }
}

// ---------------------------------------------------------------------------
// Dispatch
// ---------------------------------------------------------------------------

/// A chat command the dispatcher can hold.
#[derive(Debug, PartialEq, Eq, Structural)]
pub enum CommandKind {
    AiReact,
    PingAdmin,
    Suspend,
    Unsuspend,
    RandomFlight,
    FlightsAbove,
    Leaderboard,
    Feedback,
    Track,
    Untrack,
    Flights,
    Flight,
    Ai,
    News,
    PingTrigger,
}

/// The chat history buffer the commands share.
#[derive(Debug, PartialEq, Eq, Structural)]
pub enum HistorySetup {
    /// No history (a length of 0, or no AI settings).
    Off,
    /// An empty buffer of this length.
    Empty(u64),
    /// A buffer of this length, filled from the prefill service first.
    Prefilled(u64),
}

/// The AI settings the command setup reads.
pub struct AiSetupConfig {
    pub history_length: u64,
    pub prefill_configured: bool,
    pub emotes_enabled: bool,
}

/// What the command handler builds.
pub struct CommandSetup {
    /// `!ai`, `!news` and AI reactions are on.
    pub ai_enabled: bool,
    pub history: HistorySetup,
    /// The 7TV emote glossary is set up (it may still fail to start).
    pub try_emote_grounding: bool,
    /// The commands, in the order the dispatcher tries them.
    pub commands: Vec<CommandKind>,
}

/// The commands in dispatch order: the fixed ones, the flight tracker's when
/// the tracker runs, `!ai` and `!news` when AI is on, and the ping trigger
/// last so that no built-in command is shadowed by a ping of the same name.
pub open spec fn command_order(tracker: bool, ai: bool) -> Seq<CommandKind> {
    seq![
        CommandKind::AiReact,
        CommandKind::PingAdmin,
        CommandKind::Suspend,
        CommandKind::Unsuspend,
        CommandKind::RandomFlight,
        CommandKind::FlightsAbove,
        CommandKind::Leaderboard,
        CommandKind::Feedback,
    ] + (if tracker {
        seq![CommandKind::Track, CommandKind::Untrack, CommandKind::Flights, CommandKind::Flight]
    } else {
        Seq::empty()
    }) + (if ai {
        seq![CommandKind::Ai, CommandKind::News]
    } else {
        Seq::empty()
    }) + seq![CommandKind::PingTrigger]
}

/// The decisions of the command handler's setup: AI needs both a model
/// client and AI settings; the history buffer exists when its length is
/// above 0 (prefilled when a prefill service is configured); the emote
/// glossary is tried when AI is on and emotes are enabled.
pub fn plan_command_setup(llm_available: bool, ai: &Option<AiSetupConfig>, tracker_available: bool) -> (r:
    CommandSetup)
    ensures
        r.ai_enabled == (llm_available && ai is Some),
        r.history == (match *ai {
            Some(c) => if c.history_length == 0 {
                HistorySetup::Off
            } else if c.prefill_configured {
                HistorySetup::Prefilled(c.history_length)
            } else {
                HistorySetup::Empty(c.history_length)
            },
            None => HistorySetup::Off,
        }),
        r.try_emote_grounding == (llm_available && (ai matches Some(c) && c.emotes_enabled)),
        r.commands@ == command_order(tracker_available, llm_available && ai is Some),
{
    let (ai_enabled, history, emotes) = match ai {
        Some(c) => {
            let h = if c.history_length == 0 {
                HistorySetup::Off
            } else if c.prefill_configured {
                HistorySetup::Prefilled(c.history_length)
            } else {
                HistorySetup::Empty(c.history_length)
            };
            (llm_available, h, llm_available && c.emotes_enabled)
        },
        None => (false, HistorySetup::Off, false),
    };
    let mut commands: Vec<CommandKind> = vec![
        CommandKind::AiReact,
        CommandKind::PingAdmin,
        CommandKind::Suspend,
        CommandKind::Unsuspend,
        CommandKind::RandomFlight,
        CommandKind::FlightsAbove,
        CommandKind::Leaderboard,
        CommandKind::Feedback,
    ];
    let ghost base = commands@;
    if tracker_available {
        commands.push(CommandKind::Track);
        commands.push(CommandKind::Untrack);
        commands.push(CommandKind::Flights);
        commands.push(CommandKind::Flight);
    }
    let ghost with_tracker = commands@;
    if ai_enabled {
        commands.push(CommandKind::Ai);
        commands.push(CommandKind::News);
    }
    let ghost with_ai = commands@;
    commands.push(CommandKind::PingTrigger);
    proof {
        let t: Seq<CommandKind> = if tracker_available {
            seq![CommandKind::Track, CommandKind::Untrack, CommandKind::Flights, CommandKind::Flight]
        } else {
            Seq::empty()
        };
        let a: Seq<CommandKind> = if ai_enabled {
            seq![CommandKind::Ai, CommandKind::News]
        } else {
            Seq::empty()
        };
        assert(with_tracker =~= base + t);
        assert(with_ai =~= base + t + a);
        assert(commands@ =~= command_order(tracker_available, ai_enabled));
    }
    CommandSetup { ai_enabled, history, try_emote_grounding: emotes, commands }
}

/// How the dispatcher treats one chat message.
pub struct RoutedMessage {
    /// Whether the message goes into the chat history (main channel only).
    pub record_in_history: bool,
    pub is_admin_channel: bool,
    /// The message's words; the first is the candidate command.
    pub words: Vec<String>,
    /// The first word starts with `!`.
    pub command_like: bool,
}

/// Routes a chat message. In the admin channel only the broadcaster is
/// heard (`None` otherwise).
pub fn route_privmsg(
    admin_channel: &Option<String>,
    channel_login: &str,
    badges: &Vec<String>,
    message_text: &str,
) -> (r: Option<RoutedMessage>)
    ensures
        ({
            let in_admin = admin_channel matches Some(a) && a@ == channel_login@;
            if in_admin && !crate::memory::tools::has_badge(badges@, "broadcaster"@) {
                r is None
            } else {
                r matches Some(m) && m.is_admin_channel == in_admin && m.record_in_history
                    == !in_admin && m.words@.map_values(|w: String| w@) == words(message_text@)
                    && m.command_like == (words(message_text@).len() > 0 && words(
                    message_text@,
                )[0].len() > 0 && words(message_text@)[0][0] == '!')
            }
        }),
{
    let in_admin = match admin_channel {
        Some(a) => crate::text::str_eq(a.as_str(), channel_login),
        None => false,
    };
    if in_admin && !crate::memory::tools::badge_present(badges, "broadcaster") {
        return None;
    }
    let ws = crate::text::split_whitespace(message_text);
    let command_like = if ws.len() > 0 {
        assert(ws@.map_values(|w: String| w@)[0] == ws@[0]@);
        let first = crate::text::chars_of(ws[0].as_str());
        first.len() > 0 && first[0] == '!'
    } else {
        false
    };
    Some(RoutedMessage {
        record_in_history: !in_admin,
        is_admin_channel: in_admin,
        words: ws,
        command_like,
    })
}

/// With no command matched, a random AI reaction is considered only for
/// ordinary messages outside the admin channel, and never for the bot's
/// own messages.
pub fn reaction_candidate(
    command_like: bool,
    is_admin_channel: bool,
    sender_login: &str,
    bot_username: &str,
) -> (r: bool)
    ensures
        r == (!command_like && !is_admin_channel && ascii_lower(sender_login@) != ascii_lower(
            bot_username@,
        )),
{
    !command_like && !is_admin_channel && !crate::text::eq_ignore_ascii_case(sender_login, bot_username)
}

} // verus!
