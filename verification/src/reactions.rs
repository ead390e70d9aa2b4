//! Who opted in to random AI reactions, and with which chance. A user's
//! chance is the bit pattern of an `f64` percentage; checking its range
//! and writing the file are the caller's part.

use vstd::prelude::*;
use crate::memory::store::{has_key, key_index, keys_unique};
use crate::text::{ascii_lower, trim};

verus! {

/// One user's opt-in.
#[derive(Debug, Clone, PartialEq, Eq)]
pub struct UserAiReactionSetting {
    pub username: String,
    pub probability_bits: u64,
}

/// The persisted opt-ins: a global switch and one setting per user id.
pub struct AiReactionStore {
    pub global_enabled: bool,
    pub users: Vec<(String, UserAiReactionSetting)>,
}

impl Default for AiReactionStore {
    fn default() -> (r: Self)
        ensures
            r.global_enabled,
            r.users@.len() == 0,
    {
        AiReactionStore { global_enabled: crate::commands::default_global_enabled(), users: Vec::new() }
    }
}

/// A setting as a pair of values.
pub open spec fn setting_view(s: UserAiReactionSetting) -> (Seq<char>, u64) {
    (s.username@, s.probability_bits)
}

/// The settings by user id.
pub open spec fn user_map(es: Seq<(String, UserAiReactionSetting)>) -> Map<Seq<char>, (Seq<char>, u64)> {
    Map::new(|k: Seq<char>| has_key(es, k), |k: Seq<char>| setting_view(es[key_index(es, k)].1))
}

/// The settings of a stored list by user id; a later entry for an id
/// replaces an earlier one.
pub open spec fn stored_map(es: Seq<(String, UserAiReactionSetting)>) -> Map<
    Seq<char>,
    (Seq<char>, u64),
>
    decreases es.len(),
{
    if es.len() == 0 {
        Map::empty()
    } else {
        stored_map(es.drop_last()).insert(es.last().0@, setting_view(es.last().1))
    }
}

/// The opt-in state, with one setting per user id.
pub struct AiReactionManager {
    pub store: AiReactionStore,
}

impl AiReactionManager {
    pub open spec fn well_formed(&self) -> bool {
        keys_unique(self.store.users@)
    }

    /// The settings by user id.
    pub open spec fn users(&self) -> Map<Seq<char>, (Seq<char>, u64)> {
        user_map(self.store.users@)
    }

    /// An empty manager with reactions globally on.
    pub fn new() -> (r: AiReactionManager)
        ensures
            r.well_formed(),
            r.store.global_enabled,
            r.users() == Map::<Seq<char>, (Seq<char>, u64)>::empty(),
    {
        let r = AiReactionManager { store: AiReactionStore::default() };
        assert(r.users() =~= Map::<Seq<char>, (Seq<char>, u64)>::empty());
        r
    }

    /// A manager over stored settings; a user id stored twice keeps its
    /// last setting.
    pub fn from_store(store: AiReactionStore) -> (r: AiReactionManager)
        ensures
            r.well_formed(),
            r.store.global_enabled == store.global_enabled,
            r.users() == stored_map(store.users@),
    {
        let mut m = AiReactionManager::new();
        m.store.global_enabled = store.global_enabled;
        let users = store.users;
        let mut i: usize = 0;
        assert(users@.take(0) =~= Seq::<(String, UserAiReactionSetting)>::empty());
        while i < users.len()
            invariant
                i <= users@.len(),
                m.well_formed(),
                m.store.global_enabled == store.global_enabled,
                users@ == store.users@,
                m.users() == stored_map(users@.take(i as int)),
            decreases users@.len() - i,
        {
            let id = users[i].0.clone();
            let name = users[i].1.username.clone();
            let bits = users[i].1.probability_bits;
            m.set_user(id, name, bits);
            assert(users@.take(i + 1).drop_last() =~= users@.take(i as int));
            assert(users@.take(i + 1).last() == users@[i as int]);
            i += 1;
        }
        assert(users@.take(users@.len() as int) =~= users@);
        m
    }

    pub fn global_enabled(&self) -> (r: bool)
        ensures
            r == self.store.global_enabled,
    {
        self.store.global_enabled
    }

    pub fn set_global_enabled(&mut self, enabled: bool)
        requires
            old(self).well_formed(),
        ensures
            final(self).well_formed(),
            final(self).store.global_enabled == enabled,
            final(self).users() == old(self).users(),
    {
        self.store.global_enabled = enabled;
    }

    /// The position of `user_id`.
    fn find(&self, user_id: &str) -> (r: Option<usize>)
        requires
            self.well_formed(),
        ensures
            match r {
                Some(i) => has_key(self.store.users@, user_id@) && i == key_index(
                    self.store.users@,
                    user_id@,
                ) && i < self.store.users@.len(),
                None => !has_key(self.store.users@, user_id@),
            },
    {
        crate::memory::store::find_key(&self.store.users, user_id)
    }

    /// Opts a user in with a chance, replacing an earlier setting.
    pub fn set_user(&mut self, user_id: String, username: String, probability_bits: u64)
        requires
            old(self).well_formed(),
        ensures
            final(self).well_formed(),
            final(self).store.global_enabled == old(self).store.global_enabled,
            final(self).users() == old(self).users().insert(
                user_id@,
                (username@, probability_bits),
            ),
    {
        let ghost before = self.store.users@;
        let setting = UserAiReactionSetting { username, probability_bits };
        match self.find(user_id.as_str()) {
            Some(i) => {
                self.store.users.set(i, (user_id, setting));
                proof {
                    let after = self.store.users@;
                    assert(after == before.update(i as int, after[i as int]));
                    lemma_unique_after_update(before, i as int, after[i as int]);
                    lemma_map_after_update(before, i as int, after[i as int]);
                }
            },
            None => {
                self.store.users.push((user_id, setting));
                proof {
                    let after = self.store.users@;
                    lemma_map_after_push(before, after.last());
                    assert(after == before.push(after.last()));
                }
            },
        }
    }

    /// Opts a user out; whether there was a setting to drop.
    pub fn remove_user(&mut self, user_id: &str) -> (r: bool)
        requires
            old(self).well_formed(),
        ensures
            final(self).well_formed(),
            final(self).store.global_enabled == old(self).store.global_enabled,
            r == old(self).users().contains_key(user_id@),
            final(self).users() == old(self).users().remove(user_id@),
    {
        let ghost before = self.store.users@;
        match self.find(user_id) {
            Some(i) => {
                self.store.users.remove(i);
                proof {
                    lemma_map_after_remove(before, i as int);
                }
                true
            },
            None => {
                assert(self.users() =~= self.users().remove(user_id@));
                false
            },
        }
    }

    /// A user's chance, if opted in.
    pub fn user_probability(&self, user_id: &str) -> (r: Option<u64>)
        requires
            self.well_formed(),
        ensures
            r == (if self.users().contains_key(user_id@) {
                Some(self.users()[user_id@].1)
            } else {
                None::<u64>
            }),
    {
        match self.find(user_id) {
            Some(i) => Some(self.store.users[i].1.probability_bits),
            None => None,
        }
    }

    /// A user's chance while reactions are globally on.
    pub fn probability_for(&self, user_id: &str) -> (r: Option<u64>)
        requires
            self.well_formed(),
        ensures
            r == (if self.store.global_enabled && self.users().contains_key(user_id@) {
                Some(self.users()[user_id@].1)
            } else {
                None::<u64>
            }),
    {
        if !self.store.global_enabled {
            return None;
        }
        self.user_probability(user_id)
    }
}

/// The chance to react to a chat message: only with a responder, never to
/// the bot's own messages, and only for a user opted in while reactions
/// are on. Rolling against it is the caller's part.
pub fn reaction_chance(
    m: &AiReactionManager,
    responder_ready: bool,
    sender_login: &str,
    sender_id: &str,
    bot_username: &str,
) -> (r: Option<u64>)
    requires
        m.well_formed(),
    ensures
        r == (if responder_ready && ascii_lower(sender_login@) != ascii_lower(bot_username@)
            && m.store.global_enabled && m.users().contains_key(sender_id@) {
            Some(m.users()[sender_id@].1)
        } else {
            None::<u64>
        }),
{
    if !responder_ready || crate::text::eq_ignore_ascii_case(sender_login, bot_username) {
        return None;
    }
    m.probability_for(sender_id)
}

/// The reaction to post: the model's text, unless it is blank.
pub fn reaction_reply(text: String) -> (r: Option<String>)
    ensures
        r == (if trim(text@).len() == 0 { None::<String> } else { Some(text) }),
{
    if crate::text::chars_of(crate::text::trimmed(text.as_str()).as_str()).len() == 0 {
        None
    } else {
        Some(text)
    }
}

/// The reaction to post, recorded as the bot's line in the chat history
/// when there is one; a blank text is neither posted nor recorded.
pub fn post_reaction(
    text: String,
    history: &mut Option<crate::history::ChatHistoryBuffer>,
    settings: &crate::settings::Settings,
    bot_username: &str,
) -> (r: Option<String>)
    ensures
        r == (if trim(text@).len() == 0 { None::<String> } else { Some(text) }),
        match *old(history) {
            Some(b) => if r is Some {
                *final(history) matches Some(b2) && crate::history::ChatHistoryBuffer::bot_line_recorded(
                    b,
                    b2,
                    *settings,
                    bot_username@,
                    text@,
                )
            } else {
                *final(history) == *old(history)
            },
            None => *final(history) is None,
        },
{
    let r = reaction_reply(text);
    if let Some(t) = &r {
        if let Some(buf) = history {
            buf.record_bot_line(settings, bot_username, t.as_str());
        }
    }
    r
}

/// Replacing the entry at `i` by one with the same key keeps keys unique.
proof fn lemma_unique_after_update(
    es: Seq<(String, UserAiReactionSetting)>,
    i: int,
    e: (String, UserAiReactionSetting),
)
    requires
        keys_unique(es),
        0 <= i < es.len(),
        e.0@ == es[i].0@,
    ensures
        keys_unique(es.update(i, e)),
{
    let after = es.update(i, e);
    assert forall|a: int, b: int| 0 <= a < b < after.len() implies (#[trigger] after[a]).0@
        != (#[trigger] after[b]).0@ by {
        assert(es[a].0@ != es[b].0@);
    }
}

/// Replacing the entry at `i` by one with the same key updates the map at
/// that key.
proof fn lemma_map_after_update(
    es: Seq<(String, UserAiReactionSetting)>,
    i: int,
    e: (String, UserAiReactionSetting),
)
    requires
        keys_unique(es),
        0 <= i < es.len(),
        e.0@ == es[i].0@,
    ensures
        user_map(es.update(i, e)) == user_map(es).insert(e.0@, setting_view(e.1)),
{
    let after = es.update(i, e);
    lemma_unique_after_update(es, i, e);
    assert forall|k: Seq<char>| #[trigger] has_key(after, k) <==> (has_key(es, k)) by {
        if has_key(after, k) {
            let j = key_index(after, k);
            if j == i {
                assert(es[i].0@ == k);
            } else {
                assert(es[j] == after[j]);
            }
        }
        if has_key(es, k) {
            let j = key_index(es, k);
            if j == i {
                assert(after[i].0@ == k);
            } else {
                assert(es[j] == after[j]);
            }
        }
    }
    assert(has_key(es, e.0@)) by {
        assert(es[i].0@ == e.0@);
    }
    assert forall|k: Seq<char>| #[trigger] has_key(after, k) implies setting_view(
        after[key_index(after, k)].1,
    ) == (if k == e.0@ {
        setting_view(e.1)
    } else {
        setting_view(es[key_index(es, k)].1)
    }) by {
        let j = key_index(after, k);
        if k == e.0@ {
            if j != i {
                assert(after[j].0@ == after[i].0@);
                if j < i {
                    assert(after[j].0@ != after[i].0@);
                } else {
                    assert(after[i].0@ != after[j].0@);
                }
            }
        } else {
            let j2 = key_index(es, k);
            assert(j != i);
            assert(after[j] == es[j]);
            if j2 != j {
                if j2 < j {
                    assert(es[j2].0@ != es[j].0@);
                } else {
                    assert(es[j].0@ != es[j2].0@);
                }
            }
        }
    }
    assert(user_map(after) =~= user_map(es).insert(e.0@, setting_view(e.1)));
}

/// Pushing an entry with a new key adds it to the map.
proof fn lemma_map_after_push(es: Seq<(String, UserAiReactionSetting)>, e: (String, UserAiReactionSetting))
    requires
        keys_unique(es),
        !has_key(es, e.0@),
    ensures
        keys_unique(es.push(e)),
        user_map(es.push(e)) == user_map(es).insert(e.0@, setting_view(e.1)),
{
    let after = es.push(e);
    assert forall|a: int, b: int| 0 <= a < b < after.len() implies (#[trigger] after[a]).0@
        != (#[trigger] after[b]).0@ by {
        if b == es.len() {
            assert(after[a] == es[a]);
        } else {
            assert(after[a] == es[a]);
            assert(after[b] == es[b]);
        }
    }
    assert forall|k: Seq<char>| #[trigger] has_key(after, k) <==> (has_key(es, k) || k == e.0@) by {
        if has_key(after, k) {
            let j = key_index(after, k);
            if j < es.len() {
                assert(es[j] == after[j]);
            }
        }
        if has_key(es, k) {
            let j = key_index(es, k);
            assert(after[j] == es[j]);
        }
        if k == e.0@ {
            assert(after[es.len() as int] == e);
        }
    }
    assert forall|k: Seq<char>| #[trigger] has_key(after, k) implies setting_view(
        after[key_index(after, k)].1,
    ) == (if k == e.0@ {
        setting_view(e.1)
    } else {
        setting_view(es[key_index(es, k)].1)
    }) by {
        let j = key_index(after, k);
        if k == e.0@ {
            if j < es.len() {
                assert(es[j] == after[j]);
            }
        } else {
            assert(j < es.len());
            assert(after[j] == es[j]);
            let j2 = key_index(es, k);
            assert(after[j2] == es[j2]);
            if j2 != j {
                if j2 < j {
                    assert(after[j2].0@ != after[j].0@);
                } else {
                    assert(after[j].0@ != after[j2].0@);
                }
            }
        }
    }
    assert(user_map(after) =~= user_map(es).insert(e.0@, setting_view(e.1)));
}

/// Removing the entry at `i` removes its key from the map.
proof fn lemma_map_after_remove(es: Seq<(String, UserAiReactionSetting)>, i: int)
    requires
        keys_unique(es),
        0 <= i < es.len(),
    ensures
        keys_unique(es.remove(i)),
        user_map(es.remove(i)) == user_map(es).remove(es[i].0@),
        user_map(es).contains_key(es[i].0@),
{
    let after = es.remove(i);
    let k0 = es[i].0@;
    assert(has_key(es, k0));
    assert forall|a: int, b: int| 0 <= a < b < after.len() implies (#[trigger] after[a]).0@
        != (#[trigger] after[b]).0@ by {
        let a2 = if a < i { a } else { a + 1 };
        let b2 = if b < i { b } else { b + 1 };
        assert(after[a] == es[a2]);
        assert(after[b] == es[b2]);
        assert(es[a2].0@ != es[b2].0@);
    }
    assert forall|k: Seq<char>| #[trigger] has_key(after, k) <==> (has_key(es, k) && k != k0) by {
        if has_key(after, k) {
            let j = key_index(after, k);
            let j2 = if j < i { j } else { j + 1 };
            assert(after[j] == es[j2]);
            if k == k0 {
                if j2 < i {
                    assert(es[j2].0@ != es[i].0@);
                } else {
                    assert(es[i].0@ != es[j2].0@);
                }
            }
        }
        if has_key(es, k) && k != k0 {
            let j = key_index(es, k);
            assert(j != i);
            let j2 = if j < i { j } else { j - 1 };
            assert(after[j2] == es[j]);
        }
    }
    assert forall|k: Seq<char>| #[trigger] has_key(after, k) implies setting_view(
        after[key_index(after, k)].1,
    ) == setting_view(es[key_index(es, k)].1) by {
        let j = key_index(after, k);
        let j2 = if j < i { j } else { j + 1 };
        assert(after[j] == es[j2]);
        let j3 = key_index(es, k);
        if j3 != j2 {
            if j3 < j2 {
                assert(es[j3].0@ != es[j2].0@);
            } else {
                assert(es[j2].0@ != es[j3].0@);
            }
        }
    }
    assert(user_map(after) =~= user_map(es).remove(k0));
}

/// A chance set for a user is the chance read back for them, and every
/// other user's setting stays as it was.
pub proof fn lemma_set_then_read(
    users: Map<Seq<char>, (Seq<char>, u64)>,
    user_id: Seq<char>,
    username: Seq<char>,
    bits: u64,
)
    ensures
        users.insert(user_id, (username, bits)).contains_key(user_id),
        users.insert(user_id, (username, bits))[user_id].1 == bits,
        forall|other: Seq<char>|
            other != user_id ==> (#[trigger] users.insert(user_id, (username, bits)).contains_key(
                other,
            ) == users.contains_key(other) && (users.contains_key(other) ==> users.insert(
                user_id,
                (username, bits),
            )[other] == users[other])),
{
}

/// After a user opts out, no chance is read for them.
pub proof fn lemma_removed_reads_nothing(users: Map<Seq<char>, (Seq<char>, u64)>, user_id: Seq<char>)
    ensures
        !users.remove(user_id).contains_key(user_id),
{
}

} // verus!
