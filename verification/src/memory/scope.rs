//! Who a remembered fact is about, and how much a speaker is trusted.
use vstd::prelude::*;

verus! {

/// The subject of a fact: one viewer, the channel's lore, or a viewer's
/// preference.
#[derive(Debug, Clone, PartialEq, Eq, Hash)]
pub enum Scope {
    User { subject_id: String },
    Lore,
    Pref { subject_id: String },
}

impl Scope {
    /// The short name of the scope kind.
    pub fn tag(&self) -> (r: &'static str)
        ensures
            r@ == (match *self {
                Scope::User { .. } => "user"@,
                Scope::Lore => "lore"@,
                Scope::Pref { .. } => "pref"@,
            }),
    {
        match self {
            Scope::User { .. } => "user",
            Scope::Lore => "lore",
            Scope::Pref { .. } => "pref",
        }
    }

    /// The viewer the fact is about, for user and preference facts.
    pub fn subject_id(&self) -> (r: Option<&str>)
        ensures
            match *self {
                Scope::User { subject_id } => r matches Some(s) && s@ == subject_id@,
                Scope::Pref { subject_id } => r matches Some(s) && s@ == subject_id@,
                Scope::Lore => r is None,
            },
    {
        match self {
            Scope::User { subject_id } => Some(subject_id.as_str()),
            Scope::Pref { subject_id } => Some(subject_id.as_str()),
            Scope::Lore => None,
        }
    }
}

/// A chat speaker's standing, ordered by rank (`Regular < Moderator <
/// Broadcaster`).
#[derive(Debug, Clone, Copy, PartialEq, Eq, PartialOrd, Ord)]
pub enum UserRole {
    Regular,
    Moderator,
    Broadcaster,
}

/// The rank behind the ordering of `UserRole`.
pub open spec fn role_rank(r: UserRole) -> int {
    match r {
        UserRole::Regular => 0,
        UserRole::Moderator => 1,
        UserRole::Broadcaster => 2,
    }
}

impl UserRole {
    /// The rank of the role: regular 0, moderator 1, broadcaster 2.
    pub fn rank(self) -> (r: u8)
        ensures
            r == role_rank(self),
    {
        match self {
            UserRole::Regular => 0,
            UserRole::Moderator => 1,
            UserRole::Broadcaster => 2,
        }
    }

    /// Whether `self` ranks above `other`.
    pub fn outranks(self, other: UserRole) -> (r: bool)
        ensures
            r == (role_rank(self) > role_rank(other)),
    {
        self.rank() > other.rank()
    }
}

/// How far a claim is trusted: about oneself, about someone else, or made
/// by a moderator or the broadcaster.
#[derive(Debug, Clone, Copy, PartialEq, Eq)]
pub enum TrustLevel {
    SelfClaim,
    ThirdParty,
    ModBroadcaster,
}

} // verus!
