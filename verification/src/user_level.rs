//! Trust tiers of reporters and the weight each tier carries.

use crate::consts::{BLOCKED_ROLE, LINKED_ROLE, PATRON_ROLE, TRUSTED_ROLE};
use crate::roster::is_listed;
use vstd::prelude::*;

verus! {

/// What is known of a guild member who reports or votes.
#[derive(Clone, Debug, PartialEq, Eq)]
pub struct Member {
    pub user_id: u64,
    pub roles: Vec<u64>,
}

/// How much a reporter is trusted.
#[derive(Clone, Copy, PartialEq, Eq, Structural, Debug)]
pub enum UserLevel {
    Plain,
    Blocked,
    Linked,
    Patron,
    Trusted,
}

impl UserLevel {
    /// The weight of a tier as a mathematical integer.
    pub open spec fn weight(self) -> int {
        match self {
            UserLevel::Plain => 1,
            UserLevel::Blocked => 0,
            UserLevel::Linked => 10,
            UserLevel::Patron => 30,
            UserLevel::Trusted => 200,
        }
    }

    /// The tier that a set of roles resolves to. A block outranks everything;
    /// after that the most trusted role held decides.
    pub open spec fn of_roles(roles: Seq<u64>) -> UserLevel {
        if roles.contains(BLOCKED_ROLE) {
            UserLevel::Blocked
        } else if roles.contains(TRUSTED_ROLE) {
            UserLevel::Trusted
        } else if roles.contains(PATRON_ROLE) {
            UserLevel::Patron
        } else if roles.contains(LINKED_ROLE) {
            UserLevel::Linked
        } else {
            UserLevel::Plain
        }
    }

    /// The weight that a vote cast from this tier carries.
    pub fn score(&self) -> (weight: u64)
        ensures
            weight == self.weight(),
    {
        match self {
            UserLevel::Plain => 1,
            UserLevel::Blocked => 0,
            UserLevel::Linked => 10,
            UserLevel::Patron => 30,
            UserLevel::Trusted => 200,
        }
    }

    /// Resolves the tier of a member from the roles the member holds.
    pub fn from_member(member: &Member) -> (level: UserLevel)
        ensures
            level == UserLevel::of_roles(member.roles@),
    {
        if is_listed(&member.roles, BLOCKED_ROLE) {
            return UserLevel::Blocked;
        }
        if is_listed(&member.roles, TRUSTED_ROLE) {
            return UserLevel::Trusted;
        }
        if is_listed(&member.roles, PATRON_ROLE) {
            return UserLevel::Patron;
        }
        if is_listed(&member.roles, LINKED_ROLE) {
            return UserLevel::Linked;
        }
        UserLevel::Plain
    }
}

} // verus!
