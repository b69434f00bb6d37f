//! Identifiers of the guild, its channels and its roles.

use vstd::prelude::*;

verus! {

/// The channel in which incidents are announced.
pub const UPTIME_CHANNLE: u64 = 874694150283477083;

/// The guild whose members report.
pub const GUILD_ID: u64 = 686968015715172423;

/// The role of members who may not report.
pub const BLOCKED_ROLE: u64 = 1300485192062074890;

/// The role of members who linked an account.
pub const LINKED_ROLE: u64 = 998597119709552680;

/// The role of paying members.
pub const PATRON_ROLE: u64 = 998018241182044241;

/// The role of members whose word alone raises an alert.
pub const TRUSTED_ROLE: u64 = 1299123473343320134;

} // verus!
