//! Crowd-sourced outage reports folded into one active incident.

pub mod active_incident;
pub mod consts;
pub mod laws;
pub mod roster;
pub mod status_vote;
pub mod tally;
pub mod text;
pub mod thirdparty;
pub mod user_level;
pub mod utils;
