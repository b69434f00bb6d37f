//! The shapes of what is sent to services outside.

pub mod pagerduty;
