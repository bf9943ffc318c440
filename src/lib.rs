//! Authorization rules for Matrix room events.
//!
//! The engine decides, from an incoming event and a snapshot of room state,
//! whether the event is allowed by the rules of the room's version.

pub mod error;
pub mod ids;
pub mod endpoint;
pub mod events;
pub mod state_map;
pub mod text;
pub mod room_version;
pub mod power_levels;
pub mod event_auth;
pub mod laws;
pub mod policy_rule;
