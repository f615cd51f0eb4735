//! A small game-state core: a store that owns the one game state and
//! refuses any state that breaks its bounds, a table of action rules, a
//! processor that turns actions into committed states, and the two JSON
//! commands that a host exposes to its front end.

pub mod state;
pub mod store;
pub mod rules;
pub mod processor;
pub mod json;
pub mod commands;
