//! A verified turn-based combat engine: damage resolution, the action menu,
//! the fight-event mailbox, timed attack effects, reward and leveling, and
//! the combat state machine that ties them together into one tick pipeline.

pub mod effects;
pub mod events;
pub mod menu;
pub mod player;
pub mod session;
pub mod state;
pub mod stats;
pub mod text;
