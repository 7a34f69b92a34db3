//! Turn-resolution engine of a small grid-world scavenging game.
//!
//! The crate holds the entity model, the inventory rules, the item tables and
//! the game-mode state machine. Every executable function carries a contract
//! that is proved against a mathematical model of the game state.

pub mod chance;
pub mod engine;
pub mod game;
pub mod guard;
pub mod input;
pub mod items;
pub mod laws;
pub mod messages;
pub mod rules;
pub mod scene;
pub mod setup;
pub mod text;
