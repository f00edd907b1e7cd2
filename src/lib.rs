//! A turn-based dungeon-crawl simulator: a phase state machine feeds a LIFO
//! event stack, modifiers intercept events, and stat rolls decide outcomes.
pub mod combat;
pub mod core_loop;
pub mod dice;
pub mod entities;
pub mod events;
pub mod generic_modifiers;
pub mod messaging;
pub mod modifiers;
pub mod room_types;
pub mod sim;
