//! Decision core of a moderation bot that removes every member who holds a
//! role whose name asks for it.
//!
//! The crate keeps the set of such roles, decides from the mirrored guild
//! state whether the bot may remove a member, and says what to do for each
//! gateway event. Talking to the gateway and to the REST API is left to the
//! program around it.

pub mod authorization;
pub mod event;
pub mod index;
pub mod mirror;
pub mod name;
pub mod role;
pub mod state;
