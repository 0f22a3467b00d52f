//! A model of a system that follows its change events.
//!
//! The model holds plain values. Whoever owns it puts it behind the locks
//! that its readers need, hands it each event together with the time, and
//! asks the system for what an event says has changed.

pub mod control;
pub mod group;
pub mod model;
pub mod playable;
pub mod player;
pub mod refresh;
pub mod source;

pub use model::State;
