//! A mock system: typed state that answers commands the way a real system
//! does, for tests without a network.

pub mod account;
pub mod args;
pub mod browse;
pub mod channel;
pub mod defaults;
pub mod demo;
pub mod group;
pub mod player;
pub mod queue;
pub mod reply;
pub mod system;

pub use channel::MockChannel;
pub use system::{MockGroup, MockHeosSystem, MockPlayer, MockPlaylist, MockSource, MockTrack};
