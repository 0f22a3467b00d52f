//! Commands that can be sent to a system, typed and raw.
//!
//! The typed commands are sorted by the group that the system puts them
//! in: `system`, `player`, `group` and `browse`.

pub mod browse;
pub mod error;
pub mod group;
pub mod laws;
pub mod player;
pub mod raw;
pub mod ser;
pub mod system;
pub mod typed;
pub mod value;

pub use error::CommandError;
pub use ser::Error as SerializeError;
pub use typed::Command;
