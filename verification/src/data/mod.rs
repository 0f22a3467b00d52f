//! Data types used or returned by commands.

pub mod codec;
pub mod common;
pub mod event;
pub mod group;
pub mod item;
pub mod laws;
pub mod media;
pub mod option;
pub mod player;
pub mod query;
pub mod queue;
pub mod quickselect;
pub mod response;
pub mod source;
pub mod system;
pub mod url;
