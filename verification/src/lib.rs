//! Client library for the HEOS command line interface: the typed commands and
//! their wire form, the replies and change events that come back, the
//! bookkeeping that pairs replies with the commands that asked for them, a
//! model of the players, groups and sources of a system, and a mock system
//! that answers commands the way a real one does.
//!
//! Everything here works on plain values. Sockets, tasks and locks belong to
//! the program that embeds the library.

pub mod channel;
pub mod command;
pub mod connection;
pub mod data;
pub mod json;
pub mod mock;
pub mod state;
pub mod text;
pub mod views;
pub mod wire;


pub use connection::{AdHoc, Created, HeosConnection, Stateful};
