//! An interactive terminal chooser with a verified core.
//!
//! The library decides everything about a selection session: how the
//! highlighted row moves, which terminal commands paint and erase the list,
//! how input is interpreted and when the session ends. It performs no input
//! or output itself; a host feeds it what the terminal reported and carries
//! out the commands it answers with.

pub mod command;
pub mod event;
pub mod frame;
pub mod laws;
pub mod manager;
pub mod replay;
pub mod scripts;
pub mod select;
pub mod session;
pub mod text;
