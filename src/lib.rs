//! Driver core for the MCP2517FD / MCP2518FD / MCP251863 CAN-FD controllers.
//!
//! The library is free of I/O: it builds the byte sequences that go over the
//! SPI bus, decodes what comes back, and decides what to do next. A caller
//! performs each [`protocol::Transaction`] on its bus and hands the bytes it
//! read back to the state machine that asked for it.

pub mod protocol;
pub mod registers;
pub mod register_map;
pub mod frame;
pub mod config;
pub mod controller;
pub mod setup;

pub use protocol::Instruction;
pub use controller::{ControllerError, Error, MCP25xxFD};
