//! A register-emulating controller and its polling client, over a small
//! Modbus-TCP-style framing: the register store, the frame codec, the
//! per-connection handler and the client's poll cycle.

pub mod client;
pub mod codec;
pub mod register_store;
pub mod server;

pub use codec::{create_read_holding_registers_response, create_write_single_register_response};
