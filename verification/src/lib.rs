//! Management of a single serial connection: resolving loosely typed line
//! settings into a transmission profile, describing the port to the serial
//! driver, and keeping track of the one connection that may be open at a time.

pub mod config;
pub mod driver;
pub mod ports;
pub mod state;
pub mod text;
