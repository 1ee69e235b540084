//! Driver for the host console behind a RISC-V simulator's Host Target
//! Interface (HTIF): requests are 64-bit words stored to the `tohost`
//! mailbox register, answers are read back from the `fromhost` register.
pub mod controller;
pub mod protocol;

pub use controller::{Access, Fault, FromHost, ToHost, HTIF};
