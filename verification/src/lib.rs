//! Driver logic for the Synopsys DesignWare APB I2C bus master.
//!
//! The crate holds the decisions of the driver: timing parameters, the checks
//! made at setup, the sequencing of enable and disable, and the state machine
//! that moves a transaction forward on each interrupt. It performs no register
//! access itself. Each operation takes the register values it needs as plain
//! numbers and hands back the accesses to carry out, so that the embedding
//! code owns the register block, the lock and the clock.

pub mod controller;
pub mod error;
pub mod flags;
pub mod lhcnt;
pub mod master;
pub mod msg;
pub mod poll;
pub mod registers;
pub mod sequence;
pub mod timing;
pub mod xfer;

pub use crate::controller::I2cDwDriverConfig;
pub use crate::master::I2cDwMasterDriver;
