//! Error codes reported by the driver.

use vstd::prelude::*;

verus! {

/// The reasons for which setup or a transfer fails.
#[derive(Clone, Copy, Debug, PartialEq, Eq, Structural)]
pub enum Errno {
    /// An unsupported bus speed, or messages of one transaction naming different targets.
    InvalidArgs,
    /// The component identity register does not name a DesignWare I2C block.
    NoSuchDevice,
    /// The bus did not become idle in time.
    Busy,
    /// A poll or a wait ran past its deadline.
    TimeOut,
    /// The transfer was aborted, or ended in an inconsistent state.
    Io,
    /// Arbitration was lost; the whole transaction may be tried again.
    Again,
}

} // verus!
