//! User settings.

use vstd::prelude::*;

verus! {

/// User settings.
#[derive(Clone, Copy, Debug, PartialEq, Eq, Structural)]
pub struct Config {
    /// Whether to compare the system clock with a time server before a punch.
    pub check_time: bool,
}

} // verus!
