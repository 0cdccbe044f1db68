//! What differs between platforms.

use vstd::prelude::*;

verus! {

/// The families of platforms that are treated differently.
#[derive(Clone, Copy, Debug, PartialEq, Eq, Structural)]
pub enum Platform {
    /// Linux.
    Linux,
    /// Any other Unix.
    OtherUnix,
    /// Windows.
    Windows,
}

} // verus!
