use vstd::prelude::*;

verus! {

/// Errors surfaced by the core API.
#[derive(Debug, Clone, Copy, PartialEq, Eq, Structural)]
pub enum LMVC8Error {
    /// A cartridge image larger than the 32 KiB ROM capacity was supplied.
    ROMSizeExceeded,
}

/// Result alias used throughout the core.
pub type LMVC8Result<T> = Result<T, LMVC8Error>;

} // verus!
