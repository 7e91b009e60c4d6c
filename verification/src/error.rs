//! The failures of a request.

use vstd::prelude::*;

verus! {

/// Why a request was abandoned.
#[derive(Clone, Copy, Debug, PartialEq, Eq, Structural)]
pub enum Error {
    /// The configuration file could not be opened or read.
    Io,
    /// A text holds the sentinel byte, or a buffer does not hold
    /// sentinel-terminated text.
    Encoding,
}

} // verus!
