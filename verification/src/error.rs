//! Error type shared by the protocol code.

use vstd::prelude::*;

verus! {

/// Error raised by the mesh codec.
#[derive(Clone, Copy, Debug, PartialEq, Eq, Structural)]
pub enum ProtocolError {
    /// A raw byte blob's length is not a whole multiple of the fixed byte
    /// size of the record type it is supposed to contain.
    InvalidLength,
}

/// Result type used throughout the protocol code.
pub type ProtocolResult<T> = Result<T, ProtocolError>;

} // verus!
