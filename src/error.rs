//! Why a transfer failed, with the requested and observed sizes.

use vstd::prelude::*;

verus! {

/// A failed transfer. Each variant carries the requested size and what was
/// observed instead, so that the message can name both.
#[derive(Debug)]
pub enum TransferError {
    /// The acknowledgement line of an upload does not hold the requested size.
    Unacknowledged { requested: usize, response: Vec<u8> },
    /// The byte count at the end of a transfer differs from the requested size.
    Interrupted { requested: usize, transferred: usize },
    /// A chunk would take the byte count of an upload past the requested size.
    Overrun { requested: usize, transferred: usize, chunk: usize },
    /// The requested size leaves no room for a payload after the handshake line,
    /// which is `handshake` bytes long.
    TooSmall { requested: usize, handshake: usize },
}

} // verus!
