//! One download over one connection: handshake and byte accounting of what the
//! server streams back.

use crate::error::TransferError;
use crate::measure::Measurement;
use crate::payload::carries_sentinel;
use crate::protocol::{download_command, download_command_bytes, SENTINEL};
use vstd::prelude::*;

verus! {

/// Largest read that the download fills at once, in bytes (one MiB).
pub const READ_CAPACITY: usize = 1048576;

/// Byte accounting of one download. Every byte read counts, the sentinel byte
/// that ends the stream included.
pub struct DownloadSession {
    requested: usize,
    received: usize,
}

impl DownloadSession {
    /// Bytes that the server must stream in all.
    pub closed spec fn requested_spec(&self) -> nat {
        self.requested as nat
    }

    /// Bytes counted so far.
    pub closed spec fn received_spec(&self) -> nat {
        self.received as nat
    }

    /// Starts a download of `requested` bytes: the session, with nothing counted,
    /// and the handshake line to send, which does not count.
    pub fn begin(requested: usize) -> (r: (DownloadSession, Vec<u8>))
        ensures
            r.0.requested_spec() == requested,
            r.0.received_spec() == 0,
            r.1@ == download_command(requested as nat),
    {
        (DownloadSession { requested, received: 0 }, download_command_bytes(requested))
    }

    /// Bytes that the server must stream in all.
    pub fn requested(&self) -> (r: usize)
        ensures
            r == self.requested_spec(),
    {
        self.requested
    }

    /// Bytes counted so far.
    pub fn received(&self) -> (r: usize)
        ensures
            r == self.received_spec(),
    {
        self.received
    }

    /// Counts the bytes of one read and says whether to stop reading. Every byte
    /// read counts, the sentinel included. An empty read means the server closed
    /// the stream: stop. Otherwise reading stops when the bytes end with the
    /// sentinel byte.
    pub fn record_fill(&mut self, buffer: &[u8]) -> (stop: bool)
        requires
            old(self).received_spec() + buffer@.len() <= usize::MAX,
        ensures
            final(self).requested_spec() == old(self).requested_spec(),
            final(self).received_spec() == old(self).received_spec() + buffer@.len(),
            stop == (buffer@.len() == 0 || carries_sentinel(buffer@)),
    {
        let len: usize = buffer.len();
        self.received = self.received + len;
        len == 0 || buffer[len - 1] == SENTINEL
    }

    /// Ends the download once reading stopped. Succeeds exactly when the count
    /// equals the requested size; a stream that closed early ends in
    /// `Interrupted`.
    pub fn finish(&self, elapsed_micros: u64) -> (r: Result<Measurement, TransferError>)
        ensures
            r is Ok <==> self.received_spec() == self.requested_spec(),
            r matches Ok(m) ==> m.bytes == self.received_spec() && m.elapsed_micros == elapsed_micros,
            r matches Err(e) ==> e == (TransferError::Interrupted {
                requested: self.requested_spec() as usize,
                transferred: self.received_spec() as usize,
            }),
    {
        if self.received == self.requested {
            Ok(Measurement { bytes: self.received, elapsed_micros })
        } else {
            Err(TransferError::Interrupted { requested: self.requested, transferred: self.received })
        }
    }
}

} // verus!
