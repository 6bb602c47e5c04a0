//! One upload over one connection: handshake, payload accounting, and the check
//! of the server's acknowledgement.

use crate::error::TransferError;
use crate::measure::Measurement;
use crate::payload::{carries_sentinel, chunk_sizes, lemma_chunk_sizes, total_of};
use crate::protocol::{check_upload_ack, contains, decimal, upload_command, upload_command_bytes, SENTINEL};
use vstd::prelude::*;

verus! {

/// Byte accounting of one upload. The handshake line counts toward the total,
/// and so does the sentinel byte that ends the payload.
pub struct UploadSession {
    requested: usize,
    sent: usize,
}

/// An upload that sends its handshake line and then every chunk that the payload
/// generator hands out for the rest of the requested size counts exactly the
/// requested size: handshake bytes and payload bytes, the sentinel included, add up
/// to it.
pub proof fn lemma_upload_accounting(requested: nat, handshake: nat)
    requires
        handshake < requested,
    ensures
        handshake + total_of(chunk_sizes((requested - handshake) as nat)) == requested,
{
    lemma_chunk_sizes((requested - handshake) as nat);
}

impl UploadSession {
    /// Bytes that the upload must carry in all.
    pub closed spec fn requested_spec(&self) -> nat {
        self.requested as nat
    }

    /// Bytes counted so far: the handshake and every chunk written.
    pub closed spec fn sent_spec(&self) -> nat {
        self.sent as nat
    }

    /// The count never passes the requested size.
    pub open spec fn wf(&self) -> bool {
        self.sent_spec() <= self.requested_spec()
    }

    /// Starts an upload of `requested` bytes. On success returns the session, with
    /// the handshake line already counted, and the handshake line to send first.
    /// The payload then holds the rest: `requested` less the handshake, the
    /// sentinel included. A size with no room for one payload byte is refused.
    pub fn begin(requested: usize) -> (r: Result<(UploadSession, Vec<u8>), TransferError>)
        ensures
            r is Ok <==> upload_command(requested as nat).len() < requested,
            r matches Ok((s, h)) ==> {
                &&& h@ == upload_command(requested as nat)
                &&& s.wf()
                &&& s.requested_spec() == requested
                &&& s.sent_spec() == h@.len()
            },
            r matches Err(e) ==> e == (TransferError::TooSmall {
                requested,
                handshake: upload_command(requested as nat).len() as usize,
            }),
    {
        let handshake = upload_command_bytes(requested);
        let len: usize = handshake.len();
        if len < requested {
            Ok((UploadSession { requested, sent: len }, handshake))
        } else {
            Err(TransferError::TooSmall { requested, handshake: len })
        }
    }

    /// Bytes that the upload must carry in all.
    pub fn requested(&self) -> (r: usize)
        ensures
            r == self.requested_spec(),
    {
        self.requested
    }

    /// Bytes counted so far.
    pub fn sent(&self) -> (r: usize)
        ensures
            r == self.sent_spec(),
    {
        self.sent
    }

    /// Payload bytes still owed, the sentinel included.
    pub fn payload_left(&self) -> (r: usize)
        requires
            self.wf(),
        ensures
            r == self.requested_spec() - self.sent_spec(),
    {
        self.requested - self.sent
    }

    /// Counts a chunk that was written to the connection. Returns whether it was
    /// the final one, which is when it ends with the sentinel byte. A chunk that
    /// would take the count past the requested size is refused and not counted.
    pub fn record_chunk(&mut self, chunk: &[u8]) -> (r: Result<bool, TransferError>)
        requires
            old(self).wf(),
        ensures
            final(self).wf(),
            final(self).requested_spec() == old(self).requested_spec(),
            r is Ok <==> old(self).sent_spec() + chunk@.len() <= old(self).requested_spec(),
            r matches Ok(done) ==> {
                &&& final(self).sent_spec() == old(self).sent_spec() + chunk@.len()
                &&& done == carries_sentinel(chunk@)
            },
            r matches Err(e) ==> {
                &&& final(self).sent_spec() == old(self).sent_spec()
                &&& e == (TransferError::Overrun {
                    requested: old(self).requested_spec() as usize,
                    transferred: old(self).sent_spec() as usize,
                    chunk: chunk@.len() as usize,
                })
            },
    {
        let len: usize = chunk.len();
        if len > self.requested - self.sent {
            return Err(TransferError::Overrun { requested: self.requested, transferred: self.sent, chunk: len });
        }
        self.sent = self.sent + len;
        Ok(len > 0 && chunk[len - 1] == SENTINEL)
    }

    /// Ends the upload once the final chunk is written and the server has replied
    /// with `response`. Succeeds exactly when every requested byte was counted and
    /// the reply holds the decimal form of the requested size; the measurement
    /// then carries the requested size and `elapsed_micros`.
    pub fn finish(&self, response: Vec<u8>, elapsed_micros: u64) -> (r: Result<Measurement, TransferError>)
        requires
            self.wf(),
        ensures
            r is Ok <==> self.sent_spec() == self.requested_spec()
                && contains(response@, decimal(self.requested_spec())),
            r matches Ok(m) ==> m.bytes == self.requested_spec() && m.elapsed_micros == elapsed_micros,
            self.sent_spec() != self.requested_spec() ==> r == Err::<Measurement, TransferError>(
                TransferError::Interrupted {
                    requested: self.requested_spec() as usize,
                    transferred: self.sent_spec() as usize,
                },
            ),
            self.sent_spec() == self.requested_spec() && r is Err ==> (r->Err_0 matches
                TransferError::Unacknowledged { requested: q, response: v }
                && q == self.requested_spec() && v@ == response@),
    {
        if self.sent != self.requested {
            return Err(TransferError::Interrupted { requested: self.requested, transferred: self.sent });
        }
        match check_upload_ack(response, self.requested) {
            Ok(()) => Ok(Measurement { bytes: self.requested, elapsed_micros }),
            Err(e) => Err(e),
        }
    }
}

} // verus!
