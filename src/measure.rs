//! The outcome of a timed transfer and the throughput it gives.

use vstd::prelude::*;

verus! {

/// Bytes moved and the wall-clock time they took.
#[derive(Clone, Copy, Debug, PartialEq, Eq, Structural)]
pub struct Measurement {
    pub bytes: usize,
    pub elapsed_micros: u64,
}

/// Bits per second for `bytes` moved in `micros` microseconds, rounded down.
pub open spec fn bits_per_second(bytes: nat, micros: nat) -> nat
    recommends
        micros > 0,
{
    (bytes * 8 * 1000000) / micros
}

impl Measurement {
    /// Throughput in bits per second, rounded down; `None` when no time elapsed.
    pub fn bits_per_second(&self) -> (r: Option<u128>)
        ensures
            self.elapsed_micros == 0 ==> r is None,
            self.elapsed_micros > 0 ==> r == Some(
                bits_per_second(self.bytes as nat, self.elapsed_micros as nat) as u128,
            ),
    {
        if self.elapsed_micros == 0 {
            None
        } else {
            let bits: u128 = (self.bytes as u128) * 8000000u128;
            Some(bits / (self.elapsed_micros as u128))
        }
    }
}

} // verus!
