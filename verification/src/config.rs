use vstd::prelude::*;

verus! {

/// The shape of an audio stream as the library needs it: how many
/// interleaved channels a frame has and how many frames make a second.
#[derive(Debug, Clone, Copy, PartialEq, Eq, Structural)]
pub struct StreamSpec {
    pub channels: u16,
    pub sample_rate: u32,
}

impl StreamSpec {
    /// Number of interleaved samples that `seconds` seconds of this stream hold.
    pub open spec fn samples_for_seconds(self, seconds: nat) -> int {
        self.sample_rate * self.channels * seconds
    }
}

} // verus!
