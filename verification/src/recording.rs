use vstd::prelude::*;

use crate::config::StreamSpec;
use crate::engine::EngineState;

verus! {

/// How many seconds of audio a capture reserves room for up front.
pub const RESERVED_SECONDS: u32 = 10;

/// The samples captured so far by a running recording, as the bit patterns
/// of their `f32` values, in the order the input device delivered them.
#[derive(Debug)]
pub struct CaptureBuffer {
    samples: Vec<u32>,
    /// How many samples the buffer was made with room for.
    reserved: usize,
}

impl View for CaptureBuffer {
    type V = Seq<u32>;

    closed spec fn view(&self) -> Seq<u32> {
        self.samples@
    }
}

impl CaptureBuffer {
    /// How many samples the buffer was made with room for.
    pub closed spec fn reserved_spec(&self) -> nat {
        self.reserved as nat
    }

    /// An empty capture with room for ten seconds of a stream shaped like
    /// `config`.
    pub fn new(config: &StreamSpec) -> (b: CaptureBuffer)
        requires
            config.samples_for_seconds(RESERVED_SECONDS as nat) <= usize::MAX,
        ensures
            b@ == Seq::<u32>::empty(),
            b.reserved_spec() == config.samples_for_seconds(RESERVED_SECONDS as nat),
    {
        assert(config.sample_rate * config.channels <= config.samples_for_seconds(10)) by (
        nonlinear_arith)
            requires
                config.sample_rate >= 0,
                config.channels >= 0,
        ;
        let per_second = config.sample_rate as usize * config.channels as usize;
        assert(per_second * 10 == config.samples_for_seconds(10)) by (nonlinear_arith)
            requires
                per_second == config.sample_rate * config.channels,
        ;
        let reserved = per_second * RESERVED_SECONDS as usize;
        CaptureBuffer { samples: Vec::with_capacity(reserved), reserved }
    }

    /// Adds one buffer delivered by the input device after what was
    /// captured before.
    pub fn append(&mut self, buffer: &[u32])
        ensures
            final(self)@ == old(self)@ + buffer@,
            final(self).reserved_spec() == old(self).reserved_spec(),
    {
        self.samples.extend_from_slice(buffer);
    }

    pub fn len(&self) -> (n: usize)
        ensures
            n == self@.len(),
    {
        self.samples.len()
    }

    pub fn samples(&self) -> (s: &[u32])
        ensures
            s@ == self@,
    {
        self.samples.as_slice()
    }

    /// The captured samples, handing the buffer over.
    pub fn into_samples(self) -> (s: Vec<u32>)
        ensures
            s@ == self@,
    {
        self.samples
    }
}

/// Whether a capture that has drained its input should end, given the
/// engine state it last heard of (`None` when no state could be read):
/// it ends exactly when the engine has gone back to idle.
pub fn capture_finished(engine_state: Option<EngineState>) -> (done: bool)
    ensures
        done == (engine_state == Some(EngineState::Idle)),
{
    match engine_state {
        Some(EngineState::Idle) => true,
        _ => false,
    }
}

/// What the capture thread learns next.
#[derive(Debug)]
pub enum CaptureEvent {
    /// The input device delivered a buffer.
    Buffer(Vec<u32>),
    /// The input channel is empty and its sender is gone: no buffer will
    /// come any more.
    Disconnected,
    /// The engine state read from the state subscription (`None` when
    /// nothing could be read).
    EngineState(Option<EngineState>),
}

/// What the capture thread does next.
#[derive(Debug, Clone, Copy, PartialEq, Eq, Structural)]
pub enum CaptureAction {
    /// Wait for the next buffer of the input channel.
    Receive,
    /// Read the engine state without waiting.
    PollState,
    /// Stop and hand the captured samples over.
    Finish,
}

/// The captured samples and the next action after `event`, starting from
/// `captured`.
pub open spec fn capture_step_spec(captured: Seq<u32>, event: CaptureEvent) -> (Seq<u32>, CaptureAction) {
    match event {
        CaptureEvent::Buffer(b) => (captured + b@, CaptureAction::Receive),
        CaptureEvent::Disconnected => (captured, CaptureAction::PollState),
        CaptureEvent::EngineState(s) => (
            captured,
            if s == Some(EngineState::Idle) {
                CaptureAction::Finish
            } else {
                CaptureAction::Receive
            },
        ),
    }
}

/// The captured samples after the events of `events`, in order, starting
/// from `captured`.
pub open spec fn capture_run(captured: Seq<u32>, events: Seq<CaptureEvent>) -> Seq<u32>
    decreases events.len(),
{
    if events.len() == 0 {
        captured
    } else {
        capture_run(capture_step_spec(captured, events[0]).0, events.drop_first())
    }
}

/// The samples of all buffers among `events`, one after the other.
pub open spec fn buffers_of(events: Seq<CaptureEvent>) -> Seq<u32>
    decreases events.len(),
{
    if events.len() == 0 {
        Seq::empty()
    } else {
        match events[0] {
            CaptureEvent::Buffer(b) => b@ + buffers_of(events.drop_first()),
            _ => buffers_of(events.drop_first()),
        }
    }
}

impl CaptureBuffer {
    /// One step of the capture thread: a buffer is added after what was
    /// captured and the thread waits for the next one; once the channel is
    /// disconnected the thread reads the engine state; it stops when that
    /// state is idle and goes back to the channel otherwise.
    pub fn step(&mut self, event: CaptureEvent) -> (action: CaptureAction)
        ensures
            (final(self)@, action) == capture_step_spec(old(self)@, event),
            final(self).reserved_spec() == old(self).reserved_spec(),
    {
        match event {
            CaptureEvent::Buffer(b) => {
                self.append(b.as_slice());
                CaptureAction::Receive
            },
            CaptureEvent::Disconnected => CaptureAction::PollState,
            CaptureEvent::EngineState(s) => {
                if capture_finished(s) {
                    CaptureAction::Finish
                } else {
                    CaptureAction::Receive
                }
            },
        }
    }
}

/// Every buffer that reaches the capture thread is kept, in the order it
/// arrived and with nothing in between: whatever the polls of the engine
/// state in between, a capture that starts empty holds exactly the samples
/// of the buffers it was given.
pub proof fn lemma_capture_keeps_every_buffer(captured: Seq<u32>, events: Seq<CaptureEvent>)
    ensures
        capture_run(captured, events) == captured + buffers_of(events),
    decreases events.len(),
{
    if events.len() > 0 {
        let next = capture_step_spec(captured, events[0]).0;
        lemma_capture_keeps_every_buffer(next, events.drop_first());
        match events[0] {
            CaptureEvent::Buffer(b) => {
                assert(captured + (b@ + buffers_of(events.drop_first())) =~= (captured + b@)
                    + buffers_of(events.drop_first()));
            },
            _ => {},
        }
    } else {
        assert(captured + Seq::<u32>::empty() =~= captured);
    }
}

/// The capture stops on exactly one kind of event: the engine reported as
/// idle.
pub proof fn lemma_capture_stops_only_on_idle(captured: Seq<u32>, event: CaptureEvent)
    ensures
        capture_step_spec(captured, event).1 == CaptureAction::Finish <==> event
            == CaptureEvent::EngineState(Some(EngineState::Idle)),
{
}

/// Byte `j` (0 is the least significant) of a sample's bit pattern.
pub open spec fn le_byte(x: u32, j: int) -> u8 {
    if j == 0 {
        (x & 0xff) as u8
    } else if j == 1 {
        ((x >> 8u32) & 0xff) as u8
    } else if j == 2 {
        ((x >> 16u32) & 0xff) as u8
    } else {
        ((x >> 24u32) & 0xff) as u8
    }
}

/// The little-endian byte image of a run of samples: four bytes per sample,
/// least significant byte first.
pub open spec fn le_bytes(samples: Seq<u32>) -> Seq<u8> {
    Seq::new(4 * samples.len(), |i: int| le_byte(samples[i / 4], i % 4))
}

/// Sample `i` read back from a little-endian byte image.
pub open spec fn read_le_sample(bytes: Seq<u8>, i: int) -> u32 {
    bytes[4 * i] as u32 | (bytes[4 * i + 1] as u32) << 8u32 | (bytes[4 * i + 2] as u32) << 16u32 | (
    bytes[4 * i + 3] as u32) << 24u32
}

/// Empties `samples` and returns their little-endian byte image, the form
/// in which a take is written to disk.
pub fn drain_le_bytes(samples: &mut Vec<u32>) -> (bytes: Vec<u8>)
    ensures
        bytes@ == le_bytes(old(samples)@),
        final(samples)@ == Seq::<u32>::empty(),
{
    let ghost image = le_bytes(samples@);
    let mut bytes: Vec<u8> = Vec::new();
    let n = samples.len();
    let mut i: usize = 0;
    while i < n
        invariant
            i <= n,
            n == samples@.len(),
            image == le_bytes(samples@),
            bytes@.len() == 4 * i,
            forall|k: int| 0 <= k < 4 * i ==> bytes@[k] == image[k],
        decreases n - i,
    {
        let x = samples[i];
        bytes.push((x & 0xff) as u8);
        bytes.push(((x >> 8u32) & 0xff) as u8);
        bytes.push(((x >> 16u32) & 0xff) as u8);
        bytes.push(((x >> 24u32) & 0xff) as u8);
        assert forall|k: int| 4 * i <= k < 4 * i + 4 implies bytes@[k] == image[k] by {
            assert(k / 4 == i as int);
        }
        i = i + 1;
    }
    assert(bytes@ =~= image);
    samples.clear();
    bytes
}

proof fn lemma_le_byte_roundtrip(x: u32)
    ensures
        le_byte(x, 0) as u32 | (le_byte(x, 1) as u32) << 8u32 | (le_byte(x, 2) as u32) << 16u32 | (
        le_byte(x, 3) as u32) << 24u32 == x,
{
    assert(((x & 0xff) as u8) as u32 | ((((x >> 8u32) & 0xff) as u8) as u32) << 8u32 | ((((x
        >> 16u32) & 0xff) as u8) as u32) << 16u32 | ((((x >> 24u32) & 0xff) as u8) as u32) << 24u32
        == x) by (bit_vector);
}

/// Reading the byte image back gives every sample it was made from.
pub proof fn lemma_le_bytes_roundtrip(samples: Seq<u32>)
    ensures
        le_bytes(samples).len() == 4 * samples.len(),
        forall|i: int| 0 <= i < samples.len() ==> #[trigger] read_le_sample(le_bytes(samples), i) == samples[i],
{
    assert forall|i: int| 0 <= i < samples.len() implies #[trigger] read_le_sample(le_bytes(samples), i) == samples[i] by {
        let b = le_bytes(samples);
        assert((4 * i) / 4 == i && (4 * i) % 4 == 0);
        assert((4 * i + 1) / 4 == i && (4 * i + 1) % 4 == 1);
        assert((4 * i + 2) / 4 == i && (4 * i + 2) % 4 == 2);
        assert((4 * i + 3) / 4 == i && (4 * i + 3) % 4 == 3);
        lemma_le_byte_roundtrip(samples[i]);
    }
}

} // verus!
