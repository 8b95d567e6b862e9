use vstd::prelude::*;

use crate::config::StreamSpec;

verus! {

/// Bit pattern of the silent sample (`0.0f32`), written once a take has
/// been played to its end.
pub const SILENCE: u32 = 0u32;

/// A recorded take ready for playback.
///
/// Samples are kept as the bit patterns of their `f32` values, so that the
/// cursor logic can be reasoned about exactly; converting to and from `f32`
/// is left to the audio callback that owns the device buffer.
#[derive(Debug)]
pub struct Sample {
    samples: Vec<u32>,
    config: StreamSpec,
    playback_index: usize,
    playback_range: (usize, usize),
    should_loop: bool,
}

/// What a [`Sample`] is, seen from its contracts.
pub ghost struct SampleView {
    pub samples: Seq<u32>,
    pub config: StreamSpec,
    pub index: nat,
    pub range_start: nat,
    pub range_end: nat,
    pub should_loop: bool,
}

impl View for Sample {
    type V = SampleView;

    closed spec fn view(&self) -> SampleView {
        SampleView {
            samples: self.samples@,
            config: self.config,
            index: self.playback_index as nat,
            range_start: self.playback_range.0 as nat,
            range_end: self.playback_range.1 as nat,
            should_loop: self.should_loop,
        }
    }
}

/// The sample view with its cursor moved to `index`.
pub open spec fn with_index(v: SampleView, index: nat) -> SampleView {
    SampleView { index, ..v }
}

/// One step of the looping cursor: the view after the step and the index
/// handed out by it.
pub open spec fn cursor_step(v: SampleView) -> (SampleView, nat) {
    if v.index >= v.range_end {
        if v.should_loop {
            (with_index(v, v.range_start), v.range_start)
        } else {
            (v, v.index)
        }
    } else {
        (with_index(v, v.index + 1), v.index)
    }
}

/// The `len` samples that playback writes when it starts at `index`:
/// the recorded samples from there on, then silence.
pub open spec fn playback_block(samples: Seq<u32>, index: nat, len: nat) -> Seq<u32> {
    Seq::new(len, |k: int| if index + k < samples.len() { samples[index + k] } else { SILENCE })
}

/// Where the playback cursor stands after writing `len` samples from `index`.
pub open spec fn index_after_block(n: nat, index: nat, len: nat) -> nat {
    if index < n {
        if index + len < n { index + len } else { n }
    } else {
        index
    }
}

impl Sample {
    /// Every take loops: the flag is set when the take is made and no
    /// method clears it.
    #[verifier::type_invariant]
    spec fn loop_is_on(self) -> bool {
        self.should_loop
    }

    /// A take made of `samples`, recorded with `config`: the cursor at the
    /// start, the whole take as the playback range, looping on.
    pub fn new(samples: Vec<u32>, config: StreamSpec) -> (s: Sample)
        ensures
            s@ == (SampleView {
                samples: samples@,
                config,
                index: 0,
                range_start: 0,
                range_end: samples@.len(),
                should_loop: true,
            }),
    {
        let num_samples = samples.len();
        Sample {
            samples,
            config,
            playback_index: 0,
            playback_range: (0, num_samples),
            should_loop: true,
        }
    }

    pub fn num_samples(&self) -> (n: usize)
        ensures
            n == self@.samples.len(),
    {
        self.samples.len()
    }

    pub fn samples(&self) -> (s: &[u32])
        ensures
            s@ == self@.samples,
    {
        self.samples.as_slice()
    }

    pub fn config(&self) -> (c: &StreamSpec)
        ensures
            *c == self@.config,
    {
        &self.config
    }

    pub fn playback_index(&self) -> (i: usize)
        ensures
            i == self@.index,
    {
        self.playback_index
    }

    /// Hands out the current cursor position and moves the cursor on by
    /// one; at or past the end of the playback range the cursor goes back
    /// to the range's start when looping, and stays where it is otherwise.
    pub fn iter_playback_index(&mut self) -> (i: usize)
        ensures
            old(self)@.should_loop,
            final(self)@.should_loop,
            (final(self)@, i as nat) == cursor_step(old(self)@),
    {
        proof {
            use_type_invariant(&*self);
        }
        let current = self.playback_index;
        if current >= self.playback_range.1 {
            if self.should_loop {
                self.playback_index = self.playback_range.0;
                return self.playback_range.0;
            } else {
                return current;
            }
        }
        self.playback_index = current + 1;
        current
    }

    pub fn set_playback_index(&mut self, index: usize)
        ensures
            old(self)@.should_loop,
            final(self)@.should_loop,
            final(self)@ == with_index(old(self)@, index as nat),
    {
        proof {
            use_type_invariant(&*self);
        }
        self.playback_index = index;
    }

    /// Moves the cursor on by one, wrapping around at `usize::MAX`.
    pub fn increment_playback_index(&mut self)
        ensures
            old(self)@.should_loop,
            final(self)@.should_loop,
            final(self)@ == with_index(
                old(self)@,
                if old(self)@.index == usize::MAX { 0 } else { old(self)@.index + 1 },
            ),
    {
        proof {
            use_type_invariant(&*self);
        }
        self.playback_index = self.playback_index.wrapping_add(1);
    }

    pub fn set_playback_range(&mut self, start: usize, end: usize)
        ensures
            old(self)@.should_loop,
            final(self)@.should_loop,
            final(self)@ == (SampleView { range_start: start as nat, range_end: end as nat, ..old(self)@ }),
    {
        proof {
            use_type_invariant(&*self);
        }
        self.playback_range = (start, end);
    }

    pub fn should_loop(&self) -> (b: bool)
        ensures
            b == self@.should_loop,
            b,
    {
        proof {
            use_type_invariant(self);
        }
        self.should_loop
    }

    /// Fills an output buffer from the cursor on: each slot takes the sample
    /// under the cursor and moves the cursor on, until the take runs out;
    /// the slots after that are silent.
    pub fn fill_output(&mut self, data: &mut [u32])
        ensures
            old(self)@.should_loop,
            final(self)@.should_loop,
            final(data)@ == playback_block(old(self)@.samples, old(self)@.index, old(data)@.len()),
            final(self)@ == with_index(
                old(self)@,
                index_after_block(old(self)@.samples.len(), old(self)@.index, old(data)@.len()),
            ),
    {
        proof {
            use_type_invariant(&*self);
        }
        let ghost start = self@;
        let num_samples = self.samples.len();
        let len = data.len();
        let mut k: usize = 0;
        while k < len
            invariant
                k <= len,
                len == data@.len(),
                num_samples == self@.samples.len(),
                start.samples.len() == num_samples,
                start.should_loop,
                self@ == with_index(start, index_after_block(num_samples as nat, start.index, k as nat)),
                forall|j: int| 0 <= j < k ==> data@[j] == playback_block(start.samples, start.index, len as nat)[j],
            decreases len - k,
        {
            let playback_index = self.playback_index;
            if playback_index < num_samples {
                data[k] = self.samples[playback_index];
                self.playback_index = playback_index + 1;
            } else {
                data[k] = SILENCE;
            }
            k = k + 1;
        }
        assert(data@ =~= playback_block(start.samples, start.index, len as nat));
    }
}

/// Playing a block of `a` samples and then a block of `b` samples writes
/// exactly what playing one block of `a + b` samples writes.
pub proof fn lemma_playback_blocks_concatenate(samples: Seq<u32>, index: nat, a: nat, b: nat)
    ensures
        playback_block(samples, index, a) + playback_block(
            samples,
            index_after_block(samples.len(), index, a),
            b,
        ) == playback_block(samples, index, a + b),
{
    let whole = playback_block(samples, index, a + b);
    let joined = playback_block(samples, index, a) + playback_block(
        samples,
        index_after_block(samples.len(), index, a),
        b,
    );
    assert forall|k: int| 0 <= k < a + b implies #[trigger] joined[k] == whole[k] by {
        if k >= a {
            let next = index_after_block(samples.len(), index, a);
            assert(joined[k] == playback_block(samples, next, b)[k - a]);
        }
    }
    assert(joined =~= whole);
}

/// With looping on and a non-empty playback range, a cursor inside the
/// range stays inside it, and every index it hands out lies in the range.
pub proof fn lemma_cursor_stays_in_range(v: SampleView)
    requires
        v.should_loop,
        v.range_start < v.range_end,
        v.range_start <= v.index <= v.range_end,
    ensures
        v.range_start <= cursor_step(v).0.index <= v.range_end,
        v.range_start <= cursor_step(v).1 < v.range_end,
        cursor_step(v).0.range_start == v.range_start,
        cursor_step(v).0.range_end == v.range_end,
        cursor_step(v).0.samples == v.samples,
{
}

/// With looping on, a cursor at or past the end of the playback range goes
/// back to the range's start and hands the start out, whatever the range
/// was set to.
pub proof fn lemma_wrap_to_range_start(v: SampleView)
    requires
        v.should_loop,
        v.index >= v.range_end,
    ensures
        cursor_step(v) == (with_index(v, v.range_start), v.range_start),
{
}

/// After moving the cursor to an index, reading the cursor gives that index
/// back, and nothing else about the take has changed.
pub proof fn lemma_set_then_read_index(v: SampleView, index: nat)
    ensures
        with_index(v, index).index == index,
        with_index(v, index).samples == v.samples,
        with_index(v, index).config == v.config,
        with_index(v, index).range_start == v.range_start,
        with_index(v, index).range_end == v.range_end,
        with_index(v, index).should_loop == v.should_loop,
{
}

/// A take that has been played to its end plays only silence from then on,
/// and its cursor no longer moves.
pub proof fn lemma_played_out_is_silent(samples: Seq<u32>, index: nat, len: nat)
    requires
        index >= samples.len(),
    ensures
        playback_block(samples, index, len) == Seq::new(len, |k: int| SILENCE),
        index_after_block(samples.len(), index, len) == index,
{
    assert(playback_block(samples, index, len) =~= Seq::new(len, |k: int| SILENCE));
}

/// The view after `k` steps of the looping cursor.
pub open spec fn cursor_steps(v: SampleView, k: nat) -> SampleView
    decreases k,
{
    if k == 0 {
        v
    } else {
        cursor_steps(cursor_step(v).0, (k - 1) as nat)
    }
}

proof fn lemma_cursor_walks_up(v: SampleView, k: nat)
    requires
        v.index + k <= v.range_end,
    ensures
        cursor_steps(v, k) == with_index(v, v.index + k),
    decreases k,
{
    if k > 0 {
        let w = cursor_step(v).0;
        assert(w == with_index(v, v.index + 1));
        lemma_cursor_walks_up(w, (k - 1) as nat);
        assert(with_index(w, w.index + (k - 1) as nat) == with_index(v, v.index + k));
    }
}

/// With looping on and a non-empty playback range, a cursor at the end of
/// the range comes back to the end after one pass: one step to the range's
/// start, then one step per sample of the range.
pub proof fn lemma_loop_period(v: SampleView)
    requires
        v.should_loop,
        v.range_start < v.range_end,
        v.index == v.range_end,
    ensures
        cursor_steps(v, (v.range_end - v.range_start + 1) as nat) == v,
{
    let n = (v.range_end - v.range_start) as nat;
    let w = cursor_step(v).0;
    assert(w == with_index(v, v.range_start));
    lemma_cursor_walks_up(w, n);
    assert(cursor_steps(v, n + 1) == cursor_steps(w, n));
    assert(with_index(w, w.index + n) == v);
}

} // verus!
