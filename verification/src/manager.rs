use vstd::prelude::*;

use crate::engine::{after_toggle, toggle_spec, EngineCommand, EngineState};

verus! {

/// The character of a decimal digit.
pub open spec fn digit_char(d: nat) -> char {
    if d == 0 {
        '0'
    } else if d == 1 {
        '1'
    } else if d == 2 {
        '2'
    } else if d == 3 {
        '3'
    } else if d == 4 {
        '4'
    } else if d == 5 {
        '5'
    } else if d == 6 {
        '6'
    } else if d == 7 {
        '7'
    } else if d == 8 {
        '8'
    } else {
        '9'
    }
}

/// The decimal notation of `n`, without leading zeros.
pub open spec fn decimal(n: nat) -> Seq<char>
    decreases n,
{
    if n < 10 {
        seq![digit_char(n)]
    } else {
        decimal(n / 10).push(digit_char(n % 10))
    }
}

/// The name given to the take stored at position `index`.
pub open spec fn sample_label_spec(index: nat) -> Seq<char> {
    "sample "@ + decimal(index)
}

fn digit_str(d: usize) -> (s: &'static str)
    requires
        d < 10,
    ensures
        s@ == seq![digit_char(d as nat)],
{
    match d {
        0 => {
            proof {
                reveal_strlit("0");
            }
            "0"
        },
        1 => {
            proof {
                reveal_strlit("1");
            }
            "1"
        },
        2 => {
            proof {
                reveal_strlit("2");
            }
            "2"
        },
        3 => {
            proof {
                reveal_strlit("3");
            }
            "3"
        },
        4 => {
            proof {
                reveal_strlit("4");
            }
            "4"
        },
        5 => {
            proof {
                reveal_strlit("5");
            }
            "5"
        },
        6 => {
            proof {
                reveal_strlit("6");
            }
            "6"
        },
        7 => {
            proof {
                reveal_strlit("7");
            }
            "7"
        },
        8 => {
            proof {
                reveal_strlit("8");
            }
            "8"
        },
        _ => {
            proof {
                reveal_strlit("9");
            }
            "9"
        },
    }
}

fn append_decimal(s: &mut String, n: usize)
    ensures
        final(s)@ == old(s)@ + decimal(n as nat),
    decreases n,
{
    if n >= 10 {
        append_decimal(s, n / 10);
    }
    s.append(digit_str(n % 10));
    assert(final(s)@ =~= old(s)@ + decimal(n as nat));
}

/// The name of the take stored at position `index`: `sample ` followed by
/// the index in decimal.
pub fn sample_label(index: usize) -> (label: String)
    ensures
        label@ == sample_label_spec(index as nat),
{
    let mut label = String::from_str("sample ");
    append_decimal(&mut label, index);
    label
}

/// The bookkeeping behind the record button: the recording in progress,
/// if any, and the names of the takes finished so far, in order.
pub struct AudioManager<R> {
    recording: Option<R>,
    samples: Vec<String>,
}

impl<R> AudioManager<R> {
    /// Take `i` is named after its position.
    pub open spec fn wf(&self) -> bool {
        forall|i: int| 0 <= i < self.samples_spec().len() ==> #[trigger] self.samples_spec()[i]
            == sample_label_spec(i as nat)
    }

    /// The names of the finished takes.
    pub closed spec fn samples_spec(&self) -> Seq<Seq<char>> {
        self.samples@.map_values(|s: String| s@)
    }

    /// The recording in progress.
    pub closed spec fn recording_spec(&self) -> Option<R> {
        self.recording
    }

    pub fn new() -> (m: AudioManager<R>)
        ensures
            m.wf(),
            button_invariant(EngineState::Idle, m),
            m.recording_spec() is None,
            m.samples_spec() == Seq::<Seq<char>>::empty(),
    {
        let m = AudioManager { recording: None, samples: Vec::new() };
        assert(m.samples_spec() =~= Seq::<Seq<char>>::empty());
        m
    }

    /// Makes `recording` the recording in progress and hands back the one
    /// it replaces.
    pub fn store_recording(&mut self, recording: R) -> (previous: Option<R>)
        requires
            old(self).wf(),
        ensures
            final(self).wf(),
            previous == old(self).recording_spec(),
            final(self).recording_spec() == Some(recording),
            final(self).samples_spec() == old(self).samples_spec(),
    {
        let previous = self.recording.take();
        self.recording = Some(recording);
        assert(self.samples_spec() == old(self).samples_spec());
        previous
    }

    /// Ends the recording in progress: hands it back and records a new take
    /// named after the number of takes before it.
    pub fn finish_recording(&mut self) -> (recording: R)
        requires
            old(self).wf(),
            old(self).recording_spec() is Some,
        ensures
            final(self).wf(),
            recording == old(self).recording_spec()->0,
            final(self).recording_spec() is None,
            final(self).samples_spec() == old(self).samples_spec().push(
                sample_label_spec(old(self).samples_spec().len()),
            ),
    {
        let recording = self.recording.take().unwrap();
        let label = sample_label(self.samples.len());
        self.samples.push(label);
        assert(self.samples_spec() =~= old(self).samples_spec().push(
            sample_label_spec(old(self).samples_spec().len()),
        ));
        recording
    }

    /// A press of the record button with the engine in `state`. When the
    /// press starts a recording, `recording` is the one the engine started
    /// and becomes the recording in progress; when it stops one, the
    /// recording in progress ends and becomes the next named take; in any
    /// other state nothing changes. Returns the engine state after the
    /// press.
    pub fn toggle_recording(&mut self, state: EngineState, recording: Option<R>) -> (next: EngineState)
        requires
            old(self).wf(),
            recording is Some <==> toggle_spec(state) == Some(EngineCommand::Record),
            toggle_spec(state) == Some(EngineCommand::StopRecording) ==> old(
                self,
            ).recording_spec() is Some,
        ensures
            final(self).wf(),
            next == after_toggle(state),
            match toggle_spec(state) {
                Some(EngineCommand::Record) => {
                    &&& final(self).recording_spec() == recording
                    &&& final(self).samples_spec() == old(self).samples_spec()
                },
                Some(EngineCommand::StopRecording) => {
                    &&& final(self).recording_spec() is None
                    &&& final(self).samples_spec() == old(self).samples_spec().push(
                        sample_label_spec(old(self).samples_spec().len()),
                    )
                },
                _ => *final(self) == *old(self),
            },
            button_invariant(state, *old(self)) ==> button_invariant(next, *final(self)),
    {
        match crate::engine::toggle_command(state) {
            Some(EngineCommand::Record) => {
                match recording {
                    Some(r) => {
                        let _previous = self.store_recording(r);
                    },
                    None => {},
                }
                EngineState::Recording
            },
            Some(EngineCommand::StopRecording) => {
                let _finished = self.finish_recording();
                EngineState::Idle
            },
            _ => state,
        }
    }

    pub fn recording(&self) -> (r: Option<&R>)
        ensures
            r == (match self.recording_spec() {
                Some(x) => Some(&x),
                None => None::<&R>,
            }),
    {
        self.recording.as_ref()
    }

    pub fn samples(&self) -> (s: &[String])
        ensures
            s@.map_values(|x: String| x@) == self.samples_spec(),
    {
        self.samples.as_slice()
    }
}

/// What holds between the engine and the take bookkeeping while only the
/// record button drives them: the engine is idle or recording, it is
/// recording exactly when a recording is in progress, and take `i` is
/// named `sample i`.
pub open spec fn button_invariant<R>(state: EngineState, m: AudioManager<R>) -> bool {
    &&& state == EngineState::Idle || state == EngineState::Recording
    &&& (state == EngineState::Recording <==> m.recording_spec() is Some)
    &&& m.wf()
}

/// However many takes have been finished, take `i` is named
/// `sample i`: the names are `sample 0`, `sample 1`, ... in order.
pub proof fn lemma_takes_named_in_order<R>(m: AudioManager<R>, i: int)
    requires
        m.wf(),
        0 <= i < m.samples_spec().len(),
    ensures
        m.samples_spec()[i] == "sample "@ + decimal(i as nat),
{
}

} // verus!
