use recorder::config::StreamSpec;
use recorder::engine::EngineState;
use recorder::recording::{capture_finished, drain_le_bytes, CaptureBuffer};

#[test]
fn capture_starts_empty_and_appends_in_order() {
    let mut c = CaptureBuffer::new(&StreamSpec { channels: 2, sample_rate: 44100 });
    assert_eq!(c.len(), 0);
    c.append(&[1, 2, 3]);
    c.append(&[]);
    c.append(&[4]);
    assert_eq!(c.len(), 4);
    assert_eq!(c.samples(), &[1, 2, 3, 4]);
    assert_eq!(c.into_samples(), vec![1, 2, 3, 4]);
}

#[test]
fn capture_ends_only_when_engine_is_idle() {
    assert!(capture_finished(Some(EngineState::Idle)));
    assert!(!capture_finished(Some(EngineState::Recording)));
    assert!(!capture_finished(Some(EngineState::Playback)));
    assert!(!capture_finished(Some(EngineState::Paused)));
    assert!(!capture_finished(Some(EngineState::Busy)));
    assert!(!capture_finished(None));
}

#[test]
fn drain_le_bytes_is_little_endian_and_empties() {
    let mut samples = vec![0x0403_0201u32, 0xdead_beef];
    let bytes = drain_le_bytes(&mut samples);
    assert_eq!(bytes, vec![0x01, 0x02, 0x03, 0x04, 0xef, 0xbe, 0xad, 0xde]);
    assert!(samples.is_empty());
}

#[test]
fn drain_le_bytes_matches_f32_to_le_bytes() {
    let xs = [0.5f32, -1.25, 3.0e-7];
    let mut samples: Vec<u32> = xs.iter().map(|x| x.to_bits()).collect();
    let bytes = drain_le_bytes(&mut samples);
    let expected: Vec<u8> = xs.iter().flat_map(|x| x.to_le_bytes()).collect();
    assert_eq!(bytes, expected);
}

#[test]
fn le_bytes_read_back_to_the_samples() {
    let original = vec![0u32, 1, 0x8000_0000, u32::MAX, 0x1234_5678];
    let mut samples = original.clone();
    let bytes = drain_le_bytes(&mut samples);
    assert_eq!(bytes.len(), 4 * original.len());
    let back: Vec<u32> = bytes
        .chunks(4)
        .map(|c| u32::from_le_bytes([c[0], c[1], c[2], c[3]]))
        .collect();
    assert_eq!(back, original);
}

#[test]
fn drain_le_bytes_of_nothing_is_nothing() {
    let mut samples: Vec<u32> = Vec::new();
    assert!(drain_le_bytes(&mut samples).is_empty());
}

use recorder::recording::{CaptureAction, CaptureEvent};

#[test]
fn capture_step_follows_the_channel_then_the_engine() {
    let mut c = CaptureBuffer::new(&StreamSpec { channels: 1, sample_rate: 8000 });
    assert_eq!(c.step(CaptureEvent::Buffer(vec![1, 2])), CaptureAction::Receive);
    assert_eq!(c.step(CaptureEvent::Buffer(vec![3])), CaptureAction::Receive);
    assert_eq!(c.step(CaptureEvent::Disconnected), CaptureAction::PollState);
    assert_eq!(c.step(CaptureEvent::EngineState(None)), CaptureAction::Receive);
    assert_eq!(c.step(CaptureEvent::Disconnected), CaptureAction::PollState);
    assert_eq!(
        c.step(CaptureEvent::EngineState(Some(EngineState::Recording))),
        CaptureAction::Receive
    );
    assert_eq!(c.step(CaptureEvent::Buffer(vec![4, 5])), CaptureAction::Receive);
    assert_eq!(c.step(CaptureEvent::Disconnected), CaptureAction::PollState);
    assert_eq!(
        c.step(CaptureEvent::EngineState(Some(EngineState::Idle))),
        CaptureAction::Finish
    );
    assert_eq!(c.into_samples(), vec![1, 2, 3, 4, 5]);
}
