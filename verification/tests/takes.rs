use recorder::manager::{sample_label, AudioManager};

#[test]
fn labels_are_sample_and_decimal_index() {
    assert_eq!(sample_label(0), "sample 0");
    assert_eq!(sample_label(9), "sample 9");
    assert_eq!(sample_label(10), "sample 10");
    assert_eq!(sample_label(407), "sample 407");
    assert_eq!(sample_label(usize::MAX), format!("sample {}", usize::MAX));
}

#[test]
fn new_manager_has_no_recording_and_no_takes() {
    let m: AudioManager<u8> = AudioManager::new();
    assert!(m.recording().is_none());
    assert!(m.samples().is_empty());
}

#[test]
fn store_recording_replaces_and_returns_previous() {
    let mut m: AudioManager<&str> = AudioManager::new();
    assert_eq!(m.store_recording("first"), None);
    assert_eq!(m.recording(), Some(&"first"));
    assert_eq!(m.store_recording("second"), Some("first"));
    assert_eq!(m.recording(), Some(&"second"));
    assert!(m.samples().is_empty());
}

#[test]
fn finished_takes_are_named_in_order() {
    let mut m: AudioManager<u32> = AudioManager::new();
    for k in 0..12u32 {
        m.store_recording(k);
        assert_eq!(m.finish_recording(), k);
        assert!(m.recording().is_none());
    }
    let names: Vec<String> = (0..12).map(|i| format!("sample {}", i)).collect();
    assert_eq!(m.samples(), &names[..]);
}

use recorder::engine::EngineState;

#[test]
fn record_button_keeps_engine_and_takes_in_step() {
    let mut m: AudioManager<u32> = AudioManager::new();
    let mut state = EngineState::Idle;
    for k in 0..5u32 {
        state = m.toggle_recording(state, Some(k));
        assert_eq!(state, EngineState::Recording);
        assert_eq!(m.recording(), Some(&k));
        state = m.toggle_recording(state, None);
        assert_eq!(state, EngineState::Idle);
        assert!(m.recording().is_none());
        assert_eq!(m.samples().last().unwrap(), &format!("sample {}", k));
    }
    assert_eq!(m.samples().len(), 5);
}

#[test]
fn record_button_does_nothing_in_other_states() {
    let mut m: AudioManager<u32> = AudioManager::new();
    for s in [EngineState::Playback, EngineState::Paused, EngineState::Busy] {
        assert_eq!(m.toggle_recording(s, None), s);
        assert!(m.recording().is_none());
        assert!(m.samples().is_empty());
    }
}
