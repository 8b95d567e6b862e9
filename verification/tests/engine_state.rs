use recorder::engine::{toggle_command, transition, EngineCommand, EngineState, StreamChange};

#[test]
fn record_opens_input_without_announcing() {
    let t = transition(EngineCommand::Record);
    assert_eq!(t.state, EngineState::Recording);
    assert!(!t.announce);
    assert_eq!(t.input_stream, StreamChange::Open);
    assert_eq!(t.output_stream, StreamChange::Keep);
}

#[test]
fn stop_recording_closes_input_and_announces_idle() {
    let t = transition(EngineCommand::StopRecording);
    assert_eq!(t.state, EngineState::Idle);
    assert!(t.announce);
    assert_eq!(t.input_stream, StreamChange::Close);
    assert_eq!(t.output_stream, StreamChange::Keep);
}

#[test]
fn playback_opens_output_without_announcing() {
    let t = transition(EngineCommand::Playback);
    assert_eq!(t.state, EngineState::Playback);
    assert!(!t.announce);
    assert_eq!(t.input_stream, StreamChange::Keep);
    assert_eq!(t.output_stream, StreamChange::Open);
}

#[test]
fn pause_closes_output_and_announces_paused() {
    let t = transition(EngineCommand::Pause);
    assert_eq!(t.state, EngineState::Paused);
    assert!(t.announce);
    assert_eq!(t.input_stream, StreamChange::Keep);
    assert_eq!(t.output_stream, StreamChange::Close);
}

#[test]
fn set_state_announces_and_keeps_streams() {
    let t = transition(EngineCommand::SetState(EngineState::Busy));
    assert_eq!(t.state, EngineState::Busy);
    assert!(t.announce);
    assert_eq!(t.input_stream, StreamChange::Keep);
    assert_eq!(t.output_stream, StreamChange::Keep);
}

#[test]
fn toggle_from_idle_records_and_from_recording_stops() {
    assert_eq!(toggle_command(EngineState::Idle), Some(EngineCommand::Record));
    assert_eq!(toggle_command(EngineState::Recording), Some(EngineCommand::StopRecording));
    assert_eq!(toggle_command(EngineState::Playback), None);
    assert_eq!(toggle_command(EngineState::Paused), None);
    assert_eq!(toggle_command(EngineState::Busy), None);
}

#[test]
fn toggling_twice_from_idle_comes_back_to_idle() {
    let mut state = EngineState::Idle;
    for _ in 0..2 {
        if let Some(c) = toggle_command(state) {
            state = transition(c).state;
        }
    }
    assert_eq!(state, EngineState::Idle);
}
