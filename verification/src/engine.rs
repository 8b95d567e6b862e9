use vstd::prelude::*;

verus! {

/// What the audio engine is doing right now.
#[derive(Debug, Clone, Copy, PartialEq, Eq, Structural)]
pub enum EngineState {
    Idle,
    Playback,
    Paused,
    Recording,
    Busy,
}

/// The requests the audio engine answers.
#[derive(Debug, Clone, Copy, PartialEq, Eq, Structural)]
pub enum EngineCommand {
    /// Open the input stream and start capturing.
    Record,
    /// Close the input stream and go back to idle.
    StopRecording,
    /// Open the output stream and start playing a take.
    Playback,
    /// Close the output stream.
    Pause,
    /// Switch to the given state without touching the streams.
    SetState(EngineState),
}

/// What happens to one of the engine's streams on a command.
#[derive(Debug, Clone, Copy, PartialEq, Eq, Structural)]
pub enum StreamChange {
    Keep,
    Open,
    Close,
}

/// The engine's answer to a command: the state it moves to, whether the
/// new state is announced to the state subscribers, and what becomes of
/// the input and output streams.
#[derive(Debug, Clone, Copy, PartialEq, Eq, Structural)]
pub struct EngineTransition {
    pub state: EngineState,
    pub announce: bool,
    pub input_stream: StreamChange,
    pub output_stream: StreamChange,
}

pub open spec fn transition_spec(command: EngineCommand) -> EngineTransition {
    match command {
        EngineCommand::Record => EngineTransition {
            state: EngineState::Recording,
            announce: false,
            input_stream: StreamChange::Open,
            output_stream: StreamChange::Keep,
        },
        EngineCommand::StopRecording => EngineTransition {
            state: EngineState::Idle,
            announce: true,
            input_stream: StreamChange::Close,
            output_stream: StreamChange::Keep,
        },
        EngineCommand::Playback => EngineTransition {
            state: EngineState::Playback,
            announce: false,
            input_stream: StreamChange::Keep,
            output_stream: StreamChange::Open,
        },
        EngineCommand::Pause => EngineTransition {
            state: EngineState::Paused,
            announce: true,
            input_stream: StreamChange::Keep,
            output_stream: StreamChange::Close,
        },
        EngineCommand::SetState(s) => EngineTransition {
            state: s,
            announce: true,
            input_stream: StreamChange::Keep,
            output_stream: StreamChange::Keep,
        },
    }
}

/// How the engine answers `command`. Recording and playback switch state
/// without announcing it; stopping, pausing and setting a state announce
/// the new state.
pub fn transition(command: EngineCommand) -> (t: EngineTransition)
    ensures
        t == transition_spec(command),
        forall|s: EngineState|
            command == EngineCommand::SetState(s) ==> t.state == s && t.announce && t.input_stream
                == StreamChange::Keep && t.output_stream == StreamChange::Keep,
        t.input_stream == StreamChange::Open <==> command == EngineCommand::Record,
        t.input_stream == StreamChange::Close <==> command == EngineCommand::StopRecording,
        t.output_stream == StreamChange::Open <==> command == EngineCommand::Playback,
        t.output_stream == StreamChange::Close <==> command == EngineCommand::Pause,
{
    match command {
        EngineCommand::Record => EngineTransition {
            state: EngineState::Recording,
            announce: false,
            input_stream: StreamChange::Open,
            output_stream: StreamChange::Keep,
        },
        EngineCommand::StopRecording => EngineTransition {
            state: EngineState::Idle,
            announce: true,
            input_stream: StreamChange::Close,
            output_stream: StreamChange::Keep,
        },
        EngineCommand::Playback => EngineTransition {
            state: EngineState::Playback,
            announce: false,
            input_stream: StreamChange::Keep,
            output_stream: StreamChange::Open,
        },
        EngineCommand::Pause => EngineTransition {
            state: EngineState::Paused,
            announce: true,
            input_stream: StreamChange::Keep,
            output_stream: StreamChange::Close,
        },
        EngineCommand::SetState(s) => EngineTransition {
            state: s,
            announce: true,
            input_stream: StreamChange::Keep,
            output_stream: StreamChange::Keep,
        },
    }
}

pub open spec fn toggle_spec(state: EngineState) -> Option<EngineCommand> {
    match state {
        EngineState::Idle => Some(EngineCommand::Record),
        EngineState::Recording => Some(EngineCommand::StopRecording),
        _ => None,
    }
}

/// What the record button asks of the engine in `state`: an idle engine
/// starts recording, a recording engine stops, and any other state is left
/// alone.
pub fn toggle_command(state: EngineState) -> (c: Option<EngineCommand>)
    ensures
        c == toggle_spec(state),
{
    match state {
        EngineState::Idle => Some(EngineCommand::Record),
        EngineState::Recording => Some(EngineCommand::StopRecording),
        _ => None,
    }
}

/// The state the engine is in after the record button is pressed in
/// `state`.
pub open spec fn after_toggle(state: EngineState) -> EngineState {
    match toggle_spec(state) {
        Some(c) => transition_spec(c).state,
        None => state,
    }
}

/// The record button flips an idle engine to recording and a recording
/// engine back to idle, so pressing it twice from either state comes back
/// to where it started; in every other state it changes nothing.
pub proof fn lemma_toggle_flips_recording(state: EngineState)
    ensures
        state == EngineState::Idle ==> after_toggle(state) == EngineState::Recording,
        state == EngineState::Recording ==> after_toggle(state) == EngineState::Idle,
        (state == EngineState::Idle || state == EngineState::Recording) ==> after_toggle(
            after_toggle(state),
        ) == state,
        !(state == EngineState::Idle || state == EngineState::Recording) ==> toggle_spec(state)
            is None && after_toggle(state) == state,
{
}

/// A command leaves the stream it does not concern alone: recording and
/// stopping only touch the input stream, playback and pausing only the
/// output stream, and setting a state touches neither.
pub proof fn lemma_commands_touch_one_stream(command: EngineCommand)
    ensures
        transition_spec(command).input_stream == StreamChange::Keep || transition_spec(
            command,
        ).output_stream == StreamChange::Keep,
        transition_spec(command).input_stream == StreamChange::Open ==> transition_spec(
            command,
        ).state == EngineState::Recording,
        transition_spec(command).output_stream == StreamChange::Open ==> transition_spec(
            command,
        ).state == EngineState::Playback,
        transition_spec(command).announce <==> !(command == EngineCommand::Record || command
            == EngineCommand::Playback),
{
}

/// Setting a state moves the engine to exactly the state asked for,
/// announces it, and touches neither stream.
pub proof fn lemma_set_state_stores_the_state(s: EngineState)
    ensures
        transition_spec(EngineCommand::SetState(s)).state == s,
        transition_spec(EngineCommand::SetState(s)).announce,
        transition_spec(EngineCommand::SetState(s)).input_stream == StreamChange::Keep,
        transition_spec(EngineCommand::SetState(s)).output_stream == StreamChange::Keep,
{
}

/// Each stream is opened by exactly one command and closed by exactly one
/// command: recording opens the input and stopping closes it, playback
/// opens the output and pausing closes it; every other command keeps it.
pub proof fn lemma_streams_change_only_on_their_commands(command: EngineCommand)
    ensures
        transition_spec(command).input_stream == StreamChange::Open <==> command
            == EngineCommand::Record,
        transition_spec(command).input_stream == StreamChange::Close <==> command
            == EngineCommand::StopRecording,
        transition_spec(command).output_stream == StreamChange::Open <==> command
            == EngineCommand::Playback,
        transition_spec(command).output_stream == StreamChange::Close <==> command
            == EngineCommand::Pause,
{
}

/// The state each command leads to: recording to `Recording`, stopping to
/// `Idle`, playback to `Playback`, pausing to `Paused`, and setting a state
/// to that state.
pub proof fn lemma_command_targets(command: EngineCommand)
    ensures
        command == EngineCommand::Record ==> transition_spec(command).state
            == EngineState::Recording,
        command == EngineCommand::StopRecording ==> transition_spec(command).state
            == EngineState::Idle,
        command == EngineCommand::Playback ==> transition_spec(command).state
            == EngineState::Playback,
        command == EngineCommand::Pause ==> transition_spec(command).state == EngineState::Paused,
        forall|s: EngineState|
            command == EngineCommand::SetState(s) ==> transition_spec(command).state == s,
{
}

} // verus!
