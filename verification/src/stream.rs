//! Pause and resume of the audio stream as a two-state machine.
//!
//! The controller does not touch the device. A toggle takes two steps: the
//! controller names the command that the device is to carry out, the caller
//! carries it out, and the controller then settles on the new state if the
//! device obeyed, or stays where it was and reports the failure if it did not.

use vstd::prelude::*;

verus! {

/// Whether the stream is delivering audio.
#[derive(Clone, Copy, Debug, PartialEq, Eq)]
pub enum StreamState {
    Playing,
    Paused,
}

/// What a toggle asks of the device.
#[derive(Clone, Copy, Debug, PartialEq, Eq)]
pub enum StreamCommand {
    Pause,
    Resume,
}

/// A command that the device did not carry out.
#[derive(Clone, Copy, Debug, PartialEq, Eq)]
pub enum StreamError {
    PauseFailed,
    ResumeFailed,
}

impl StreamState {
    /// The other state.
    pub open spec fn toggled(self) -> StreamState {
        match self {
            StreamState::Playing => StreamState::Paused,
            StreamState::Paused => StreamState::Playing,
        }
    }

    /// The command that takes the stream from this state to the other one.
    pub open spec fn toggle_command(self) -> StreamCommand {
        match self {
            StreamState::Playing => StreamCommand::Pause,
            StreamState::Paused => StreamCommand::Resume,
        }
    }
}

impl StreamCommand {
    /// The error reported when the device does not carry out this command.
    pub open spec fn failure(self) -> StreamError {
        match self {
            StreamCommand::Pause => StreamError::PauseFailed,
            StreamCommand::Resume => StreamError::ResumeFailed,
        }
    }
}

/// The state after a toggle was attempted from `state`: the other state if the
/// device carried the command out, the same state if it did not.
pub open spec fn after_toggle(state: StreamState, carried_out: bool) -> StreamState {
    if carried_out {
        state.toggled()
    } else {
        state
    }
}

/// Tracks the state of one audio stream. Its view is that state.
pub struct StreamController {
    state: StreamState,
}

impl View for StreamController {
    type V = StreamState;

    closed spec fn view(&self) -> StreamState {
        self.state
    }
}

impl StreamController {
    /// A controller for a stream that has just been started.
    pub fn new() -> (controller: Self)
        ensures
            controller@ == StreamState::Playing,
    {
        StreamController { state: StreamState::Playing }
    }

    /// The current state.
    pub fn state(&self) -> (state: StreamState)
        ensures
            state == self@,
    {
        self.state
    }

    /// The command that a toggle requested now asks of the device. The state
    /// does not change until `toggle` is told how the device answered.
    pub fn toggle_command(&self) -> (command: StreamCommand)
        ensures
            command == self@.toggle_command(),
    {
        match self.state {
            StreamState::Playing => StreamCommand::Pause,
            StreamState::Paused => StreamCommand::Resume,
        }
    }

    /// Settles a toggle. `carried_out` says whether the device carried out the
    /// command that `toggle_command` named. If it did, the state flips and the
    /// new state is returned. If it did not, the state stays as it was and the
    /// failure of that command is returned.
    pub fn toggle(&mut self, carried_out: bool) -> (outcome: Result<StreamState, StreamError>)
        ensures
            final(self)@ == after_toggle(old(self)@, carried_out),
            carried_out ==> outcome == Ok::<StreamState, StreamError>(old(self)@.toggled()),
            !carried_out ==> final(self)@ == old(self)@ && outcome == Err::<
                StreamState,
                StreamError,
            >(old(self)@.toggle_command().failure()),
    {
        let command = self.toggle_command();
        if carried_out {
            let next = match self.state {
                StreamState::Playing => StreamState::Paused,
                StreamState::Paused => StreamState::Playing,
            };
            self.state = next;
            Ok(next)
        } else {
            match command {
                StreamCommand::Pause => Err(StreamError::PauseFailed),
                StreamCommand::Resume => Err(StreamError::ResumeFailed),
            }
        }
    }
}

/// A failed toggle changes nothing: a failed pause leaves the stream playing
/// and a failed resume leaves it paused. A toggle that the device carried out
/// twice in a row returns the stream to where it was.
pub proof fn lemma_toggle_outcomes(state: StreamState)
    ensures
        after_toggle(state, false) == state,
        after_toggle(StreamState::Playing, false) == StreamState::Playing,
        after_toggle(StreamState::Paused, false) == StreamState::Paused,
        after_toggle(after_toggle(state, true), true) == state,
{
}

} // verus!
