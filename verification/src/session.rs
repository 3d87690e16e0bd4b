//! Decisions of the session orchestrator.
//!
//! The orchestrator owns at most one session. It takes two commands, start
//! and stop, and it hears from the tasks it spawned: the network task reports
//! how the connection ended, the injection task reports each transcript and
//! the end of the transcript stream. Every reaction to those is decided here,
//! on the session's [`RecordingState`]; the orchestrator performs it.

use crate::network::NetworkError;
use crate::state::{RecordingState, SessionPhase};
use vstd::prelude::*;

verus! {

/// What the session state records when the network task fails.
pub const NETWORK_FAILURE: &'static str = "Network client failed";

/// A command for the orchestrator.
#[derive(Debug, Clone, PartialEq, Eq)]
pub enum AppCommand {
    /// Begin a recording session with this credential and model.
    StartRecording { api_key: String, model: String },
    /// End the current recording session.
    StopRecording,
}

/// What became of a stop command.
#[derive(Debug, Clone, Copy, PartialEq, Eq, Structural)]
pub enum StopOutcome {
    /// The session was capturing and is finalizing now.
    Finalizing,
    /// The session was finalizing already.
    AlreadyFinalizing,
    /// The session was in no state to stop.
    Ignored,
}

/// View of an optional session state.
pub open spec fn phase_of(state: Option<&RecordingState>) -> Option<SessionPhase> {
    match state {
        Some(state) => Some(state@),
        None => None,
    }
}

/// Whether a start command is accepted: always when no session exists, and
/// otherwise only when the existing session is idle or has failed.
pub open spec fn start_admitted(active: Option<SessionPhase>) -> bool {
    match active {
        Some(phase) => phase.can_start(),
        None => true,
    }
}

/// Decides on a start command, given the state of the session that exists, if
/// one does. A start during an active session is rejected, not queued.
pub fn admit_start(active: Option<&RecordingState>) -> (admitted: bool)
    ensures
        admitted == start_admitted(phase_of(active)),
{
    match active {
        Some(state) => state.can_start(),
        None => true,
    }
}

/// Decides on a start command and, where it is accepted, hands out the state
/// of the new session, which begins buffering. A rejected command leaves the
/// existing session as it is.
pub fn begin_session(active: Option<&RecordingState>) -> (fresh: Option<RecordingState>)
    ensures
        fresh is Some == start_admitted(phase_of(active)),
        fresh matches Some(state) ==> state == RecordingState::BufferingPreConnect,
{
    if admit_start(active) {
        let mut state = RecordingState::Idle;
        let _ = state.start();
        Some(state)
    } else {
        None
    }
}

/// Applies a stop command to the session's state: a capturing session starts
/// finalizing, and nothing changes otherwise.
pub fn request_stop(state: &mut RecordingState) -> (outcome: StopOutcome)
    ensures
        final(state)@ == old(state)@.finalize(),
        outcome == if old(state)@.can_stop() {
            StopOutcome::Finalizing
        } else if old(state)@ is Finalizing {
            StopOutcome::AlreadyFinalizing
        } else {
            StopOutcome::Ignored
        },
{
    if state.can_stop() {
        state.transition_to_finalizing();
        StopOutcome::Finalizing
    } else if state.is_finalizing() {
        StopOutcome::AlreadyFinalizing
    } else {
        StopOutcome::Ignored
    }
}

/// Records how the network task ended and tells whether the session is to be
/// torn down at once. A failure puts the session in `Error`, and it is torn
/// down. After a regular end a session that was still capturing starts
/// finalizing; it is torn down later, when its transcripts have drained.
pub fn conclude_network(state: &mut RecordingState, result: Result<(), NetworkError>) -> (teardown:
    bool)
    ensures
        teardown == (result is Err),
        final(state)@ == match result {
            Ok(_) => old(state)@.finalize(),
            Err(_) => old(state)@.fail(NETWORK_FAILURE@),
        },
{
    match result {
        Ok(_) => {
            state.transition_to_finalizing();
            false
        },
        Err(_) => {
            state.transition_to_error(String::from_str(NETWORK_FAILURE));
            true
        },
    }
}

/// Records that a transcript arrived and that its injection begins. The
/// first transcript of a session moves it to `Recording`; an injection begun
/// while finalizing is counted, so that the session stays open for it.
pub fn begin_transcript(state: &mut RecordingState)
    requires
        old(state)@ matches SessionPhase::Finalizing { pending } ==> pending < usize::MAX,
    ensures
        final(state)@ == old(state)@.first_transcript().begin_injection(),
{
    state.transition_to_recording();
    state.begin_injection();
}

/// Tells, once the transcript stream has closed, whether the session is to be
/// torn down: it is when the session is finalizing with no injection pending.
pub fn transcripts_drained(state: &RecordingState) -> (teardown: bool)
    ensures
        teardown == (state@ == SessionPhase::Finalizing { pending: 0 }),
{
    match state {
        RecordingState::Finalizing { pending_injections } => *pending_injections == 0,
        _ => false,
    }
}

/// A start command during `Recording` or `Finalizing` is rejected.
pub proof fn lemma_start_rejected_while_active(phase: SessionPhase)
    requires
        phase is Recording || phase is Finalizing,
    ensures
        !start_admitted(Some(phase)),
        phase.start() == phase,
{
}

} // verus!
