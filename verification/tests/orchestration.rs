use eleventh_echo::network::NetworkError;
use eleventh_echo::session::{
    admit_start, begin_session, begin_transcript, conclude_network, request_stop,
    transcripts_drained, AppCommand, StopOutcome, NETWORK_FAILURE,
};
use eleventh_echo::state::RecordingState;

#[test]
fn start_is_admitted_without_a_session() {
    assert!(admit_start(None));
    assert_eq!(begin_session(None), Some(RecordingState::BufferingPreConnect));
}

#[test]
fn start_is_admitted_over_an_idle_or_failed_session() {
    let idle = RecordingState::Idle;
    let failed = RecordingState::Error("Network client failed".to_string());
    assert!(admit_start(Some(&idle)));
    assert!(admit_start(Some(&failed)));
    assert_eq!(begin_session(Some(&failed)), Some(RecordingState::BufferingPreConnect));
}

#[test]
fn start_during_an_active_session_is_rejected() {
    let active = [
        RecordingState::BufferingPreConnect,
        RecordingState::Connecting,
        RecordingState::Recording,
        RecordingState::Finalizing { pending_injections: 0 },
        RecordingState::Finalizing { pending_injections: 2 },
    ];
    for state in active {
        let before = state.clone();
        assert!(!admit_start(Some(&state)));
        assert_eq!(begin_session(Some(&state)), None);
        assert_eq!(state, before);
    }
}

#[test]
fn stop_moves_a_capturing_session_to_finalizing() {
    for state in [
        RecordingState::BufferingPreConnect,
        RecordingState::Connecting,
        RecordingState::Recording,
    ] {
        let mut state = state;
        assert_eq!(request_stop(&mut state), StopOutcome::Finalizing);
        assert_eq!(state, RecordingState::Finalizing { pending_injections: 0 });
    }
}

#[test]
fn stop_while_finalizing_changes_nothing() {
    let mut state = RecordingState::Finalizing { pending_injections: 3 };
    assert_eq!(request_stop(&mut state), StopOutcome::AlreadyFinalizing);
    assert_eq!(state, RecordingState::Finalizing { pending_injections: 3 });
}

#[test]
fn stop_is_ignored_when_nothing_is_captured() {
    let mut idle = RecordingState::Idle;
    assert_eq!(request_stop(&mut idle), StopOutcome::Ignored);
    assert_eq!(idle, RecordingState::Idle);

    let mut failed = RecordingState::Error("boom".to_string());
    assert_eq!(request_stop(&mut failed), StopOutcome::Ignored);
    assert_eq!(failed, RecordingState::Error("boom".to_string()));
}

#[test]
fn network_failure_puts_the_session_in_error() {
    assert_eq!(NETWORK_FAILURE, "Network client failed");
    let mut state = RecordingState::Connecting;
    assert!(conclude_network(&mut state, Err(NetworkError::ConnectionFailed)));
    assert_eq!(state, RecordingState::Error("Network client failed".to_string()));

    let mut finalizing = RecordingState::Finalizing { pending_injections: 1 };
    assert!(conclude_network(&mut finalizing, Err(NetworkError::InvalidRequest)));
    assert_eq!(finalizing, RecordingState::Error("Network client failed".to_string()));
}

#[test]
fn regular_network_end_finalizes_a_capturing_session() {
    let mut recording = RecordingState::Recording;
    assert!(!conclude_network(&mut recording, Ok(())));
    assert_eq!(recording, RecordingState::Finalizing { pending_injections: 0 });

    let mut finalizing = RecordingState::Finalizing { pending_injections: 2 };
    assert!(!conclude_network(&mut finalizing, Ok(())));
    assert_eq!(finalizing, RecordingState::Finalizing { pending_injections: 2 });
}

#[test]
fn first_transcript_moves_the_session_to_recording() {
    let mut connecting = RecordingState::Connecting;
    begin_transcript(&mut connecting);
    assert_eq!(connecting, RecordingState::Recording);

    let mut buffering = RecordingState::BufferingPreConnect;
    begin_transcript(&mut buffering);
    assert_eq!(buffering, RecordingState::Recording);
}

#[test]
fn transcript_during_finalization_is_counted() {
    let mut state = RecordingState::Finalizing { pending_injections: 0 };
    begin_transcript(&mut state);
    assert_eq!(state, RecordingState::Finalizing { pending_injections: 1 });
    assert!(!transcripts_drained(&state));

    state.finish_injection();
    assert!(transcripts_drained(&state));
}

#[test]
fn session_is_torn_down_only_when_finalizing_has_drained() {
    assert!(transcripts_drained(&RecordingState::Finalizing { pending_injections: 0 }));
    assert!(!transcripts_drained(&RecordingState::Finalizing { pending_injections: 1 }));
    assert!(!transcripts_drained(&RecordingState::Recording));
    assert!(!transcripts_drained(&RecordingState::Idle));
    assert!(!transcripts_drained(&RecordingState::Error("boom".to_string())));
}

#[test]
fn stop_then_late_transcript_then_teardown() {
    let mut state = begin_session(None).unwrap();
    state.transition_to_connecting();
    begin_transcript(&mut state);
    state.finish_injection();
    assert_eq!(state, RecordingState::Recording);

    assert_eq!(request_stop(&mut state), StopOutcome::Finalizing);
    begin_transcript(&mut state);
    assert!(!conclude_network(&mut state, Ok(())));
    assert!(!transcripts_drained(&state));
    state.transition_to_idle();
    assert_eq!(state, RecordingState::Finalizing { pending_injections: 1 });

    state.finish_injection();
    assert!(transcripts_drained(&state));
    state.transition_to_idle();
    assert_eq!(state, RecordingState::Idle);
    assert!(admit_start(Some(&state)));
}

#[test]
fn commands_carry_credential_and_model() {
    let start = AppCommand::StartRecording {
        api_key: "secret".to_string(),
        model: "scribe_v2".to_string(),
    };
    assert_ne!(start, AppCommand::StopRecording);
    assert!(matches!(start, AppCommand::StartRecording { ref model, .. } if model == "scribe_v2"));
}
