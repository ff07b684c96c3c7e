use p5136::server_lifecycle::{
    decide_close, phase_after_start, CloseAction, CloseDecision, ServerPhase,
};

#[test]
fn closing_without_a_worker_closes_the_window() {
    let decision = decide_close(false, false, true, ServerPhase::Stopped, false, false);
    assert_eq!(
        decision,
        CloseDecision { cancel_close: false, close_requested: false, action: CloseAction::CloseWindow }
    );
}

#[test]
fn nothing_happens_without_a_close_request() {
    let decision = decide_close(false, true, false, ServerPhase::Running, false, false);
    assert_eq!(
        decision,
        CloseDecision { cancel_close: false, close_requested: false, action: CloseAction::Wait }
    );
    let decision = decide_close(true, false, false, ServerPhase::Running, false, false);
    assert_eq!(decision.action, CloseAction::Wait);
    assert!(!decision.cancel_close);
}

#[test]
fn closing_a_running_server_cancels_the_close_and_shuts_down_gracefully() {
    for phase in [ServerPhase::Starting, ServerPhase::Running] {
        let decision = decide_close(true, true, false, phase, false, false);
        assert_eq!(
            decision,
            CloseDecision {
                cancel_close: true,
                close_requested: true,
                action: CloseAction::GracefulShutdown
            }
        );
    }
}

#[test]
fn a_stopping_server_is_forced_only_after_the_grace_period() {
    let waiting = decide_close(false, true, true, ServerPhase::Stopping, false, false);
    assert_eq!(waiting.action, CloseAction::Wait);
    assert!(waiting.close_requested);
    let forced = decide_close(false, true, true, ServerPhase::Stopping, false, true);
    assert_eq!(forced.action, CloseAction::ForceShutdown);
    let already = decide_close(false, true, true, ServerPhase::Stopping, true, true);
    assert_eq!(already.action, CloseAction::Wait);
}

#[test]
fn a_blocked_stop_is_forced_once() {
    let forced = decide_close(false, true, true, ServerPhase::StopBlocked, false, false);
    assert_eq!(forced.action, CloseAction::ForceShutdown);
    let again = decide_close(false, true, true, ServerPhase::StopBlocked, true, false);
    assert_eq!(again.action, CloseAction::Wait);
}

#[test]
fn a_stopped_server_with_a_live_worker_closes_the_window() {
    let decision = decide_close(false, true, true, ServerPhase::Stopped, false, false);
    assert_eq!(decision.action, CloseAction::CloseWindow);
    assert!(decision.close_requested);
}

#[test]
fn a_failed_server_drops_the_close_request() {
    let decision = decide_close(true, true, true, ServerPhase::Failed, true, true);
    assert_eq!(
        decision,
        CloseDecision { cancel_close: true, close_requested: false, action: CloseAction::GiveUp }
    );
}

#[test]
fn a_server_started_during_a_close_goes_straight_to_stopping() {
    assert_eq!(phase_after_start(true), ServerPhase::Stopping);
    assert_eq!(phase_after_start(false), ServerPhase::Running);
}

#[test]
fn active_phases_are_the_ones_with_work_in_hand() {
    assert!(ServerPhase::Starting.is_active());
    assert!(ServerPhase::Running.is_active());
    assert!(ServerPhase::Stopping.is_active());
    assert!(ServerPhase::StopBlocked.is_active());
    assert!(!ServerPhase::Stopped.is_active());
    assert!(!ServerPhase::Failed.is_active());
}
