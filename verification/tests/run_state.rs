use p5136::execution::{
    advance_connector_progress, next_connector_action, stage_of_action, ConnectorAction,
    ConnectorProgress,
};
use p5136::i18n::GuiLanguage;
use p5136::run_state::{
    stage_label, ConnectorGuiEvent, ConnectorStage, GuiFileLogging, GuiRunState, GuiSuccess,
    RunnerBackend, TrackImportState, XunAttachState,
};

#[test]
fn run_state_rejects_duplicate_start_and_accepts_progress() {
    let mut state = GuiRunState::Idle;
    assert!(state.begin());
    assert!(!state.begin());
    state.apply(ConnectorGuiEvent::Stage(ConnectorStage::ProbingMessenger));
    assert_eq!(state, GuiRunState::Running(ConnectorStage::ProbingMessenger));

    let success = GuiSuccess {
        backend: RunnerBackend::Wine,
        pid: Some(42),
        status: "running".to_owned(),
    };
    state.apply(ConnectorGuiEvent::Finished(Ok(success.clone())));
    assert_eq!(state, GuiRunState::Succeeded(success));
    assert!(state.begin());
}

#[test]
fn a_failed_run_can_be_restarted() {
    let mut state = GuiRunState::Idle;
    assert!(state.begin());
    assert_eq!(state, GuiRunState::Running(ConnectorStage::PreparingInstallation));
    state.apply(ConnectorGuiEvent::Finished(Err("boom".to_owned())));
    assert_eq!(state, GuiRunState::Failed("boom".to_owned()));
    assert!(!state.is_running());
    assert!(state.begin());
}

#[test]
fn other_states() {
    assert!(XunAttachState::Running.is_running());
    assert!(!XunAttachState::Failed("x".to_owned()).is_running());
    assert!(TrackImportState::Scanning.busy());
    assert!(TrackImportState::Importing.busy());
    assert!(!TrackImportState::Idle.busy());
    assert!(GuiFileLogging::default().enabled());
    assert!(!GuiFileLogging::Disabled.enabled());
}

#[test]
fn stage_labels() {
    assert_eq!(
        stage_label(ConnectorStage::ProbingMessenger, GuiLanguage::English),
        "Checking messenger TCP reachability…"
    );
    assert_eq!(
        stage_label(ConnectorStage::LaunchingGame, GuiLanguage::Korean),
        "카트라이더를 실행하는 중…"
    );
}

fn run(data_pack_off: bool, cancel_at: Option<usize>) -> (Vec<ConnectorStage>, Vec<ConnectorAction>) {
    let mut progress = ConnectorProgress::NotStarted;
    let mut stages = Vec::new();
    let mut actions = Vec::new();
    for step in 0..10 {
        let cancelled = cancel_at.is_some_and(|at| step >= at);
        let action = next_connector_action(progress, cancelled, data_pack_off);
        actions.push(action);
        if let Some(stage) = stage_of_action(action) {
            stages.push(stage);
        }
        if matches!(action, ConnectorAction::Cancel | ConnectorAction::Launch) {
            break;
        }
        progress = advance_connector_progress(progress, action);
    }
    (stages, actions)
}

#[test]
fn connector_runs_prepare_probe_then_launch() {
    let (stages, actions) = run(false, None);
    assert_eq!(
        stages,
        [
            ConnectorStage::PreparingInstallation,
            ConnectorStage::ProbingMessenger,
            ConnectorStage::LaunchingGame,
        ]
    );
    assert_eq!(actions.last(), Some(&ConnectorAction::Launch));

    let (stages, _) = run(true, None);
    assert_eq!(
        stages,
        [
            ConnectorStage::PreparingInstallation,
            ConnectorStage::CheckingDataRaw,
            ConnectorStage::ProbingMessenger,
            ConnectorStage::LaunchingGame,
        ]
    );
}

#[test]
fn cancellation_after_preparation_never_reaches_the_launch() {
    let (stages, actions) = run(false, Some(1));
    assert_eq!(stages, [ConnectorStage::PreparingInstallation]);
    assert_eq!(actions, [ConnectorAction::Prepare, ConnectorAction::Cancel]);
    // cancelled after the probe: the preflight still runs, the launch does not
    let (_, actions) = run(false, Some(3));
    assert_eq!(actions.last(), Some(&ConnectorAction::Cancel));
    assert!(!actions.contains(&ConnectorAction::Launch));
}

#[test]
fn build_version_footer_uses_the_compiled_package_version() {
    assert_eq!(p5136::BUILD_VERSION, "0.1.0");
}
