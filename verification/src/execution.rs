//! The order of a connector run: prepare, (check DataRaw,) probe, then launch,
//! with cooperative cancellation.
//!
//! The host performs each action (file preparation, network probes, process
//! creation) and reports back; these functions decide what comes next.
//! Once installation preparation has started it is always awaited, so that
//! each atomic file replacement completes.  Cancellation can stop the run
//! before preparation, after preparation, during the DataRaw check or the
//! probe, or after the launch preflight.  Once process creation begins it is
//! awaited, because dropping a pending elevation hand-off could leave an
//! untracked child process running.
use vstd::prelude::*;

use crate::run_state::ConnectorStage;

verus! {

/// How far a connector run has come; each value names the last action that
/// completed successfully.
#[derive(Debug, Clone, Copy, PartialEq, Eq, Structural)]
pub enum ConnectorProgress {
    NotStarted,
    Prepared,
    DataRawChecked,
    Probed,
    PreflightPassed,
}

/// What the host does next.
#[derive(Debug, Clone, Copy, PartialEq, Eq, Structural)]
pub enum ConnectorAction {
    /// Stop with the cancelled error.
    Cancel,
    /// Prepare the installation (always awaited once started).
    Prepare,
    /// Check the DataRaw file list with the server (cancellable).
    CheckDataRaw,
    /// Check messenger reachability (cancellable).
    ProbeMessenger,
    /// Check that the launch command can run.
    Preflight,
    /// Create the game process (awaited once started).
    Launch,
}

/// The next action of a run.
pub open spec fn next_action(
    progress: ConnectorProgress,
    cancelled: bool,
    data_pack_off: bool,
) -> ConnectorAction {
    match progress {
        ConnectorProgress::NotStarted => if cancelled {
            ConnectorAction::Cancel
        } else {
            ConnectorAction::Prepare
        },
        ConnectorProgress::Prepared => if cancelled {
            ConnectorAction::Cancel
        } else if data_pack_off {
            ConnectorAction::CheckDataRaw
        } else {
            ConnectorAction::ProbeMessenger
        },
        ConnectorProgress::DataRawChecked => if cancelled {
            ConnectorAction::Cancel
        } else {
            ConnectorAction::ProbeMessenger
        },
        ConnectorProgress::Probed => ConnectorAction::Preflight,
        ConnectorProgress::PreflightPassed => if cancelled {
            ConnectorAction::Cancel
        } else {
            ConnectorAction::Launch
        },
    }
}

/// The stage that is reported when an action starts.
pub open spec fn reported_stage(action: ConnectorAction) -> Option<ConnectorStage> {
    match action {
        ConnectorAction::Prepare => Some(ConnectorStage::PreparingInstallation),
        ConnectorAction::CheckDataRaw => Some(ConnectorStage::CheckingDataRaw),
        ConnectorAction::ProbeMessenger => Some(ConnectorStage::ProbingMessenger),
        ConnectorAction::Preflight => Some(ConnectorStage::LaunchingGame),
        _ => None,
    }
}

/// The progress after an action completed successfully.
pub open spec fn progress_after(progress: ConnectorProgress, action: ConnectorAction) -> ConnectorProgress {
    match action {
        ConnectorAction::Prepare => ConnectorProgress::Prepared,
        ConnectorAction::CheckDataRaw => ConnectorProgress::DataRawChecked,
        ConnectorAction::ProbeMessenger => ConnectorProgress::Probed,
        ConnectorAction::Preflight => ConnectorProgress::PreflightPassed,
        _ => progress,
    }
}

/// The next action of a run, given how far it has come, whether it was
/// cancelled, and whether the client runs without packed data.
pub fn next_connector_action(
    progress: ConnectorProgress,
    cancelled: bool,
    data_pack_off: bool,
) -> (res: ConnectorAction)
    ensures
        res == next_action(progress, cancelled, data_pack_off),
        res is Launch ==> progress is PreflightPassed && !cancelled,
{
    match progress {
        ConnectorProgress::NotStarted => if cancelled {
            ConnectorAction::Cancel
        } else {
            ConnectorAction::Prepare
        },
        ConnectorProgress::Prepared => if cancelled {
            ConnectorAction::Cancel
        } else if data_pack_off {
            ConnectorAction::CheckDataRaw
        } else {
            ConnectorAction::ProbeMessenger
        },
        ConnectorProgress::DataRawChecked => if cancelled {
            ConnectorAction::Cancel
        } else {
            ConnectorAction::ProbeMessenger
        },
        ConnectorProgress::Probed => ConnectorAction::Preflight,
        ConnectorProgress::PreflightPassed => if cancelled {
            ConnectorAction::Cancel
        } else {
            ConnectorAction::Launch
        },
    }
}

/// The stage to report before an action starts, if any.
pub fn stage_of_action(action: ConnectorAction) -> (res: Option<ConnectorStage>)
    ensures
        res == reported_stage(action),
{
    match action {
        ConnectorAction::Prepare => Some(ConnectorStage::PreparingInstallation),
        ConnectorAction::CheckDataRaw => Some(ConnectorStage::CheckingDataRaw),
        ConnectorAction::ProbeMessenger => Some(ConnectorStage::ProbingMessenger),
        ConnectorAction::Preflight => Some(ConnectorStage::LaunchingGame),
        _ => None,
    }
}

/// Records that an action completed successfully.
pub fn advance_connector_progress(progress: ConnectorProgress, action: ConnectorAction) -> (res:
    ConnectorProgress)
    ensures
        res == progress_after(progress, action),
{
    match action {
        ConnectorAction::Prepare => ConnectorProgress::Prepared,
        ConnectorAction::CheckDataRaw => ConnectorProgress::DataRawChecked,
        ConnectorAction::ProbeMessenger => ConnectorProgress::Probed,
        ConnectorAction::Preflight => ConnectorProgress::PreflightPassed,
        _ => progress,
    }
}

/// The actions of a run in which nothing is cancelled and every action
/// succeeds, from `progress` on, for at most `fuel` steps.
pub open spec fn uncancelled_actions(
    progress: ConnectorProgress,
    data_pack_off: bool,
    fuel: nat,
) -> Seq<ConnectorAction>
    decreases fuel,
{
    if fuel == 0 {
        Seq::empty()
    } else {
        let action = next_action(progress, false, data_pack_off);
        if action is Launch {
            seq![action]
        } else {
            seq![action] + uncancelled_actions(
                progress_after(progress, action),
                data_pack_off,
                (fuel - 1) as nat,
            )
        }
    }
}

/// Order of a run: without cancellation a run prepares, checks DataRaw only
/// when packed data is off, probes, runs the launch preflight and launches,
/// in that order, and so reports Preparing, (CheckingDataRaw,) Probing and
/// Launching.
pub proof fn lemma_connector_order(data_pack_off: bool)
    ensures
        uncancelled_actions(ConnectorProgress::NotStarted, data_pack_off, 5) == (if data_pack_off {
            seq![
                ConnectorAction::Prepare,
                ConnectorAction::CheckDataRaw,
                ConnectorAction::ProbeMessenger,
                ConnectorAction::Preflight,
                ConnectorAction::Launch,
            ]
        } else {
            seq![
                ConnectorAction::Prepare,
                ConnectorAction::ProbeMessenger,
                ConnectorAction::Preflight,
                ConnectorAction::Launch,
            ]
        }),
{
    reveal_with_fuel(uncancelled_actions, 6);
    let s = uncancelled_actions(ConnectorProgress::NotStarted, data_pack_off, 5);
    if data_pack_off {
        assert(s =~= seq![
            ConnectorAction::Prepare,
            ConnectorAction::CheckDataRaw,
            ConnectorAction::ProbeMessenger,
            ConnectorAction::Preflight,
            ConnectorAction::Launch,
        ]);
    } else {
        assert(s =~= seq![
            ConnectorAction::Prepare,
            ConnectorAction::ProbeMessenger,
            ConnectorAction::Preflight,
            ConnectorAction::Launch,
        ]);
    }
}

/// Cancellation: once a run has been cancelled, every point at which it
/// consults cancellation answers with `Cancel`, so no step after the
/// cancellation is observed launches the game; only the launch preflight,
/// which is followed by such a point, is not interrupted.
pub proof fn lemma_cancelled_runs_never_launch(progress: ConnectorProgress, data_pack_off: bool)
    ensures
        !(next_action(progress, true, data_pack_off) is Launch),
        progress != ConnectorProgress::Probed ==> next_action(progress, true, data_pack_off)
            == ConnectorAction::Cancel,
{
}

} // verus!
