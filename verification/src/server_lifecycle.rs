//! What closing the launcher window does to a running server: the window
//! stays open while the server worker runs, the server is asked to shut down
//! gracefully, and only a shutdown that outlives its grace period or is
//! blocked is forced.
use vstd::prelude::*;

verus! {

/// The server as the launcher tracks it, without the endpoints and messages
/// that some states carry.
#[derive(Debug, Clone, Copy, PartialEq, Eq, Structural)]
pub enum ServerPhase {
    Stopped,
    Starting,
    Running,
    Stopping,
    StopBlocked,
    Failed,
}

/// What the launcher does about a pending close request.
#[derive(Debug, Clone, Copy, PartialEq, Eq, Structural)]
pub enum CloseAction {
    /// Nothing this frame.
    Wait,
    /// Close the window.
    CloseWindow,
    /// Ask the server to shut down gracefully and start the grace period.
    GracefulShutdown,
    /// Ask the server to shut down at once.
    ForceShutdown,
    /// The server failed: drop the close request, its deadline and force flag.
    GiveUp,
}

/// The outcome of one look at the close request.
#[derive(Debug, Clone, Copy, PartialEq, Eq, Structural)]
pub struct CloseDecision {
    /// Refuse the window system's close for now.
    pub cancel_close: bool,
    /// Whether a close request stays pending.
    pub close_requested: bool,
    pub action: CloseAction,
}

impl ServerPhase {
    /// The server worker has work in hand: starting, running or stopping.
    pub fn is_active(self) -> (res: bool)
        ensures
            res == (self is Starting || self is Running || self is Stopping || self is StopBlocked),
    {
        match self {
            ServerPhase::Starting => true,
            ServerPhase::Running => true,
            ServerPhase::Stopping => true,
            ServerPhase::StopBlocked => true,
            ServerPhase::Stopped => false,
            ServerPhase::Failed => false,
        }
    }
}

/// The decision on a close request.
pub open spec fn close_decision(
    window_close: bool,
    worker_running: bool,
    close_requested: bool,
    phase: ServerPhase,
    force_requested: bool,
    grace_expired: bool,
) -> CloseDecision {
    let cancel_close = window_close && worker_running;
    let requested = close_requested || cancel_close;
    if !requested {
        CloseDecision { cancel_close, close_requested: false, action: CloseAction::Wait }
    } else if !worker_running {
        CloseDecision { cancel_close, close_requested: false, action: CloseAction::CloseWindow }
    } else {
        let action = match phase {
            ServerPhase::Starting | ServerPhase::Running => CloseAction::GracefulShutdown,
            ServerPhase::Stopping => if !force_requested && grace_expired {
                CloseAction::ForceShutdown
            } else {
                CloseAction::Wait
            },
            ServerPhase::StopBlocked => if !force_requested {
                CloseAction::ForceShutdown
            } else {
                CloseAction::Wait
            },
            ServerPhase::Stopped => CloseAction::CloseWindow,
            ServerPhase::Failed => CloseAction::GiveUp,
        };
        CloseDecision { cancel_close, close_requested: !(action is GiveUp), action }
    }
}

/// Decides what a close request does.  `window_close` is a close asked for
/// by the window system this frame, `worker_running` whether the server
/// worker still runs, `close_requested` and `force_requested` what earlier
/// frames recorded, and `grace_expired` whether the graceful shutdown's
/// grace period is over.
pub fn decide_close(
    window_close: bool,
    worker_running: bool,
    close_requested: bool,
    phase: ServerPhase,
    force_requested: bool,
    grace_expired: bool,
) -> (res: CloseDecision)
    ensures
        res == close_decision(
            window_close,
            worker_running,
            close_requested,
            phase,
            force_requested,
            grace_expired,
        ),
        // the window closes only once the worker is gone or the server stopped
        res.action is CloseWindow ==> !worker_running || phase is Stopped,
        // a shutdown is forced only after a graceful one was under way
        res.action is ForceShutdown ==> !force_requested && (phase is StopBlocked || (
        phase is Stopping && grace_expired)),
        // a running worker keeps the window open against the window system
        window_close && worker_running ==> res.cancel_close,
        // with the worker running, a close stays pending unless the server failed
        worker_running && (close_requested || window_close) ==> (res.close_requested <==> !(
        phase is Failed)),
{
    let cancel_close = window_close && worker_running;
    let requested = close_requested || cancel_close;
    if !requested {
        return CloseDecision { cancel_close, close_requested: false, action: CloseAction::Wait };
    }
    if !worker_running {
        return CloseDecision {
            cancel_close,
            close_requested: false,
            action: CloseAction::CloseWindow,
        };
    }
    let action = match phase {
        ServerPhase::Starting | ServerPhase::Running => CloseAction::GracefulShutdown,
        ServerPhase::Stopping => if !force_requested && grace_expired {
            CloseAction::ForceShutdown
        } else {
            CloseAction::Wait
        },
        ServerPhase::StopBlocked => if !force_requested {
            CloseAction::ForceShutdown
        } else {
            CloseAction::Wait
        },
        ServerPhase::Stopped => CloseAction::CloseWindow,
        ServerPhase::Failed => CloseAction::GiveUp,
    };
    let keep = match action {
        CloseAction::GiveUp => false,
        _ => true,
    };
    CloseDecision { cancel_close, close_requested: keep, action }
}

/// The phase that a started server enters: stopping at once when a close
/// was requested while it started.
pub fn phase_after_start(close_requested: bool) -> (res: ServerPhase)
    ensures
        res == (if close_requested {
            ServerPhase::Stopping
        } else {
            ServerPhase::Running
        }),
{
    if close_requested {
        ServerPhase::Stopping
    } else {
        ServerPhase::Running
    }
}

/// A close request, once made while the server worker runs, stays pending
/// whatever is done about it (a graceful shutdown, a forced one, waiting, or
/// closing once the server stopped), so the window closes when the server is
/// down; only a failed server drops it.  Without a worker, the request is
/// consumed by closing the window, and without any request nothing happens.
pub proof fn lemma_close_request_stays_pending(
    window_close: bool,
    worker_running: bool,
    close_requested: bool,
    phase: ServerPhase,
    force_requested: bool,
    grace_expired: bool,
)
    ensures
        ({
            let d = close_decision(
                window_close,
                worker_running,
                close_requested,
                phase,
                force_requested,
                grace_expired,
            );
            &&& worker_running && (close_requested || window_close) ==> {
                &&& (d.close_requested <==> !(phase is Failed))
                &&& (d.action is ForceShutdown ==> d.close_requested)
                &&& (phase is Failed ==> d.action is GiveUp)
                &&& ((phase is Starting || phase is Running) ==> d.action is GracefulShutdown)
            }
            &&& !worker_running && close_requested ==> d.action is CloseWindow
                && !d.close_requested
            &&& !close_requested && !(window_close && worker_running) ==> d.action is Wait
                && !d.close_requested
        }),
{
}

} // verus!
