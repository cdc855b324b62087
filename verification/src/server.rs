//! Lifecycle state of the ephemeral capture server.
//!
//! The state records whether a background listener is running, on which port,
//! and the identities of the listener task and of its one-shot stop signal.
//! The two identities stand for the task handle and the cancellation sender
//! that the surrounding runtime owns: the decisions here say which listener
//! to tear down and which to spawn, and the runtime carries them out.
//!
//! Task and signal are set and cleared together; `Stopped` holds no task, no
//! signal and no bound port, `Running(port)` holds all three.

use vstd::prelude::*;
use crate::error::CaptureError;

verus! {

/// The synchronized lifecycle state of the capture listener.
#[derive(Debug, Clone, Copy, PartialEq, Eq, Structural)]
pub struct CaptureServerState {
    /// Identity of the background listener task, while one is running.
    pub task: Option<u64>,
    /// Identity of the one-shot stop sender paired with the task.
    pub signal: Option<u64>,
    /// The port the listener is bound to, while one is running.
    pub port: Option<u16>,
    /// Source of fresh listener identities; above every identity handed out.
    pub next_id: u64,
}

/// What the surrounding runtime must do after a lifecycle decision: tear a
/// listener down (send its stop signal, then abort its task), spawn a fresh
/// one, or both, in that order.
#[derive(Debug, Clone, Copy, PartialEq, Eq, Structural)]
pub enum ServerAction {
    /// Nothing to do; the state did not change.
    NoAction,
    /// Send the stop signal and abort the task with these identities.
    StopListener { task: u64, signal: u64 },
    /// Spawn a listener bound to `127.0.0.1:port` under these identities.
    StartListener { port: u16, task: u64, signal: u64 },
    /// Tear the old listener down, then spawn the new one.
    Replace { stop_task: u64, stop_signal: u64, port: u16, task: u64, signal: u64 },
}

impl CaptureServerState {
    /// Task, signal and port are present together or absent together, and
    /// every identity handed out lies below `next_id`.
    pub open spec fn wf(self) -> bool {
        &&& self.task is Some <==> self.signal is Some
        &&& self.task is Some <==> self.port is Some
        &&& self.task is Some ==> self.task->0 < self.next_id && self.signal->0 < self.next_id
    }

    /// A listener is running.
    pub open spec fn is_running(self) -> bool {
        self.task is Some
    }

    /// The state after `stop`: no task, no signal, no bound port.
    pub open spec fn stop_spec(self) -> CaptureServerState {
        CaptureServerState { task: None, signal: None, port: None, next_id: self.next_id }
    }

    /// The state after `start(port)`: a fresh task/signal pair, bound port
    /// recorded.
    pub open spec fn start_spec(self, port: u16) -> CaptureServerState {
        CaptureServerState {
            task: Some(self.next_id),
            signal: Some((self.next_id + 1) as u64),
            port: Some(port),
            next_id: (self.next_id + 2) as u64,
        }
    }

    /// The fresh process-start state: `Stopped`.
    pub fn new() -> (r: CaptureServerState)
        ensures
            r.wf(),
            !r.is_running(),
            r == (CaptureServerState { task: None, signal: None, port: None, next_id: 0 }),
    {
        CaptureServerState { task: None, signal: None, port: None, next_id: 0 }
    }

    /// Whether the capture listener is running.
    pub fn get_is_server_running(&self) -> (r: bool)
        ensures
            r == self.is_running(),
    {
        self.task.is_some()
    }

    /// Stops the listener, if one is running.
    ///
    /// On a running server this clears task, signal and port together and
    /// tells the runtime which pair to tear down.  On a stopped server it is
    /// a silent no-op: no error, no state change, however often it is
    /// called.
    pub fn stop(&mut self) -> (r: ServerAction)
        requires
            old(self).wf(),
        ensures
            final(self).wf(),
            !final(self).is_running(),
            *final(self) == old(self).stop_spec(),
            old(self).is_running() ==> r == (ServerAction::StopListener {
                task: old(self).task->0,
                signal: old(self).signal->0,
            }),
            !old(self).is_running() ==> r == ServerAction::NoAction && *final(self) == *old(self),
    {
        match (self.task, self.signal) {
            (Some(task), Some(signal)) => {
                self.task = None;
                self.signal = None;
                self.port = None;
                ServerAction::StopListener { task, signal }
            },
            _ => ServerAction::NoAction,
        }
    }

    /// Starts a listener on `port` from the stopped state, minting a fresh
    /// task/signal pair whose identities differ from every pair handed out
    /// before.
    pub fn start(&mut self, port: u16) -> (r: ServerAction)
        requires
            old(self).wf(),
            !old(self).is_running(),
            old(self).next_id + 2 <= u64::MAX,
        ensures
            final(self).wf(),
            final(self).is_running(),
            *final(self) == old(self).start_spec(port),
            final(self).port == Some(port),
            r == (ServerAction::StartListener {
                port,
                task: old(self).next_id,
                signal: (old(self).next_id + 1) as u64,
            }),
    {
        let task: u64 = self.next_id;
        let signal: u64 = self.next_id + 1;
        self.next_id = self.next_id + 2;
        self.task = Some(task);
        self.signal = Some(signal);
        self.port = Some(port);
        ServerAction::StartListener { port, task, signal }
    }

    /// Reports that the listener spawned for the current state failed to
    /// bind its port.  The task/signal pair just handed out is discarded
    /// and the server returns to `Stopped`; the failure is surfaced to the
    /// start/restart caller as `BindError`.
    pub fn bind_failed(&mut self) -> (r: CaptureError)
        requires
            old(self).wf(),
        ensures
            final(self).wf(),
            !final(self).is_running(),
            *final(self) == old(self).stop_spec(),
            r == CaptureError::BindError,
    {
        self.task = None;
        self.signal = None;
        self.port = None;
        CaptureError::BindError
    }

    /// Restarts the listener on `port`.
    ///
    /// While already running on that same port this is a no-op: the socket
    /// is not rebound and the listener task keeps its identity, with no
    /// identity headroom needed.  Otherwise the running listener (if any)
    /// is stopped and a fresh one is started on `port`: the state passes
    /// through `Stopped` and ends `Running(port)` with a task identity
    /// that no earlier listener had.
    pub fn restart(&mut self, port: u16) -> (r: ServerAction)
        requires
            old(self).wf(),
            !(old(self).is_running() && old(self).port == Some(port)) ==> old(self).next_id + 2
                <= u64::MAX,
        ensures
            final(self).wf(),
            old(self).is_running() && old(self).port == Some(port) ==> *final(self) == *old(self)
                && r == ServerAction::NoAction,
            !(old(self).is_running() && old(self).port == Some(port)) ==> {
                &&& *final(self) == old(self).stop_spec().start_spec(port)
                &&& final(self).is_running()
                &&& final(self).port == Some(port)
                &&& final(self).task != old(self).task
                &&& (old(self).is_running() ==> r == (ServerAction::Replace {
                    stop_task: old(self).task->0,
                    stop_signal: old(self).signal->0,
                    port,
                    task: old(self).next_id,
                    signal: (old(self).next_id + 1) as u64,
                }))
                &&& (!old(self).is_running() ==> r == (ServerAction::StartListener {
                    port,
                    task: old(self).next_id,
                    signal: (old(self).next_id + 1) as u64,
                }))
            },
    {
        match (self.task, self.port) {
            (Some(_), Some(bound)) => {
                if bound == port {
                    return ServerAction::NoAction;
                }
            },
            _ => {},
        }
        let stopped = self.stop();
        let started = self.start(port);
        match (stopped, started) {
            (
                ServerAction::StopListener { task: stop_task, signal: stop_signal },
                ServerAction::StartListener { port: p, task, signal },
            ) => ServerAction::Replace { stop_task, stop_signal, port: p, task, signal },
            (_, started) => started,
        }
    }
}

/// Stopping a stopped server changes nothing: `stop` is idempotent, however
/// many times it is applied.
pub proof fn lemma_stop_idempotent(s: CaptureServerState)
    ensures
        s.stop_spec().stop_spec() == s.stop_spec(),
        !s.stop_spec().is_running(),
{
}

/// A restart away from the running port tears the old listener down and
/// hands the new port a listener no earlier state had: the old task identity
/// is gone from the state that results.
pub proof fn lemma_restart_replaces_listener(s: CaptureServerState, port: u16)
    requires
        s.wf(),
        s.is_running(),
        s.next_id + 2 <= u64::MAX,
    ensures
        s.stop_spec().start_spec(port).is_running(),
        s.stop_spec().start_spec(port).port == Some(port),
        s.stop_spec().start_spec(port).task != s.task,
{
}

} // verus!
