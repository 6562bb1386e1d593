//! The dispatcher state machine: the single coordination task that serializes
//! submissions, keeps at most one command active, preempts on new
//! submissions, and shuts down on a stop request or when the request queue
//! closes.
//!
//! The machine is pure: one step maps the current state and one wake-up event
//! to the next state and the actions the running engine must perform (resolve
//! the preempted process's termination guard and signal it, publish an
//! outcome for a failed spawn, start a watcher for a new process). The engine
//! loop around it owns the channels and threads and performs the actions.

use crate::command_evaluation::CmdOutput;
use vstd::prelude::*;

verus! {

/// The dispatcher's state: no active command, one active command (named by
/// its process id), or shut down for good.
#[derive(Debug, PartialEq, Eq, Structural, Clone, Copy)]
pub enum DispatcherState {
    Idle,
    Running(u32),
    Stopped,
}

/// One wake-up of the dispatcher: a submitted request whose spawn attempt
/// ended with a process id or with an error text (a policy refusal or a spawn
/// failure), an explicit stop request, or the closing of the request queue,
/// which is treated as an orderly stop.
pub enum DispatcherEvent {
    Submitted(Result<u32, String>),
    StopRequested,
    QueueClosed,
}

/// What the engine must do after one step: resolve the termination guard of
/// an abandoned process (and signal it if the resolution won), publish an
/// outcome for a spawn that failed, and start a watcher for a new process.
pub struct DispatcherActions {
    pub kill: Option<u32>,
    pub publish: Option<CmdOutput>,
    pub watch: Option<u32>,
}

/// The process id the dispatcher holds active in state `s`, if any.
pub open spec fn active_handle(s: DispatcherState) -> Option<u32> {
    match s {
        DispatcherState::Running(pid) => Some(pid),
        _ => None,
    }
}

/// The state after one step. A successful spawn makes its process the single
/// active one; a failed spawn leaves the state unchanged; a stop request or a
/// closed queue is final. A stopped dispatcher ignores everything.
pub open spec fn spec_next(s: DispatcherState, e: &DispatcherEvent) -> DispatcherState {
    if s == DispatcherState::Stopped {
        DispatcherState::Stopped
    } else {
        match e {
            DispatcherEvent::Submitted(Ok(pid)) => DispatcherState::Running(*pid),
            DispatcherEvent::Submitted(Err(_)) => s,
            DispatcherEvent::StopRequested => DispatcherState::Stopped,
            DispatcherEvent::QueueClosed => DispatcherState::Stopped,
        }
    }
}

/// The process whose guard the step resolves for termination, if any: the
/// previously active process, exactly when it stops being active.
pub open spec fn step_kill(s: DispatcherState, e: &DispatcherEvent) -> Option<u32> {
    if s == DispatcherState::Stopped {
        None
    } else {
        match e {
            DispatcherEvent::Submitted(Ok(_)) => active_handle(s),
            DispatcherEvent::Submitted(Err(_)) => None,
            DispatcherEvent::StopRequested => active_handle(s),
            DispatcherEvent::QueueClosed => active_handle(s),
        }
    }
}

/// The process the step starts a watcher for, if any: exactly a newly
/// spawned one.
pub open spec fn step_watch(s: DispatcherState, e: &DispatcherEvent) -> Option<u32> {
    if s == DispatcherState::Stopped {
        None
    } else {
        match e {
            DispatcherEvent::Submitted(Ok(pid)) => Some(*pid),
            _ => None,
        }
    }
}

/// Whether the step itself publishes an outcome: exactly for a submission
/// whose spawn attempt failed, on a live dispatcher.
pub open spec fn step_publishes(s: DispatcherState, e: &DispatcherEvent) -> bool {
    s != DispatcherState::Stopped && (e matches DispatcherEvent::Submitted(Err(_)))
}

/// One step of the dispatcher.
pub fn dispatcher_step(state: DispatcherState, event: DispatcherEvent) -> (r: (
    DispatcherState,
    DispatcherActions,
))
    ensures
        r.0 == spec_next(state, &event),
        r.1.kill == step_kill(state, &event),
        r.1.watch == step_watch(state, &event),
        r.1.publish is Some <==> step_publishes(state, &event),
        step_publishes(state, &event) ==> (event matches DispatcherEvent::Submitted(Err(m))
            && r.1.publish == Some(CmdOutput::NotOk(m))),
{
    match state {
        DispatcherState::Stopped => (
            DispatcherState::Stopped,
            DispatcherActions { kill: None, publish: None, watch: None },
        ),
        _ => {
            let previous = match state {
                DispatcherState::Running(old_pid) => Some(old_pid),
                _ => None,
            };
            match event {
                DispatcherEvent::Submitted(Ok(pid)) => (
                    DispatcherState::Running(pid),
                    DispatcherActions { kill: previous, publish: None, watch: Some(pid) },
                ),
                DispatcherEvent::Submitted(Err(m)) => (
                    state,
                    DispatcherActions {
                        kill: None,
                        publish: Some(CmdOutput::NotOk(m)),
                        watch: None,
                    },
                ),
                DispatcherEvent::StopRequested => (
                    DispatcherState::Stopped,
                    DispatcherActions { kill: previous, publish: None, watch: None },
                ),
                DispatcherEvent::QueueClosed => (
                    DispatcherState::Stopped,
                    DispatcherActions { kill: previous, publish: None, watch: None },
                ),
            }
        },
    }
}

/// The state after consuming a whole sequence of events, first to last.
pub open spec fn run_events(s: DispatcherState, events: Seq<DispatcherEvent>) -> DispatcherState
    decreases events.len(),
{
    if events.len() == 0 {
        s
    } else {
        run_events(spec_next(s, &events[0]), events.skip(1))
    }
}

/// How many outcomes the dispatcher itself publishes along a trace.
pub open spec fn published_along(s: DispatcherState, events: Seq<DispatcherEvent>) -> nat
    decreases events.len(),
{
    if events.len() == 0 {
        0
    } else {
        (if step_publishes(s, &events[0]) {
            1nat
        } else {
            0nat
        }) + published_along(spec_next(s, &events[0]), events.skip(1))
    }
}

/// How many watchers the dispatcher starts along a trace.
pub open spec fn watched_along(s: DispatcherState, events: Seq<DispatcherEvent>) -> nat
    decreases events.len(),
{
    if events.len() == 0 {
        0
    } else {
        (if step_watch(s, &events[0]) is Some {
            1nat
        } else {
            0nat
        }) + watched_along(spec_next(s, &events[0]), events.skip(1))
    }
}

/// How many events of a trace are submissions whose spawn attempt failed.
pub open spec fn failed_submissions(events: Seq<DispatcherEvent>) -> nat
    decreases events.len(),
{
    if events.len() == 0 {
        0
    } else {
        (if events[0] matches DispatcherEvent::Submitted(Err(_)) {
            1nat
        } else {
            0nat
        }) + failed_submissions(events.skip(1))
    }
}

/// How many events of a trace are submissions whose spawn succeeded.
pub open spec fn spawned_submissions(events: Seq<DispatcherEvent>) -> nat
    decreases events.len(),
{
    if events.len() == 0 {
        0
    } else {
        (if events[0] matches DispatcherEvent::Submitted(Ok(_)) {
            1nat
        } else {
            0nat
        }) + spawned_submissions(events.skip(1))
    }
}

/// Law: a newer submission preempts whatever was active. From any live state,
/// a successfully spawned submission leaves exactly the new process active,
/// orders the previously active process's guard resolved for termination,
/// starts exactly one watcher for the new process, and publishes nothing. In
/// particular the dispatcher is ready for the next submission whatever became
/// of the previous command.
pub proof fn lemma_preemption(s: DispatcherState, pid: u32)
    requires
        s != DispatcherState::Stopped,
    ensures
        ({
            let e = DispatcherEvent::Submitted(Ok(pid));
            &&& spec_next(s, &e) == DispatcherState::Running(pid)
            &&& step_kill(s, &e) == active_handle(s)
            &&& step_watch(s, &e) == Some(pid)
            &&& !step_publishes(s, &e)
        }),
{
}

/// Law: stopping is idempotent. The first stop resolves the guard of
/// whatever was active and makes the state final; any further stop changes
/// nothing, resolves nothing and publishes nothing.
pub proof fn lemma_stop_idempotent(s: DispatcherState)
    ensures
        ({
            let stop = DispatcherEvent::StopRequested;
            let s1 = spec_next(s, &stop);
            &&& s1 == DispatcherState::Stopped
            &&& step_kill(s, &stop) == (if s == DispatcherState::Stopped {
                Option::<u32>::None
            } else {
                active_handle(s)
            })
            &&& spec_next(s1, &stop) == DispatcherState::Stopped
            &&& step_kill(s1, &stop) is None
            &&& !step_publishes(s1, &stop)
        }),
{
}

/// Law: a stopped dispatcher is quiescent: along any trace of further events
/// it stays stopped, publishes no outcome and starts no watcher.
pub proof fn lemma_stopped_is_final(events: Seq<DispatcherEvent>)
    ensures
        run_events(DispatcherState::Stopped, events) == DispatcherState::Stopped,
        published_along(DispatcherState::Stopped, events) == 0,
        watched_along(DispatcherState::Stopped, events) == 0,
    decreases events.len(),
{
    if events.len() > 0 {
        lemma_stopped_is_final(events.skip(1));
    }
}

/// Law: along any trace, the dispatcher itself publishes at most one outcome
/// per submission that reached the spawner and failed there, and starts at
/// most one watcher per submission that was spawned — so no outcome and no
/// watcher ever exists for a request that never reached the spawner. Each
/// watcher in turn reports at most one outcome, and none at all if its
/// process was preempted first.
pub proof fn lemma_trace_outcome_bound(s: DispatcherState, events: Seq<DispatcherEvent>)
    ensures
        published_along(s, events) <= failed_submissions(events),
        watched_along(s, events) <= spawned_submissions(events),
    decreases events.len(),
{
    if events.len() > 0 {
        lemma_trace_outcome_bound(spec_next(s, &events[0]), events.skip(1));
    }
}

} // verus!
