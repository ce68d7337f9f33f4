//! The server lifecycle as a state machine: bind the listening socket, serve,
//! drain in-flight requests once the first termination signal arrives, then
//! stop. The caller performs the outside work (binding, accepting, waiting
//! for signals) and reports each outcome as an event.

use vstd::prelude::*;

verus! {

/// The two termination signal sources: the interactive interrupt, and the
/// platform terminate signal where the platform delivers one.
#[derive(Clone, Copy, PartialEq, Eq, Structural, Debug)]
pub enum Signal {
    Interrupt,
    Terminate,
}

/// The phases of the server process: binding the listening socket, serving
/// requests, draining in-flight requests after a termination signal, stopped
/// after a graceful shutdown, or failed at startup.
#[derive(Clone, Copy, PartialEq, Eq, Structural, Debug)]
pub enum Phase {
    Binding,
    Serving,
    Draining,
    Stopped,
    Failed,
}

/// What the outside world reports to the lifecycle: the bind finished or
/// could not, a termination signal arrived, or the last in-flight request
/// finished after draining began.
#[derive(Clone, Copy, PartialEq, Eq, Structural, Debug)]
pub enum Event {
    BindSucceeded,
    BindFailed,
    SignalArrived(Signal),
    Drained,
}

/// The next phase after `e` happens in phase `p`. A signal during serving
/// begins the drain; any event that means nothing in the current phase leaves
/// it unchanged, so signals after the first are ignored.
pub open spec fn spec_step(p: Phase, e: Event) -> Phase {
    match (p, e) {
        (Phase::Binding, Event::BindSucceeded) => Phase::Serving,
        (Phase::Binding, Event::BindFailed) => Phase::Failed,
        (Phase::Serving, Event::SignalArrived(_)) => Phase::Draining,
        (Phase::Draining, Event::Drained) => Phase::Stopped,
        _ => p,
    }
}

/// Advance the lifecycle by one event.
pub fn step(p: Phase, e: Event) -> (r: Phase)
    ensures
        r == spec_step(p, e),
{
    match (p, e) {
        (Phase::Binding, Event::BindSucceeded) => Phase::Serving,
        (Phase::Binding, Event::BindFailed) => Phase::Failed,
        (Phase::Serving, Event::SignalArrived(_)) => Phase::Draining,
        (Phase::Draining, Event::Drained) => Phase::Stopped,
        _ => p,
    }
}

/// Whether new connections are accepted: only while serving, never once a
/// termination signal has been seen.
pub open spec fn spec_accepting(p: Phase) -> bool {
    p == Phase::Serving
}

/// Whether the process accepts new connections in phase `p`.
pub fn accepting(p: Phase) -> (r: bool)
    ensures
        r == spec_accepting(p),
{
    p == Phase::Serving
}

/// The exit code a terminal phase calls for: 0 after a graceful shutdown,
/// 1 after a startup failure, none while the server still runs.
pub open spec fn spec_exit_code(p: Phase) -> Option<u8> {
    match p {
        Phase::Stopped => Some(0u8),
        Phase::Failed => Some(1u8),
        _ => None,
    }
}

/// The exit code for phase `p`, if that phase ends the process.
pub fn exit_code(p: Phase) -> (r: Option<u8>)
    ensures
        r == spec_exit_code(p),
{
    match p {
        Phase::Stopped => Some(0),
        Phase::Failed => Some(1),
        _ => None,
    }
}

/// The first termination signal wins: whichever of the two sources fires
/// first moves a serving process into the draining phase, never straight to
/// the stopped phase, so requests in flight at that moment may finish.
pub proof fn lemma_signal_starts_drain(s: Signal)
    ensures
        spec_step(Phase::Serving, Event::SignalArrived(s)) == Phase::Draining,
        spec_step(Phase::Serving, Event::SignalArrived(s)) != Phase::Stopped,
{
}

/// No signal after the first is processed: once draining, a further
/// termination signal from either source leaves the lifecycle unchanged.
/// Only the last in-flight request finishing stops the process.
pub proof fn lemma_later_signals_ignored(s: Signal)
    ensures
        spec_step(Phase::Draining, Event::SignalArrived(s)) == Phase::Draining,
{
}

/// A stopped or failed process stays so: no further event moves it.
pub proof fn lemma_terminal_phase_stays(p: Phase, e: Event)
    requires
        p == Phase::Stopped || p == Phase::Failed,
    ensures
        spec_step(p, e) == p,
{
}

/// The fixed address the listening socket is bound to.
pub fn bind_address() -> (r: String)
    ensures
        r@ == "0.0.0.0:3000"@,
{
    "0.0.0.0:3000".to_owned()
}

/// The line printed once the socket is bound and the server accepts requests.
pub fn ready_message() -> (r: String)
    ensures
        r@ == "Listening on 0.0.0.0:3000"@,
{
    "Listening on 0.0.0.0:3000".to_owned()
}

/// The line printed after a graceful shutdown has finished.
pub fn shutdown_message() -> (r: String)
    ensures
        r@ == "Shutting down..."@,
{
    "Shutting down...".to_owned()
}

} // verus!
