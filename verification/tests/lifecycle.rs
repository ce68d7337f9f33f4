use static_responder::lifecycle::{
    accepting, bind_address, exit_code, ready_message, shutdown_message, step, Event, Phase,
    Signal,
};

#[test]
fn startup_transitions() {
    assert_eq!(step(Phase::Binding, Event::BindSucceeded), Phase::Serving);
    assert_eq!(step(Phase::Binding, Event::BindFailed), Phase::Failed);
}

#[test]
fn first_signal_starts_drain() {
    assert_eq!(
        step(Phase::Serving, Event::SignalArrived(Signal::Interrupt)),
        Phase::Draining
    );
    assert_eq!(
        step(Phase::Serving, Event::SignalArrived(Signal::Terminate)),
        Phase::Draining
    );
}

#[test]
fn later_signals_ignored() {
    let draining = step(Phase::Serving, Event::SignalArrived(Signal::Interrupt));
    assert_eq!(step(draining, Event::SignalArrived(Signal::Terminate)), Phase::Draining);
    assert_eq!(step(draining, Event::SignalArrived(Signal::Interrupt)), Phase::Draining);
}

#[test]
fn in_flight_requests_finish_before_exit() {
    // a signal never stops the process at once: it drains first, and only the
    // last in-flight request finishing stops it
    let after_signal = step(Phase::Serving, Event::SignalArrived(Signal::Terminate));
    assert_ne!(after_signal, Phase::Stopped);
    assert_eq!(step(after_signal, Event::Drained), Phase::Stopped);
}

#[test]
fn accepting_only_while_serving() {
    assert!(!accepting(Phase::Binding));
    assert!(accepting(Phase::Serving));
    assert!(!accepting(Phase::Draining));
    assert!(!accepting(Phase::Stopped));
    assert!(!accepting(Phase::Failed));
}

#[test]
fn exit_codes() {
    assert_eq!(exit_code(Phase::Stopped), Some(0));
    assert_eq!(exit_code(Phase::Failed), Some(1));
    assert_eq!(exit_code(Phase::Serving), None);
    assert_eq!(exit_code(Phase::Draining), None);
    assert_eq!(exit_code(Phase::Binding), None);
}

#[test]
fn terminal_phases_stay() {
    for e in [
        Event::BindSucceeded,
        Event::BindFailed,
        Event::SignalArrived(Signal::Interrupt),
        Event::Drained,
    ] {
        assert_eq!(step(Phase::Stopped, e), Phase::Stopped);
        assert_eq!(step(Phase::Failed, e), Phase::Failed);
    }
}

#[test]
fn fixed_addresses_and_messages() {
    assert_eq!(bind_address(), "0.0.0.0:3000");
    assert_eq!(ready_message(), "Listening on 0.0.0.0:3000");
    assert_eq!(shutdown_message(), "Shutting down...");
}
