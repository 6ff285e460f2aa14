use lunatic_distributed::process::{Finished, Polled, Signal, Supervisor, Verdict};

#[test]
fn kill_at_the_first_tick_stops_before_the_computation_is_polled() {
    let mut supervisor = Supervisor::new();
    assert!(supervisor.wants_signal());
    let verdict = supervisor.on_signal(Polled::Ready(Some(Signal::Kill)));
    assert_eq!(verdict, Verdict::Stop(Signal::Kill));
}

#[test]
fn pending_signal_lets_the_computation_run() {
    let mut supervisor = Supervisor::new();
    assert_eq!(supervisor.on_signal(Polled::Pending), Verdict::Run);
    assert!(supervisor.wants_signal());
    assert_eq!(supervisor.on_computation(Polled::<u8>::Pending), None);
    assert_eq!(supervisor.on_signal(Polled::Pending), Verdict::Run);
    assert_eq!(
        supervisor.on_computation(Polled::Ready(7u8)),
        Some(Finished::Wasm(7u8))
    );
}

#[test]
fn closed_channel_ends_the_listening_and_the_computation_runs_on() {
    let mut supervisor = Supervisor::new();
    assert_eq!(supervisor.on_signal(Polled::Ready(None)), Verdict::Run);
    assert!(!supervisor.wants_signal());
    assert_eq!(supervisor.on_computation(Polled::<u8>::Pending), None);
    assert!(!supervisor.wants_signal());
    assert_eq!(supervisor.on_signal(Polled::Ready(Some(Signal::Kill))), Verdict::Run);
    assert_eq!(supervisor.on_signal(Polled::Pending), Verdict::Run);
    assert!(!supervisor.wants_signal());
    assert_eq!(
        supervisor.on_computation(Polled::Ready(1u8)),
        Some(Finished::Wasm(1u8))
    );
}

#[test]
fn trap_is_there_only_for_a_failed_computation() {
    let trapped: Finished<Result<u8, String>> = Finished::Wasm(Err("unreachable".to_string()));
    let returned: Finished<Result<u8, String>> = Finished::Wasm(Ok(3));
    let killed: Finished<Result<u8, String>> = Finished::Signal(Signal::Kill);
    assert_eq!(trapped.trap(), Some(&"unreachable".to_string()));
    assert_eq!(returned.trap(), None);
    assert_eq!(killed.trap(), None);
}
