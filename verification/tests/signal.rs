use refresh_cli::execute::Executer;
use refresh_cli::execute::SignalStep;
use signal_hook::consts::SIGINT;
use signal_hook::consts::SIGTERM;
use signal_hook::low_level::raise;

#[test]
fn stop_signals_raise_the_flag() {
    let interrupted = Executer::new();
    assert_eq!(interrupted.check_signal(), SignalStep::Continue);
    raise(SIGINT).unwrap();
    assert_eq!(
        interrupted.check_signal(),
        SignalStep::Terminate { exit_code: 130 }
    );

    let terminated = Executer::new();
    assert_eq!(terminated.check_signal(), SignalStep::Continue);
    raise(SIGTERM).unwrap();
    assert_eq!(
        terminated.check_signal(),
        SignalStep::Terminate { exit_code: 130 }
    );
    assert_eq!(
        interrupted.check_signal(),
        SignalStep::Terminate { exit_code: 130 }
    );
}
