use fswatch::error::{Error, IoError};
use fswatch::supervisor::{AsyncWatcher, Grace, Teardown, CHANNEL_CAPACITY, GRACE_MILLIS};

#[test]
fn grace_window_and_channel_have_their_sizes() {
    assert_eq!(GRACE_MILLIS, 150);
    assert_eq!(CHANNEL_CAPACITY, 256);
}

#[test]
fn helper_that_exits_in_the_grace_window_is_an_early_exit() {
    for code in [Some(0), Some(1), Some(-1), Some(127), None] {
        let r = AsyncWatcher::spawn::<String>(Grace::Exited(code));
        assert_eq!(r.err(), Some(Error::EarlyExit(code)));
    }
}

#[test]
fn wait_that_fails_is_an_io_error() {
    let r = AsyncWatcher::spawn(Grace::Failed("no child".to_string()));
    assert_eq!(r.err(), Some(Error::Io(IoError::Other("no child".to_string()))));
}

#[test]
fn helper_that_exits_right_after_the_window_is_a_failed_launch() {
    let r = AsyncWatcher::spawn::<String>(Grace::Elapsed { exited_since: true });
    assert_eq!(r.err(), Some(Error::LaunchFailed));
}

#[test]
fn helper_that_runs_is_handed_out() {
    let watcher = AsyncWatcher::spawn::<String>(Grace::Elapsed { exited_since: false }).unwrap();
    assert!(!watcher.is_stopped());
}

#[test]
fn stop_signals_and_reaps_once() {
    let mut watcher =
        AsyncWatcher::spawn::<String>(Grace::Elapsed { exited_since: false }).unwrap();
    assert_eq!(watcher.stop(), Teardown::SignalAndReap);
    assert!(watcher.is_stopped());
    assert_eq!(watcher.stop(), Teardown::Nothing);
    assert_eq!(watcher.release(), Teardown::Nothing);
    assert!(watcher.is_stopped());
}

#[test]
fn release_signals_a_helper_that_was_never_stopped() {
    let mut watcher =
        AsyncWatcher::spawn::<String>(Grace::Elapsed { exited_since: false }).unwrap();
    assert_eq!(watcher.release(), Teardown::Signal);
    assert!(watcher.is_stopped());
    assert_eq!(watcher.release(), Teardown::Nothing);
    assert_eq!(watcher.stop(), Teardown::Nothing);
}
