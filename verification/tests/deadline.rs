use namespace_watchdog::args::WatchArgs;
use namespace_watchdog::time::Span;
use namespace_watchdog::watchdog::{heartbeat_message, runs_with_service_account, Watchdog};

fn secs(s: u64) -> Span {
    Span::from_secs(s)
}

fn settings(initial: u64, max: Option<u64>, sigusr1: Option<u64>) -> WatchArgs {
    WatchArgs { initial_timeout: secs(initial), max_timeout: max.map(secs), sigusr1_timeout: sigusr1.map(secs), listen: None }
}

#[test]
fn span_arithmetic() {
    let a = Span::new(1, 1_500_000_000);
    assert_eq!(a.as_secs(), 2);
    assert_eq!(a.subsec_nanos(), 500_000_000);
    assert_eq!(a.add(Span::new(0, 600_000_000)), Span::new(3, 100_000_000));
    assert_eq!(secs(u64::MAX).checked_add(Span::new(0, 999_999_999)), Some(Span::new(u64::MAX, 999_999_999)));
    assert_eq!(secs(u64::MAX).checked_add(Span::new(1, 0)), None);
    assert_eq!(Span::new(u64::MAX, 999_999_999).checked_add(Span::new(0, 1)), None);
    assert!(secs(1).le(&Span::new(1, 0)));
    assert!(!Span::new(1, 1).le(&secs(1)));
    assert_eq!(secs(3).max(secs(5)), secs(5));
    assert_eq!(secs(3).min(secs(5)), secs(3));
}

#[test]
fn deadline_starts_at_initial_timeout() {
    let w = Watchdog::start(&settings(60, None, None), secs(100));
    assert_eq!(w.deadline, secs(160));
    assert_eq!(w.max_timeout, secs(60));
    assert!(!w.expired(secs(159)));
    assert!(w.expired(secs(160)));
    assert!(w.expired(secs(200)));
}

#[test]
fn http_advance_is_clamped_to_max_timeout() {
    let w = Watchdog::start(&settings(60, Some(300), None), secs(0));
    assert_eq!(w.http_advance(None), secs(60));
    assert_eq!(w.http_advance(Some(secs(90))), secs(90));
    assert_eq!(w.http_advance(Some(secs(1000))), secs(300));
    let unbounded = Watchdog::start(&settings(60, None, None), secs(0));
    assert_eq!(unbounded.http_advance(Some(secs(90))), secs(60));
}

#[test]
fn push_back_never_brings_deadline_forward() {
    let mut w = Watchdog::start(&settings(60, Some(300), Some(30)), secs(0));
    assert_eq!(w.signal_advance(), Some(secs(30)));
    let until = w.push_back(secs(10), secs(30));
    assert_eq!(until, secs(40));
    assert_eq!(w.deadline, secs(60));
    let until = w.push_back(secs(50), secs(90));
    assert_eq!(until, secs(140));
    assert_eq!(w.deadline, secs(140));
    w.push_back(secs(60), secs(5));
    assert_eq!(w.deadline, secs(140));
    assert_eq!(Watchdog::start(&settings(1, None, None), secs(0)).signal_advance(), None);
}

#[test]
fn heartbeat_line() {
    assert_eq!(
        heartbeat_message("2024-01-01 10:00:00", "HTTP", "2024-01-01 10:01:30"),
        "[2024-01-01 10:00:00] HTTP bumped to 2024-01-01 10:01:30"
    );
}

#[test]
fn service_account_token_check() {
    assert!(runs_with_service_account(Some("/var/run/secrets/kubernetes.io/serviceaccount/token")));
    assert!(!runs_with_service_account(Some("/home/me/.kube/token")));
    assert!(!runs_with_service_account(None));
}
