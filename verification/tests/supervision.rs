use namespace_watchdog::owner::{
    namespace_request, pod_label_selector, pod_wait_timeout, select_watchdog_pod, CreateNamespace,
    KeepAliveError, KeepAliveSession, NamespaceRequest, PodLookupError, Supervisor, Verdict,
    KEEP_ALIVE_URI, MAX_FAILURES,
};
use namespace_watchdog::time::Span;

#[test]
fn selector_finds_the_watchdog_pod() {
    assert_eq!(pod_label_selector(), "name=namespace-watchdog");
    assert_eq!(KEEP_ALIVE_URI, "/?timeout=90sec");
}

#[test]
fn pod_wait_is_at_least_ninety_seconds() {
    assert_eq!(pod_wait_timeout(Span::from_secs(60)), Span::from_secs(90));
    assert_eq!(pod_wait_timeout(Span::from_secs(120)), Span::from_secs(120));
    assert_eq!(pod_wait_timeout(Span::new(90, 1)), Span::new(90, 1));
}

#[test]
fn select_pod_cases() {
    let one = vec![Some("wd-1".to_string())];
    assert_eq!(select_watchdog_pod(None, &one), Ok("wd-1".to_string()));
    assert_eq!(select_watchdog_pod(Some(0), &one), Ok("wd-1".to_string()));
    assert_eq!(select_watchdog_pod(Some(1), &one), Err(PodLookupError::MoreThanOnePod));
    assert_eq!(select_watchdog_pod(Some(-1), &vec![]), Err(PodLookupError::MoreThanOnePod));
    assert_eq!(select_watchdog_pod(None, &vec![]), Err(PodLookupError::PodNotFound));
    assert_eq!(PodLookupError::MoreThanOnePod.message(), "More than one possible pod");
    assert_eq!(PodLookupError::PodNotFound.message(), "Watchdog pod not found");
}

#[test]
fn keep_alive_session_records_success() {
    let mut s = KeepAliveSession::new();
    assert!(!s.succeeded_once);
    assert_eq!(s.record_response(500), Err(KeepAliveError::UnexpectedStatus(500)));
    assert!(!s.succeeded_once);
    assert_eq!(s.record_response(200), Ok(()));
    assert!(s.succeeded_once);
    assert_eq!(s.record_response(404), Err(KeepAliveError::UnexpectedStatus(404)));
    assert!(s.succeeded_once);
}

fn retry<E>(v: Verdict<E>) -> Supervisor<E> {
    match v {
        Verdict::Retry(s) => s,
        Verdict::GiveUp(_) => panic!("gave up too early"),
    }
}

#[test]
fn supervisor_gives_up_after_three_failures_with_first_error() {
    assert_eq!(MAX_FAILURES, 3);
    let s = Supervisor::new();
    let s = retry(s.record_session(false, "first"));
    let s = retry(s.record_session(false, "second"));
    match s.record_session(false, "third") {
        Verdict::GiveUp(e) => assert_eq!(e, "first"),
        Verdict::Retry(_) => panic!("should give up"),
    }
}

#[test]
fn supervisor_success_resets_the_count() {
    let s = Supervisor::new();
    let s = retry(s.record_session(false, "a"));
    let s = retry(s.record_session(false, "b"));
    let s = retry(s.record_session(true, "c"));
    let s = retry(s.record_session(false, "d"));
    let s = retry(s.record_session(false, "e"));
    match s.record_session(false, "f") {
        Verdict::GiveUp(e) => assert_eq!(e, "d"),
        Verdict::Retry(_) => panic!("should give up"),
    }
}

#[test]
fn namespace_request_follows_choice() {
    assert!(matches!(namespace_request(CreateNamespace::Never, "ns"), NamespaceRequest::Skip));
    match namespace_request(CreateNamespace::Auto, "ns") {
        NamespaceRequest::Apply(n) => assert_eq!(n.metadata.name.as_deref(), Some("ns")),
        _ => panic!("auto applies"),
    }
    match namespace_request(CreateNamespace::Always, "ns") {
        NamespaceRequest::Create(n) => assert_eq!(n.metadata.name.as_deref(), Some("ns")),
        _ => panic!("always creates"),
    }
}
