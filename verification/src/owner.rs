//! Decisions of the process that installs the watchdog and keeps it alive: which pod it
//! talks to, when a keep-alive session counts as a success, and when it gives up.
use crate::objects::Namespace;
use crate::resources::{namespace, spec_namespace, spec_pod_labels, CN};
use crate::time::Span;
use vstd::prelude::*;
use vstd::string::StringExecFns;

verus! {

/// Consecutive failed keep-alive sessions after which the installing process gives up.
pub const MAX_FAILURES: u32 = 3;

/// Pause between keep-alive requests, and between keep-alive sessions, in seconds.
pub const KEEP_ALIVE_PERIOD_SECS: u64 = 10;

/// Time that the installing process waits for the watchdog pod to run, in seconds.
pub const POD_READY_TIMEOUT_SECS: u64 = 90;

/// Target of a keep-alive request: it pushes the deadline 90 seconds past the present.
pub const KEEP_ALIVE_URI: &'static str = "/?timeout=90sec";

/// Status of a keep-alive request that the watchdog accepted.
pub const STATUS_OK: u16 = 200;

/// The label selector that finds the watchdog's pod.
pub fn pod_label_selector() -> (s: String)
    ensures
        s@ == "name="@ + CN@,
{
    "name=".to_owned().concat(CN)
}

/// How long the deploying command waits for the watchdog pod to run: the watchdog's initial
/// timeout, but at least 90 seconds.
pub fn pod_wait_timeout(initial_timeout: Span) -> (d: Span)
    ensures
        d@ == if initial_timeout@ >= POD_READY_TIMEOUT_SECS * 1_000_000_000 {
            initial_timeout@ as int
        } else {
            POD_READY_TIMEOUT_SECS * 1_000_000_000
        },
{
    initial_timeout.max(Span::from_secs(POD_READY_TIMEOUT_SECS))
}

/// Why no single watchdog pod was found.
#[derive(Clone, Copy, Debug, PartialEq, Eq, Structural)]
pub enum PodLookupError {
    MoreThanOnePod,
    PodNotFound,
}

impl PodLookupError {
    /// The text of the error.
    pub fn message(&self) -> (s: String)
        ensures
            s@ == match self {
                PodLookupError::MoreThanOnePod => "More than one possible pod"@,
                PodLookupError::PodNotFound => "Watchdog pod not found"@,
            },
    {
        match self {
            PodLookupError::MoreThanOnePod => "More than one possible pod".to_owned(),
            PodLookupError::PodNotFound => "Watchdog pod not found".to_owned(),
        }
    }
}

/// Whether a listing limited to one pod left no other pod out.
pub open spec fn listing_complete(remaining_item_count: Option<i64>) -> bool {
    match remaining_item_count {
        Some(n) => n == 0,
        None => true,
    }
}

/// The name of the watchdog pod, from a listing limited to one pod: the listing's
/// `remaining_item_count` and the names of the pods listed. A listed pod has a name.
pub fn select_watchdog_pod(
    remaining_item_count: Option<i64>,
    pod_names: &Vec<Option<String>>,
) -> (r: Result<String, PodLookupError>)
    requires
        listing_complete(remaining_item_count) && pod_names.len() > 0 ==> pod_names[0] is Some,
    ensures
        !listing_complete(remaining_item_count) ==> r == Err::<String, PodLookupError>(
            PodLookupError::MoreThanOnePod,
        ),
        listing_complete(remaining_item_count) && pod_names.len() == 0 ==> r == Err::<
            String,
            PodLookupError,
        >(PodLookupError::PodNotFound),
        listing_complete(remaining_item_count) && pod_names.len() > 0 ==> r is Ok && r->Ok_0@
            == pod_names[0]->0@,
{
    let complete = match remaining_item_count {
        Some(n) => n == 0,
        None => true,
    };
    if !complete {
        return Err(PodLookupError::MoreThanOnePod);
    }
    if pod_names.len() == 0 {
        return Err(PodLookupError::PodNotFound);
    }
    match &pod_names[0] {
        Some(name) => Ok(name.clone()),
        None => Err(PodLookupError::PodNotFound),
    }
}

/// A keep-alive request that the watchdog refused.
#[derive(Clone, Copy, Debug, PartialEq, Eq, Structural)]
pub enum KeepAliveError {
    UnexpectedStatus(u16),
}

/// A run of keep-alive requests to one watchdog pod.
pub struct KeepAliveSession {
    /// Whether any request of the session was accepted.
    pub succeeded_once: bool,
}

impl KeepAliveSession {
    pub fn new() -> (s: KeepAliveSession)
        ensures
            !s.succeeded_once,
    {
        KeepAliveSession { succeeded_once: false }
    }

    /// Records the status of a keep-alive response: the session goes on after `STATUS_OK`
    /// and ends with an error after any other status.
    pub fn record_response(&mut self, status: u16) -> (r: Result<(), KeepAliveError>)
        ensures
            status == STATUS_OK ==> r is Ok && final(self).succeeded_once,
            status != STATUS_OK ==> r == Err::<(), KeepAliveError>(
                KeepAliveError::UnexpectedStatus(status),
            ) && final(self).succeeded_once == old(self).succeeded_once,
    {
        if status != STATUS_OK {
            return Err(KeepAliveError::UnexpectedStatus(status));
        }
        self.succeeded_once = true;
        Ok(())
    }
}

/// The supervision state after a keep-alive session: the count of consecutive failed
/// sessions and the error of the first of them. A session that succeeded once resets both.
pub open spec fn spec_after_session<E>(
    failures: nat,
    first_error: Option<E>,
    succeeded_once: bool,
    error: E,
) -> (nat, Option<E>) {
    if succeeded_once {
        (0, None)
    } else {
        (failures + 1, if first_error is Some { first_error } else { Some(error) })
    }
}

/// The supervision of keep-alive sessions, holding the error that it would give up with.
pub struct Supervisor<E> {
    failures: u32,
    first_error: Option<E>,
}

/// What follows a keep-alive session: another session, or giving up with an error.
pub enum Verdict<E> {
    Retry(Supervisor<E>),
    GiveUp(E),
}

impl<E> Supervisor<E> {
    #[verifier::type_invariant]
    spec fn counts_pending_failures(self) -> bool {
        &&& self.failures < MAX_FAILURES
        &&& (self.failures == 0 <==> self.first_error is None)
    }

    /// Count of consecutive failed sessions.
    pub closed spec fn failures(self) -> nat {
        self.failures as nat
    }

    /// Error of the first of the consecutive failed sessions.
    pub closed spec fn first_error(self) -> Option<E> {
        self.first_error
    }

    /// Supervision before any session.
    pub fn new() -> (s: Supervisor<E>)
        ensures
            s.failures() == 0,
            s.first_error() is None,
    {
        Supervisor { failures: 0, first_error: None }
    }

    /// Records a keep-alive session that ended with `error`, having succeeded at least once
    /// if `succeeded_once`. After `MAX_FAILURES` consecutive failed sessions it gives up, with
    /// the error of the first of them.
    pub fn record_session(self, succeeded_once: bool, error: E) -> (v: Verdict<E>)
        ensures
            ({
                let next = spec_after_session(
                    self.failures(),
                    self.first_error(),
                    succeeded_once,
                    error,
                );
                if next.0 >= MAX_FAILURES {
                    v == Verdict::GiveUp(next.1->0)
                } else {
                    &&& v is Retry
                    &&& v->Retry_0.failures() == next.0
                    &&& v->Retry_0.first_error() == next.1
                }
            }),
    {
        proof {
            use_type_invariant(&self);
        }
        if succeeded_once {
            return Verdict::Retry(Supervisor { failures: 0, first_error: None });
        }
        let failures = self.failures + 1;
        let first_error = match self.first_error {
            Some(e) => e,
            None => error,
        };
        if failures >= MAX_FAILURES {
            Verdict::GiveUp(first_error)
        } else {
            Verdict::Retry(Supervisor { failures, first_error: Some(first_error) })
        }
    }
}

/// The supervision state after the sessions `outcomes` (each: whether it succeeded once,
/// and its error), from the start.
pub open spec fn spec_supervise<E>(outcomes: Seq<(bool, E)>) -> (nat, Option<E>)
    decreases outcomes.len(),
{
    if outcomes.len() == 0 {
        (0, None)
    } else {
        let before = spec_supervise(outcomes.drop_last());
        spec_after_session(before.0, before.1, outcomes.last().0, outcomes.last().1)
    }
}

/// The count of failed sessions at the end of `outcomes`.
pub open spec fn trailing_failures<E>(outcomes: Seq<(bool, E)>) -> nat
    decreases outcomes.len(),
{
    if outcomes.len() == 0 || outcomes.last().0 {
        0
    } else {
        1 + trailing_failures(outcomes.drop_last())
    }
}

/// After any sessions, the supervision counts the failed sessions since the last session that
/// succeeded once, and holds the error of the first of them: so it gives up exactly when
/// `MAX_FAILURES` sessions in a row have failed, with the error of the first of those.
pub proof fn lemma_supervision_counts_failures_in_a_row<E>(outcomes: Seq<(bool, E)>)
    ensures
        trailing_failures(outcomes) <= outcomes.len(),
        spec_supervise(outcomes).0 == trailing_failures(outcomes),
        trailing_failures(outcomes) == 0 ==> spec_supervise(outcomes).1 is None,
        trailing_failures(outcomes) > 0 ==> spec_supervise(outcomes).1 == Some(
            outcomes[outcomes.len() - trailing_failures(outcomes)].1,
        ),
    decreases outcomes.len(),
{
    if outcomes.len() > 0 {
        let before = outcomes.drop_last();
        lemma_supervision_counts_failures_in_a_row(before);
        if !outcomes.last().0 && trailing_failures(before) > 0 {
            assert(outcomes[outcomes.len() - trailing_failures(outcomes)] == before[before.len()
                - trailing_failures(before)]);
        }
    }
}

/// Whether the deploying command creates the namespace: never, by applying it (so that an
/// existing namespace is kept), or always (failing where it exists).
#[derive(Clone, Copy, Debug, PartialEq, Eq, Structural)]
pub enum CreateNamespace {
    Never,
    Auto,
    Always,
}

/// The request that the deploying command makes for the namespace.
pub enum NamespaceRequest {
    Skip,
    Apply(Namespace),
    Create(Namespace),
}

/// The request that the deploying command makes for namespace `name`.
pub fn namespace_request(create: CreateNamespace, name: &str) -> (r: NamespaceRequest)
    ensures
        match create {
            CreateNamespace::Never => r is Skip,
            CreateNamespace::Auto => r is Apply && r->Apply_0@ == spec_namespace(name@),
            CreateNamespace::Always => r is Create && r->Create_0@ == spec_namespace(name@),
        },
{
    let nsr = namespace(name);
    match create {
        CreateNamespace::Never => NamespaceRequest::Skip,
        CreateNamespace::Auto => NamespaceRequest::Apply(nsr),
        CreateNamespace::Always => NamespaceRequest::Create(nsr),
    }
}

/// The selector with which the installing process looks for the watchdog's pod is the sole
/// label that the deployment puts on its pods, written `key=value`.
pub proof fn lemma_selector_names_pod_label()
    ensures
        spec_pod_labels().len() == 1,
        "name="@ + CN@ == spec_pod_labels()[0].0 + "="@ + spec_pod_labels()[0].1,
{
    reveal_strlit("name=");
    reveal_strlit("name");
    reveal_strlit("=");
    assert("name="@ =~= "name"@ + "="@);
}

} // verus!
