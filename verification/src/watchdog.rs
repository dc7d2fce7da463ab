//! The watchdog's deadline: the namespace is deleted once the deadline passes, and every
//! keep-alive (an HTTP request or SIGUSR1) may push it back, never forward.
//! Points in time are spans since a fixed origin that the caller picks.
use crate::args::WatchArgs;
use crate::time::{span_max, Span};
use vstd::prelude::*;
use vstd::string::StringExecFns;

verus! {

/// The token file of a pod that runs with a service account.
pub const SERVICE_ACCOUNT_TOKEN: &'static str = "/var/run/secrets/kubernetes.io/serviceaccount/token";

/// The warning for a watchdog that seems to run outside a pod.
pub const OUTSIDE_POD_WARNING: &'static str = "WARNING: It seems we're not running in a K8s pod with a service account. If you're running this manually, hit Ctrl-C now!";

/// The watchdog's deadline and the settings by which it moves.
#[derive(Clone, Copy, Debug)]
pub struct Watchdog {
    /// When the namespace is deleted.
    pub deadline: Span,
    /// Push-back of a keep-alive request that names no timeout.
    pub initial_timeout: Span,
    /// Longest push-back of a keep-alive request.
    pub max_timeout: Span,
    /// Push-back of SIGUSR1, where the watchdog listens for it.
    pub sigusr1_timeout: Option<Span>,
}

/// The longest push-back of a keep-alive request under `args`: the maximum timeout, or else
/// the initial timeout.
pub open spec fn spec_max_timeout(args: WatchArgs) -> Span {
    match args.max_timeout {
        Some(m) => m,
        None => args.initial_timeout,
    }
}

/// The push-back of a keep-alive request that asks for `requested`: what it asks for, or
/// else the initial timeout, but no more than the maximum timeout.
pub open spec fn spec_http_advance(w: Watchdog, requested: Option<Span>) -> nat {
    let asked = match requested {
        Some(r) => r@,
        None => w.initial_timeout@,
    };
    if w.max_timeout@ <= asked {
        w.max_timeout@
    } else {
        asked
    }
}

pub open spec fn later(a: nat, b: nat) -> nat {
    if a >= b {
        a
    } else {
        b
    }
}

impl Watchdog {
    /// The watchdog started at `now` with settings `args`: the deadline is the initial
    /// timeout past `now`.
    pub fn start(args: &WatchArgs, now: Span) -> (w: Watchdog)
        requires
            now@ + args.initial_timeout@ <= span_max(),
        ensures
            w.deadline@ == now@ + args.initial_timeout@,
            w.initial_timeout == args.initial_timeout,
            w.max_timeout == spec_max_timeout(*args),
            args.max_timeout matches Some(m) ==> w.max_timeout == m,
            args.max_timeout is None ==> w.max_timeout == args.initial_timeout,
            w.sigusr1_timeout == args.sigusr1_timeout,
    {
        let max_timeout = match args.max_timeout {
            Some(m) => m,
            None => args.initial_timeout,
        };
        Watchdog {
            deadline: now.add(args.initial_timeout),
            initial_timeout: args.initial_timeout,
            max_timeout,
            sigusr1_timeout: args.sigusr1_timeout,
        }
    }

    /// The push-back of a keep-alive request that asks for `requested`.
    pub fn http_advance(&self, requested: Option<Span>) -> (d: Span)
        ensures
            d@ == spec_http_advance(*self, requested),
            d@ <= self.max_timeout@,
            requested matches Some(r) ==> d@ == if r@ <= self.max_timeout@ {
                r@
            } else {
                self.max_timeout@
            },
            requested is None ==> d@ == if self.initial_timeout@ <= self.max_timeout@ {
                self.initial_timeout@
            } else {
                self.max_timeout@
            },
    {
        let asked = match requested {
            Some(r) => r,
            None => self.initial_timeout,
        };
        self.max_timeout.min(asked)
    }

    /// The push-back of SIGUSR1, where the watchdog listens for it.
    pub fn signal_advance(&self) -> (d: Option<Span>)
        ensures
            d == self.sigusr1_timeout,
    {
        self.sigusr1_timeout
    }

    /// Pushes the deadline back to `advance` past `now`, unless it is later already; returns
    /// the time that the keep-alive asked for.
    pub fn push_back(&mut self, now: Span, advance: Span) -> (until: Span)
        requires
            now@ + advance@ <= span_max(),
        ensures
            until@ == now@ + advance@,
            final(self).deadline@ == later(old(self).deadline@, until@),
            final(self).deadline@ >= old(self).deadline@,
            final(self).deadline@ >= until@,
            final(self).deadline@ == old(self).deadline@ || final(self).deadline@ == until@,
            final(self).initial_timeout == old(self).initial_timeout,
            final(self).max_timeout == old(self).max_timeout,
            final(self).sigusr1_timeout == old(self).sigusr1_timeout,
    {
        let until = now.add(advance);
        self.deadline = self.deadline.max(until);
        until
    }

    /// Whether the deadline has come at `now`: only then is the namespace deleted.
    pub fn expired(&self, now: Span) -> (b: bool)
        ensures
            b == (now@ >= self.deadline@),
    {
        self.deadline.le(&now)
    }
}

/// A keep-alive never brings the deadline forward, and an HTTP keep-alive at `now` leaves
/// it no later than the maximum timeout past `now`, or where it was.
pub proof fn lemma_keep_alive_bounds(before: nat, now: nat, advance: nat, max_timeout: nat)
    requires
        advance <= max_timeout,
    ensures
        later(before, now + advance) >= before,
        later(before, now + advance) >= now + advance,
        later(before, now + advance) <= later(before, now + max_timeout),
{
}

/// The deadline after keep-alives that asked for the times `untils`, in turn, from the
/// deadline `first`.
pub open spec fn spec_deadline_after(first: nat, untils: Seq<nat>) -> nat
    decreases untils.len(),
{
    if untils.len() == 0 {
        first
    } else {
        later(spec_deadline_after(first, untils.drop_last()), untils.last())
    }
}

/// Whatever keep-alives came, the deadline is the latest of the first deadline and the times
/// that they asked for: the namespace lives at least as long as any keep-alive asked.
pub proof fn lemma_deadline_is_latest_asked(first: nat, untils: Seq<nat>)
    ensures
        spec_deadline_after(first, untils) >= first,
        forall|i: int| 0 <= i < untils.len() ==> spec_deadline_after(first, untils) >= #[trigger] untils[i],
        spec_deadline_after(first, untils) == first || exists|i: int|
            0 <= i < untils.len() && spec_deadline_after(first, untils) == #[trigger] untils[i],
    decreases untils.len(),
{
    if untils.len() > 0 {
        let before = untils.drop_last();
        lemma_deadline_is_latest_asked(first, before);
        assert forall|i: int| 0 <= i < untils.len() implies spec_deadline_after(first, untils) >= #[trigger] untils[i] by {
            if i < untils.len() - 1 {
                assert(untils[i] == before[i]);
            }
        }
        if spec_deadline_after(first, before) != first && spec_deadline_after(first, untils) != untils.last() {
            let j = choose|j: int| 0 <= j < before.len() && spec_deadline_after(first, before) == #[trigger] before[j];
            assert(untils[j] == before[j]);
        }
    }
}

/// The line that a watchdog prints when `bumper` pushes the deadline back, from the texts of
/// the present time and of the time asked for.
pub fn heartbeat_message(now: &str, bumper: &str, until: &str) -> (s: String)
    ensures
        s@ == "["@ + now@ + "] "@ + bumper@ + " bumped to "@ + until@,
{
    "[".to_owned().concat(now).concat("] ").concat(bumper).concat(" bumped to ").concat(until)
}

/// Whether the watchdog runs with a pod's service account, judged by its client's token file.
pub fn runs_with_service_account(token_file: Option<&str>) -> (b: bool)
    ensures
        b == (token_file is Some && token_file->0@ == SERVICE_ACCOUNT_TOKEN@),
{
    match token_file {
        Some(t) => t.to_owned() == SERVICE_ACCOUNT_TOKEN.to_owned(),
        None => false,
    }
}

/// A given maximum timeout is the watchdog's maximum timeout as given, whatever the initial
/// timeout; without one, the maximum is the initial timeout.
pub proof fn lemma_max_timeout_as_given(args: WatchArgs, m: Span)
    ensures
        args.max_timeout == Some(m) ==> spec_max_timeout(args) == m,
        args.max_timeout is None ==> spec_max_timeout(args) == args.initial_timeout,
{
}

/// A keep-alive that names a timeout pushes the deadline back by that timeout, capped at the
/// maximum timeout, whatever the initial timeout; one that names none pushes it back by the
/// initial timeout, capped alike.
pub proof fn lemma_http_advance_is_asked_capped(w: Watchdog, r: Span)
    ensures
        r@ <= w.max_timeout@ ==> spec_http_advance(w, Some(r)) == r@,
        r@ > w.max_timeout@ ==> spec_http_advance(w, Some(r)) == w.max_timeout@,
        w.initial_timeout@ <= w.max_timeout@ ==> spec_http_advance(w, None) == w.initial_timeout@,
        w.initial_timeout@ > w.max_timeout@ ==> spec_http_advance(w, None) == w.max_timeout@,
{
}

/// A keep-alive leaves the deadline at the later of where it was and what it asked for.
pub proof fn lemma_push_back_keeps_the_later(before: nat, until: nat)
    ensures
        later(before, until) >= before,
        later(before, until) >= until,
        later(before, until) == before || later(before, until) == until,
{
}

} // verus!
