//! The process supervisor: guarded state for one backend server process.
//!
//! A `Supervisor` holds the fixed port and at most one child-process
//! handle.  The handle type is a parameter, so the host program may track
//! its own process type while every decision about the handle is made by
//! verified code: `is_running` is the idempotency check of `start`,
//! `record_child` is its single store, and `take_child` is the exclusive
//! take that `stop` and teardown share.  `ReadinessPoll` budgets the
//! health probes that follow a spawn, and `start_result` / `stop_result`
//! turn the outcome of either operation into the message the caller sees.
//!
//! The host must serialize calls on one `Supervisor` (it belongs behind a
//! mutual-exclusion lock held only around these calls, never across
//! spawning or probing); under that serialization the laws at the end of
//! this module describe every interleaving of takes.

use vstd::prelude::*;
use vstd::string::StringExecFns;

use crate::text::{append_dec, dec_rep};

verus! {

/// How many readiness probes a `start` may issue before it times out.
pub const PROBE_ATTEMPTS: u32 = 30;

/// How long the host waits before each readiness probe, in milliseconds.
pub const PROBE_INTERVAL_MS: u64 = 500;

/// The fixed configuration a status query reports: the configured port
/// and its derived base URL.
pub struct ApiInfo {
    pub port: u16,
    pub url: String,
}

/// Guarded supervisor state: the fixed port and at most one tracked
/// child-process handle.
pub struct Supervisor<H> {
    port: u16,
    child: Option<H>,
}

/// The characters of `http://localhost:<port>`.
pub open spec fn url_chars(port: nat) -> Seq<char> {
    "http://localhost:"@ + dec_rep(port)
}

/// The characters of `http://localhost:<port>/health`, the probe target.
pub open spec fn health_url_chars(port: nat) -> Seq<char> {
    url_chars(port) + "/health"@
}

impl<H> Supervisor<H> {
    /// The configured port; fixed for the lifetime of the supervisor.
    pub closed spec fn spec_port(&self) -> u16 {
        self.port
    }

    /// The tracked child handle: `None` means not running, `Some` means
    /// running or assumed running.
    pub closed spec fn tracked_child(&self) -> Option<H> {
        self.child
    }

    /// The state after a `record_child(h)`.
    pub closed spec fn after_record(self, h: H) -> Supervisor<H> {
        Supervisor { port: self.port, child: Some(h) }
    }

    /// The state after a `take_child`, however the subsequent kill went.
    pub closed spec fn after_take(self) -> Supervisor<H> {
        Supervisor { port: self.port, child: None }
    }

    /// A fresh supervisor for `port`, tracking no child.
    pub fn new(port: u16) -> (s: Supervisor<H>)
        ensures
            s.spec_port() == port,
            s.tracked_child() is None,
    {
        Supervisor { port, child: None }
    }

    /// The configured port.
    pub fn port(&self) -> (p: u16)
        ensures
            p == self.spec_port(),
    {
        self.port
    }

    /// The status query: a pure projection of the fixed configuration,
    /// independent of whether a child is tracked.
    pub fn get_api_info(&self) -> (info: ApiInfo)
        ensures
            info.port == self.spec_port(),
            info.url@ == url_chars(self.spec_port() as nat),
    {
        let mut url = String::new();
        url.append("http://localhost:");
        append_dec(&mut url, self.port);
        proof {
            assert(url@ =~= url_chars(self.spec_port() as nat));
        }
        ApiInfo { port: self.port, url }
    }

    /// The URL a readiness probe must target.
    pub fn health_url(&self) -> (url: String)
        ensures
            url@ == health_url_chars(self.spec_port() as nat),
    {
        let mut url = String::new();
        url.append("http://localhost:");
        append_dec(&mut url, self.port);
        url.append("/health");
        proof {
            assert(url@ =~= health_url_chars(self.spec_port() as nat));
        }
        url
    }

    /// The idempotency check of `start`: whether a child is already
    /// tracked.  When it answers `true`, `start` reports success without
    /// spawning a second process.
    pub fn is_running(&self) -> (b: bool)
        ensures
            b == (self.tracked_child() is Some),
    {
        self.child.is_some()
    }

    /// Stores the handle of a freshly spawned child.  The port is
    /// untouched; the handle becomes the single owner-reference to the
    /// new process.
    pub fn record_child(&mut self, h: H)
        ensures
            *final(self) == old(self).after_record(h),
            final(self).spec_port() == old(self).spec_port(),
            final(self).tracked_child() == Some(h),
    {
        self.child = Some(h);
    }

    /// The exclusive take shared by `stop` and teardown: removes and
    /// returns the tracked handle, atomically with the check, so at most
    /// one caller ever receives a handle to kill.
    pub fn take_child(&mut self) -> (taken: Option<H>)
        ensures
            *final(self) == old(self).after_take(),
            final(self).spec_port() == old(self).spec_port(),
            final(self).tracked_child() is None,
            taken == old(self).tracked_child(),
    {
        self.child.take()
    }
}

/// How a `start` ended, as the host observed it: the idempotency check
/// answered "already running", the spawn itself failed, some probe within
/// the budget succeeded, or the whole probe budget was spent in vain.
pub enum StartEvent {
    AlreadyRunning,
    SpawnFailed(String),
    Ready,
    TimedOut,
}

/// How a `stop` (or teardown) ended: nothing was tracked, the kill
/// succeeded, or the kill failed.
pub enum StopEvent {
    NotRunning,
    Killed,
    KillFailed(String),
}

/// The characters of the message `start` returns when a server is
/// already running on `port`.
pub open spec fn already_running_msg(port: nat) -> Seq<char> {
    "API server already running on port "@ + dec_rep(port)
}

/// The characters of the message `start` returns once a probe succeeds.
pub open spec fn started_msg(port: nat) -> Seq<char> {
    "API server started on port "@ + dec_rep(port)
}

/// The characters of the error `start` returns when the spawn failed
/// with the OS error text `e`.
pub open spec fn spawn_failed_msg(e: Seq<char>) -> Seq<char> {
    "Failed to start API server: "@ + e
}

/// The characters of the error `start` returns when every probe in the
/// budget failed.
pub open spec fn timeout_msg() -> Seq<char> {
    "API server failed to start within 15 seconds"@
}

/// The characters of the message `stop` returns after a successful kill.
pub open spec fn stopped_msg() -> Seq<char> {
    "API server stopped"@
}

/// The characters of the message `stop` returns when nothing was
/// tracked.
pub open spec fn not_running_msg() -> Seq<char> {
    "No API server running"@
}

/// The characters of the error `stop` returns when the kill failed with
/// the OS error text `e`.
pub open spec fn kill_failed_msg(e: Seq<char>) -> Seq<char> {
    "Failed to kill: "@ + e
}

/// The result `start` hands its caller for each way it can end: success
/// with a message naming `port` when the server was already running or
/// became ready, and an error for a failed spawn or an exhausted probe
/// budget.  On the timed-out path the recorded handle deliberately stays
/// stored: the process is not killed, and a later `stop` or teardown
/// picks it up.
pub fn start_result(port: u16, ev: StartEvent) -> (r: Result<String, String>)
    ensures
        match ev {
            StartEvent::AlreadyRunning => r matches Ok(m) && m@ == already_running_msg(
                port as nat,
            ),
            StartEvent::SpawnFailed(e) => r matches Err(m) && m@ == spawn_failed_msg(e@),
            StartEvent::Ready => r matches Ok(m) && m@ == started_msg(port as nat),
            StartEvent::TimedOut => r matches Err(m) && m@ == timeout_msg(),
        },
{
    match ev {
        StartEvent::AlreadyRunning => {
            let mut m = String::new();
            m.append("API server already running on port ");
            append_dec(&mut m, port);
            proof {
                assert(m@ =~= already_running_msg(port as nat));
            }
            Ok(m)
        },
        StartEvent::SpawnFailed(e) => {
            let mut m = String::new();
            m.append("Failed to start API server: ");
            m.append(e.as_str());
            proof {
                assert(m@ =~= spawn_failed_msg(e@));
            }
            Err(m)
        },
        StartEvent::Ready => {
            let mut m = String::new();
            m.append("API server started on port ");
            append_dec(&mut m, port);
            proof {
                assert(m@ =~= started_msg(port as nat));
            }
            Ok(m)
        },
        StartEvent::TimedOut => {
            let mut m = String::new();
            m.append("API server failed to start within 15 seconds");
            proof {
                assert(m@ =~= timeout_msg());
            }
            Err(m)
        },
    }
}

/// The result `stop` hands its caller for each way it can end.  Finding
/// nothing to stop is a success, so `stop` is idempotent; only a kill the
/// OS refused is an error.
pub fn stop_result(ev: StopEvent) -> (r: Result<String, String>)
    ensures
        match ev {
            StopEvent::NotRunning => r matches Ok(m) && m@ == not_running_msg(),
            StopEvent::Killed => r matches Ok(m) && m@ == stopped_msg(),
            StopEvent::KillFailed(e) => r matches Err(m) && m@ == kill_failed_msg(e@),
        },
{
    match ev {
        StopEvent::NotRunning => {
            let mut m = String::new();
            m.append("No API server running");
            proof {
                assert(m@ =~= not_running_msg());
            }
            Ok(m)
        },
        StopEvent::Killed => {
            let mut m = String::new();
            m.append("API server stopped");
            proof {
                assert(m@ =~= stopped_msg());
            }
            Ok(m)
        },
        StopEvent::KillFailed(e) => {
            let mut m = String::new();
            m.append("Failed to kill: ");
            m.append(e.as_str());
            proof {
                assert(m@ =~= kill_failed_msg(e@));
            }
            Err(m)
        },
    }
}

/// The probe budget of one `start`: how many readiness probes have been
/// issued, never more than `PROBE_ATTEMPTS`.
pub struct ReadinessPoll {
    attempts: u32,
}

impl ReadinessPoll {
    /// How many probes have been issued and failed so far.
    pub closed spec fn spec_attempts(&self) -> u32 {
        self.attempts
    }

    /// The budget is never overspent.
    pub open spec fn inv(&self) -> bool {
        self.spec_attempts() <= PROBE_ATTEMPTS
    }

    /// A fresh budget: no probe issued yet.
    pub fn new() -> (p: ReadinessPoll)
        ensures
            p.spec_attempts() == 0,
            p.inv(),
    {
        ReadinessPoll { attempts: 0 }
    }

    /// Whether the whole budget has been spent; once it answers `true`,
    /// `start` must end with `StartEvent::TimedOut`.
    pub fn exhausted(&self) -> (b: bool)
        ensures
            b == (self.spec_attempts() == PROBE_ATTEMPTS),
    {
        self.attempts == PROBE_ATTEMPTS
    }

    /// Records one failed probe (connection refused, timeout, non-2xx:
    /// all alike).  The host sleeps `PROBE_INTERVAL_MS` before each
    /// probe, so after `n` failures about `n * 500` ms have elapsed.
    pub fn record_failure(&mut self)
        requires
            old(self).inv(),
            old(self).spec_attempts() < PROBE_ATTEMPTS,
        ensures
            final(self).spec_attempts() == old(self).spec_attempts() + 1,
            final(self).inv(),
    {
        self.attempts = self.attempts + 1;
    }
}

/// The milliseconds of waiting a poll has imposed after `attempts`
/// failed probes.
pub open spec fn elapsed_wait_ms(attempts: nat) -> nat {
    attempts * (PROBE_INTERVAL_MS as nat)
}

/// The results that `n` sequential exclusive takes observe, starting
/// from `s`: what each `take_child` returns when `stop` and teardown
/// callers run one after the other under the host's lock.
pub open spec fn take_results<H>(s: Supervisor<H>, n: nat) -> Seq<Option<H>>
    decreases n,
{
    if n == 0 {
        Seq::empty()
    } else {
        seq![s.tracked_child()] + take_results(s.after_take(), (n - 1) as nat)
    }
}

/// Once a start has recorded its child, the supervisor reports it
/// running: a second `start` passes the idempotency check, returns the
/// already-running success, and spawns nothing.  So two `start` calls in
/// sequence create exactly one process.
pub proof fn lemma_start_idempotent<H>(s: Supervisor<H>, h: H)
    ensures
        s.after_record(h).tracked_child() is Some,
        s.after_record(h).spec_port() == s.spec_port(),
{
}

/// A take leaves nothing tracked, and taking again changes nothing: the
/// second of two `stop` calls finds no child and still succeeds, with
/// the not-running message.
pub proof fn lemma_stop_idempotent<H>(s: Supervisor<H>)
    ensures
        s.after_take().tracked_child() is None,
        s.after_take().after_take() == s.after_take(),
        take_results(s.after_take(), 1) == seq![Option::<H>::None],
{
    assert(take_results(s.after_take().after_take(), 0) =~= Seq::<Option<H>>::empty());
    assert(take_results(s.after_take(), 1) =~= seq![Option::<H>::None]);
}

/// A supervisor that tracks nothing hands every subsequent taker
/// nothing.
pub proof fn lemma_take_none<H>(s: Supervisor<H>, n: nat)
    requires
        s.tracked_child() is None,
    ensures
        take_results(s, n).len() == n,
        forall|i: int| 0 <= i < n ==> take_results(s, n)[i] is None,
    decreases n,
{
    if n > 0 {
        lemma_take_none(s.after_take(), (n - 1) as nat);
        assert forall|i: int| 0 <= i < n implies take_results(s, n)[i] is None by {
            if i > 0 {
                assert(take_results(s, n)[i] == take_results(s.after_take(), (n - 1) as nat)[i - 1]);
            }
        }
    }
}

/// Exclusive take: among any number of `stop`/teardown callers run in
/// sequence against one supervisor, the first take returns whatever was
/// tracked and every later one returns nothing — so when a process is
/// running, exactly one caller receives its handle to kill, and the
/// others see "nothing running".
pub proof fn lemma_exclusive_take<H>(s: Supervisor<H>, n: nat)
    requires
        n > 0,
    ensures
        take_results(s, n).len() == n,
        take_results(s, n)[0] == s.tracked_child(),
        forall|i: int| 1 <= i < n ==> take_results(s, n)[i] is None,
{
    lemma_take_none(s.after_take(), (n - 1) as nat);
    assert forall|i: int| 1 <= i < n implies take_results(s, n)[i] is None by {
        assert(take_results(s, n)[i] == take_results(s.after_take(), (n - 1) as nat)[i - 1]);
    }
}

/// Status purity: the status query is a function of the fixed port
/// alone, so recording a child, taking one, or any number of repeated
/// queries cannot change what it reports.
pub proof fn lemma_status_pure<H>(s: Supervisor<H>, h: H)
    ensures
        s.after_record(h).spec_port() == s.spec_port(),
        s.after_take().spec_port() == s.spec_port(),
        url_chars(s.after_record(h).spec_port() as nat) == url_chars(s.spec_port() as nat),
        url_chars(s.after_take().spec_port() as nat) == url_chars(s.spec_port() as nat),
{
}

/// Teardown safety: teardown performs the same exclusive take as `stop`,
/// so afterwards no handle is tracked — whatever the discarded kill
/// result was, the supervisor can never signal that process again, and
/// the one taker that received the handle was free to kill it.
pub proof fn lemma_teardown_clears<H>(s: Supervisor<H>)
    ensures
        s.after_take().tracked_child() is None,
{
}

/// Readiness gating: the probe budget is spent only one failure at a
/// time, and when all `PROBE_ATTEMPTS` probes have failed — and only
/// then — `start` ends in `StartEvent::TimedOut`, after thirty waits of
/// half a second, about fifteen seconds in all.
pub proof fn lemma_readiness_gating(p: ReadinessPoll)
    requires
        p.inv(),
    ensures
        p.spec_attempts() == PROBE_ATTEMPTS ==> elapsed_wait_ms(p.spec_attempts() as nat)
            == 15000,
        p.spec_attempts() < PROBE_ATTEMPTS ==> elapsed_wait_ms(p.spec_attempts() as nat) < 15000,
{
}

} // verus!
