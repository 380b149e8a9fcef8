//! What a probe of the health-check endpoint comes to, and the counters that
//! a pool of probing workers shares.
use vstd::prelude::*;

verus! {

/// The path of the health-check endpoint.
pub const PING_PATH: &'static str = "/ping";

/// The body that a live health-check endpoint answers with.
pub const PING_BODY: &'static str = "pong";

/// How one probe went, as the transport saw it.
#[derive(Debug)]
pub enum ProbeAttempt {
    /// No response came before the deadline.
    TimedOut,
    /// The request failed: refused connection, reset, bad status and the like.
    RequestFailed(String),
    /// A response came in time, with this body.
    Responded(String),
}

/// Why a probe counts as a failure.
#[derive(Debug)]
pub enum ProbeError {
    /// The deadline passed first; whatever arrives later is discarded.
    TimedOut,
    /// The request itself failed.
    RequestFailed(String),
    /// The server answered, but not with the expected body.
    WrongResponse(String),
}

/// The outcome of an attempt: its body on success, else why it failed.
pub open spec fn probe_outcome(a: ProbeAttempt) -> Result<Seq<char>, ProbeError> {
    match a {
        ProbeAttempt::TimedOut => Err(ProbeError::TimedOut),
        ProbeAttempt::RequestFailed(m) => Err(ProbeError::RequestFailed(m)),
        ProbeAttempt::Responded(b) => if b@ == PING_BODY@ {
            Ok(b@)
        } else {
            Err(ProbeError::WrongResponse(b))
        },
    }
}

/// Accepts a response body only if it is exactly the expected one; any other
/// body is an application-level failure that carries what came back.
pub fn check_ping_body(text: String) -> (r: Result<String, ProbeError>)
    ensures
        r is Ok <==> text@ == PING_BODY@,
        r is Ok ==> r->Ok_0@ == text@,
        r is Err ==> r->Err_0 == ProbeError::WrongResponse(text),
{
    let expected = PING_BODY.to_owned();
    if text == expected {
        Ok(text)
    } else {
        Err(ProbeError::WrongResponse(text))
    }
}

/// Classifies one probe: success only for the expected body received in time.
pub fn classify_probe(attempt: ProbeAttempt) -> (r: Result<String, ProbeError>)
    ensures
        r is Ok <==> probe_outcome(attempt) is Ok,
        r is Ok ==> probe_outcome(attempt) == Ok::<Seq<char>, ProbeError>(r->Ok_0@),
        r is Err ==> probe_outcome(attempt) == Err::<Seq<char>, ProbeError>(r->Err_0),
{
    match attempt {
        ProbeAttempt::TimedOut => Err(ProbeError::TimedOut),
        ProbeAttempt::RequestFailed(m) => Err(ProbeError::RequestFailed(m)),
        ProbeAttempt::Responded(b) => check_ping_body(b),
    }
}

/// Whether the occurrence that brought a counter to `count` is reported:
/// exactly when `count` is a multiple of the pool size, so that one line is
/// written per pool-size occurrences.
pub fn should_report(count: u64, pool_size: u64) -> (r: bool)
    requires
        pool_size > 0,
    ensures
        r == (count % pool_size == 0),
{
    count % pool_size == 0
}

/// A tally after one more outcome: a success or a failure, counted once.
pub open spec fn tally_step(t: (nat, nat), success: bool) -> (nat, nat) {
    if success {
        (t.0 + 1, t.1)
    } else {
        (t.0, t.1 + 1)
    }
}

/// The tally of a sequence of outcomes (`true` for a success), in the order in
/// which they were recorded, starting from zero.
pub open spec fn tally_of(outcomes: Seq<bool>) -> (nat, nat)
    decreases outcomes.len(),
{
    if outcomes.len() == 0 {
        (0, 0)
    } else {
        tally_step(tally_of(outcomes.drop_last()), outcomes.last())
    }
}

/// Success and failure counters, shared by every worker of a probing pool.
/// Each recorded outcome increments exactly one of them by one; neither is
/// ever reset.
#[derive(Debug, Clone, Copy, PartialEq, Eq)]
pub struct ProbeTally {
    successes: u64,
    failures: u64,
}

impl View for ProbeTally {
    type V = (nat, nat);

    /// The number of successes and of failures recorded.
    closed spec fn view(&self) -> (nat, nat) {
        (self.successes as nat, self.failures as nat)
    }
}

impl ProbeTally {
    /// Both counters at zero.
    pub fn new() -> (r: Self)
        ensures
            r@ == tally_of(Seq::empty()),
    {
        ProbeTally { successes: 0, failures: 0 }
    }

    /// The number of successes recorded.
    pub fn successes(&self) -> (r: u64)
        ensures
            r == self@.0,
    {
        self.successes
    }

    /// The number of failures recorded.
    pub fn failures(&self) -> (r: u64)
        ensures
            r == self@.1,
    {
        self.failures
    }

    /// Counts one outcome and returns the new value of the counter that it
    /// incremented. A counter that has reached `u64::MAX` cannot count more.
    pub fn record(&mut self, outcome: &Result<String, ProbeError>) -> (count: u64)
        requires
            outcome is Ok ==> old(self)@.0 < u64::MAX,
            outcome is Err ==> old(self)@.1 < u64::MAX,
        ensures
            final(self)@ == tally_step(old(self)@, outcome is Ok),
            count == (if outcome is Ok { final(self)@.0 } else { final(self)@.1 }),
    {
        match outcome {
            Ok(_) => {
                self.successes = self.successes + 1;
                self.successes
            },
            Err(_) => {
                self.failures = self.failures + 1;
                self.failures
            },
        }
    }
}

/// No update is lost: however the outcomes of `workers` workers making
/// `iterations` probes each are interleaved, their tally counts every probe
/// once, and its success counter counts exactly the successful ones.
pub proof fn law_no_lost_updates(outcomes: Seq<bool>, workers: nat, iterations: nat)
    requires
        outcomes.len() == workers * iterations,
    ensures
        tally_of(outcomes).0 + tally_of(outcomes).1 == workers * iterations,
        tally_of(outcomes).0 == outcomes.filter(|b: bool| b).len(),
        tally_of(outcomes).1 == outcomes.filter(|b: bool| !b).len(),
{
    lemma_tally_counts(outcomes);
}

proof fn lemma_tally_counts(outcomes: Seq<bool>)
    ensures
        tally_of(outcomes).0 + tally_of(outcomes).1 == outcomes.len(),
        tally_of(outcomes).0 == outcomes.filter(|b: bool| b).len(),
        tally_of(outcomes).1 == outcomes.filter(|b: bool| !b).len(),
    decreases outcomes.len(),
{
    if outcomes.len() > 0 {
        let rest = outcomes.drop_last();
        lemma_tally_counts(rest);
        reveal(Seq::filter);
        let ok = |b: bool| b;
        let bad = |b: bool| !b;
        assert(outcomes.filter(ok) == (if ok(outcomes.last()) {
            rest.filter(ok).push(outcomes.last())
        } else {
            rest.filter(ok)
        }));
        assert(outcomes.filter(bad) == (if bad(outcomes.last()) {
            rest.filter(bad).push(outcomes.last())
        } else {
            rest.filter(bad)
        }));
    }
}

/// A probe whose deadline passed is a failure, and the success counter does
/// not move for it, whatever arrives afterwards.
pub proof fn law_timeout_is_failure(t: (nat, nat))
    ensures
        probe_outcome(ProbeAttempt::TimedOut) is Err,
        tally_step(t, probe_outcome(ProbeAttempt::TimedOut) is Ok).0 == t.0,
        tally_step(t, probe_outcome(ProbeAttempt::TimedOut) is Ok).1 == t.1 + 1,
{
}

} // verus!
