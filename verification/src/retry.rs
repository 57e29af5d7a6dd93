//! The retry coordinator: classifies each attempt's failure and decides
//! whether to finish, sleep and retry, or trigger an origin lockout and
//! retry.
//!
//! Policy: up to 3 retries (4 attempts in all) for transient failures, with
//! a backoff ceiling starting at 200 ms and tripling per retry; the actual
//! sleep is a uniformly random fraction of the ceiling (full jitter). A
//! rate-limit response never consumes budget and never becomes fatal: it
//! triggers the lockout callback and another attempt. A permanent failure
//! is surfaced at once.
//!
//! The asynchronous operation itself runs outside: a runtime feeds each
//! attempt's outcome either to `retry_step` (one event at a time) or to
//! `with_retry` (a whole recorded sequence of outcomes at once).

use vstd::prelude::*;

use crate::common::{decimal_string, spec_decimal};

verus! {

/// The HTTP status the remote service uses for "too many requests".
pub const RATE_LIMIT_STATUS: u16 = 429;

/// Retry budget: how many transient failures are retried before giving up.
pub const MAX_TRANSIENT_FAILURES: u64 = 3;

/// First backoff ceiling, in milliseconds.
pub const INITIAL_BACKOFF_MS: u64 = 200;

/// Jitter is a fraction with this denominator (2^32); `draw_jitter` returns
/// a uniformly random numerator.
pub const JITTER_SCALE: u64 = 4294967296;

/// What the retry logic reads from a failed HTTP exchange: the response
/// status, if the exchange got far enough to have one, and whether the
/// request could not even be constructed.
#[derive(Clone, Copy, Debug, PartialEq, Eq)]
pub struct HttpFailure {
    pub status: Option<u16>,
    pub from_builder: bool,
}

/// The error taxonomy of a download attempt.
#[derive(Clone, Debug, PartialEq, Eq)]
pub enum DownloadError {
    /// A storage or filesystem error.
    IOError,
    /// The requested chapter does not exist.
    NoSuchChapter(usize),
    /// The chapter exists but not in the requested language.
    ChapterIsWrongLanguage(usize),
    /// A URL could not be parsed.
    ParseError,
    /// An HTTP exchange failed for any reason other than rate limiting.
    ReqwestError(HttpFailure),
    /// The remote service answered with its rate-limit status.
    RateLimitError(HttpFailure),
}

impl DownloadError {
    /// A rate-limit signal: retried forever, never fatal, and the trigger
    /// for an origin lockout.
    pub open spec fn spec_is_rate_limited(&self) -> bool {
        self is RateLimitError
    }

    /// A permanent failure: storage errors, malformed URLs, domain-level
    /// not-found or wrong-language conditions, requests that could not be
    /// constructed, and client-side (4xx, other than rate-limit) HTTP
    /// errors.
    pub open spec fn spec_is_permanent(&self) -> bool {
        match *self {
            DownloadError::IOError => true,
            DownloadError::NoSuchChapter(_) => true,
            DownloadError::ChapterIsWrongLanguage(_) => true,
            DownloadError::ParseError => true,
            DownloadError::RateLimitError(_) => false,
            DownloadError::ReqwestError(f) => f.from_builder || (f.status matches Some(s) && 400
                <= s < 500 && s != RATE_LIMIT_STATUS),
        }
    }

    /// Anything neither permanent nor rate limited: retried with backoff
    /// against the fixed budget.
    pub open spec fn spec_is_transient(&self) -> bool {
        !self.spec_is_permanent() && !self.spec_is_rate_limited()
    }

    pub fn is_rate_limited(&self) -> (r: bool)
        ensures
            r == self.spec_is_rate_limited(),
    {
        match self {
            DownloadError::RateLimitError(_) => true,
            _ => false,
        }
    }

    pub fn is_permanent(&self) -> (r: bool)
        ensures
            r == self.spec_is_permanent(),
    {
        match self {
            DownloadError::IOError => true,
            DownloadError::NoSuchChapter(_) => true,
            DownloadError::ChapterIsWrongLanguage(_) => true,
            DownloadError::ParseError => true,
            DownloadError::RateLimitError(_) => false,
            DownloadError::ReqwestError(f) => f.from_builder || (match f.status {
                Some(s) => 400 <= s && s < 500 && s != RATE_LIMIT_STATUS,
                None => false,
            }),
        }
    }

    /// Sorts a failed HTTP exchange into the taxonomy: the designated
    /// rate-limit status makes it a rate-limit error, anything else an
    /// ordinary HTTP error.
    pub fn from_http(f: HttpFailure) -> (e: DownloadError)
        ensures
            e == if f.status matches Some(s) && s == RATE_LIMIT_STATUS {
                DownloadError::RateLimitError(f)
            } else {
                DownloadError::ReqwestError(f)
            },
    {
        match f.status {
            Some(s) if s == RATE_LIMIT_STATUS => DownloadError::RateLimitError(f),
            _ => DownloadError::ReqwestError(f),
        }
    }

    /// The message a user sees for this error.
    pub open spec fn spec_describe(&self) -> Seq<char> {
        match *self {
            DownloadError::IOError => "IO error"@,
            DownloadError::ParseError => "Url parsing error"@,
            DownloadError::NoSuchChapter(id) => "Chapter not found: "@ + spec_decimal(id as nat),
            DownloadError::ChapterIsWrongLanguage(id) => "Chapter has wrong lang code: "@
                + spec_decimal(id as nat),
            DownloadError::ReqwestError(_) => "Download error"@,
            DownloadError::RateLimitError(_) => "Downloads exceeded rate limit"@,
        }
    }

    pub fn describe(&self) -> (s: String)
        ensures
            s@ == self.spec_describe(),
    {
        match self {
            DownloadError::IOError => "IO error".to_owned(),
            DownloadError::ParseError => "Url parsing error".to_owned(),
            DownloadError::NoSuchChapter(id) => {
                let mut s = "Chapter not found: ".to_owned();
                s.append(decimal_string(*id as u64).as_str());
                s
            },
            DownloadError::ChapterIsWrongLanguage(id) => {
                let mut s = "Chapter has wrong lang code: ".to_owned();
                s.append(decimal_string(*id as u64).as_str());
                s
            },
            DownloadError::ReqwestError(_) => "Download error".to_owned(),
            DownloadError::RateLimitError(_) => "Downloads exceeded rate limit".to_owned(),
        }
    }
}

/// The backoff ceiling in force after `failures` transient failures:
/// 200 ms tripled per failure, up to the budget of 3.
pub open spec fn spec_backoff(failures: u64) -> u64 {
    if failures == 0 {
        200
    } else if failures == 1 {
        600
    } else if failures == 2 {
        1800
    } else {
        5400
    }
}

/// The sleep before the next attempt: the fraction `jitter / JITTER_SCALE`
/// of the ceiling, rounded down (full jitter).
pub open spec fn spec_jittered_sleep(backoff_ms: u64, jitter: u64) -> u64 {
    ((backoff_ms * jitter) / (JITTER_SCALE as int)) as u64
}

/// Attempt-local retry state: how many transient failures happened so far
/// and the backoff ceiling the next one would sleep under.
#[derive(Clone, Copy, Debug, PartialEq, Eq, Structural)]
pub struct RetryState {
    pub failures: u64,
    pub backoff_ms: u64,
}

impl RetryState {
    pub open spec fn wf(&self) -> bool {
        self.failures <= MAX_TRANSIENT_FAILURES && self.backoff_ms == spec_backoff(self.failures)
    }

    /// The state before the first attempt.
    pub open spec fn spec_initial() -> RetryState {
        RetryState { failures: 0, backoff_ms: INITIAL_BACKOFF_MS }
    }

    /// The state after one more transient failure.
    pub open spec fn spec_after_failure(&self) -> RetryState {
        RetryState {
            failures: (self.failures + 1) as u64,
            backoff_ms: spec_backoff((self.failures + 1) as u64),
        }
    }

    pub fn new() -> (st: RetryState)
        ensures
            st == RetryState::spec_initial(),
            st.wf(),
    {
        RetryState { failures: 0, backoff_ms: INITIAL_BACKOFF_MS }
    }
}

/// What the coordinator tells the runtime to do after one attempt.
#[derive(Debug)]
pub enum RetryStep<T> {
    /// Done: hand this result to the caller.
    Finish(Result<T, DownloadError>),
    /// Transient failure with budget left: sleep this long, re-acquire a
    /// fresh ticket, and try again.
    SleepRetry { sleep_ms: u64 },
    /// Rate limited: lock out the origin, then try again; the budget is
    /// untouched.
    LockoutRetry,
}

/// Decides, from the retry state and one attempt's outcome, what happens
/// next. `jitter` is the random numerator for this step's sleep (drawn
/// fresh per attempt; unused unless the outcome is a transient failure with
/// budget left).
pub fn retry_step<T>(state: &mut RetryState, outcome: Result<T, DownloadError>, jitter: u64) -> (
    step: RetryStep<T>)
    requires
        old(state).wf(),
        jitter < JITTER_SCALE,
    ensures
        final(state).wf(),
        ({
            match outcome {
                Ok(v) => *final(state) == *old(state) && (step matches RetryStep::Finish(r) && r
                    == Ok::<T, DownloadError>(v)),
                Err(e) => {
                    if e.spec_is_rate_limited() {
                        &&& *final(state) == *old(state)
                        &&& step is LockoutRetry
                    } else if e.spec_is_permanent() {
                        &&& *final(state) == *old(state)
                        &&& step matches RetryStep::Finish(r) && r == Err::<T, DownloadError>(e)
                    } else if old(state).failures < MAX_TRANSIENT_FAILURES {
                        &&& *final(state) == old(state).spec_after_failure()
                        &&& step matches RetryStep::SleepRetry { sleep_ms } && sleep_ms
                            == spec_jittered_sleep(old(state).backoff_ms, jitter) && sleep_ms < old(
                            state,
                        ).backoff_ms
                    } else {
                        &&& *final(state) == *old(state)
                        &&& step matches RetryStep::Finish(r) && r == Err::<T, DownloadError>(e)
                    }
                },
            }
        }),
{
    match outcome {
        Ok(v) => RetryStep::Finish(Ok(v)),
        Err(e) => {
            if e.is_rate_limited() {
                RetryStep::LockoutRetry
            } else if e.is_permanent() {
                RetryStep::Finish(Err(e))
            } else if state.failures < MAX_TRANSIENT_FAILURES {
                let sleep_ms = jittered_sleep(state.backoff_ms, jitter);
                state.failures = state.failures + 1;
                state.backoff_ms = next_backoff(state.failures);
                RetryStep::SleepRetry { sleep_ms }
            } else {
                RetryStep::Finish(Err(e))
            }
        },
    }
}

fn next_backoff(failures: u64) -> (b: u64)
    ensures
        b == spec_backoff(failures),
{
    if failures == 0 {
        200
    } else if failures == 1 {
        600
    } else if failures == 2 {
        1800
    } else {
        5400
    }
}

fn jittered_sleep(backoff_ms: u64, jitter: u64) -> (s: u64)
    requires
        backoff_ms <= 5400,
        1 <= backoff_ms,
        jitter < JITTER_SCALE,
    ensures
        s == spec_jittered_sleep(backoff_ms, jitter),
        s < backoff_ms,
{
    proof {
        assert(backoff_ms * jitter <= 5400 * (JITTER_SCALE - 1)) by (nonlinear_arith)
            requires
                backoff_ms <= 5400 && jitter <= JITTER_SCALE - 1,
        ;
        assert((backoff_ms * jitter) / (JITTER_SCALE as int) < backoff_ms) by (nonlinear_arith)
            requires
                jitter < JITTER_SCALE && backoff_ms >= 1,
        ;
    }
    (backoff_ms * jitter) / JITTER_SCALE
}

/// What a whole retry run did: the decision (or `None` if the recorded
/// attempts ran out while the coordinator still wanted to retry), how many
/// attempts it consumed, how often it invoked the lockout callback, and
/// each sleep it ordered, in order. Ghost counterpart of `RetryRun`.
pub struct SpecRetryRun<T> {
    pub result: Option<Result<T, DownloadError>>,
    pub attempts: int,
    pub lockouts: int,
    pub sleeps: Seq<u64>,
}

/// What `with_retry` does with a sequence of attempt outcomes, starting
/// from state `st`: finish on a success or a permanent failure, finish on a
/// transient failure once the budget is gone, and otherwise consume the
/// attempt (counting a lockout per rate-limit outcome and a jittered sleep
/// per retried transient failure) and continue.
pub open spec fn spec_retry<T>(
    st: RetryState,
    attempts: Seq<Result<T, DownloadError>>,
    jitters: Seq<u64>,
) -> SpecRetryRun<T>
    decreases attempts.len(),
{
    if attempts.len() == 0 {
        SpecRetryRun { result: None, attempts: 0, lockouts: 0, sleeps: Seq::empty() }
    } else {
        match attempts[0] {
            Ok(v) => SpecRetryRun {
                result: Some(Ok(v)),
                attempts: 1,
                lockouts: 0,
                sleeps: Seq::empty(),
            },
            Err(e) => {
                if e.spec_is_rate_limited() {
                    let rest = spec_retry(st, attempts.skip(1), jitters);
                    SpecRetryRun {
                        result: rest.result,
                        attempts: 1 + rest.attempts,
                        lockouts: 1 + rest.lockouts,
                        sleeps: rest.sleeps,
                    }
                } else if e.spec_is_permanent() {
                    SpecRetryRun {
                        result: Some(Err(e)),
                        attempts: 1,
                        lockouts: 0,
                        sleeps: Seq::empty(),
                    }
                } else if st.failures < MAX_TRANSIENT_FAILURES {
                    let sleep = spec_jittered_sleep(st.backoff_ms, jitters[0]);
                    let rest = spec_retry(st.spec_after_failure(), attempts.skip(1), jitters.skip(1));
                    SpecRetryRun {
                        result: rest.result,
                        attempts: 1 + rest.attempts,
                        lockouts: rest.lockouts,
                        sleeps: seq![sleep] + rest.sleeps,
                    }
                } else {
                    SpecRetryRun {
                        result: Some(Err(e)),
                        attempts: 1,
                        lockouts: 0,
                        sleeps: Seq::empty(),
                    }
                }
            },
        }
    }
}

/// The executable transcript of a retry run over recorded attempt
/// outcomes.
#[derive(Debug)]
pub struct RetryRun<T> {
    /// The coordinator's decision, or `None` if the recorded attempts ran
    /// out while it still wanted to retry.
    pub result: Option<Result<T, DownloadError>>,
    pub attempts_made: usize,
    pub lockouts: usize,
    pub sleeps: Vec<u64>,
}

fn retry_eval<T>(st: RetryState, mut attempts: Vec<Result<T, DownloadError>>, jitters: &Vec<
    u64,
>, ji: usize) -> (run: RetryRun<T>)
    requires
        st.wf(),
        ji + attempts@.len() <= jitters@.len(),
        forall|i: int| 0 <= i < jitters@.len() ==> #[trigger] jitters@[i] < JITTER_SCALE,
    ensures
        ({
            let s = spec_retry(st, attempts@, jitters@.skip(ji as int));
            &&& run.result == s.result
            &&& run.attempts_made == s.attempts
            &&& run.lockouts == s.lockouts
            &&& run.sleeps@ == s.sleeps
            &&& run.attempts_made <= attempts@.len()
            &&& run.lockouts <= attempts@.len()
        }),
    decreases attempts@.len(),
{
    if attempts.len() == 0 {
        return RetryRun { result: None, attempts_made: 0, lockouts: 0, sleeps: Vec::new() };
    }
    let ghost whole = attempts@;
    let a = attempts.remove(0);
    proof {
        assert(whole.remove(0) =~= whole.skip(1));
    }
    match a {
        Ok(v) => RetryRun {
            result: Some(Ok(v)),
            attempts_made: 1,
            lockouts: 0,
            sleeps: Vec::new(),
        },
        Err(e) => {
            if e.is_rate_limited() {
                let rest = retry_eval(st, attempts, jitters, ji);
                RetryRun {
                    result: rest.result,
                    attempts_made: 1 + rest.attempts_made,
                    lockouts: 1 + rest.lockouts,
                    sleeps: rest.sleeps,
                }
            } else if e.is_permanent() {
                RetryRun {
                    result: Some(Err(e)),
                    attempts_made: 1,
                    lockouts: 0,
                    sleeps: Vec::new(),
                }
            } else if st.failures < MAX_TRANSIENT_FAILURES {
                let jl = jitters.len();
                proof {
                    assert(ji < jl);
                }
                let sleep = jittered_sleep(st.backoff_ms, jitters[ji]);
                let next = RetryState {
                    failures: st.failures + 1,
                    backoff_ms: next_backoff(st.failures + 1),
                };
                let rest = retry_eval(next, attempts, jitters, ji + 1);
                let mut sleeps = rest.sleeps;
                sleeps.insert(0, sleep);
                proof {
                    assert(jitters@.skip(ji as int)[0] == jitters@[ji as int]);
                    assert(jitters@.skip(ji as int).skip(1) =~= jitters@.skip(ji + 1));
                    assert(seq![sleep] + spec_retry(
                        next,
                        whole.skip(1),
                        jitters@.skip(ji + 1),
                    ).sleeps =~= spec_retry(next, whole.skip(1), jitters@.skip(ji + 1)).sleeps.insert(
                        0,
                        sleep,
                    ));
                }
                RetryRun {
                    result: rest.result,
                    attempts_made: 1 + rest.attempts_made,
                    lockouts: rest.lockouts,
                    sleeps,
                }
            } else {
                RetryRun {
                    result: Some(Err(e)),
                    attempts_made: 1,
                    lockouts: 0,
                    sleeps: Vec::new(),
                }
            }
        },
    }
}

/// Runs the retry policy over a recorded sequence of attempt outcomes,
/// starting with a full budget: the executable form of `spec_retry`. One
/// jitter numerator per possible sleep must be supplied (see
/// `draw_jitters`); jitter `i` scales the `i`-th sleep.
pub fn with_retry<T>(attempts: Vec<Result<T, DownloadError>>, jitters: &Vec<u64>) -> (run:
    RetryRun<T>)
    requires
        attempts@.len() <= jitters@.len(),
        forall|i: int| 0 <= i < jitters@.len() ==> #[trigger] jitters@[i] < JITTER_SCALE,
    ensures
        ({
            let s = spec_retry(RetryState::spec_initial(), attempts@, jitters@);
            &&& run.result == s.result
            &&& run.attempts_made == s.attempts
            &&& run.lockouts == s.lockouts
            &&& run.sleeps@ == s.sleeps
        }),
{
    let st = RetryState::new();
    proof {
        assert(jitters@.skip(0) =~= jitters@);
    }
    retry_eval(st, attempts, jitters, 0)
}

/// A run whose every attempt is rate limited never becomes fatal and never
/// touches the retry budget: it consumes every attempt, invokes the
/// lockout callback exactly once per attempt, sleeps never, and is still
/// willing to retry at the end.
pub proof fn lemma_rate_limited_never_fatal<T>(
    st: RetryState,
    attempts: Seq<Result<T, DownloadError>>,
    jitters: Seq<u64>,
)
    requires
        forall|i: int|
            0 <= i < attempts.len() ==> ((#[trigger] attempts[i]) matches Err(e)
                && e.spec_is_rate_limited()),
    ensures
        ({
            let r = spec_retry(st, attempts, jitters);
            &&& r.result is None
            &&& r.attempts == attempts.len()
            &&& r.lockouts == attempts.len()
            &&& r.sleeps.len() == 0
        }),
    decreases attempts.len(),
{
    if attempts.len() > 0 {
        lemma_rate_limited_never_fatal(st, attempts.skip(1), jitters);
    }
}

/// A first attempt that fails permanently is surfaced on the spot: that
/// very error comes back after exactly one attempt, with zero sleeps and
/// zero lockouts.
pub proof fn lemma_permanent_fails_first<T>(
    st: RetryState,
    attempts: Seq<Result<T, DownloadError>>,
    jitters: Seq<u64>,
)
    requires
        attempts.len() >= 1,
        attempts[0] matches Err(e) && e.spec_is_permanent(),
    ensures
        ({
            let r = spec_retry(st, attempts, jitters);
            &&& r.result == Some(attempts[0])
            &&& r.attempts == 1
            &&& r.lockouts == 0
            &&& r.sleeps.len() == 0
        }),
{
}

/// An operation that fails transiently exactly three times and then
/// succeeds comes back a success: four attempts in all, three sleeps, and
/// the budget just suffices.
pub proof fn lemma_transient_three_then_success<T>(
    attempts: Seq<Result<T, DownloadError>>,
    jitters: Seq<u64>,
)
    requires
        attempts.len() == 4,
        forall|i: int|
            0 <= i < 3 ==> ((#[trigger] attempts[i]) matches Err(e) && e.spec_is_transient()),
        attempts[3] is Ok,
        jitters.len() >= 3,
    ensures
        ({
            let r = spec_retry(RetryState::spec_initial(), attempts, jitters);
            &&& r.result == Some(attempts[3])
            &&& r.attempts == 4
            &&& r.lockouts == 0
            &&& r.sleeps.len() == 3
        }),
{
    let s0 = RetryState::spec_initial();
    let s1 = s0.spec_after_failure();
    let s2 = s1.spec_after_failure();
    let s3 = s2.spec_after_failure();
    let a1 = attempts.skip(1);
    let a2 = attempts.skip(2);
    let a3 = attempts.skip(3);
    let j1 = jitters.skip(1);
    let j2 = jitters.skip(2);
    let j3 = jitters.skip(3);
    assert(a1.skip(1) =~= a2);
    assert(a2.skip(1) =~= a3);
    assert(j1.skip(1) =~= j2);
    assert(j2.skip(1) =~= j3);
    assert(a1[0] == attempts[1]);
    assert(a2[0] == attempts[2]);
    assert(a3[0] == attempts[3]);
    assert(spec_retry(s3, a3, j3).result == Some(attempts[3]));
    assert(spec_retry(s2, a2, j2).attempts == 1 + spec_retry(s3, a3, j3).attempts);
    assert(spec_retry(s1, a1, j1).attempts == 1 + spec_retry(s2, a2, j2).attempts);
    assert(spec_retry(s0, attempts, jitters).attempts == 1 + spec_retry(s1, a1, j1).attempts);
}

/// Relies on `rand::random::<u64>`: a fresh value from the thread-local
/// generator, uniform over all of `u64`.
#[verifier::external_body]
fn random_u64() -> u64 {
    rand::random::<u64>()
}

/// A uniformly random jitter numerator in `[0, JITTER_SCALE)`. Uniform
/// because `JITTER_SCALE` is a power of two and so divides the range of
/// `u64` evenly.
pub fn draw_jitter() -> (j: u64)
    ensures
        j < JITTER_SCALE,
{
    random_u64() % JITTER_SCALE
}

/// `count` independent jitter numerators, one per possible sleep.
pub fn draw_jitters(count: usize) -> (js: Vec<u64>)
    ensures
        js@.len() == count,
        forall|i: int| 0 <= i < js@.len() ==> #[trigger] js@[i] < JITTER_SCALE,
{
    let mut js: Vec<u64> = Vec::new();
    let mut i: usize = 0;
    while i < count
        invariant
            i <= count,
            js@.len() == i,
            forall|k: int| 0 <= k < js@.len() ==> #[trigger] js@[k] < JITTER_SCALE,
        decreases count - i,
    {
        js.push(draw_jitter());
        i = i + 1;
    }
    js
}

} // verus!
