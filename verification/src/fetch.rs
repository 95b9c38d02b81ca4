//! The retry-with-backoff policy for HTTP fetches.
//!
//! The embedding program owns the HTTP client and the clock; this module
//! decides. After every response the policy is asked what to do next:
//! a transport-level failure fails at once (backoff cannot fix a refused
//! connection), a server error is retried with exponentially growing delay
//! until the retry budget is spent, any other error status fails at once,
//! and a success delivers the body for decoding.

use vstd::arithmetic::power2::lemma2_to64;
use vstd::arithmetic::power2::lemma_pow2_strictly_increases;
use vstd::arithmetic::power2::lemma_pow2_unfold;
use vstd::arithmetic::power2::pow2;
use vstd::prelude::*;

verus! {

/// Why a fetch failed.
#[derive(Clone, Copy, Debug, PartialEq, Eq, Structural)]
pub enum FetchError {
    /// The request never produced a response: connection refused, timeout,
    /// name resolution. Never retried.
    Transport,
    /// The final response carried this error status.
    Status(u16),
    /// The body of a success response could not be decoded.
    Decode,
}

/// What the endpoint did on one attempt.
pub enum FetchEvent {
    /// No response came back at all.
    Transport,
    /// A response came back with this status and body.
    Response { status: u16, body: Vec<u8> },
}

/// What to do after one attempt.
pub enum FetchStep {
    /// Sleep this many seconds, then reissue the request.
    Retry { delay_secs: u64 },
    /// Give up with this error.
    Fail { error: FetchError },
    /// The fetch succeeded; decode this body.
    Deliver { body: Vec<u8> },
}

/// A server-side error: the only kind of failure worth retrying.
pub open spec fn is_server_error(status: u16) -> bool {
    500 <= status < 600
}

/// Any error status, client- or server-side.
pub open spec fn is_error_status(status: u16) -> bool {
    400 <= status < 600
}

/// A client-side error status.
pub open spec fn is_client_error(status: u16) -> bool {
    400 <= status < 500
}

/// An event the policy answers with a retry, budget permitting.
pub open spec fn is_retry_event(e: FetchEvent) -> bool {
    match e {
        FetchEvent::Transport => false,
        FetchEvent::Response { status, body } => is_server_error(status),
    }
}

/// How one attempt ends if it is the last one.
pub open spec fn event_outcome(e: FetchEvent) -> Result<Seq<u8>, FetchError> {
    match e {
        FetchEvent::Transport => Err(FetchError::Transport),
        FetchEvent::Response { status, body } => if is_error_status(status) {
            Err(FetchError::Status(status))
        } else {
            Ok(body@)
        },
    }
}

/// How many server errors the endpoint answers before anything else.
pub open spec fn leading_server_errors(events: Seq<FetchEvent>) -> nat
    decreases events.len(),
{
    if events.len() == 0 {
        0
    } else if is_retry_event(events.first()) {
        (1 + leading_server_errors(events.drop_first())) as nat
    } else {
        0
    }
}

/// How many attempts a fetch makes against an endpoint that answers attempt
/// `i` with `events[i]`: one more than the retries taken, and a retry is
/// taken for each leading server error while the budget lasts.
pub open spec fn spec_attempts(events: Seq<FetchEvent>, max_retries: nat) -> nat {
    (if leading_server_errors(events) < max_retries {
        leading_server_errors(events)
    } else {
        max_retries
    }) + 1
}

/// The outcome of such a fetch: the final attempt's event decides.
pub open spec fn spec_outcome(events: Seq<FetchEvent>, max_retries: nat) -> Result<
    Seq<u8>,
    FetchError,
> {
    event_outcome(events[spec_attempts(events, max_retries) as int - 1])
}

/// The attempt counter of one fetch: how many retries have been taken and
/// how many the budget allows.
pub struct FetchAttempt {
    /// Retries taken so far.
    pub attempt: u8,
    /// The retry budget. The backoff delay `2^(attempt + 1)` must fit in
    /// seconds, hence the bound carried by [`FetchAttempt::wf`].
    pub max_retries: u8,
}

impl FetchAttempt {
    /// The counter never passes its budget, and the budget keeps every
    /// backoff delay well inside `u64` seconds.
    pub open spec fn wf(self) -> bool {
        self.max_retries <= 30 && self.attempt <= self.max_retries
    }

    /// A fresh counter: nothing attempted yet.
    pub fn new(max_retries: u8) -> (a: FetchAttempt)
        requires
            max_retries <= 30,
        ensures
            a.wf(),
            a.attempt == 0,
            a.max_retries == max_retries,
    {
        FetchAttempt { attempt: 0, max_retries }
    }

    /// Decides what to do after one attempt's event.
    ///
    /// A transport failure and a client error fail at once; a server error
    /// is retried, sleeping `2^attempt` seconds after taking the `attempt`th
    /// retry, until the budget is spent; any remaining error status fails
    /// with that status; a success delivers its body.
    pub fn step(&mut self, event: FetchEvent) -> (out: FetchStep)
        requires
            old(self).wf(),
        ensures
            final(self).wf(),
            final(self).max_retries == old(self).max_retries,
            match event {
                FetchEvent::Transport => out == (FetchStep::Fail { error: FetchError::Transport })
                    && final(self).attempt == old(self).attempt,
                FetchEvent::Response { status, body } => {
                    if is_server_error(status) && old(self).attempt < old(self).max_retries {
                        (out matches FetchStep::Retry { delay_secs } && delay_secs == pow2(
                            (old(self).attempt + 1) as nat,
                        )) && final(self).attempt == old(self).attempt + 1
                    } else if is_error_status(status) {
                        out == (FetchStep::Fail { error: FetchError::Status(status) })
                            && final(self).attempt == old(self).attempt
                    } else {
                        (out matches FetchStep::Deliver { body: b } && b@ == body@)
                            && final(self).attempt == old(self).attempt
                    }
                },
            },
    {
        match event {
            FetchEvent::Transport => FetchStep::Fail { error: FetchError::Transport },
            FetchEvent::Response { status, body } => {
                if 500 <= status && status < 600 && self.attempt < self.max_retries {
                    self.attempt = self.attempt + 1;
                    let delay_secs = pow2_u64(self.attempt);
                    FetchStep::Retry { delay_secs }
                } else if 400 <= status && status < 600 {
                    FetchStep::Fail { error: FetchError::Status(status) }
                } else {
                    FetchStep::Deliver { body }
                }
            },
        }
    }
}

/// `2^e` in seconds, for backoff delays.
fn pow2_u64(e: u8) -> (r: u64)
    requires
        e <= 31,
    ensures
        r == pow2(e as nat),
{
    let mut d: u64 = 1;
    let mut i: u8 = 0;
    proof {
        lemma2_to64();
    }
    while i < e
        invariant
            i <= e,
            e <= 31,
            d == pow2(i as nat),
        decreases e - i,
    {
        proof {
            lemma2_to64();
            if (i as nat) < 31 {
                lemma_pow2_strictly_increases(i as nat, 31);
            }
        }
        d = 2 * d;
        i = i + 1;
        proof {
            lemma_pow2_unfold(i as nat);
        }
    }
    d
}

/// The full record of one fetch: its outcome, how many attempts were made,
/// and the backoff slept between attempts.
pub struct FetchTrace {
    /// The delivered body, or why the fetch failed.
    pub result: Result<Vec<u8>, FetchError>,
    /// How many times the request was issued.
    pub attempts: usize,
    /// The delay slept before each reissue, in order.
    pub delays: Vec<u64>,
}

/// Two events that mean the same thing: same kind, same status, same body.
pub open spec fn same_event(a: FetchEvent, b: FetchEvent) -> bool {
    match (a, b) {
        (FetchEvent::Transport, FetchEvent::Transport) => true,
        (
            FetchEvent::Response { status: s1, body: b1 },
            FetchEvent::Response { status: s2, body: b2 },
        ) => s1 == s2 && b1@ == b2@,
        _ => false,
    }
}

/// Copies one byte vector.
fn copy_bytes(v: &Vec<u8>) -> (r: Vec<u8>)
    ensures
        r@ == v@,
{
    let mut r: Vec<u8> = Vec::new();
    let mut i: usize = 0;
    while i < v.len()
        invariant
            i <= v@.len(),
            r@ == v@.take(i as int),
        decreases v@.len() - i,
    {
        r.push(v[i]);
        proof {
            assert(r@ =~= v@.take(i as int + 1));
        }
        i = i + 1;
    }
    proof {
        assert(v@.take(v@.len() as int) =~= v@);
    }
    r
}

/// Copies one event.
fn copy_event(e: &FetchEvent) -> (r: FetchEvent)
    ensures
        same_event(r, *e),
{
    match e {
        FetchEvent::Transport => FetchEvent::Transport,
        FetchEvent::Response { status, body } => FetchEvent::Response {
            status: *status,
            body: copy_bytes(body),
        },
    }
}

/// Runs the whole retry policy against an endpoint whose answer to attempt
/// `i` is `events[i]`.
///
/// This is the fetch loop with the request factory and the clock factored
/// out: an embedding program obtains each event by issuing one request and
/// sleeping the returned delay, and reaches exactly the outcome stated here.
pub fn fetch_script(events: &Vec<FetchEvent>, max_retries: u8) -> (t: FetchTrace)
    requires
        max_retries <= 30,
        spec_attempts(events@, max_retries as nat) <= events@.len(),
    ensures
        t.attempts == spec_attempts(events@, max_retries as nat),
        t.delays@.len() == t.attempts - 1,
        forall|j: int| 0 <= j < t.delays@.len() ==> t.delays@[j] == pow2((j + 1) as nat),
        forall|j: int, k: int| 0 <= j < k < t.delays@.len() ==> t.delays@[j] < t.delays@[k],
        (t.result matches Ok(b) ==> spec_outcome(events@, max_retries as nat) == Ok::<
            Seq<u8>,
            FetchError,
        >(b@)),
        (t.result matches Err(e) ==> spec_outcome(events@, max_retries as nat) == Err::<
            Seq<u8>,
            FetchError,
        >(e)),
{
    let mut attempt = FetchAttempt::new(max_retries);
    let mut delays: Vec<u64> = Vec::new();
    let mut i: usize = 0;
    loop
        invariant
            attempt.wf(),
            attempt.max_retries == max_retries,
            attempt.attempt == i,
            i <= max_retries,
            i <= events@.len(),
            spec_attempts(events@, max_retries as nat) <= events@.len(),
            forall|j: int| 0 <= j < i ==> is_retry_event(#[trigger] events@[j]),
            delays@.len() == i,
            forall|j: int| 0 <= j < i ==> delays@[j] == pow2((j + 1) as nat),
        decreases events@.len() - i,
    {
        proof {
            lemma_leading_at_least(events@, i as int);
        }
        let ev = copy_event(&events[i]);
        proof {
            assert(same_event(ev, events@[i as int]));
        }
        let out = attempt.step(ev);
        match out {
            FetchStep::Retry { delay_secs } => {
                proof {
                    assert(is_retry_event(events@[i as int]));
                }
                delays.push(delay_secs);
                i = i + 1;
            },
            FetchStep::Fail { error } => {
                proof {
                    assert(i < max_retries ==> !is_retry_event(events@[i as int]));
                    finish_trace(events@, max_retries as nat, i as int);
                    assert(event_outcome(events@[i as int]) == Err::<Seq<u8>, FetchError>(error));
                    lemma_delays_increase(delays@);
                }
                return FetchTrace { result: Err(error), attempts: i + 1, delays };
            },
            FetchStep::Deliver { body } => {
                proof {
                    assert(!is_retry_event(events@[i as int]));
                    finish_trace(events@, max_retries as nat, i as int);
                    assert(event_outcome(events@[i as int]) == Ok::<Seq<u8>, FetchError>(body@));
                    lemma_delays_increase(delays@);
                }
                return FetchTrace { result: Ok(body), attempts: i + 1, delays };
            },
        }
    }
}

/// Backoff delays of the shape `2^(j + 1)` grow strictly.
proof fn lemma_delays_increase(delays: Seq<u64>)
    requires
        forall|j: int| 0 <= j < delays.len() ==> delays[j] == pow2((j + 1) as nat),
    ensures
        forall|j: int, k: int| 0 <= j < k < delays.len() ==> delays[j] < delays[k],
{
    assert forall|j: int, k: int| 0 <= j < k < delays.len() implies delays[j] < delays[k] by {
        lemma_pow2_strictly_increases((j + 1) as nat, (k + 1) as nat);
    }
}

/// On the terminal attempt `i`, the attempt count is pinned to `i + 1`.
proof fn finish_trace(events: Seq<FetchEvent>, max_retries: nat, i: int)
    requires
        0 <= i <= max_retries,
        i < events.len(),
        forall|j: int| 0 <= j < i ==> is_retry_event(#[trigger] events[j]),
        i < max_retries ==> !is_retry_event(events[i]),
    ensures
        spec_attempts(events, max_retries) == i + 1,
        spec_outcome(events, max_retries) == event_outcome(events[i]),
{
    if i < max_retries {
        lemma_leading_exact(events, i);
    } else {
        lemma_leading_at_least(events, i);
    }
}

/// When the first `i` events retry and event `i` does not, exactly `i`
/// leading server errors are seen.
proof fn lemma_leading_exact(events: Seq<FetchEvent>, i: int)
    requires
        0 <= i < events.len(),
        forall|j: int| 0 <= j < i ==> is_retry_event(#[trigger] events[j]),
        !is_retry_event(events[i]),
    ensures
        leading_server_errors(events) == i,
    decreases i,
{
    if i == 0 {
    } else {
        assert(is_retry_event(events.first()));
        assert(forall|j: int|
            0 <= j < i - 1 ==> is_retry_event(#[trigger] events.drop_first()[j]));
        assert(events.drop_first()[i - 1] == events[i]);
        lemma_leading_exact(events.drop_first(), i - 1);
    }
}

/// When the first `i` events all retry, at least `i` leading server errors
/// are seen.
proof fn lemma_leading_at_least(events: Seq<FetchEvent>, i: int)
    requires
        0 <= i <= events.len(),
        forall|j: int| 0 <= j < i ==> is_retry_event(#[trigger] events[j]),
    ensures
        leading_server_errors(events) >= i,
    decreases i,
{
    if i <= 0 {
    } else {
        assert(is_retry_event(events.first()));
        assert(forall|j: int|
            0 <= j < i - 1 ==> is_retry_event(#[trigger] events.drop_first()[j]));
        lemma_leading_at_least(events.drop_first(), i - 1);
    }
}

/// Law: against an endpoint that answers every attempt with a server error,
/// a fetch is attempted exactly `max_retries + 1` times and then fails with
/// the server error status of the final attempt.
pub proof fn lemma_retry_bound(events: Seq<FetchEvent>, max_retries: nat)
    requires
        events.len() > max_retries,
        forall|j: int| 0 <= j < events.len() ==> is_retry_event(#[trigger] events[j]),
    ensures
        spec_attempts(events, max_retries) == max_retries + 1,
        spec_outcome(events, max_retries) matches Err(e) && (e matches FetchError::Status(s)
            && is_server_error(s)),
{
    lemma_leading_at_least(events, max_retries as int + 1);
}

/// Law: a fetch whose first response is a client error fails on the first
/// attempt, with that status; no retry is taken.
pub proof fn lemma_no_retry_on_client_error(
    events: Seq<FetchEvent>,
    max_retries: nat,
    status: u16,
    body: Vec<u8>,
)
    requires
        events.len() >= 1,
        events[0] == (FetchEvent::Response { status, body }),
        is_client_error(status),
    ensures
        spec_attempts(events, max_retries) == 1,
        spec_outcome(events, max_retries) == Err::<Seq<u8>, FetchError>(FetchError::Status(status)),
{
    assert(!is_retry_event(events[0]));
}

/// Law: a transport-level failure on the first attempt fails the fetch at
/// once; backoff is never tried.
pub proof fn lemma_no_retry_on_transport(events: Seq<FetchEvent>, max_retries: nat)
    requires
        events.len() >= 1,
        events[0] == FetchEvent::Transport,
    ensures
        spec_attempts(events, max_retries) == 1,
        spec_outcome(events, max_retries) == Err::<Seq<u8>, FetchError>(FetchError::Transport),
{
    assert(!is_retry_event(events[0]));
}

} // verus!
