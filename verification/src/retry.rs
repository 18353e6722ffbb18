use vstd::arithmetic::div_mod::lemma_div_is_ordered;
use vstd::arithmetic::mul::{lemma_mul_inequality, lemma_mul_upper_bound};
use vstd::prelude::*;

use crate::digits::{is_digit_seq, parse_u64, undecimal};
use crate::error::DownloadError;

verus! {

/// Ceiling on the configurable maximum delay, so that the jitter arithmetic
/// (a multiplier of at most 2000 per-mille) stays within `u64`.
pub const DELAY_CAP_MS: u64 = 9_000_000_000_000_000;

/// Exponential-backoff-with-jitter policy, constructed once per run and shared
/// read-only by every task. All delays are in milliseconds; the jitter is a
/// symmetric band around the nominal delay, in thousandths.
#[derive(Debug)]
pub struct RetryPolicy {
    pub min_delay_ms: u64,
    pub max_delay_ms: u64,
    pub base: u64,
    pub jitter_permille: u64,
    pub max_attempts: u64,
}

impl RetryPolicy {
    pub open spec fn wf(self) -> bool {
        &&& 1 <= self.min_delay_ms
        &&& self.min_delay_ms <= self.max_delay_ms
        &&& self.max_delay_ms <= DELAY_CAP_MS
        &&& 2 <= self.base
        &&& self.jitter_permille <= 1000
    }
}

/// The stock policy of the operator interface: first retry after one
/// second, doubling up to one hour, with a bounded symmetric jitter of half
/// the nominal delay.
pub fn default_retry_policy(max_retries: u64) -> (p: RetryPolicy)
    ensures
        p.wf(),
        p.min_delay_ms == 1000,
        p.max_delay_ms == 3_600_000,
        p.base == 2,
        p.jitter_permille == 500,
        p.max_attempts == max_retries,
{
    RetryPolicy {
        min_delay_ms: 1000,
        max_delay_ms: 3_600_000,
        base: 2,
        jitter_permille: 500,
        max_attempts: max_retries,
    }
}

/// The nominal (jitter-free) delay before retrying after `attempt` failed
/// tries: the minimum delay grown by one factor of `base` per further try,
/// clamped at the maximum delay.
pub open spec fn nominal_delay_ms(p: RetryPolicy, attempt: nat) -> nat
    recommends
        p.wf(),
        1 <= attempt,
    decreases attempt,
{
    if attempt <= 1 {
        p.min_delay_ms as nat
    } else {
        let prev = nominal_delay_ms(p, (attempt - 1) as nat);
        if prev * p.base > p.max_delay_ms {
            p.max_delay_ms as nat
        } else {
            prev * (p.base as nat)
        }
    }
}

/// The nominal delay stays within the configured bounds.
pub proof fn lemma_nominal_delay_bounds(p: RetryPolicy, attempt: nat)
    requires
        p.wf(),
        1 <= attempt,
    ensures
        p.min_delay_ms <= nominal_delay_ms(p, attempt) <= p.max_delay_ms,
    decreases attempt,
{
    if attempt > 1 {
        lemma_nominal_delay_bounds(p, (attempt - 1) as nat);
        let prev = nominal_delay_ms(p, (attempt - 1) as nat);
        assert(prev <= prev * p.base) by {
            lemma_mul_inequality(1, p.base as int, prev as int);
        }
    }
}

/// Until it is clamped at the maximum delay, the nominal delay never
/// decreases from one attempt to the next; once clamped it stays clamped.
pub proof fn lemma_nominal_delay_nondecreasing(p: RetryPolicy, attempt: nat)
    requires
        p.wf(),
        1 <= attempt,
    ensures
        nominal_delay_ms(p, attempt) <= nominal_delay_ms(p, attempt + 1),
        nominal_delay_ms(p, attempt) == p.max_delay_ms ==> nominal_delay_ms(p, attempt + 1)
            == p.max_delay_ms,
{
    lemma_nominal_delay_bounds(p, attempt);
    let prev = nominal_delay_ms(p, attempt);
    assert(prev <= prev * p.base) by {
        lemma_mul_inequality(1, p.base as int, prev as int);
    }
}

/// The delay actually waited: the nominal delay scaled by a multiplier drawn
/// from the jitter band `[1000 - jitter, 1000 + jitter]` per-mille. `draw` is
/// the caller's random offset into the band, in `[0, 2 * jitter]`.
pub open spec fn jittered_delay_ms(p: RetryPolicy, attempt: nat, draw: nat) -> nat
    recommends
        p.wf(),
        1 <= attempt,
        draw <= 2 * p.jitter_permille,
{
    (nominal_delay_ms(p, attempt) * ((1000 - p.jitter_permille + draw) as nat)) / 1000
}

/// Whatever the draw, the jittered delay lies inside the jitter band around
/// the nominal delay.
pub proof fn lemma_jittered_delay_in_band(p: RetryPolicy, attempt: nat, draw: nat)
    requires
        p.wf(),
        1 <= attempt,
        draw <= 2 * p.jitter_permille,
    ensures
        nominal_delay_ms(p, attempt) * ((1000 - p.jitter_permille) as nat) / 1000
            <= jittered_delay_ms(p, attempt, draw),
        jittered_delay_ms(p, attempt, draw) <= nominal_delay_ms(p, attempt) * ((1000
            + p.jitter_permille) as nat) / 1000,
{
    let nom = nominal_delay_ms(p, attempt) as int;
    let lo = (1000 - p.jitter_permille) as int;
    let mid = (1000 - p.jitter_permille + draw) as int;
    let hi = (1000 + p.jitter_permille) as int;
    lemma_nominal_delay_bounds(p, attempt);
    assert(nom * lo <= nom * mid && nom * mid <= nom * hi) by {
        lemma_mul_inequality(lo, mid, nom);
        lemma_mul_inequality(mid, hi, nom);
    }
    lemma_div_is_ordered(nom * lo, nom * mid, 1000);
    lemma_div_is_ordered(nom * mid, nom * hi, 1000);
}

/// Computes the nominal delay for `attempt` failed tries.
fn nominal_delay_exec(p: &RetryPolicy, attempt: u64) -> (r: u64)
    requires
        p.wf(),
        1 <= attempt,
    ensures
        r == nominal_delay_ms(*p, attempt as nat),
{
    let mut d: u64 = p.min_delay_ms;
    let mut k: u64 = 1;
    while k < attempt
        invariant
            p.wf(),
            1 <= k <= attempt,
            d == nominal_delay_ms(*p, k as nat),
            d <= p.max_delay_ms,
        decreases attempt - k,
    {
        d = match d.checked_mul(p.base) {
            Some(nd) => if nd > p.max_delay_ms {
                p.max_delay_ms
            } else {
                nd
            },
            None => p.max_delay_ms,
        };
        k = k + 1;
    }
    d
}

/// The delay to wait before the retry that follows `attempt` failed tries,
/// for the caller's jitter draw.
pub fn backoff_delay_ms(p: &RetryPolicy, attempt: u64, draw: u64) -> (r: u64)
    requires
        p.wf(),
        1 <= attempt,
        draw <= 2 * p.jitter_permille,
    ensures
        r == jittered_delay_ms(*p, attempt as nat, draw as nat),
{
    let nom = nominal_delay_exec(p, attempt);
    proof {
        lemma_nominal_delay_bounds(*p, attempt as nat);
        lemma_mul_upper_bound(nom as int, DELAY_CAP_MS as int, (1000 - p.jitter_permille
            + draw) as int, 2000);
    }
    let m: u64 = 1000 - p.jitter_permille + draw;
    (nom * m) / 1000
}

/// What one try of a probe or fetch came to, as the transport reports it.
#[derive(Debug)]
pub enum AttemptClass {
    /// The response was a success status.
    Success,
    /// A transient failure: a connection or timeout error, or a retry-eligible
    /// status; carries the transport's description of it.
    Transient(String),
    /// A permanent failure status; retrying cannot help.
    Permanent(u16),
}

/// What the task should do next after a classified try.
#[derive(Debug)]
pub enum NextAction {
    /// The try succeeded; go on with the response.
    Proceed,
    /// Wait this many milliseconds, then try again.
    RetryAfter(u64),
    /// Give the task up with this error.
    Fail(DownloadError),
}

/// True of the statuses worth retrying: server errors, request timeout and
/// rate limiting.
pub open spec fn spec_is_transient_status(code: u16) -> bool {
    code == 408 || code == 429 || (500 <= code < 600)
}

pub fn is_transient_status(code: u16) -> (r: bool)
    ensures
        r <==> spec_is_transient_status(code),
{
    code == 408 || code == 429 || (500 <= code && code < 600)
}

/// True of the success statuses.
pub open spec fn spec_is_success_status(code: u16) -> bool {
    200 <= code < 300
}

pub fn is_success_status(code: u16) -> (r: bool)
    ensures
        r <==> spec_is_success_status(code),
{
    200 <= code && code < 300
}

/// Decides a task's next step after its try number `attempt` came to `class`:
/// success proceeds; a permanent failure fails at once, spending no retry
/// budget; a transient failure retries after a backoff delay while budget is
/// left, and otherwise fails with the budget exhausted and the last error.
pub fn attempt_decision(p: &RetryPolicy, attempt: u64, class: AttemptClass, draw: u64) -> (r:
    NextAction)
    requires
        p.wf(),
        1 <= attempt,
        draw <= 2 * p.jitter_permille,
    ensures
        class is Success ==> r is Proceed,
        (class matches AttemptClass::Permanent(c) ==> r == NextAction::Fail(
            DownloadError::FetchStatus(c),
        )),
        (class matches AttemptClass::Transient(d) ==> {
            &&& attempt <= p.max_attempts ==> r == NextAction::RetryAfter(
                jittered_delay_ms(*p, attempt as nat, draw as nat) as u64,
            )
            &&& attempt > p.max_attempts ==> r == NextAction::Fail(
                (DownloadError::FetchExhausted { attempts: attempt, last: d }),
            )
        }),
{
    match class {
        AttemptClass::Success => NextAction::Proceed,
        AttemptClass::Permanent(c) => NextAction::Fail(DownloadError::FetchStatus(c)),
        AttemptClass::Transient(d) => {
            if attempt <= p.max_attempts {
                NextAction::RetryAfter(backoff_delay_ms(p, attempt, draw))
            } else {
                NextAction::Fail(DownloadError::FetchExhausted { attempts: attempt, last: d })
            }
        },
    }
}

/// The content length a metadata probe declared: the header's decimal value
/// where it is present and well-formed, and zero where it is absent or
/// malformed.
pub fn declared_size(header: Option<&str>) -> (r: u64)
    ensures
        header is None ==> r == 0,
        (header matches Some(s) ==> {
            &&& is_digit_seq(s@) && undecimal(s@) <= u64::MAX ==> r == undecimal(s@)
            &&& !(is_digit_seq(s@) && undecimal(s@) <= u64::MAX) ==> r == 0
        }),
{
    match header {
        None => 0,
        Some(s) => match parse_u64(s) {
            Some(v) => v,
            None => 0,
        },
    }
}

} // verus!
