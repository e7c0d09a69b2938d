//! Reconnection policy of the compositor event supervisor: after each lost or failed
//! connection it waits with exponential backoff before the next attempt.
use vstd::prelude::*;

verus! {

/// The longest wait between reconnection attempts, in milliseconds.
pub const MAX_BACKOFF_MILLIS: u64 = 30000;

/// `2^k`.
pub open spec fn two_pow(k: nat) -> nat
    decreases k,
{
    if k == 0 {
        1
    } else {
        2 * two_pow((k - 1) as nat)
    }
}

/// The wait before reconnection attempt `attempt`: 100 ms doubled once per attempt
/// (attempt 1 waits 200 ms, 2 waits 400 ms, 3 waits 800 ms, ...), and from the seventh
/// attempt on the maximum, [`MAX_BACKOFF_MILLIS`].
pub open spec fn backoff_spec(attempt: u32) -> nat {
    if attempt < 7 {
        100 * two_pow(attempt as nat)
    } else {
        MAX_BACKOFF_MILLIS as nat
    }
}

/// The wait, in milliseconds, before reconnection attempt `attempt`.
pub fn backoff(attempt: u32) -> (r: u64)
    ensures
        r == backoff_spec(attempt),
{
    if attempt >= 7 {
        return MAX_BACKOFF_MILLIS;
    }
    let mut p: u64 = 1;
    let mut i: u32 = 0;
    while i < attempt
        invariant
            i <= attempt < 7,
            p == two_pow(i as nat),
            p <= 64,
        decreases attempt - i,
    {
        proof {
            assert(two_pow((i + 1) as nat) == 2 * two_pow(i as nat));
            lemma_two_pow_bound((i + 1) as nat);
        }
        p = p * 2;
        i += 1;
    }
    100 * p
}

proof fn lemma_two_pow_bound(k: nat)
    requires
        k <= 6,
    ensures
        two_pow(k) <= 64,
    decreases 6 - k,
{
    if k < 6 {
        lemma_two_pow_bound(k + 1);
        assert(two_pow(k + 1) == 2 * two_pow(k));
    } else {
        reveal_with_fuel(two_pow, 7);
        assert(two_pow(6) == 64);
    }
}

proof fn lemma_two_pow_grows(k: nat)
    ensures
        two_pow(k) < two_pow(k + 1),
        two_pow(k) >= 1,
    decreases k,
{
    if k > 0 {
        lemma_two_pow_grows((k - 1) as nat);
    }
}

/// The wait never exceeds the maximum, grows strictly with each attempt up to the
/// seventh, and stays at the maximum from then on.
pub proof fn lemma_backoff_bounded_and_growing(a: u32, b: u32)
    requires
        a < b,
    ensures
        backoff_spec(b) <= MAX_BACKOFF_MILLIS,
        b <= 7 ==> backoff_spec(a) < backoff_spec(b),
        7 <= a ==> backoff_spec(a) == backoff_spec(b),
    decreases b - a,
{
    if b < 7 {
        lemma_two_pow_bound(b as nat);
    }
    if b <= 7 {
        lemma_two_pow_grows(a as nat);
        if b > a + 1 {
            lemma_backoff_bounded_and_growing((a + 1) as u32, b);
        } else if b < 7 {
            assert(two_pow(b as nat) == 2 * two_pow(a as nat));
        } else {
            lemma_two_pow_bound(a as nat);
        }
    }
}

/// What the supervisor does after a connection ended or could not be made.
#[derive(Debug, Clone, Copy, PartialEq, Eq, Structural)]
pub struct RetryPlan {
    /// The number of the next attempt, announced as `Reconnecting { attempt }`.
    pub attempt: u32,
    /// How long to wait before it, in milliseconds.
    pub delay_millis: u64,
}

/// The next reconnection after attempt `attempt` (0 right after a connection that
/// succeeded): the count goes up by one, stopping at `u32::MAX`, and the wait is its
/// backoff.
pub fn next_retry(attempt: u32) -> (r: RetryPlan)
    ensures
        r.attempt == if attempt < u32::MAX { attempt + 1 } else { attempt as int },
        r.delay_millis == backoff_spec(r.attempt),
{
    let next = attempt.saturating_add(1);
    RetryPlan { attempt: next, delay_millis: backoff(next) }
}


/// What the supervisor does when a connection it made, or tried to make, is over.
#[derive(Debug, Clone, Copy, PartialEq, Eq, Structural)]
pub struct SessionEnd {
    /// Announce `Disconnected`: a connection was made and its stream has ended.
    pub announce_disconnected: bool,
    /// The next attempt and the wait before it.
    pub plan: RetryPlan,
}

/// The supervisor's decision after attempt `attempt` ended: a connection that was made
/// restarts the count (the next attempt is the first again) and is announced as lost; a
/// failed connection counts one attempt more.
pub fn session_end(attempt: u32, connected: bool) -> (r: SessionEnd)
    ensures
        r.announce_disconnected == connected,
        r.plan.attempt == if connected {
            1
        } else if attempt < u32::MAX {
            attempt + 1
        } else {
            attempt as int
        },
        r.plan.delay_millis == backoff_spec(r.plan.attempt),
{
    let base = if connected {
        0
    } else {
        attempt
    };
    SessionEnd { announce_disconnected: connected, plan: next_retry(base) }
}

} // verus!
