//! Account lockouts and session lockouts: when repeated failures lock an
//! account, how long each successive lockout lasts, and how a stored lock
//! is judged against the current time.
use vstd::prelude::*;
use vstd::arithmetic::power2::{pow2, lemma_pow2_unfold};

verus! {

/// Failed attempts, within the counting window, that trigger a lockout.
pub const MAX_ATTEMPTS: usize = 5;

/// Length in seconds of the first lockout.
pub const LOCKOUT_SECONDS_BASE: i64 = 30;

/// Cap on the length in seconds of any lockout.
pub const MAX_LOCKOUT_SECONDS: i64 = 300;

/// Cap on the stored lockout counter.
pub const MAX_LOCK_COUNT: i64 = 10;

/// Nanoseconds in one second.
pub const NANOS_PER_SECOND: i64 = 1_000_000_000;

/// The instant that `chrono::DateTime::parse_from_rfc3339` reads from `text`, in nanoseconds
/// since the Unix epoch (`timestamp() * 10^9 + timestamp_subsec_nanos()`); `None` where the
/// text is not RFC 3339.
pub uninterp spec fn rfc3339_nanos(text: Seq<char>) -> Option<int>;

/// Parses an RFC 3339 timestamp with `chrono::DateTime::parse_from_rfc3339` and returns its
/// whole seconds (`timestamp`) and nanoseconds (`timestamp_subsec_nanos`, below 2·10^9 with a
/// leap second). The result is named by `rfc3339_nanos`. RFC 3339 years have four digits,
/// so the seconds lie within ±10^13 (year 0000 to 9999, with an offset of under a day).
#[verifier::external_body]
fn parse_rfc3339_instant(text: &str) -> (r: Option<(i64, u32)>)
    ensures
        r matches Some((s, n)) ==> rfc3339_nanos(text@) == Some(s * NANOS_PER_SECOND + n)
            && -10_000_000_000_000 < s < 10_000_000_000_000 && n < 2_000_000_000,
        r is None ==> rfc3339_nanos(text@) is None,
{
    match chrono::DateTime::parse_from_rfc3339(text) {
        Ok(t) => Some((t.timestamp(), t.timestamp_subsec_nanos())),
        Err(_) => None,
    }
}

/// A stored timestamp that does not parse.
#[derive(Debug, Clone, Copy, PartialEq, Eq)]
pub enum LockoutError {
    /// The stored `locked_until` is not an RFC 3339 timestamp.
    BadTimestamp,
}

/// Whether the failures counted since the last success reach the lockout threshold.
pub open spec fn failures_trigger_lockout_spec(recent_failures: i64) -> bool {
    recent_failures >= MAX_ATTEMPTS as i64
}

/// Decides whether a failed login locks the account.
pub fn failures_trigger_lockout(recent_failures: i64) -> (r: bool)
    ensures
        r == failures_trigger_lockout_spec(recent_failures),
{
    recent_failures >= MAX_ATTEMPTS as i64
}

/// The lockout counter after one more lockout: 1 for a first lockout,
/// else one more than before, capped at `MAX_LOCK_COUNT`.
pub open spec fn next_lock_count_spec(prev: Option<i64>) -> i64 {
    match prev {
        None => 1,
        Some(c) => if c + 1 < MAX_LOCK_COUNT { (c + 1) as i64 } else { MAX_LOCK_COUNT },
    }
}

/// Computes the next lockout counter from the stored one.
pub fn next_lock_count(prev: Option<i64>) -> (n: i64)
    requires
        prev matches Some(c) ==> 0 <= c < i64::MAX,
    ensures
        n == next_lock_count_spec(prev),
        1 <= n <= MAX_LOCK_COUNT,
{
    match prev {
        None => 1,
        Some(c) => {
            let d = c + 1;
            if d < MAX_LOCK_COUNT { d } else { MAX_LOCK_COUNT }
        },
    }
}

/// Length in seconds of the `count`-th lockout: the base doubled `count - 1` times,
/// capped at `MAX_LOCKOUT_SECONDS`.
pub open spec fn lockout_seconds_spec(count: i64) -> int {
    let raw = LOCKOUT_SECONDS_BASE * pow2((count - 1) as nat);
    if raw < MAX_LOCKOUT_SECONDS { raw } else { MAX_LOCKOUT_SECONDS as int }
}

/// Computes the length in seconds of the `count`-th lockout.
pub fn lockout_seconds(count: i64) -> (s: i64)
    requires
        1 <= count <= MAX_LOCK_COUNT,
    ensures
        s == lockout_seconds_spec(count),
{
    let mut p: i64 = 1;
    let mut k: i64 = 0;
    proof {
        vstd::arithmetic::power2::lemma2_to64();
    }
    while k < count - 1
        invariant
            1 <= count <= MAX_LOCK_COUNT,
            0 <= k <= count - 1,
            p == pow2(k as nat),
            p <= 512,
        decreases count - 1 - k,
    {
        proof {
            lemma_pow2_unfold((k + 1) as nat);
            vstd::arithmetic::power2::lemma2_to64();
        }
        p = p * 2;
        k = k + 1;
    }
    let raw = LOCKOUT_SECONDS_BASE * p;
    if raw < MAX_LOCKOUT_SECONDS { raw } else { MAX_LOCKOUT_SECONDS }
}

/// The counter and length of the lockout applied after the threshold is reached.
pub fn escalate_lockout(prev: Option<i64>) -> (r: (i64, i64))
    requires
        prev matches Some(c) ==> 0 <= c < i64::MAX,
    ensures
        r.0 == next_lock_count_spec(prev),
        r.1 == lockout_seconds_spec(r.0),
{
    let n = next_lock_count(prev);
    (n, lockout_seconds(n))
}

/// Every lockout lasts at least the base length and at most the cap.
pub proof fn lemma_lockout_seconds_bounds(count: i64)
    requires
        1 <= count <= MAX_LOCK_COUNT,
    ensures
        LOCKOUT_SECONDS_BASE <= lockout_seconds_spec(count) <= MAX_LOCKOUT_SECONDS,
{
    vstd::arithmetic::power2::lemma_pow2_pos((count - 1) as nat);
}

/// Each further lockout lasts twice as long as the one before, until the cap.
pub proof fn lemma_lockout_seconds_doubles(count: i64)
    requires
        1 <= count < MAX_LOCK_COUNT,
    ensures
        lockout_seconds_spec((count + 1) as i64) == (if 2 * lockout_seconds_spec(count) < MAX_LOCKOUT_SECONDS {
            2 * lockout_seconds_spec(count)
        } else {
            MAX_LOCKOUT_SECONDS as int
        }),
{
    lemma_pow2_unfold(count as nat);
    vstd::arithmetic::power2::lemma_pow2_pos((count - 1) as nat);
}

/// Lockouts never get shorter as the counter grows.
pub proof fn lemma_lockout_seconds_monotone(a: i64, b: i64)
    requires
        1 <= a <= b <= MAX_LOCK_COUNT,
    ensures
        lockout_seconds_spec(a) <= lockout_seconds_spec(b),
    decreases b - a,
{
    if a < b {
        lemma_lockout_seconds_monotone(a, (b - 1) as i64);
        lemma_lockout_seconds_doubles((b - 1) as i64);
        lemma_lockout_seconds_bounds((b - 1) as i64);
    }
}

/// The counter stays within `1..=MAX_LOCK_COUNT` however many lockouts follow.
pub proof fn lemma_lock_count_bounded(prev: Option<i64>)
    requires
        prev matches Some(c) ==> 0 <= c < i64::MAX,
    ensures
        1 <= next_lock_count_spec(prev) <= MAX_LOCK_COUNT,
        prev matches Some(c) ==> (0 <= c < MAX_LOCK_COUNT ==> next_lock_count_spec(prev) == c + 1),
{
}

/// How a stored account lock stands at a given moment.
#[derive(Debug, Clone, Copy, PartialEq, Eq)]
pub enum AccountLock {
    /// No lock is stored.
    NotLocked,
    /// The lock is still running for this many whole seconds.
    Locked(i64),
    /// The lock has run out and is to be removed.
    Expired,
}

/// A stored lock holds while the current instant is before its end.
pub open spec fn account_lock_spec(locked_until: Option<Seq<char>>, now: i64) -> Result<AccountLock, LockoutError> {
    match locked_until {
        None => Ok(AccountLock::NotLocked),
        Some(text) => match rfc3339_nanos(text) {
            None => Err(LockoutError::BadTimestamp),
            Some(until) => if (now as int) < until {
                Ok(AccountLock::Locked(((until - now) / (NANOS_PER_SECOND as int)) as i64))
            } else {
                Ok(AccountLock::Expired)
            },
        },
    }
}

/// Judges the stored `locked_until` of an account at the instant `now`
/// (nanoseconds since the Unix epoch).
pub fn account_lock(locked_until: Option<&str>, now: i64) -> (r: Result<AccountLock, LockoutError>)
    ensures
        r == account_lock_spec(match locked_until { None => None, Some(t) => Some(t@) }, now),
{
    match locked_until {
        None => Ok(AccountLock::NotLocked),
        Some(text) => match parse_rfc3339_instant(text) {
            None => Err(LockoutError::BadTimestamp),
            Some((s, n)) => {
                let until: i128 = (s as i128) * (NANOS_PER_SECOND as i128) + (n as i128);
                if (now as i128) < until {
                    let diff: i128 = until - (now as i128);
                    let secs: i128 = diff / (NANOS_PER_SECOND as i128);
                    assert(secs <= i64::MAX) by (nonlinear_arith)
                        requires
                            diff <= 10_000_000_000_000 * 1_000_000_000 + 2_000_000_000 + 0x8000_0000_0000_0000,
                            diff > 0,
                            secs == diff / 1_000_000_000,
                    ;
                    Ok(AccountLock::Locked(secs as i64))
                } else {
                    Ok(AccountLock::Expired)
                }
            },
        },
    }
}

/// What a session lockout check asks to be done.
#[derive(Debug, Clone, Copy, PartialEq, Eq)]
pub enum SessionLock {
    /// Nothing is locked and the failures are below the threshold.
    Pass,
    /// The session is locked for this many more whole seconds.
    StillLocked(i64),
    /// The lock has run out: clear it and let the attempt through.
    ClearExpired,
    /// Too many failures: lock the session now.
    LockNow,
}

/// A session row `(failed_attempts, is_locked, locked_until)`: a running lock holds, a
/// finished one is cleared, and enough failures lock the session.
pub open spec fn session_lock_spec(row: Option<(i64, i64, Option<Seq<char>>)>, now: i64) -> Result<SessionLock, LockoutError> {
    match row {
        None => Ok(SessionLock::Pass),
        Some((fails, locked, until)) => if locked == 1 {
            match until {
                Some(text) => match rfc3339_nanos(text) {
                    None => Err(LockoutError::BadTimestamp),
                    Some(u) => if (now as int) < u {
                        Ok(SessionLock::StillLocked(((u - now) / (NANOS_PER_SECOND as int)) as i64))
                    } else {
                        Ok(SessionLock::ClearExpired)
                    },
                },
                None => Ok(SessionLock::ClearExpired),
            }
        } else if fails >= MAX_ATTEMPTS as i64 {
            Ok(SessionLock::LockNow)
        } else {
            Ok(SessionLock::Pass)
        },
    }
}

/// Judges a session-state row at the instant `now` (nanoseconds since the Unix epoch).
pub fn session_lock(row: Option<(i64, i64, Option<&str>)>, now: i64) -> (r: Result<SessionLock, LockoutError>)
    ensures
        r == session_lock_spec(match row {
            None => None,
            Some((f, l, u)) => Some((f, l, match u { None => None, Some(t) => Some(t@) })),
        }, now),
{
    match row {
        None => Ok(SessionLock::Pass),
        Some((fails, locked, until)) => {
            if locked == 1 {
                match account_lock(until, now) {
                    Err(e) => Err(e),
                    Ok(AccountLock::Locked(s)) => Ok(SessionLock::StillLocked(s)),
                    Ok(_) => Ok(SessionLock::ClearExpired),
                }
            } else if fails >= MAX_ATTEMPTS as i64 {
                Ok(SessionLock::LockNow)
            } else {
                Ok(SessionLock::Pass)
            }
        },
    }
}

/// Only the admin role may list or clear account lockouts.
pub fn may_clear_lockouts(current_role: &str) -> (r: bool)
    ensures
        r == (current_role@ == "admin"@),
{
    crate::text::str_eq(current_role, "admin")
}

} // verus!
