use smart_thermostat::lockout::{
    account_lock, escalate_lockout, failures_trigger_lockout, lockout_seconds, may_clear_lockouts,
    next_lock_count, session_lock, AccountLock, LockoutError, SessionLock, MAX_ATTEMPTS,
};

const NOW: i64 = 1_700_000_000_000_000_000; // 2023-11-14T22:13:20Z

#[test]
fn lockout_triggers_at_max_attempts() {
    assert_eq!(MAX_ATTEMPTS, 5);
    assert!(!failures_trigger_lockout(4));
    assert!(failures_trigger_lockout(5));
    assert!(failures_trigger_lockout(9));
}

#[test]
fn lockout_lengths_double_up_to_cap() {
    let secs: Vec<i64> = (1..=10).map(lockout_seconds).collect();
    assert_eq!(secs, vec![30, 60, 120, 240, 300, 300, 300, 300, 300, 300]);
}

#[test]
fn lock_counter_escalates_and_caps() {
    assert_eq!(next_lock_count(None), 1);
    assert_eq!(next_lock_count(Some(1)), 2);
    assert_eq!(next_lock_count(Some(9)), 10);
    assert_eq!(next_lock_count(Some(10)), 10);
    assert_eq!(next_lock_count(Some(500)), 10);
    assert_eq!(escalate_lockout(None), (1, 30));
    assert_eq!(escalate_lockout(Some(3)), (4, 240));
    assert_eq!(escalate_lockout(Some(10)), (10, 300));
}

#[test]
fn repeated_lockouts_reach_the_cap() {
    let mut prev = None;
    let mut seen = Vec::new();
    for _ in 0..12 {
        let (n, s) = escalate_lockout(prev);
        seen.push(s);
        prev = Some(n);
    }
    assert_eq!(seen[0], 30);
    assert!(seen.windows(2).all(|w| w[0] <= w[1]));
    assert_eq!(*seen.last().unwrap(), 300);
}

#[test]
fn account_lock_against_now() {
    assert_eq!(account_lock(None, NOW), Ok(AccountLock::NotLocked));
    assert_eq!(account_lock(Some("2023-11-14T22:14:20+00:00"), NOW), Ok(AccountLock::Locked(60)));
    assert_eq!(account_lock(Some("2023-11-14T17:14:20.5-05:00"), NOW), Ok(AccountLock::Locked(60)));
    assert_eq!(account_lock(Some("2023-11-14T22:13:20+00:00"), NOW), Ok(AccountLock::Expired));
    assert_eq!(account_lock(Some("2023-11-14T22:00:00+00:00"), NOW), Ok(AccountLock::Expired));
    assert_eq!(account_lock(Some("tomorrow"), NOW), Err(LockoutError::BadTimestamp));
}

#[test]
fn lock_times_beyond_nanosecond_range_compare_normally() {
    assert_eq!(account_lock(Some("9999-12-31T23:59:59Z"), NOW), Ok(AccountLock::Locked(251_702_300_799)));
    assert_eq!(account_lock(Some("1500-01-01T00:00:00Z"), NOW), Ok(AccountLock::Expired));
    assert_eq!(session_lock(Some((0, 1, Some("2300-01-01T00:00:00Z"))), NOW), Ok(SessionLock::StillLocked(10_413_792_000 - 1_700_000_000)));
}

#[test]
fn session_lock_cases() {
    assert_eq!(session_lock(None, NOW), Ok(SessionLock::Pass));
    assert_eq!(session_lock(Some((4, 0, None)), NOW), Ok(SessionLock::Pass));
    assert_eq!(session_lock(Some((5, 0, None)), NOW), Ok(SessionLock::LockNow));
    assert_eq!(session_lock(Some((0, 1, Some("2023-11-14T22:13:50Z"))), NOW), Ok(SessionLock::StillLocked(30)));
    assert_eq!(session_lock(Some((9, 1, Some("2023-11-14T22:13:00Z"))), NOW), Ok(SessionLock::ClearExpired));
    assert_eq!(session_lock(Some((9, 1, None)), NOW), Ok(SessionLock::ClearExpired));
    assert_eq!(session_lock(Some((9, 1, Some("garbage"))), NOW), Err(LockoutError::BadTimestamp));
}

#[test]
fn only_admin_clears_lockouts() {
    assert!(may_clear_lockouts("admin"));
    assert!(!may_clear_lockouts("Admin"));
    assert!(!may_clear_lockouts("homeowner"));
}
