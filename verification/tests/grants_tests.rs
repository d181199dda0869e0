use smart_thermostat::grants::{
    access_minutes_is_valid, access_transition, check_grant_parties, confirms_yes, guest_manager,
    permission, pick_listed, sanitize_job_description, sweep_transition, validate_grant_request,
    GrantError, GuestManager, JobAccess, JobStatus, Permission, ReadStep, RequestReader,
};

#[test]
fn access_windows() {
    for m in [30, 60, 90, 120] {
        assert!(access_minutes_is_valid(m));
    }
    for m in [0, 15, 45, 121, -30] {
        assert!(!access_minutes_is_valid(m));
    }
}

#[test]
fn sanitize_collapses_and_strips() {
    assert_eq!(sanitize_job_description("  Thermostat \t not\n\ncooling   properly.  "), "Thermostat notcooling properly.");
    assert_eq!(sanitize_job_description("a\u{7}b c"), "ab c");
    assert_eq!(sanitize_job_description("\u{a0}x\u{3000}y\u{a0}"), "x y");
    assert_eq!(sanitize_job_description("   "), "");
}

#[test]
fn grant_request_validation() {
    assert_eq!(validate_grant_request(60, "Thermostat not cooling properly."), Ok("Thermostat not cooling properly.".to_string()));
    assert_eq!(validate_grant_request(45, "Thermostat not cooling properly."), Err(GrantError::InvalidAccessTime));
    assert_eq!(validate_grant_request(30, " \n "), Err(GrantError::EmptyDescription));
    assert_eq!(validate_grant_request(30, "too short"), Err(GrantError::DescriptionLength(9)));
    let long = "x".repeat(201);
    assert_eq!(validate_grant_request(120, &long), Err(GrantError::DescriptionLength(201)));
    let exact = "y".repeat(200);
    assert_eq!(validate_grant_request(120, &exact), Ok(exact.clone()));
    assert_eq!(validate_grant_request(90, "Fix   AC  unit   please now"), Ok("Fix AC unit please now".to_string()));
}

#[test]
fn grant_parties() {
    assert_eq!(check_grant_parties(("homeowner", 1), ("technician", 1)), Ok(()));
    assert_eq!(check_grant_parties(("homeowner", 0), ("technician", 1)), Err(GrantError::InvalidHomeowner));
    assert_eq!(check_grant_parties(("guest", 1), ("technician", 1)), Err(GrantError::InvalidHomeowner));
    assert_eq!(check_grant_parties(("homeowner", 1), ("admin", 1)), Err(GrantError::InvalidTechnician));
}

#[test]
fn job_status_text_roundtrip() {
    for s in [JobStatus::AccessGranted, JobStatus::TechAccess, JobStatus::AccessExpired] {
        assert_eq!(JobStatus::parse(s.as_str()), Some(s));
    }
    assert_eq!(JobStatus::parse("ASSIGNED"), None);
    assert_eq!(JobStatus::AccessGranted.as_str(), "ACCESS_GRANTED");
}

#[test]
fn job_transitions() {
    assert_eq!(access_transition(JobStatus::AccessGranted, false), (JobStatus::TechAccess, JobAccess::Claimed));
    assert_eq!(access_transition(JobStatus::TechAccess, false), (JobStatus::TechAccess, JobAccess::Claimed));
    assert_eq!(access_transition(JobStatus::AccessGranted, true), (JobStatus::AccessExpired, JobAccess::Expired));
    assert_eq!(access_transition(JobStatus::TechAccess, true), (JobStatus::AccessExpired, JobAccess::Expired));
    assert_eq!(access_transition(JobStatus::AccessExpired, false), (JobStatus::AccessExpired, JobAccess::Unavailable));
    assert_eq!(sweep_transition(JobStatus::AccessGranted, true), JobStatus::AccessExpired);
    assert_eq!(sweep_transition(JobStatus::TechAccess, false), JobStatus::TechAccess);
    assert_eq!(sweep_transition(JobStatus::AccessExpired, false), JobStatus::AccessExpired);
}

#[test]
fn permission_rule() {
    let ho = Some(("homeowner", 1));
    assert_eq!(permission(None, Some(("admin", 1)), "root", "alice"), Permission::Deny);
    assert_eq!(permission(Some(("homeowner", 0)), Some(("admin", 1)), "root", "alice"), Permission::Deny);
    assert_eq!(permission(Some(("technician", 1)), Some(("admin", 1)), "root", "bob"), Permission::Deny);
    assert_eq!(permission(ho, None, "root", "alice"), Permission::Deny);
    assert_eq!(permission(ho, Some(("admin", 0)), "root", "alice"), Permission::Deny);
    assert_eq!(permission(ho, Some(("admin", 1)), "root", "alice"), Permission::Allow);
    assert_eq!(permission(ho, Some(("homeowner", 1)), "ALICE", "alice"), Permission::Allow);
    assert_eq!(permission(ho, Some(("homeowner", 1)), "carol", "alice"), Permission::Deny);
    assert_eq!(permission(ho, Some(("technician", 1)), "bob", "alice"), Permission::NeedsLiveGrant);
    assert_eq!(permission(ho, Some(("guest", 1)), "gus", "alice"), Permission::Deny);
}

#[test]
fn guest_manager_paths() {
    assert_eq!(guest_manager(None), GuestManager::Disabled);
    assert_eq!(guest_manager(Some(("homeowner", 0))), GuestManager::Disabled);
    assert_eq!(guest_manager(Some(("homeowner", 1))), GuestManager::OwnGuests);
    assert_eq!(guest_manager(Some(("technician", 1))), GuestManager::ThroughGrant);
    assert_eq!(guest_manager(Some(("admin", 1))), GuestManager::NotAllowed);
    assert_eq!(guest_manager(Some(("guest", 1))), GuestManager::NotAllowed);
}

#[test]
fn list_picks() {
    assert_eq!(pick_listed(Some(1), 3), Some(0));
    assert_eq!(pick_listed(Some(3), 3), Some(2));
    assert_eq!(pick_listed(Some(4), 3), None);
    assert_eq!(pick_listed(None, 3), None);
    assert_eq!(pick_listed(Some(0), 3), None);
}

#[test]
fn yes_confirmation() {
    assert!(confirms_yes("yes"));
    assert!(confirms_yes("  YES\n"));
    assert!(!confirms_yes("y"));
    assert!(!confirms_yes("yes please"));
}

#[test]
fn request_reader_joins_lines() {
    let mut r = RequestReader::new();
    assert_eq!(r.feed("\n"), ReadStep::Prompt);
    assert_eq!(r.feed("AC is\r\n"), ReadStep::Continue);
    assert_eq!(r.feed("blowing warm air\n"), ReadStep::Done);
    assert_eq!(r.finish(), Ok("AC is blowing warm air".to_string()));

    let mut short = RequestReader::new();
    assert_eq!(short.feed("broken\n"), ReadStep::Continue);
    assert_eq!(short.feed("\n"), ReadStep::Done);
    assert_eq!(short.finish(), Err(6));
}
