use smart_thermostat::roles::{
    edit_setting, is_cancel, may_perform, menu_for_role, pick_in_range, pick_saturating,
    toggle_event, toggle_status, Action, MenuKind, ToggleRefusal,
};

#[test]
fn guarded_actions() {
    assert!(may_perform("admin", Action::ViewAllUsers));
    assert!(!may_perform("homeowner", Action::ViewAllUsers));
    assert!(may_perform("technician", Action::ViewHvacLog));
    assert!(may_perform("homeowner", Action::RequestTechnician));
    assert!(!may_perform("technician", Action::RequestTechnician));
    assert!(may_perform("technician", Action::UseGrants));
    assert!(!may_perform("guest", Action::UseGrants));
    assert!(!may_perform("guest", Action::ViewHvacLog));
    assert!(!may_perform("admin", Action::ViewSystemStatus));
    assert!(may_perform("technician", Action::ManageProfiles));
    assert!(may_perform("homeowner", Action::ToggleVacation));
    assert!(!may_perform("admin", Action::ToggleVacation));
    for a in [Action::ViewAllUsers, Action::ManageUserStatus, Action::ViewSecurityLog, Action::ClearLockouts,
              Action::ViewHvacLog, Action::ViewSystemStatus, Action::ManageProfiles, Action::ToggleVacation] {
        assert!(!may_perform("guest", a));
    }
}

#[test]
fn admin_toggle() {
    assert_eq!(toggle_status("Root", "root", "homeowner", 1), Err(ToggleRefusal::OwnAccount));
    assert_eq!(toggle_status("root", "other", "admin", 1), Err(ToggleRefusal::OtherAdmin));
    assert_eq!(toggle_status("root", "alice", "homeowner", 1), Ok(0));
    assert_eq!(toggle_status("root", "alice", "homeowner", 0), Ok(1));
    assert_eq!(toggle_status("root", "alice", "guest", 7), Ok(1));
    assert_eq!(toggle_event(1), "ACCOUNT_ENABLED");
    assert_eq!(toggle_event(0), "ACCOUNT_DISABLED");
    assert!(is_cancel("CANCEL"));
    assert!(!is_cancel("cancel "));
}

#[test]
fn profile_edit_keeps_or_replaces() {
    let modes = ["Off", "Heating", "Cooling", "FanOnly", "Auto"];
    assert_eq!(edit_setting("", &modes, "Auto"), ("Auto".to_string(), true));
    assert_eq!(edit_setting(" Heating ", &modes, "Auto"), ("Heating".to_string(), true));
    assert_eq!(edit_setting("heating", &modes, "Auto"), ("Auto".to_string(), false));
}

#[test]
fn menus_and_picks() {
    assert_eq!(menu_for_role("guest"), Some(MenuKind::Guest));
    assert_eq!(menu_for_role("admin"), Some(MenuKind::Admin));
    assert_eq!(menu_for_role("root"), None);
    assert_eq!(pick_in_range(Some(0), 3), None);
    assert_eq!(pick_in_range(Some(2), 3), Some(1));
    assert_eq!(pick_in_range(Some(4), 3), None);
    assert_eq!(pick_saturating(None, 3), Some(0));
    assert_eq!(pick_saturating(Some(0), 3), Some(0));
    assert_eq!(pick_saturating(Some(3), 3), Some(2));
    assert_eq!(pick_saturating(Some(4), 3), None);
    assert_eq!(pick_saturating(None, 0), None);
}
