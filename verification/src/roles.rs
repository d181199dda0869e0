//! Who may do what: the role checks in front of the admin, homeowner and
//! technician screens, the admin's enable/disable toggle, and the edit rules
//! that keep a profile setting unless a valid new value is typed.
use vstd::prelude::*;
use crate::text::{chars_of, trim_chars, string_from_chars, str_eq, str_eq_ignore_ascii_case, eq_ignore_ascii_case_spec, trim_spec};

verus! {

/// The screens and operations that are guarded by a role check.
#[derive(Debug, Clone, Copy, PartialEq, Eq)]
pub enum Action {
    /// List every registered user.
    ViewAllUsers,
    /// Enable or disable accounts.
    ManageUserStatus,
    /// Read the security audit log.
    ViewSecurityLog,
    /// List or clear account lockouts.
    ClearLockouts,
    /// Read the HVAC activity log.
    ViewHvacLog,
    /// See the system status screen.
    ViewSystemStatus,
    /// Create, edit, delete or reset profiles.
    ManageProfiles,
    /// Turn vacation mode on or off.
    ToggleVacation,
    /// Ask for a technician and grant them time-boxed access.
    RequestTechnician,
    /// List one's technician jobs and use their access grants.
    UseGrants,
}

/// The roles allowed for each action.
pub open spec fn may_perform_spec(role: Seq<char>, action: Action) -> bool {
    match action {
        Action::ViewAllUsers | Action::ManageUserStatus | Action::ViewSecurityLog | Action::ClearLockouts => role == "admin"@,
        Action::ViewHvacLog => role == "admin"@ || role == "homeowner"@ || role == "technician"@,
        Action::ViewSystemStatus => role == "homeowner"@ || role == "technician"@,
        Action::ManageProfiles => role == "homeowner"@ || role == "admin"@ || role == "technician"@,
        Action::ToggleVacation | Action::RequestTechnician => role == "homeowner"@,
        Action::UseGrants => role == "technician"@,
    }
}

/// Whether an account of `role` may perform `action`.
pub fn may_perform(role: &str, action: Action) -> (r: bool)
    ensures
        r == may_perform_spec(role@, action),
{
    match action {
        Action::ViewAllUsers | Action::ManageUserStatus | Action::ViewSecurityLog | Action::ClearLockouts => str_eq(role, "admin"),
        Action::ViewHvacLog => str_eq(role, "admin") || str_eq(role, "homeowner") || str_eq(role, "technician"),
        Action::ViewSystemStatus => str_eq(role, "homeowner") || str_eq(role, "technician"),
        Action::ManageProfiles => str_eq(role, "homeowner") || str_eq(role, "admin") || str_eq(role, "technician"),
        Action::ToggleVacation | Action::RequestTechnician => str_eq(role, "homeowner"),
        Action::UseGrants => str_eq(role, "technician"),
    }
}

/// Guests are refused every guarded action, and only admins reach the account and audit screens.
pub proof fn lemma_guests_refused(role: Seq<char>, action: Action)
    ensures
        !may_perform_spec("guest"@, action),
        (action == Action::ViewAllUsers || action == Action::ManageUserStatus
            || action == Action::ViewSecurityLog || action == Action::ClearLockouts)
            ==> (may_perform_spec(role, action) <==> role == "admin"@),
{
    reveal_strlit("guest");
    reveal_strlit("admin");
    reveal_strlit("homeowner");
    reveal_strlit("technician");
    assert("guest"@[0] != "admin"@[0]);
    assert("guest"@.len() != "homeowner"@.len());
    assert("guest"@.len() != "technician"@.len());
}

/// Why the admin's toggle refuses a target.
#[derive(Debug, Clone, Copy, PartialEq, Eq)]
pub enum ToggleRefusal {
    /// The target is the admin's own account (ignoring ASCII case).
    OwnAccount,
    /// The target is another admin.
    OtherAdmin,
}

/// The toggle flips the active flag: an active account (flag 1) is disabled, any other is enabled;
/// an admin can touch neither their own account nor another admin's.
pub open spec fn toggle_status_spec(admin_username: Seq<char>, target_username: Seq<char>, target_role: Seq<char>, is_active: i64) -> Result<i64, ToggleRefusal> {
    if eq_ignore_ascii_case_spec(target_username, admin_username) {
        Err(ToggleRefusal::OwnAccount)
    } else if target_role == "admin"@ {
        Err(ToggleRefusal::OtherAdmin)
    } else if is_active == 1 {
        Ok(0)
    } else {
        Ok(1)
    }
}

/// Decides the new active flag of the account an admin picked.
pub fn toggle_status(admin_username: &str, target_username: &str, target_role: &str, is_active: i64) -> (r: Result<i64, ToggleRefusal>)
    ensures
        r == toggle_status_spec(admin_username@, target_username@, target_role@, is_active),
{
    if str_eq_ignore_ascii_case(target_username, admin_username) {
        Err(ToggleRefusal::OwnAccount)
    } else if str_eq(target_role, "admin") {
        Err(ToggleRefusal::OtherAdmin)
    } else if is_active == 1 {
        Ok(0)
    } else {
        Ok(1)
    }
}

/// Toggling twice gives the account back its active state (read as active or not).
pub proof fn lemma_toggle_twice(admin_username: Seq<char>, target_username: Seq<char>, target_role: Seq<char>, is_active: i64)
    requires
        toggle_status_spec(admin_username, target_username, target_role, is_active) is Ok,
    ensures
        ({
            let once = toggle_status_spec(admin_username, target_username, target_role, is_active)->Ok_0;
            let twice = toggle_status_spec(admin_username, target_username, target_role, once)->Ok_0;
            (twice == 1) == (is_active == 1)
        }),
{
}

/// The security event recorded for a new active flag.
pub fn toggle_event(new_status: i64) -> (r: &'static str)
    ensures
        r@ == (if new_status == 1 { "ACCOUNT_ENABLED"@ } else { "ACCOUNT_DISABLED"@ }),
{
    if new_status == 1 { "ACCOUNT_ENABLED" } else { "ACCOUNT_DISABLED" }
}

/// An edited setting: blank input keeps the current value, an allowed value (after
/// trimming) replaces it, anything else keeps the current value too.
pub open spec fn edit_setting_spec(input: Seq<char>, allowed: Seq<Seq<char>>, current: Seq<char>) -> (Seq<char>, bool) {
    let t = trim_spec(input);
    if t.len() == 0 {
        (current, true)
    } else if allowed.contains(t) {
        (t, true)
    } else {
        (current, false)
    }
}

/// Applies one typed edit to a profile setting. The flag is false when the input was
/// rejected (and the current value kept).
pub fn edit_setting(input: &str, allowed: &[&str], current: &str) -> (r: (String, bool))
    ensures
        r.0@ == edit_setting_spec(input@, allowed@.map_values(|a: &str| a@), current@).0,
        r.1 == edit_setting_spec(input@, allowed@.map_values(|a: &str| a@), current@).1,
{
    let ghost allowed_v = allowed@.map_values(|a: &str| a@);
    let v = chars_of(input);
    let t = trim_chars(v.as_slice());
    if t.len() == 0 {
        return (current.to_owned(), true);
    }
    let ts = string_from_chars(t.as_slice());
    let mut i: usize = 0;
    while i < allowed.len()
        invariant
            i <= allowed.len(),
            ts@ == trim_spec(input@),
            ts@.len() > 0,
            allowed_v == allowed@.map_values(|a: &str| a@),
            forall|k: int| 0 <= k < i ==> allowed_v[k] != ts@,
        decreases allowed.len() - i,
    {
        if str_eq(ts.as_str(), allowed[i]) {
            assert(allowed_v[i as int] == ts@);
            assert(allowed_v.contains(ts@));
            return (ts, true);
        }
        i += 1;
    }
    proof {
        assert(!allowed_v.contains(ts@)) by {
            if allowed_v.contains(ts@) {
                let k = choose|k: int| 0 <= k < allowed_v.len() && allowed_v[k] == ts@;
                assert(allowed_v[k] != ts@);
            }
        }
    }
    (current.to_owned(), false)
}

/// The admin typed `cancel` (ASCII case ignored) instead of picking an account.
pub fn is_cancel(input: &str) -> (r: bool)
    ensures
        r == eq_ignore_ascii_case_spec(input@, "cancel"@),
{
    str_eq_ignore_ascii_case(input, "cancel")
}

/// The main menus, one per role.
#[derive(Debug, Clone, Copy, PartialEq, Eq)]
pub enum MenuKind {
    Homeowner,
    Guest,
    Technician,
    Admin,
}

/// The menu of each known role; `None` for any other role.
pub open spec fn menu_for_role_spec(role: Seq<char>) -> Option<MenuKind> {
    if role == "homeowner"@ { Some(MenuKind::Homeowner) }
    else if role == "guest"@ { Some(MenuKind::Guest) }
    else if role == "technician"@ { Some(MenuKind::Technician) }
    else if role == "admin"@ { Some(MenuKind::Admin) }
    else { None }
}

/// The main menu shown to an account of `role`.
pub fn menu_for_role(role: &str) -> (r: Option<MenuKind>)
    ensures
        r == menu_for_role_spec(role@),
{
    if str_eq(role, "homeowner") { Some(MenuKind::Homeowner) }
    else if str_eq(role, "guest") { Some(MenuKind::Guest) }
    else if str_eq(role, "technician") { Some(MenuKind::Technician) }
    else if str_eq(role, "admin") { Some(MenuKind::Admin) }
    else { None }
}

/// Each known role gets its own menu, and a menu is shown only to its own role.
pub proof fn lemma_menu_per_role(role: Seq<char>)
    ensures
        (menu_for_role_spec(role) == Some(MenuKind::Homeowner)) <==> role == "homeowner"@,
        (menu_for_role_spec(role) == Some(MenuKind::Guest)) <==> role == "guest"@,
        (menu_for_role_spec(role) == Some(MenuKind::Technician)) <==> role == "technician"@,
        (menu_for_role_spec(role) == Some(MenuKind::Admin)) <==> role == "admin"@,
        menu_for_role_spec(role) is None <==> !(role == "homeowner"@ || role == "guest"@ || role == "technician"@ || role == "admin"@),
{
    reveal_strlit("homeowner");
    reveal_strlit("guest");
    reveal_strlit("technician");
    reveal_strlit("admin");
    assert("homeowner"@.len() != "guest"@.len());
    assert("homeowner"@.len() != "technician"@.len());
    assert("homeowner"@.len() != "admin"@.len());
    assert("guest"@.len() != "technician"@.len());
    assert("guest"@[0] != "admin"@[0]);
    assert("technician"@.len() != "admin"@.len());
}

/// A typed list number in `1..=len` picks position `n - 1`; anything else picks nothing.
pub open spec fn pick_in_range_spec(choice: Option<usize>, len: usize) -> Option<usize> {
    match choice {
        Some(n) => if 1 <= n && n <= len { Some((n - 1) as usize) } else { None },
        None => None,
    }
}

/// Turns a typed list number into a position, refusing numbers outside `1..=len`.
pub fn pick_in_range(choice: Option<usize>, len: usize) -> (r: Option<usize>)
    ensures
        r == pick_in_range_spec(choice, len),
{
    match choice {
        Some(n) => if 1 <= n && n <= len { Some(n - 1) } else { None },
        None => None,
    }
}

/// The job list of the technician screen reads an unparsable entry as 0 and steps one
/// down without going below 0, so 0 and 1 both pick the first job.
pub open spec fn pick_saturating_spec(choice: Option<usize>, len: usize) -> Option<usize> {
    let n = match choice { Some(n) => n, None => 0 };
    let i = if n == 0 { 0 } else { n - 1 };
    if i < len { Some(i as usize) } else { None }
}

/// The position the technician's typed job number picks.
pub fn pick_saturating(choice: Option<usize>, len: usize) -> (r: Option<usize>)
    ensures
        r == pick_saturating_spec(choice, len),
{
    let n = match choice { Some(n) => n, None => 0 };
    let i = n.saturating_sub(1);
    if i < len { Some(i) } else { None }
}

} // verus!
