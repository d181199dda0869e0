//! Time-boxed technician access grants: request validation, the job status
//! life cycle, the permission rule for acting under a homeowner, and the
//! choice of who may manage a homeowner's guests.
use vstd::prelude::*;
use crate::text::{
    strip_line_end,
    white_space, control_char, trim_spec, collapse_spec, drop_controls_spec, lowercase_of,
    chars_of, trim_chars, drop_controls, collapse_whitespace, string_from_chars, str_eq,
    str_eq_ignore_ascii_case, eq_ignore_ascii_case_spec, str_to_lowercase,
};

verus! {

/// Shortest accepted job description, in characters.
pub const MIN_DESC_LEN: usize = 20;

/// Longest accepted job description, in characters.
pub const MAX_DESC_LEN: usize = 200;

/// The access windows, in minutes, that a homeowner may grant.
pub open spec fn access_minutes_valid_spec(m: i64) -> bool {
    m == 30 || m == 60 || m == 90 || m == 120
}

/// Whether `minutes` is one of 30, 60, 90 or 120.
pub fn access_minutes_is_valid(minutes: i64) -> (r: bool)
    ensures
        r == access_minutes_valid_spec(minutes),
{
    minutes == 30 || minutes == 60 || minutes == 90 || minutes == 120
}

/// The access windows are whole half-hours from 30 minutes to two hours: every accepted
/// window is a multiple of 30 between 30 and 120, and each of 30, 60, 90 and 120 is accepted.
pub proof fn lemma_access_windows(m: i64)
    ensures
        access_minutes_valid_spec(m) ==> 30 <= m <= 120 && m % 30 == 0,
        (30 <= m <= 120 && m % 30 == 0) ==> access_minutes_valid_spec(m),
        access_minutes_valid_spec(30) && access_minutes_valid_spec(60),
        access_minutes_valid_spec(90) && access_minutes_valid_spec(120),
{
}

/// A description after sanitising: trimmed, control characters removed, and every
/// run of whitespace turned into one space with none at either end.
pub open spec fn sanitize_spec(raw: Seq<char>) -> Seq<char> {
    collapse_spec(drop_controls_spec(trim_spec(raw)))
}

/// Sanitises a job description typed by a homeowner.
pub fn sanitize_job_description(raw: &str) -> (r: String)
    ensures
        r@ == sanitize_spec(raw@),
{
    let v = chars_of(raw);
    let t = trim_chars(v.as_slice());
    let d = drop_controls(t.as_slice());
    let c = collapse_whitespace(d.as_slice());
    string_from_chars(c.as_slice())
}

/// Why a grant request is refused.
#[derive(Debug, Clone, Copy, PartialEq, Eq)]
pub enum GrantError {
    /// The access window is not 30, 60, 90 or 120 minutes.
    InvalidAccessTime,
    /// Nothing is left of the description once sanitised.
    EmptyDescription,
    /// The sanitised description has this many characters, outside 20..=200.
    DescriptionLength(usize),
    /// The homeowner account is not an active homeowner.
    InvalidHomeowner,
    /// The technician account is not an active technician.
    InvalidTechnician,
}

/// The checks on the window and the description, in the order they are applied.
pub open spec fn grant_request_spec(minutes: i64, raw: Seq<char>) -> Result<Seq<char>, GrantError> {
    let d = sanitize_spec(raw);
    if !access_minutes_valid_spec(minutes) {
        Err(GrantError::InvalidAccessTime)
    } else if d.len() == 0 {
        Err(GrantError::EmptyDescription)
    } else if d.len() < MIN_DESC_LEN || d.len() > MAX_DESC_LEN {
        Err(GrantError::DescriptionLength(d.len() as usize))
    } else {
        Ok(d)
    }
}

/// Validates the access window and sanitises and bounds the description of a grant request.
pub fn validate_grant_request(minutes: i64, raw_desc: &str) -> (r: Result<String, GrantError>)
    ensures
        r matches Ok(d) ==> grant_request_spec(minutes, raw_desc@) == Ok::<Seq<char>, GrantError>(d@),
        r matches Err(e) ==> grant_request_spec(minutes, raw_desc@) == Err::<Seq<char>, GrantError>(e),
{
    if !access_minutes_is_valid(minutes) {
        return Err(GrantError::InvalidAccessTime);
    }
    let d = sanitize_job_description(raw_desc);
    let v = chars_of(d.as_str());
    let len = v.len();
    if len == 0 {
        return Err(GrantError::EmptyDescription);
    }
    if len < MIN_DESC_LEN || len > MAX_DESC_LEN {
        return Err(GrantError::DescriptionLength(len));
    }
    Ok(d)
}

/// Both parties of a grant must be active accounts of the right role.
pub open spec fn grant_parties_spec(homeowner: (Seq<char>, i64), technician: (Seq<char>, i64)) -> Result<(), GrantError> {
    if homeowner.0 != "homeowner"@ || homeowner.1 != 1 {
        Err(GrantError::InvalidHomeowner)
    } else if technician.0 != "technician"@ || technician.1 != 1 {
        Err(GrantError::InvalidTechnician)
    } else {
        Ok(())
    }
}

/// Checks the stored `(role, is_active)` of the homeowner and of the technician of a grant.
pub fn check_grant_parties(homeowner: (&str, i64), technician: (&str, i64)) -> (r: Result<(), GrantError>)
    ensures
        r == grant_parties_spec((homeowner.0@, homeowner.1), (technician.0@, technician.1)),
{
    if !str_eq(homeowner.0, "homeowner") || homeowner.1 != 1 {
        Err(GrantError::InvalidHomeowner)
    } else if !str_eq(technician.0, "technician") || technician.1 != 1 {
        Err(GrantError::InvalidTechnician)
    } else {
        Ok(())
    }
}

/// The status of a technician job.
#[derive(Debug, Clone, Copy, PartialEq, Eq)]
pub enum JobStatus {
    /// Granted by the homeowner, not used yet.
    AccessGranted,
    /// The technician has started using the grant.
    TechAccess,
    /// The window has run out.
    AccessExpired,
}

/// The text stored for each status.
pub open spec fn job_status_text(s: JobStatus) -> Seq<char> {
    match s {
        JobStatus::AccessGranted => "ACCESS_GRANTED"@,
        JobStatus::TechAccess => "TECH_ACCESS"@,
        JobStatus::AccessExpired => "ACCESS_EXPIRED"@,
    }
}

impl JobStatus {
    /// The text stored in the database for this status.
    pub fn as_str(&self) -> (r: &'static str)
        ensures
            r@ == job_status_text(*self),
    {
        match self {
            JobStatus::AccessGranted => "ACCESS_GRANTED",
            JobStatus::TechAccess => "TECH_ACCESS",
            JobStatus::AccessExpired => "ACCESS_EXPIRED",
        }
    }

    /// Reads a stored status; `None` for any other text.
    pub fn parse(text: &str) -> (r: Option<JobStatus>)
        ensures
            r matches Some(s) ==> job_status_text(s) == text@,
            r is None ==> forall|s: JobStatus| job_status_text(s) != text@,
    {
        if str_eq(text, "ACCESS_GRANTED") {
            Some(JobStatus::AccessGranted)
        } else if str_eq(text, "TECH_ACCESS") {
            Some(JobStatus::TechAccess)
        } else if str_eq(text, "ACCESS_EXPIRED") {
            Some(JobStatus::AccessExpired)
        } else {
            proof {
                assert forall|s: JobStatus| job_status_text(s) != text@ by {
                    match s {
                        JobStatus::AccessGranted => {},
                        JobStatus::TechAccess => {},
                        JobStatus::AccessExpired => {},
                    }
                }
            }
            None
        }
    }
}

/// A grant that is still usable: granted or in use, and not past its end.
pub open spec fn grant_live(status: JobStatus, window_over: bool) -> bool {
    (status == JobStatus::AccessGranted || status == JobStatus::TechAccess) && !window_over
}

/// What a technician's attempt to use a job does.
#[derive(Debug, Clone, Copy, PartialEq, Eq)]
pub enum JobAccess {
    /// The grant is live: the job moves to `TechAccess` and access is given.
    Claimed,
    /// The grant has run out: the job moves to `AccessExpired` and access is refused.
    Expired,
    /// The job was already expired: nothing changes and access is refused.
    Unavailable,
}

/// The new status after a use attempt, given whether the window is over.
pub open spec fn access_transition_spec(status: JobStatus, window_over: bool) -> (JobStatus, JobAccess) {
    if grant_live(status, window_over) {
        (JobStatus::TechAccess, JobAccess::Claimed)
    } else if status == JobStatus::AccessGranted || status == JobStatus::TechAccess {
        (JobStatus::AccessExpired, JobAccess::Expired)
    } else {
        (status, JobAccess::Unavailable)
    }
}

/// Decides what a technician's use of a job does: claim a live grant, or expire a
/// grant whose window is over.
pub fn access_transition(status: JobStatus, window_over: bool) -> (r: (JobStatus, JobAccess))
    ensures
        r == access_transition_spec(status, window_over),
{
    match status {
        JobStatus::AccessGranted | JobStatus::TechAccess => {
            if !window_over {
                (JobStatus::TechAccess, JobAccess::Claimed)
            } else {
                (JobStatus::AccessExpired, JobAccess::Expired)
            }
        },
        JobStatus::AccessExpired => (status, JobAccess::Unavailable),
    }
}

/// The status after the periodic sweep: every grant whose window is over is expired.
pub open spec fn sweep_transition_spec(status: JobStatus, window_over: bool) -> JobStatus {
    if window_over && (status == JobStatus::AccessGranted || status == JobStatus::TechAccess) {
        JobStatus::AccessExpired
    } else {
        status
    }
}

/// Decides the status of a job after the sweep of expired grants.
pub fn sweep_transition(status: JobStatus, window_over: bool) -> (r: JobStatus)
    ensures
        r == sweep_transition_spec(status, window_over),
{
    match status {
        JobStatus::AccessGranted | JobStatus::TechAccess => {
            if window_over { JobStatus::AccessExpired } else { status }
        },
        JobStatus::AccessExpired => status,
    }
}

/// Access is given exactly when the grant is live; an expired job stays expired
/// under every operation; and using a grant twice gives the same result as once.
pub proof fn lemma_job_lifecycle(status: JobStatus, window_over: bool)
    ensures
        (access_transition_spec(status, window_over).1 == JobAccess::Claimed) <==> grant_live(status, window_over),
        status == JobStatus::AccessExpired ==> access_transition_spec(status, window_over).0 == JobStatus::AccessExpired,
        status == JobStatus::AccessExpired ==> sweep_transition_spec(status, window_over) == JobStatus::AccessExpired,
        access_transition_spec(access_transition_spec(status, window_over).0, window_over)
            == (access_transition_spec(status, window_over).0, if access_transition_spec(status, window_over).1 == JobAccess::Claimed {
                JobAccess::Claimed
            } else {
                JobAccess::Unavailable
            }),
        window_over ==> sweep_transition_spec(status, window_over) == JobStatus::AccessExpired,
        !window_over ==> sweep_transition_spec(status, window_over) == status,
{
}

/// Stored text and status agree both ways.
pub proof fn lemma_job_status_text_injective(a: JobStatus, b: JobStatus)
    ensures
        job_status_text(a) == job_status_text(b) <==> a == b,
{
    reveal_strlit("ACCESS_GRANTED");
    reveal_strlit("TECH_ACCESS");
    reveal_strlit("ACCESS_EXPIRED");
    if a != b {
        match (a, b) {
            (JobStatus::AccessGranted, JobStatus::TechAccess) => { assert(job_status_text(a)[0] != job_status_text(b)[0]); },
            (JobStatus::TechAccess, JobStatus::AccessGranted) => { assert(job_status_text(a)[0] != job_status_text(b)[0]); },
            (JobStatus::TechAccess, JobStatus::AccessExpired) => { assert(job_status_text(a)[0] != job_status_text(b)[0]); },
            (JobStatus::AccessExpired, JobStatus::TechAccess) => { assert(job_status_text(a)[0] != job_status_text(b)[0]); },
            (JobStatus::AccessGranted, JobStatus::AccessExpired) => { assert(job_status_text(a)[7] != job_status_text(b)[7]); },
            (JobStatus::AccessExpired, JobStatus::AccessGranted) => { assert(job_status_text(a)[7] != job_status_text(b)[7]); },
            _ => {},
        }
    }
}

/// The outcome of the permission rule for acting on a homeowner's behalf.
#[derive(Debug, Clone, Copy, PartialEq, Eq)]
pub enum Permission {
    /// Refused.
    Deny,
    /// Allowed.
    Allow,
    /// Allowed only if the technician holds a live grant from the homeowner.
    NeedsLiveGrant,
}

/// The target must be an active homeowner and the actor an active account; admins act on
/// anyone, a homeowner on themselves (ignoring ASCII case), a technician through a live
/// grant, and everyone else is refused.
pub open spec fn permission_spec(
    target: Option<(Seq<char>, i64)>,
    actor: Option<(Seq<char>, i64)>,
    acting_username: Seq<char>,
    homeowner_username: Seq<char>,
) -> Permission {
    match target {
        None => Permission::Deny,
        Some((t_role, t_active)) => if t_role != "homeowner"@ || t_active != 1 {
            Permission::Deny
        } else {
            match actor {
                None => Permission::Deny,
                Some((a_role, a_active)) => if a_active != 1 {
                    Permission::Deny
                } else if a_role == "admin"@ {
                    Permission::Allow
                } else if a_role == "homeowner"@ && eq_ignore_ascii_case_spec(acting_username, homeowner_username) {
                    Permission::Allow
                } else if a_role == "technician"@ {
                    Permission::NeedsLiveGrant
                } else {
                    Permission::Deny
                },
            }
        },
    }
}

/// Applies the permission rule to the stored `(role, is_active)` rows of the
/// homeowner (`target`) and the acting account.
pub fn permission(
    target: Option<(&str, i64)>,
    actor: Option<(&str, i64)>,
    acting_username: &str,
    homeowner_username: &str,
) -> (p: Permission)
    ensures
        p == permission_spec(
            match target { None => None, Some((r, a)) => Some((r@, a)) },
            match actor { None => None, Some((r, a)) => Some((r@, a)) },
            acting_username@,
            homeowner_username@,
        ),
{
    match target {
        None => Permission::Deny,
        Some((t_role, t_active)) => {
            if !str_eq(t_role, "homeowner") || t_active != 1 {
                return Permission::Deny;
            }
            match actor {
                None => Permission::Deny,
                Some((a_role, a_active)) => {
                    if a_active != 1 {
                        Permission::Deny
                    } else if str_eq(a_role, "admin") {
                        Permission::Allow
                    } else if str_eq(a_role, "homeowner") && str_eq_ignore_ascii_case(acting_username, homeowner_username) {
                        Permission::Allow
                    } else if str_eq(a_role, "technician") {
                        Permission::NeedsLiveGrant
                    } else {
                        Permission::Deny
                    }
                },
            }
        },
    }
}

/// No one acts on a homeowner who is missing, disabled or not a homeowner, and a disabled
/// actor never acts; guests never act.
pub proof fn lemma_permission_needs_live_accounts(
    target: Option<(Seq<char>, i64)>,
    actor: Option<(Seq<char>, i64)>,
    acting_username: Seq<char>,
    homeowner_username: Seq<char>,
)
    ensures
        (target matches Some((r, a)) && (r != "homeowner"@ || a != 1)) ==> permission_spec(target, actor, acting_username, homeowner_username) == Permission::Deny,
        target is None ==> permission_spec(target, actor, acting_username, homeowner_username) == Permission::Deny,
        (actor matches Some((r, a)) && a != 1) ==> permission_spec(target, actor, acting_username, homeowner_username) == Permission::Deny,
        (actor matches Some((r, a)) && r == "guest"@) ==> permission_spec(target, actor, acting_username, homeowner_username) != Permission::Allow,
{
    reveal_strlit("guest");
    reveal_strlit("admin");
    reveal_strlit("homeowner");
    reveal_strlit("technician");
    assert("guest"@[0] != "admin"@[0]);
    assert("guest"@.len() != "homeowner"@.len());
}

/// Whose guests an account may manage, from its stored `(role, is_active)` row.
#[derive(Debug, Clone, Copy, PartialEq, Eq)]
pub enum GuestManager {
    /// The account is missing or disabled.
    Disabled,
    /// A homeowner manages their own guests.
    OwnGuests,
    /// A technician manages the guests of the homeowner of their latest live grant.
    ThroughGrant,
    /// Any other role may not manage guests.
    NotAllowed,
}

/// A missing account counts as a disabled guest.
pub open spec fn guest_manager_spec(acting: Option<(Seq<char>, i64)>) -> GuestManager {
    match acting {
        None => GuestManager::Disabled,
        Some((role, active)) => if active != 1 {
            GuestManager::Disabled
        } else if role == "homeowner"@ {
            GuestManager::OwnGuests
        } else if role == "technician"@ {
            GuestManager::ThroughGrant
        } else {
            GuestManager::NotAllowed
        },
    }
}

/// Decides, from the acting account's stored row, whose guests it may manage.
pub fn guest_manager(acting: Option<(&str, i64)>) -> (g: GuestManager)
    ensures
        g == guest_manager_spec(match acting { None => None, Some((r, a)) => Some((r@, a)) }),
{
    match acting {
        None => GuestManager::Disabled,
        Some((role, active)) => {
            if active != 1 {
                GuestManager::Disabled
            } else if str_eq(role, "homeowner") {
                GuestManager::OwnGuests
            } else if str_eq(role, "technician") {
                GuestManager::ThroughGrant
            } else {
                GuestManager::NotAllowed
            }
        },
    }
}

/// The position in a numbered list (shown from 1) that a typed number picks.
pub open spec fn pick_listed_spec(choice: Option<usize>, len: usize) -> Option<usize> {
    match choice {
        Some(n) => if 1 <= n <= len { Some((n - 1) as usize) } else { None },
        None => None,
    }
}

/// Turns a typed list number into a position in the list; `None` for no number, for 0, or
/// for one past the end.
pub fn pick_listed(choice: Option<usize>, len: usize) -> (r: Option<usize>)
    ensures
        r == pick_listed_spec(choice, len),
{
    match choice {
        Some(n) => if 1 <= n && n <= len { Some(n - 1) } else { None },
        None => None,
    }
}

/// A typed confirmation that reads `yes` once trimmed and lower-cased.
pub open spec fn confirms_yes_spec(answer: Seq<char>) -> bool {
    lowercase_of(trim_spec(answer)) == "yes"@
}

/// Whether a typed confirmation is `yes` (surrounding whitespace and case ignored).
pub fn confirms_yes(answer: &str) -> (r: bool)
    ensures
        r == confirms_yes_spec(answer@),
{
    let v = chars_of(answer);
    let t = trim_chars(v.as_slice());
    let ts = string_from_chars(t.as_slice());
    let l = str_to_lowercase(ts.as_str());
    str_eq(l.as_str(), "yes")
}

/// What the request reader wants after a line.
#[derive(Debug, Clone, Copy, PartialEq, Eq)]
pub enum ReadStep {
    /// Nothing typed yet: prompt again.
    Prompt,
    /// Keep reading continuation lines.
    Continue,
    /// The request is complete.
    Done,
}

/// Gathers a homeowner's request, one typed line at a time: leading blank lines are
/// skipped, lines are joined with single spaces, and reading stops at a blank line or
/// as soon as the text has an acceptable length.
pub struct RequestReader {
    acc: Vec<char>,
    saw_content: bool,
}

impl RequestReader {
    /// The text gathered so far and whether any non-blank line was seen.
    pub closed spec fn view(&self) -> (Seq<char>, bool) {
        (self.acc@, self.saw_content)
    }

    /// A reader that has seen nothing.
    pub fn new() -> (r: RequestReader)
        ensures
            r.view() == (Seq::<char>::empty(), false),
    {
        RequestReader { acc: Vec::new(), saw_content: false }
    }

    /// The reader after one line, and the step it asks for.
    pub open spec fn feed_spec(state: (Seq<char>, bool), line: Seq<char>) -> ((Seq<char>, bool), ReadStep) {
        let t = strip_line_end(line);
        let (acc, saw) = state;
        if t.len() == 0 && !saw {
            (state, ReadStep::Prompt)
        } else if t.len() == 0 {
            (state, ReadStep::Done)
        } else {
            let joined = if acc.len() > 0 { acc.push(' ') + t } else { t };
            let step = if MIN_DESC_LEN <= joined.len() <= MAX_DESC_LEN { ReadStep::Done } else { ReadStep::Continue };
            ((joined, true), step)
        }
    }

    /// Takes one typed line.
    pub fn feed(&mut self, line: &str) -> (step: ReadStep)
        ensures
            (final(self).view(), step) == Self::feed_spec(old(self).view(), line@),
    {
        let v = chars_of(line);
        let mut n: usize = v.len();
        assert(v@.subrange(0, n as int) =~= v@);
        while n > 0 && (v[n - 1] == '\r' || v[n - 1] == '\n')
            invariant
                n <= v.len(),
                v@ == line@,
                strip_line_end(line@) == strip_line_end(v@.subrange(0, n as int)),
            decreases n,
        {
            assert(v@.subrange(0, n as int).drop_last() =~= v@.subrange(0, n - 1));
            n -= 1;
        }
        proof {
            assert(strip_line_end(v@.subrange(0, n as int)) == v@.subrange(0, n as int));
        }
        if n == 0 && !self.saw_content {
            return ReadStep::Prompt;
        }
        if n == 0 {
            return ReadStep::Done;
        }
        let ghost t = v@.subrange(0, n as int);
        let ghost acc0 = self.acc@;
        if self.acc.len() > 0 {
            self.acc.push(' ');
        }
        let ghost base = self.acc@;
        let mut k: usize = 0;
        while k < n
            invariant
                k <= n <= v.len(),
                t == v@.subrange(0, n as int),
                self.acc@ == base + v@.subrange(0, k as int),
            decreases n - k,
        {
            self.acc.push(v[k]);
            k += 1;
            assert(v@.subrange(0, k as int) =~= v@.subrange(0, k - 1).push(v@[k - 1]));
        }
        self.saw_content = true;
        let len = self.acc.len();
        if MIN_DESC_LEN <= len && len <= MAX_DESC_LEN {
            ReadStep::Done
        } else {
            ReadStep::Continue
        }
    }

    /// The sanitised request, or its length in characters where that is outside 20..=200.
    pub fn finish(&self) -> (r: Result<String, usize>)
        ensures
            ({
                let d = sanitize_spec(self.view().0);
                &&& r matches Ok(s) ==> s@ == d && MIN_DESC_LEN <= d.len() <= MAX_DESC_LEN
                &&& r matches Err(n) ==> n == d.len() && !(MIN_DESC_LEN <= d.len() <= MAX_DESC_LEN)
            }),
    {
        let raw = string_from_chars(self.acc.as_slice());
        let d = sanitize_job_description(raw.as_str());
        let dv = chars_of(d.as_str());
        let len = dv.len();
        if len < MIN_DESC_LEN || len > MAX_DESC_LEN {
            Err(len)
        } else {
            Ok(d)
        }
    }
}

} // verus!
