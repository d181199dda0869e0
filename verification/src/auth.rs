//! Account and credential policy: username and password rules, guest PINs,
//! who may register whom, Argon2id hashing and the login decision.
use vstd::prelude::*;
use crate::text::{
    trim_spec, trim_chars, is_digit, lowercase_of, str_to_lowercase,
    white_space, control_char, is_ascii_char, contains_spec, chars_of, str_eq, chars_contains,
    char_is_whitespace, char_is_control,
};
use argon2::password_hash::{rand_core::OsRng, PasswordHash, PasswordHasher, PasswordVerifier, SaltString};

verus! {

/// Cap on the length in bytes of a password or PIN typed at registration.
pub const MAX_SECRET_LEN: usize = 1024;

/// Minimum number of digits of a guest PIN.
pub const MIN_PIN_LEN: usize = 6;

/// Minimum length in bytes of a password.
pub const MIN_PASSWORD_LEN: usize = 8;

/// Argon2id memory cost in KiB (about 64 MiB).
pub const ARGON2_M_COST: u32 = 65536;

/// Argon2id number of passes over memory.
pub const ARGON2_T_COST: u32 = 3;

/// Argon2id degree of parallelism.
pub const ARGON2_P_COST: u32 = 1;

/// Declares `password_hash::Error`, the error of the Argon2 calls.
#[verifier::external_type_specification]
#[verifier::external_body]
pub struct ExPasswordHashError(argon2::password_hash::Error);

/// What Argon2 verification of `password` against the PHC string `phc` gives back:
/// `None` where `phc` does not parse as a password hash, else whether it verifies.
pub uninterp spec fn argon2_phc_check(password: Seq<char>, phc: Seq<char>) -> Option<bool>;

/// A character of the Unicode general category `Nd` (decimal digit), the class that the
/// regex crate's `\\d` stands for in its default Unicode mode.
pub uninterp spec fn decimal_digit_char(c: char) -> bool;

/// An ASCII letter, digit or underscore: the class `[A-Za-z0-9_]`.
pub open spec fn word_char(c: char) -> bool {
    ||| 'A' <= c && c <= 'Z'
    ||| 'a' <= c && c <= 'z'
    ||| '0' <= c && c <= '9'
    ||| c == '_'
}

/// The whole text is 3 to 32 characters of `[A-Za-z0-9_]`.
pub open spec fn username_shape(u: Seq<char>) -> bool {
    3 <= u.len() <= 32 && forall|i: int| 0 <= i < u.len() ==> word_char(#[trigger] u[i])
}

/// An ASCII upper-case letter: the class `[A-Z]`.
pub open spec fn upper_char(c: char) -> bool { 'A' <= c && c <= 'Z' }

/// An ASCII lower-case letter: the class `[a-z]`.
pub open spec fn lower_char(c: char) -> bool { 'a' <= c && c <= 'z' }

/// One of the accepted special characters: the class `[@$!%*?&\-_#]`.
pub open spec fn special_char(c: char) -> bool {
    c == '@' || c == '$' || c == '!' || c == '%' || c == '*' || c == '?' || c == '&' || c == '-' || c == '_' || c == '#'
}

/// Some character of `s` satisfies the class.
pub open spec fn has_upper(s: Seq<char>) -> bool { exists|i: int| 0 <= i < s.len() && upper_char(#[trigger] s[i]) }

/// Some character of `s` is an ASCII lower-case letter.
pub open spec fn has_lower(s: Seq<char>) -> bool { exists|i: int| 0 <= i < s.len() && lower_char(#[trigger] s[i]) }

/// Some character of `s` is a decimal digit.
pub open spec fn has_decimal_digit(s: Seq<char>) -> bool { exists|i: int| 0 <= i < s.len() && decimal_digit_char(#[trigger] s[i]) }

/// Some character of `s` is an accepted special character.
pub open spec fn has_special(s: Seq<char>) -> bool { exists|i: int| 0 <= i < s.len() && special_char(#[trigger] s[i]) }

/// Compiles `pattern` (which is `^[A-Za-z0-9_]{3,32}$`, valid) with `regex::Regex::new` and
/// calls `Regex::is_match` on `text`: the anchors make the whole text match, and `$` without
/// the `m` flag is the end of the text.
#[verifier::external_body]
fn regex_username_match(pattern: &str, text: &str) -> (r: Option<bool>)
    requires
        pattern@ == "^[A-Za-z0-9_]{3,32}$"@,
    ensures
        r == Some(username_shape(text@)),
{
    regex::Regex::new(pattern).ok().map(|re| re.is_match(text))
}

/// Compiles `pattern` (which is `[A-Z]`, valid) with `regex::Regex::new` and calls
/// `Regex::is_match` on `text`: whether some character lies in `A`..=`Z`.
#[verifier::external_body]
fn regex_upper_match(pattern: &str, text: &str) -> (r: Option<bool>)
    requires
        pattern@ == "[A-Z]"@,
    ensures
        r == Some(has_upper(text@)),
{
    regex::Regex::new(pattern).ok().map(|re| re.is_match(text))
}

/// Compiles `pattern` (which is `[a-z]`, valid) with `regex::Regex::new` and calls
/// `Regex::is_match` on `text`: whether some character lies in `a`..=`z`.
#[verifier::external_body]
fn regex_lower_match(pattern: &str, text: &str) -> (r: Option<bool>)
    requires
        pattern@ == "[a-z]"@,
    ensures
        r == Some(has_lower(text@)),
{
    regex::Regex::new(pattern).ok().map(|re| re.is_match(text))
}

/// Compiles `pattern` (which is `\\d`, valid) with `regex::Regex::new` and calls
/// `Regex::is_match` on `text`: whether some character is a Unicode decimal digit (`Nd`),
/// which every ASCII digit is.
#[verifier::external_body]
fn regex_digit_match(pattern: &str, text: &str) -> (r: Option<bool>)
    requires
        pattern@ == "\\d"@,
    ensures
        r == Some(exists|i: int| 0 <= i < text@.len() && decimal_digit_char(#[trigger] text@[i])),
        (exists|i: int| 0 <= i < text@.len() && is_digit(#[trigger] text@[i])) ==> r == Some(true),
{
    regex::Regex::new(pattern).ok().map(|re| re.is_match(text))
}

/// Compiles `pattern` (which is `[@$!%*?&\\-_#]`, valid; `\\-` is a literal `-`) with
/// `regex::Regex::new` and calls `Regex::is_match` on `text`: whether some character is one
/// of `@ $ ! % * ? & - _ #`.
#[verifier::external_body]
fn regex_special_match(pattern: &str, text: &str) -> (r: Option<bool>)
    requires
        pattern@ == "[@$!%*?&\\-_#]"@,
    ensures
        r == Some(has_special(text@)),
{
    regex::Regex::new(pattern).ok().map(|re| re.is_match(text))
}

/// The Argon2 variants.
#[derive(Debug, Clone, Copy, PartialEq, Eq)]
pub enum Argon2Variant {
    /// Data-dependent memory access.
    Argon2d,
    /// Data-independent memory access.
    Argon2i,
    /// The hybrid of the two.
    Argon2id,
}

/// The Argon2 versions.
#[derive(Debug, Clone, Copy, PartialEq, Eq)]
pub enum Argon2Version {
    /// Version 16 (0x10).
    V0x10,
    /// Version 19 (0x13).
    V0x13,
}

/// The PHC identifier of each variant.
pub open spec fn variant_ident(a: Argon2Variant) -> Seq<char> {
    match a {
        Argon2Variant::Argon2d => "argon2d"@,
        Argon2Variant::Argon2i => "argon2i"@,
        Argon2Variant::Argon2id => "argon2id"@,
    }
}

/// The version number written into a PHC string.
pub open spec fn version_number(v: Argon2Version) -> nat {
    match v {
        Argon2Version::V0x10 => 16,
        Argon2Version::V0x13 => 19,
    }
}

/// The character of a decimal digit.
pub open spec fn digit_char(d: nat) -> char {
    if d == 0 { '0' } else if d == 1 { '1' } else if d == 2 { '2' } else if d == 3 { '3' }
    else if d == 4 { '4' } else if d == 5 { '5' } else if d == 6 { '6' } else if d == 7 { '7' }
    else if d == 8 { '8' } else { '9' }
}

/// The decimal text of a number, without leading zeros.
pub open spec fn decimal_text(n: nat) -> Seq<char>
    decreases n,
{
    if n < 10 {
        seq![digit_char(n)]
    } else {
        decimal_text(n / 10) + seq![digit_char(n % 10)]
    }
}

/// The start of the PHC string that Argon2 renders, up to the salt:
/// `$<variant>$v=<version>$m=<m>,t=<t>,p=<p>$`.
pub open spec fn phc_header(a: Argon2Variant, v: Argon2Version, m_cost: nat, t_cost: nat, p_cost: nat) -> Seq<char> {
    "$"@ + variant_ident(a) + "$v="@ + decimal_text(version_number(v)) + "$m="@ + decimal_text(m_cost)
        + ",t="@ + decimal_text(t_cost) + ",p="@ + decimal_text(p_cost) + "$"@
}

/// Hashes `password` with `argon2::Argon2::new(variant, version, Params::new(m_cost, t_cost,
/// p_cost, None))` under a fresh salt from `SaltString::generate(OsRng)`, and renders the
/// PHC string (`PasswordHash`'s `Display`). The salt is random, so nothing is said of what
/// follows the header. With parameters that `Params::new` accepts and a generated salt, the
/// only error `hash_password_into` returns is `PwdTooLong`, for more than `u32::MAX` bytes.
/// The `password-hash` verifier recomputes the hash from the algorithm, version, parameters
/// and salt that the string carries, so the string verifies against the same password.
#[verifier::external_body]
fn argon2_hash(password: &str, variant: Argon2Variant, version: Argon2Version, m_cost: u32, t_cost: u32, p_cost: u32) -> (r: Result<String, argon2::password_hash::Error>)
    requires
        m_cost >= 8,
        m_cost >= 8 * p_cost,
        t_cost >= 1,
        1 <= p_cost <= 0xFFFFFF,
    ensures
        vstd::utf8::encode_utf8(password@).len() <= u32::MAX ==> r is Ok,
        r matches Ok(h) ==> argon2_phc_check(password@, h@) == Some(true)
            && phc_header(variant, version, m_cost as nat, t_cost as nat, p_cost as nat).is_prefix_of(h@),
{
    let algorithm = match variant {
        Argon2Variant::Argon2d => argon2::Algorithm::Argon2d,
        Argon2Variant::Argon2i => argon2::Algorithm::Argon2i,
        Argon2Variant::Argon2id => argon2::Algorithm::Argon2id,
    };
    let version = match version {
        Argon2Version::V0x10 => argon2::Version::V0x10,
        Argon2Version::V0x13 => argon2::Version::V0x13,
    };
    let salt = SaltString::generate(&mut OsRng);
    let params = argon2::Params::new(m_cost, t_cost, p_cost, None).expect("Argon2 parameters");
    argon2::Argon2::new(algorithm, version, params).hash_password(password.as_bytes(), &salt).map(|h| h.to_string())
}

/// Parses `phc` with `PasswordHash::new` and, where that succeeds, calls
/// `PasswordVerifier::verify_password` of a default `Argon2` context, which takes the
/// algorithm, version and parameters from `phc` itself. The result is named by
/// `argon2_phc_check`.
#[verifier::external_body]
fn argon2_verify(password: &str, phc: &str) -> (r: Option<bool>)
    ensures
        r == argon2_phc_check(password@, phc@),
{
    match PasswordHash::new(phc) {
        Ok(parsed) => Some(argon2::Argon2::default().verify_password(password.as_bytes(), &parsed).is_ok()),
        Err(_) => None,
    }
}

/// The header of every hash this library stores: Argon2id, version 19, 64 MiB, 3 passes, 1 lane.
pub proof fn lemma_stored_phc_header()
    ensures
        phc_header(Argon2Variant::Argon2id, Argon2Version::V0x13, ARGON2_M_COST as nat, ARGON2_T_COST as nat, ARGON2_P_COST as nat)
            == "$argon2id$v=19$m=65536,t=3,p=1$"@,
{
    reveal_strlit("$argon2id$v=19$m=65536,t=3,p=1$");
    reveal_strlit("$");
    reveal_strlit("argon2id");
    reveal_strlit("$v=");
    reveal_strlit("$m=");
    reveal_strlit(",t=");
    reveal_strlit(",p=");
    assert(decimal_text(1) == seq!['1']);
    assert(decimal_text(3) == seq!['3']);
    assert(decimal_text(19) =~= seq!['1', '9']);
    assert(decimal_text(6) == seq!['6']);
    assert(decimal_text(65) =~= seq!['6', '5']);
    assert(decimal_text(655) =~= seq!['6', '5', '5']);
    assert(decimal_text(6553) =~= seq!['6', '5', '5', '3']);
    assert(decimal_text(65536) =~= seq!['6', '5', '5', '3', '6']);
    assert(phc_header(Argon2Variant::Argon2id, Argon2Version::V0x13, 65536, 3, 1) =~= "$argon2id$v=19$m=65536,t=3,p=1$"@);
}

/// Errors of the credential functions.
#[derive(Debug, Clone, Copy, PartialEq, Eq)]
pub enum AuthError {
    /// The Argon2 hasher failed.
    HashFailed,
    /// A stored hash is not a PHC string.
    InvalidHashFormat,
}

/// The three roles that registration can hand out.
pub open spec fn role_is_valid_spec(role: Seq<char>) -> bool {
    role == "homeowner"@ || role == "guest"@ || role == "technician"@
}

/// Whether `role` is one of `homeowner`, `guest`, `technician`.
pub fn role_is_valid(role: &str) -> (r: bool)
    ensures
        r == role_is_valid_spec(role@),
{
    str_eq(role, "homeowner") || str_eq(role, "guest") || str_eq(role, "technician")
}

/// A username holds no whitespace or control character, is ASCII, and is 3 to 32 ASCII
/// letters, digits or underscores.
pub open spec fn username_is_valid_spec(u: Seq<char>) -> bool {
    &&& forall|i: int| 0 <= i < u.len() ==> !white_space(#[trigger] u[i]) && !control_char(u[i])
    &&& forall|i: int| 0 <= i < u.len() ==> is_ascii_char(#[trigger] u[i])
    &&& username_shape(u)
}

/// Validates a username format (letters, digits and underscores, 3 to 32 of them).
pub fn username_is_valid(username: &str) -> (r: bool)
    ensures
        r == username_is_valid_spec(username@),
{
    let v = chars_of(username);
    let mut i: usize = 0;
    while i < v.len()
        invariant
            v@ == username@,
            i <= v.len(),
            forall|k: int| 0 <= k < i ==> !white_space(#[trigger] v@[k]) && !control_char(v@[k]),
        decreases v.len() - i,
    {
        if char_is_whitespace(v[i]) || char_is_control(v[i]) {
            return false;
        }
        i += 1;
    }
    let mut j: usize = 0;
    while j < v.len()
        invariant
            v@ == username@,
            j <= v.len(),
            forall|k: int| 0 <= k < j ==> is_ascii_char(#[trigger] v@[k]),
        decreases v.len() - j,
    {
        if (v[j] as u32) >= 128 {
            return false;
        }
        j += 1;
    }
    match regex_username_match("^[A-Za-z0-9_]{3,32}$", username) {
        Some(m) => m,
        None => false,
    }
}

/// A strong password: does not contain the username (ignoring case), is at least
/// `MIN_PASSWORD_LEN` bytes long, and holds an ASCII upper-case letter, an ASCII lower-case
/// letter, a decimal digit and one of the special characters.
pub open spec fn password_is_strong_spec(password: Seq<char>, username: Seq<char>) -> bool {
    &&& !contains_spec(lowercase_of(password), lowercase_of(username))
    &&& vstd::utf8::encode_utf8(password).len() as usize >= MIN_PASSWORD_LEN
    &&& has_upper(password)
    &&& has_lower(password)
    &&& has_decimal_digit(password)
    &&& has_special(password)
}

/// Validates password strength (upper, lower, digit, special; no username; 8 bytes or more).
pub fn password_is_strong(password: &str, username: &str) -> (r: bool)
    ensures
        r == password_is_strong_spec(password@, username@),
{
    let lp = str_to_lowercase(password);
    let lu = str_to_lowercase(username);
    let vp = chars_of(lp.as_str());
    let vu = chars_of(lu.as_str());
    if chars_contains(vp.as_slice(), vu.as_slice()) {
        return false;
    }
    if password.len() < MIN_PASSWORD_LEN {
        return false;
    }
    let upper = regex_upper_match("[A-Z]", password);
    let lower = regex_lower_match("[a-z]", password);
    let digit = regex_digit_match("\\d", password);
    let special = regex_special_match("[@$!%*?&\\-_#]", password);
    match (upper, lower, digit, special) {
        (Some(u), Some(l), Some(d), Some(s)) => u && l && d && s,
        _ => false,
    }
}

/// Hashes a plaintext password with Argon2id and returns the PHC string.
pub fn hash_password(password: &str) -> (r: Result<String, AuthError>)
    ensures
        vstd::utf8::encode_utf8(password@).len() <= u32::MAX ==> r is Ok,
        r matches Ok(h) ==> argon2_phc_check(password@, h@) == Some(true)
            && "$argon2id$v=19$m=65536,t=3,p=1$"@.is_prefix_of(h@),
        r matches Err(e) ==> e == AuthError::HashFailed,
{
    proof {
        lemma_stored_phc_header();
    }
    match argon2_hash(password, Argon2Variant::Argon2id, Argon2Version::V0x13, ARGON2_M_COST, ARGON2_T_COST, ARGON2_P_COST) {
        Ok(h) => Ok(h),
        Err(_) => Err(AuthError::HashFailed),
    }
}

/// Verifies a password against a stored PHC hash.
pub fn verify_password(password: &str, stored_hash: &str) -> (r: Result<bool, AuthError>)
    ensures
        r == (match argon2_phc_check(password@, stored_hash@) {
            Some(b) => Ok(b),
            None => Err(AuthError::InvalidHashFormat),
        }),
{
    match argon2_verify(password, stored_hash) {
        Some(b) => Ok(b),
        None => Err(AuthError::InvalidHashFormat),
    }
}

/// What the acting account's stored `(role, is_active)` row lets it do at registration.
#[derive(Debug, Clone, Copy, PartialEq, Eq)]
pub enum RegistrationGate {
    /// The acting account is missing or disabled.
    Disabled,
    /// Guests cannot register anyone.
    GuestRefused,
    /// The stored role is none of the known ones.
    InvalidRole,
    /// An admin, homeowner or technician may go on.
    Allowed,
}

/// An account that cannot be found is treated as a disabled guest.
pub open spec fn registration_gate_spec(acting: Option<(Seq<char>, i64)>) -> RegistrationGate {
    match acting {
        None => RegistrationGate::Disabled,
        Some((role, active)) => if active != 1 {
            RegistrationGate::Disabled
        } else if role == "guest"@ {
            RegistrationGate::GuestRefused
        } else if role == "homeowner"@ || role == "technician"@ || role == "admin"@ {
            RegistrationGate::Allowed
        } else {
            RegistrationGate::InvalidRole
        },
    }
}

/// Decides from the acting account's stored role and active flag whether it may register users.
pub fn registration_gate(acting: Option<(&str, i64)>) -> (g: RegistrationGate)
    ensures
        g == registration_gate_spec(match acting {
            None => None,
            Some((role, active)) => Some((role@, active)),
        }),
{
    match acting {
        None => RegistrationGate::Disabled,
        Some((role, active)) => {
            if active != 1 {
                RegistrationGate::Disabled
            } else if str_eq(role, "guest") {
                RegistrationGate::GuestRefused
            } else if str_eq(role, "homeowner") || str_eq(role, "technician") || str_eq(role, "admin") {
                RegistrationGate::Allowed
            } else {
                RegistrationGate::InvalidRole
            }
        },
    }
}

/// The role of the account being created: an admin names `guest`, `homeowner` or
/// `technician` (trimmed, lower-cased); a homeowner can only create guests; a technician
/// only manages existing guests and creates no account.
pub open spec fn new_account_role_spec(acting_role: Seq<char>, requested: Seq<char>) -> Option<Seq<char>> {
    if acting_role == "admin"@ {
        let r = lowercase_of(trim_spec(requested));
        if r == "guest"@ || r == "homeowner"@ || r == "technician"@ {
            Some(r)
        } else {
            None
        }
    } else if acting_role == "homeowner"@ {
        Some("guest"@)
    } else {
        None
    }
}

/// Determines the new account's role from the acting role and, for admins, the typed request.
/// `None` means the request is refused.
pub fn new_account_role(acting_role: &str, requested: &str) -> (r: Option<String>)
    requires
        acting_role@ == "admin"@ || acting_role@ == "homeowner"@ || acting_role@ == "technician"@,
    ensures
        r matches Some(s) ==> new_account_role_spec(acting_role@, requested@) == Some(s@),
        r is None ==> new_account_role_spec(acting_role@, requested@) is None,
{
    if str_eq(acting_role, "admin") {
        let v = chars_of(requested);
        let t = trim_chars(v.as_slice());
        let ts = crate::text::string_from_chars(t.as_slice());
        let r = str_to_lowercase(ts.as_str());
        if str_eq(r.as_str(), "guest") || str_eq(r.as_str(), "homeowner") || str_eq(r.as_str(), "technician") {
            Some(r)
        } else {
            None
        }
    } else if str_eq(acting_role, "homeowner") {
        Some("guest".to_owned())
    } else {
        None
    }
}

/// Registration never creates an admin account, homeowners only ever create guests, and
/// technicians create no account at all.
pub proof fn lemma_no_admin_creation(acting_role: Seq<char>, requested: Seq<char>)
    ensures
        new_account_role_spec(acting_role, requested) != Some("admin"@),
        acting_role == "homeowner"@ ==> new_account_role_spec(acting_role, requested) == Some("guest"@),
        acting_role == "technician"@ ==> new_account_role_spec(acting_role, requested) is None,
{
    reveal_strlit("admin");
    reveal_strlit("guest");
    reveal_strlit("homeowner");
    reveal_strlit("technician");
    assert("admin"@[0] != "guest"@[0]);
    assert("admin"@.len() != "homeowner"@.len());
    assert("admin"@.len() != "technician"@.len());
}

/// The outcome of checking a new password or PIN at registration.
#[derive(Debug, Clone, Copy, PartialEq, Eq)]
pub enum SecretCheck {
    /// Longer than `MAX_SECRET_LEN` bytes.
    TooLong,
    /// A guest PIN that is not all digits or has fewer than `MIN_PIN_LEN` of them.
    InvalidPin,
    /// A password that fails `password_is_strong`.
    Weak,
    /// Nothing was typed.
    Empty,
    /// The secret may be used.
    Accepted,
}

/// The registration rules for a new secret, in the order they are applied.
pub open spec fn check_new_secret_spec(is_guest: bool, secret: Seq<char>, username: Seq<char>) -> SecretCheck {
    let bytes = vstd::utf8::encode_utf8(secret).len() as usize;
    if bytes > MAX_SECRET_LEN {
        SecretCheck::TooLong
    } else if is_guest && (bytes < MIN_PIN_LEN || !(forall|i: int| 0 <= i < secret.len() ==> is_digit(#[trigger] secret[i]))) {
        SecretCheck::InvalidPin
    } else if !is_guest && !password_is_strong_spec(secret, username) {
        SecretCheck::Weak
    } else if secret.len() == 0 {
        SecretCheck::Empty
    } else {
        SecretCheck::Accepted
    }
}

/// Checks a new password (or, for a guest, PIN) typed at registration.
pub fn check_new_secret(new_role: &str, secret: &str, username: &str) -> (c: SecretCheck)
    ensures
        c == check_new_secret_spec(new_role@ == "guest"@, secret@, username@),
{
    let is_guest = str_eq(new_role, "guest");
    if secret.len() > MAX_SECRET_LEN {
        return SecretCheck::TooLong;
    }
    if is_guest {
        if secret.len() < MIN_PIN_LEN {
            return SecretCheck::InvalidPin;
        }
        let v = chars_of(secret);
        let mut i: usize = 0;
        while i < v.len()
            invariant
                v@ == secret@,
                i <= v.len(),
                new_role@ == "guest"@,
                secret.len() <= MAX_SECRET_LEN,
                secret.len() >= MIN_PIN_LEN,
                forall|k: int| 0 <= k < i ==> is_digit(#[trigger] v@[k]),
            decreases v.len() - i,
        {
            if !('0' <= v[i] && v[i] <= '9') {
                assert(!is_digit(secret@[i as int]));
                return SecretCheck::InvalidPin;
            }
            i += 1;
        }
    } else if !password_is_strong(secret, username) {
        return SecretCheck::Weak;
    }
    if secret.is_empty() {
        return SecretCheck::Empty;
    }
    SecretCheck::Accepted
}

/// Why registration refuses the credentials typed for a new account.
#[derive(Debug, Clone, Copy, PartialEq, Eq)]
pub enum CredentialRefusal {
    /// The username fails `username_is_valid`.
    InvalidUsername,
    /// The password or PIN fails `check_new_secret` for this reason.
    Secret(SecretCheck),
    /// The confirmation differs from the secret.
    Mismatch,
}

/// The checks on a new account's credentials, in the order registration applies them.
pub open spec fn credential_check_spec(new_role: Seq<char>, username: Seq<char>, secret: Seq<char>, confirm: Seq<char>) -> Option<CredentialRefusal> {
    let c = check_new_secret_spec(new_role == "guest"@, secret, username);
    if !username_is_valid_spec(username) {
        Some(CredentialRefusal::InvalidUsername)
    } else if c != SecretCheck::Accepted {
        Some(CredentialRefusal::Secret(c))
    } else if confirm != secret {
        Some(CredentialRefusal::Mismatch)
    } else {
        None
    }
}

/// Checks the username and the secret (with its confirmation) of a new account of role
/// `new_role` and returns the Argon2id hash to store. A refused request is answered with the
/// first rule it breaks; an accepted one is always hashed. The stored hash verifies against
/// the secret, carries the library's Argon2id header, and a guest's hash never equals the PIN.
pub fn register_credential(new_role: &str, username: &str, secret: &str, confirm: &str) -> (r: Result<String, CredentialRefusal>)
    ensures
        credential_check_spec(new_role@, username@, secret@, confirm@) matches Some(e) ==> r == Err::<String, CredentialRefusal>(e),
        credential_check_spec(new_role@, username@, secret@, confirm@) is None ==> r is Ok,
        r matches Ok(h) ==> {
            &&& credential_check_spec(new_role@, username@, secret@, confirm@) is None
            &&& argon2_phc_check(secret@, h@) == Some(true)
            &&& "$argon2id$v=19$m=65536,t=3,p=1$"@.is_prefix_of(h@)
            &&& (new_role@ == "guest"@ ==> h@ != secret@)
        },
{
    if !username_is_valid(username) {
        return Err(CredentialRefusal::InvalidUsername);
    }
    let c = check_new_secret(new_role, secret, username);
    match c {
        SecretCheck::Accepted => {},
        _ => {
            return Err(CredentialRefusal::Secret(c));
        },
    }
    if !str_eq(confirm, secret) {
        return Err(CredentialRefusal::Mismatch);
    }
    let n = secret.as_bytes().len();
    assert(n <= MAX_SECRET_LEN);
    match hash_password(secret) {
        Ok(h) => {
            proof {
                reveal_strlit("$argon2id$v=19$m=65536,t=3,p=1$");
                if new_role@ == "guest"@ {
                    assert(secret@.len() > 0);
                    assert(is_digit(secret@[0]));
                    let header = "$argon2id$v=19$m=65536,t=3,p=1$"@;
                    assert(header[0] == '$');
                    assert(h@.subrange(0, header.len() as int)[0] == h@[0]);
                    assert(h@[0] == '$');
                }
            }
            Ok(h)
        },
        Err(_) => {
            assert(false);
            Err(CredentialRefusal::Mismatch)
        },
    }
}

/// The verdict on a login attempt once the stored account has been looked up.
#[derive(Debug, Clone, Copy, PartialEq, Eq)]
pub enum LoginCheck {
    /// Unknown user or wrong password: the two are answered alike.
    BadCredentials,
    /// The password is right but the account is disabled.
    Disabled,
    /// The password is right and the account is active.
    Accepted,
}

/// Password first, then the active flag: a wrong password is never told apart from
/// an unknown user or a disabled account.
pub open spec fn login_check_spec(stored_active: Option<i64>, password_ok: bool) -> LoginCheck {
    match stored_active {
        None => LoginCheck::BadCredentials,
        Some(active) => if !password_ok {
            LoginCheck::BadCredentials
        } else if active != 1 {
            LoginCheck::Disabled
        } else {
            LoginCheck::Accepted
        },
    }
}

/// Decides a user login from the stored active flag (`None` for an unknown user)
/// and whether the password verified.
pub fn login_check(stored_active: Option<i64>, password_ok: bool) -> (c: LoginCheck)
    ensures
        c == login_check_spec(stored_active, password_ok),
{
    match stored_active {
        None => LoginCheck::BadCredentials,
        Some(active) => if !password_ok {
            LoginCheck::BadCredentials
        } else if active != 1 {
            LoginCheck::Disabled
        } else {
            LoginCheck::Accepted
        },
    }
}

/// Guest logins treat only an active flag of 0 as disabled.
pub open spec fn guest_login_check_spec(stored_active: Option<i64>, pin_ok: bool) -> LoginCheck {
    match stored_active {
        None => LoginCheck::BadCredentials,
        Some(active) => if !pin_ok {
            LoginCheck::BadCredentials
        } else if active == 0 {
            LoginCheck::Disabled
        } else {
            LoginCheck::Accepted
        },
    }
}

/// Decides a guest login from the stored active flag (`None` for an unknown guest)
/// and whether the PIN verified.
pub fn guest_login_check(stored_active: Option<i64>, pin_ok: bool) -> (c: LoginCheck)
    ensures
        c == guest_login_check_spec(stored_active, pin_ok),
{
    match stored_active {
        None => LoginCheck::BadCredentials,
        Some(active) => if !pin_ok {
            LoginCheck::BadCredentials
        } else if active == 0 {
            LoginCheck::Disabled
        } else {
            LoginCheck::Accepted
        },
    }
}

/// A guest whose PIN verifies is refused as disabled exactly when the stored active flag is
/// 0, and let in otherwise; an unknown guest or a wrong PIN is always answered as bad
/// credentials. For the flags 0 and 1 a guest login is decided as a user login is.
pub proof fn lemma_guest_login_outcomes(active: i64, pin_ok: bool)
    ensures
        (guest_login_check_spec(Some(active), true) == LoginCheck::Disabled) <==> active == 0,
        (guest_login_check_spec(Some(active), true) == LoginCheck::Accepted) <==> active != 0,
        guest_login_check_spec(Some(active), false) == LoginCheck::BadCredentials,
        guest_login_check_spec(None, pin_ok) == LoginCheck::BadCredentials,
        (active == 0 || active == 1) ==> guest_login_check_spec(Some(active), pin_ok) == login_check_spec(Some(active), pin_ok),
{
}

/// A wrong password is answered exactly as an unknown user is, whatever the account's state.
pub proof fn lemma_login_no_enumeration(active: i64)
    ensures
        login_check_spec(Some(active), false) == login_check_spec(None, false),
        guest_login_check_spec(Some(active), false) == guest_login_check_spec(None, false),
{
}

/// A guest PIN is numeric and at least `MIN_PIN_LEN` digits long.
pub open spec fn pin_is_valid_spec(pin: Seq<char>) -> bool {
    pin.len() >= MIN_PIN_LEN && forall|i: int| 0 <= i < pin.len() ==> is_digit(#[trigger] pin[i])
}

/// Checks a guest PIN typed at reset: all ASCII digits, at least `MIN_PIN_LEN` of them.
pub fn reset_pin_is_valid(pin: &str) -> (r: bool)
    ensures
        r == pin_is_valid_spec(pin@),
{
    let v = chars_of(pin);
    if v.len() < MIN_PIN_LEN {
        return false;
    }
    let mut i: usize = 0;
    while i < v.len()
        invariant
            v@ == pin@,
            v.len() >= MIN_PIN_LEN,
            i <= v.len(),
            forall|k: int| 0 <= k < i ==> is_digit(#[trigger] v@[k]),
        decreases v.len() - i,
    {
        if !('0' <= v[i] && v[i] <= '9') {
            assert(!is_digit(pin@[i as int]));
            return false;
        }
        i += 1;
    }
    true
}

} // verus!
