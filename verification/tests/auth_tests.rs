use smart_thermostat::auth::{
    register_credential, CredentialRefusal,
    check_new_secret, guest_login_check, hash_password, login_check, new_account_role,
    password_is_strong, registration_gate, reset_pin_is_valid, role_is_valid, username_is_valid, verify_password,
    AuthError, LoginCheck, RegistrationGate, SecretCheck,
};

#[test]
fn test_username_validation() {
    assert_eq!(username_is_valid("Alice_123"), true); //valid username
    assert_eq!(username_is_valid("Bob!sCool"), false); // Contains special chars
    assert_eq!(username_is_valid("B"), false); // Short username
    assert_eq!(username_is_valid("VeryVeryVeryLongCoolAwesome_Username123ILikeCats"), false); //Very Long Username
}

#[test]
fn test_password_validation() {
    assert_eq!(password_is_strong("Password123", "user"), false); // No special chars
    assert_eq!(password_is_strong("ILoveCats", "user"), false); // Only letters
    assert_eq!(password_is_strong("12341241", "user"), false); // Only numbers
    assert_eq!(password_is_strong("User@123", "user"), false); // Contains username

    assert_eq!(password_is_strong("Str0ngP@ssword456", "user"), true); // Valid with all conditions
}

#[test]
fn test_role_validation() {
    assert_eq!(role_is_valid("homeowner"), true);
    assert_eq!(role_is_valid("notvalid"), false);
}

#[test]
fn test_password_hash_verif() {
    let password = "StrongP@ssword1";
    let wrong_pw = "Password";
    let hashed_pw = hash_password(password).expect("hashing failed");
    assert_eq!(verify_password(&password, &hashed_pw).expect("bad hash"), true);
    assert_eq!(verify_password(&wrong_pw, &hashed_pw).expect("bad hash"), false);
}

#[test]
fn username_edge_cases() {
    assert!(username_is_valid("abc"));
    assert!(username_is_valid("a_b_c_d_e_f_g_h_i_j_k_l_m_n_o_p_"));
    assert!(!username_is_valid("a_b_c_d_e_f_g_h_i_j_k_l_m_n_o_p_q"));
    assert!(!username_is_valid("ab"));
    assert!(!username_is_valid("has space"));
    assert!(!username_is_valid("tab\tname"));
    assert!(!username_is_valid("caf\u{e9}_user"));
    assert!(!username_is_valid(""));
}

#[test]
fn password_length_is_counted_in_bytes() {
    assert!(!password_is_strong("Ab1@xyz", "user"));
    assert!(password_is_strong("Ab1@xyzw", "user"));
    assert!(!password_is_strong("Ab1@ALICEw", "alice"));
    assert!(password_is_strong("Ab1-_#xyzw", "bob"));
}

#[test]
fn roles_outside_registration_are_invalid() {
    assert!(role_is_valid("guest"));
    assert!(role_is_valid("technician"));
    assert!(!role_is_valid("admin"));
    assert!(!role_is_valid("Homeowner"));
}

#[test]
fn verify_rejects_malformed_hash() {
    assert_eq!(verify_password("x", "not-a-phc-string"), Err(AuthError::InvalidHashFormat));
}

#[test]
fn hash_differs_from_password_and_is_salted() {
    let a = hash_password("Str0ngP@ss").unwrap();
    let b = hash_password("Str0ngP@ss").unwrap();
    assert_ne!(a, "Str0ngP@ss");
    assert_ne!(a, b);
    assert!(a.starts_with("$argon2id$v=19$m=65536,t=3,p=1$"));
}

#[test]
fn registration_gate_cases() {
    assert_eq!(registration_gate(None), RegistrationGate::Disabled);
    assert_eq!(registration_gate(Some(("admin", 0))), RegistrationGate::Disabled);
    assert_eq!(registration_gate(Some(("guest", 1))), RegistrationGate::GuestRefused);
    assert_eq!(registration_gate(Some(("homeowner", 1))), RegistrationGate::Allowed);
    assert_eq!(registration_gate(Some(("technician", 1))), RegistrationGate::Allowed);
    assert_eq!(registration_gate(Some(("admin", 1))), RegistrationGate::Allowed);
    assert_eq!(registration_gate(Some(("janitor", 1))), RegistrationGate::InvalidRole);
}

#[test]
fn new_account_role_cases() {
    assert_eq!(new_account_role("admin", "  HomeOwner \n"), Some("homeowner".to_string()));
    assert_eq!(new_account_role("admin", "technician"), Some("technician".to_string()));
    assert_eq!(new_account_role("admin", "admin"), None);
    assert_eq!(new_account_role("admin", " Guest"), Some("guest".to_string()));
    assert_eq!(new_account_role("admin", "landlord"), None);
    assert_eq!(new_account_role("homeowner", "technician"), Some("guest".to_string()));
    assert_eq!(new_account_role("technician", ""), None);
    assert_eq!(new_account_role("technician", "guest"), None);
}

#[test]
fn new_secret_rules() {
    assert_eq!(check_new_secret("guest", "123456", "bob"), SecretCheck::Accepted);
    assert_eq!(check_new_secret("guest", "12345", "bob"), SecretCheck::InvalidPin);
    assert_eq!(check_new_secret("guest", "12345a", "bob"), SecretCheck::InvalidPin);
    assert_eq!(check_new_secret("guest", "", "bob"), SecretCheck::InvalidPin);
    assert_eq!(check_new_secret("homeowner", "weak", "bob"), SecretCheck::Weak);
    assert_eq!(check_new_secret("homeowner", "Str0ngP@ss", "bob"), SecretCheck::Accepted);
    let long = "9".repeat(1025);
    assert_eq!(check_new_secret("guest", &long, "bob"), SecretCheck::TooLong);
    let max = "9".repeat(1024);
    assert_eq!(check_new_secret("guest", &max, "bob"), SecretCheck::Accepted);
}

#[test]
fn login_checks() {
    assert_eq!(login_check(None, true), LoginCheck::BadCredentials);
    assert_eq!(login_check(Some(1), false), LoginCheck::BadCredentials);
    assert_eq!(login_check(Some(0), false), LoginCheck::BadCredentials);
    assert_eq!(login_check(Some(0), true), LoginCheck::Disabled);
    assert_eq!(login_check(Some(2), true), LoginCheck::Disabled);
    assert_eq!(login_check(Some(1), true), LoginCheck::Accepted);
    assert_eq!(guest_login_check(Some(2), true), LoginCheck::Accepted);
    assert_eq!(guest_login_check(Some(0), true), LoginCheck::Disabled);
    assert_eq!(guest_login_check(Some(0), false), LoginCheck::BadCredentials);
    assert_eq!(guest_login_check(None, false), LoginCheck::BadCredentials);
}

#[test]
fn reset_pin_must_be_numeric() {
    assert!(reset_pin_is_valid("123456"));
    assert!(reset_pin_is_valid("0000000000"));
    assert!(!reset_pin_is_valid("12345"));
    assert!(!reset_pin_is_valid("abcdef"));
    assert!(!reset_pin_is_valid("12345a"));
    assert!(!reset_pin_is_valid(""));
}

#[test]
fn hash_of_pin_verifies_and_carries_header() {
    let h = hash_password("123456").unwrap();
    assert!(h.starts_with("$argon2id$v=19$m=65536,t=3,p=1$"));
    assert_eq!(verify_password("123456", &h), Ok(true));
    assert_eq!(verify_password("654321", &h), Ok(false));
}

#[test]
fn registration_credentials_are_checked_then_hashed() {
    let h = register_credential("guest", "bob_1", "123456", "123456").unwrap();
    assert!(h.starts_with("$argon2id$v=19$m=65536,t=3,p=1$"));
    assert_ne!(h, "123456");
    assert_eq!(verify_password("123456", &h), Ok(true));
    let p = register_credential("homeowner", "alice_1", "Str0ngP@ss", "Str0ngP@ss").unwrap();
    assert_eq!(verify_password("Str0ngP@ss", &p), Ok(true));
    assert_eq!(register_credential("guest", "bob_1", "123456", "123457"), Err(CredentialRefusal::Mismatch));
    assert_eq!(register_credential("guest", "b", "123456", "123456"), Err(CredentialRefusal::InvalidUsername));
    assert_eq!(register_credential("guest", "bob_1", "12a456", "12a456"), Err(CredentialRefusal::Secret(SecretCheck::InvalidPin)));
    assert_eq!(register_credential("homeowner", "alice_1", "weakpass", "weakpass"), Err(CredentialRefusal::Secret(SecretCheck::Weak)));
}

#[test]
fn password_classes() {
    // `\d` is any Unicode decimal digit, the other classes are ASCII only.
    assert!(password_is_strong("Abcdefg\u{0661}@", "user"));
    assert!(!password_is_strong("Àéîxyz1@w", "user"));
    assert!(!password_is_strong("abcdefg1@", "user"));
    assert!(!password_is_strong("ABCDEFG1@", "user"));
    assert!(!password_is_strong("Abcdefgh@", "user"));
    assert!(!password_is_strong("Abcdefg12", "user"));
    assert!(!password_is_strong("Abc_user1@", "USER"));
}
