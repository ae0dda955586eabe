use qb_backend::auth::{
    check_credentials, decide_login, grant_session, prepare_registration, registration_reply,
    validate_registration, LoginOutcome, LoginUser, RegisterError, RegisterOutcome, RegisterUser,
    UserRecord, DUMMY_HASH, SESSION_TTL_SECONDS,
};

fn register_request(name: &str, display_name: &str, password: &str) -> RegisterUser {
    RegisterUser {
        name: name.to_string(),
        display_name: display_name.to_string(),
        password: password.to_string(),
    }
}

fn login_request(name: &str, password: &str) -> LoginUser {
    LoginUser { name: name.to_string(), password: password.to_string() }
}

fn record(id: i32, name: &str, hash: &str) -> UserRecord {
    UserRecord {
        id,
        name: name.to_string(),
        display_name: name.to_string(),
        password: hash.to_string(),
    }
}

#[test]
fn registration_rules_accept_valid_requests() {
    assert_eq!(validate_registration(&register_request("abcd", "A", "pw")), Ok(()));
    assert_eq!(validate_registration(&register_request("abcdefghijklmnop", "Display Name", "pw")), Ok(()));
    assert_eq!(validate_registration(&register_request("snake_case_z", "Zed", "pw")), Ok(()));
    let long_display = "d".repeat(50);
    assert_eq!(validate_registration(&register_request("quix", &long_display, "pw")), Ok(()));
}

#[test]
fn registration_rules_name_length() {
    assert_eq!(validate_registration(&register_request("abc", "A", "pw")), Err(RegisterError::NameLength));
    assert_eq!(validate_registration(&register_request("", "A", "pw")), Err(RegisterError::NameLength));
    assert_eq!(
        validate_registration(&register_request("abcdefghijklmnopq", "A", "pw")),
        Err(RegisterError::NameLength)
    );
    // the length is checked before the characters and the display name
    assert_eq!(validate_registration(&register_request("AB", "", "pw")), Err(RegisterError::NameLength));
}

#[test]
fn registration_rules_name_characters() {
    assert_eq!(validate_registration(&register_request("Abcd", "A", "pw")), Err(RegisterError::NameCharacters));
    assert_eq!(validate_registration(&register_request("ab-cd", "A", "pw")), Err(RegisterError::NameCharacters));
    assert_eq!(validate_registration(&register_request("ab12", "A", "pw")), Err(RegisterError::NameCharacters));
    assert_eq!(validate_registration(&register_request("abcé", "A", "pw")), Err(RegisterError::NameCharacters));
    assert_eq!(validate_registration(&register_request("ab cd", "", "pw")), Err(RegisterError::NameCharacters));
}

#[test]
fn registration_lengths_count_characters() {
    // three characters, four bytes: too short
    assert_eq!(validate_registration(&register_request("abé", "A", "pw")), Err(RegisterError::NameLength));
    // seventeen characters are too many whatever their bytes
    assert_eq!(
        validate_registration(&register_request("ééééééééééééééééé", "A", "pw")),
        Err(RegisterError::NameLength)
    );
    // 26 characters of two bytes each make a valid display name
    let accented = "é".repeat(26);
    assert_eq!(validate_registration(&register_request("abcd", &accented, "pw")), Ok(()));
    let fifty = "é".repeat(50);
    assert_eq!(validate_registration(&register_request("abcd", &fifty, "pw")), Ok(()));
    let fifty_one = "é".repeat(51);
    assert_eq!(
        validate_registration(&register_request("abcd", &fifty_one, "pw")),
        Err(RegisterError::DisplayNameLength)
    );
    match prepare_registration(&register_request("abcd", &accented, "pw")) {
        RegisterOutcome::Create(u) => assert_eq!(u.display_name, accented),
        _ => panic!("expected an account to create"),
    }
}

#[test]
fn registration_rules_display_name() {
    assert_eq!(validate_registration(&register_request("abcd", "", "pw")), Err(RegisterError::DisplayNameLength));
    let too_long = "d".repeat(51);
    assert_eq!(
        validate_registration(&register_request("abcd", &too_long, "pw")),
        Err(RegisterError::DisplayNameLength)
    );
}

#[test]
fn refused_registration_answers_with_problem() {
    match prepare_registration(&register_request("ab", "A", "pw")) {
        RegisterOutcome::Rejected(p) => {
            assert_eq!(p.status, 400);
            assert_eq!(p.title, "Invalid name");
            assert_eq!(p.detail, "The name identifier should be between 4 and 16 characters long.");
        }
        _ => panic!("expected a refusal"),
    }
    match prepare_registration(&register_request("abcd", "", "pw")) {
        RegisterOutcome::Rejected(p) => assert_eq!(p.title, "Invalid display name"),
        _ => panic!("expected a refusal"),
    }
}

#[test]
fn registered_password_logs_in() {
    let outcome = prepare_registration(&register_request("quix_user", "Quix User", "hunter2"));
    let new_user = match outcome {
        RegisterOutcome::Create(u) => u,
        _ => panic!("expected an account to create"),
    };
    assert_eq!(new_user.name, "quix_user");
    assert_eq!(new_user.display_name, "Quix User");
    assert!(new_user.password_hash.starts_with("$argon2id$v=19$m=19456,t=2,p=1$"));
    assert_ne!(new_user.password_hash, "hunter2");
    // the salt segment holds 22 B64 characters
    let salt = new_user.password_hash.split('$').nth(4).unwrap();
    assert_eq!(salt.len(), 22);

    assert_eq!(check_credentials("hunter2", Some(&new_user.password_hash)), Some(true));
    assert_eq!(check_credentials("hunter3", Some(&new_user.password_hash)), Some(false));

    let user = record(7, "quix_user", &new_user.password_hash);
    match decide_login(&login_request("quix_user", "hunter2"), Some(user)) {
        LoginOutcome::Granted(g) => assert_eq!(g.user_id, 7),
        _ => panic!("expected a session"),
    }
}

#[test]
fn two_registrations_use_different_salts() {
    let a = match prepare_registration(&register_request("abcd", "A", "same")) {
        RegisterOutcome::Create(u) => u.password_hash,
        _ => panic!("expected an account to create"),
    };
    let b = match prepare_registration(&register_request("abcd", "A", "same")) {
        RegisterOutcome::Create(u) => u.password_hash,
        _ => panic!("expected an account to create"),
    };
    assert_ne!(a, b);
}

#[test]
fn login_with_right_password_opens_session() {
    let user = record(42, "dummy", DUMMY_HASH);
    match decide_login(&login_request("dummy", "dummy_hash"), Some(user)) {
        LoginOutcome::Granted(g) => {
            assert_eq!(g.user_id, 42);
            assert_eq!(g.session.len(), 16);
            assert!(g.session.chars().all(|c| c.is_ascii_alphanumeric()));
            assert_eq!(g.key, format!("session:{}", g.session));
            assert_eq!(g.ttl_seconds, 14400);
            assert_eq!(SESSION_TTL_SECONDS, 4 * 60 * 60);
        }
        _ => panic!("expected a session"),
    }
}

#[test]
fn login_with_wrong_password_is_rejected() {
    let user = record(42, "dummy", DUMMY_HASH);
    match decide_login(&login_request("dummy", "not_the_password"), Some(user)) {
        LoginOutcome::Rejected(p) => {
            assert_eq!(p.status, 400);
            assert_eq!(p.title, "Invalid credentials");
            assert_eq!(
                p.detail,
                "The name identifier and/or password you passed could not be associated with an account."
            );
            assert_eq!(p.type_url, "https://quixbyte.com/errors/invalid_credentials");
            assert_eq!(p.instance, "/auth/login");
        }
        _ => panic!("expected a refusal"),
    }
}

#[test]
fn login_for_unknown_name_is_rejected_even_with_dummy_password() {
    match decide_login(&login_request("nobody", "dummy_hash"), None) {
        LoginOutcome::Rejected(p) => assert_eq!(p.title, "Invalid credentials"),
        _ => panic!("expected a refusal"),
    }
    assert_eq!(check_credentials("dummy_hash", None), Some(false));
}

#[test]
fn login_against_unreadable_hash() {
    let user = record(1, "broken", "not a phc string");
    assert!(matches!(
        decide_login(&login_request("broken", "pw"), Some(user)),
        LoginOutcome::StoredHashUnreadable
    ));
    assert_eq!(check_credentials("pw", Some("not a phc string")), None);
}

#[test]
fn session_grant_members() {
    let g = grant_session(3, "AbC123".to_string());
    assert_eq!(g.session, "AbC123");
    assert_eq!(g.key, "session:AbC123");
    assert_eq!(g.user_id, 3);
    assert_eq!(g.ttl_seconds, 14400);
}

#[test]
fn registration_reply_after_store() {
    assert_eq!(registration_reply(true).ok().as_deref(), Some("OK"));
    match registration_reply(false) {
        Err(p) => {
            assert_eq!(p.status, 409);
            assert_eq!(p.title, "User conflict");
        }
        Ok(_) => panic!("expected a conflict"),
    }
}
