use qb_backend::problem::{
    invalid_credentials_problem, invalid_display_name_problem, invalid_name_chars_problem,
    invalid_name_length_problem, json_error_problem, not_found_problem, problem_type_url,
    user_conflict_problem, ProblemType,
};

#[test]
fn probs_catalogue_urls() {
    assert_eq!(problem_type_url(ProblemType::InvalidCredentials), "https://quixbyte.com/probs/invalid_credentials");
    assert_eq!(problem_type_url(ProblemType::InvalidName), "https://quixbyte.com/probs/invalid_name");
    assert_eq!(problem_type_url(ProblemType::InvalidDisplayName), "https://quixbyte.com/probs/invalid_display_name");
    assert_eq!(problem_type_url(ProblemType::InvalidPayload), "https://quixbyte.com/probs/invalid_payload");
    assert_eq!(problem_type_url(ProblemType::ConflictUser), "https://quixbyte.com/probs/conflict_user");
    assert_eq!(problem_type_url(ProblemType::NotFound), "https://quixbyte.com/probs/not_found");
}

#[test]
fn not_found_problem_members() {
    let p = not_found_problem("/api/nowhere");
    assert_eq!(p.status, 404);
    assert_eq!(p.title, "Not found");
    assert_eq!(p.detail, "The requested resource could not be found.");
    assert_eq!(p.type_url, "https://quixbyte.com/probs/not_found");
    assert_eq!(p.instance, "/api/nowhere");
    assert!(p.error.is_none());
}

#[test]
fn json_error_problem_members() {
    let p = json_error_problem("/auth/login", "Json deserialize error: missing field `name`");
    assert_eq!(p.status, 422);
    assert_eq!(p.title, "Invalid json payload");
    assert_eq!(p.detail, "An error occured while processing the json payload.");
    assert_eq!(p.type_url, "https://quixbyte.com/probs/invalid_payload");
    assert_eq!(p.instance, "/auth/login");
    assert_eq!(p.error.as_deref(), Some("Json deserialize error: missing field `name`"));
}

#[test]
fn account_problem_members() {
    let p = invalid_credentials_problem();
    assert_eq!(p.status, 400);
    assert_eq!(p.title, "Invalid credentials");
    assert_eq!(p.type_url, "https://quixbyte.com/errors/invalid_credentials");
    assert_eq!(p.instance, "/auth/login");

    let p = invalid_name_length_problem();
    assert_eq!(p.status, 400);
    assert_eq!(p.detail, "The name identifier should be between 4 and 16 characters long.");
    assert_eq!(p.type_url, "https://quixbyte.com/errors/invalid_name");
    assert_eq!(p.instance, "/auth/register");

    let p = invalid_name_chars_problem();
    assert_eq!(p.title, "Invalid name");
    assert_eq!(p.detail, "The name identifier should only contain a-z + '_'.");

    let p = invalid_display_name_problem();
    assert_eq!(p.title, "Invalid display name");
    assert_eq!(p.type_url, "https://quixbyte.com/errors/invalid_display_name");

    let p = user_conflict_problem();
    assert_eq!(p.status, 409);
    assert_eq!(p.title, "User conflict");
    assert_eq!(p.detail, "A user with this name identifier already exists.");
    assert_eq!(p.type_url, "https://quixbyte.com/errors/user_conflict");
    assert_eq!(p.instance, "/auth/register");
}
