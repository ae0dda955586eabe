//! Problem documents (RFC 7807 style) that the service answers failed
//! requests with, and the catalogue of problem type URLs.

use vstd::prelude::*;

verus! {

/// A problem document: what the service sends back instead of a result.
/// The transport layer turns it into an `application/problem+json` reply.
pub struct Problem {
    /// HTTP status code of the reply.
    pub status: u16,
    /// Short, human-readable summary of the problem type.
    pub title: String,
    /// Human-readable explanation of this occurrence.
    pub detail: String,
    /// URL that identifies the problem type.
    pub type_url: String,
    /// Path of the request that produced the problem.
    pub instance: String,
    /// Extra `error` member, set where an underlying error message is passed on.
    pub error: Option<String>,
}

/// The problem types that carry a URL under the `probs` catalogue.
#[derive(Clone, Copy, Debug, PartialEq, Eq, Structural)]
pub enum ProblemType {
    InvalidCredentials,
    InvalidName,
    InvalidDisplayName,
    InvalidPayload,
    ConflictUser,
    NotFound,
}

pub const BAD_REQUEST: u16 = 400;
pub const NOT_FOUND: u16 = 404;
pub const CONFLICT: u16 = 409;
pub const UNPROCESSABLE_ENTITY: u16 = 422;

/// Prefix shared by every URL of the `probs` catalogue.
pub open spec fn probs_prefix() -> Seq<char> {
    "https://quixbyte.com/probs/"@
}

/// The upper-case name under which a problem type is declared.
pub open spec fn declared_name(kind: ProblemType) -> Seq<char> {
    match kind {
        ProblemType::InvalidCredentials => "INVALID_CREDENTIALS"@,
        ProblemType::InvalidName => "INVALID_NAME"@,
        ProblemType::InvalidDisplayName => "INVALID_DISPLAY_NAME"@,
        ProblemType::InvalidPayload => "INVALID_PAYLOAD"@,
        ProblemType::ConflictUser => "CONFLICT_USER"@,
        ProblemType::NotFound => "NOT_FOUND"@,
    }
}

/// The last path segment of a problem type's URL.
pub open spec fn type_slug(kind: ProblemType) -> Seq<char> {
    match kind {
        ProblemType::InvalidCredentials => "invalid_credentials"@,
        ProblemType::InvalidName => "invalid_name"@,
        ProblemType::InvalidDisplayName => "invalid_display_name"@,
        ProblemType::InvalidPayload => "invalid_payload"@,
        ProblemType::ConflictUser => "conflict_user"@,
        ProblemType::NotFound => "not_found"@,
    }
}

/// ASCII lower-casing of one character; other characters stay as they are.
pub open spec fn ascii_lower(c: char) -> char {
    if 'A' <= c && c <= 'Z' {
        ((c as u32) + 32) as char
    } else {
        c
    }
}

/// ASCII lower-casing of a whole sequence of characters.
pub open spec fn ascii_lowercase(s: Seq<char>) -> Seq<char> {
    s.map_values(|c: char| ascii_lower(c))
}

/// The URL that identifies a problem type of the `probs` catalogue.
pub open spec fn problem_type_url_spec(kind: ProblemType) -> Seq<char> {
    probs_prefix() + type_slug(kind)
}

/// What it means for `p` to be the problem document with the given members
/// and no extra `error` member.
pub open spec fn problem_is(
    p: Problem,
    status: u16,
    title: Seq<char>,
    detail: Seq<char>,
    type_url: Seq<char>,
    instance: Seq<char>,
) -> bool {
    &&& p.status == status
    &&& p.title@ == title
    &&& p.detail@ == detail
    &&& p.type_url@ == type_url
    &&& p.instance@ == instance
    &&& p.error is None
}

/// The answer to a login whose name and password match no account.
pub open spec fn is_invalid_credentials_problem(p: Problem) -> bool {
    problem_is(
        p,
        BAD_REQUEST,
        "Invalid credentials"@,
        "The name identifier and/or password you passed could not be associated with an account."@,
        errors_prefix() + "invalid_credentials"@,
        "/auth/login"@,
    )
}

/// The answer to a registration whose name has a length outside 4 to 16 characters.
pub open spec fn is_invalid_name_length_problem(p: Problem) -> bool {
    problem_is(
        p,
        BAD_REQUEST,
        "Invalid name"@,
        "The name identifier should be between 4 and 16 characters long."@,
        errors_prefix() + "invalid_name"@,
        "/auth/register"@,
    )
}

/// The answer to a registration whose name holds a character other than `a`-`z` and `_`.
pub open spec fn is_invalid_name_chars_problem(p: Problem) -> bool {
    problem_is(
        p,
        BAD_REQUEST,
        "Invalid name"@,
        "The name identifier should only contain a-z + '_'."@,
        errors_prefix() + "invalid_name"@,
        "/auth/register"@,
    )
}

/// The answer to a registration whose display name has a length outside 1 to 50 characters.
pub open spec fn is_invalid_display_name_problem(p: Problem) -> bool {
    problem_is(
        p,
        BAD_REQUEST,
        "Invalid display name"@,
        "The display name should be between 1 and 50 characters long."@,
        errors_prefix() + "invalid_display_name"@,
        "/auth/register"@,
    )
}

/// The answer to a registration whose account could not be stored because
/// the name is taken.
pub open spec fn is_user_conflict_problem(p: Problem) -> bool {
    problem_is(
        p,
        CONFLICT,
        "User conflict"@,
        "A user with this name identifier already exists."@,
        errors_prefix() + "user_conflict"@,
        "/auth/register"@,
    )
}

/// Concatenates two string slices into a fresh `String`.
pub fn concat_str(left: &str, right: &str) -> (joined: String)
    ensures
        joined@ == left@ + right@,
{
    let mut joined = left.to_owned();
    joined.append(right);
    joined
}

/// The last path segment of a problem type's URL.
pub fn type_slug_str(kind: ProblemType) -> (slug: &'static str)
    ensures
        slug@ == type_slug(kind),
{
    match kind {
        ProblemType::InvalidCredentials => "invalid_credentials",
        ProblemType::InvalidName => "invalid_name",
        ProblemType::InvalidDisplayName => "invalid_display_name",
        ProblemType::InvalidPayload => "invalid_payload",
        ProblemType::ConflictUser => "conflict_user",
        ProblemType::NotFound => "not_found",
    }
}

/// The URL of a problem type in the `probs` catalogue: the catalogue prefix
/// followed by the lower-cased name of the type.
pub fn problem_type_url(kind: ProblemType) -> (url: String)
    ensures
        url@ == problem_type_url_spec(kind),
        url@ == probs_prefix() + ascii_lowercase(declared_name(kind)),
{
    proof {
        lemma_slug_is_lowercased_name(kind);
    }
    concat_str("https://quixbyte.com/probs/", type_slug_str(kind))
}

/// Prefix of the URLs that the account endpoints give their problems.
pub open spec fn errors_prefix() -> Seq<char> {
    "https://quixbyte.com/errors/"@
}

/// Builds a problem document without an extra `error` member.
pub fn make_problem(status: u16, title: &str, detail: &str, type_url: String, instance: String) -> (p: Problem)
    ensures
        problem_is(p, status, title@, detail@, type_url@, instance@),
{
    Problem {
        status,
        title: title.to_owned(),
        detail: detail.to_owned(),
        type_url,
        instance,
        error: None,
    }
}

/// The answer to a login whose name and password match no account.
pub fn invalid_credentials_problem() -> (p: Problem)
    ensures
        is_invalid_credentials_problem(p),
{
    make_problem(
        BAD_REQUEST,
        "Invalid credentials",
        "The name identifier and/or password you passed could not be associated with an account.",
        concat_str("https://quixbyte.com/errors/", "invalid_credentials"),
        "/auth/login".to_owned(),
    )
}

/// The answer to a registration whose name has a length outside 4 to 16 characters.
pub fn invalid_name_length_problem() -> (p: Problem)
    ensures
        is_invalid_name_length_problem(p),
{
    make_problem(
        BAD_REQUEST,
        "Invalid name",
        "The name identifier should be between 4 and 16 characters long.",
        concat_str("https://quixbyte.com/errors/", "invalid_name"),
        "/auth/register".to_owned(),
    )
}

/// The answer to a registration whose name holds a character other than `a`-`z` and `_`.
pub fn invalid_name_chars_problem() -> (p: Problem)
    ensures
        is_invalid_name_chars_problem(p),
{
    make_problem(
        BAD_REQUEST,
        "Invalid name",
        "The name identifier should only contain a-z + '_'.",
        concat_str("https://quixbyte.com/errors/", "invalid_name"),
        "/auth/register".to_owned(),
    )
}

/// The answer to a registration whose display name has a length outside 1 to 50 characters.
pub fn invalid_display_name_problem() -> (p: Problem)
    ensures
        is_invalid_display_name_problem(p),
{
    make_problem(
        BAD_REQUEST,
        "Invalid display name",
        "The display name should be between 1 and 50 characters long.",
        concat_str("https://quixbyte.com/errors/", "invalid_display_name"),
        "/auth/register".to_owned(),
    )
}

/// The answer to a registration whose account could not be stored because
/// the name is taken.
pub fn user_conflict_problem() -> (p: Problem)
    ensures
        is_user_conflict_problem(p),
{
    make_problem(
        CONFLICT,
        "User conflict",
        "A user with this name identifier already exists.",
        concat_str("https://quixbyte.com/errors/", "user_conflict"),
        "/auth/register".to_owned(),
    )
}

/// The answer to a request for a path that no route serves.
pub fn not_found_problem(path: &str) -> (p: Problem)
    ensures
        problem_is(
            p,
            NOT_FOUND,
            "Not found"@,
            "The requested resource could not be found."@,
            problem_type_url_spec(ProblemType::NotFound),
            path@,
        ),
{
    make_problem(
        NOT_FOUND,
        "Not found",
        "The requested resource could not be found.",
        problem_type_url(ProblemType::NotFound),
        path.to_owned(),
    )
}

/// The answer to a request whose JSON body could not be read; `error_text`
/// is the message of the underlying error and is passed on as `error`.
pub fn json_error_problem(path: &str, error_text: &str) -> (p: Problem)
    ensures
        p.status == UNPROCESSABLE_ENTITY,
        p.title@ == "Invalid json payload"@,
        p.detail@ == "An error occured while processing the json payload."@,
        p.type_url@ == problem_type_url_spec(ProblemType::InvalidPayload),
        p.instance@ == path@,
        p.error matches Some(e) && e@ == error_text@,
{
    let mut p = make_problem(
        UNPROCESSABLE_ENTITY,
        "Invalid json payload",
        "An error occured while processing the json payload.",
        problem_type_url(ProblemType::InvalidPayload),
        path.to_owned(),
    );
    p.error = Some(error_text.to_owned());
    p
}

/// Every slug of the `probs` catalogue is the ASCII lower-casing of the
/// name under which its problem type is declared.
pub proof fn lemma_slug_is_lowercased_name(kind: ProblemType)
    ensures
        type_slug(kind) == ascii_lowercase(declared_name(kind)),
{
    match kind {
        ProblemType::InvalidCredentials => {
            reveal_strlit("INVALID_CREDENTIALS");
            reveal_strlit("invalid_credentials");
            assert(type_slug(kind) =~= ascii_lowercase(declared_name(kind)));
        },
        ProblemType::InvalidName => {
            reveal_strlit("INVALID_NAME");
            reveal_strlit("invalid_name");
            assert(type_slug(kind) =~= ascii_lowercase(declared_name(kind)));
        },
        ProblemType::InvalidDisplayName => {
            reveal_strlit("INVALID_DISPLAY_NAME");
            reveal_strlit("invalid_display_name");
            assert(type_slug(kind) =~= ascii_lowercase(declared_name(kind)));
        },
        ProblemType::InvalidPayload => {
            reveal_strlit("INVALID_PAYLOAD");
            reveal_strlit("invalid_payload");
            assert(type_slug(kind) =~= ascii_lowercase(declared_name(kind)));
        },
        ProblemType::ConflictUser => {
            reveal_strlit("CONFLICT_USER");
            reveal_strlit("conflict_user");
            assert(type_slug(kind) =~= ascii_lowercase(declared_name(kind)));
        },
        ProblemType::NotFound => {
            reveal_strlit("NOT_FOUND");
            reveal_strlit("not_found");
            assert(type_slug(kind) =~= ascii_lowercase(declared_name(kind)));
        },
    }
}

} // verus!
