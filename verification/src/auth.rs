//! Account rules: what a registration must look like, how a login is
//! checked, and what a successful login grants.

use vstd::prelude::*;

use crate::credentials::{
    argon2_hash, argon2_verifies, generate_salt, hash_password_with_salt, is_ascii_alphanumeric,
    is_canonical_salt16, parses_as_password_hash, phc_well_formed, sample_alphanumeric, utf8,
    verify_password_against, MAX_PASSWORD_BYTES,
};
use crate::problem::{
    invalid_credentials_problem, invalid_display_name_problem, invalid_name_chars_problem,
    invalid_name_length_problem, is_invalid_credentials_problem,
    is_invalid_display_name_problem, is_invalid_name_chars_problem,
    is_invalid_name_length_problem, is_user_conflict_problem, user_conflict_problem, Problem,
};

verus! {

/// A login request: the account's name identifier and a password.
#[derive(Debug)]
pub struct LoginUser {
    pub name: String,
    pub password: String,
}

/// A registration request.
#[derive(Debug)]
pub struct RegisterUser {
    pub name: String,
    pub display_name: String,
    pub password: String,
}

/// An account as the user store holds it; `password` is a PHC string.
pub struct UserRecord {
    pub id: i32,
    pub name: String,
    pub display_name: String,
    pub password: String,
}

/// An account that a registration asks the user store to create.
pub struct NewUser {
    pub name: String,
    pub display_name: String,
    pub password_hash: String,
}

/// A session that a successful login opens: the store keeps `user_id`
/// under `key` for `ttl_seconds`, and the client receives `session`.
pub struct SessionGrant {
    pub session: String,
    pub key: String,
    pub user_id: i32,
    pub ttl_seconds: usize,
}

/// What a login comes to.
pub enum LoginOutcome {
    /// The credentials are right: open this session.
    Granted(SessionGrant),
    /// The credentials are wrong, or the name is unknown.
    Rejected(Problem),
    /// The account's stored hash is no PHC string.
    StoredHashUnreadable,
}

/// Why a registration request is refused.
#[derive(Clone, Copy, Debug, PartialEq, Eq, Structural)]
pub enum RegisterError {
    /// The name is not 4 to 16 characters long.
    NameLength,
    /// The name holds a character other than `a`-`z` and `_`.
    NameCharacters,
    /// The display name is not 1 to 50 characters long.
    DisplayNameLength,
}

/// What a registration comes to before the account is stored.
pub enum RegisterOutcome {
    /// Store this account.
    Create(NewUser),
    /// The request breaks a rule.
    Rejected(Problem),
    /// Hashing the password failed.
    HashingFailed,
}

/// A PHC string that matches no account's password: a login for an unknown
/// name is checked against it, so that it costs as much as one for a known name.
/// It is the password `dummy_hash` under the salt `dummy_hash`.
pub const DUMMY_HASH: &'static str = "$argon2id$v=19$m=19456,t=2,p=1$ZHVtbXlfaGFzaA$mCwZQ8j8A6/Qq1AidH6RWqRkOEBs3BFo2P+WIEzUK9s";

/// Length of a session token.
pub const SESSION_TOKEN_LEN: usize = 16;

/// How long a session lasts: four hours.
pub const SESSION_TTL_SECONDS: usize = 4 * 60 * 60;

pub const NAME_MIN_LEN: usize = 4;
pub const NAME_MAX_LEN: usize = 16;
pub const DISPLAY_NAME_MIN_LEN: usize = 1;
pub const DISPLAY_NAME_MAX_LEN: usize = 50;

/// A character that a name may hold: `a` to `z`, or `_`.
pub open spec fn name_char_ok(c: char) -> bool {
    ('a' <= c && c <= 'z') || c == '_'
}

pub open spec fn name_length_ok(name: Seq<char>) -> bool {
    NAME_MIN_LEN <= name.len() <= NAME_MAX_LEN
}

pub open spec fn name_chars_ok(name: Seq<char>) -> bool {
    forall|i: int| 0 <= i < name.len() ==> name_char_ok(#[trigger] name[i])
}

pub open spec fn display_name_ok(display_name: Seq<char>) -> bool {
    DISPLAY_NAME_MIN_LEN <= display_name.len() <= DISPLAY_NAME_MAX_LEN
}

/// The rules a registration must meet, checked in this order; lengths count characters.
pub open spec fn registration_check(name: Seq<char>, display_name: Seq<char>) -> Result<(), RegisterError> {
    if !name_length_ok(name) {
        Err(RegisterError::NameLength)
    } else if !name_chars_ok(name) {
        Err(RegisterError::NameCharacters)
    } else if !display_name_ok(display_name) {
        Err(RegisterError::DisplayNameLength)
    } else {
        Ok(())
    }
}

/// The problem document that answers a refused registration.
pub open spec fn is_registration_problem(e: RegisterError, p: Problem) -> bool {
    match e {
        RegisterError::NameLength => is_invalid_name_length_problem(p),
        RegisterError::NameCharacters => is_invalid_name_chars_problem(p),
        RegisterError::DisplayNameLength => is_invalid_display_name_problem(p),
    }
}

/// The result of checking a password against an account's stored hash:
/// `Some(false)` where there is no account, `None` where the stored hash is
/// no PHC string, otherwise whether the password matches it.
pub open spec fn credentials_spec(password: Seq<u8>, stored: Option<Seq<char>>) -> Option<bool> {
    match stored {
        None => Some(false),
        Some(h) => if phc_well_formed(h) {
            Some(argon2_verifies(password, h))
        } else {
            None
        },
    }
}

/// Whether a login with `password` is admitted against the stored hash.
pub open spec fn login_admits(password: Seq<char>, stored: Option<Seq<char>>) -> bool {
    credentials_spec(utf8(password), stored) == Some(true)
}

/// Whether `hash` is fit to be stored for an account registered with `password`.
pub open spec fn hash_fits_password(password: Seq<char>, hash: Seq<char>) -> bool {
    phc_well_formed(hash) && argon2_verifies(utf8(password), hash)
}

/// The stored hash of an optional account.
pub open spec fn stored_hash(user: Option<UserRecord>) -> Option<Seq<char>> {
    match user {
        Some(u) => Some(u.password@),
        None => None,
    }
}

/// The key under which a session token is stored.
pub open spec fn session_key_spec(session: Seq<char>) -> Seq<char> {
    "session:"@ + session
}

/// Checks the registration rules: a name of 4 to 16 characters, each `a`-`z`
/// or `_`, and a display name of 1 to 50 characters.
pub fn validate_registration(req: &RegisterUser) -> (r: Result<(), RegisterError>)
    ensures
        r == registration_check(req.name@, req.display_name@),
        r is Ok <==> {
            &&& 4 <= req.name@.len() <= 16
            &&& forall|i: int| 0 <= i < req.name@.len() ==>
                ('a' <= #[trigger] req.name@[i] && req.name@[i] <= 'z') || req.name@[i] == '_'
            &&& 1 <= req.display_name@.len() <= 50
        },
{
    let name = req.name.as_str();
    let name_len = name.unicode_len();
    if name_len < NAME_MIN_LEN || name_len > NAME_MAX_LEN {
        return Err(RegisterError::NameLength);
    }
    let mut i: usize = 0;
    while i < name_len
        invariant
            name_len == name@.len(),
            name@ == req.name@,
            name_length_ok(name@),
            i <= name_len,
            forall|j: int| 0 <= j < i ==> name_char_ok(#[trigger] name@[j]),
        decreases name_len - i,
    {
        let c = name.get_char(i);
        if !(('a' <= c && c <= 'z') || c == '_') {
            assert(!name_char_ok(name@[i as int]));
            return Err(RegisterError::NameCharacters);
        }
        i = i + 1;
    }
    let display_len = req.display_name.as_str().unicode_len();
    if display_len < DISPLAY_NAME_MIN_LEN || display_len > DISPLAY_NAME_MAX_LEN {
        return Err(RegisterError::DisplayNameLength);
    }
    Ok(())
}

/// The problem document that answers a registration refused for `e`.
pub fn registration_problem(e: RegisterError) -> (p: Problem)
    ensures
        is_registration_problem(e, p),
{
    match e {
        RegisterError::NameLength => invalid_name_length_problem(),
        RegisterError::NameCharacters => invalid_name_chars_problem(),
        RegisterError::DisplayNameLength => invalid_display_name_problem(),
    }
}

/// What a registration that met the rules comes to, given the outcome of
/// hashing its password.
pub fn registration_outcome(req: &RegisterUser, hash: Option<String>) -> (r: RegisterOutcome)
    ensures
        hash is None ==> r is HashingFailed,
        hash matches Some(h) ==> (r matches RegisterOutcome::Create(u) && u.name@ == req.name@
            && u.display_name@ == req.display_name@ && u.password_hash@ == h@),
{
    match hash {
        Some(h) => RegisterOutcome::Create(
            NewUser {
                name: req.name.clone(),
                display_name: req.display_name.clone(),
                password_hash: h,
            },
        ),
        None => RegisterOutcome::HashingFailed,
    }
}

/// Checks a registration request and, where it meets the rules, hashes its
/// password with Argon2 under a fresh random salt.
pub fn prepare_registration(req: &RegisterUser) -> (r: RegisterOutcome)
    ensures
        registration_check(req.name@, req.display_name@) matches Err(e) ==>
            (r matches RegisterOutcome::Rejected(p) && is_registration_problem(e, p)),
        registration_check(req.name@, req.display_name@) is Ok ==> !(r is Rejected),
        r matches RegisterOutcome::Create(u) ==> {
            &&& registration_check(req.name@, req.display_name@) is Ok
            &&& u.name@ == req.name@
            &&& u.display_name@ == req.display_name@
            &&& hash_fits_password(req.password@, u.password_hash@)
            &&& u.password_hash@.len() > 0 && u.password_hash@[0] == '$'
            &&& (req.password@.len() == 0 || req.password@[0] != '$') ==> u.password_hash@ != req.password@
            &&& exists|salt: Seq<char>|
                is_canonical_salt16(salt) && argon2_hash(utf8(req.password@), salt) == Some(u.password_hash@)
        },
        r is HashingFailed <==> registration_check(req.name@, req.display_name@) is Ok
            && utf8(req.password@).len() > MAX_PASSWORD_BYTES,
        registration_check(req.name@, req.display_name@) is Ok
            && utf8(req.password@).len() <= MAX_PASSWORD_BYTES ==> r is Create,
{
    match validate_registration(req) {
        Err(e) => RegisterOutcome::Rejected(registration_problem(e)),
        Ok(()) => {
            let salt = generate_salt();
            let hash = hash_password_with_salt(req.password.as_str().as_bytes(), salt.as_str());
            registration_outcome(req, hash)
        },
    }
}

/// The reply to a registration once the user store has tried to create the
/// account: `OK`, or a conflict where the store refused it.
pub fn registration_reply(created: bool) -> (r: Result<String, Problem>)
    ensures
        created ==> (r matches Ok(body) && body@ == "OK"@),
        !created ==> (r matches Err(p) && is_user_conflict_problem(p)),
{
    if created {
        Ok("OK".to_owned())
    } else {
        Err(user_conflict_problem())
    }
}

/// Checks `password` against the stored hash of an account. Where there is
/// no account the password is checked against `DUMMY_HASH` all the same, so
/// that both cost the same, and the answer is `Some(false)`. `None` where the
/// stored hash is no PHC string.
pub fn check_credentials(password: &str, stored: Option<&str>) -> (r: Option<bool>)
    ensures
        r == credentials_spec(
            utf8(password@),
            match stored {
                Some(h) => Some(h@),
                None => None,
            },
        ),
        stored is None ==> r == Some(false),
        stored matches Some(h) ==> (r is None <==> !phc_well_formed(h@)),
        stored matches Some(h) ==> (phc_well_formed(h@) ==> r == Some(argon2_verifies(utf8(password@), h@))),
{
    match stored {
        Some(hash) => {
            if !parses_as_password_hash(hash) {
                return None;
            }
            Some(verify_password_against(password.as_bytes(), hash))
        },
        None => {
            if parses_as_password_hash(DUMMY_HASH) {
                let _ = verify_password_against(password.as_bytes(), DUMMY_HASH);
            }
            Some(false)
        },
    }
}

/// The session that a successful login of account `user_id` opens with
/// the token `session`.
pub fn grant_session(user_id: i32, session: String) -> (g: SessionGrant)
    ensures
        g.session@ == session@,
        g.key@ == session_key_spec(session@),
        g.user_id == user_id,
        g.ttl_seconds == SESSION_TTL_SECONDS,
{
    let mut key = "session:".to_owned();
    key.append(session.as_str());
    SessionGrant { session, key, user_id, ttl_seconds: SESSION_TTL_SECONDS }
}

/// Decides a login for the account that the user store found under the
/// requested name (`None` where it found none).
pub fn decide_login(req: &LoginUser, user: Option<UserRecord>) -> (r: LoginOutcome)
    ensures
        credentials_spec(utf8(req.password@), stored_hash(user)) is None <==> r is StoredHashUnreadable,
        login_admits(req.password@, stored_hash(user)) <==> r is Granted,
        credentials_spec(utf8(req.password@), stored_hash(user)) == Some(false) <==> r is Rejected,
        user is None ==> r is Rejected,
        user matches Some(u) ==> (phc_well_formed(u.password@) ==> {
            &&& !(r is StoredHashUnreadable)
            &&& r is Granted <==> argon2_verifies(utf8(req.password@), u.password@)
            &&& r is Rejected <==> !argon2_verifies(utf8(req.password@), u.password@)
        }),
        user matches Some(u) ==> (!phc_well_formed(u.password@) ==> r is StoredHashUnreadable),
        r matches LoginOutcome::Rejected(p) ==> is_invalid_credentials_problem(p),
        r matches LoginOutcome::Granted(g) ==> {
            &&& user matches Some(u) && g.user_id == u.id
            &&& g.session@.len() == SESSION_TOKEN_LEN
            &&& forall|i: int| 0 <= i < g.session@.len() ==> is_ascii_alphanumeric(#[trigger] g.session@[i])
            &&& g.key@ == session_key_spec(g.session@)
            &&& g.ttl_seconds == SESSION_TTL_SECONDS
        },
{
    let checked = match &user {
        Some(u) => check_credentials(req.password.as_str(), Some(u.password.as_str())),
        None => check_credentials(req.password.as_str(), None),
    };
    match checked {
        None => LoginOutcome::StoredHashUnreadable,
        Some(false) => LoginOutcome::Rejected(invalid_credentials_problem()),
        Some(true) => {
            match user {
                Some(u) => {
                    let session = sample_alphanumeric(SESSION_TOKEN_LEN);
                    LoginOutcome::Granted(grant_session(u.id, session))
                },
                None => LoginOutcome::Rejected(invalid_credentials_problem()),
            }
        },
    }
}

/// A login for a name that has no account is never admitted, whatever the
/// password.
pub proof fn lemma_unknown_name_never_admitted(password: Seq<char>)
    ensures
        !login_admits(password, None),
{
}

/// A password is admitted at login against the hash that its registration
/// stored.
pub proof fn lemma_registered_password_admitted(password: Seq<char>, hash: Seq<char>)
    requires
        hash_fits_password(password, hash),
    ensures
        login_admits(password, Some(hash)),
{
}

/// The registration rules over all inputs: a request passes exactly when
/// its name has 4 to 16 characters, each `a`-`z` or `_`, and its display
/// name has 1 to 50 characters of any kind; otherwise the first broken rule
/// (name length, then name characters, then display-name length) is named.
pub proof fn lemma_registration_rules(name: Seq<char>, display_name: Seq<char>)
    ensures
        registration_check(name, display_name) is Ok <==> {
            &&& 4 <= name.len() <= 16
            &&& forall|i: int| 0 <= i < name.len() ==>
                ('a' <= #[trigger] name[i] && name[i] <= 'z') || name[i] == '_'
            &&& 1 <= display_name.len() <= 50
        },
        registration_check(name, display_name) == Err::<(), RegisterError>(RegisterError::NameLength)
            <==> !(4 <= name.len() <= 16),
        registration_check(name, display_name) == Err::<(), RegisterError>(RegisterError::NameCharacters)
            <==> {
            &&& 4 <= name.len() <= 16
            &&& exists|i: int| 0 <= i < name.len()
                && !(('a' <= #[trigger] name[i] && name[i] <= 'z') || name[i] == '_')
        },
        registration_check(name, display_name) == Err::<(), RegisterError>(RegisterError::DisplayNameLength)
            <==> {
            &&& 4 <= name.len() <= 16
            &&& forall|i: int| 0 <= i < name.len() ==>
                ('a' <= #[trigger] name[i] && name[i] <= 'z') || name[i] == '_'
            &&& !(1 <= display_name.len() <= 50)
        },
{
}

/// Checking a password against an account whose stored hash is a PHC
/// string gives exactly Argon2's verdict and never "unreadable"; without an
/// account the answer is a refusal; only an unreadable stored hash gives `None`.
pub proof fn lemma_credentials_follow_argon2(password: Seq<u8>, hash: Seq<char>)
    ensures
        phc_well_formed(hash) ==> credentials_spec(password, Some(hash)) == Some(argon2_verifies(password, hash)),
        !phc_well_formed(hash) ==> credentials_spec(password, Some(hash)) is None,
        credentials_spec(password, None) == Some(false),
{
}

/// Every problem that answers a registration refused by the rules is a
/// 400 Bad Request about `/auth/register`, with a type URL under the
/// `errors` catalogue; only the store's refusal of a taken name is a 409.
pub proof fn lemma_registration_problems_are_bad_requests(e: RegisterError, p: Problem)
    requires
        is_registration_problem(e, p),
    ensures
        p.status == 400,
        p.instance@ == "/auth/register"@,
        p.type_url@.subrange(0, 28) == "https://quixbyte.com/errors/"@,
        p.error is None,
{
    reveal_strlit("https://quixbyte.com/errors/");
    match e {
        RegisterError::NameLength => {
            assert(p.type_url@.subrange(0, 28) =~= "https://quixbyte.com/errors/"@);
        },
        RegisterError::NameCharacters => {
            assert(p.type_url@.subrange(0, 28) =~= "https://quixbyte.com/errors/"@);
        },
        RegisterError::DisplayNameLength => {
            assert(p.type_url@.subrange(0, 28) =~= "https://quixbyte.com/errors/"@);
        },
    }
}

/// The refusal of a login is a 400 Bad Request about `/auth/login`, and the
/// store's refusal of a taken name is a 409 Conflict about `/auth/register`.
pub proof fn lemma_other_account_problem_statuses(p: Problem, q: Problem)
    requires
        is_invalid_credentials_problem(p),
        is_user_conflict_problem(q),
    ensures
        p.status == 400,
        p.instance@ == "/auth/login"@,
        q.status == 409,
        q.instance@ == "/auth/register"@,
{
}

} // verus!
