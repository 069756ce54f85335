use vstd::prelude::*;
use argon2::{PasswordHasher, PasswordVerifier};
use crate::error::{database_error, database_error_text, db_error_display, db_error_text, AppErr, ApplicationError, DbErr, DbError};

verus! {

// ---------------------------------------------------------------------------
// Records
// ---------------------------------------------------------------------------

/// A registered user.
#[derive(Clone, Debug, PartialEq, Eq)]
pub struct User {
    pub id: i32,
    pub email: String,
    pub password_hash: String,
    pub created_at: String,
}

/// Credentials for registering.
#[derive(Clone, Debug, PartialEq, Eq)]
pub struct AuthRegisterRequest {
    pub email: String,
    pub password: String,
}

/// Credentials for signing in.
#[derive(Clone, Debug, PartialEq, Eq)]
pub struct AuthLoginRequest {
    pub email: String,
    pub password: String,
}

/// A user row to insert.
#[derive(Clone, Debug, PartialEq, Eq)]
pub struct NewUser {
    pub email: String,
    pub password_hash: String,
}

/// A session row to insert; times are microseconds since the Unix epoch.
#[derive(Clone, Copy, Debug, PartialEq, Eq)]
pub struct NewSession {
    pub user_id: i32,
    pub expires_at: i64,
}

/// A stored session, identified by a UUID.
#[derive(Clone, Copy, Debug, PartialEq, Eq)]
pub struct Session {
    pub id: u128,
    pub user_id: i32,
    pub expires_at: i64,
}

/// The bearer token handed out on sign-in and when it expires.
#[derive(Clone, Debug, PartialEq, Eq)]
pub struct AuthTokenResponse {
    pub token: String,
    pub expires_at: i64,
}

/// An authenticated request: the session it presented and its user.
#[derive(Clone, Copy, Debug, PartialEq, Eq)]
pub struct AuthSession {
    pub session_id: u128,
    pub user_id: i32,
}

/// A request that may or may not be authenticated.
#[derive(Clone, Copy, Debug, PartialEq, Eq)]
pub struct MaybeAuthSession(pub Option<AuthSession>);

/// The signed-in user of a request, if any.
pub open spec fn viewer_of(m: MaybeAuthSession) -> Option<i32> {
    match m.0 {
        Some(a) => Some(a.user_id),
        None => None,
    }
}

impl MaybeAuthSession {
    /// The signed-in user of the request, if any.
    pub fn user_id(&self) -> (r: Option<i32>)
        ensures
            r == viewer_of(*self),
    {
        match self.0 {
            Some(a) => Some(a.user_id),
            None => None,
        }
    }
}

/// How long a session lasts: one day, in microseconds.
pub open spec fn session_lifetime() -> int {
    86_400_000_000
}

// ---------------------------------------------------------------------------
// Outside functions
// ---------------------------------------------------------------------------

/// What `uuid::Uuid::parse_str` makes of a text, as the UUID's 128-bit value.
pub uninterp spec fn parsed_uuid(text: Seq<char>) -> Option<u128>;

/// A lower-case hexadecimal digit.
pub open spec fn hex_digit(d: u128) -> char {
    if d < 10 {
        (d + 48) as char
    } else {
        (d + 87) as char
    }
}

/// The `k`-th of the 32 hexadecimal digits of a 128-bit value, most
/// significant first.
pub open spec fn uuid_nibble(id: u128, k: int) -> u128 {
    (id >> ((124 - 4 * k) as u128)) & 15
}

/// The hyphenated lower-case text of a UUID (`Uuid`'s `Display`): its 32
/// hexadecimal digits in groups of 8, 4, 4, 4 and 12, joined by `-`.
pub open spec fn uuid_text(id: u128) -> Seq<char> {
    Seq::new(
        36,
        |i: int|
            if i == 8 || i == 13 || i == 18 || i == 23 {
                '-'
            } else {
                let k = if i < 8 {
                    i
                } else if i < 13 {
                    i - 1
                } else if i < 18 {
                    i - 2
                } else if i < 23 {
                    i - 3
                } else {
                    i - 4
                };
                hex_digit(uuid_nibble(id, k))
            },
    )
}

/// Whether `argon2::PasswordHash::new` accepts a PHC string.
pub uninterp spec fn phc_hash_parses(hash: Seq<char>) -> bool;

/// Whether Argon2 verification of a password against a PHC string succeeds.
pub uninterp spec fn password_matches(password: Seq<char>, hash: Seq<char>) -> bool;

/// Calls `uuid::Uuid::parse_str` (hyphenated, simple, braced and URN forms)
/// and gives the UUID's 128-bit value; the contract only names the result.
#[verifier::external_body]
pub(crate) fn parse_uuid(text: &str) -> (r: Option<u128>)
    ensures
        r == parsed_uuid(text@),
{
    match uuid::Uuid::parse_str(text) {
        Ok(u) => Some(u.as_u128()),
        Err(_) => None,
    }
}

/// Calls `Display` of `uuid::Uuid` (built by `Uuid::from_u128`); the contract
/// states the hyphenated lower-case text, and what the `parse_str`
/// documentation promises: the text parses back to the UUID.
#[verifier::external_body]
fn uuid_to_text(id: u128) -> (r: String)
    ensures
        r@ == uuid_text(id),
        parsed_uuid(r@) == Some(id),
{
    uuid::Uuid::from_u128(id).to_string()
}

/// Calls `argon2::PasswordHash::new` and tells whether it accepted the text.
#[verifier::external_body]
fn phc_hash_is_valid(hash: &str) -> (r: bool)
    ensures
        r == phc_hash_parses(hash@),
{
    argon2::PasswordHash::new(hash).is_ok()
}

/// Calls `PasswordVerifier::verify_password` of `argon2::Argon2` with the
/// parsed PHC string and tells whether it succeeded.
#[verifier::external_body]
fn verify_password(password: &str, hash: &str) -> (r: bool)
    requires
        phc_hash_parses(hash@),
    ensures
        r == password_matches(password@, hash@),
{
    match argon2::PasswordHash::new(hash) {
        Ok(parsed) => {
            argon2::Argon2::default().verify_password(password.as_bytes(), &parsed).is_ok()
        },
        Err(_) => false,
    }
}

/// The 6-bit value of a character of the standard Base64 alphabet
/// (`A-Z`, `a-z`, `0-9`, `+`, `/`); -1 for any other character.
pub open spec fn b64_value(c: char) -> int {
    let u = c as u32;
    if 65 <= u <= 90 {
        u - 65
    } else if 97 <= u <= 122 {
        u - 71
    } else if 48 <= u <= 57 {
        u + 4
    } else if u == 43 {
        62
    } else if u == 47 {
        63
    } else {
        -1
    }
}

/// The unpadded, canonical Base64 text of 16 bytes: 22 characters of the
/// standard alphabet, the last of which carries only 2 bits.
pub open spec fn salt_text_of_16_bytes(s: Seq<char>) -> bool {
    &&& s.len() == 22
    &&& forall|i: int| 0 <= i < 22 ==> b64_value(#[trigger] s[i]) >= 0
    &&& b64_value(s[21]) % 16 == 0
}

/// Calls `SaltString::generate` with the operating system's random source
/// and gives the salt's text: the B64 encoding of 16 random bytes
/// (`Salt::RECOMMENDED_LENGTH`); nothing is stated of the bytes.
#[verifier::external_body]
fn generate_salt() -> (r: String)
    ensures
        salt_text_of_16_bytes(r@),
{
    argon2::password_hash::SaltString::generate(&mut rand_core::OsRng).as_str().to_owned()
}

/// Calls `PasswordHasher::hash_password` of `argon2::Argon2` (default
/// parameters) with the salt text parsed by `Salt::from_b64`, and gives the
/// PHC string.  The contract states what the crates show: the string
/// parses, and the password verifies against it; and hashing succeeds for
/// a canonical 16-byte salt and a password of at most `MAX_PWD_LEN` bytes
/// (guaranteed by at most 2^30 - 1 characters).
#[verifier::external_body]
fn hash_password(password: &str, salt: &str) -> (r: Option<String>)
    ensures
        r matches Some(h) ==> phc_hash_parses(h@) && password_matches(password@, h@),
        salt_text_of_16_bytes(salt@) && password@.len() <= 0x3FFF_FFFF ==> r is Some,
{
    match argon2::password_hash::Salt::from_b64(salt) {
        Ok(parsed) => match argon2::Argon2::default().hash_password(password.as_bytes(), parsed) {
            Ok(h) => Some(h.to_string()),
            Err(_) => None,
        },
        Err(_) => None,
    }
}

/// Reads the system clock through `chrono::Utc::now` as microseconds since
/// the epoch; nothing is stated of the reading.
#[verifier::external_body]
fn clock_micros() -> (r: i64) {
    chrono::Utc::now().timestamp_micros()
}

// ---------------------------------------------------------------------------
// Bearer tokens
// ---------------------------------------------------------------------------

/// `s` without the prefix `p`, when it starts with it.
pub open spec fn strip_prefix(s: Seq<char>, p: Seq<char>) -> Option<Seq<char>> {
    if p.is_prefix_of(s) {
        Some(s.subrange(p.len() as int, s.len() as int))
    } else {
        None
    }
}

/// The token of an `Authorization` header: what follows `Bearer ` (or `bearer `).
pub open spec fn bearer_token(header: Seq<char>) -> Option<Seq<char>> {
    match strip_prefix(header, "Bearer "@) {
        Some(t) => Some(t),
        None => strip_prefix(header, "bearer "@),
    }
}

/// The session an `Authorization` header names, if it is a bearer token
/// holding a UUID.
pub open spec fn presented_session(header: Option<Seq<char>>) -> Option<u128> {
    match header {
        None => None,
        Some(h) => match bearer_token(h) {
            None => None,
            Some(t) => parsed_uuid(t),
        },
    }
}

fn strip_prefix_str<'a>(s: &'a str, prefix: &str) -> (r: Option<&'a str>)
    ensures
        match r {
            Some(t) => strip_prefix(s@, prefix@) == Some(t@),
            None => strip_prefix(s@, prefix@) is None,
        },
{
    let n = s.unicode_len();
    let m = prefix.unicode_len();
    if m > n {
        return None;
    }
    let mut i: usize = 0;
    while i < m
        invariant
            i <= m <= n,
            n == s@.len(),
            m == prefix@.len(),
            forall|k: int| 0 <= k < i ==> prefix@[k] == s@[k],
        decreases m - i,
    {
        if s.get_char(i) != prefix.get_char(i) {
            return None;
        }
        i = i + 1;
    }
    Some(s.substring_char(m, n))
}

impl AuthSession {
    /// The session id an `Authorization` header presents; `None` means the
    /// request is unauthorized.
    pub fn session_from_header(authorization: Option<&str>) -> (r: Option<u128>)
        ensures
            r == presented_session(match authorization { Some(h) => Some(h@), None => None }),
    {
        match authorization {
            None => None,
            Some(header) => {
                let token = match strip_prefix_str(header, "Bearer ") {
                    Some(t) => Some(t),
                    None => strip_prefix_str(header, "bearer "),
                };
                match token {
                    None => None,
                    Some(t) => parse_uuid(t),
                }
            },
        }
    }

    /// The authenticated session, once the database resolved the session's
    /// user; an unknown or expired session, or a failed lookup, is unauthorized.
    pub fn from_lookup(session_id: u128, resolved: Result<Option<i32>, DbError>) -> (r: Option<AuthSession>)
        ensures
            match resolved {
                Ok(Some(u)) => r == Some(AuthSession { session_id, user_id: u }),
                _ => r is None,
            },
    {
        match resolved {
            Ok(Some(user_id)) => Some(AuthSession { session_id, user_id }),
            _ => None,
        }
    }
}

/// The user of a session that has not expired at `now`.
pub open spec fn live_session_user(found: Option<Session>, now: i64) -> Option<i32> {
    match found {
        Some(s) => if s.expires_at > now { Some(s.user_id) } else { None },
        None => None,
    }
}

/// The user a session belongs to, if the session exists and has not expired.
pub fn resolve_session_user_id(found: Result<Option<Session>, DbError>, now: i64) -> (r: Result<Option<i32>, DbError>)
    ensures
        match found {
            Ok(s) => r == Ok::<Option<i32>, DbError>(live_session_user(s, now)),
            Err(e) => r matches Err(f) && f@ == e@,
        },
{
    match found {
        Ok(Some(s)) => {
            if s.expires_at > now {
                Ok(Some(s.user_id))
            } else {
                Ok(None)
            }
        },
        Ok(None) => Ok(None),
        Err(e) => Err(e),
    }
}

/// Resolves a looked-up session against one reading of the clock, in
/// microseconds since the epoch, and gives back that reading: a found session
/// yields its user exactly when it expires after the reading.
pub fn resolve_session_user_id_at_clock(found: Result<Option<Session>, DbError>) -> (r: (Result<Option<i32>, DbError>, i64))
    ensures
        match found {
            Ok(s) => r.0 == Ok::<Option<i32>, DbError>(live_session_user(s, r.1)),
            Err(e) => r.0 matches Err(f) && f@ == e@,
        },
        found matches Ok(Some(s)) ==> (r.0 == Ok::<Option<i32>, DbError>(Some(s.user_id)) <==> s.expires_at > r.1),
        found matches Ok(Some(s)) ==> (r.0 == Ok::<Option<i32>, DbError>(None) <==> s.expires_at <= r.1),
{
    let now = clock_micros();
    (resolve_session_user_id(found, now), now)
}

/// The user a session belongs to, if the session exists and has not expired
/// by the clock: a found session gives its user or, once expired, none. The
/// clock reading it is judged against is not given back; see
/// [`resolve_session_user_id_at_clock`] for the result in terms of it.
pub fn resolve_session_user_id_now(found: Result<Option<Session>, DbError>) -> (r: Result<Option<i32>, DbError>)
    ensures
        match found {
            Ok(None) => r == Ok::<Option<i32>, DbError>(None),
            Ok(Some(s)) => r == Ok::<Option<i32>, DbError>(Some(s.user_id)) || r == Ok::<Option<i32>, DbError>(None),
            Err(e) => r matches Err(f) && f@ == e@,
        },
{
    resolve_session_user_id_at_clock(found).0
}

// ---------------------------------------------------------------------------
// Registering, signing in and out
// ---------------------------------------------------------------------------

/// `row` is a user row made from the registration `payload`: its email, and
/// a password hash that parses and against which the password verifies.
pub open spec fn registered_user(payload: AuthRegisterRequest, row: NewUser) -> bool {
    &&& row.email == payload.email
    &&& phc_hash_parses(row.password_hash@)
    &&& password_matches(payload.password@, row.password_hash@)
}

/// The user row that registering inserts: the email and an Argon2 hash of
/// the password under a fresh random salt, against which the password
/// verifies.  Hashing fails only for a password too long for Argon2 (over
/// `MAX_PWD_LEN` bytes), which is an internal error.
pub fn register(payload: AuthRegisterRequest) -> (r: Result<NewUser, ApplicationError>)
    ensures
        payload.password@.len() <= 0x3FFF_FFFF ==> r is Ok,
        match r {
            Ok(u) => registered_user(payload, u),
            Err(e) => e@ == AppErr::Internal("Password hashing failed"@),
        },
{
    let salt = generate_salt();
    match hash_password(payload.password.as_str(), salt.as_str()) {
        Some(password_hash) => Ok(NewUser { email: payload.email, password_hash }),
        None => Err(ApplicationError::Internal(String::from_str("Password hashing failed"))),
    }
}

/// The answer to inserting a new user: the stored user, a conflict when the
/// email is taken, an internal error otherwise.
pub fn finish_register(inserted: Result<User, DbError>) -> (r: Result<User, ApplicationError>)
    ensures
        match inserted {
            Ok(u) => r == Ok::<User, ApplicationError>(u),
            Err(DbError::UniqueViolation(_)) => r matches Err(e) && e@ == AppErr::Conflict("User with this email already exists"@),
            Err(e) => r matches Err(f) && f@ == AppErr::Internal(database_error_text(db_error_text(e@))),
        },
{
    match inserted {
        Ok(u) => Ok(u),
        Err(DbError::UniqueViolation(_)) => Err(ApplicationError::Conflict(String::from_str("User with this email already exists"))),
        Err(e) => {
            let text = db_error_display(&e);
            Err(database_error(text.as_str()))
        },
    }
}

/// The credentials are accepted: the stored hash parses and the password
/// verifies against it.
pub open spec fn credentials_accepted(password: Seq<char>, stored_hash: Seq<char>) -> bool {
    phc_hash_parses(stored_hash) && password_matches(password, stored_hash)
}

/// The id of the user found by email when the password matches its stored
/// hash; an unknown email or a wrong password is unauthorized.
fn accepted_user(payload: &AuthLoginRequest, found: Result<User, DbError>) -> (r: Result<i32, ApplicationError>)
    ensures
        match found {
            Ok(user) => if credentials_accepted(payload.password@, user.password_hash@) {
                r == Ok::<i32, ApplicationError>(user.id)
            } else {
                r matches Err(e) && e@ == AppErr::Unauthorized
            },
            Err(_) => r matches Err(e) && e@ == AppErr::Unauthorized,
        },
{
    let user = match found {
        Ok(u) => u,
        Err(_) => return Err(ApplicationError::Unauthorized),
    };
    if !phc_hash_is_valid(user.password_hash.as_str()) {
        return Err(ApplicationError::Unauthorized);
    }
    if !verify_password(payload.password.as_str(), user.password_hash.as_str()) {
        return Err(ApplicationError::Unauthorized);
    }
    Ok(user.id)
}

/// Checks the credentials against the user found by email and gives the
/// session to create, expiring a day after `now`; an unknown email or a
/// wrong password is unauthorized.
pub fn login(payload: AuthLoginRequest, found: Result<User, DbError>, now: i64) -> (r: Result<NewSession, ApplicationError>)
    requires
        now <= i64::MAX - session_lifetime(),
    ensures
        match found {
            Ok(user) => if credentials_accepted(payload.password@, user.password_hash@) {
                r == Ok::<NewSession, ApplicationError>(NewSession { user_id: user.id, expires_at: (now + session_lifetime()) as i64 })
            } else {
                r matches Err(e) && e@ == AppErr::Unauthorized
            },
            Err(_) => r matches Err(e) && e@ == AppErr::Unauthorized,
        },
{
    match accepted_user(&payload, found) {
        Ok(user_id) => Ok(NewSession { user_id, expires_at: now + 86_400_000_000 }),
        Err(e) => Err(e),
    }
}

/// The session that signing in at `now` creates for a user: it expires a
/// day later.
pub open spec fn session_at(user_id: i32, now: i64) -> NewSession {
    NewSession { user_id, expires_at: (now + session_lifetime()) as i64 }
}

/// Signs in at the clock's current time: as [`login`] at the reading, which
/// it also gives back; a reading too late to add a day to is an internal error.
pub fn login_now(payload: AuthLoginRequest, found: Result<User, DbError>) -> (r: (Result<NewSession, ApplicationError>, i64))
    ensures
        r.1 > i64::MAX - session_lifetime() ==> (r.0 matches Err(e) && e@ == AppErr::Internal("Session expiry out of range"@)),
        r.1 <= i64::MAX - session_lifetime() ==> match found {
            Ok(user) => if credentials_accepted(payload.password@, user.password_hash@) {
                r.0 == Ok::<NewSession, ApplicationError>(session_at(user.id, r.1))
            } else {
                r.0 matches Err(e) && e@ == AppErr::Unauthorized
            },
            Err(_) => r.0 matches Err(e) && e@ == AppErr::Unauthorized,
        },
{
    let now = clock_micros();
    if now > i64::MAX - 86_400_000_000 {
        return (Err(ApplicationError::Internal(String::from_str("Session expiry out of range"))), now);
    }
    (login(payload, found, now), now)
}

/// The answer to inserting the session: its id as the bearer token and its
/// expiry, or an internal error.
pub fn finish_login(inserted: Result<Session, DbError>) -> (r: Result<AuthTokenResponse, ApplicationError>)
    ensures
        match inserted {
            Ok(s) => r matches Ok(t) && t.token@ == uuid_text(s.id) && parsed_uuid(t.token@) == Some(s.id)
                && t.expires_at == s.expires_at,
            Err(_) => r matches Err(e) && e@ == AppErr::Internal("Failed to create session"@),
        },
{
    match inserted {
        Ok(s) => Ok(AuthTokenResponse { token: uuid_to_text(s.id), expires_at: s.expires_at }),
        Err(_) => Err(ApplicationError::Internal(String::from_str("Failed to create session"))),
    }
}

/// The answer to deleting the presented session: signed out, unauthorized
/// when there was no such session, an internal error when the delete failed.
pub fn logout(deleted: Result<u64, DbError>) -> (r: Result<(), ApplicationError>)
    ensures
        match deleted {
            Ok(n) => if n == 0 {
                r matches Err(e) && e@ == AppErr::Unauthorized
            } else {
                r is Ok
            },
            Err(e) => r matches Err(f) && f@ == AppErr::Internal(database_error_text(db_error_text(e@))),
        },
{
    match deleted {
        Ok(n) => {
            if n == 0 {
                Err(ApplicationError::Unauthorized)
            } else {
                Ok(())
            }
        },
        Err(e) => {
            let text = db_error_display(&e);
            Err(database_error(text.as_str()))
        },
    }
}

/// The signed-in user's record; a missing user is unauthorized.
pub fn me(found: Result<User, DbError>) -> (r: Result<User, ApplicationError>)
    ensures
        match found {
            Ok(u) => r == Ok::<User, ApplicationError>(u),
            Err(_) => r matches Err(e) && e@ == AppErr::Unauthorized,
        },
{
    match found {
        Ok(u) => Ok(u),
        Err(_) => Err(ApplicationError::Unauthorized),
    }
}

// ---------------------------------------------------------------------------
// Laws
// ---------------------------------------------------------------------------

/// A user who registered signs in with the same password: the user record
/// stored from the registration row accepts the credentials, so `login`
/// opens a session for that user.
pub proof fn lemma_registered_password_signs_in(
    registration: AuthRegisterRequest,
    row: NewUser,
    stored: User,
    attempt: AuthLoginRequest,
)
    requires
        registered_user(registration, row),
        stored.password_hash == row.password_hash,
        attempt.password == registration.password,
    ensures
        credentials_accepted(attempt.password@, stored.password_hash@),
{
}

/// The token handed out at sign-in, presented as a bearer token, names the
/// session it was made from.
pub proof fn lemma_issued_token_authenticates(session_id: u128, token: Seq<char>)
    requires
        parsed_uuid(token) == Some(session_id),
    ensures
        presented_session(Some("Bearer "@ + token)) == Some(session_id),
        presented_session(Some("bearer "@ + token)) == Some(session_id),
{
    let b = "Bearer "@;
    let l = "bearer "@;
    assert(b.is_prefix_of(b + token));
    assert((b + token).subrange(b.len() as int, (b + token).len() as int) =~= token);
    assert(l.is_prefix_of(l + token));
    assert((l + token).subrange(l.len() as int, (l + token).len() as int) =~= token);
    reveal_strlit("Bearer ");
    reveal_strlit("bearer ");
    assert(b[0] != (l + token)[0]);
    assert(!b.is_prefix_of(l + token));
}

/// A session created at sign-in authenticates its user until a day has
/// passed, and no longer.
pub proof fn lemma_new_session_is_live_for_a_day(session_id: u128, user_id: i32, now: i64, t: i64)
    requires
        now <= i64::MAX - session_lifetime(),
    ensures
        now <= t < now + session_lifetime() ==> live_session_user(
            Some(Session { id: session_id, user_id, expires_at: session_at(user_id, now).expires_at }),
            t,
        ) == Some(user_id),
        t >= now + session_lifetime() ==> live_session_user(
            Some(Session { id: session_id, user_id, expires_at: session_at(user_id, now).expires_at }),
            t,
        ) is None,
{
}

/// Signing up and then in, apart from the database: the password given at
/// registration is accepted against the stored hash, the token issued for
/// the new session (which parses back to it) presents that session as a
/// bearer token, and the session authenticates the user for the following day.
pub proof fn lemma_sign_up_then_in_authenticates(
    registration: AuthRegisterRequest,
    row: NewUser,
    stored: User,
    attempt: AuthLoginRequest,
    session_id: u128,
    token: Seq<char>,
    now: i64,
    t: i64,
)
    requires
        registered_user(registration, row),
        stored.password_hash == row.password_hash,
        attempt.password == registration.password,
        parsed_uuid(token) == Some(session_id),
        now <= i64::MAX - session_lifetime(),
        now <= t < now + session_lifetime(),
    ensures
        credentials_accepted(attempt.password@, stored.password_hash@),
        presented_session(Some("Bearer "@ + token)) == Some(session_id),
        live_session_user(
            Some(Session { id: session_id, user_id: stored.id, expires_at: session_at(stored.id, now).expires_at }),
            t,
        ) == Some(stored.id),
{
    lemma_registered_password_signs_in(registration, row, stored, attempt);
    lemma_issued_token_authenticates(session_id, token);
    lemma_new_session_is_live_for_a_day(session_id, stored.id, now, t);
}

/// After signing out, the session no longer authenticates anyone: a
/// session the lookup does not find resolves to no user.
pub proof fn lemma_signed_out_session_authenticates_no_one(t: i64)
    ensures
        live_session_user(None, t) is None,
{
}

/// Whether a found session authenticates is decided by its expiry alone,
/// against the clock reading in microseconds: expiring at or before the
/// reading it authenticates no one, expiring after it, its own user.
pub proof fn lemma_session_resolves_by_expiry(s: Session, t: i64)
    ensures
        s.expires_at <= t ==> live_session_user(Some(s), t) is None,
        s.expires_at > t ==> live_session_user(Some(s), t) == Some(s.user_id),
{
}

} // verus!
