//! Passwords, tokens and sessions.

use vstd::prelude::*;
use vstd::string::*;
use argon2::password_hash::{rand_core::OsRng, PasswordHash, SaltString};
use argon2::{Argon2, PasswordHasher, PasswordVerifier};
use rand::Rng;
use crate::entities::{SessionRow, UserRow};
use crate::error::{text, AppError, ErrorKind};

verus! {

/// A session as listed to its owner.
#[derive(Debug)]
pub struct SessionInfo {
    pub id: String,
    pub created_at: i64,
    pub last_used_at: i64,
    pub device_info: Option<String>,
}

// ---------------------------------------------------------------------------
// Random tokens
// ---------------------------------------------------------------------------

/// `rand::thread_rng().gen_range(0..n)`: a random index below `n`.
#[verifier::external_body]
fn random_below(n: usize) -> (r: usize)
    requires
        n > 0,
    ensures
        r < n,
{
    rand::thread_rng().gen_range(0..n)
}

/// A random index into the 62 alphanumeric characters.
pub fn random_alphanumeric_index() -> (r: usize)
    ensures
        r < 62,
{
    random_below(62)
}

/// The 62 characters tokens are drawn from.
pub open spec fn token_charset() -> Seq<char> {
    "abcdefghijklmnopqrstuvwxyzABCDEFGHIJKLMNOPQRSTUVWXYZ0123456789"@
}

/// Whether every character of `s` is one of the token characters.
pub open spec fn is_token_text(s: Seq<char>) -> bool {
    forall|i: int| 0 <= i < s.len() ==> token_charset().contains(#[trigger] s[i])
}

/// The token spelled by indices into the token characters.
pub open spec fn token_of(indices: Seq<usize>) -> Seq<char> {
    Seq::new(indices.len(), |i: int| token_charset()[indices[i] as int])
}

/// Whether every index picks one of the 62 token characters.
pub open spec fn token_indices(indices: Seq<usize>) -> bool {
    forall|i: int| 0 <= i < indices.len() ==> #[trigger] indices[i] < 62
}

/// Spells out a token: the token character at each index, in order.
pub fn token_from_indices(indices: &Vec<usize>) -> (t: String)
    requires
        token_indices(indices@),
    ensures
        t@ == token_of(indices@),
        is_token_text(t@),
{
    let charset = "abcdefghijklmnopqrstuvwxyzABCDEFGHIJKLMNOPQRSTUVWXYZ0123456789";
    proof {
        reveal_strlit("abcdefghijklmnopqrstuvwxyzABCDEFGHIJKLMNOPQRSTUVWXYZ0123456789");
    }
    assert(charset@ == token_charset());
    let mut t = String::new();
    let mut i: usize = 0;
    while i < indices.len()
        invariant
            charset@ == token_charset(),
            charset@.len() == 62,
            token_indices(indices@),
            i <= indices@.len(),
            t@ == token_of(indices@).take(i as int),
            is_token_text(t@),
        decreases indices@.len() - i,
    {
        let idx = indices[i];
        assert(idx < 62);
        let c = charset.substring_char(idx, idx + 1);
        let ghost before = t@;
        t = t.concat(c);
        assert(t@ =~= before + seq![token_charset()[idx as int]]);
        assert(token_charset().contains(token_charset()[idx as int]));
        assert(t@ =~= token_of(indices@).take(i + 1));
        i += 1;
    }
    assert(t@ =~= token_of(indices@));
    t
}

/// Generates a random 32-character alphanumeric token: 32 random indices
/// into the token characters, spelled out.
pub fn generate_token() -> (t: String)
    ensures
        t@.len() == 32,
        is_token_text(t@),
        exists|indices: Seq<usize>| indices.len() == 32 && token_indices(indices) && t@ == token_of(indices),
{
    let mut indices: Vec<usize> = Vec::new();
    let mut i: usize = 0;
    while i < 32
        invariant
            i <= 32,
            indices@.len() == i,
            token_indices(indices@),
        decreases 32 - i,
    {
        indices.push(random_alphanumeric_index());
        i += 1;
    }
    let t = token_from_indices(&indices);
    assert(t@.len() == 32);
    t
}

/// Whether `c` is an ASCII letter or digit.
pub open spec fn is_ascii_alphanumeric(c: char) -> bool {
    ('a' <= c && c <= 'z') || ('A' <= c && c <= 'Z') || ('0' <= c && c <= '9')
}

/// `rand::distributions::Alphanumeric` sampled once from `thread_rng()`, as
/// text: one ASCII letter or digit, drawn at random.
#[verifier::external_body]
fn sample_alphanumeric() -> (s: String)
    ensures
        s@.len() == 1,
        is_ascii_alphanumeric(s@[0]),
{
    let b: u8 = rand::thread_rng().sample(rand::distributions::Alphanumeric);
    char::from(b).to_string()
}

/// `n` random ASCII letters and digits, each drawn by
/// `rand::distributions::Alphanumeric`.
pub fn draw_alphanumeric(n: usize) -> (s: String)
    ensures
        s@.len() == n,
        forall|i: int| 0 <= i < n ==> is_ascii_alphanumeric(#[trigger] s@[i]),
{
    let mut s = String::new();
    let mut i: usize = 0;
    while i < n
        invariant
            i <= n,
            s@.len() == i,
            forall|j: int| 0 <= j < i ==> is_ascii_alphanumeric(#[trigger] s@[j]),
        decreases n - i,
    {
        let c = sample_alphanumeric();
        let ghost before = s@;
        s = s.concat(c.as_str());
        assert(s@ =~= before + c@);
        assert(s@[i as int] == c@[0]);
        i += 1;
    }
    s
}

/// Generates a session identifier: `sess_` followed by a fresh token.
pub fn generate_session_id() -> (s: String)
    ensures
        s@.len() == 37,
        s@.take(5) == "sess_"@,
        is_token_text(s@.skip(5)),
{
    proof {
        reveal_strlit("sess_");
    }
    let token = generate_token();
    let s = text("sess_").concat(token.as_str());
    assert(s@.take(5) =~= "sess_"@);
    assert(s@.skip(5) =~= token@);
    s
}

// ---------------------------------------------------------------------------
// Passwords
// ---------------------------------------------------------------------------

/// Whether `hash` parses as a PHC password-hash string
/// (`argon2::PasswordHash::new`).
pub uninterp spec fn phc_parses(hash: Seq<char>) -> bool;

/// Whether Argon2 with the parameters recorded in `hash` maps `password` to
/// the output recorded in `hash` (`Argon2::default().verify_password`).
pub uninterp spec fn argon2_accepts(password: Seq<char>, hash: Seq<char>) -> bool;

/// `Argon2::default().hash_password` with a fresh random salt, rendered as a
/// PHC string. The salt is random, so the string itself is not determined;
/// a hash it produces parses and accepts the password it was made from.
#[verifier::external_body]
fn argon2_hash(password: &str) -> (r: Result<String, String>)
    ensures
        r matches Ok(h) ==> phc_parses(h@) && argon2_accepts(password@, h@),
{
    let salt = SaltString::generate(&mut OsRng);
    Argon2::default().hash_password(password.as_bytes(), &salt).map(|h| h.to_string()).map_err(
        |e| e.to_string(),
    )
}

/// `PasswordHash::new` followed by `Argon2::default().verify_password`: an
/// error when `hash` is not a PHC string, otherwise whether the password
/// matches.
#[verifier::external_body]
fn argon2_check(password: &str, hash: &str) -> (r: Result<bool, String>)
    ensures
        r is Ok <==> phc_parses(hash@),
        r matches Ok(b) ==> b == argon2_accepts(password@, hash@),
{
    match PasswordHash::new(hash) {
        Ok(parsed) => Ok(Argon2::default().verify_password(password.as_bytes(), &parsed).is_ok()),
        Err(e) => Err(e.to_string()),
    }
}

/// What verifying `password` against `hash` answers: `None` when the hash
/// cannot be parsed, otherwise whether the password matches.
pub open spec fn verify_outcome(password: Seq<char>, hash: Seq<char>) -> Option<bool> {
    if phc_parses(hash) {
        Some(argon2_accepts(password, hash))
    } else {
        None
    }
}

/// Hashes a plaintext password with Argon2id and a random salt.
pub fn hash_password(password: &str) -> (r: Result<String, AppError>)
    ensures
        r matches Ok(h) ==> verify_outcome(password@, h@) == Some(true),
        r matches Err(e) ==> e.kind == ErrorKind::Internal,
{
    match argon2_hash(password) {
        Ok(h) => Ok(h),
        Err(e) => Err(AppError::internal(text("Failed to hash password: ").concat(e.as_str()))),
    }
}

/// Verifies a plaintext password against an Argon2 hash; an unparseable hash
/// is an internal error.
pub fn verify_password(password: &str, hash: &str) -> (r: Result<bool, AppError>)
    ensures
        match verify_outcome(password@, hash@) {
            Some(b) => r matches Ok(v) && v == b,
            None => r matches Err(e) && e.kind == ErrorKind::Internal,
        },
{
    match argon2_check(password, hash) {
        Ok(b) => Ok(b),
        Err(e) => Err(
            AppError::internal(text("Failed to parse password hash: ").concat(e.as_str())),
        ),
    }
}

/// A password that was hashed verifies against its hash.
pub proof fn lemma_hash_then_verify(password: Seq<char>, hash: Seq<char>)
    requires
        phc_parses(hash),
        argon2_accepts(password, hash),
    ensures
        verify_outcome(password, hash) == Some(true),
{
}

// ---------------------------------------------------------------------------
// Sessions
// ---------------------------------------------------------------------------

/// How long a session lives: 30 days, in milliseconds.
pub open spec fn session_lifetime_ms() -> i64 {
    2592000000
}

/// Whether a session has expired at `now`.
pub open spec fn session_expired(s: SessionRow, now: i64) -> bool {
    s.expires_at < now
}

/// Checks a login: the user must exist, be enabled and know the password.
pub fn authenticate(user: Option<UserRow>, password: &str) -> (r: Result<UserRow, AppError>)
    ensures
        match user {
            None => r matches Err(e) && e.kind == ErrorKind::Unauthorized,
            Some(u) => if u.is_enabled == 0 {
                r matches Err(e) && e.kind == ErrorKind::Unauthorized
            } else {
                match verify_outcome(password@, u.password_hash@) {
                    None => r matches Err(e) && e.kind == ErrorKind::Internal,
                    Some(false) => r matches Err(e) && e.kind == ErrorKind::Unauthorized,
                    Some(true) => r matches Ok(v) && v == u,
                }
            },
        },
{
    let user = match user {
        Some(u) => u,
        None => return Err(AppError::unauthorized(text("Invalid username or password"))),
    };
    if user.is_enabled == 0 {
        return Err(AppError::unauthorized(text("Account is disabled")));
    }
    let valid = match verify_password(password, user.password_hash.as_str()) {
        Ok(b) => b,
        Err(e) => return Err(e),
    };
    if !valid {
        return Err(AppError::unauthorized(text("Invalid username or password")));
    }
    Ok(user)
}

/// A new session for `user_id`, created and last used at `now`, expiring 30
/// days later.
pub fn new_session(user_id: i32, id: String, token: String, device_info: Option<String>, now: i64) -> (s:
    SessionRow)
    requires
        now <= i64::MAX - session_lifetime_ms(),
    ensures
        s.id@ == id@ && s.user_id == user_id && s.token@ == token@,
        s.device_info == device_info,
        s.created_at == now && s.last_used_at == now,
        s.expires_at == now + session_lifetime_ms(),
{
    SessionRow {
        id,
        user_id,
        token,
        device_info,
        created_at: now,
        last_used_at: now,
        expires_at: now + 2592000000,
    }
}

/// Checks a session presented for logout: it must exist.
pub fn logout_check(session: Option<SessionRow>) -> (r: Result<SessionRow, AppError>)
    ensures
        match session {
            None => r matches Err(e) && e.kind == ErrorKind::Unauthorized,
            Some(s) => r matches Ok(v) && v == s,
        },
{
    match session {
        Some(s) => Ok(s),
        None => Err(AppError::unauthorized(text("Invalid session"))),
    }
}

/// Checks a session presented for refresh: it must exist and not have
/// expired at `now`.
pub fn refresh_check(session: Option<SessionRow>, now: i64) -> (r: Result<SessionRow, AppError>)
    ensures
        match session {
            None => r matches Err(e) && e.kind == ErrorKind::Unauthorized,
            Some(s) => if session_expired(s, now) {
                r matches Err(e) && e.kind == ErrorKind::Unauthorized
            } else {
                r matches Ok(v) && v == s
            },
        },
{
    let s = match session {
        Some(s) => s,
        None => return Err(AppError::unauthorized(text("Invalid session"))),
    };
    if s.expires_at < now {
        return Err(AppError::unauthorized(text("Session expired")));
    }
    Ok(s)
}

/// Checks a revocation: the session must exist and belong to the requester.
pub fn revoke_check(session: Option<SessionRow>, requesting_user_id: i32) -> (r: Result<
    SessionRow,
    AppError,
>)
    ensures
        match session {
            None => r matches Err(e) && e.kind == ErrorKind::NotFound,
            Some(s) => if s.user_id != requesting_user_id {
                r matches Err(e) && e.kind == ErrorKind::Forbidden
            } else {
                r matches Ok(v) && v == s
            },
        },
{
    let s = match session {
        Some(s) => s,
        None => return Err(AppError::not_found(text("Session not found"))),
    };
    if s.user_id != requesting_user_id {
        return Err(AppError::forbidden(text("Cannot revoke another user's session")));
    }
    Ok(s)
}

/// The listing of a user's sessions.
pub fn session_infos(sessions: &Vec<SessionRow>) -> (infos: Vec<SessionInfo>)
    ensures
        infos@.len() == sessions@.len(),
        forall|k: int|
            0 <= k < sessions@.len() ==> {
                let i = #[trigger] infos@[k];
                let s = sessions@[k];
                i.id@ == s.id@ && i.created_at == s.created_at && i.last_used_at
                    == s.last_used_at && i.device_info == s.device_info
            },
{
    let mut infos: Vec<SessionInfo> = Vec::new();
    let mut k: usize = 0;
    while k < sessions.len()
        invariant
            k <= sessions@.len(),
            infos@.len() == k,
            forall|j: int|
                0 <= j < k ==> {
                    let i = #[trigger] infos@[j];
                    let s = sessions@[j];
                    i.id@ == s.id@ && i.created_at == s.created_at && i.last_used_at
                        == s.last_used_at && i.device_info == s.device_info
                },
        decreases sessions@.len() - k,
    {
        let s = &sessions[k];
        infos.push(
            SessionInfo {
                id: s.id.clone(),
                created_at: s.created_at,
                last_used_at: s.last_used_at,
                device_info: s.device_info.clone(),
            },
        );
        k += 1;
    }
    infos
}

/// Checks a password confirmation: the password must match the user's hash.
pub fn confirm_password(user: &UserRow, password: &str) -> (r: Result<(), AppError>)
    ensures
        match verify_outcome(password@, user.password_hash@) {
            None => r matches Err(e) && e.kind == ErrorKind::Internal,
            Some(false) => r matches Err(e) && e.kind == ErrorKind::Unauthorized,
            Some(true) => r is Ok,
        },
{
    let valid = match verify_password(password, user.password_hash.as_str()) {
        Ok(b) => b,
        Err(e) => return Err(e),
    };
    if !valid {
        return Err(AppError::unauthorized(text("Invalid password")));
    }
    Ok(())
}

/// Changes a password: the old password must match; the new one is hashed.
pub fn change_password(user: &UserRow, old_password: &str, new_password: &str) -> (r: Result<
    String,
    AppError,
>)
    ensures
        verify_outcome(old_password@, user.password_hash@) is None ==> (r matches Err(e)
            && e.kind == ErrorKind::Internal),
        verify_outcome(old_password@, user.password_hash@) == Some(false) ==> (r matches Err(e)
            && e.kind == ErrorKind::Unauthorized),
        verify_outcome(old_password@, user.password_hash@) == Some(true) ==> (r is Ok || (r matches Err(
            e,
        ) && e.kind == ErrorKind::Internal)),
        r matches Ok(h) ==> verify_outcome(old_password@, user.password_hash@) == Some(true)
            && verify_outcome(new_password@, h@) == Some(true),
{
    match confirm_password(user, old_password) {
        Ok(()) => {},
        Err(e) => return Err(e),
    }
    hash_password(new_password)
}

} // verus!
