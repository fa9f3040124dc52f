use vstd::prelude::*;
use vstd::string::StringExecFns;
use vstd::utf8::encode_utf8;
use crate::error::{detail_of, AppError};
use crate::models::{shows, PublicUser};
use crate::text::{contains_char, lower_of, lowercase, trim_of, trim_text};
use crate::users::{NewUser, UserRecord};

verus! {

/// The body of a registration request.
#[derive(Debug, Clone)]
pub struct RegisterRequest {
    pub nickname: String,
    pub email: String,
    pub password: String,
}

/// The body of a login request.
#[derive(Debug, Clone)]
pub struct LoginRequest {
    pub email: String,
    pub password: String,
}

/// What `bcrypt::verify` answers for a password and a stored hash: `None`
/// where it fails. It depends on its arguments alone.
pub uninterp spec fn bcrypt_verdict(password: Seq<char>, hash: Seq<char>) -> Option<bool>;

/// Relies on `bcrypt::hash` at bcrypt's default cost: a salted hash of the
/// password, or the text of the error. The salt is random; `bcrypt::verify`
/// re-hashes with the cost and salt written in the hash, so it accepts the
/// password against it.
#[verifier::external_body]
fn hash_password(password: &str) -> (r: Result<String, String>)
    ensures
        r is Ok ==> bcrypt_verdict(password@, r->Ok_0@) == Some(true),
{
    match bcrypt::hash(password, bcrypt::DEFAULT_COST) {
        Ok(h) => Ok(h),
        Err(e) => Err(e.to_string()),
    }
}

/// Relies on `bcrypt::verify`: whether the password matches the stored hash,
/// or the text of the error.
#[verifier::external_body]
fn verify_password(password: &str, hash: &str) -> (r: Result<bool, String>)
    ensures
        r is Ok <==> bcrypt_verdict(password@, hash@) is Some,
        r is Ok ==> bcrypt_verdict(password@, hash@) == Some(r->Ok_0),
{
    match bcrypt::verify(password, hash) {
        Ok(b) => Ok(b),
        Err(e) => Err(e.to_string()),
    }
}

/// The detail of every refused login, whatever the reason.
pub open spec fn login_refused() -> Seq<char> {
    "invalid email or password"@
}

/// The length in bytes of a text's UTF-8 encoding, as `str::len` reports it.
pub open spec fn byte_len(t: Seq<char>) -> usize {
    encode_utf8(t).len() as usize
}

/// A nickname, already trimmed, of 3 to 32 bytes.
pub open spec fn nickname_ok(t: Seq<char>) -> bool {
    3 <= byte_len(t) <= 32
}

/// An email, already normalised: it holds an `@` that is neither first nor last,
/// and no space.
pub open spec fn email_ok(e: Seq<char>) -> bool {
    &&& e.contains('@')
    &&& e[0] != '@'
    &&& e.last() != '@'
    &&& !e.contains(' ')
}

/// An email as it is stored and looked up: trimmed, then lowercased.
pub open spec fn normalized_email(v: Seq<char>) -> Seq<char> {
    lower_of(trim_of(v))
}

/// A password of at least 8 bytes.
pub open spec fn password_ok(p: Seq<char>) -> bool {
    byte_len(p) >= 8
}

pub fn validate_nickname(value: &str) -> (r: Result<String, AppError>)
    ensures
        r is Ok <==> nickname_ok(trim_of(value@)),
        r is Ok ==> r->Ok_0@ == trim_of(value@),
        r is Err ==> r->Err_0 is BadRequest,
{
    let trimmed = trim_text(value);
    if trimmed.len() < 3 || trimmed.len() > 32 {
        return Err(AppError::BadRequest(String::from_str("nickname length must be between 3 and 32 characters")));
    }
    Ok(String::from_str(trimmed))
}

pub fn normalize_and_validate_email(value: &str) -> (r: Result<String, AppError>)
    ensures
        r is Ok <==> email_ok(normalized_email(value@)),
        r is Ok ==> r->Ok_0@ == normalized_email(value@),
        r is Err ==> r->Err_0 is BadRequest,
{
    let trimmed = lowercase(trim_text(value));
    let t = trimmed.as_str();
    let valid = contains_char(t, '@') && t.get_char(0) != '@'
        && t.get_char(t.unicode_len() - 1) != '@' && !contains_char(t, ' ');
    if !valid {
        return Err(AppError::BadRequest(String::from_str("email must be a valid address")));
    }
    Ok(trimmed)
}

pub fn validate_password(value: &str) -> (r: Result<(), AppError>)
    ensures
        r is Ok <==> password_ok(value@),
        r is Err ==> r->Err_0 is BadRequest,
{
    if value.len() < 8 {
        return Err(AppError::BadRequest(String::from_str("password must contain at least 8 characters")));
    }
    Ok(())
}

/// Checks a registration request and prepares the user to insert: the trimmed
/// nickname, the normalised email, a fresh hash of the password, no admin flag.
/// The first invalid field, in that order, gives a bad request; a failure of the
/// hashing gives an internal error.
pub fn prepare_registration(req: &RegisterRequest) -> (r: Result<NewUser, AppError>)
    ensures
        !nickname_ok(trim_of(req.nickname@)) ==> r is Err && r->Err_0 is BadRequest,
        nickname_ok(trim_of(req.nickname@)) && !email_ok(normalized_email(req.email@))
            ==> r is Err && r->Err_0 is BadRequest,
        nickname_ok(trim_of(req.nickname@)) && email_ok(normalized_email(req.email@))
            && !password_ok(req.password@) ==> r is Err && r->Err_0 is BadRequest,
        nickname_ok(trim_of(req.nickname@)) && email_ok(normalized_email(req.email@))
            && password_ok(req.password@) ==> r is Ok || r->Err_0 is Internal,
        r is Ok ==> {
            &&& nickname_ok(trim_of(req.nickname@))
            &&& email_ok(normalized_email(req.email@))
            &&& password_ok(req.password@)
            &&& r->Ok_0.nickname@ == trim_of(req.nickname@)
            &&& r->Ok_0.email@ == normalized_email(req.email@)
            &&& !r->Ok_0.is_admin
            &&& bcrypt_verdict(req.password@, r->Ok_0.password_hash@) == Some(true)
        },
{
    let nickname = validate_nickname(req.nickname.as_str())?;
    let email = normalize_and_validate_email(req.email.as_str())?;
    validate_password(req.password.as_str())?;
    new_user_from(nickname, email, hash_password(req.password.as_str()))
}

/// The user to insert once the password has been hashed: a regular user with
/// that hash, or an internal error where hashing failed.
pub fn new_user_from(nickname: String, email: String, hashed: Result<String, String>) -> (r: Result<NewUser, AppError>)
    ensures
        match hashed {
            Ok(h) => r is Ok && r->Ok_0.nickname@ == nickname@ && r->Ok_0.email@ == email@
                && r->Ok_0.password_hash@ == h@ && !r->Ok_0.is_admin,
            Err(e) => r is Err && r->Err_0 is Internal && r->Err_0.detail() == "bcrypt error: "@ + e@,
        },
{
    match hashed {
        Ok(password_hash) => Ok(NewUser { nickname, email, password_hash, is_admin: false }),
        Err(e) => Err(AppError::Internal(detail_of("bcrypt error: ", e.as_str()))),
    }
}

/// The login decision for a known user once the password has been checked
/// against its hash: a match logs in, a mismatch is refused, and a failure of
/// the check is internal with its text.
pub fn login_decision(user: UserRecord, verdict: Result<bool, String>) -> (r: Result<UserRecord, AppError>)
    ensures
        match verdict {
            Ok(true) => r == Ok::<UserRecord, AppError>(user),
            Ok(false) => r is Err && r->Err_0 is Unauthorized && r->Err_0.detail() == login_refused(),
            Err(e) => r is Err && r->Err_0 is Internal && r->Err_0.detail() == "bcrypt error: "@ + e@,
        },
{
    match verdict {
        Ok(true) => Ok(user),
        Ok(false) => Err(AppError::Unauthorized(String::from_str("invalid email or password"))),
        Err(e) => Err(AppError::Internal(detail_of("bcrypt error: ", e.as_str()))),
    }
}

/// The login decision once the user has been looked up by normalised email:
/// an unknown email and a wrong password give the same unauthorized error.
pub fn check_login(found: Option<UserRecord>, password: &str) -> (r: Result<UserRecord, AppError>)
    ensures
        found is None ==> r is Err && r->Err_0 is Unauthorized,
        found is Some ==> match bcrypt_verdict(password@, found->Some_0.password_hash@) {
            Some(true) => r is Ok && r->Ok_0 == found->Some_0,
            Some(false) => r is Err && r->Err_0 is Unauthorized,
            None => r is Err && r->Err_0 is Internal,
        },
        r is Err && r->Err_0 is Unauthorized ==> r->Err_0.detail() == login_refused(),
{
    let user = match found {
        Some(u) => u,
        None => {
            return Err(AppError::Unauthorized(String::from_str("invalid email or password")));
        },
    };
    let verdict = verify_password(password, user.password_hash.as_str());
    login_decision(user, verdict)
}

/// The current user, once the identity's record has been looked up: a record
/// that no longer exists gives unauthorized.
pub fn current_user(found: Option<UserRecord>) -> (r: Result<PublicUser, AppError>)
    ensures
        found is None ==> r is Err && r->Err_0 is Unauthorized,
        found is Some ==> r is Ok && shows(r->Ok_0, found->Some_0),
{
    match found {
        Some(u) => Ok(PublicUser::from_record(u)),
        None => Err(AppError::Unauthorized(String::from_str("user from token no longer exists"))),
    }
}

} // verus!
