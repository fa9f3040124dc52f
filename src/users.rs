use vstd::prelude::*;
use crate::error::{detail_of, AppError};
use crate::text::texts_equal;
use vstd::string::StringExecFns;

verus! {

/// A stored user. The identifier is the 128-bit value of its UUID and the
/// creation time is in microseconds since the Unix epoch.
#[derive(Debug, Clone)]
pub struct UserRecord {
    pub id: u128,
    pub nickname: String,
    pub email: String,
    pub password_hash: String,
    pub is_admin: bool,
    pub created_at: i64,
}

/// The values handed to the store to create a user.
#[derive(Debug, Clone)]
pub struct NewUser {
    pub nickname: String,
    pub email: String,
    pub password_hash: String,
    pub is_admin: bool,
}

/// A failure reported by the store: its SQLSTATE code, if any, and its text.
#[derive(Debug, Clone)]
pub struct StoreFailure {
    pub code: Option<String>,
    pub message: String,
}

/// The SQLSTATE code of a unique-constraint violation.
pub const UNIQUE_VIOLATION: &'static str = "23505";

pub open spec fn is_unique_violation(f: StoreFailure) -> bool {
    f.code is Some && f.code->Some_0@ == UNIQUE_VIOLATION@
}

/// The textual form of a UUID: depends on its value alone.
pub uninterp spec fn uuid_text(id: u128) -> Seq<char>;

/// What the UUID parser makes of a text: depends on the characters alone.
pub uninterp spec fn uuid_parse(s: Seq<char>) -> Option<u128>;

/// Relies on `uuid::Uuid::from_u128` and its `Display`: the hyphenated form,
/// which `uuid::Uuid::parse_str` reads back to the same value.
#[verifier::external_body]
pub(crate) fn user_id_text(id: u128) -> (r: String)
    ensures
        r@ == uuid_text(id),
        uuid_parse(r@) == Some(id),
{
    uuid::Uuid::from_u128(id).to_string()
}

/// Relies on `uuid::Uuid::parse_str`: the value of a text that is a UUID.
#[verifier::external_body]
pub(crate) fn parse_user_id(s: &str) -> (r: Option<u128>)
    ensures
        r == uuid_parse(s@),
{
    match uuid::Uuid::parse_str(s) {
        Ok(u) => Some(u.as_u128()),
        Err(_) => None,
    }
}

/// The error for a store failure that has no meaning of its own.
pub fn store_error(f: &StoreFailure) -> (r: AppError)
    ensures
        r is Internal,
        r.detail() == "database error: "@ + f.message@,
{
    AppError::Internal(detail_of("database error: ", f.message.as_str()))
}

/// The outcome of inserting a user: a unique-constraint violation is a conflict,
/// any other failure is internal.
pub fn insert_outcome(result: Result<UserRecord, StoreFailure>) -> (r: Result<UserRecord, AppError>)
    ensures
        match result {
            Ok(u) => r == Ok::<UserRecord, AppError>(u),
            Err(f) => r is Err && (is_unique_violation(f) ==> r->Err_0 is Conflict)
                && (!is_unique_violation(f) ==> r->Err_0 is Internal),
        },
{
    match result {
        Ok(u) => Ok(u),
        Err(f) => {
            let unique = match &f.code {
                Some(c) => texts_equal(c.as_str(), UNIQUE_VIOLATION),
                None => false,
            };
            if unique {
                Err(AppError::Conflict(String::from_str("user with this nickname or email already exists")))
            } else {
                Err(store_error(&f))
            }
        },
    }
}

} // verus!
