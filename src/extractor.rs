use vstd::prelude::*;
use vstd::string::StringExecFns;
use crate::error::AppError;
use crate::jwt::{claims_live, claims_refusal, Claims, JwtService};
use crate::text::strip_prefix;
use crate::users::{parse_user_id, uuid_parse};

verus! {

/// The `Authorization` header of a request, as it arrived.
#[derive(Debug, Clone)]
pub enum AuthHeader {
    Missing,
    /// Present, but not visible ASCII text.
    Unreadable,
    Text(String),
}

/// The scheme that must open a credential header.
pub const BEARER_PREFIX: &'static str = "Bearer ";

/// A verified identity, taken from the claims of a valid token.
#[derive(Debug, Clone)]
pub struct AuthUser {
    pub id: u128,
    pub nickname: String,
    pub email: String,
    pub is_admin: bool,
}

/// An identity whose admin flag has been checked.
#[derive(Debug, Clone)]
pub struct AdminUser(pub AuthUser);

/// The identity that claims name, when their subject is a UUID.
pub open spec fn names(u: AuthUser, c: Claims) -> bool {
    &&& uuid_parse(c.sub@) == Some(u.id)
    &&& u.nickname@ == c.nickname@
    &&& u.email@ == c.email@
    &&& u.is_admin == c.is_admin
}

/// Why a request whose token was decoded to `decoded` is not authenticated at
/// time `now`, if it is not.
pub open spec fn auth_refusal(decoded: Result<Claims, String>, now: int) -> Option<Seq<char>> {
    match claims_refusal(decoded, now) {
        Some(d) => Some(d),
        None => if uuid_parse(decoded->Ok_0.sub@) is Some {
            None
        } else {
            Some("token subject is not valid UUID"@)
        },
    }
}

/// The token that a credential header carries: the text after `Bearer `.
/// A missing or unreadable header, or another scheme, is unauthorized.
pub fn bearer_token(header: &AuthHeader) -> (r: Result<String, AppError>)
    ensures
        match header {
            AuthHeader::Text(s) => (r is Ok <==> BEARER_PREFIX@.is_prefix_of(s@))
                && (r is Ok ==> r->Ok_0@ == s@.subrange(BEARER_PREFIX@.len() as int, s@.len() as int)),
            _ => r is Err,
        },
        r is Err ==> r->Err_0 is Unauthorized,
{
    match header {
        AuthHeader::Missing => Err(AppError::Unauthorized(String::from_str("missing Authorization header"))),
        AuthHeader::Unreadable => Err(AppError::Unauthorized(String::from_str("Authorization header is not valid UTF-8"))),
        AuthHeader::Text(s) => match strip_prefix(s.as_str(), BEARER_PREFIX) {
            Some(token) => Ok(String::from_str(token)),
            None => Err(AppError::Unauthorized(String::from_str("expected Bearer token"))),
        },
    }
}

impl AuthUser {
    /// The identity in valid claims; a subject that is not a UUID is unauthorized.
    pub fn from_claims(claims: Claims) -> (r: Result<AuthUser, AppError>)
        ensures
            r is Ok <==> uuid_parse(claims.sub@) is Some,
            r is Ok ==> names(r->Ok_0, claims),
            r is Err ==> r->Err_0 is Unauthorized && r->Err_0.detail() == "token subject is not valid UUID"@,
    {
        match parse_user_id(claims.sub.as_str()) {
            Some(id) => Ok(AuthUser {
                id,
                nickname: claims.nickname,
                email: claims.email,
                is_admin: claims.is_admin,
            }),
            None => Err(AppError::Unauthorized(String::from_str("token subject is not valid UUID"))),
        }
    }

    /// The identity of a request whose token was decoded to `decoded`, checked
    /// at time `now`: every failure on the way is unauthorized.
    pub fn from_decoded(jwt: &JwtService, decoded: Result<Claims, String>, now: i64) -> (r: Result<AuthUser, AppError>)
        ensures
            decoded is Err ==> r is Err,
            decoded is Ok ==> (r is Ok <==> claims_live(decoded->Ok_0, now as int)
                && uuid_parse(decoded->Ok_0.sub@) is Some),
            r is Ok ==> names(r->Ok_0, decoded->Ok_0),
            r is Err <==> auth_refusal(decoded, now as int) is Some,
            r is Err ==> r->Err_0 is Unauthorized
                && Some(r->Err_0.detail()) == auth_refusal(decoded, now as int),
    {
        let claims = jwt.check_claims(decoded, now)?;
        AuthUser::from_claims(claims)
    }
}

impl AdminUser {
    /// An identity that holds the admin flag; any other is forbidden.
    pub fn from_auth_user(user: AuthUser) -> (r: Result<AdminUser, AppError>)
        ensures
            r is Ok <==> user.is_admin,
            r is Ok ==> r->Ok_0.0 == user,
            r is Err ==> r->Err_0 is Forbidden
                && r->Err_0.detail() == "admin role is required for this endpoint"@,
    {
        if !user.is_admin {
            return Err(AppError::Forbidden(String::from_str("admin role is required for this endpoint")));
        }
        Ok(AdminUser(user))
    }

    /// The admin identity of a request whose token was decoded to `decoded`,
    /// checked at time `now`: an invalid token is unauthorized, a valid one
    /// without the admin flag is forbidden.
    pub fn from_decoded(jwt: &JwtService, decoded: Result<Claims, String>, now: i64) -> (r: Result<AdminUser, AppError>)
        ensures
            decoded is Err ==> r is Err && r->Err_0 is Unauthorized,
            decoded is Ok && !(claims_live(decoded->Ok_0, now as int) && uuid_parse(decoded->Ok_0.sub@) is Some)
                ==> r is Err && r->Err_0 is Unauthorized,
            decoded is Ok && claims_live(decoded->Ok_0, now as int) && uuid_parse(decoded->Ok_0.sub@) is Some
                ==> (r is Ok <==> decoded->Ok_0.is_admin),
            decoded is Ok && claims_live(decoded->Ok_0, now as int) && uuid_parse(decoded->Ok_0.sub@) is Some
                && !decoded->Ok_0.is_admin ==> r is Err && r->Err_0 is Forbidden,
            r is Ok ==> names(r->Ok_0.0, decoded->Ok_0),
            auth_refusal(decoded, now as int) is Some ==> r is Err && r->Err_0 is Unauthorized
                && Some(r->Err_0.detail()) == auth_refusal(decoded, now as int),
            auth_refusal(decoded, now as int) is None ==> (r is Ok <==> decoded->Ok_0.is_admin),
            r is Err && r->Err_0 is Forbidden ==> auth_refusal(decoded, now as int) is None,
    {
        let user = AuthUser::from_decoded(jwt, decoded, now)?;
        AdminUser::from_auth_user(user)
    }
}

} // verus!
