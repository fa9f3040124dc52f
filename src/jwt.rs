use vstd::prelude::*;
use vstd::string::StringExecFns;
use crate::error::{detail_of, AppError};
use crate::users::{user_id_text, uuid_parse, uuid_text, UserRecord};

verus! {

/// Signs and checks token claims with one secret and one time-to-live, both
/// fixed for the life of the process.
#[derive(Debug, Clone)]
pub struct JwtService {
    secret: String,
    ttl_seconds: i64,
}

/// The payload of a token: who it was issued to, and when it was issued and
/// expires, in seconds since the Unix epoch.
#[derive(Debug, Clone)]
pub struct Claims {
    pub sub: String,
    pub nickname: String,
    pub email: String,
    pub is_admin: bool,
    pub iat: u64,
    pub exp: u64,
}

/// Relies on `chrono::Utc::now`: the current time in whole seconds since the
/// Unix epoch. Nothing is stated of it.
#[verifier::external_body]
fn now_seconds() -> (r: i64) {
    chrono::Utc::now().timestamp()
}

/// Claims issued for `user` at time `now` with time-to-live `ttl`.
pub open spec fn issued_for(c: Claims, user: UserRecord, now: int, ttl: int) -> bool {
    &&& c.sub@ == uuid_text(user.id)
    &&& uuid_parse(c.sub@) == Some(user.id)
    &&& c.nickname@ == user.nickname@
    &&& c.email@ == user.email@
    &&& c.is_admin == user.is_admin
    &&& c.iat == now
    &&& c.exp == now + ttl
}

/// Claims that have not yet expired at time `now`.
pub open spec fn claims_live(c: Claims, now: int) -> bool {
    now < c.exp
}

/// Why decoded claims are refused at time `now`, if they are: the decoder's
/// own reason, or expiry.
pub open spec fn claims_refusal(decoded: Result<Claims, String>, now: int) -> Option<Seq<char>> {
    match decoded {
        Err(reason) => Some("invalid token: "@ + reason@),
        Ok(c) => if claims_live(c, now) {
            None
        } else {
            Some("invalid token: ExpiredSignature"@)
        },
    }
}

/// Both timestamps of a token issued at `now` can be written as seconds since
/// the Unix epoch.
pub open spec fn window_fits(now: int, ttl: int) -> bool {
    0 <= now && 0 <= now + ttl
}

impl JwtService {
    pub closed spec fn secret_view(&self) -> Seq<char> {
        self.secret@
    }

    pub closed spec fn ttl(&self) -> i64 {
        self.ttl_seconds
    }

    pub fn new(secret: String, ttl_seconds: i64) -> (r: Self)
        ensures
            r.secret_view() == secret@,
            r.ttl() == ttl_seconds,
    {
        Self { secret, ttl_seconds }
    }

    pub fn secret(&self) -> (r: &str)
        ensures
            r@ == self.secret_view(),
    {
        self.secret.as_str()
    }

    pub fn ttl_seconds(&self) -> (r: i64)
        ensures
            r == self.ttl(),
    {
        self.ttl_seconds
    }

    /// The claims for `user` issued at time `now`: they expire exactly one
    /// time-to-live later. Timestamps that cannot be written give an internal error.
    pub fn claims_at(&self, user: &UserRecord, now: i64) -> (r: Result<Claims, AppError>)
        ensures
            r is Ok <==> window_fits(now as int, self.ttl() as int),
            r is Ok ==> issued_for(r->Ok_0, *user, now as int, self.ttl() as int),
            r is Err ==> r->Err_0 is Internal,
    {
        if now < 0 || (self.ttl_seconds < 0 && now + self.ttl_seconds < 0) {
            return Err(AppError::Internal(String::from_str("token timestamps are out of range")));
        }
        let iat = now as u64;
        let exp: u64 = if self.ttl_seconds >= 0 {
            iat + self.ttl_seconds as u64
        } else {
            (now + self.ttl_seconds) as u64
        };
        Ok(Claims {
            sub: user_id_text(user.id),
            nickname: user.nickname.clone(),
            email: user.email.clone(),
            is_admin: user.is_admin,
            iat,
            exp,
        })
    }

    /// The claims for `user`, issued now.
    pub fn issue_claims(&self, user: &UserRecord) -> (r: Result<Claims, AppError>)
        ensures
            r is Ok ==> issued_for(r->Ok_0, *user, r->Ok_0.iat as int, self.ttl() as int),
            r is Ok ==> r->Ok_0.exp - r->Ok_0.iat == self.ttl(),
            r is Err ==> r->Err_0 is Internal,
    {
        let now = now_seconds();
        self.claims_at(user, now)
    }

    /// The verdict on a decoded token at time `now`: a token whose signature or
    /// structure was refused (`decoded` holds the reason), and one that has
    /// expired, are both unauthorized.
    pub fn check_claims(&self, decoded: Result<Claims, String>, now: i64) -> (r: Result<Claims, AppError>)
        ensures
            decoded is Err ==> r is Err && r->Err_0 is Unauthorized,
            decoded is Ok ==> (r is Ok <==> claims_live(decoded->Ok_0, now as int)),
            decoded is Ok && r is Ok ==> r->Ok_0 == decoded->Ok_0,
            r is Err <==> claims_refusal(decoded, now as int) is Some,
            r is Err ==> r->Err_0 is Unauthorized
                && Some(r->Err_0.detail()) == claims_refusal(decoded, now as int),
    {
        match decoded {
            Err(reason) => Err(AppError::Unauthorized(detail_of("invalid token: ", reason.as_str()))),
            Ok(c) => {
                if now < 0 || (now as u64) < c.exp {
                    Ok(c)
                } else {
                    Err(AppError::Unauthorized(String::from_str("invalid token: ExpiredSignature")))
                }
            },
        }
    }

    /// The verdict on a decoded token, now.
    pub fn decode_claims(&self, decoded: Result<Claims, String>) -> (r: Result<Claims, AppError>)
        ensures
            decoded is Err ==> r is Err && r->Err_0 is Unauthorized,
            r is Ok ==> decoded is Ok && r->Ok_0 == decoded->Ok_0,
            r is Err ==> r->Err_0 is Unauthorized,
            decoded is Err ==> r->Err_0.detail() == "invalid token: "@ + decoded->Err_0@,
    {
        let now = now_seconds();
        self.check_claims(decoded, now)
    }
}

/// A token's claims, checked at any time from their issue until just before
/// one time-to-live has passed, are accepted and name the user they were
/// issued for.
pub proof fn lemma_issued_claims_accepted(c: Claims, user: UserRecord, now: int, ttl: int, later: int)
    requires
        issued_for(c, user, now, ttl),
        now <= later < now + ttl,
    ensures
        claims_live(c, later),
        uuid_parse(c.sub@) == Some(user.id),
        c.nickname@ == user.nickname@,
        c.email@ == user.email@,
        c.is_admin == user.is_admin,
        c.exp - c.iat == ttl,
{
}

/// Once one time-to-live has passed since issue, a token's claims are refused.
pub proof fn lemma_expired_claims_refused(c: Claims, user: UserRecord, now: int, ttl: int, later: int)
    requires
        issued_for(c, user, now, ttl),
        later >= now + ttl,
    ensures
        !claims_live(c, later),
{
}

} // verus!
