use vstd::prelude::*;
use crate::extractor::AdminUser;
use crate::users::{user_id_text, uuid_text, UserRecord};
use vstd::string::StringExecFns;

verus! {

/// A user as shown to clients: everything but the password hash.
#[derive(Debug, Clone)]
pub struct PublicUser {
    pub id: u128,
    pub nickname: String,
    pub email: String,
    pub is_admin: bool,
    pub created_at: i64,
}

/// A user with the record it was made from: same fields, no password hash.
pub open spec fn shows(p: PublicUser, u: UserRecord) -> bool {
    &&& p.id == u.id
    &&& p.nickname@ == u.nickname@
    &&& p.email@ == u.email@
    &&& p.is_admin == u.is_admin
    &&& p.created_at == u.created_at
}

impl PublicUser {
    pub fn from_record(value: UserRecord) -> (r: PublicUser)
        ensures
            shows(r, value),
    {
        PublicUser {
            id: value.id,
            nickname: value.nickname,
            email: value.email,
            is_admin: value.is_admin,
            created_at: value.created_at,
        }
    }
}

/// A freshly issued token together with the user it was issued for.
#[derive(Debug, Clone)]
pub struct AuthResponse {
    pub token: String,
    pub user: PublicUser,
}

/// The answer to an admin's ping: a fixed status and the admin's identity.
#[derive(Debug, Clone)]
pub struct AdminPingResponse {
    pub status: String,
    pub admin_id: String,
    pub nickname: String,
    pub email: String,
}

impl AdminPingResponse {
    pub fn for_admin(admin: AdminUser) -> (r: AdminPingResponse)
        ensures
            r.status@ == "ok"@,
            r.admin_id@ == uuid_text(admin.0.id),
            r.nickname@ == admin.0.nickname@,
            r.email@ == admin.0.email@,
    {
        let AdminUser(user) = admin;
        AdminPingResponse {
            status: String::from_str("ok"),
            admin_id: user_id_text(user.id),
            nickname: user.nickname,
            email: user.email,
        }
    }
}

} // verus!
