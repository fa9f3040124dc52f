use auth_service::error::AppError;
use auth_service::extractor::{bearer_token, AdminUser, AuthHeader, AuthUser};
use auth_service::jwt::{Claims, JwtService};
use auth_service::models::AdminPingResponse;
use auth_service::users::UserRecord;

const ID: u128 = 0x67e5_5044_10b1_426f_9247_bb68_0e5f_e0c8;
const ID_TEXT: &str = "67e55044-10b1-426f-9247-bb680e5fe0c8";

fn user(is_admin: bool) -> UserRecord {
    UserRecord {
        id: ID,
        nickname: "alice".to_string(),
        email: "alice@x.com".to_string(),
        password_hash: "h".to_string(),
        is_admin,
        created_at: 0,
    }
}

fn service() -> JwtService {
    JwtService::new("s3cret".to_string(), 3600)
}

#[test]
fn claims_carry_the_user_and_window() {
    let c = service().claims_at(&user(true), 1_000).unwrap();
    assert_eq!(c.sub, ID_TEXT);
    assert_eq!(c.nickname, "alice");
    assert_eq!(c.email, "alice@x.com");
    assert!(c.is_admin);
    assert_eq!(c.iat, 1_000);
    assert_eq!(c.exp, 4_600);
}

#[test]
fn claims_out_of_range_are_internal() {
    assert!(matches!(service().claims_at(&user(false), -1), Err(AppError::Internal(_))));
    let short = JwtService::new("s".to_string(), -10);
    assert!(matches!(short.claims_at(&user(false), 5), Err(AppError::Internal(_))));
    assert_eq!(short.claims_at(&user(false), 10).unwrap().exp, 0);
}

#[test]
fn issued_claims_are_accepted_and_name_the_user() {
    let svc = service();
    let c = svc.issue_claims(&user(false)).unwrap();
    assert_eq!(c.exp - c.iat, 3600);
    let back = svc.decode_claims(Ok(c.clone())).unwrap();
    let who = AuthUser::from_claims(back).unwrap();
    assert_eq!(who.id, ID);
    assert_eq!(who.nickname, "alice");
    assert_eq!(who.email, "alice@x.com");
    assert!(!who.is_admin);
}

#[test]
fn claims_expire_after_the_ttl() {
    let svc = service();
    let c = svc.claims_at(&user(false), 1_000).unwrap();
    assert!(svc.check_claims(Ok(c.clone()), 4_599).is_ok());
    assert!(matches!(svc.check_claims(Ok(c.clone()), 4_600), Err(AppError::Unauthorized(_))));
    assert!(matches!(svc.check_claims(Ok(c), 10_000), Err(AppError::Unauthorized(_))));
}

#[test]
fn refused_tokens_are_unauthorized() {
    let svc = service();
    match svc.check_claims(Err("InvalidSignature".to_string()), 0) {
        Err(AppError::Unauthorized(d)) => assert_eq!(d, "invalid token: InvalidSignature"),
        other => panic!("{other:?}"),
    }
}

#[test]
fn bearer_header_is_required() {
    assert!(matches!(bearer_token(&AuthHeader::Missing), Err(AppError::Unauthorized(_))));
    assert!(matches!(bearer_token(&AuthHeader::Unreadable), Err(AppError::Unauthorized(_))));
    assert!(matches!(
        bearer_token(&AuthHeader::Text("Basic abc".to_string())),
        Err(AppError::Unauthorized(_))
    ));
    assert!(matches!(
        bearer_token(&AuthHeader::Text("bearer abc".to_string())),
        Err(AppError::Unauthorized(_))
    ));
    assert_eq!(bearer_token(&AuthHeader::Text("Bearer abc.def".to_string())).unwrap(), "abc.def");
    assert_eq!(bearer_token(&AuthHeader::Text("Bearer ".to_string())).unwrap(), "");
}

#[test]
fn subject_must_be_a_uuid() {
    let c = Claims {
        sub: "not-a-uuid".to_string(),
        nickname: "n".to_string(),
        email: "e@x".to_string(),
        is_admin: false,
        iat: 0,
        exp: 10,
    };
    assert!(matches!(AuthUser::from_claims(c), Err(AppError::Unauthorized(_))));
}

#[test]
fn admin_ping_gate() {
    let svc = service();
    let plain = svc.claims_at(&user(false), 1_000).unwrap();
    assert!(matches!(AdminUser::from_decoded(&svc, Ok(plain), 1_001), Err(AppError::Forbidden(_))));
    assert!(matches!(
        AdminUser::from_decoded(&svc, Err("InvalidToken".to_string()), 1_001),
        Err(AppError::Unauthorized(_))
    ));
    let admin_claims = svc.claims_at(&user(true), 1_000).unwrap();
    let admin = AdminUser::from_decoded(&svc, Ok(admin_claims), 1_001).unwrap();
    let ping = AdminPingResponse::for_admin(admin);
    assert_eq!(ping.status, "ok");
    assert_eq!(ping.admin_id, ID_TEXT);
    assert_eq!(ping.nickname, "alice");
    assert_eq!(ping.email, "alice@x.com");
}

#[test]
fn expired_admin_token_is_unauthorized() {
    let svc = service();
    let admin_claims = svc.claims_at(&user(true), 1_000).unwrap();
    assert!(matches!(
        AdminUser::from_decoded(&svc, Ok(admin_claims), 5_000),
        Err(AppError::Unauthorized(_))
    ));
}

#[test]
fn service_keeps_its_configuration() {
    let svc = service();
    assert_eq!(svc.secret(), "s3cret");
    assert_eq!(svc.ttl_seconds(), 3600);
}

#[test]
fn refusal_details_pass_through_the_admin_gate() {
    let svc = service();
    let c = svc.claims_at(&user(true), 1_000).unwrap();
    match AdminUser::from_decoded(&svc, Ok(c), 9_000) {
        Err(AppError::Unauthorized(d)) => assert_eq!(d, "invalid token: ExpiredSignature"),
        other => panic!("{other:?}"),
    }
    match AdminUser::from_decoded(&svc, Err("InvalidSignature".to_string()), 0) {
        Err(AppError::Unauthorized(d)) => assert_eq!(d, "invalid token: InvalidSignature"),
        other => panic!("{other:?}"),
    }
    let plain = svc.claims_at(&user(false), 1_000).unwrap();
    match AdminUser::from_decoded(&svc, Ok(plain), 1_000) {
        Err(AppError::Forbidden(d)) => assert_eq!(d, "admin role is required for this endpoint"),
        other => panic!("{other:?}"),
    }
}
