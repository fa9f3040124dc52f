use auth_service::accounts::{
    check_login, current_user, login_decision, new_user_from, normalize_and_validate_email, prepare_registration, validate_nickname,
    validate_password, RegisterRequest,
};
use auth_service::error::AppError;
use auth_service::users::{insert_outcome, StoreFailure, UserRecord};

fn record(email: &str, password_hash: String) -> UserRecord {
    UserRecord {
        id: 0x67e5_5044_10b1_426f_9247_bb68_0e5f_e0c8,
        nickname: "alice".to_string(),
        email: email.to_string(),
        password_hash,
        is_admin: false,
        created_at: 1_700_000_000_000_000,
    }
}

#[test]
fn nickname_is_trimmed_and_bounded() {
    assert_eq!(validate_nickname("  alice  ").unwrap(), "alice");
    assert!(matches!(validate_nickname(" ab "), Err(AppError::BadRequest(_))));
    assert!(validate_nickname("abc").is_ok());
    assert!(validate_nickname(&"a".repeat(32)).is_ok());
    assert!(matches!(validate_nickname(&"a".repeat(33)), Err(AppError::BadRequest(_))));
}

#[test]
fn nickname_length_counts_bytes() {
    // two characters of two bytes each
    assert!(validate_nickname("éé").is_ok());
    assert!(matches!(validate_nickname("é"), Err(AppError::BadRequest(_))));
}

#[test]
fn email_is_trimmed_and_lowercased() {
    assert_eq!(normalize_and_validate_email("  ALICE@x.com ").unwrap(), "alice@x.com");
}

#[test]
fn email_shapes_are_rejected() {
    for bad in ["alice.x.com", "@x.com", "alice@", "ali ce@x.com", "", "   "] {
        assert!(matches!(normalize_and_validate_email(bad), Err(AppError::BadRequest(_))), "{bad}");
    }
    assert!(normalize_and_validate_email("a@b").is_ok());
}

#[test]
fn password_needs_eight_bytes() {
    assert!(validate_password("longenough1").is_ok());
    assert!(validate_password("12345678").is_ok());
    assert!(matches!(validate_password("1234567"), Err(AppError::BadRequest(_))));
}

#[test]
fn registration_normalises_the_request() {
    let req = RegisterRequest {
        nickname: "alice".to_string(),
        email: "ALICE@x.com".to_string(),
        password: "longenough1".to_string(),
    };
    let new_user = prepare_registration(&req).unwrap();
    assert_eq!(new_user.nickname, "alice");
    assert_eq!(new_user.email, "alice@x.com");
    assert!(!new_user.is_admin);
    assert_ne!(new_user.password_hash, "longenough1");
    assert!(bcrypt::verify("longenough1", &new_user.password_hash).unwrap());
}

#[test]
fn registration_twice_with_same_email_is_a_conflict() {
    let first = RegisterRequest {
        nickname: "alice".to_string(),
        email: "ALICE@x.com".to_string(),
        password: "longenough1".to_string(),
    };
    let second = RegisterRequest {
        nickname: "alice2".to_string(),
        email: "alice@x.com".to_string(),
        password: "longenough1".to_string(),
    };
    let a = prepare_registration(&first).unwrap();
    let b = prepare_registration(&second).unwrap();
    assert_eq!(a.email, b.email);
    let store_answer = Err(StoreFailure {
        code: Some("23505".to_string()),
        message: "duplicate key value violates unique constraint".to_string(),
    });
    assert!(matches!(insert_outcome(store_answer), Err(AppError::Conflict(_))));
}

#[test]
fn other_store_failures_are_internal() {
    let answer = Err(StoreFailure { code: Some("08006".to_string()), message: "gone".to_string() });
    assert!(matches!(insert_outcome(answer), Err(AppError::Internal(ref d)) if d == "database error: gone"));
    let answer = Err(StoreFailure { code: None, message: "gone".to_string() });
    assert!(matches!(insert_outcome(answer), Err(AppError::Internal(_))));
    let ok = insert_outcome(Ok(record("a@b", String::new()))).unwrap();
    assert_eq!(ok.email, "a@b");
}

#[test]
fn registration_reports_the_first_invalid_field() {
    let req = RegisterRequest { nickname: "al".to_string(), email: "bad".to_string(), password: "x".to_string() };
    match prepare_registration(&req) {
        Err(AppError::BadRequest(d)) => assert!(d.contains("nickname")),
        other => panic!("{other:?}"),
    }
    let req = RegisterRequest { nickname: "alice".to_string(), email: "bad".to_string(), password: "x".to_string() };
    match prepare_registration(&req) {
        Err(AppError::BadRequest(d)) => assert!(d.contains("email")),
        other => panic!("{other:?}"),
    }
    let req = RegisterRequest { nickname: "alice".to_string(), email: "a@b".to_string(), password: "x".to_string() };
    match prepare_registration(&req) {
        Err(AppError::BadRequest(d)) => assert!(d.contains("password")),
        other => panic!("{other:?}"),
    }
}

#[test]
fn login_checks_the_password() {
    let hash = bcrypt::hash("longenough1", 4).unwrap();
    let user = check_login(Some(record("alice@x.com", hash.clone())), "longenough1").unwrap();
    assert_eq!(user.email, "alice@x.com");
    assert!(matches!(
        check_login(Some(record("alice@x.com", hash)), "wrongpassword"),
        Err(AppError::Unauthorized(_))
    ));
}

#[test]
fn login_with_unknown_email_is_unauthorized() {
    assert!(matches!(check_login(None, "longenough1"), Err(AppError::Unauthorized(_))));
}

#[test]
fn login_with_a_broken_hash_is_internal() {
    assert!(matches!(
        check_login(Some(record("alice@x.com", "not a hash".to_string())), "longenough1"),
        Err(AppError::Internal(_))
    ));
}

#[test]
fn current_user_must_still_exist() {
    assert!(matches!(current_user(None), Err(AppError::Unauthorized(_))));
    let shown = current_user(Some(record("alice@x.com", "h".to_string()))).unwrap();
    assert_eq!(shown.email, "alice@x.com");
    assert_eq!(shown.created_at, 1_700_000_000_000_000);
}

#[test]
fn errors_map_to_statuses_and_messages() {
    let cases = [
        (AppError::BadRequest("x".to_string()), 400, "bad request: x"),
        (AppError::Unauthorized("x".to_string()), 401, "unauthorized: x"),
        (AppError::Forbidden("x".to_string()), 403, "forbidden: x"),
        (AppError::Conflict("x".to_string()), 409, "conflict: x"),
        (AppError::ServiceUnavailable("x".to_string()), 503, "service unavailable: x"),
        (AppError::SchemaMismatch("x".to_string()), 500, "schema mismatch: x"),
        (AppError::Internal("x".to_string()), 500, "internal server error: x"),
    ];
    for (e, status, message) in cases {
        assert_eq!(e.status_code(), status);
        assert_eq!(e.message(), message);
    }
}

#[test]
fn hashing_outcome_decides_the_new_user() {
    let u = new_user_from("alice".to_string(), "alice@x.com".to_string(), Ok("$2b$hash".to_string())).unwrap();
    assert_eq!(u.password_hash, "$2b$hash");
    assert!(!u.is_admin);
    match new_user_from("alice".to_string(), "alice@x.com".to_string(), Err("invalid cost".to_string())) {
        Err(AppError::Internal(d)) => assert_eq!(d, "bcrypt error: invalid cost"),
        other => panic!("{other:?}"),
    }
}

#[test]
fn refused_logins_look_the_same() {
    let hash = bcrypt::hash("longenough1", 4).unwrap();
    let wrong = check_login(Some(record("alice@x.com", hash)), "wrongpassword");
    let unknown = check_login(None, "longenough1");
    match (wrong, unknown) {
        (Err(AppError::Unauthorized(a)), Err(AppError::Unauthorized(b))) => {
            assert_eq!(a, b);
            assert_eq!(a, "invalid email or password");
        }
        other => panic!("{other:?}"),
    }
}

#[test]
fn login_decision_on_each_verdict() {
    assert!(login_decision(record("a@b", String::new()), Ok(true)).is_ok());
    assert!(matches!(login_decision(record("a@b", String::new()), Ok(false)), Err(AppError::Unauthorized(_))));
    match login_decision(record("a@b", String::new()), Err("invalid hash".to_string())) {
        Err(AppError::Internal(d)) => assert_eq!(d, "bcrypt error: invalid hash"),
        other => panic!("{other:?}"),
    }
}
