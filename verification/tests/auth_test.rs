use profile_backend::auth::{
    finish_login, finish_register, login, login_now, logout, me, register, resolve_session_user_id,
    resolve_session_user_id_now,
    AuthLoginRequest, AuthRegisterRequest, AuthSession, MaybeAuthSession, Session, User,
};
use profile_backend::error::{ApplicationError, DbError};

const DAY_MICROS: i64 = 86_400_000_000;

fn stored_user(id: i32, email: &str, hash: &str) -> User {
    User {
        id,
        email: email.to_string(),
        password_hash: hash.to_string(),
        created_at: "2024-01-01T00:00:00".to_string(),
    }
}

#[test]
fn register_then_login_with_the_same_password() {
    let row = register(AuthRegisterRequest {
        email: "auth.user@example.com".to_string(),
        password: "test-password".to_string(),
    })
    .expect("hashing succeeds");
    assert_eq!(row.email, "auth.user@example.com");
    assert!(row.password_hash.starts_with("$argon2"));
    assert_ne!(row.password_hash, "test-password");

    let user = stored_user(9, &row.email, &row.password_hash);
    let session = login(
        AuthLoginRequest {
            email: "auth.user@example.com".to_string(),
            password: "test-password".to_string(),
        },
        Ok(user.clone()),
        1_000,
    )
    .expect("credentials accepted");
    assert_eq!(session.user_id, 9);
    assert_eq!(session.expires_at, 1_000 + DAY_MICROS);

    let wrong = login(
        AuthLoginRequest {
            email: "auth.user@example.com".to_string(),
            password: "other-password".to_string(),
        },
        Ok(user),
        1_000,
    );
    assert_eq!(wrong, Err(ApplicationError::Unauthorized));
}

#[test]
fn login_refuses_unknown_users_and_broken_hashes() {
    let attempt = AuthLoginRequest { email: "x@example.com".to_string(), password: "pw".to_string() };
    assert_eq!(login(attempt.clone(), Err(DbError::NotFound), 0), Err(ApplicationError::Unauthorized));
    assert_eq!(
        login(attempt, Ok(stored_user(1, "x@example.com", "not a phc string")), 0),
        Err(ApplicationError::Unauthorized)
    );
}

#[test]
fn two_registrations_use_different_salts() {
    let req = AuthRegisterRequest { email: "a@example.com".to_string(), password: "pw".to_string() };
    let a = register(req.clone()).unwrap();
    let b = register(req).unwrap();
    assert_ne!(a.password_hash, b.password_hash);
}

#[test]
fn finish_register_maps_insert_failures() {
    let user = stored_user(3, "a@example.com", "h");
    assert_eq!(finish_register(Ok(user.clone())), Ok(user));
    assert_eq!(
        finish_register(Err(DbError::UniqueViolation("users_email_key".to_string()))),
        Err(ApplicationError::Conflict("User with this email already exists".to_string()))
    );
    assert_eq!(
        finish_register(Err(DbError::Other("down".to_string()))),
        Err(ApplicationError::Internal("Database error - down".to_string()))
    );
}

#[test]
fn issued_token_authenticates_the_session() {
    let id: u128 = 0x67e5_5044_10b1_426f_9247_bb68_0e5f_e0c8;
    let token = finish_login(Ok(Session { id, user_id: 4, expires_at: 99 })).unwrap();
    assert_eq!(token.token, "67e55044-10b1-426f-9247-bb680e5fe0c8");
    assert_eq!(token.expires_at, 99);
    let header = format!("Bearer {}", token.token);
    assert_eq!(AuthSession::session_from_header(Some(&header)), Some(id));
    let lower = format!("bearer {}", token.token);
    assert_eq!(AuthSession::session_from_header(Some(&lower)), Some(id));
    assert_eq!(
        finish_login(Err(DbError::Other("x".to_string()))),
        Err(ApplicationError::Internal("Failed to create session".to_string()))
    );
}

#[test]
fn session_headers_that_do_not_authenticate() {
    assert_eq!(AuthSession::session_from_header(None), None);
    assert_eq!(AuthSession::session_from_header(Some("Basic abc")), None);
    assert_eq!(AuthSession::session_from_header(Some("Bearer not-a-uuid")), None);
    assert_eq!(AuthSession::session_from_header(Some("67e55044-10b1-426f-9247-bb680e5fe0c8")), None);
}

#[test]
fn expired_sessions_resolve_to_no_user() {
    let s = Session { id: 1, user_id: 5, expires_at: 100 };
    assert_eq!(resolve_session_user_id(Ok(Some(s.clone())), 99), Ok(Some(5)));
    assert_eq!(resolve_session_user_id(Ok(Some(s)), 100), Ok(None));
    assert_eq!(resolve_session_user_id(Ok(None), 0), Ok(None));
    assert_eq!(resolve_session_user_id(Err(DbError::NotFound), 0), Err(DbError::NotFound));
}

#[test]
fn request_guard_lookup() {
    assert_eq!(
        AuthSession::from_lookup(8, Ok(Some(2))),
        Some(AuthSession { session_id: 8, user_id: 2 })
    );
    assert_eq!(AuthSession::from_lookup(8, Ok(None)), None);
    assert_eq!(AuthSession::from_lookup(8, Err(DbError::Other("x".to_string()))), None);
    assert_eq!(MaybeAuthSession(Some(AuthSession { session_id: 8, user_id: 2 })).user_id(), Some(2));
    assert_eq!(MaybeAuthSession(None).user_id(), None);
}

#[test]
fn logout_and_me_answers() {
    assert_eq!(logout(Ok(1)), Ok(()));
    assert_eq!(logout(Ok(0)), Err(ApplicationError::Unauthorized));
    assert_eq!(
        logout(Err(DbError::Other("gone".to_string()))),
        Err(ApplicationError::Internal("Database error - gone".to_string()))
    );
    let user = stored_user(1, "m@example.com", "h");
    assert_eq!(me(Ok(user.clone())), Ok(user));
    assert_eq!(me(Err(DbError::NotFound)), Err(ApplicationError::Unauthorized));
}

#[test]
fn login_now_sets_expiry_a_day_after_the_clock() {
    let row = register(AuthRegisterRequest { email: "n@example.com".to_string(), password: "pw".to_string() }).unwrap();
    let user = stored_user(12, &row.email, &row.password_hash);
    let before = std::time::SystemTime::now()
        .duration_since(std::time::UNIX_EPOCH)
        .unwrap()
        .as_micros() as i64;
    let (answer, now) = login_now(
        AuthLoginRequest { email: "n@example.com".to_string(), password: "pw".to_string() },
        Ok(user.clone()),
    );
    let s = answer.unwrap();
    assert_eq!(s.user_id, 12);
    assert_eq!(s.expires_at, now + DAY_MICROS);
    assert!(now >= before && now <= before + 60_000_000);
    let (wrong, _) = login_now(
        AuthLoginRequest { email: "n@example.com".to_string(), password: "no".to_string() },
        Ok(user),
    );
    assert_eq!(wrong, Err(ApplicationError::Unauthorized));
}

#[test]
fn registration_succeeds_for_ordinary_passwords() {
    for pw in ["", "x", "correct horse battery staple", "pässwörd-✓"] {
        let row = register(AuthRegisterRequest { email: "r@example.com".to_string(), password: pw.to_string() })
            .expect("hashing succeeds");
        let user = stored_user(1, &row.email, &row.password_hash);
        assert!(login(AuthLoginRequest { email: row.email.clone(), password: pw.to_string() }, Ok(user), 0).is_ok());
    }
}

#[test]
fn sessions_expire_by_the_clock() {
    let live = Session { id: 1, user_id: 5, expires_at: i64::MAX };
    let expired = Session { id: 2, user_id: 6, expires_at: 1 };
    assert_eq!(resolve_session_user_id_now(Ok(Some(live))), Ok(Some(5)));
    assert_eq!(resolve_session_user_id_now(Ok(Some(expired))), Ok(None));
    assert_eq!(resolve_session_user_id_now(Ok(None)), Ok(None));
}
