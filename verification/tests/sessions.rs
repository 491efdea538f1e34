use anime_api::auth::validate_jwt_at;
use anime_api::handlers::auth::{
    login, login_with, logout, refresh, refresh_with, register, register_with, role_for_newcomer,
    LoginOutcome, LoginReply, LogoutOutcome, RefreshOutcome, RefreshReply, RegisterError,
};
use anime_api::middleware::limiter::StoreUnavailable;
use anime_api::models::{
    LoginRequest, RefreshRequest, RefreshToken, RegisterRequest, TokenClaims, User,
};
use anime_api::services::session::{
    check_refresh, get_refresh_token, refresh_key, revoke_token, settle, store_refresh_token,
    Fetched, SessionCommand, SessionError, REFRESH_TTL_SECONDS,
};
use std::collections::HashMap;

const KEY: &[u8] = b"session test key";
const NOW: i64 = 1_700_000_000;

/// A store that carries out session commands as the real one does.
struct Sessions {
    slots: HashMap<String, (String, u64)>,
}

impl Sessions {
    fn new() -> Self {
        Sessions { slots: HashMap::new() }
    }

    fn run(&mut self, command: &SessionCommand, now: u64) -> Fetched {
        match command {
            SessionCommand::Store { key, token, ttl_seconds } => {
                self.slots.insert(key.clone(), (token.clone(), now + ttl_seconds));
                Fetched::Missing
            }
            SessionCommand::Fetch { key } => match self.slots.get(key) {
                Some((token, expires_at)) if now < *expires_at => Fetched::Found(token.clone()),
                _ => Fetched::Missing,
            },
            SessionCommand::Revoke { key } => {
                self.slots.remove(key);
                Fetched::Missing
            }
        }
    }

    fn session_of(&self, user_id: &str) -> Option<RefreshToken> {
        self.slots
            .get(&refresh_key(user_id))
            .map(|(token, _)| RefreshToken { token: token.clone(), user_id: user_id.to_string() })
    }
}

fn user(id: &str, role: &str) -> User {
    User {
        id: id.to_string(),
        username: format!("name-of-{}", id),
        password: "$2b$04$not.a.real.hash".to_string(),
        role: role.to_string(),
        created_at: None,
    }
}

fn refresh_request(user_id: &str, token: &str) -> RefreshRequest {
    RefreshRequest { refresh_token: token.to_string(), user_id: user_id.to_string() }
}

/// One whole refresh call against the simulated store, as the application runs it.
fn run_refresh(
    store: &mut Sessions,
    directory: &[User],
    user_id: &str,
    presented: &str,
    fresh: &str,
    now: u64,
) -> RefreshOutcome {
    let req = refresh_request(user_id, presented);
    let stored = store.run(&get_refresh_token(&req.user_id), now);
    let found = if check_refresh(&stored, &req.refresh_token).is_ok() {
        directory.iter().find(|u| u.id == req.user_id)
    } else {
        None
    };
    let outcome = refresh_with(KEY, &req, &stored, found, now as i64, fresh.to_string());
    if let RefreshOutcome::Rotated { store: command, .. } = &outcome {
        store.run(command, now);
    }
    outcome
}

fn is_unauthorized(outcome: &RefreshOutcome) -> bool {
    matches!(outcome, RefreshOutcome::Unauthorized { message } if *message == "Invalid refresh token")
}

#[test]
fn session_keys_and_commands() {
    assert_eq!(refresh_key("u1"), "refresh:u1");
    assert_eq!(refresh_key(""), "refresh:");
    assert_eq!(REFRESH_TTL_SECONDS, 604_800);
    assert_eq!(
        store_refresh_token("u1", "tok", 604_800),
        SessionCommand::Store {
            key: "refresh:u1".to_string(),
            token: "tok".to_string(),
            ttl_seconds: 604_800
        }
    );
    assert_eq!(get_refresh_token("u1"), SessionCommand::Fetch { key: "refresh:u1".to_string() });
    assert_eq!(revoke_token("u1"), SessionCommand::Revoke { key: "refresh:u1".to_string() });
}

#[test]
fn presented_token_must_be_the_stored_one() {
    assert_eq!(check_refresh(&Fetched::Found("abc".to_string()), "abc"), Ok(()));
    assert_eq!(
        check_refresh(&Fetched::Found("abc".to_string()), "abd"),
        Err(SessionError::Mismatch)
    );
    assert_eq!(
        check_refresh(&Fetched::Found("abc".to_string()), "ab"),
        Err(SessionError::Mismatch)
    );
    assert_eq!(
        check_refresh(&Fetched::Found("abc".to_string()), "abcd"),
        Err(SessionError::Mismatch)
    );
    assert_eq!(check_refresh(&Fetched::Found("".to_string()), ""), Ok(()));
    assert_eq!(
        check_refresh(&Fetched::Found("\u{00e9}".to_string()), "e"),
        Err(SessionError::Mismatch)
    );
    assert_eq!(check_refresh(&Fetched::Missing, "abc"), Err(SessionError::NotFound));
    assert_eq!(check_refresh(&Fetched::Missing, ""), Err(SessionError::NotFound));
    assert_eq!(check_refresh(&Fetched::Unavailable, "abc"), Err(SessionError::NotFound));
}

#[test]
fn reply_is_passed_on_only_if_the_store_took_the_command() {
    assert_eq!(settle("reply", Ok(())), Ok("reply"));
    assert_eq!(settle("reply", Err(StoreUnavailable)), Err(StoreUnavailable));
    assert_eq!(settle(7u32, Ok(())), Ok(7u32));
}

#[test]
fn login_of_an_unknown_user_is_denied() {
    let req = LoginRequest { username: "ghost".to_string(), password: "pw".to_string() };
    assert_eq!(login(KEY, &req, None), LoginOutcome::Denied { message: "User not found" });
    assert_eq!(
        login_with(KEY, None, Some(true), NOW, "r1".to_string()),
        LoginOutcome::Denied { message: "User not found" }
    );
}

#[test]
fn login_without_a_confirmed_password_is_denied() {
    let u = user("u1", "user");
    for verified in [Some(false), None] {
        assert_eq!(
            login_with(KEY, Some(&u), verified, NOW, "r1".to_string()),
            LoginOutcome::Denied { message: "Invalid credentials" }
        );
    }
}

#[test]
fn login_with_a_confirmed_password_is_granted() {
    let u = user("u1", "admin");
    let outcome = login_with(KEY, Some(&u), Some(true), NOW, "r1".to_string());
    let expected_access = anime_api::auth::create_jwt_at(KEY, "u1", "admin", NOW).unwrap();
    assert_eq!(
        outcome,
        LoginOutcome::Granted {
            store: SessionCommand::Store {
                key: "refresh:u1".to_string(),
                token: "r1".to_string(),
                ttl_seconds: 604_800
            },
            reply: LoginReply {
                access_token: expected_access,
                refresh_token: "r1".to_string(),
                user_id: "u1".to_string(),
                role: "admin".to_string(),
            },
        }
    );
}

#[test]
fn login_fails_where_no_token_can_be_issued() {
    let u = user("u1", "admin");
    assert_eq!(login_with(KEY, Some(&u), Some(true), -5, "r1".to_string()), LoginOutcome::Failed);
    assert_eq!(
        login_with(KEY, Some(&u), Some(false), -5, "r1".to_string()),
        LoginOutcome::Denied { message: "Invalid credentials" }
    );
}

#[test]
fn login_checks_the_password_against_the_bcrypt_hash() {
    let mut u = user("u1", "user");
    u.password = bcrypt::hash("correct horse", 4).unwrap();
    let good = LoginRequest { username: u.username.clone(), password: "correct horse".to_string() };
    let bad = LoginRequest { username: u.username.clone(), password: "correct horsf".to_string() };
    match login(KEY, &good, Some(&u)) {
        LoginOutcome::Granted { store, reply } => {
            assert_eq!(reply.user_id, "u1");
            assert_eq!(reply.role, "user");
            assert_eq!(reply.refresh_token.len(), 36);
            assert_eq!(
                store,
                SessionCommand::Store {
                    key: "refresh:u1".to_string(),
                    token: reply.refresh_token.clone(),
                    ttl_seconds: 604_800
                }
            );
            let now = jsonwebtoken::get_current_timestamp();
            let claims = validate_jwt_at(KEY, &reply.access_token, now).unwrap();
            assert_eq!(claims.sub, "u1");
            assert_eq!(claims.role, "user");
        }
        other => panic!("expected a granted login, got {:?}", other),
    }
    assert_eq!(login(KEY, &bad, Some(&u)), LoginOutcome::Denied { message: "Invalid credentials" });

    u.password = "garbage".to_string();
    assert_eq!(login(KEY, &good, Some(&u)), LoginOutcome::Denied { message: "Invalid credentials" });
    u.password = "correct horse".to_string();
    assert_eq!(login(KEY, &good, Some(&u)), LoginOutcome::Denied { message: "Invalid credentials" });
}

#[test]
fn two_logins_draw_different_refresh_tokens() {
    let mut u = user("u1", "user");
    u.password = bcrypt::hash("pw", 4).unwrap();
    let req = LoginRequest { username: u.username.clone(), password: "pw".to_string() };
    let first = login(KEY, &req, Some(&u));
    let second = login(KEY, &req, Some(&u));
    match (first, second) {
        (LoginOutcome::Granted { reply: a, .. }, LoginOutcome::Granted { reply: b, .. }) => {
            assert_ne!(a.refresh_token, b.refresh_token);
        }
        other => panic!("expected two granted logins, got {:?}", other),
    }
}

#[test]
fn refresh_with_the_stored_token_rotates() {
    let u = user("u1", "admin");
    let req = refresh_request("u1", "r1");
    let outcome =
        refresh_with(KEY, &req, &Fetched::Found("r1".to_string()), Some(&u), NOW, "r2".to_string());
    let expected_access = anime_api::auth::create_jwt_at(KEY, "u1", "admin", NOW).unwrap();
    assert_eq!(
        outcome,
        RefreshOutcome::Rotated {
            store: SessionCommand::Store {
                key: "refresh:u1".to_string(),
                token: "r2".to_string(),
                ttl_seconds: 604_800
            },
            reply: RefreshReply { access_token: expected_access, refresh_token: "r2".to_string() },
        }
    );
}

#[test]
fn refresh_is_unauthorized_unless_the_token_matches_and_the_user_exists() {
    let u = user("u1", "admin");
    let req = refresh_request("u1", "r1");
    for stored in [Fetched::Found("other".to_string()), Fetched::Missing, Fetched::Unavailable] {
        for who in [Some(&u), None] {
            assert_eq!(
                refresh_with(KEY, &req, &stored, who, NOW, "r2".to_string()),
                RefreshOutcome::Unauthorized { message: "Invalid refresh token" }
            );
            assert_eq!(
                refresh(KEY, &req, &stored, who),
                RefreshOutcome::Unauthorized { message: "Invalid refresh token" }
            );
        }
    }
    assert_eq!(
        refresh_with(KEY, &req, &Fetched::Found("r1".to_string()), None, NOW, "r2".to_string()),
        RefreshOutcome::Unauthorized { message: "User not found" }
    );
    assert_eq!(
        refresh_with(KEY, &req, &Fetched::Found("r1".to_string()), Some(&u), -1, "r2".to_string()),
        RefreshOutcome::Failed
    );
}

#[test]
fn refresh_draws_a_new_token_and_a_valid_access_token() {
    let u = user("u1", "user");
    let req = refresh_request("u1", "r1");
    match refresh(KEY, &req, &Fetched::Found("r1".to_string()), Some(&u)) {
        RefreshOutcome::Rotated { store, reply } => {
            assert_ne!(reply.refresh_token, "r1");
            assert_eq!(reply.refresh_token.len(), 36);
            assert_eq!(
                store,
                SessionCommand::Store {
                    key: "refresh:u1".to_string(),
                    token: reply.refresh_token.clone(),
                    ttl_seconds: 604_800
                }
            );
            let now = jsonwebtoken::get_current_timestamp();
            assert_eq!(validate_jwt_at(KEY, &reply.access_token, now).unwrap().sub, "u1");
        }
        other => panic!("expected a rotation, got {:?}", other),
    }
}

#[test]
fn rotated_token_is_single_use() {
    let directory = [user("u1", "user")];
    let mut store = Sessions::new();
    store.run(&store_refresh_token("u1", "r1", 604_800), 1_000);

    let first = run_refresh(&mut store, &directory, "u1", "r1", "r2", 2_000);
    assert!(matches!(first, RefreshOutcome::Rotated { .. }));
    assert_eq!(store.session_of("u1").unwrap().token, "r2");

    let replay = run_refresh(&mut store, &directory, "u1", "r1", "r3", 2_001);
    assert!(is_unauthorized(&replay));
    assert_eq!(store.session_of("u1").unwrap().token, "r2");

    let next = run_refresh(&mut store, &directory, "u1", "r2", "r4", 2_002);
    assert!(matches!(next, RefreshOutcome::Rotated { .. }));
    assert_eq!(store.session_of("u1").unwrap().token, "r4");

    let late_replay = run_refresh(&mut store, &directory, "u1", "r1", "r5", 900_000);
    assert!(is_unauthorized(&late_replay));
}

#[test]
fn rotation_resets_the_time_to_live() {
    let directory = [user("u1", "user")];
    let mut store = Sessions::new();
    store.run(&store_refresh_token("u1", "r1", 604_800), 0);
    assert!(is_unauthorized(&run_refresh(&mut store, &directory, "u1", "r1", "r2", 604_800)));

    store.run(&store_refresh_token("u1", "r1", 604_800), 0);
    let first = run_refresh(&mut store, &directory, "u1", "r1", "r2", 604_799);
    assert!(matches!(first, RefreshOutcome::Rotated { .. }));
    let second = run_refresh(&mut store, &directory, "u1", "r2", "r3", 604_799 + 604_799);
    assert!(matches!(second, RefreshOutcome::Rotated { .. }));
    let third = run_refresh(&mut store, &directory, "u1", "r3", "r4", 604_799 * 2 + 604_800);
    assert!(is_unauthorized(&third));
}

#[test]
fn refresh_never_logged_in_is_unauthorized() {
    let directory = [user("u1", "user")];
    let mut store = Sessions::new();
    assert!(is_unauthorized(&run_refresh(&mut store, &directory, "u1", "r1", "r2", 10)));
    assert!(is_unauthorized(&run_refresh(&mut store, &directory, "u1", "", "r2", 10)));
    assert!(store.session_of("u1").is_none());
}

#[test]
fn refresh_for_a_user_gone_from_the_directory_leaves_the_session_alone() {
    let mut store = Sessions::new();
    store.run(&store_refresh_token("u1", "r1", 604_800), 0);
    let outcome = run_refresh(&mut store, &[], "u1", "r1", "r2", 10);
    assert_eq!(outcome, RefreshOutcome::Unauthorized { message: "User not found" });
    assert_eq!(store.session_of("u1").unwrap().token, "r1");
}

#[test]
fn sessions_of_different_users_do_not_touch() {
    let directory = [user("u1", "user"), user("u2", "user")];
    let mut store = Sessions::new();
    store.run(&store_refresh_token("u1", "r1", 604_800), 0);
    store.run(&store_refresh_token("u2", "s1", 604_800), 0);
    assert!(is_unauthorized(&run_refresh(&mut store, &directory, "u2", "r1", "x", 1)));
    assert!(is_unauthorized(&run_refresh(&mut store, &directory, "u1", "s1", "x", 1)));
    assert!(matches!(
        run_refresh(&mut store, &directory, "u1", "r1", "r2", 2),
        RefreshOutcome::Rotated { .. }
    ));
    assert_eq!(store.session_of("u2").unwrap().token, "s1");
}

#[test]
fn logout_revokes_the_session() {
    let directory = [user("u1", "user")];
    let mut store = Sessions::new();
    store.run(&store_refresh_token("u1", "r1", 604_800), 0);

    let claims = TokenClaims { sub: "u1".to_string(), role: "user".to_string(), exp: 99 };
    let outcome = logout(Some(&claims));
    assert_eq!(
        outcome,
        LogoutOutcome::Revoked {
            store: SessionCommand::Revoke { key: "refresh:u1".to_string() },
            message: "Logged out"
        }
    );
    if let LogoutOutcome::Revoked { store: command, .. } = &outcome {
        store.run(command, 5);
        store.run(command, 6);
    }
    for presented in ["r1", "", "anything"] {
        assert!(is_unauthorized(&run_refresh(&mut store, &directory, "u1", presented, "r2", 7)));
    }
    assert!(store.session_of("u1").is_none());
}

#[test]
fn logout_without_claims_is_unauthorized() {
    assert_eq!(logout(None), LogoutOutcome::Unauthorized);
}

#[test]
fn one_refresh_after_the_other_lets_exactly_one_through() {
    let directory = [user("u1", "user")];
    let mut store = Sessions::new();
    store.run(&store_refresh_token("u1", "r1", 604_800), 0);
    let first = run_refresh(&mut store, &directory, "u1", "r1", "ra", 10);
    let second = run_refresh(&mut store, &directory, "u1", "r1", "rb", 10);
    assert!(matches!(first, RefreshOutcome::Rotated { .. }));
    assert!(is_unauthorized(&second));
    assert_eq!(store.session_of("u1").unwrap().token, "ra");
    assert!(is_unauthorized(&run_refresh(&mut store, &directory, "u1", "rb", "x", 11)));
}

#[test]
fn interleaved_refreshes_leave_one_token_standing() {
    let u = user("u1", "user");
    let mut store = Sessions::new();
    store.run(&store_refresh_token("u1", "r1", 604_800), 0);
    let req = refresh_request("u1", "r1");

    let read_a = store.run(&get_refresh_token("u1"), 10);
    let read_b = store.run(&get_refresh_token("u1"), 10);
    let a = refresh_with(KEY, &req, &read_a, Some(&u), 10, "ra".to_string());
    let b = refresh_with(KEY, &req, &read_b, Some(&u), 10, "rb".to_string());
    for outcome in [&a, &b] {
        match outcome {
            RefreshOutcome::Rotated { store: command, .. } => {
                store.run(command, 10);
            }
            other => panic!("expected a rotation, got {:?}", other),
        }
    }
    assert_eq!(store.session_of("u1").unwrap().token, "rb");
    let directory = [u];
    assert!(is_unauthorized(&run_refresh(&mut store, &directory, "u1", "ra", "x", 11)));
    assert!(matches!(
        run_refresh(&mut store, &directory, "u1", "rb", "rc", 11),
        RefreshOutcome::Rotated { .. }
    ));
}

#[test]
fn first_user_to_register_is_superuser() {
    assert_eq!(role_for_newcomer(0), "superuser");
    assert_eq!(role_for_newcomer(1), "user");
    assert_eq!(role_for_newcomer(250), "user");
    assert_eq!(role_for_newcomer(-1), "user");
    assert_eq!(role_for_newcomer(i64::MAX), "user");
}

#[test]
fn registration_makes_the_directory_entry() {
    let req = RegisterRequest { username: "alice".to_string(), password: "pw".to_string() };
    let made = register_with(&req, 0, "id-1".to_string(), Some("hash-1".to_string())).unwrap();
    assert_eq!(made.id, "id-1");
    assert_eq!(made.username, "alice");
    assert_eq!(made.password, "hash-1");
    assert_eq!(made.role, "superuser");
    assert_eq!(made.created_at, None);
    let later = register_with(&req, 3, "id-2".to_string(), Some("hash-2".to_string())).unwrap();
    assert_eq!(later.role, "user");
    assert_eq!(later.id, "id-2");
    assert!(matches!(
        register_with(&req, 0, "id-3".to_string(), None),
        Err(RegisterError::Hashing)
    ));
}

#[test]
fn registration_hashes_the_password_and_draws_an_id() {
    let req = RegisterRequest { username: "alice".to_string(), password: "s3cret".to_string() };
    let first = register(&req, 0).unwrap();
    let second = register(&req, 1).unwrap();
    assert_eq!(first.username, "alice");
    assert_eq!(first.role, "superuser");
    assert_eq!(second.role, "user");
    assert_eq!(first.id.len(), 36);
    assert_ne!(first.id, second.id);
    assert_ne!(first.password, "s3cret");
    assert_ne!(first.password, second.password);
    assert!(bcrypt::verify("s3cret", &first.password).unwrap());
    assert!(!bcrypt::verify("s3cres", &first.password).unwrap());

    let login_req = LoginRequest { username: "alice".to_string(), password: "s3cret".to_string() };
    assert!(matches!(login(KEY, &login_req, Some(&first)), LoginOutcome::Granted { .. }));
}
