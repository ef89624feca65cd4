use assement::auth::extractor::AuthUser;
use assement::auth::otp::hash_code;
use assement::clock::Timestamp;
use assement::error::AppError;
use assement::handlers::auth::{
    challenge_owner, challenge_terms, check_challenge, open_challenge,
    verify_challenge,
};
use assement::handlers::dev::latest_email_log_response;
use assement::handlers::seed::{seed_accounts, seed_step, SeedStep};
use assement::auth::password::verify_password;
use assement::cache::TasksCache;
use assement::handlers::tasks::{
    assignment_outcome, authorize_assignment, finish_assignment, prepare_task, start_view,
    start_view_at, store_view, store_view_at, viewing_user, ViewStart,
};
use assement::models::auth::LoginChallenge;
use assement::models::email_log::EmailLog;
use assement::models::task::{CreateTaskRequest, Priority, TaskResponse, ViewMyTasksResponse};
use assement::models::user::{SeedUsersResponse, User, UserResponse, UserRole};

fn user(role: UserRole) -> User {
    User {
        id: 9,
        full_name: "Admin".to_string(),
        email: "admin@example.com".to_string(),
        password_hash: "h".to_string(),
        role,
        created_at: Timestamp { secs: 0, nanos: 0 },
        updated_at: Timestamp { secs: 0, nanos: 0 },
    }
}

fn challenge(code: &str, used: bool, expires: i64) -> LoginChallenge {
    LoginChallenge {
        id: 1,
        user_id: 9,
        code_hash: hash_code(code),
        expires_at: Timestamp { secs: expires, nanos: 0 },
        used,
        created_at: Timestamp { secs: 0, nanos: 0 },
    }
}

fn bad_request(r: Result<LoginChallenge, AppError>) -> String {
    match r {
        Err(AppError::BadRequest(m)) => m,
        other => panic!("expected a bad request, got {:?}", other),
    }
}

#[test]
fn challenge_terms_hash_the_code_and_set_the_expiry() {
    let t = challenge_terms("042913", Timestamp { secs: 100, nanos: 7 }, 300).unwrap();
    assert_eq!(t.code_hash, hash_code("042913"));
    assert_eq!(t.expires_at, Timestamp { secs: 400, nanos: 7 });
    let t = challenge_terms("042913", Timestamp { secs: 100, nanos: 7 }, -1).unwrap();
    assert_eq!(t.expires_at, Timestamp { secs: 99, nanos: 7 });
    let (code, terms) = open_challenge(300).unwrap();
    assert_eq!(code.len(), 6);
    assert_eq!(terms.code_hash, hash_code(&code));
}

#[test]
fn right_code_before_expiry_is_accepted_once() {
    let now = Timestamp { secs: 200, nanos: 0 };
    let c = check_challenge(Some(challenge("123456", false, 300)), "123456", now).unwrap();
    assert!(c.used);
    assert_eq!(c.user_id, 9);
    // The stored challenge is now used: the same code is refused.
    let again = check_challenge(Some(c), "123456", now);
    assert_eq!(bad_request(again), "verification code already used");
}

#[test]
fn code_at_the_expiry_instant_is_still_accepted() {
    let now = Timestamp { secs: 300, nanos: 0 };
    assert!(check_challenge(Some(challenge("123456", false, 300)), "123456", now).is_ok());
}

#[test]
fn expired_code_is_a_bad_request() {
    let now = Timestamp { secs: 300, nanos: 1 };
    let r = check_challenge(Some(challenge("123456", false, 300)), "123456", now);
    assert_eq!(bad_request(r), "verification code expired");
}

#[test]
fn wrong_code_is_unauthorized() {
    let now = Timestamp { secs: 0, nanos: 0 };
    let r = check_challenge(Some(challenge("123456", false, 300)), "000000", now);
    assert!(matches!(r, Err(AppError::Unauthorized)));
}

#[test]
fn unknown_challenge_is_a_bad_request() {
    let now = Timestamp { secs: 0, nanos: 0 };
    assert_eq!(bad_request(check_challenge(None, "123456", now)), "invalid login_challenge_id");
}

#[test]
fn used_is_checked_before_expiry_and_code() {
    let now = Timestamp { secs: 1000, nanos: 0 };
    let r = check_challenge(Some(challenge("123456", true, 300)), "999999", now);
    assert_eq!(bad_request(r), "verification code already used");
    let r = check_challenge(Some(challenge("123456", false, 300)), "999999", now);
    assert_eq!(bad_request(r), "verification code expired");
}

#[test]
fn verify_now_uses_the_clock() {
    let far = i64::MAX;
    assert!(verify_challenge(Some(challenge("123456", false, far)), "123456").is_ok());
    let r = verify_challenge(Some(challenge("123456", false, 0)), "123456");
    assert_eq!(bad_request(r), "verification code expired");
    assert!(challenge_owner(Some(user(UserRole::Admin))).is_ok());
    match challenge_owner(None) {
        Err(AppError::Internal(m)) => assert_eq!(m, "user for challenge not found"),
        other => panic!("unexpected {:?}", other),
    }
}

fn admin() -> AuthUser {
    AuthUser { user_id: 9, email: "admin@example.com".to_string(), role: UserRole::Admin }
}

fn staff() -> AuthUser {
    AuthUser { user_id: 8, email: "jamesbond@example.com".to_string(), role: UserRole::Staff }
}

fn req(title: &str, description: Option<&str>, priority: Option<&str>) -> CreateTaskRequest {
    CreateTaskRequest {
        title: title.to_string(),
        description: description.map(|s| s.to_string()),
        priority: priority.map(|s| s.to_string()),
    }
}

#[test]
fn only_admins_create_tasks() {
    assert!(matches!(prepare_task(&staff(), req("nope", None, Some("high"))), Err(AppError::Forbidden)));
    let t = prepare_task(&admin(), req("Task 1", Some("d"), Some("high"))).unwrap();
    assert_eq!(t.title, "Task 1");
    assert_eq!(t.description, "d");
    assert_eq!(t.priority, Priority::High);
}

#[test]
fn task_defaults_and_refusals() {
    let t = prepare_task(&admin(), req("t", None, None)).unwrap();
    assert_eq!(t.priority, Priority::Medium);
    assert_eq!(t.description, "");
    match prepare_task(&admin(), req("  \t\n", None, None)) {
        Err(AppError::BadRequest(m)) => assert_eq!(m, "title must not be empty"),
        other => panic!("unexpected {:?}", other),
    }
    match prepare_task(&admin(), req("", None, None)) {
        Err(AppError::BadRequest(m)) => assert_eq!(m, "title must not be empty"),
        other => panic!("unexpected {:?}", other),
    }
    match prepare_task(&admin(), req("t", None, Some("urgent"))) {
        Err(AppError::BadRequest(m)) => assert_eq!(m, "invalid priority: urgent"),
        other => panic!("unexpected {:?}", other),
    }
}

#[test]
fn assignments_need_an_admin_and_a_known_assignee() {
    assert!(matches!(authorize_assignment(&staff(), &Some(user(UserRole::Staff))), Err(AppError::Forbidden)));
    match authorize_assignment(&admin(), &None) {
        Err(AppError::BadRequest(m)) => assert_eq!(m, "assigned_to_id does not refer to a known user"),
        other => panic!("unexpected {:?}", other),
    }
    assert!(authorize_assignment(&admin(), &Some(user(UserRole::Staff))).is_ok());
    assert!(assignment_outcome(1, 5).is_ok());
    match assignment_outcome(0, 0x550e8400e29b41d4a716446655440000) {
        Err(AppError::NotFound(m)) => {
            assert_eq!(m, "task 550e8400-e29b-41d4-a716-446655440000 not found")
        }
        other => panic!("unexpected {:?}", other),
    }
}

#[test]
fn latest_email_lookup() {
    let log = EmailLog {
        id: 1,
        user_id: 2,
        email: "admin@example.com".to_string(),
        code: "000123".to_string(),
        purpose: "2fa_login".to_string(),
        created_at: Timestamp { secs: 5, nanos: 0 },
    };
    let r = latest_email_log_response(Some(log)).unwrap();
    assert_eq!(r.to, "admin@example.com");
    assert_eq!(r.code, "000123");
    match latest_email_log_response(None) {
        Err(AppError::NotFound(m)) => assert_eq!(m, "no email logs found"),
        other => panic!("unexpected {:?}", other),
    }
}

#[test]
fn seeded_accounts_are_admin_then_staff() {
    let seeds = seed_accounts();
    assert_eq!(seeds.len(), 2);
    assert_eq!(seeds[0].email, "admin@example.com");
    assert_eq!(seeds[0].password, "Admin@12345");
    assert_eq!(seeds[0].role, UserRole::Admin);
    assert_eq!(seeds[1].full_name, "James Bond");
    assert_eq!(seeds[1].email, "jamesbond@example.com");
    assert_eq!(seeds[1].password, "JamesBond@12345");
    assert_eq!(seeds[1].role, UserRole::Staff);
    let users = vec![UserResponse::from(&user(UserRole::Admin))];
    let r = SeedUsersResponse::ready(users);
    assert_eq!(r.users.len(), 1);
    assert_eq!(r.users[0].role, "admin");
    assert_eq!(r.message, "Admin and James Bond are ready. See README.md for seeded passwords.");
}

#[test]
fn my_tasks_view_counts_and_marks_cache_hits() {
    let staff_user = user(UserRole::Staff);
    let tasks = vec![
        TaskResponse {
            id: 1,
            title: "Task 1".to_string(),
            description: "".to_string(),
            status: "todo".to_string(),
            priority: "high".to_string(),
            assigned_to: Some("admin@example.com".to_string()),
        },
        TaskResponse {
            id: 2,
            title: "Task 2".to_string(),
            description: "".to_string(),
            status: "todo".to_string(),
            priority: "low".to_string(),
            assigned_to: Some("admin@example.com".to_string()),
        },
    ];
    let v = ViewMyTasksResponse::loaded(&staff_user, tasks);
    assert_eq!(v.summary.total_assigned_tasks, 2);
    assert_eq!(v.user.role, "staff");
    assert!(!v.cache.hit);
    let v = v.served_from_cache();
    assert!(v.cache.hit);
    assert_eq!(v.tasks.len(), 2);
    assert!(viewing_user(Some(staff_user)).is_ok());
    assert!(matches!(viewing_user(None), Err(AppError::Unauthorized)));
}

#[test]
fn view_starts_from_a_fresh_cached_body_else_loads() {
    let sec: u128 = 1_000_000_000;
    let mut cache = TasksCache::new(60);
    assert!(matches!(start_view_at(&mut cache, 8, 0), ViewStart::Load));
    cache.set_at(8, "{}".to_string(), 0);
    match start_view_at(&mut cache, 8, 59 * sec) {
        ViewStart::Cached(b) => assert_eq!(b, "{}"),
        ViewStart::Load => panic!("expected a cache hit"),
    }
    assert!(matches!(start_view_at(&mut cache, 8, 60 * sec), ViewStart::Load));
    cache.set(9, "body".to_string());
    assert!(matches!(start_view(&mut cache, 9), ViewStart::Cached(_)));
    cache.invalidate(9);
    assert!(matches!(start_view(&mut cache, 9), ViewStart::Load));
}

#[test]
fn challenges_open_at_ordinary_times() {
    assert!(challenge_terms("1", Timestamp { secs: 8_210_266_876_000, nanos: 0 }, 799).is_some());
    assert!(challenge_terms("1", Timestamp { secs: 8_210_266_876_000, nanos: 0 }, 800).is_none());
    assert!(challenge_terms("1", Timestamp { secs: -8_334_601_228_800, nanos: 0 }, 0).is_some());
    assert!(challenge_terms("1", Timestamp { secs: -8_334_601_228_800, nanos: 0 }, -1).is_none());
}

#[test]
fn seeding_reuses_existing_accounts_and_creates_missing_ones() {
    let seeds = seed_accounts();
    match seed_step(&seeds[0], Some(user(UserRole::Admin))).unwrap() {
        SeedStep::Reuse(u) => assert_eq!(u.id, 9),
        SeedStep::Create(_) => panic!("an existing account must be reused"),
    }
    for seed in &seeds {
        match seed_step(seed, None).unwrap() {
            SeedStep::Create(h) => {
                assert_eq!(verify_password(seed.password, &h), Ok(true));
                assert_eq!(verify_password("wrong", &h), Ok(false));
            }
            SeedStep::Reuse(_) => panic!("a missing account must be created"),
        }
    }
}

#[test]
fn loaded_views_are_stored_and_assignments_drop_them() {
    let sec: u128 = 1_000_000_000;
    let mut cache = TasksCache::new(60);
    store_view_at(&mut cache, 8, "v8".to_string(), 0);
    store_view_at(&mut cache, 7, "v7".to_string(), 0);
    assert!(matches!(start_view_at(&mut cache, 8, sec), ViewStart::Cached(ref b) if b == "v8"));
    finish_assignment(&mut cache, 8);
    assert!(matches!(start_view_at(&mut cache, 8, sec), ViewStart::Load));
    assert!(matches!(start_view_at(&mut cache, 7, sec), ViewStart::Cached(ref b) if b == "v7"));
    store_view(&mut cache, 5, "v5".to_string());
    assert!(matches!(start_view(&mut cache, 5), ViewStart::Cached(ref b) if b == "v5"));
}
