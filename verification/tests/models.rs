use assement::clock::Timestamp;
use assement::error::AppError;
use assement::models::auth::{LoginChallenge, LoginChallengeRow, LoginResponse, Verify2faResponse};
use assement::models::email_log::{EmailLog, EmailLogResponse, EmailLogRow};
use assement::models::task::{Priority, Task, TaskResponse, TaskRow, TaskStatus};
use assement::models::user::{User, UserResponse, UserRole, UserRow};

const ID_A: &str = "550e8400-e29b-41d4-a716-446655440000";
const ID_B: &str = "67e55044-10b1-426f-9247-bb680e5fe0c8";
const TIME: &str = "2024-05-01T12:30:45.123456789+00:00";

#[test]
fn role_texts_round_trip() {
    assert_eq!(UserRole::Admin.as_str(), "admin");
    assert_eq!(UserRole::Staff.as_str(), "staff");
    for r in [UserRole::Admin, UserRole::Staff] {
        assert_eq!(UserRole::from_str(r.as_str()), Ok(r));
    }
}

#[test]
fn unknown_role_is_refused_with_its_text() {
    assert_eq!(UserRole::from_str("root"), Err("invalid role: root".to_string()));
    assert_eq!(UserRole::from_str("Admin"), Err("invalid role: Admin".to_string()));
    assert_eq!(UserRole::from_str(""), Err("invalid role: ".to_string()));
}

#[test]
fn status_texts_round_trip() {
    assert_eq!(TaskStatus::Todo.as_str(), "todo");
    assert_eq!(TaskStatus::InProgress.as_str(), "in_progress");
    assert_eq!(TaskStatus::Done.as_str(), "done");
    for s in [TaskStatus::Todo, TaskStatus::InProgress, TaskStatus::Done] {
        assert_eq!(TaskStatus::from_str(s.as_str()), Ok(s));
    }
    assert_eq!(TaskStatus::from_str("later"), Err("invalid status: later".to_string()));
}

#[test]
fn priority_texts_round_trip() {
    assert_eq!(Priority::Low.as_str(), "low");
    assert_eq!(Priority::Medium.as_str(), "medium");
    assert_eq!(Priority::High.as_str(), "high");
    for p in [Priority::Low, Priority::Medium, Priority::High] {
        assert_eq!(Priority::from_str(p.as_str()), Ok(p));
    }
    assert_eq!(Priority::from_str("urgent"), Err("invalid priority: urgent".to_string()));
}

#[test]
fn error_status_codes() {
    assert_eq!(AppError::BadRequest("x".into()).status_code(), 400);
    assert_eq!(AppError::Unauthorized.status_code(), 401);
    assert_eq!(AppError::Forbidden.status_code(), 403);
    assert_eq!(AppError::NotFound("x".into()).status_code(), 404);
    assert_eq!(AppError::Internal("x".into()).status_code(), 500);
    assert_eq!(AppError::Forbidden.message(), "forbidden");
    assert_eq!(AppError::NotFound("gone".into()).message(), "gone");
}

fn user_row(role: &str) -> UserRow {
    UserRow {
        id: ID_A.to_string(),
        full_name: "James Bond".to_string(),
        email: "jamesbond@example.com".to_string(),
        password_hash: "hash".to_string(),
        role: role.to_string(),
        created_at: TIME.to_string(),
        updated_at: "2024-05-01T14:30:45+02:00".to_string(),
    }
}

#[test]
fn user_row_reads() {
    let u = User::try_from(user_row("staff")).unwrap();
    assert_eq!(u.id, 0x550e8400e29b41d4a716446655440000);
    assert_eq!(u.role, UserRole::Staff);
    assert_eq!(u.email, "jamesbond@example.com");
    assert_eq!(u.created_at, Timestamp { secs: 1714566645, nanos: 123456789 });
    assert_eq!(u.updated_at, Timestamp { secs: 1714566645, nanos: 0 });
    let shown = UserResponse::from(&u);
    assert_eq!(shown.id, u.id);
    assert_eq!(shown.role, "staff");
    assert_eq!(shown.full_name, "James Bond");
}

#[test]
fn user_row_with_bad_role_or_id_is_refused() {
    assert_eq!(User::try_from(user_row("boss")).unwrap_err(), "invalid role: boss");
    let mut row = user_row("admin");
    row.id = "not-an-id".to_string();
    assert!(User::try_from(row).is_err());
    let mut row = user_row("admin");
    row.created_at = "yesterday".to_string();
    assert!(User::try_from(row).is_err());
}

fn task_row(status: &str, priority: &str, assignee: Option<&str>) -> TaskRow {
    TaskRow {
        id: ID_B.to_string(),
        title: "Task 1".to_string(),
        description: "".to_string(),
        status: status.to_string(),
        priority: priority.to_string(),
        created_by_id: ID_A.to_string(),
        assigned_to_id: assignee.map(|s| s.to_string()),
        created_at: TIME.to_string(),
        updated_at: TIME.to_string(),
    }
}

#[test]
fn task_row_reads() {
    let t = Task::try_from(task_row("todo", "high", Some(ID_A))).unwrap();
    assert_eq!(t.id, 0x67e5504410b1426f9247bb680e5fe0c8);
    assert_eq!(t.status, TaskStatus::Todo);
    assert_eq!(t.priority, Priority::High);
    assert_eq!(t.assigned_to_id, Some(0x550e8400e29b41d4a716446655440000));
    let t = Task::try_from(task_row("done", "low", None)).unwrap();
    assert_eq!(t.assigned_to_id, None);
    let shown = TaskResponse::from_task(&t, None);
    assert_eq!(shown.status, "done");
    assert_eq!(shown.priority, "low");
    assert_eq!(shown.title, "Task 1");
    assert_eq!(shown.assigned_to, None);
}

#[test]
fn task_row_errors_come_in_field_order() {
    assert_eq!(Task::try_from(task_row("blocked", "urgent", None)).unwrap_err(), "invalid status: blocked");
    assert_eq!(Task::try_from(task_row("todo", "urgent", None)).unwrap_err(), "invalid priority: urgent");
    assert!(Task::try_from(task_row("todo", "low", Some("bogus"))).is_err());
}

#[test]
fn challenge_row_reads() {
    let row = LoginChallengeRow {
        id: ID_B.to_string(),
        user_id: ID_A.to_string(),
        code_hash: "abc".to_string(),
        expires_at: "1970-01-01T00:05:00Z".to_string(),
        used: 7,
        created_at: "1970-01-01T00:00:00Z".to_string(),
    };
    let c = LoginChallenge::try_from(row).unwrap();
    assert!(c.used);
    assert_eq!(c.expires_at, Timestamp { secs: 300, nanos: 0 });
    assert_eq!(c.created_at, Timestamp { secs: 0, nanos: 0 });
}

#[test]
fn email_row_reads_and_shows() {
    let row = EmailLogRow {
        id: ID_B.to_string(),
        user_id: ID_A.to_string(),
        email: "admin@example.com".to_string(),
        code: "042913".to_string(),
        purpose: "2fa_login".to_string(),
        created_at: TIME.to_string(),
    };
    let log = EmailLog::try_from(row).unwrap();
    let shown = EmailLogResponse::from(log);
    assert_eq!(shown.to, "admin@example.com");
    assert_eq!(shown.code, "042913");
    assert_eq!(shown.purpose, "2fa_login");
    assert_eq!(shown.id, 0x67e5504410b1426f9247bb680e5fe0c8);
}

#[test]
fn login_and_verify_answers() {
    let r = LoginResponse::for_challenge(5);
    assert_eq!(r.login_challenge_id, 5);
    assert_eq!(r.message, "Verification code sent. Check GET /dev/email-logs/latest for the code.");
    let v = Verify2faResponse::bearer("tok".to_string(), 3600);
    assert_eq!(v.token_type, "Bearer");
    assert_eq!(v.expires_in, 3600);
    assert_eq!(v.access_token, "tok");
}
