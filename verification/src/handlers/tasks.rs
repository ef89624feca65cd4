use vstd::prelude::*;

use crate::auth::extractor::AuthUser;
use crate::cache::{spec_after_lookup, spec_lookup, TasksCache};
use crate::error::AppError;
use crate::ids::{id_text, spec_id_text};
use crate::models::task::{
    spec_parse_priority, CacheInfo, CreateTaskRequest,
    Priority, TaskResponse, ViewMyTasksResponse, ViewMyTasksSummary, ViewMyTasksUser,
};
use crate::models::user::{spec_role_text, User, UserRole};
use crate::text::{concat, is_blank, spec_is_blank};

verus! {

/// A task ready to be stored: a non-blank title, its description and a
/// priority.
#[derive(Debug)]
pub struct NewTask {
    pub title: String,
    pub description: String,
    pub priority: Priority,
}

/// The priority text a request asks for: `medium` where it names none.
pub open spec fn spec_requested_priority(p: Option<String>) -> Seq<char> {
    match p {
        Some(t) => t@,
        None => seq!['m', 'e', 'd', 'i', 'u', 'm'],
    }
}

/// Checks a request to create a task. Only administrators may (else
/// forbidden); the title must not be blank and the priority (default
/// `medium`) must be one (else a bad request, with its message). A missing
/// description is empty.
pub fn prepare_task(auth: &AuthUser, req: CreateTaskRequest) -> (r: Result<NewTask, AppError>)
    ensures
        auth.role != UserRole::Admin ==> r == Err::<NewTask, AppError>(AppError::Forbidden),
        auth.role == UserRole::Admin && spec_is_blank(req.title@) ==> (r matches Err(
            AppError::BadRequest(m),
        ) && m@ == "title must not be empty"@),
        auth.role == UserRole::Admin && !spec_is_blank(req.title@) && spec_parse_priority(
            spec_requested_priority(req.priority),
        ) is None ==> (r matches Err(AppError::BadRequest(m)) && m@ == "invalid priority: "@
            + spec_requested_priority(req.priority)),
        r matches Ok(t) ==> {
            &&& auth.role == UserRole::Admin
            &&& !spec_is_blank(req.title@)
            &&& t.title@ == req.title@
            &&& spec_parse_priority(spec_requested_priority(req.priority)) == Some(t.priority)
            &&& t.description@ == (match req.description {
                Some(d) => d@,
                None => Seq::<char>::empty(),
            })
        },
        auth.role == UserRole::Admin && !spec_is_blank(req.title@) && spec_parse_priority(
            spec_requested_priority(req.priority),
        ) is Some ==> r is Ok,
{
    match auth.require_admin() {
        Ok(()) => {},
        Err(e) => return Err(e),
    }
    if is_blank(req.title.as_str()) {
        return Err(AppError::BadRequest("title must not be empty".to_owned()));
    }
    let priority = match &req.priority {
        Some(p) => Priority::from_str(p.as_str()),
        None => Ok(Priority::Medium),
    };
    let priority = match priority {
        Ok(p) => p,
        Err(msg) => return Err(AppError::BadRequest(msg)),
    };
    let description = match req.description {
        Some(d) => d,
        None => String::new(),
    };
    Ok(NewTask { title: req.title, description, priority })
}

/// Checks a request to assign a task: only administrators may (else
/// forbidden), and the assignee must be a known user (else a bad request).
pub fn authorize_assignment(auth: &AuthUser, assignee: &Option<User>) -> (r: Result<(), AppError>)
    ensures
        auth.role != UserRole::Admin ==> r == Err::<(), AppError>(AppError::Forbidden),
        auth.role == UserRole::Admin && assignee is None ==> (r matches Err(AppError::BadRequest(m))
            && m@ == "assigned_to_id does not refer to a known user"@),
        auth.role == UserRole::Admin && assignee is Some ==> r == Ok::<(), AppError>(()),
{
    match auth.require_admin() {
        Ok(()) => {},
        Err(e) => return Err(e),
    }
    match assignee {
        Some(_) => Ok(()),
        None => Err(AppError::BadRequest("assigned_to_id does not refer to a known user".to_owned())),
    }
}

/// The outcome of storing an assignment: a task that no row matched is not
/// found.
pub fn assignment_outcome(rows_affected: u64, task_id: u128) -> (r: Result<(), AppError>)
    ensures
        rows_affected != 0 ==> r == Ok::<(), AppError>(()),
        rows_affected == 0 ==> (r matches Err(AppError::NotFound(m)) && m@ == "task "@
            + spec_id_text(task_id) + " not found"@),
{
    if rows_affected == 0 {
        let text = id_text(task_id);
        let head = concat("task ", text.as_str());
        let msg = concat(head.as_str(), " not found");
        return Err(AppError::NotFound(msg));
    }
    Ok(())
}

impl ViewMyTasksResponse {
    /// The view of a user's tasks as loaded from the store: who they are,
    /// the tasks, how many, and not from the cache.
    pub fn loaded(user: &User, tasks: Vec<TaskResponse>) -> (r: ViewMyTasksResponse)
        ensures
            r.user.email@ == user.email@,
            r.user.role@ == spec_role_text(user.role),
            r.tasks@ == tasks@,
            r.summary.total_assigned_tasks == tasks@.len(),
            !r.cache.hit,
    {
        let total = tasks.len();
        ViewMyTasksResponse {
            user: ViewMyTasksUser { email: user.email.clone(), role: user.role.as_str().to_owned() },
            tasks,
            summary: ViewMyTasksSummary { total_assigned_tasks: total },
            cache: CacheInfo { hit: false },
        }
    }

    /// The same view, marked as served from the cache.
    pub fn served_from_cache(self) -> (r: ViewMyTasksResponse)
        ensures
            r.user == self.user,
            r.tasks == self.tasks,
            r.summary == self.summary,
            r.cache.hit,
    {
        ViewMyTasksResponse { cache: CacheInfo { hit: true }, ..self }
    }
}

/// How viewing one's tasks begins: with the cached body, or by loading
/// from the store (after which the fresh body is stored in the cache).
#[derive(Debug)]
pub enum ViewStart {
    Cached(String),
    Load,
}

/// Begins a view of `user_id`'s tasks at the moment `now` of the cache's
/// clock: a fresh cached body is served as it is; otherwise (none, or a
/// stale one, which is dropped) the view is loaded.
pub fn start_view_at(cache: &mut TasksCache, user_id: u128, now: u128) -> (r: ViewStart)
    ensures
        final(cache).ttl_nanos() == old(cache).ttl_nanos(),
        final(cache).latest() == old(cache).latest(),
        final(cache).entries() == spec_after_lookup(
            old(cache).entries(),
            old(cache).ttl_nanos(),
            user_id,
            now,
        ),
        match spec_lookup(old(cache).entries(), old(cache).ttl_nanos(), user_id, now) {
            Some(body) => r matches ViewStart::Cached(b) && b@ == body,
            None => r is Load,
        },
{
    match cache.get_at(user_id, now) {
        Some(body) => ViewStart::Cached(body),
        None => ViewStart::Load,
    }
}

/// Begins a view of `user_id`'s tasks now, as `start_view_at` does at the
/// moment read from the cache's clock.
pub fn start_view(cache: &mut TasksCache, user_id: u128) -> (r: ViewStart)
    ensures
        final(cache).ttl_nanos() == old(cache).ttl_nanos(),
        final(cache).latest() >= old(cache).latest(),
        final(cache).entries() == spec_after_lookup(
            old(cache).entries(),
            old(cache).ttl_nanos(),
            user_id,
            final(cache).latest(),
        ),
        match spec_lookup(old(cache).entries(), old(cache).ttl_nanos(), user_id, final(cache).latest()) {
            Some(body) => r matches ViewStart::Cached(b) && b@ == body,
            None => r is Load,
        },
        exists|now: u128|
            {
                &&& final(cache).entries() == #[trigger] spec_after_lookup(
                    old(cache).entries(),
                    old(cache).ttl_nanos(),
                    user_id,
                    now,
                )
                &&& match spec_lookup(old(cache).entries(), old(cache).ttl_nanos(), user_id, now) {
                    Some(body) => r matches ViewStart::Cached(b) && b@ == body,
                    None => r is Load,
                }
            },
{
    match cache.get(user_id) {
        Some(body) => ViewStart::Cached(body),
        None => ViewStart::Load,
    }
}

/// Stores a freshly loaded view body for `user_id` at the moment `now`, so
/// that the next views within the time to live are served from the cache.
pub fn store_view_at(cache: &mut TasksCache, user_id: u128, body: String, now: u128)
    ensures
        final(cache).ttl_nanos() == old(cache).ttl_nanos(),
        final(cache).latest() == old(cache).latest(),
        final(cache).entries() == old(cache).entries().insert(user_id, (body@, now)),
{
    cache.set_at(user_id, body, now);
}

/// Stores a freshly loaded view body for `user_id` now, as `store_view_at`
/// does at the moment read from the cache's clock.
pub fn store_view(cache: &mut TasksCache, user_id: u128, body: String)
    ensures
        final(cache).ttl_nanos() == old(cache).ttl_nanos(),
        final(cache).latest() >= old(cache).latest(),
        final(cache).entries() == old(cache).entries().insert(user_id, (body@, final(cache).latest())),
        exists|now: u128|
            final(cache).entries() == #[trigger] old(cache).entries().insert(
                user_id,
                (body@, now),
            ),
{
    cache.set(user_id, body);
}

/// Finishes an assignment: the assignee's cached view is dropped, so their
/// next view is loaded afresh and shows the task; every other user's entry
/// stays.
pub fn finish_assignment(cache: &mut TasksCache, assignee: u128)
    ensures
        final(cache).ttl_nanos() == old(cache).ttl_nanos(),
        final(cache).latest() == old(cache).latest(),
        final(cache).entries() == old(cache).entries().remove(assignee),
{
    cache.invalidate(assignee);
}

/// The user viewing their tasks must still exist; if not, unauthorized.
pub fn viewing_user(user: Option<User>) -> (r: Result<User, AppError>)
    ensures
        match user {
            Some(u) => r == Ok::<User, AppError>(u),
            None => r == Err::<User, AppError>(AppError::Unauthorized),
        },
{
    match user {
        Some(u) => Ok(u),
        None => Err(AppError::Unauthorized),
    }
}

} // verus!
