//! The request rules of the task API: parsing the words of query and body
//! fields, checking that ids agree, turning domain errors into HTTP answers,
//! and the session endpoints over any session store.

use vstd::prelude::*;
use crate::error::{ToolError, ZeroError, tool_error_text, zero_error_text};
use crate::sessions::{
    Session, SessionStore, SessionView, attached, detached, has_id, ids_distinct, newest_first,
    opt_view, retitled, session_title, sessions_view,
};
use crate::ids::is_uuid_v4_text;
use crate::text::{concat, contains_text, has_infix, owned, str_eq, trim, trimmed};

verus! {

/// Why a request failed, in the terms of the task domain.
#[derive(Debug, Clone)]
pub enum DomainError {
    BadRequest(String),
    NotFound(String),
    Conflict(String),
    InvalidState(String),
    Internal(String),
}

/// The state of a task, as a status filter names it.
#[derive(Debug, Clone, Copy, PartialEq, Eq)]
pub enum TaskStatus {
    Pending,
    Running,
    Completed,
    Failed,
}

/// The class of a step failure, as a recovery request names it.
#[derive(Debug, Clone, Copy, PartialEq, Eq)]
pub enum FailureClass {
    ProviderTimeout,
    ToolInvalidArgs,
    PlanningMismatch,
}

/// The outcome of verifying a task's result.
#[derive(Debug, Clone, PartialEq, Eq)]
pub enum VerifyOutcome {
    Passed,
    /// The result needs repair; the payload lists what to repair.
    NeedsRepair(Vec<String>),
    HardFail,
}

/// Whether `e` is a bad-request error with message `m`.
pub open spec fn is_bad_request(e: DomainError, m: Seq<char>) -> bool {
    match e {
        DomainError::BadRequest(x) => x@ == m,
        _ => false,
    }
}

/// The status named by `raw`, if it names one.
pub open spec fn task_status_named(raw: Seq<char>) -> Option<TaskStatus> {
    if raw == "pending"@ {
        Some(TaskStatus::Pending)
    } else if raw == "running"@ {
        Some(TaskStatus::Running)
    } else if raw == "completed"@ {
        Some(TaskStatus::Completed)
    } else if raw == "failed"@ {
        Some(TaskStatus::Failed)
    } else {
        None
    }
}

/// The task status named by `raw`; any other word is a bad request.
pub fn parse_task_status(raw: &str) -> (r: Result<TaskStatus, DomainError>)
    ensures
        match task_status_named(raw@) {
            Some(st) => r == Ok::<TaskStatus, DomainError>(st),
            None => r matches Err(e) && is_bad_request(e, "invalid status filter"@),
        },
{
    if str_eq(raw, "pending") {
        Ok(TaskStatus::Pending)
    } else if str_eq(raw, "running") {
        Ok(TaskStatus::Running)
    } else if str_eq(raw, "completed") {
        Ok(TaskStatus::Completed)
    } else if str_eq(raw, "failed") {
        Ok(TaskStatus::Failed)
    } else {
        Err(DomainError::BadRequest(owned("invalid status filter")))
    }
}

/// The failure class named by `raw`, if it names one.
pub open spec fn failure_class_named(raw: Seq<char>) -> Option<FailureClass> {
    if raw == "provider_timeout"@ {
        Some(FailureClass::ProviderTimeout)
    } else if raw == "tool_invalid_args"@ {
        Some(FailureClass::ToolInvalidArgs)
    } else if raw == "planning_mismatch"@ {
        Some(FailureClass::PlanningMismatch)
    } else {
        None
    }
}

/// The failure class named by `raw`; any other word is a bad request.
pub fn parse_failure_class(raw: &str) -> (r: Result<FailureClass, DomainError>)
    ensures
        match failure_class_named(raw@) {
            Some(c) => r == Ok::<FailureClass, DomainError>(c),
            None => r matches Err(e) && is_bad_request(e, "unknown failure_class"@),
        },
{
    if str_eq(raw, "provider_timeout") {
        Ok(FailureClass::ProviderTimeout)
    } else if str_eq(raw, "tool_invalid_args") {
        Ok(FailureClass::ToolInvalidArgs)
    } else if str_eq(raw, "planning_mismatch") {
        Ok(FailureClass::PlanningMismatch)
    } else {
        Err(DomainError::BadRequest(owned("unknown failure_class")))
    }
}

/// The verification outcome named by `raw`; `needs_repair` comes with an
/// empty repair list; any other word is a bad request.
pub fn parse_verify_outcome(raw: &str) -> (r: Result<VerifyOutcome, DomainError>)
    ensures
        raw@ == "passed"@ ==> r == Ok::<VerifyOutcome, DomainError>(VerifyOutcome::Passed),
        raw@ == "needs_repair"@ ==> match r {
            Ok(VerifyOutcome::NeedsRepair(v)) => v@.len() == 0,
            _ => false,
        },
        raw@ == "hard_fail"@ ==> r == Ok::<VerifyOutcome, DomainError>(VerifyOutcome::HardFail),
        raw@ != "passed"@ && raw@ != "needs_repair"@ && raw@ != "hard_fail"@
            ==> (r matches Err(e) && is_bad_request(e, "unknown outcome"@)),
{
    proof {
        reveal_strlit("passed");
        reveal_strlit("needs_repair");
        reveal_strlit("hard_fail");
        assert("passed"@.len() == 6);
        assert("needs_repair"@.len() == 12);
        assert("hard_fail"@.len() == 9);
    }
    if str_eq(raw, "passed") {
        Ok(VerifyOutcome::Passed)
    } else if str_eq(raw, "needs_repair") {
        Ok(VerifyOutcome::NeedsRepair(Vec::new()))
    } else if str_eq(raw, "hard_fail") {
        Ok(VerifyOutcome::HardFail)
    } else {
        Err(DomainError::BadRequest(owned("unknown outcome")))
    }
}

/// The id in the path must be the task id of the body.
pub fn ensure_path_matches(path_id: &str, payload_id: &str) -> (r: Result<(), DomainError>)
    ensures
        path_id@ == payload_id@ ==> r is Ok,
        path_id@ != payload_id@ ==> (r matches Err(e) && is_bad_request(e, "path id must match task_id"@)),
{
    if !str_eq(path_id, payload_id) {
        return Err(DomainError::BadRequest(owned("path id must match task_id")));
    }
    Ok(())
}

/// The id in the path must be the task id of the submitted plan.
pub fn ensure_plan_path_matches(path_id: &str, payload_id: &str) -> (r: Result<(), DomainError>)
    ensures
        path_id@ == payload_id@ ==> r is Ok,
        path_id@ != payload_id@ ==> (r matches Err(e) && is_bad_request(e, "path id must match plan.task_id"@)),
{
    if !str_eq(path_id, payload_id) {
        return Err(DomainError::BadRequest(owned("path id must match plan.task_id")));
    }
    Ok(())
}

/// Step `idx` of a plan of `total_steps` steps can be dispatched only when
/// it exists; else the task is in an invalid state.
pub fn ensure_dispatchable(idx: usize, total_steps: usize, task_id: &str) -> (r: Result<(), DomainError>)
    ensures
        idx < total_steps ==> r is Ok,
        idx >= total_steps ==> (r matches Err(DomainError::InvalidState(m))
            && m@ == "no dispatchable steps for task: "@ + task_id@),
{
    if idx >= total_steps {
        return Err(DomainError::InvalidState(concat("no dispatchable steps for task: ", task_id)));
    }
    Ok(())
}

/// An error answer of the API: the HTTP status, a short code and a message.
#[derive(Debug)]
pub struct ApiError {
    pub status: u16,
    pub code: String,
    pub message: String,
}

/// The HTTP status of a domain error.
pub open spec fn status_of(e: DomainError) -> u16 {
    match e {
        DomainError::BadRequest(_) => 400,
        DomainError::NotFound(_) => 404,
        DomainError::Conflict(_) => 409,
        DomainError::InvalidState(_) => 409,
        DomainError::Internal(_) => 500,
    }
}

/// The code of a domain error.
pub open spec fn code_of(e: DomainError) -> Seq<char> {
    match e {
        DomainError::BadRequest(_) => "bad_request"@,
        DomainError::NotFound(_) => "not_found"@,
        DomainError::Conflict(_) => "conflict"@,
        DomainError::InvalidState(_) => "invalid_state"@,
        DomainError::Internal(_) => "internal"@,
    }
}

/// The message of a domain error.
pub open spec fn message_of(e: DomainError) -> Seq<char> {
    match e {
        DomainError::BadRequest(m) => m@,
        DomainError::NotFound(m) => m@,
        DomainError::Conflict(m) => m@,
        DomainError::InvalidState(m) => m@,
        DomainError::Internal(m) => m@,
    }
}

/// Whether `a` is the answer for the domain error `e`.
pub open spec fn answers(a: ApiError, e: DomainError) -> bool {
    a.status == status_of(e) && a.code@ == code_of(e) && a.message@ == message_of(e)
}

/// The API answer for a domain error.
pub fn to_api_error(err: DomainError) -> (r: ApiError)
    ensures
        answers(r, err),
{
    match err {
        DomainError::BadRequest(msg) => ApiError { status: 400, code: owned("bad_request"), message: msg },
        DomainError::NotFound(msg) => ApiError { status: 404, code: owned("not_found"), message: msg },
        DomainError::Conflict(msg) => ApiError { status: 409, code: owned("conflict"), message: msg },
        DomainError::InvalidState(msg) => ApiError {
            status: 409,
            code: owned("invalid_state"),
            message: msg,
        },
        DomainError::Internal(msg) => ApiError { status: 500, code: owned("internal"), message: msg },
    }
}

/// The API answer for a runtime error: not found when its text says
/// "not found", else an internal error; the message is the error's text.
pub fn map_runtime_error(e: &ZeroError) -> (r: ApiError)
    ensures
        r.message@ == zero_error_text(*e),
        has_infix(zero_error_text(*e), "not found"@) ==> r.status == 404 && r.code@ == "not_found"@,
        !has_infix(zero_error_text(*e), "not found"@) ==> r.status == 500 && r.code@ == "internal"@,
{
    let msg = e.to_text();
    if contains_text(msg.as_str(), "not found") {
        to_api_error(DomainError::NotFound(msg))
    } else {
        to_api_error(DomainError::Internal(msg))
    }
}

/// The answer when a store fails: an internal error with the store's text.
fn store_failure(e: ToolError) -> (r: ApiError)
    ensures
        r.status == 500,
        r.code@ == "internal"@,
        r.message@ == tool_error_text(e),
{
    to_api_error(DomainError::Internal(e.to_text()))
}

/// The answer when no session has id `id`.
fn session_not_found(id: &str) -> (r: ApiError)
    ensures
        r.status == 404,
        r.code@ == "not_found"@,
        r.message@ == "session not found: "@ + id@,
{
    to_api_error(DomainError::NotFound(concat("session not found: ", id)))
}

/// The answer when no task has id `id`.
pub fn task_not_found(id: &str) -> (r: ApiError)
    ensures
        r.status == 404,
        r.code@ == "not_found"@,
        r.message@ == "task not found: "@ + id@,
{
    to_api_error(DomainError::NotFound(concat("task not found: ", id)))
}

/// A request to create a task.
#[derive(Debug)]
pub struct CreateTaskRequest {
    pub title: String,
    pub description: String,
    pub dependencies: Vec<String>,
}

/// A request to create a session.
#[derive(Debug)]
pub struct CreateSessionRequest {
    pub title: Option<String>,
}

/// A request to rename a session.
#[derive(Debug)]
pub struct PatchSessionRequest {
    pub title: String,
}

/// A request to attach a task to a session.
#[derive(Debug)]
pub struct AttachTaskRequest {
    pub task_id: String,
}

/// A request to change a task; each field that is present replaces the old one.
#[derive(Debug)]
pub struct PatchTaskRequest {
    pub title: Option<String>,
    pub description: Option<String>,
    /// Metadata entries as key and value.
    pub metadata: Option<Vec<(String, String)>>,
}

/// The query of a task listing.
#[derive(Debug)]
pub struct ListTaskQuery {
    pub status: Option<String>,
}

/// A request to decide how to recover from a failure.
#[derive(Debug)]
pub struct RecoverDecideRequest {
    pub task_id: String,
    pub failure_class: String,
    pub attempt: u8,
}

/// A request to record the outcome of verifying a task.
#[derive(Debug)]
pub struct VerifyOutcomeRequest {
    pub task_id: String,
    pub outcome: String,
}

/// An answer that carries a new id.
#[derive(Debug)]
pub struct IdResponse {
    pub id: String,
}

/// The answer of the health check.
#[derive(Debug)]
pub struct HealthResponse {
    pub status: String,
}

/// The answer to a task-state query; `state` names the task's state.
#[derive(Debug)]
pub struct TaskStateResponse {
    pub task_id: String,
    pub state: String,
}

/// The answer to a recovery decision.
#[derive(Debug)]
pub struct RecoveryDecisionResponse {
    pub task_id: String,
    pub decision: String,
}

/// The answer to a dispatch; `event` names the dispatch event.
#[derive(Debug)]
pub struct DispatchResponse {
    pub task_id: String,
    pub step_id: String,
    pub output: String,
    pub from_cache: bool,
    pub event: String,
}

/// The answer of the health check: status `ok`.
pub fn healthz() -> (r: HealthResponse)
    ensures
        r.status@ == "ok"@,
{
    HealthResponse { status: owned("ok") }
}

/// The title of a new task must hold more than white space.
pub fn check_task_title(req: &CreateTaskRequest) -> (r: Result<(), ApiError>)
    ensures
        trimmed(req.title@).len() > 0 ==> r is Ok,
        trimmed(req.title@).len() == 0 ==> (r matches Err(a) && a.status == 400
            && a.code@ == "bad_request"@ && a.message@ == "title cannot be empty"@),
{
    let t = trim(req.title.as_str());
    if t.as_str().is_empty() {
        return Err(to_api_error(DomainError::BadRequest(owned("title cannot be empty"))));
    }
    Ok(())
}

} // verus!

verus! {

/// Whether `a` is the answer for a failed store.
pub open spec fn is_store_failure(a: ApiError) -> bool {
    a.status == 500 && a.code@ == "internal"@ && exists|e: ToolError| a.message@ == tool_error_text(e)
}

/// Whether `a` is the answer that no session has id `id`.
pub open spec fn is_session_not_found(a: ApiError, id: Seq<char>) -> bool {
    a.status == 404 && a.code@ == "not_found"@ && a.message@ == "session not found: "@ + id
}

/// Creates a session titled from the request.
pub fn create_session<S: SessionStore>(store: &mut S, req: CreateSessionRequest) -> (r: Result<Session, ApiError>)
    requires
        old(store).inv(),
    ensures
        final(store).inv(),
        match r {
            Ok(s) => is_uuid_v4_text(s@.id) && !old(store).sessions().contains_key(s@.id)
                && s@.title == session_title(opt_view(req.title))
                && s@.task_ids == Seq::<Seq<char>>::empty()
                && final(store).sessions() == old(store).sessions().insert(s@.id, s@),
            Err(a) => is_store_failure(a) && !S::always_succeeds()
                && final(store).sessions() == old(store).sessions(),
        },
{
    match store.create(req.title) {
        Ok(s) => Ok(s),
        Err(e) => Err(store_failure(e)),
    }
}

/// Every session, the most recently updated first.
pub fn list_sessions<S: SessionStore>(store: &S) -> (r: Result<Vec<Session>, ApiError>)
    requires
        store.inv(),
    ensures
        match r {
            Ok(v) => newest_first(sessions_view(v@)) && ids_distinct(sessions_view(v@))
                && (forall|i: int| 0 <= i < v.len() ==> store.sessions().contains_key(#[trigger] v@[i]@.id)
                    && store.sessions()[v@[i]@.id] == v@[i]@)
                && (forall|id: Seq<char>| #[trigger] store.sessions().contains_key(id)
                    ==> has_id(sessions_view(v@), id)),
            Err(a) => is_store_failure(a) && !S::always_succeeds(),
        },
{
    match store.list() {
        Ok(v) => Ok(v),
        Err(e) => Err(store_failure(e)),
    }
}

/// The session with id `id`; not found when there is none.
pub fn get_session<S: SessionStore>(store: &S, id: &str) -> (r: Result<Session, ApiError>)
    requires
        store.inv(),
    ensures
        match r {
            Ok(s) => store.sessions().contains_key(id@) && s@ == store.sessions()[id@],
            Err(a) => (is_session_not_found(a, id@) && !store.sessions().contains_key(id@))
                || (is_store_failure(a) && !S::always_succeeds()),
        },
{
    match store.get(id) {
        Ok(Some(s)) => Ok(s),
        Ok(None) => Err(session_not_found(id)),
        Err(e) => Err(store_failure(e)),
    }
}

/// Renames the session with id `id` to the requested title without
/// surrounding white space; a title of only white space is a bad request and
/// leaves the store alone.
pub fn patch_session<S: SessionStore>(store: &mut S, id: &str, req: PatchSessionRequest) -> (r: Result<Session, ApiError>)
    requires
        old(store).inv(),
    ensures
        final(store).inv(),
        trimmed(req.title@).len() == 0 ==> (r matches Err(a) && a.status == 400 && a.code@ == "bad_request"@
            && a.message@ == "title cannot be empty"@ && *final(store) == *old(store)),
        trimmed(req.title@).len() > 0 ==> match r {
            Ok(s) => old(store).sessions().contains_key(id@)
                && s@ == retitled(old(store).sessions()[id@], trimmed(req.title@), s@.updated_at)
                && final(store).sessions() == old(store).sessions().insert(id@, s@),
            Err(a) => ((is_session_not_found(a, id@) && !old(store).sessions().contains_key(id@))
                || (is_store_failure(a) && !S::always_succeeds()))
                && final(store).sessions() == old(store).sessions(),
        },
{
    let title = trim(req.title.as_str());
    if title.as_str().is_empty() {
        return Err(to_api_error(DomainError::BadRequest(owned("title cannot be empty"))));
    }
    match store.update_title(id, title) {
        Ok(Some(s)) => Ok(s),
        Ok(None) => Err(session_not_found(id)),
        Err(e) => Err(store_failure(e)),
    }
}

/// Takes out the session with id `id`; taking out a missing one succeeds.
pub fn delete_session<S: SessionStore>(store: &mut S, id: &str) -> (r: Result<(), ApiError>)
    requires
        old(store).inv(),
    ensures
        final(store).inv(),
        match r {
            Ok(_) => final(store).sessions() == old(store).sessions().remove(id@),
            Err(a) => is_store_failure(a) && !S::always_succeeds()
                && final(store).sessions() == old(store).sessions(),
        },
{
    match store.delete(id) {
        Ok(()) => Ok(()),
        Err(e) => Err(store_failure(e)),
    }
}

/// Attaches the requested task to the session with id `id`. `task_known`
/// tells whether the task manager holds that task; an unknown task is not
/// found and leaves the store alone.
pub fn attach_task_to_session<S: SessionStore>(
    store: &mut S,
    id: &str,
    req: AttachTaskRequest,
    task_known: bool,
) -> (r: Result<Session, ApiError>)
    requires
        old(store).inv(),
    ensures
        final(store).inv(),
        !task_known ==> (r matches Err(a) && a.status == 404 && a.code@ == "not_found"@
            && a.message@ == "task not found: "@ + req.task_id@ && *final(store) == *old(store)),
        task_known ==> match r {
            Ok(s) => old(store).sessions().contains_key(id@)
                && s@ == attached(old(store).sessions()[id@], req.task_id@, s@.updated_at)
                && final(store).sessions() == old(store).sessions().insert(id@, s@),
            Err(a) => ((is_session_not_found(a, id@) && !old(store).sessions().contains_key(id@))
                || (is_store_failure(a) && !S::always_succeeds()))
                && final(store).sessions() == old(store).sessions(),
        },
{
    if !task_known {
        return Err(task_not_found(req.task_id.as_str()));
    }
    match store.add_task(id, req.task_id) {
        Ok(Some(s)) => Ok(s),
        Ok(None) => Err(session_not_found(id)),
        Err(e) => Err(store_failure(e)),
    }
}

/// Detaches task `task_id` from the session with id `id`.
pub fn detach_task_from_session<S: SessionStore>(store: &mut S, id: &str, task_id: &str) -> (r: Result<Session, ApiError>)
    requires
        old(store).inv(),
    ensures
        final(store).inv(),
        match r {
            Ok(s) => old(store).sessions().contains_key(id@)
                && s@ == detached(old(store).sessions()[id@], task_id@, s@.updated_at)
                && final(store).sessions() == old(store).sessions().insert(id@, s@),
            Err(a) => ((is_session_not_found(a, id@) && !old(store).sessions().contains_key(id@))
                || (is_store_failure(a) && !S::always_succeeds()))
                && final(store).sessions() == old(store).sessions(),
        },
{
    match store.remove_task(id, task_id) {
        Ok(Some(s)) => Ok(s),
        Ok(None) => Err(session_not_found(id)),
        Err(e) => Err(store_failure(e)),
    }
}

} // verus!
