use zero::api::{
    check_task_title, ensure_dispatchable, ensure_path_matches, ensure_plan_path_matches, healthz,
    map_runtime_error, parse_failure_class, parse_task_status, parse_verify_outcome, task_not_found,
    to_api_error, CreateTaskRequest, DomainError, FailureClass, TaskStatus, VerifyOutcome,
};
use zero::error::{AgentError, ToolError, ZeroError};

fn bad_request_message(e: DomainError) -> String {
    match e {
        DomainError::BadRequest(m) => m,
        other => panic!("unexpected {:?}", other),
    }
}

#[test]
fn task_status_words() {
    assert_eq!(parse_task_status("pending").unwrap(), TaskStatus::Pending);
    assert_eq!(parse_task_status("running").unwrap(), TaskStatus::Running);
    assert_eq!(parse_task_status("completed").unwrap(), TaskStatus::Completed);
    assert_eq!(parse_task_status("failed").unwrap(), TaskStatus::Failed);
    assert_eq!(bad_request_message(parse_task_status("Pending").unwrap_err()), "invalid status filter");
}

#[test]
fn failure_class_words() {
    assert_eq!(parse_failure_class("provider_timeout").unwrap(), FailureClass::ProviderTimeout);
    assert_eq!(parse_failure_class("tool_invalid_args").unwrap(), FailureClass::ToolInvalidArgs);
    assert_eq!(parse_failure_class("planning_mismatch").unwrap(), FailureClass::PlanningMismatch);
    assert_eq!(bad_request_message(parse_failure_class("other").unwrap_err()), "unknown failure_class");
}

#[test]
fn verify_outcome_words() {
    assert_eq!(parse_verify_outcome("passed").unwrap(), VerifyOutcome::Passed);
    assert_eq!(parse_verify_outcome("needs_repair").unwrap(), VerifyOutcome::NeedsRepair(vec![]));
    assert_eq!(parse_verify_outcome("hard_fail").unwrap(), VerifyOutcome::HardFail);
    assert_eq!(bad_request_message(parse_verify_outcome("").unwrap_err()), "unknown outcome");
}

#[test]
fn ids_must_agree() {
    assert!(ensure_path_matches("a", "a").is_ok());
    assert_eq!(bad_request_message(ensure_path_matches("a", "b").unwrap_err()), "path id must match task_id");
    assert!(ensure_plan_path_matches("t", "t").is_ok());
    assert_eq!(
        bad_request_message(ensure_plan_path_matches("t", "u").unwrap_err()),
        "path id must match plan.task_id"
    );
}

#[test]
fn dispatch_needs_a_step() {
    assert!(ensure_dispatchable(0, 2, "t").is_ok());
    assert!(ensure_dispatchable(1, 2, "t").is_ok());
    match ensure_dispatchable(2, 2, "t7") {
        Err(DomainError::InvalidState(m)) => assert_eq!(m, "no dispatchable steps for task: t7"),
        other => panic!("unexpected {:?}", other),
    }
}

#[test]
fn domain_errors_become_answers() {
    let cases = vec![
        (DomainError::BadRequest("a".to_string()), 400, "bad_request"),
        (DomainError::NotFound("b".to_string()), 404, "not_found"),
        (DomainError::Conflict("c".to_string()), 409, "conflict"),
        (DomainError::InvalidState("d".to_string()), 409, "invalid_state"),
        (DomainError::Internal("e".to_string()), 500, "internal"),
    ];
    for (e, status, code) in cases {
        let msg = match &e {
            DomainError::BadRequest(m)
            | DomainError::NotFound(m)
            | DomainError::Conflict(m)
            | DomainError::InvalidState(m)
            | DomainError::Internal(m) => m.clone(),
        };
        let a = to_api_error(e);
        assert_eq!(a.status, status);
        assert_eq!(a.code, code);
        assert_eq!(a.message, msg);
    }
}

#[test]
fn runtime_errors_saying_not_found_are_404() {
    let a = map_runtime_error(&ZeroError::NotFound("task not found: 1".to_string()));
    assert_eq!((a.status, a.code.as_str()), (404, "not_found"));
    assert_eq!(a.message, "Not found: task not found: 1");
    // the kind's own text is capitalised, so it alone does not count
    let b = map_runtime_error(&ZeroError::NotFound("x".to_string()));
    assert_eq!((b.status, b.code.as_str()), (500, "internal"));
    let c = map_runtime_error(&ZeroError::Tool(ToolError::ExecutionFailed("file not found".to_string())));
    assert_eq!(c.status, 404);
    assert_eq!(c.message, "Tool error: Execution failed: file not found");
    let d = map_runtime_error(&ZeroError::Agent(AgentError::ProviderTimeout));
    assert_eq!((d.status, d.message.as_str()), (500, "Agent error: Provider timeout"));
}

#[test]
fn health_and_task_checks() {
    assert_eq!(healthz().status, "ok");
    let req = CreateTaskRequest { title: "  ".to_string(), description: "d".to_string(), dependencies: vec![] };
    let e = check_task_title(&req).unwrap_err();
    assert_eq!((e.status, e.code.as_str(), e.message.as_str()), (400, "bad_request", "title cannot be empty"));
    let ok = CreateTaskRequest { title: "t".to_string(), description: String::new(), dependencies: vec![] };
    assert!(check_task_title(&ok).is_ok());
    let nf = task_not_found("t1");
    assert_eq!((nf.status, nf.message.as_str()), (404, "task not found: t1"));
}
