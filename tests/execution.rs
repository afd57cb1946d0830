use claudio::executor::{ChatCompletionRequest, ClaudeExecutor, CliSummary, ProcessOutcome};
use claudio::types::ExecutionStatus;

fn strings(v: &[&str]) -> Vec<String> {
    v.iter().map(|s| s.to_string()).collect()
}

#[test]
fn build_args_orders_all_controls() {
    let req = ChatCompletionRequest {
        user_message: "do it".to_string(),
        model: Some("opus".to_string()),
        fallback_model: Some("sonnet".to_string()),
        allowed_tools: Some(strings(&["Read", "Grep"])),
        system_prompt: Some("be brief".to_string()),
        session_id: Some("s1".to_string()),
        continue_session: Some(true),
        resume_session_id: Some("r1".to_string()),
        add_dirs: Some(strings(&["/a", "/b"])),
        mcp_config: Some("{\"x\":1}".to_string()),
        agents: Some("{}".to_string()),
        ..Default::default()
    };
    let resolved = ClaudeExecutor::resolve_project(&req, &strings(&["Bash"]));
    let args = ClaudeExecutor::build_args(&req, &resolved);
    assert_eq!(
        args,
        strings(&[
            "--print", "--output-format", "json", "--model", "opus", "--fallback-model", "sonnet",
            "--allowed-tools", "Read Grep", "--disallowed-tools", "Bash", "--permission-mode",
            "dontAsk", "--append-system-prompt", "be brief", "--session-id", "s1", "--continue",
            "--resume", "r1", "--add-dir", "/a", "--add-dir", "/b", "--mcp-config", "{\"x\":1}",
            "--agents", "{}", "do it",
        ])
    );
}

#[test]
fn build_args_minimal_request() {
    let req = ChatCompletionRequest { user_message: "hi".to_string(), allowed_tools: Some(vec![]), ..Default::default() };
    let resolved = ClaudeExecutor::resolve_project(&req, &vec![]);
    assert_eq!(resolved.name, "default");
    assert_eq!(resolved.working_dir, ".");
    assert_eq!(resolved.disallowed_tools, None);
    let args = ClaudeExecutor::build_args(&req, &resolved);
    assert_eq!(args, strings(&["--print", "--output-format", "json", "--permission-mode", "dontAsk", "hi"]));
}

#[test]
fn missing_working_dir_is_rejected_before_spawning() {
    let req = ChatCompletionRequest { working_dir: Some("/nowhere".to_string()), ..Default::default() };
    let resolved = ClaudeExecutor::resolve_project(&req, &vec![]);
    let err = ClaudeExecutor::plan_execution(&req, &resolved, false).unwrap_err();
    assert_eq!(err.code, "invalid_working_dir");
    assert_eq!(err.message, "Working directory does not exist: /nowhere");
}

#[test]
fn plan_uses_default_timeout() {
    let req = ChatCompletionRequest { user_message: "x".to_string(), ..Default::default() };
    let resolved = ClaudeExecutor::resolve_project(&req, &vec![]);
    let plan = ClaudeExecutor::plan_execution(&req, &resolved, true).unwrap();
    assert_eq!(plan.timeout, 300);
    assert_eq!(plan.working_dir, ".");
    let req = ChatCompletionRequest { timeout: Some(5), ..Default::default() };
    let plan = ClaudeExecutor::plan_execution(&req, &resolved, true).unwrap();
    assert_eq!(plan.timeout, 5);
}

#[test]
fn timeout_yields_timeout_status_without_result() {
    let r = ClaudeExecutor::interpret_outcome(ProcessOutcome::TimedOut, None, 30);
    assert_eq!(r.status, ExecutionStatus::Timeout);
    assert_eq!(r.result, None);
    let e = r.error.unwrap();
    assert_eq!(e.code, "timeout");
    assert_eq!(e.message, "Execution timed out after 30s");
}

#[test]
fn spawn_failure_is_reported() {
    let r = ClaudeExecutor::interpret_outcome(ProcessOutcome::SpawnFailed("not found".to_string()), None, 30);
    assert_eq!(r.status, ExecutionStatus::Failed);
    assert_eq!(r.error.unwrap().code, "spawn_failed");
}

#[test]
fn success_with_structured_output() {
    let out = ProcessOutcome::Exited { success: true, stdout: "{...}".to_string(), stderr: String::new() };
    let parsed = CliSummary { is_error: false, result: "answer".to_string() };
    let r = ClaudeExecutor::interpret_outcome(out, Some(parsed), 30);
    assert_eq!(r.status, ExecutionStatus::Completed);
    assert_eq!(r.result.as_deref(), Some("answer"));
    assert!(r.structured);
    assert!(r.error.is_none());
}

#[test]
fn success_with_unparsable_output_keeps_raw_text() {
    let out = ProcessOutcome::Exited { success: true, stdout: "plain text".to_string(), stderr: String::new() };
    let r = ClaudeExecutor::interpret_outcome(out, None, 30);
    assert_eq!(r.status, ExecutionStatus::Completed);
    assert_eq!(r.result.as_deref(), Some("plain text"));
    assert!(!r.structured);
}

#[test]
fn failed_exit_prefers_structured_error() {
    let out = ProcessOutcome::Exited { success: false, stdout: "{}".to_string(), stderr: "boom".to_string() };
    let parsed = CliSummary { is_error: true, result: "quota exhausted".to_string() };
    let r = ClaudeExecutor::interpret_outcome(out, Some(parsed), 30);
    assert_eq!(r.status, ExecutionStatus::Failed);
    let e = r.error.unwrap();
    assert_eq!(e.code, "execution_failed");
    assert_eq!(e.message, "quota exhausted");
    let out = ProcessOutcome::Exited { success: false, stdout: "x".to_string(), stderr: "boom".to_string() };
    let r = ClaudeExecutor::interpret_outcome(out, None, 30);
    assert_eq!(r.error.unwrap().message, "boom");
}
