use claudio::analytics::{calculate_period_bounds, calculate_previous_period_bounds, model_display_name, Granularity, Period, WorkflowStatus};
use claudio::executor::ChatCompletionRequest;
use claudio::feedback::{calculate_score, is_feedback_reaction, reaction_result, ReactionCategory};
use claudio::types::ReactionResult;
use claudio::pipeline::{admission_check, admission_result, apply_agent, apply_project, format_structured_message, merge_tools, prepare_chat, truncate};
use claudio::ratelimit::RateLimitState;
use claudio::types::ErrorCode;
use claudio::semantic::{routing_tags, search_args, select_matches, SearchHit};
use claudio::types::{Agent, ExecutionStatus, Project};

fn strings(v: &[&str]) -> Vec<String> {
    v.iter().map(|s| s.to_string()).collect()
}

#[test]
fn feedback_score_cases() {
    assert_eq!(calculate_score(0, 0), None);
    assert_eq!(calculate_score(2, 1), Some(0));
    assert_eq!(calculate_score(3, 0), Some(1));
    assert_eq!(calculate_score(0, 4), Some(-1));
}

#[test]
fn reaction_categories() {
    assert!(is_feedback_reaction("+1"));
    assert!(is_feedback_reaction("thumbsdown"));
    assert!(!is_feedback_reaction("eyes"));
    assert_eq!(ReactionCategory::from_reaction("thumbsup"), ReactionCategory::Feedback);
    assert_eq!(ReactionCategory::from_reaction("seven"), ReactionCategory::Trigger);
    assert_eq!(ReactionCategory::from_reaction("rocket"), ReactionCategory::Action);
    assert_eq!(ReactionCategory::Trigger.as_str(), "trigger");
}

#[test]
fn periods_and_granularity() {
    assert_eq!(Period::Days7.seconds(), Some(604800));
    assert_eq!(Period::All.seconds(), None);
    assert_eq!(Period::Hours24.as_str(), "24h");
    assert_eq!(Granularity::from_range(3600), Granularity::Hour);
    assert_eq!(Granularity::from_range(604800), Granularity::Hour);
    assert_eq!(Granularity::from_range(604801), Granularity::Day);
    assert_eq!(Granularity::from_range(2592001), Granularity::Week);
    assert_eq!(Granularity::Week.as_str(), "week");
    assert_eq!(WorkflowStatus::Timeout.as_str(), "timeout");
    assert!(ExecutionStatus::Completed.is_success());
    assert!(!ExecutionStatus::Timeout.is_success());
}

#[test]
fn period_bounds() {
    assert_eq!(calculate_period_bounds(10_000, Period::Hour1), (6_400, 10_000));
    assert_eq!(calculate_period_bounds(10_000, Period::All), (0, 10_000));
    assert_eq!(calculate_previous_period_bounds(6_400, 10_000), (2_800, 6_400));
}

#[test]
fn model_names() {
    assert_eq!(model_display_name("acme-opus-4-5-2025"), "Opus 4.5");
    assert_eq!(model_display_name("acme-opus-4"), "Opus 4");
    assert_eq!(model_display_name("acme-sonnet-4.5"), "Sonnet 4.5");
    assert_eq!(model_display_name("acme-haiku"), "Haiku");
    assert_eq!(model_display_name("gpt"), "gpt");
}

#[test]
fn truncate_cases() {
    assert_eq!(truncate("hello", 0), "");
    assert_eq!(truncate("hello", 5), "hello");
    assert_eq!(truncate("héllo world", 4), "héll...");
}

#[test]
fn structured_message_cases() {
    assert_eq!(format_structured_message(None, Some(""), "hi"), "hi");
    assert_eq!(
        format_structured_message(Some("do X"), None, "hi"),
        "<task_instruction>\ndo X\n</task_instruction>\n\n<user_request>\nhi\n</user_request>\n\nProcess the structured request above:\n- <task_instruction>: Task guidelines.\n- <user_request>: The request to fulfill."
    );
    let with_context = format_structured_message(None, Some("rules"), "hi");
    assert!(with_context.starts_with("<user_context>\nrules\n</user_context>\n\n<user_request>\nhi\n</user_request>"));
    assert!(with_context.ends_with("when context is needed.\n- <user_request>: The request to fulfill."));
}

#[test]
fn tools_are_merged_without_duplicates() {
    let merged = merge_tools(&strings(&["Read", "Bash"]), &strings(&["Bash", "Grep", "Read", "Edit"]));
    assert_eq!(merged, strings(&["Read", "Bash", "Grep", "Edit"]));
}

fn project() -> Project {
    Project {
        id: "team-a".to_string(),
        name: "main".to_string(),
        system_prompt: Some("tenant prompt".to_string()),
        allowed_tools: Some(strings(&["Grep"])),
        disallowed_tools: Some(strings(&["Bash"])),
        is_default: true,
        enable_user_context: true,
        fallback_agent: "general".to_string(),
        classify_model: "haiku".to_string(),
        classify_timeout: 30,
        rate_limit_rpm: 0,
        working_dir: "/srv/main".to_string(),
        created_at: 0,
        updated_at: 0,
    }
}

fn agent() -> Agent {
    Agent {
        id: "a1".to_string(),
        project_id: "team-a".to_string(),
        name: "coder".to_string(),
        description: "writes code".to_string(),
        model: "opus".to_string(),
        priority: 0,
        keywords: vec![],
        examples: vec![],
        instruction: Some("@code".to_string()),
        tools: Some(strings(&["Read"])),
        output_schema: None,
        timeout: 90,
        static_response: false,
        isolated: true,
        working_dir: None,
        created_at: 0,
        updated_at: 0,
    }
}

#[test]
fn agent_and_tenant_defaults_apply() {
    let mut req = ChatCompletionRequest {
        user_message: "fix".to_string(),
        instruction: Some("be careful".to_string()),
        ..Default::default()
    };
    let (tools, isolated) = apply_agent(&mut req, &agent());
    assert_eq!(req.instruction.as_deref(), Some("@code\n\nbe careful"));
    assert_eq!(req.model.as_deref(), Some("opus"));
    assert_eq!(req.timeout, Some(90));
    assert!(isolated);
    apply_project(&mut req, &project(), tools, isolated, "/tmp/sandbox");
    assert_eq!(req.working_dir.as_deref(), Some("/tmp/sandbox"));
    assert_eq!(req.allowed_tools, Some(strings(&["Read", "Grep"])));
    assert_eq!(req.disallowed_tools, Some(strings(&["Bash"])));
    assert_eq!(req.system_prompt.as_deref(), Some("tenant prompt"));
}

#[test]
fn semantic_hits_are_filtered() {
    let hits = vec![
        SearchHit {
            content: "example one".to_string(),
            score: 800_000,
            tags: vec![("type".to_string(), "agent-routing".to_string()), ("agent".to_string(), "a1".to_string())],
        },
        SearchHit { content: "no agent".to_string(), score: 900_000, tags: vec![] },
        SearchHit {
            content: "too weak".to_string(),
            score: 100_000,
            tags: vec![("agent".to_string(), "a2".to_string())],
        },
    ];
    let m = select_matches(&hits, 500_000);
    assert_eq!(m.len(), 1);
    assert_eq!(m[0].agent, "a1");
    assert_eq!(m[0].score, 800_000);
    assert_eq!(m[0].matched_example, "example one");
    assert_eq!(routing_tags(Some("team-a")), "type:agent-routing,project:team-a");
    assert_eq!(routing_tags(None), "type:agent-routing");
    assert_eq!(search_args("q", "t", 5)[7], "5");
}

#[test]
fn admission_of_known_and_unknown_tenants() {
    let mut state = RateLimitState::new();
    let mut p = project();
    p.rate_limit_rpm = 1;
    assert!(admission_check(&mut state, "team-a", Some(&p)).is_ok());
    let e = admission_check(&mut state, "team-a", Some(&p)).unwrap_err();
    assert_eq!(e.code, ErrorCode::RateLimited);
    assert_eq!(e.status_code, 429);
    assert!(admission_check(&mut state, "team-a", None).is_ok());
}

#[test]
fn chat_request_is_prepared() {
    let mut req = ChatCompletionRequest { user_message: "fix it".to_string(), ..Default::default() };
    let snapshot = prepare_chat(&mut req, "team-a", Some(&agent()), Some(&project()), "/tmp/sandbox", Some("ctx"));
    assert_eq!(snapshot.as_deref(), Some("@code"));
    assert_eq!(req.instruction, None);
    assert_eq!(req.project.as_deref(), Some("team-a"));
    assert_eq!(req.model.as_deref(), Some("opus"));
    assert_eq!(req.working_dir.as_deref(), Some("/tmp/sandbox"));
    assert!(req.user_message.starts_with("<task_instruction>\n@code\n</task_instruction>\n\n<user_context>\nctx\n</user_context>\n\n<user_request>\nfix it\n</user_request>"));
    let mut plain = ChatCompletionRequest { user_message: "hello".to_string(), ..Default::default() };
    let snapshot = prepare_chat(&mut plain, "team-b", None, None, "/tmp/sandbox", None);
    assert_eq!(snapshot, None);
    assert_eq!(plain.user_message, "hello");
    assert_eq!(plain.working_dir, None);
}

#[test]
fn reaction_outcomes() {
    assert_eq!(reaction_result(ReactionCategory::Feedback, true, false), ReactionResult::Updated);
    assert_eq!(reaction_result(ReactionCategory::Feedback, false, true), ReactionResult::Created);
    assert_eq!(reaction_result(ReactionCategory::Trigger, false, true), ReactionResult::AlreadyTriggered);
    assert_eq!(reaction_result(ReactionCategory::Action, true, true), ReactionResult::Created);
    assert_eq!(ReactionResult::AlreadyTriggered.as_str(), "already_triggered");
}

#[test]
fn refused_check_becomes_rate_limited_error() {
    assert!(admission_result(Ok(()), "team-a").is_ok());
    let e = admission_result(Err(claudio::types::RateLimitError::TooManyRequests), "team-a").unwrap_err();
    assert_eq!(e.code, ErrorCode::RateLimited);
    assert_eq!(e.status_code, 429);
}
