use claudio::classify::{classify_step, ClassifyResponse, ClassifyStep, ModelReply, SemanticMatch};
use claudio::pattern::PatternCache;
use claudio::types::{Agent, ClassifySettings, ExecutionStatus};

fn agent(id: &str, name: &str, priority: i32, keywords: &[&str]) -> Agent {
    Agent {
        id: id.to_string(),
        project_id: "team-a".to_string(),
        name: name.to_string(),
        description: format!("{} tasks", name),
        model: "sonnet".to_string(),
        priority,
        keywords: keywords.iter().map(|k| k.to_string()).collect(),
        examples: vec![],
        instruction: Some(format!("@{}", name)),
        tools: None,
        output_schema: None,
        timeout: 120,
        static_response: false,
        isolated: false,
        working_dir: None,
        created_at: 0,
        updated_at: 0,
    }
}

fn settings() -> ClassifySettings {
    ClassifySettings { fallback_agent: "general".to_string(), model: "haiku".to_string(), timeout: 30 }
}

fn done(step: ClassifyStep) -> ClassifyResponse {
    match step {
        ClassifyStep::Done(r) => r,
        other => panic!("expected a finished classification, got {:?}", other),
    }
}

#[test]
fn keyword_match_ignores_semantic_and_model() {
    let agents = vec![agent("a1", "deployer", 10, &["deploy"]), agent("a2", "coder", 20, &["code"])];
    let mut cache = PatternCache::new();
    let matches = vec![SemanticMatch { agent: "a2".to_string(), score: 990_000, matched_example: "x".to_string() }];
    let reply = ModelReply { status: ExecutionStatus::Completed, result: Some("{\"agent\": \"coder\"}".to_string()) };
    let r = done(classify_step(&mut cache, "Please DEPLOY it", &agents, &settings(), true, "/tmp/iso", Some(&matches), Some(&reply), 3));
    assert_eq!(r.agent, "deployer");
    assert_eq!(r.method, "keyword");
    assert_eq!(r.confidence, 950_000);
    assert_eq!(r.matched_keyword.as_deref(), Some("deploy"));
    assert_eq!(r.reasoning.as_deref(), Some("Matched 'deploy' → deployer"));
    assert_eq!(r.instruction.as_deref(), Some("@deployer"));
    assert_eq!(r.duration_ms, 3);
}

#[test]
fn keyword_scan_prefers_priority_then_configured_order() {
    let agents = vec![
        agent("a1", "low", 1, &["fix"]),
        agent("a2", "first_high", 50, &["nothing", "fix"]),
        agent("a3", "second_high", 50, &["fix"]),
    ];
    let mut cache = PatternCache::new();
    let r = done(classify_step(&mut cache, "fix the bug", &agents, &settings(), false, "/tmp/iso", None, None, 0));
    assert_eq!(r.agent, "first_high");
    assert_eq!(r.matched_keyword.as_deref(), Some("fix"));
}

#[test]
fn pattern_rule_matches_case_insensitively() {
    let agents = vec![agent("a1", "ops", 0, &["/de.loy/"])];
    let mut cache = PatternCache::new();
    let r = done(classify_step(&mut cache, "DEPLOY now", &agents, &settings(), false, "/tmp/iso", None, None, 0));
    assert_eq!(r.method, "keyword");
    assert_eq!(r.matched_keyword.as_deref(), Some("/de.loy/"));
}

#[test]
fn malformed_pattern_never_matches_and_is_compiled_once() {
    let agents = vec![agent("a1", "ops", 0, &["/(unclosed/"])];
    let mut cache = PatternCache::new();
    let step = classify_step(&mut cache, "(unclosed", &agents, &settings(), false, "/tmp/iso", None, None, 0);
    assert!(matches!(step, ClassifyStep::NeedModel(_)));
    assert_eq!(cache.len(), 1);
    let step = classify_step(&mut cache, "(unclosed again", &agents, &settings(), false, "/tmp/iso", None, None, 0);
    assert!(matches!(step, ClassifyStep::NeedModel(_)));
    assert_eq!(cache.len(), 1);
}

#[test]
fn semantic_score_is_raised_by_priority() {
    let agents = vec![agent("a1", "writer", 40, &[])];
    let mut cache = PatternCache::new();
    let matches = vec![SemanticMatch { agent: "a1".to_string(), score: 600_000, matched_example: "draft a post".to_string() }];
    let r = done(classify_step(&mut cache, "hello", &agents, &settings(), true, "/tmp/iso", Some(&matches), None, 0));
    assert_eq!(r.method, "semantic");
    assert_eq!(r.confidence, 624_000);
    assert_eq!(r.matched_keyword, None);
    assert_eq!(
        r.reasoning.as_deref(),
        Some("Semantic match (raw: 0.60, adjusted: 0.62, priority: 40) → 'draft a post'")
    );
}

#[test]
fn semantic_score_is_capped_at_one() {
    let agents = vec![agent("a1", "writer", 500, &[])];
    let mut cache = PatternCache::new();
    let matches = vec![SemanticMatch { agent: "a1".to_string(), score: 990_000, matched_example: "x".to_string() }];
    let r = done(classify_step(&mut cache, "hello", &agents, &settings(), true, "/tmp/iso", Some(&matches), None, 0));
    assert_eq!(r.confidence, 1_000_000);
}

#[test]
fn semantic_picks_highest_adjusted_known_agent() {
    let agents = vec![agent("a1", "writer", 0, &[]), agent("a2", "coder", 100, &[])];
    let mut cache = PatternCache::new();
    let matches = vec![
        SemanticMatch { agent: "ghost".to_string(), score: 999_000, matched_example: "x".to_string() },
        SemanticMatch { agent: "a1".to_string(), score: 700_000, matched_example: "x".to_string() },
        SemanticMatch { agent: "a2".to_string(), score: 650_000, matched_example: "y".to_string() },
    ];
    let r = done(classify_step(&mut cache, "hello", &agents, &settings(), true, "/tmp/iso", Some(&matches), None, 0));
    assert_eq!(r.agent, "coder");
    assert_eq!(r.confidence, 715_000);
}

#[test]
fn cascade_asks_for_semantic_candidates_then_the_model() {
    let agents = vec![agent("a1", "coder", 0, &["rust"]), agent("a2", "general", 0, &[])];
    let mut cache = PatternCache::new();
    let step = classify_step(&mut cache, "hello", &agents, &settings(), true, "/tmp/iso", None, None, 0);
    assert!(matches!(step, ClassifyStep::NeedSemantic));
    let none: Vec<SemanticMatch> = vec![];
    let step = classify_step(&mut cache, "hello", &agents, &settings(), true, "/tmp/iso", Some(&none), None, 0);
    match step {
        ClassifyStep::NeedModel(req) => {
            assert_eq!(req.model.as_deref(), Some("haiku"));
            assert_eq!(req.timeout, Some(30));
            assert_eq!(req.working_dir.as_deref(), Some("/tmp/iso"));
            assert_eq!(
                req.user_message,
            "Classify the request into the most appropriate agent.\n\nRequest: hello\n\nAvailable agents:\n- coder: coder tasks\n- general: General tasks not matching above categories\n\nRespond ONLY with JSON: {\"agent\": \"NAME\", \"reasoning\": \"brief reason\"}"
            );
        }
        other => panic!("expected a model prompt, got {:?}", other),
    }
}

#[test]
fn model_reply_json_picks_agent() {
    let agents = vec![agent("a1", "coder", 0, &[]), agent("a2", "writer", 0, &[])];
    let mut cache = PatternCache::new();
    let reply = ModelReply {
        status: ExecutionStatus::Completed,
        result: Some("Sure: {\"agent\": \"writer\", \"reasoning\": \"prose\"} done".to_string()),
    };
    let r = done(classify_step(&mut cache, "hello", &agents, &settings(), false, "/tmp/iso", None, Some(&reply), 9));
    assert_eq!(r.agent, "writer");
    assert_eq!(r.method, "llm");
    assert_eq!(r.confidence, 800_000);
    assert_eq!(r.reasoning.as_deref(), Some("prose"));
}

#[test]
fn model_reply_falls_back_to_name_scan() {
    let agents = vec![agent("a1", "coder", 0, &[]), agent("a2", "writer", 0, &[])];
    let mut cache = PatternCache::new();
    let reply = ModelReply {
        status: ExecutionStatus::Completed,
        result: Some("{\"agent\": \"unknown\"} maybe the writer".to_string()),
    };
    let r = done(classify_step(&mut cache, "hello", &agents, &settings(), false, "/tmp/iso", None, Some(&reply), 0));
    assert_eq!(r.agent, "writer");
    assert_eq!(r.method, "llm");
    assert_eq!(r.reasoning, None);
}

#[test]
fn failed_model_run_gives_fallback() {
    let agents = vec![agent("a1", "coder", 0, &[])];
    let mut cache = PatternCache::new();
    let reply = ModelReply { status: ExecutionStatus::Failed, result: Some("coder".to_string()) };
    let r = done(classify_step(&mut cache, "hello", &agents, &settings(), false, "/tmp/iso", None, Some(&reply), 0));
    assert_eq!(r.agent, "general");
    assert_eq!(r.method, "fallback");
}

#[test]
fn empty_agents_and_unparsable_reply_give_fallback() {
    let agents: Vec<Agent> = vec![];
    let mut cache = PatternCache::new();
    let none: Vec<SemanticMatch> = vec![];
    let reply = ModelReply { status: ExecutionStatus::Completed, result: Some("no idea, sorry".to_string()) };
    let r = done(classify_step(&mut cache, "hello", &agents, &settings(), true, "/tmp/iso", Some(&none), Some(&reply), 5));
    assert_eq!(r.method, "fallback");
    assert_eq!(r.confidence, 500_000);
    assert_eq!(r.agent, "general");
    assert_eq!(r.reasoning.as_deref(), Some("No match found"));
    assert_eq!(r.model, None);
}

#[test]
fn static_response_agent_returns_instruction_as_response() {
    let mut a = agent("a1", "faq", 0, &["hours"]);
    a.static_response = true;
    a.instruction = Some("We open at nine.".to_string());
    let agents = vec![a];
    let mut cache = PatternCache::new();
    let r = done(classify_step(&mut cache, "opening hours?", &agents, &settings(), false, "/tmp/iso", None, None, 0));
    assert_eq!(r.static_response.as_deref(), Some("We open at nine."));
    assert_eq!(r.instruction, None);
}

#[test]
fn response_carries_agent_tools_and_instruction() {
    let mut a = agent("a1", "ops", 0, &["deploy"]);
    a.tools = Some(vec!["Read".to_string(), "Bash".to_string()]);
    let agents = vec![a];
    let mut cache = PatternCache::new();
    let r = done(classify_step(&mut cache, "deploy", &agents, &settings(), false, "/tmp/iso", None, None, 0));
    assert_eq!(r.allowed_tools, Some(vec!["Read".to_string(), "Bash".to_string()]));
    assert_eq!(r.instruction.as_deref(), Some("@ops"));
    assert_eq!(r.static_response, None);
    assert_eq!(r.model.as_deref(), Some("sonnet"));
    assert_eq!(r.timeout, Some(120));
}
