use claudio::feedback::validate_feedback_permission;
use claudio::lock::{needs_summary, summary_locked};
use claudio::markup::{strip_mentions, to_mrkdwn};
use claudio::naming::{slugify, workflow_display_name};
use claudio::pipeline::format_user_context;
use claudio::semantic::index_batches;
use claudio::text::{comma_list, is_whitespace};
use claudio::types::{Agent, ApiError, ConversationItem, ErrorCode, UserContext};

#[test]
fn test_strip_mentions() {
    assert_eq!(strip_mentions("<@U123> hello"), "hello");
    assert_eq!(strip_mentions("<@U123> <@U456> hi"), "hi");
    assert_eq!(strip_mentions("no mentions"), "no mentions");
}

#[test]
fn markdown_becomes_chat_markup() {
    assert_eq!(to_mrkdwn("# Title"), "*Title*");
    assert_eq!(to_mrkdwn("a **bold** b"), "a *bold* b");
    assert_eq!(to_mrkdwn("~~gone~~"), "~gone~");
    assert_eq!(to_mrkdwn("[site](http://x.y)"), "<http://x.y|site>");
    assert_eq!(to_mrkdwn("a\n\n\n\nb"), "a\n\nb");
}

#[test]
fn slugs() {
    assert_eq!(slugify("  My Project  Name "), "my-project-name");
    assert_eq!(slugify("Hello, World!"), "hello-world");
    assert_eq!(slugify("-a - b-"), "a---b");
    assert_eq!(slugify(""), "");
}

#[test]
fn workflow_names() {
    assert_eq!(workflow_display_name("gitlab-mr-review"), "MR Review");
    assert_eq!(workflow_display_name("slack-mention-handler"), "Slack Mention");
    assert_eq!(workflow_display_name("nightly-report-job"), "Nightly Report Job");
    assert_eq!(workflow_display_name("a--b"), "A  B");
}

#[test]
fn api_errors() {
    let e = ApiError::not_found("Project", "team-z");
    assert_eq!(e.code, ErrorCode::NotFound);
    assert_eq!(e.status_code, 404);
    assert_eq!(e.message, "Project 'team-z' not found");
    let e = ApiError::rate_limit("team-a");
    assert_eq!(e.status_code, 429);
    assert_eq!(e.message, "Rate limit exceeded for project 'team-a'");
    assert_eq!(ApiError::internal().message, "Internal server error");
    assert_eq!(ApiError::forbidden("no").status_code, 403);
}

#[test]
fn feedback_only_from_requester() {
    assert!(validate_feedback_permission("+1", Some(Some("alice")), "alice").is_ok());
    let e = validate_feedback_permission("+1", Some(Some("alice")), "bob").unwrap_err();
    assert_eq!(e.code, ErrorCode::Forbidden);
    assert!(validate_feedback_permission("+1", Some(None), "bob").is_err());
    assert!(validate_feedback_permission("+1", None, "bob").is_ok());
    assert!(validate_feedback_permission("rocket", Some(Some("alice")), "bob").is_ok());
}

#[test]
fn summary_due_rules() {
    assert!(needs_summary(9000, 3, None, None, 1000));
    assert!(!needs_summary(9000, 2, None, None, 1000));
    assert!(needs_summary(10, 5, Some(100), None, 1000));
    assert!(!needs_summary(10, 5, Some(800), None, 1000));
    assert!(!needs_summary(10, 5, None, Some(900), 1000));
    assert!(needs_summary(10, 5, None, Some(700), 1000));
    assert!(summary_locked(Some(800), 1000));
    assert!(!summary_locked(Some(700), 1000));
    assert!(!summary_locked(None, 1000));
}

#[test]
fn user_context_text() {
    let ctx = UserContext {
        user_id: "u1".to_string(),
        rules: vec!["be short".to_string(), "use metric".to_string()],
        summary: Some("likes rust".to_string()),
        last_summarized_at: None,
        recent_conversations: vec![ConversationItem {
            id: "e1".to_string(),
            user_message: "hi".to_string(),
            response: Some("x".repeat(600)),
            created_at: 0,
            has_negative_feedback: true,
        }],
        conversation_count: 1,
        context_bytes: 0,
        needs_summary: false,
        summary_locked: false,
        lock_id: None,
    };
    let text = format_user_context(&ctx, Some("Ann"), "2024-01-02", "http://h");
    let expected = format!(
        "**Today**: 2024-01-02\n\n**User**: Ann\n\n## Summary\nlikes rust\n\n## Rules (overridden by Recent Requests below)\n- be short\n- use metric\n\n## Recent Requests\n\n### 1970-01-01 00:00\nhi\n[Detail: http://h/v1/executions/e1]\n**[Negative feedback]**\n{}...",
        "x".repeat(500)
    );
    assert_eq!(text, expected);
}

#[test]
fn index_batches_cover_indexable_agents() {
    let mk = |id: &str, priority: i32, examples: Vec<&str>| Agent {
        id: id.to_string(),
        project_id: "p".to_string(),
        name: format!("n{}", id),
        description: String::new(),
        model: "m".to_string(),
        priority,
        keywords: vec![],
        examples: examples.into_iter().map(String::from).collect(),
        instruction: None,
        tools: None,
        output_schema: None,
        timeout: 0,
        static_response: false,
        isolated: false,
        working_dir: None,
        created_at: 0,
        updated_at: 0,
    };
    let agents = vec![mk("a", 1, vec!["say \"hi\""]), mk("b", -1, vec!["x"]), mk("c", 0, vec![])];
    let batches = index_batches("team-a", &agents);
    assert_eq!(batches.len(), 1);
    assert_eq!(batches[0].tags, "type:agent-routing,agent:a,project:team-a");
    assert_eq!(batches[0].lines, vec!["{\"content\":\"say \\\"hi\\\"\",\"url\":\"agent://a/0\"}".to_string()]);
}

#[test]
fn comma_lists() {
    assert_eq!(comma_list(" Write, Edit ,MultiEdit", true), vec!["Write", "Edit", "MultiEdit"]);
    assert_eq!(comma_list("a,,b", true), vec!["a", "", "b"]);
    assert_eq!(comma_list("a, ,b,", false), vec!["a", "b"]);
    assert_eq!(comma_list("", true), vec![""]);
    assert_eq!(comma_list("", false), Vec::<String>::new());
}

#[test]
fn whitespace_agrees_with_std_on_every_char() {
    for u in 0u32..=0x10FFFF {
        if let Some(c) = char::from_u32(u) {
            assert_eq!(is_whitespace(c), c.is_whitespace(), "U+{:04X}", u);
        }
    }
}
