use vstd::prelude::*;
use vstd::string::StringExecFns;
use crate::text::append_str;

verus! {

/// A tenant: an isolated configuration scope with its own agents and limits.
#[derive(Debug, Clone)]
pub struct Project {
    pub id: String,
    pub name: String,
    pub system_prompt: Option<String>,
    pub allowed_tools: Option<Vec<String>>,
    pub disallowed_tools: Option<Vec<String>>,
    pub is_default: bool,
    pub enable_user_context: bool,
    pub fallback_agent: String,
    pub classify_model: String,
    pub classify_timeout: i32,
    /// Requests per minute; zero or less means unlimited.
    pub rate_limit_rpm: i32,
    /// Working directory of executions that name none.
    pub working_dir: String,
    pub created_at: i64,
    pub updated_at: i64,
}

/// The fields of a tenant to be created.
#[derive(Debug, Clone)]
pub struct CreateProject {
    pub name: String,
    pub system_prompt: Option<String>,
    pub allowed_tools: Option<Vec<String>>,
    pub disallowed_tools: Option<Vec<String>>,
    pub is_default: bool,
    pub enable_user_context: bool,
    pub fallback_agent: String,
    pub classify_model: String,
    pub classify_timeout: i32,
    pub rate_limit_rpm: i32,
}

/// A partial update of a tenant: `None` leaves a field as it is.
#[derive(Debug, Clone)]
pub struct UpdateProject {
    pub name: Option<String>,
    pub system_prompt: Option<String>,
    pub allowed_tools: Option<Vec<String>>,
    pub disallowed_tools: Option<Vec<String>>,
    pub is_default: Option<bool>,
    pub enable_user_context: Option<bool>,
    pub fallback_agent: Option<String>,
    pub classify_model: Option<String>,
    pub classify_timeout: Option<i32>,
    pub rate_limit_rpm: Option<i32>,
}

/// A configured task handler of a tenant.
#[derive(Debug, Clone)]
pub struct Agent {
    pub id: String,
    pub project_id: String,
    pub name: String,
    pub description: String,
    pub model: String,
    /// Higher is preferred.
    pub priority: i32,
    /// Plain substrings, or `/pattern/` rules.
    pub keywords: Vec<String>,
    pub examples: Vec<String>,
    pub instruction: Option<String>,
    pub tools: Option<Vec<String>>,
    /// The output schema as JSON text.
    pub output_schema: Option<String>,
    pub timeout: i32,
    /// When set, the instruction is the response itself.
    pub static_response: bool,
    /// When set, executions run in the sandboxed working directory.
    pub isolated: bool,
    pub working_dir: Option<String>,
    pub created_at: i64,
    pub updated_at: i64,
}

/// Classification settings of a tenant.
#[derive(Debug, Clone)]
pub struct ClassifySettings {
    /// The agent named when no tier finds a match.
    pub fallback_agent: String,
    /// The model that the model-assisted tier asks.
    pub model: String,
    /// Seconds that the model-assisted tier may take.
    pub timeout: u32,
}

impl Default for ClassifySettings {
    /// Fallback agent `general`, model `haiku`, thirty seconds.
    fn default() -> (r: ClassifySettings)
        ensures
            r.fallback_agent@ == "general"@,
            r.model@ == "haiku"@,
            r.timeout == 30,
    {
        ClassifySettings {
            fallback_agent: String::from_str("general"),
            model: String::from_str("haiku"),
            timeout: 30,
        }
    }
}

impl ClassifySettings {
    /// The settings of a tenant.
    pub fn from_project(project: &Project) -> (r: ClassifySettings)
        ensures
            r.fallback_agent@ == project.fallback_agent@,
            r.model@ == project.classify_model@,
            r.timeout == project.classify_timeout as u32,
    {
        ClassifySettings {
            fallback_agent: project.fallback_agent.clone(),
            model: project.classify_model.clone(),
            timeout: project.classify_timeout as u32,
        }
    }
}

/// Terminal state of one execution.
#[derive(Debug, Clone, Copy, PartialEq, Eq, Structural)]
pub enum ExecutionStatus {
    Completed,
    Failed,
    Timeout,
}

impl ExecutionStatus {
    /// The lower-case name of the status.
    pub fn as_str(self) -> (r: &'static str)
        ensures
            r@ == (match self {
                ExecutionStatus::Completed => "completed"@,
                ExecutionStatus::Failed => "failed"@,
                ExecutionStatus::Timeout => "timeout"@,
            }),
    {
        proof {
            reveal_strlit("completed");
            reveal_strlit("failed");
            reveal_strlit("timeout");
        }
        match self {
            ExecutionStatus::Completed => "completed",
            ExecutionStatus::Failed => "failed",
            ExecutionStatus::Timeout => "timeout",
        }
    }

    pub fn is_success(self) -> (r: bool)
        ensures
            r == (self == ExecutionStatus::Completed),
    {
        match self {
            ExecutionStatus::Completed => true,
            _ => false,
        }
    }
}

/// An error code and a message for the caller.
#[derive(Debug, Clone)]
pub struct ErrorInfo {
    pub code: String,
    pub message: String,
}

/// Token counts reported by the reasoning-model process.
#[derive(Debug, Clone, Default)]
pub struct UsageInfo {
    pub input_tokens: Option<u64>,
    pub output_tokens: Option<u64>,
    pub cache_creation_input_tokens: Option<u64>,
    pub cache_read_input_tokens: Option<u64>,
}

/// Category of a caller-visible API error.
#[derive(Debug, Clone, Copy, PartialEq, Eq, Structural)]
pub enum ErrorCode {
    NotFound,
    Forbidden,
    RateLimited,
    Internal,
}

/// An error for the caller: its category, a message and the HTTP status.
#[derive(Debug, Clone)]
pub struct ApiError {
    pub code: ErrorCode,
    pub message: String,
    pub status_code: u16,
}

impl ApiError {
    /// `resource 'id' not found`, status 404.
    pub fn not_found(resource: &str, id: &str) -> (r: ApiError)
        ensures
            r.code == ErrorCode::NotFound,
            r.status_code == 404,
            r.message@ == resource@ + " '"@ + id@ + "' not found"@,
    {
        let mut message = resource.to_string();
        append_str(&mut message, " '");
        append_str(&mut message, id);
        append_str(&mut message, "' not found");
        ApiError { code: ErrorCode::NotFound, message, status_code: 404 }
    }

    /// The given message, status 403.
    pub fn forbidden(message: &str) -> (r: ApiError)
        ensures
            r.code == ErrorCode::Forbidden,
            r.status_code == 403,
            r.message@ == message@,
    {
        ApiError { code: ErrorCode::Forbidden, message: message.to_string(), status_code: 403 }
    }

    /// A refused admission check of a tenant, status 429.
    pub fn rate_limit(project_id: &str) -> (r: ApiError)
        ensures
            r.code == ErrorCode::RateLimited,
            r.status_code == 429,
            r.message@ == "Rate limit exceeded for project '"@ + project_id@ + "'"@,
    {
        let mut message = String::from_str("Rate limit exceeded for project '");
        append_str(&mut message, project_id);
        append_str(&mut message, "'");
        ApiError { code: ErrorCode::RateLimited, message, status_code: 429 }
    }

    /// `Internal server error`, status 500.
    pub fn internal() -> (r: ApiError)
        ensures
            r.code == ErrorCode::Internal,
            r.status_code == 500,
            r.message@ == "Internal server error"@,
    {
        ApiError {
            code: ErrorCode::Internal,
            message: String::from_str("Internal server error"),
            status_code: 500,
        }
    }
}

/// Refusal of an admission check.
#[derive(Debug, Clone, Copy, PartialEq, Eq, Structural)]
pub enum RateLimitError {
    TooManyRequests,
}

/// Outcome of recording a reaction.
#[derive(Debug, Clone, PartialEq, Eq, Structural)]
pub enum ReactionResult {
    Created,
    Updated,
    AlreadyTriggered,
}

/// A trigger reaction left on an execution.
#[derive(Debug, Clone)]
pub struct TriggerInfo {
    pub reaction: String,
    pub user_id: String,
    pub created_at: i64,
}

/// Feedback counts and trigger reactions of an execution.
#[derive(Debug, Clone, Default)]
pub struct ReactionSummary {
    pub positive: i64,
    pub negative: i64,
    pub triggers: Vec<TriggerInfo>,
}

/// Filters of an execution listing.
#[derive(Debug, Clone, Default)]
pub struct ExecutionFilter {
    pub project: Option<String>,
    pub source: Option<String>,
    pub model: Option<String>,
    pub agent: Option<String>,
    pub feedback: Option<i32>,
    pub requester: Option<String>,
    pub channel: Option<String>,
    pub from: Option<i64>,
    pub to: Option<i64>,
    pub search: Option<String>,
    pub failed_only: Option<bool>,
}

/// The distinct values that an execution listing can be filtered by.
#[derive(Debug, Clone)]
pub struct FilterOptions {
    pub projects: Vec<String>,
    pub sources: Vec<String>,
    pub models: Vec<String>,
    pub agents: Vec<String>,
    pub requesters: Vec<String>,
    pub channels: Vec<String>,
}

/// One earlier exchange of an end user.
#[derive(Debug, Clone)]
pub struct ConversationItem {
    pub id: String,
    pub user_message: String,
    pub response: Option<String>,
    pub created_at: i64,
    pub has_negative_feedback: bool,
}

/// What is known of an end user: rules, summary, recent exchanges, lock state.
#[derive(Debug, Clone)]
pub struct UserContext {
    pub user_id: String,
    pub rules: Vec<String>,
    pub summary: Option<String>,
    pub last_summarized_at: Option<i64>,
    pub recent_conversations: Vec<ConversationItem>,
    pub conversation_count: usize,
    pub context_bytes: i64,
    pub needs_summary: bool,
    pub summary_locked: bool,
    pub lock_id: Option<String>,
}

/// Text to convert to chat-platform markup.
#[derive(Debug, Clone)]
pub struct MrkdwnRequest {
    pub text: String,
}

/// Converted chat-platform markup.
#[derive(Debug, Clone)]
pub struct MrkdwnResponse {
    pub text: String,
}

/// Liveness answer.
#[derive(Debug, Clone)]
pub struct HealthResponse {
    pub status: String,
    pub version: String,
}

/// Where the server listens.
#[derive(Debug, Clone)]
pub struct ServerConfig {
    pub host: String,
    pub port: u16,
    pub base_url: String,
}

#[derive(Debug, Clone)]
pub struct LoggingConfig {
    pub level: String,
}

#[derive(Debug, Clone)]
pub struct StorageConfig {
    pub path: String,
}

/// System-wide defaults for executions.
#[derive(Debug, Clone)]
pub struct DefaultsConfig {
    pub model: Option<String>,
    pub timeout: u32,
    pub disallowed_tools: Vec<String>,
    pub isolated_dir: String,
    pub timezone: String,
}

/// Webhook targets of the chat-platform bridge.
#[derive(Debug, Clone)]
pub struct SlackWebhooks {
    pub mention: Option<String>,
    pub message: Option<String>,
    pub reaction: Option<String>,
    pub feedback: Option<String>,
}

/// Chat-platform bridge settings.
#[derive(Debug, Clone)]
pub struct SlackConfig {
    pub app_token: String,
    pub bot_token: String,
    pub bot_user_ids: Vec<String>,
    pub webhooks: SlackWebhooks,
}

} // verus!
