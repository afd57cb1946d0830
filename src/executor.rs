use vstd::prelude::*;
use vstd::string::StringExecFns;
use crate::text::{append_str, push_decimal, decimal};
use crate::types::{ErrorInfo, ExecutionStatus};

verus! {

/// Seconds an execution may take where the request names no timeout.
pub const DEFAULT_TIMEOUT_SECS: u64 = 300;

/// A request to run the reasoning-model process. JSON-valued fields are
/// carried as JSON text.
#[derive(Debug, Clone, Default)]
pub struct ChatCompletionRequest {
    pub user_message: String,
    pub instruction: Option<String>,
    pub project: Option<String>,
    pub requester: Option<String>,
    pub source: Option<String>,
    pub agent: Option<String>,
    pub metadata: Option<String>,
    pub model: Option<String>,
    pub fallback_model: Option<String>,
    pub allowed_tools: Option<Vec<String>>,
    pub disallowed_tools: Option<Vec<String>>,
    pub system_prompt: Option<String>,
    pub working_dir: Option<String>,
    pub session_id: Option<String>,
    pub continue_session: Option<bool>,
    pub resume_session_id: Option<String>,
    pub add_dirs: Option<Vec<String>>,
    pub mcp_config: Option<String>,
    pub agents: Option<String>,
    /// Seconds.
    pub timeout: Option<u64>,
}

/// The runner of the reasoning-model process.
#[derive(Debug, Clone, Copy)]
pub struct ClaudeExecutor;

/// The request's settings after the tenant defaults are applied.
#[derive(Debug)]
pub struct ResolvedProject {
    pub name: String,
    pub working_dir: String,
    pub allowed_tools: Option<Vec<String>>,
    pub disallowed_tools: Option<Vec<String>>,
    pub system_prompt: Option<String>,
}

/// The characters of each string.
pub open spec fn strs(v: Seq<String>) -> Seq<Seq<char>> {
    v.map_values(|s: String| s@)
}

/// The characters of an optional string.
pub open spec fn opt_str(o: Option<String>) -> Option<Seq<char>> {
    match o {
        Some(s) => Some(s@),
        None => None,
    }
}

/// The characters of each string of an optional list.
pub open spec fn opt_strs(o: Option<Vec<String>>) -> Option<Seq<Seq<char>>> {
    match o {
        Some(v) => Some(strs(v@)),
        None => None,
    }
}

/// A copy of a list of strings.
pub fn clone_strings(v: &Vec<String>) -> (r: Vec<String>)
    ensures
        strs(r@) == strs(v@),
{
    let mut out: Vec<String> = Vec::new();
    let mut i: usize = 0;
    while i < v.len()
        invariant
            i <= v@.len(),
            strs(out@) == strs(v@.subrange(0, i as int)),
        decreases v@.len() - i,
    {
        let c = v[i].clone();
        let ghost before = out@;
        out.push(c);
        assert(strs(out@) =~= strs(before).push(c@));
        assert(strs(v@.subrange(0, i + 1)) =~= strs(v@.subrange(0, i as int)).push(v@[i as int]@));
        i = i + 1;
    }
    assert(v@.subrange(0, v@.len() as int) =~= v@);
    out
}

fn clone_opt_strings(o: &Option<Vec<String>>) -> (r: Option<Vec<String>>)
    ensures
        opt_strs(r) == opt_strs(*o),
{
    match o {
        Some(v) => Some(clone_strings(v)),
        None => None,
    }
}

/// The tenant settings of a request: named project or `default`, the
/// request's own disallowed tools or else the system defaults (where there
/// are any), working directory or else `.`.
pub open spec fn resolved_of(req: ChatCompletionRequest, default_disallowed: Seq<Seq<char>>) -> (Seq<char>, Seq<char>, Option<Seq<Seq<char>>>, Option<Seq<Seq<char>>>, Option<Seq<char>>) {
    (
        match req.project { Some(p) => p@, None => "default"@ },
        match req.working_dir { Some(d) => d@, None => "."@ },
        opt_strs(req.allowed_tools),
        match req.disallowed_tools {
            Some(t) => Some(strs(t@)),
            None => if default_disallowed.len() == 0 { None } else { Some(default_disallowed) },
        },
        opt_str(req.system_prompt),
    )
}

/// The view of resolved settings, in the shape of `resolved_of`.
pub open spec fn resolved_view(r: ResolvedProject) -> (Seq<char>, Seq<char>, Option<Seq<Seq<char>>>, Option<Seq<Seq<char>>>, Option<Seq<char>>) {
    (r.name@, r.working_dir@, opt_strs(r.allowed_tools), opt_strs(r.disallowed_tools), opt_str(r.system_prompt))
}

impl ClaudeExecutor {
    /// Applies the defaults to a request.
    pub fn resolve_project(req: &ChatCompletionRequest, default_disallowed: &Vec<String>) -> (r: ResolvedProject)
        ensures
            resolved_view(r) == resolved_of(*req, strs(default_disallowed@)),
    {
        proof {
            reveal_strlit("default");
            reveal_strlit(".");
        }
        let name = match &req.project {
            Some(p) => p.clone(),
            None => String::from_str("default"),
        };
        let disallowed_tools = match &req.disallowed_tools {
            Some(t) => Some(clone_strings(t)),
            None => if default_disallowed.len() == 0 {
                None
            } else {
                Some(clone_strings(default_disallowed))
            },
        };
        let working_dir = match &req.working_dir {
            Some(d) => d.clone(),
            None => String::from_str("."),
        };
        ResolvedProject {
            name,
            working_dir,
            allowed_tools: clone_opt_strings(&req.allowed_tools),
            disallowed_tools,
            system_prompt: req.system_prompt.clone(),
        }
    }
}

/// The strings joined by single spaces.
pub open spec fn joined(s: Seq<Seq<char>>) -> Seq<char>
    decreases s.len(),
{
    if s.len() == 0 {
        Seq::empty()
    } else if s.len() == 1 {
        s[0]
    } else {
        joined(s.drop_last()) + " "@ + s.last()
    }
}

/// A flag with its value, where there is a value.
pub open spec fn opt_flag(flag: Seq<char>, v: Option<Seq<char>>) -> Seq<Seq<char>> {
    match v {
        Some(x) => seq![flag, x],
        None => Seq::empty(),
    }
}

/// A flag with a space-joined tool list, where the list is given and not empty.
pub open spec fn tools_flag(flag: Seq<char>, v: Option<Seq<Seq<char>>>) -> Seq<Seq<char>> {
    match v {
        Some(t) => if t.len() > 0 { seq![flag, joined(t)] } else { Seq::empty() },
        None => Seq::empty(),
    }
}

/// One `--add-dir` flag per directory.
pub open spec fn dir_flags(dirs: Seq<Seq<char>>) -> Seq<Seq<char>>
    decreases dirs.len(),
{
    if dirs.len() == 0 {
        Seq::empty()
    } else {
        dir_flags(dirs.drop_last()) + seq!["--add-dir"@, dirs.last()]
    }
}

/// The argument list of the reasoning-model process: machine-readable output,
/// then the optional controls in a fixed order, then the user message last.
pub open spec fn args_of(req: ChatCompletionRequest, resolved: ResolvedProject) -> Seq<Seq<char>> {
    seq!["--print"@, "--output-format"@, "json"@]
        + opt_flag("--model"@, opt_str(req.model))
        + opt_flag("--fallback-model"@, opt_str(req.fallback_model))
        + tools_flag("--allowed-tools"@, opt_strs(resolved.allowed_tools))
        + tools_flag("--disallowed-tools"@, opt_strs(resolved.disallowed_tools))
        + seq!["--permission-mode"@, "dontAsk"@]
        + opt_flag("--append-system-prompt"@, match req.system_prompt {
            Some(p) => Some(p@),
            None => opt_str(resolved.system_prompt),
        })
        + opt_flag("--session-id"@, opt_str(req.session_id))
        + (if req.continue_session == Some(true) { seq!["--continue"@] } else { Seq::empty() })
        + opt_flag("--resume"@, opt_str(req.resume_session_id))
        + dir_flags(match req.add_dirs { Some(d) => strs(d@), None => Seq::empty() })
        + opt_flag("--mcp-config"@, opt_str(req.mcp_config))
        + opt_flag("--agents"@, opt_str(req.agents))
        + seq![req.user_message@]
}

/// The strings of `v` joined by single spaces.
pub fn join_spaces(v: &Vec<String>) -> (r: String)
    ensures
        r@ == joined(strs(v@)),
{
    let mut out = String::new();
    let mut i: usize = 0;
    while i < v.len()
        invariant
            i <= v@.len(),
            out@ == joined(strs(v@.subrange(0, i as int))),
        decreases v@.len() - i,
    {
        let ghost prev = strs(v@.subrange(0, i as int));
        if i > 0 {
            append_str(&mut out, " ");
        }
        append_str(&mut out, v[i].as_str());
        proof {
            reveal_strlit(" ");
            let next = strs(v@.subrange(0, i + 1));
            assert(next.drop_last() =~= prev);
            assert(next.last() == v@[i as int]@);
            if i == 0 {
                assert(next.len() == 1);
            }
        }
        i = i + 1;
    }
    assert(v@.subrange(0, v@.len() as int) =~= v@);
    out
}

fn push_flag(args: &mut Vec<String>, flag: &str, value: &String)
    ensures
        strs(final(args)@) == strs(old(args)@) + seq![flag@, value@],
{
    args.push(flag.to_string());
    args.push(value.clone());
    assert(strs(final(args)@) =~= strs(old(args)@) + seq![flag@, value@]);
}

fn push_opt_flag(args: &mut Vec<String>, flag: &str, value: &Option<String>)
    ensures
        strs(final(args)@) == strs(old(args)@) + opt_flag(flag@, opt_str(*value)),
{
    match value {
        Some(v) => push_flag(args, flag, v),
        None => {
            assert(strs(old(args)@) + opt_flag(flag@, opt_str(*value)) =~= strs(old(args)@));
        },
    }
}

fn push_tools_flag(args: &mut Vec<String>, flag: &str, value: &Option<Vec<String>>)
    ensures
        strs(final(args)@) == strs(old(args)@) + tools_flag(flag@, opt_strs(*value)),
{
    match value {
        Some(t) => {
            if t.len() > 0 {
                let j = join_spaces(t);
                push_flag(args, flag, &j);
            } else {
                assert(strs(old(args)@) + tools_flag(flag@, opt_strs(*value)) =~= strs(old(args)@));
            }
        },
        None => {
            assert(strs(old(args)@) + tools_flag(flag@, opt_strs(*value)) =~= strs(old(args)@));
        },
    }
}

fn push_str_arg(args: &mut Vec<String>, a: &str)
    ensures
        strs(final(args)@) == strs(old(args)@).push(a@),
{
    args.push(a.to_string());
    assert(strs(final(args)@) =~= strs(old(args)@).push(a@));
}

impl ClaudeExecutor {
    /// The argument list of the reasoning-model process for a request.
    pub fn build_args(req: &ChatCompletionRequest, resolved: &ResolvedProject) -> (r: Vec<String>)
        ensures
            strs(r@) == args_of(*req, *resolved),
    {
        let mut args: Vec<String> = Vec::new();
        push_str_arg(&mut args, "--print");
        push_str_arg(&mut args, "--output-format");
        push_str_arg(&mut args, "json");
        let ghost a0 = strs(args@);
        push_opt_flag(&mut args, "--model", &req.model);
        push_opt_flag(&mut args, "--fallback-model", &req.fallback_model);
        push_tools_flag(&mut args, "--allowed-tools", &resolved.allowed_tools);
        push_tools_flag(&mut args, "--disallowed-tools", &resolved.disallowed_tools);
        push_str_arg(&mut args, "--permission-mode");
        push_str_arg(&mut args, "dontAsk");
        let system_prompt = match &req.system_prompt {
            Some(p) => Some(p.clone()),
            None => resolved.system_prompt.clone(),
        };
        push_opt_flag(&mut args, "--append-system-prompt", &system_prompt);
        push_opt_flag(&mut args, "--session-id", &req.session_id);
        let ghost before_continue = strs(args@);
        if req.continue_session == Some(true) {
            push_str_arg(&mut args, "--continue");
        }
        assert(strs(args@) == before_continue + (if req.continue_session == Some(true) { seq!["--continue"@] } else { Seq::<Seq<char>>::empty() }));
        push_opt_flag(&mut args, "--resume", &req.resume_session_id);
        let ghost before_dirs = strs(args@);
        match &req.add_dirs {
            Some(dirs) => {
                let mut i: usize = 0;
                while i < dirs.len()
                    invariant
                        i <= dirs@.len(),
                        strs(args@) == before_dirs + dir_flags(strs(dirs@.subrange(0, i as int))),
                    decreases dirs@.len() - i,
                {
                    push_flag(&mut args, "--add-dir", &dirs[i]);
                    proof {
                        reveal_strlit("--add-dir");
                        let next = strs(dirs@.subrange(0, i + 1));
                        assert(next.drop_last() =~= strs(dirs@.subrange(0, i as int)));
                        assert(next.last() == dirs@[i as int]@);
                    }
                    i = i + 1;
                }
                assert(dirs@.subrange(0, dirs@.len() as int) =~= dirs@);
            },
            None => {
                assert(before_dirs + dir_flags(Seq::empty()) =~= before_dirs);
            },
        }
        push_opt_flag(&mut args, "--mcp-config", &req.mcp_config);
        push_opt_flag(&mut args, "--agents", &req.agents);
        push_str_arg(&mut args, req.user_message.as_str());
        proof {
            reveal_strlit("--print");
            reveal_strlit("--output-format");
            reveal_strlit("json");
            reveal_strlit("--permission-mode");
            reveal_strlit("dontAsk");
            reveal_strlit("--continue");
        }
        assert(strs(args@) =~= args_of(*req, *resolved));
        args
    }
}

/// What is handed to the process runner.
#[derive(Debug)]
pub struct ExecutionPlan {
    pub working_dir: String,
    pub args: Vec<String>,
    /// Seconds.
    pub timeout: u64,
}

/// How a run of the process ended.
#[derive(Debug)]
pub enum ProcessOutcome {
    /// The process exited, with or without success, and this is what it wrote.
    Exited { success: bool, stdout: String, stderr: String },
    /// The process could not be started.
    SpawnFailed(String),
    /// The deadline passed and the process was terminated.
    TimedOut,
}

/// What the process's structured output says, where its standard output
/// parsed as such.
#[derive(Debug, Clone)]
pub struct CliSummary {
    pub is_error: bool,
    pub result: String,
}

/// The terminal state of one execution.
#[derive(Debug)]
pub struct ExecutionOutcome {
    pub status: ExecutionStatus,
    pub result: Option<String>,
    pub error: Option<ErrorInfo>,
    /// The structured output was parsed and is to be handed on.
    pub structured: bool,
}

/// The error `code: message`.
pub open spec fn is_error(e: Option<ErrorInfo>, code: Seq<char>, message: Seq<char>) -> bool {
    e matches Some(info) && info.code@ == code && info.message@ == message
}

impl ClaudeExecutor {
    /// What to run for a request, or the `invalid_working_dir` error where the
    /// resolved working directory does not exist; then no process is started.
    pub fn plan_execution(req: &ChatCompletionRequest, resolved: &ResolvedProject, dir_exists: bool) -> (r: Result<ExecutionPlan, ErrorInfo>)
        ensures
            dir_exists ==> (r matches Ok(p) && p.working_dir@ == resolved.working_dir@
                && strs(p.args@) == args_of(*req, *resolved)
                && p.timeout == (match req.timeout { Some(t) => t, None => DEFAULT_TIMEOUT_SECS })),
            !dir_exists ==> (r matches Err(e) && e.code@ == "invalid_working_dir"@
                && e.message@ == "Working directory does not exist: "@ + resolved.working_dir@),
    {
        if !dir_exists {
            let mut message = String::from_str("Working directory does not exist: ");
            append_str(&mut message, resolved.working_dir.as_str());
            proof {
                reveal_strlit("invalid_working_dir");
                reveal_strlit("Working directory does not exist: ");
            }
            return Err(ErrorInfo { code: String::from_str("invalid_working_dir"), message });
        }
        let timeout = match req.timeout {
            Some(t) => t,
            None => DEFAULT_TIMEOUT_SECS,
        };
        Ok(ExecutionPlan { working_dir: resolved.working_dir.clone(), args: Self::build_args(req, resolved), timeout })
    }

    /// The terminal state of a run: `Timeout` with no result on a passed
    /// deadline; `Failed` with `spawn_failed` where the process did not start;
    /// `Failed` with `execution_failed` on an unsuccessful exit, with the
    /// structured error's text where the output holds one, else standard
    /// error; `Completed` on success, with the structured result where the
    /// output parsed, else the raw standard output.
    pub fn interpret_outcome(outcome: ProcessOutcome, parsed: Option<CliSummary>, timeout: u64) -> (r: ExecutionOutcome)
        ensures
            match outcome {
                ProcessOutcome::TimedOut => {
                    &&& r.status == ExecutionStatus::Timeout
                    &&& r.result is None
                    &&& !r.structured
                    &&& is_error(r.error, "timeout"@, "Execution timed out after "@ + decimal(timeout as nat) + "s"@)
                },
                ProcessOutcome::SpawnFailed(e) => {
                    &&& r.status == ExecutionStatus::Failed
                    &&& r.result is None
                    &&& !r.structured
                    &&& is_error(r.error, "spawn_failed"@, "Failed to spawn the model process: "@ + e@)
                },
                ProcessOutcome::Exited { success, stdout, stderr } => if success {
                    &&& r.status == ExecutionStatus::Completed
                    &&& r.error is None
                    &&& match parsed {
                        Some(p) => r.result matches Some(t) && t@ == p.result@ && r.structured,
                        None => r.result matches Some(t) && t@ == stdout@ && !r.structured,
                    }
                } else {
                    &&& r.status == ExecutionStatus::Failed
                    &&& r.result is None
                    &&& !r.structured
                    &&& is_error(r.error, "execution_failed"@, match parsed {
                        Some(p) => if p.is_error { p.result@ } else { stderr@ },
                        None => stderr@,
                    })
                },
            },
    {
        match outcome {
            ProcessOutcome::TimedOut => {
                let mut message = String::from_str("Execution timed out after ");
                push_decimal(&mut message, timeout);
                append_str(&mut message, "s");
                proof {
                    reveal_strlit("timeout");
                    reveal_strlit("Execution timed out after ");
                    reveal_strlit("s");
                }
                ExecutionOutcome {
                    status: ExecutionStatus::Timeout,
                    result: None,
                    error: Some(ErrorInfo { code: String::from_str("timeout"), message }),
                    structured: false,
                }
            },
            ProcessOutcome::SpawnFailed(e) => {
                let mut message = String::from_str("Failed to spawn the model process: ");
                append_str(&mut message, e.as_str());
                proof {
                    reveal_strlit("spawn_failed");
                    reveal_strlit("Failed to spawn the model process: ");
                }
                ExecutionOutcome {
                    status: ExecutionStatus::Failed,
                    result: None,
                    error: Some(ErrorInfo { code: String::from_str("spawn_failed"), message }),
                    structured: false,
                }
            },
            ProcessOutcome::Exited { success, stdout, stderr } => {
                if success {
                    match parsed {
                        Some(p) => ExecutionOutcome {
                            status: ExecutionStatus::Completed,
                            result: Some(p.result),
                            error: None,
                            structured: true,
                        },
                        None => ExecutionOutcome {
                            status: ExecutionStatus::Completed,
                            result: Some(stdout),
                            error: None,
                            structured: false,
                        },
                    }
                } else {
                    let message = match parsed {
                        Some(p) => if p.is_error { p.result } else { stderr },
                        None => stderr,
                    };
                    proof {
                        reveal_strlit("execution_failed");
                    }
                    ExecutionOutcome {
                        status: ExecutionStatus::Failed,
                        result: None,
                        error: Some(ErrorInfo { code: String::from_str("execution_failed"), message }),
                        structured: false,
                    }
                }
            },
        }
    }
}

} // verus!
