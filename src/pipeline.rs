use vstd::prelude::*;
use vstd::string::StrSliceExecFns;
use vstd::string::StringExecFns;
use crate::executor::{clone_strings, opt_str, opt_strs, strs, ChatCompletionRequest};
use crate::text::{append_str, push_signed_decimal, signed_decimal, str_eq};
use crate::types::{ConversationItem, UserContext};
use crate::ratelimit::{check_outcome, surely_admitted, RateLimitState};
use crate::types::{Agent, ApiError, ErrorCode, Project, RateLimitError};

verus! {

/// The characters of an optional string slice.
pub open spec fn str_opt(s: Option<&str>) -> Option<Seq<char>> {
    match s {
        Some(t) => Some(t@),
        None => None,
    }
}

/// `s` is given and not empty.
pub open spec fn present(s: Option<Seq<char>>) -> bool {
    s matches Some(t) && t.len() > 0
}

/// The text of a present string.
pub open spec fn text_of(s: Option<Seq<char>>) -> Seq<char> {
    match s {
        Some(t) => t,
        None => Seq::empty(),
    }
}

/// The message handed to the model: the bare user message where there is
/// neither instruction nor user context; else tagged sections for the
/// instruction, the context and the request, followed by a guide that names
/// the sections present, all separated by blank lines.
pub open spec fn structured_message_of(instruction: Option<Seq<char>>, user_context: Option<Seq<char>>, user_message: Seq<char>) -> Seq<char> {
    let has_i = present(instruction);
    let has_c = present(user_context);
    if !has_i && !has_c {
        user_message
    } else {
        (if has_i {
            "<task_instruction>\n"@ + text_of(instruction) + "\n</task_instruction>\n\n"@
        } else {
            Seq::empty()
        }) + (if has_c {
            "<user_context>\n"@ + text_of(user_context) + "\n</user_context>\n\n"@
        } else {
            Seq::empty()
        }) + "<user_request>\n"@ + user_message + "\n</user_request>\n\n"@
            + "Process the structured request above:"@
            + (if has_i { "\n- <task_instruction>: Task guidelines."@ } else { Seq::empty() })
            + (if has_c { "\n- <user_context>: User rules and recent activity. [Detail: URL] links can be fetched via WebFetch for full response details when context is needed."@ } else { Seq::empty() })
            + "\n- <user_request>: The request to fulfill."@
    }
}

/// Assembles the message handed to the model; see `structured_message_of`.
pub fn format_structured_message(instruction: Option<&str>, user_context: Option<&str>, user_message: &str) -> (r: String)
    ensures
        r@ == structured_message_of(str_opt(instruction), str_opt(user_context), user_message@),
{
    let has_i = match instruction {
        Some(t) => t.unicode_len() > 0,
        None => false,
    };
    let has_c = match user_context {
        Some(t) => t.unicode_len() > 0,
        None => false,
    };
    if !has_i && !has_c {
        return user_message.to_string();
    }
    let mut r = String::new();
    if has_i {
        append_str(&mut r, "<task_instruction>\n");
        append_str(&mut r, instruction.unwrap());
        append_str(&mut r, "\n</task_instruction>\n\n");
    }
    let ghost after_i = r@;
    if has_c {
        append_str(&mut r, "<user_context>\n");
        append_str(&mut r, user_context.unwrap());
        append_str(&mut r, "\n</user_context>\n\n");
    }
    let ghost after_c = r@;
    append_str(&mut r, "<user_request>\n");
    append_str(&mut r, user_message);
    append_str(&mut r, "\n</user_request>\n\n");
    append_str(&mut r, "Process the structured request above:");
    if has_i {
        append_str(&mut r, "\n- <task_instruction>: Task guidelines.");
    }
    if has_c {
        append_str(&mut r, "\n- <user_context>: User rules and recent activity. [Detail: URL] links can be fetched via WebFetch for full response details when context is needed.");
    }
    append_str(&mut r, "\n- <user_request>: The request to fulfill.");
    assert(r@ =~= structured_message_of(str_opt(instruction), str_opt(user_context), user_message@));
    r
}

/// At most `max` characters of `s`, with `...` appended where some were cut.
pub open spec fn truncated(s: Seq<char>, max: nat) -> Seq<char> {
    if max == 0 {
        Seq::empty()
    } else if s.len() <= max {
        s
    } else {
        s.subrange(0, max as int) + "..."@
    }
}

/// Cuts `s` to at most `max` characters, marking a cut with `...`.
pub fn truncate(s: &str, max: usize) -> (r: String)
    ensures
        r@ == truncated(s@, max as nat),
{
    if max == 0 {
        return String::new();
    }
    if s.unicode_len() <= max {
        return s.to_string();
    }
    let mut r = s.substring_char(0, max).to_string();
    append_str(&mut r, "...");
    r
}

/// The agent's tools followed by the tenant's tools that the agent does not
/// list already.
pub open spec fn merged_tools(agent: Seq<Seq<char>>, project: Seq<Seq<char>>) -> Seq<Seq<char>>
    decreases project.len(),
{
    if project.len() == 0 {
        agent
    } else {
        let prev = merged_tools(agent, project.drop_last());
        if prev.contains(project.last()) {
            prev
        } else {
            prev.push(project.last())
        }
    }
}

fn contains_string(v: &Vec<String>, t: &String) -> (r: bool)
    ensures
        r == strs(v@).contains(t@),
{
    let mut i: usize = 0;
    while i < v.len()
        invariant
            i <= v@.len(),
            forall|j: int| 0 <= j < i ==> strs(v@)[j] != t@,
        decreases v@.len() - i,
    {
        if str_eq(v[i].as_str(), t.as_str()) {
            assert(strs(v@)[i as int] == t@);
            return true;
        }
        i = i + 1;
    }
    false
}

/// The agent's tools with the tenant's tools added after them, each once.
pub fn merge_tools(agent: &Vec<String>, project: &Vec<String>) -> (r: Vec<String>)
    ensures
        strs(r@) == merged_tools(strs(agent@), strs(project@)),
{
    let mut merged = clone_strings(agent);
    let mut i: usize = 0;
    while i < project.len()
        invariant
            i <= project@.len(),
            strs(merged@) == merged_tools(strs(agent@), strs(project@.subrange(0, i as int))),
        decreases project@.len() - i,
    {
        let ghost sub = strs(project@.subrange(0, i + 1));
        assert(sub.drop_last() =~= strs(project@.subrange(0, i as int)));
        if !contains_string(&merged, &project[i]) {
            let ghost before = merged@;
            merged.push(project[i].clone());
            assert(strs(merged@) =~= strs(before).push(project@[i as int]@));
        }
        i = i + 1;
    }
    assert(project@.subrange(0, project@.len() as int) =~= project@);
    merged
}

/// The fields that `apply_agent` and `apply_project` leave alone are equal.
pub open spec fn same_request_core(a: ChatCompletionRequest, b: ChatCompletionRequest) -> bool {
    &&& a.user_message == b.user_message
    &&& a.project == b.project
    &&& a.requester == b.requester
    &&& a.source == b.source
    &&& a.agent == b.agent
    &&& a.metadata == b.metadata
    &&& a.fallback_model == b.fallback_model
    &&& a.session_id == b.session_id
    &&& a.continue_session == b.continue_session
    &&& a.resume_session_id == b.resume_session_id
    &&& a.add_dirs == b.add_dirs
    &&& a.mcp_config == b.mcp_config
    &&& a.agents == b.agents
}

/// The request's instruction after an agent's instruction is put before it.
pub open spec fn instruction_with_agent(agent_instruction: Option<String>, own: Option<String>) -> Option<Seq<char>> {
    match agent_instruction {
        Some(ai) => match own {
            Some(ri) => Some(ai@ + "\n\n"@ + ri@),
            None => Some(ai@),
        },
        None => opt_str(own),
    }
}

/// Applies the named agent to a request: its instruction goes before the
/// request's own, separated by a blank line; its model and (where positive)
/// its timeout apply where the request names none. Gives back the agent's
/// tools and whether it runs isolated.
pub fn apply_agent(req: &mut ChatCompletionRequest, agent: &Agent) -> (r: (Option<Vec<String>>, bool))
    ensures
        same_request_core(*final(req), *old(req)),
        opt_str(final(req).instruction) == instruction_with_agent(agent.instruction, old(req).instruction),
        opt_str(final(req).model) == (match old(req).model {
            Some(m) => Some(m@),
            None => Some(agent.model@),
        }),
        final(req).timeout == (if old(req).timeout is None && agent.timeout > 0 {
            Some(agent.timeout as u64)
        } else {
            old(req).timeout
        }),
        final(req).allowed_tools == old(req).allowed_tools,
        final(req).disallowed_tools == old(req).disallowed_tools,
        final(req).system_prompt == old(req).system_prompt,
        final(req).working_dir == old(req).working_dir,
        opt_strs(r.0) == opt_strs(agent.tools),
        r.1 == agent.isolated,
{
    match &agent.instruction {
        Some(ai) => {
            let merged = match &req.instruction {
                Some(ri) => {
                    let mut m = ai.clone();
                    append_str(&mut m, "\n\n");
                    append_str(&mut m, ri.as_str());
                    m
                },
                None => ai.clone(),
            };
            req.instruction = Some(merged);
        },
        None => {},
    }
    if req.model.is_none() {
        req.model = Some(agent.model.clone());
    }
    if req.timeout.is_none() && agent.timeout > 0 {
        req.timeout = Some(agent.timeout as u64);
    }
    let tools = match &agent.tools {
        Some(t) => Some(clone_strings(t)),
        None => None,
    };
    (tools, agent.isolated)
}

/// The allowed tools of a request that names none: the agent's and the
/// tenant's merged, or whichever of them is given.
pub open spec fn tools_with_project(agent: Option<Seq<Seq<char>>>, project: Option<Seq<Seq<char>>>) -> Option<Seq<Seq<char>>> {
    match (agent, project) {
        (Some(a), Some(p)) => Some(merged_tools(a, p)),
        (Some(a), None) => Some(a),
        (None, Some(p)) => Some(p),
        (None, None) => None,
    }
}

/// Applies the tenant's defaults to what the request leaves open: working
/// directory (the sandbox where the agent runs isolated), allowed tools,
/// disallowed tools and system prompt.
pub fn apply_project(
    req: &mut ChatCompletionRequest,
    project: &Project,
    agent_tools: Option<Vec<String>>,
    isolated: bool,
    isolated_dir: &str,
)
    ensures
        same_request_core(*final(req), *old(req)),
        final(req).instruction == old(req).instruction,
        final(req).model == old(req).model,
        final(req).timeout == old(req).timeout,
        opt_str(final(req).working_dir) == (match old(req).working_dir {
            Some(d) => Some(d@),
            None => Some(if isolated { isolated_dir@ } else { project.working_dir@ }),
        }),
        opt_strs(final(req).allowed_tools) == (match old(req).allowed_tools {
            Some(t) => Some(strs(t@)),
            None => tools_with_project(opt_strs(agent_tools), opt_strs(project.allowed_tools)),
        }),
        opt_strs(final(req).disallowed_tools) == (match old(req).disallowed_tools {
            Some(t) => Some(strs(t@)),
            None => opt_strs(project.disallowed_tools),
        }),
        opt_str(final(req).system_prompt) == (match old(req).system_prompt {
            Some(p) => Some(p@),
            None => opt_str(project.system_prompt),
        }),
{
    if req.working_dir.is_none() {
        if isolated {
            req.working_dir = Some(isolated_dir.to_string());
        } else {
            req.working_dir = Some(project.working_dir.clone());
        }
    }
    if req.allowed_tools.is_none() {
        let merged = match (&agent_tools, &project.allowed_tools) {
            (Some(a), Some(p)) => Some(merge_tools(a, p)),
            (Some(a), None) => Some(clone_strings(a)),
            (None, Some(p)) => Some(clone_strings(p)),
            (None, None) => None,
        };
        req.allowed_tools = merged;
    }
    if req.disallowed_tools.is_none() {
        req.disallowed_tools = match &project.disallowed_tools {
            Some(t) => Some(clone_strings(t)),
            None => None,
        };
    }
    if req.system_prompt.is_none() {
        req.system_prompt = project.system_prompt.clone();
    }
}

/// A timestamp as `YYYY-MM-DD HH:MM` in UTC, as chrono formats it; `None`
/// where chrono has no date for it.
pub uninterp spec fn minute_text_of(ts: i64) -> Option<Seq<char>>;

/// Relies on chrono::DateTime::from_timestamp and its `format`: the UTC
/// date and time of a timestamp, to the minute.
#[verifier::external_body]
fn minute_text(ts: i64) -> (r: Option<String>)
    ensures
        opt_str(r) == minute_text_of(ts),
{
    chrono::DateTime::from_timestamp(ts, 0).map(|dt| dt.format("%Y-%m-%d %H:%M").to_string())
}

/// How an exchange's time is shown: date and minute, or the bare number.
pub open spec fn stamp_of(ts: i64) -> Seq<char> {
    match minute_text_of(ts) {
        Some(t) => t,
        None => signed_decimal(ts as int),
    }
}

/// The lines of the rules, each as `- rule`, joined by newlines.
pub open spec fn rule_lines(rules: Seq<String>) -> Seq<char>
    decreases rules.len(),
{
    if rules.len() == 0 {
        Seq::empty()
    } else if rules.len() == 1 {
        "- "@ + rules[0]@
    } else {
        rule_lines(rules.drop_last()) + "\n- "@ + rules.last()@
    }
}

/// One recent exchange: its time, its message, a link to its detail, and the
/// response (cut to 500 characters) where it got negative feedback.
pub open spec fn exchange_text(c: ConversationItem, base_url: Seq<char>) -> Seq<char> {
    "### "@ + stamp_of(c.created_at) + "\n"@ + c.user_message@ + "\n[Detail: "@ + base_url
        + "/v1/executions/"@ + c.id@ + "]"@ + (if c.has_negative_feedback && c.response is Some {
        "\n**[Negative feedback]**\n"@ + truncated(c.response->0@, 500)
    } else {
        Seq::empty()
    })
}

/// The recent exchanges, separated by blank lines.
pub open spec fn exchanges_text(cs: Seq<ConversationItem>, base_url: Seq<char>) -> Seq<char>
    decreases cs.len(),
{
    if cs.len() == 0 {
        Seq::empty()
    } else if cs.len() == 1 {
        exchange_text(cs[0], base_url)
    } else {
        exchanges_text(cs.drop_last(), base_url) + "\n\n"@ + exchange_text(cs.last(), base_url)
    }
}

/// The user context handed to the model: today's date, the user's name,
/// the summary, the rules and the recent exchanges, each part present only
/// where it has content, separated by blank lines.
pub open spec fn user_context_text(ctx: UserContext, user_name: Option<&str>, today: Seq<char>, base_url: Seq<char>) -> Seq<char> {
    "**Today**: "@ + today
        + (match user_name { Some(n) => "\n\n**User**: "@ + n@, None => Seq::empty() })
        + (match ctx.summary {
            Some(s) => if s@.len() > 0 { "\n\n## Summary\n"@ + s@ } else { Seq::empty() },
            None => Seq::empty(),
        })
        + (if ctx.rules@.len() > 0 {
            "\n\n## Rules (overridden by Recent Requests below)\n"@ + rule_lines(ctx.rules@)
        } else {
            Seq::empty()
        })
        + (if ctx.recent_conversations@.len() > 0 {
            "\n\n## Recent Requests\n\n"@ + exchanges_text(ctx.recent_conversations@, base_url)
        } else {
            Seq::empty()
        })
}

fn push_exchange(out: &mut String, c: &ConversationItem, base_url: &str)
    ensures
        final(out)@ == old(out)@ + exchange_text(*c, base_url@),
{
    append_str(out, "### ");
    match minute_text(c.created_at) {
        Some(t) => append_str(out, t.as_str()),
        None => push_signed_decimal(out, c.created_at),
    }
    append_str(out, "\n");
    append_str(out, c.user_message.as_str());
    append_str(out, "\n[Detail: ");
    append_str(out, base_url);
    append_str(out, "/v1/executions/");
    append_str(out, c.id.as_str());
    append_str(out, "]");
    if c.has_negative_feedback {
        match &c.response {
            Some(resp) => {
                append_str(out, "\n**[Negative feedback]**\n");
                let t = truncate(resp.as_str(), 500);
                append_str(out, t.as_str());
            },
            None => {},
        }
    }
    assert(final(out)@ =~= old(out)@ + exchange_text(*c, base_url@));
}

fn push_rules(out: &mut String, rules: &Vec<String>)
    ensures
        final(out)@ == old(out)@ + rule_lines(rules@),
{
    let mut i: usize = 0;
    let ghost head = out@;
    while i < rules.len()
        invariant
            i <= rules@.len(),
            head == old(out)@,
            out@ == head + rule_lines(rules@.subrange(0, i as int)),
        decreases rules@.len() - i,
    {
        let ghost sub = rules@.subrange(0, i + 1);
        assert(sub.drop_last() =~= rules@.subrange(0, i as int));
        if i > 0 {
            append_str(out, "\n- ");
        } else {
            append_str(out, "- ");
        }
        append_str(out, rules[i].as_str());
        i = i + 1;
    }
    assert(rules@.subrange(0, rules@.len() as int) =~= rules@);
}

fn push_exchanges(out: &mut String, cs: &Vec<ConversationItem>, base_url: &str)
    ensures
        final(out)@ == old(out)@ + exchanges_text(cs@, base_url@),
{
    let mut i: usize = 0;
    let ghost head = out@;
    while i < cs.len()
        invariant
            i <= cs@.len(),
            head == old(out)@,
            out@ == head + exchanges_text(cs@.subrange(0, i as int), base_url@),
        decreases cs@.len() - i,
    {
        let ghost sub = cs@.subrange(0, i + 1);
        assert(sub.drop_last() =~= cs@.subrange(0, i as int));
        if i > 0 {
            append_str(out, "\n\n");
        }
        push_exchange(out, &cs[i], base_url);
        i = i + 1;
    }
    assert(cs@.subrange(0, cs@.len() as int) =~= cs@);
}

/// Formats a user's context for the model; `today` is the current date as
/// `YYYY-MM-DD` and `base_url` the server's address for detail links.
pub fn format_user_context(ctx: &UserContext, user_name: Option<&str>, today: &str, base_url: &str) -> (r: String)
    ensures
        r@ == user_context_text(*ctx, user_name, today@, base_url@),
{
    let mut out = String::from_str("**Today**: ");
    append_str(&mut out, today);
    match user_name {
        Some(n) => {
            append_str(&mut out, "\n\n**User**: ");
            append_str(&mut out, n);
        },
        None => {},
    }
    match &ctx.summary {
        Some(s) => {
            if s.unicode_len() > 0 {
                append_str(&mut out, "\n\n## Summary\n");
                append_str(&mut out, s.as_str());
            }
        },
        None => {},
    }
    if ctx.rules.len() > 0 {
        append_str(&mut out, "\n\n## Rules (overridden by Recent Requests below)\n");
        push_rules(&mut out, &ctx.rules);
    }
    if ctx.recent_conversations.len() > 0 {
        append_str(&mut out, "\n\n## Recent Requests\n\n");
        push_exchanges(&mut out, &ctx.recent_conversations, base_url);
    }
    assert(out@ =~= user_context_text(*ctx, user_name, today@, base_url@));
    out
}

/// The caller-facing outcome of an admission check: a refused check is the
/// `RateLimited` error, which the caller can tell apart from an execution
/// failure.
pub fn admission_result(check: Result<(), RateLimitError>, project_id: &str) -> (r: Result<(), ApiError>)
    ensures
        r is Err <==> check is Err,
        r matches Err(e) ==> e.code == ErrorCode::RateLimited && e.status_code == 429
            && e.message@ == "Rate limit exceeded for project '"@ + project_id@ + "'"@,
{
    match check {
        Ok(()) => Ok(()),
        Err(_) => Err(ApiError::rate_limit(project_id)),
    }
}

/// Admission of a request of a tenant: a known tenant's quota is checked
/// (see `RateLimitState::check`), and the request is refused with
/// `RateLimited` exactly where the check refuses it. An unknown tenant is
/// admitted without a check.
pub fn admission_check(state: &mut RateLimitState, project_id: &str, project: Option<&Project>) -> (r: Result<(), ApiError>)
    requires
        old(state).wf(),
        old(state).clock() < u64::MAX,
    ensures
        final(state).wf(),
        final(state).capacity() == old(state).capacity(),
        match project {
            Some(p) => {
                &&& final(state)@ == check_outcome(old(state)@, project_id@, p.rate_limit_rpm, old(state).clock(), old(state).capacity(), r is Ok)
                &&& (surely_admitted(old(state)@, project_id@, p.rate_limit_rpm, old(state).clock(), old(state).capacity()) ==> r is Ok)
            },
            None => final(state)@ == old(state)@ && r is Ok,
        },
        r matches Err(e) ==> e.code == ErrorCode::RateLimited && e.status_code == 429
            && e.message@ == "Rate limit exceeded for project '"@ + project_id@ + "'"@,
{
    match project {
        Some(p) => {
            let outcome = state.check(project_id, p.rate_limit_rpm);
            admission_result(outcome, project_id)
        },
        None => Ok(()),
    }
}

/// Prepares a chat request for execution: applies the named agent (where
/// found) and the tenant's defaults (where the tenant is known), folds the
/// instruction and the user context into the structured message, and names
/// the tenant. Gives back the instruction as it stood before the folding.
pub fn prepare_chat(
    req: &mut ChatCompletionRequest,
    project_id: &str,
    agent: Option<&Agent>,
    project: Option<&Project>,
    isolated_dir: &str,
    user_context: Option<&str>,
) -> (instruction: Option<String>)
    ensures
        opt_str(instruction) == (match agent {
            Some(a) => instruction_with_agent(a.instruction, old(req).instruction),
            None => opt_str(old(req).instruction),
        }),
        final(req).user_message@ == structured_message_of(opt_str(instruction), str_opt(user_context), old(req).user_message@),
        final(req).instruction is None,
        opt_str(final(req).model) == (match (agent, old(req).model) {
            (_, Some(m)) => Some(m@),
            (Some(a), None) => Some(a.model@),
            (None, None) => None,
        }),
        final(req).timeout == (match agent {
            Some(a) => if old(req).timeout is None && a.timeout > 0 { Some(a.timeout as u64) } else { old(req).timeout },
            None => old(req).timeout,
        }),
        opt_str(final(req).working_dir) == (match (project, old(req).working_dir) {
            (_, Some(d)) => Some(d@),
            (Some(p), None) => Some(if agent matches Some(a) && a.isolated { isolated_dir@ } else { p.working_dir@ }),
            (None, None) => None,
        }),
        opt_strs(final(req).allowed_tools) == (match (project, old(req).allowed_tools) {
            (_, Some(t)) => Some(strs(t@)),
            (Some(p), None) => tools_with_project(
                match agent { Some(a) => opt_strs(a.tools), None => None },
                opt_strs(p.allowed_tools),
            ),
            (None, None) => None,
        }),
        opt_strs(final(req).disallowed_tools) == (match (project, old(req).disallowed_tools) {
            (_, Some(t)) => Some(strs(t@)),
            (Some(p), None) => opt_strs(p.disallowed_tools),
            (None, None) => None,
        }),
        opt_str(final(req).system_prompt) == (match (project, old(req).system_prompt) {
            (_, Some(sp)) => Some(sp@),
            (Some(p), None) => opt_str(p.system_prompt),
            (None, None) => None,
        }),
        opt_str(final(req).project) == Some(project_id@),
        final(req).requester == old(req).requester,
        final(req).source == old(req).source,
        final(req).agent == old(req).agent,
{
    let mut tools: Option<Vec<String>> = None;
    let mut isolated = false;
    match agent {
        Some(a) => {
            let (t, iso) = apply_agent(req, a);
            tools = t;
            isolated = iso;
        },
        None => {},
    }
    match project {
        Some(p) => apply_project(req, p, tools, isolated, isolated_dir),
        None => {},
    }
    let snapshot = req.instruction.clone();
    let message = match &req.instruction {
        Some(i) => format_structured_message(Some(i.as_str()), user_context, req.user_message.as_str()),
        None => format_structured_message(None, user_context, req.user_message.as_str()),
    };
    req.user_message = message;
    req.instruction = None;
    req.project = Some(project_id.to_string());
    snapshot
}

} // verus!
