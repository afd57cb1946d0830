use vstd::prelude::*;
use vstd::string::StringExecFns;
use crate::pattern::{rule_matches, PatternCache};
use crate::text::{
    append_str, chars_of, contains_chars, contains_seq, lower_of, lowercase, push_signed_decimal,
    push_two_decimals, str_eq,
};
use crate::executor::{clone_strings, opt_str, opt_strs, ChatCompletionRequest};
use crate::types::{Agent, ClassifySettings, ExecutionStatus};

verus! {

/// Confidence of a keyword match, in millionths.
pub const KEYWORD_CONFIDENCE: u32 = 950_000;

/// Confidence of a model-assisted match, in millionths.
pub const MODEL_CONFIDENCE: u32 = 800_000;

/// Confidence of the fallback answer, in millionths.
pub const FALLBACK_CONFIDENCE: u32 = 500_000;

/// Confidence one, in millionths: the cap of every score.
pub const FULL_CONFIDENCE: u64 = 1_000_000;

/// In scan order, agent `a` comes before agent `b`: higher priority first,
/// and among equal priorities the one configured first.
pub open spec fn precedes(agents: Seq<Agent>, a: int, b: int) -> bool {
    agents[a].priority > agents[b].priority || (agents[a].priority == agents[b].priority && a
        < b)
}

/// `order` lists every agent index once, in scan order.
pub open spec fn is_ranking(agents: Seq<Agent>, order: Seq<usize>) -> bool {
    &&& order.len() == agents.len()
    &&& forall|k: int| 0 <= k < order.len() ==> (order[k] as int) < agents.len()
    &&& forall|k: int, l: int|
        0 <= k < l < order.len() ==> precedes(agents, order[k] as int, order[l] as int)
}

/// The agent at position `k` of the scan order.
pub open spec fn ranked(agents: Seq<Agent>, order: Seq<usize>, k: int) -> Agent {
    agents[order[k] as int]
}

/// The scan order of the agents: priority descending, ties in configured order.
pub fn rank_agents(agents: &Vec<Agent>) -> (order: Vec<usize>)
    ensures
        is_ranking(agents@, order@),
{
    let mut order: Vec<usize> = Vec::new();
    let mut i: usize = 0;
    while i < agents.len()
        invariant
            i <= agents@.len(),
            order@.len() == i,
            forall|k: int| 0 <= k < order@.len() ==> (order@[k] as int) < i,
            forall|k: int, l: int|
                0 <= k < l < order@.len() ==> precedes(agents@, order@[k] as int, order@[l] as int),
        decreases agents@.len() - i,
    {
        let p = agents[i].priority;
        let mut pos: usize = 0;
        while pos < order.len() && agents[order[pos]].priority >= p
            invariant
                pos <= order@.len(),
                i < agents@.len(),
                p == agents@[i as int].priority,
                forall|k: int| 0 <= k < order@.len() ==> (order@[k] as int) < i,
                forall|k: int| 0 <= k < pos ==> agents@[order@[k] as int].priority >= p,
            decreases order@.len() - pos,
        {
            pos = pos + 1;
        }
        proof {
            assert forall|k: int| pos <= k < order@.len() implies agents@[order@[k] as int].priority
                < p by {
                if agents@[order@[pos as int] as int].priority < p && pos < k {
                    assert(precedes(agents@, order@[pos as int] as int, order@[k] as int));
                }
            }
        }
        let ghost before = order@;
        order.insert(pos, i);
        proof {
            assert forall|k: int, l: int| 0 <= k < l < order@.len() implies precedes(
                agents@,
                order@[k] as int,
                order@[l] as int,
            ) by {
                assert(order@ == before.insert(pos as int, i));
                if l < pos {
                    assert(order@[l] == before[l]);
                    assert(order@[k] == before[k]);
                } else if l == pos {
                    assert(order@[k] == before[k]);
                } else if k < pos {
                    assert(order@[l] == before[l - 1]);
                    assert(order@[k] == before[k]);
                } else if k == pos {
                    assert(order@[l] == before[l - 1]);
                } else {
                    assert(order@[l] == before[l - 1]);
                    assert(order@[k] == before[k - 1]);
                }
            }
        }
        i = i + 1;
    }
    order
}

/// The outcome of a classification.
#[derive(Debug)]
pub struct ClassifyResponse {
    /// Name of the chosen agent.
    pub agent: String,
    /// The agent's instruction, unless it is a static response.
    pub instruction: Option<String>,
    pub model: Option<String>,
    pub allowed_tools: Option<Vec<String>>,
    /// Seconds.
    pub timeout: Option<u32>,
    /// The agent's instruction, where it is a static response.
    pub static_response: Option<String>,
    /// In millionths, at most one.
    pub confidence: u32,
    pub reasoning: Option<String>,
    /// `keyword`, `semantic`, `llm` or `fallback`.
    pub method: String,
    /// The rule that matched, for the keyword tier.
    pub matched_keyword: Option<String>,
    pub duration_ms: u64,
}

/// The response that names `agent`, with the classification details given.
pub fn build_response(
    agent: &Agent,
    confidence: u32,
    reasoning: Option<String>,
    method: &str,
    matched_keyword: Option<String>,
    duration_ms: u64,
) -> (r: ClassifyResponse)
    ensures
        r.agent@ == agent.name@,
        r.confidence == confidence,
        r.reasoning == reasoning,
        r.method@ == method@,
        r.matched_keyword == matched_keyword,
        r.duration_ms == duration_ms,
        r.model matches Some(m) && m@ == agent.model@,
        r.timeout == Some(agent.timeout as u32),
        opt_str(r.instruction) == (if agent.static_response { None } else { opt_str(agent.instruction) }),
        opt_str(r.static_response) == (if agent.static_response { opt_str(agent.instruction) } else { None }),
        opt_strs(r.allowed_tools) == opt_strs(agent.tools),
{
    let own = match &agent.instruction {
        Some(i) => Some(i.clone()),
        None => None,
    };
    let (instruction, static_response) = if agent.static_response {
        (None, own)
    } else {
        (own, None)
    };
    let allowed_tools = match &agent.tools {
        Some(t) => Some(clone_strings(t)),
        None => None,
    };
    ClassifyResponse {
        agent: agent.name.clone(),
        instruction,
        model: Some(agent.model.clone()),
        allowed_tools,
        timeout: Some(agent.timeout as u32),
        static_response,
        confidence,
        reasoning,
        method: method.to_string(),
        matched_keyword,
        duration_ms,
    }
}

/// The answer when no tier finds a match: the tenant's fallback agent.
pub fn build_fallback_response(settings: &ClassifySettings, duration_ms: u64) -> (r:
    ClassifyResponse)
    ensures
        is_fallback(r, settings),
        r.duration_ms == duration_ms,
{
    proof {
        reveal_strlit("No match found");
        reveal_strlit("fallback");
    }
    ClassifyResponse {
        agent: settings.fallback_agent.clone(),
        instruction: None,
        model: None,
        allowed_tools: None,
        timeout: None,
        static_response: None,
        confidence: FALLBACK_CONFIDENCE,
        reasoning: Some(String::from_str("No match found")),
        method: String::from_str("fallback"),
        matched_keyword: None,
        duration_ms,
    }
}

/// `r` is the fallback answer of the tenant.
pub open spec fn is_fallback(r: ClassifyResponse, settings: &ClassifySettings) -> bool {
    &&& r.agent@ == settings.fallback_agent@
    &&& r.confidence == FALLBACK_CONFIDENCE
    &&& r.method@ == "fallback"@
    &&& r.reasoning matches Some(t) && t@ == "No match found"@
    &&& r.matched_keyword is None
    &&& r.model is None
    &&& r.instruction is None
    &&& r.static_response is None
    &&& r.timeout is None
}

/// Rule `r` of the agent at scan position `k` matches the text.
pub open spec fn keyword_hit(agents: Seq<Agent>, order: Seq<usize>, text: Seq<char>, k: int, r: int) -> bool {
    &&& 0 <= k < order.len()
    &&& 0 <= r < ranked(agents, order, k).keywords@.len()
    &&& rule_matches(ranked(agents, order, k).keywords@[r]@, text)
}

/// Rule `r` at scan position `k` is the first hit of the whole scan: by agent
/// in scan order, then by rule in configured order.
pub open spec fn first_keyword_hit(agents: Seq<Agent>, order: Seq<usize>, text: Seq<char>, k: int, r: int) -> bool {
    &&& keyword_hit(agents, order, text, k, r)
    &&& forall|k2: int, r2: int|
        (k2 < k || (k2 == k && r2 < r)) ==> !#[trigger] keyword_hit(agents, order, text, k2, r2)
}

/// Some rule of some agent matches the text.
pub open spec fn any_keyword_hit(agents: Seq<Agent>, order: Seq<usize>, text: Seq<char>) -> bool {
    exists|k: int, r: int| #[trigger] keyword_hit(agents, order, text, k, r)
}

/// The first keyword hit of the scan, as (scan position, rule index).
pub fn keyword_scan(cache: &mut PatternCache, text: &str, agents: &Vec<Agent>, order: &Vec<usize>) -> (r: Option<(usize, usize)>)
    requires
        old(cache).wf(),
        is_ranking(agents@, order@),
    ensures
        final(cache).wf(),
        match r {
            Some((k, ri)) => first_keyword_hit(agents@, order@, text@, k as int, ri as int),
            None => !any_keyword_hit(agents@, order@, text@),
        },
{
    let lower = lowercase(text);
    let text_lower = chars_of(lower.as_str());
    let mut k: usize = 0;
    while k < order.len()
        invariant
            cache.wf(),
            is_ranking(agents@, order@),
            text_lower@ == lower_of(text@),
            k <= order@.len(),
            forall|k2: int, r2: int| k2 < k ==> !#[trigger] keyword_hit(agents@, order@, text@, k2, r2),
        decreases order@.len() - k,
    {
        let agent = &agents[order[k]];
        let mut ri: usize = 0;
        while ri < agent.keywords.len()
            invariant
                cache.wf(),
                is_ranking(agents@, order@),
                text_lower@ == lower_of(text@),
                k < order@.len(),
                *agent == ranked(agents@, order@, k as int),
                ri <= agent.keywords@.len(),
                forall|k2: int, r2: int| k2 < k ==> !#[trigger] keyword_hit(agents@, order@, text@, k2, r2),
                forall|r2: int| r2 < ri ==> !#[trigger] keyword_hit(agents@, order@, text@, k as int, r2),
            decreases agent.keywords@.len() - ri,
        {
            if cache.match_keyword(agent.keywords[ri].as_str(), text, &text_lower) {
                return Some((k, ri));
            }
            ri = ri + 1;
        }
        k = k + 1;
    }
    None
}

/// The reasoning of a keyword match: the rule and the agent it chose.
pub open spec fn keyword_reasoning(rule: Seq<char>, agent_name: Seq<char>) -> Seq<char> {
    "Matched '"@ + rule + "' → "@ + agent_name
}

/// The keyword tier: the agent of the first rule that matches, with
/// confidence 0.95 and the rule recorded verbatim.
pub fn keyword_tier(
    cache: &mut PatternCache,
    text: &str,
    agents: &Vec<Agent>,
    order: &Vec<usize>,
    duration_ms: u64,
) -> (r: Option<ClassifyResponse>)
    requires
        old(cache).wf(),
        is_ranking(agents@, order@),
    ensures
        final(cache).wf(),
        r is None <==> !any_keyword_hit(agents@, order@, text@),
        r matches Some(resp) ==> exists|k: int, ri: int| {
            &&& #[trigger] first_keyword_hit(agents@, order@, text@, k, ri)
            &&& resp.agent@ == ranked(agents@, order@, k).name@
            &&& resp.matched_keyword matches Some(m) && m@ == ranked(agents@, order@, k).keywords@[ri]@
            &&& resp.reasoning matches Some(t) && t@ == keyword_reasoning(ranked(agents@, order@, k).keywords@[ri]@, ranked(agents@, order@, k).name@)
        },
        r matches Some(resp) ==> resp.confidence == KEYWORD_CONFIDENCE && resp.method@ == "keyword"@,
{
    match keyword_scan(cache, text, agents, order) {
        Some((k, ri)) => {
            let agent = &agents[order[k]];
            let keyword = &agent.keywords[ri];
            let mut reasoning = String::from_str("Matched '");
            append_str(&mut reasoning, keyword.as_str());
            append_str(&mut reasoning, "' → ");
            append_str(&mut reasoning, agent.name.as_str());
            proof {
                reveal_strlit("keyword");
                reveal_strlit("Matched '");
                reveal_strlit("' → ");
                assert(keyword_hit(agents@, order@, text@, k as int, ri as int));
            }
            Some(
                build_response(
                    agent,
                    KEYWORD_CONFIDENCE,
                    Some(reasoning),
                    "keyword",
                    Some(keyword.clone()),
                    duration_ms,
                ),
            )
        },
        None => None,
    }
}

/// A candidate of the semantic-retrieval collaborator.
#[derive(Debug, Clone)]
pub struct SemanticMatch {
    /// Id of the agent that the matched example belongs to.
    pub agent: String,
    /// Raw similarity, in millionths.
    pub score: u32,
    pub matched_example: String,
}

/// Position `k` is the first in scan order whose agent has id `id`.
pub open spec fn first_with_id(agents: Seq<Agent>, order: Seq<usize>, id: Seq<char>, k: int) -> bool {
    &&& 0 <= k < order.len()
    &&& ranked(agents, order, k).id@ == id
    &&& forall|k2: int| 0 <= k2 < k ==> ranked(agents, order, k2).id@ != id
}

/// The raw score raised by the agent's priority: `raw * (1 + max(priority, 0) / 1000)`.
pub open spec fn adjusted_score(raw: u32, priority: i32) -> int {
    let bonus: int = if priority > 0 { priority as int } else { 0 };
    raw as int * (1000 + bonus) / 1000
}

/// Match `i` names an agent of the set, found at scan position `k`, and scores `adj`.
pub open spec fn candidate(agents: Seq<Agent>, order: Seq<usize>, matches: Seq<SemanticMatch>, i: int, k: int, adj: int) -> bool {
    &&& 0 <= i < matches.len()
    &&& first_with_id(agents, order, matches[i].agent@, k)
    &&& adj == adjusted_score(matches[i].score, ranked(agents, order, k).priority)
}

/// Match `i` is the best candidate: no candidate scores higher, and none after
/// it scores as high.
pub open spec fn best_candidate(agents: Seq<Agent>, order: Seq<usize>, matches: Seq<SemanticMatch>, i: int, k: int, adj: int) -> bool {
    &&& candidate(agents, order, matches, i, k, adj)
    &&& forall|j: int, k2: int, adj2: int|
        #[trigger] candidate(agents, order, matches, j, k2, adj2) ==> adj2 <= adj && (j > i ==> adj2 < adj)
}

/// Some match names an agent of the set.
pub open spec fn any_candidate(agents: Seq<Agent>, order: Seq<usize>, matches: Seq<SemanticMatch>) -> bool {
    exists|j: int, k: int, adj: int| #[trigger] candidate(agents, order, matches, j, k, adj)
}

/// A lone candidate that names an agent of the set is the best one, and its
/// score is the raw score raised by that agent's priority.
pub proof fn lemma_single_candidate(agents: Seq<Agent>, order: Seq<usize>, matches: Seq<SemanticMatch>, k: int)
    requires
        is_ranking(agents, order),
        matches.len() == 1,
        first_with_id(agents, order, matches[0].agent@, k),
    ensures
        any_candidate(agents, order, matches),
        best_candidate(agents, order, matches, 0, k, adjusted_score(matches[0].score, ranked(agents, order, k).priority)),
{
    let adj = adjusted_score(matches[0].score, ranked(agents, order, k).priority);
    assert(candidate(agents, order, matches, 0, k, adj));
    assert forall|j: int, k2: int, adj2: int| #[trigger] candidate(agents, order, matches, j, k2, adj2) implies adj2 <= adj && (j > 0 ==> adj2 < adj) by {
        if k2 < k {
            assert(ranked(agents, order, k2).id@ != matches[0].agent@);
        } else if k2 > k {
            assert(ranked(agents, order, k).id@ != matches[0].agent@);
        }
    }
}

/// The first scan position whose agent has the given id.
fn find_by_id(agents: &Vec<Agent>, order: &Vec<usize>, id: &str) -> (r: Option<usize>)
    requires
        is_ranking(agents@, order@),
    ensures
        match r {
            Some(k) => first_with_id(agents@, order@, id@, k as int),
            None => forall|k: int| 0 <= k < order@.len() ==> ranked(agents@, order@, k).id@ != id@,
        },
{
    let mut k: usize = 0;
    while k < order.len()
        invariant
            is_ranking(agents@, order@),
            k <= order@.len(),
            forall|k2: int| 0 <= k2 < k ==> ranked(agents@, order@, k2).id@ != id@,
        decreases order@.len() - k,
    {
        if str_eq(agents[order[k]].id.as_str(), id) {
            return Some(k);
        }
        k = k + 1;
    }
    None
}

/// The best semantic candidate, as (match index, scan position, adjusted score).
pub fn best_semantic(agents: &Vec<Agent>, order: &Vec<usize>, matches: &Vec<SemanticMatch>) -> (r: Option<(usize, usize, u64)>)
    requires
        is_ranking(agents@, order@),
    ensures
        match r {
            Some((i, k, adj)) => best_candidate(agents@, order@, matches@, i as int, k as int, adj as int),
            None => !any_candidate(agents@, order@, matches@),
        },
{
    let mut best: Option<(usize, usize, u64)> = None;
    let mut i: usize = 0;
    while i < matches.len()
        invariant
            is_ranking(agents@, order@),
            i <= matches@.len(),
            match best {
                Some((bi, bk, badj)) => {
                    &&& bi < i
                    &&& candidate(agents@, order@, matches@, bi as int, bk as int, badj as int)
                    &&& forall|j: int, k2: int, adj2: int|
                        j < i && #[trigger] candidate(agents@, order@, matches@, j, k2, adj2) ==> adj2 <= badj && (j > bi ==> adj2 < badj)
                },
                None => forall|j: int, k2: int, adj2: int|
                    j < i ==> !#[trigger] candidate(agents@, order@, matches@, j, k2, adj2),
            },
        decreases matches@.len() - i,
    {
        let m = &matches[i];
        match find_by_id(agents, order, m.agent.as_str()) {
            Some(k) => {
                let p = agents[order[k]].priority;
                let bonus: u64 = if p > 0 { p as u64 } else { 0 };
                assert((m.score as u64) * (1000 + bonus) <= 4_294_967_295u64 * 2_147_484_647u64) by (nonlinear_arith)
                    requires
                        m.score <= 4_294_967_295u32,
                        bonus <= 2_147_483_647u64,
                ;
                let adj: u64 = (m.score as u64) * (1000 + bonus) / 1000;
                assert(adj as int == adjusted_score(m.score, p)) by (nonlinear_arith)
                    requires
                        bonus as int == (if p > 0 { p as int } else { 0 }),
                        adj == (m.score as u64) * (1000 + bonus) / 1000,
                ;
                assert forall|k2: int, adj2: int| #[trigger] candidate(agents@, order@, matches@, i as int, k2, adj2) implies k2 == k && adj2 == adj by {
                    if k2 < k {
                    } else if k2 > k {
                    }
                }
                let better = match best {
                    Some((_, _, badj)) => adj >= badj,
                    None => true,
                };
                if better {
                    best = Some((i, k, adj));
                }
            },
            None => {
                assert forall|k2: int, adj2: int| !#[trigger] candidate(agents@, order@, matches@, i as int, k2, adj2) by {}
            },
        }
        i = i + 1;
    }
    best
}

/// The semantic tier: the best candidate's agent, with the adjusted score,
/// capped at one, as confidence.
pub fn semantic_tier(agents: &Vec<Agent>, order: &Vec<usize>, matches: &Vec<SemanticMatch>, duration_ms: u64) -> (r: Option<ClassifyResponse>)
    requires
        is_ranking(agents@, order@),
    ensures
        r is None <==> !any_candidate(agents@, order@, matches@),
        r matches Some(resp) ==> exists|i: int, k: int, adj: int| {
            &&& #[trigger] best_candidate(agents@, order@, matches@, i, k, adj)
            &&& resp.agent@ == ranked(agents@, order@, k).name@
            &&& resp.confidence == (if adj < FULL_CONFIDENCE { adj } else { FULL_CONFIDENCE as int })
        },
        r matches Some(resp) ==> resp.method@ == "semantic"@ && resp.matched_keyword is None,
{
    match best_semantic(agents, order, matches) {
        Some((i, k, adj)) => {
            let agent = &agents[order[k]];
            let m = &matches[i];
            let confidence: u32 = if adj < FULL_CONFIDENCE { adj as u32 } else { FULL_CONFIDENCE as u32 };
            let mut reasoning = String::from_str("Semantic match (raw: ");
            push_two_decimals(&mut reasoning, m.score as u64);
            append_str(&mut reasoning, ", adjusted: ");
            let shown: u64 = if adj < 1_000_000_000_000 { adj } else { 999_999_999_999 };
            push_two_decimals(&mut reasoning, shown);
            append_str(&mut reasoning, ", priority: ");
            push_signed_decimal(&mut reasoning, agent.priority as i64);
            append_str(&mut reasoning, ") → '");
            append_str(&mut reasoning, m.matched_example.as_str());
            append_str(&mut reasoning, "'");
            proof {
                reveal_strlit("semantic");
            }
            Some(build_response(agent, confidence, Some(reasoning), "semantic", None, duration_ms))
        },
        None => None,
    }
}

/// Agents offered to the model: those with a description, other than the fallback.
pub open spec fn listed(a: Agent, fallback: Seq<char>) -> bool {
    a.description@.len() > 0 && a.name@ != fallback
}

/// One line of the agent listing.
pub open spec fn agent_line(a: Agent) -> Seq<char> {
    "- "@ + a.name@ + ": "@ + a.description@
}

/// The listing of the first `n` agents in scan order, one line each, joined by newlines.
pub open spec fn agent_listing(agents: Seq<Agent>, order: Seq<usize>, fallback: Seq<char>, n: int) -> Seq<char>
    decreases n,
{
    if n <= 0 {
        Seq::empty()
    } else {
        let prev = agent_listing(agents, order, fallback, n - 1);
        let a = ranked(agents, order, n - 1);
        if listed(a, fallback) {
            if prev.len() == 0 {
                agent_line(a)
            } else {
                prev + "\n"@ + agent_line(a)
            }
        } else {
            prev
        }
    }
}

/// The question put to the model-assisted tier.
pub open spec fn prompt_of(text: Seq<char>, agents: Seq<Agent>, order: Seq<usize>, fallback: Seq<char>) -> Seq<char> {
    "Classify the request into the most appropriate agent.\n\nRequest: "@ + text
        + "\n\nAvailable agents:\n"@ + agent_listing(agents, order, fallback, order.len() as int)
        + "\n- "@ + fallback
        + ": General tasks not matching above categories\n\nRespond ONLY with JSON: {\"agent\": \"NAME\", \"reasoning\": \"brief reason\"}"@
}

/// The classification prompt: the request, every listed agent as
/// `name: description` in scan order, the fallback option, and the answer format.
pub fn classification_prompt(text: &str, agents: &Vec<Agent>, order: &Vec<usize>, settings: &ClassifySettings) -> (r: String)
    requires
        is_ranking(agents@, order@),
    ensures
        r@ == prompt_of(text@, agents@, order@, settings.fallback_agent@),
{
    let fallback = settings.fallback_agent.as_str();
    let mut listing = String::new();
    let mut k: usize = 0;
    while k < order.len()
        invariant
            is_ranking(agents@, order@),
            fallback@ == settings.fallback_agent@,
            k <= order@.len(),
            listing@ == agent_listing(agents@, order@, fallback@, k as int),
        decreases order@.len() - k,
    {
        let a = &agents[order[k]];
        let ghost prev = listing@;
        if a.description.unicode_len() > 0 && !str_eq(a.name.as_str(), fallback) {
            if listing.unicode_len() > 0 {
                append_str(&mut listing, "\n");
            }
            append_str(&mut listing, "- ");
            append_str(&mut listing, a.name.as_str());
            append_str(&mut listing, ": ");
            append_str(&mut listing, a.description.as_str());
            proof {
                reveal_strlit("\n");
                reveal_strlit("- ");
                reveal_strlit(": ");
                if prev.len() == 0 {
                    assert(listing@ =~= agent_line(*a));
                } else {
                    assert(listing@ =~= prev + "\n"@ + agent_line(*a));
                }
            }
        }
        k = k + 1;
    }
    let mut r = String::from_str("Classify the request into the most appropriate agent.\n\nRequest: ");
    append_str(&mut r, text);
    append_str(&mut r, "\n\nAvailable agents:\n");
    append_str(&mut r, listing.as_str());
    append_str(&mut r, "\n- ");
    append_str(&mut r, fallback);
    append_str(&mut r, ": General tasks not matching above categories\n\nRespond ONLY with JSON: {\"agent\": \"NAME\", \"reasoning\": \"brief reason\"}");
    r
}

/// The `agent` and `reasoning` fields of a JSON object, as `serde_json` reads
/// them: `None` where the text is no JSON object with a string `agent` and a
/// string, null or absent `reasoning`.
pub uninterp spec fn reply_of(json: Seq<char>) -> Option<(Seq<char>, Option<Seq<char>>)>;

/// The characters of an optional string.
pub open spec fn opt_view(o: Option<String>) -> Option<Seq<char>> {
    match o {
        Some(s) => Some(s@),
        None => None,
    }
}

/// Relies on serde_json::from_str: parses the text as one JSON value and
/// reads its `agent` and `reasoning` fields.
#[verifier::external_body]
fn parse_reply_json(json: &str) -> (r: Option<(String, Option<String>)>)
    ensures
        match r {
            Some((a, reason)) => reply_of(json@) == Some((a@, opt_view(reason))),
            None => reply_of(json@) is None,
        },
{
    let v: serde_json::Value = serde_json::from_str(json).ok()?;
    let agent = v.get("agent")?.as_str()?.to_string();
    let reasoning = match v.get("reasoning") {
        None | Some(serde_json::Value::Null) => None,
        Some(serde_json::Value::String(r)) => Some(r.clone()),
        Some(_) => return None,
    };
    Some((agent, reasoning))
}

/// `a` is the first position of `{` and `b` the last position of `}` in `s`.
pub open spec fn json_bounds(s: Seq<char>, a: int, b: int) -> bool {
    &&& 0 <= a < s.len() && s[a] == '{'
    &&& forall|j: int| 0 <= j < a ==> s[j] != '{'
    &&& 0 <= b < s.len() && s[b] == '}'
    &&& forall|j: int| b < j < s.len() ==> s[j] != '}'
}

/// The text from the first `{` to the last `}`, where the first comes before the last.
pub open spec fn json_span(s: Seq<char>) -> Option<Seq<char>> {
    if exists|a: int, b: int| json_bounds(s, a, b) && a < b {
        let (a, b) = choose|a: int, b: int| json_bounds(s, a, b) && a < b;
        Some(s.subrange(a, b + 1))
    } else {
        None
    }
}

/// Position `k` is the first in scan order whose agent is named `name`.
pub open spec fn first_with_name(agents: Seq<Agent>, order: Seq<usize>, name: Seq<char>, k: int) -> bool {
    &&& 0 <= k < order.len()
    &&& ranked(agents, order, k).name@ == name
    &&& forall|k2: int| 0 <= k2 < k ==> ranked(agents, order, k2).name@ != name
}

/// Position `k` is the first in scan order whose agent's name occurs in `text`.
pub open spec fn first_named_in(agents: Seq<Agent>, order: Seq<usize>, text: Seq<char>, k: int) -> bool {
    &&& 0 <= k < order.len()
    &&& contains_seq(text, ranked(agents, order, k).name@)
    &&& forall|k2: int| 0 <= k2 < k ==> !contains_seq(text, ranked(agents, order, k2).name@)
}

/// What the model's answer picks: the agent that its JSON names, with the
/// reasoning; else the first agent whose name occurs in the answer; else nothing.
pub open spec fn reply_pick(agents: Seq<Agent>, order: Seq<usize>, text: Seq<char>) -> Option<(int, Option<Seq<char>>)> {
    let parsed = parsed_reply(text);
    match (named_pick(agents, order, parsed), parsed) {
        (Some(k), Some((_, reasoning))) => Some((k, reasoning)),
        _ => if exists|k: int| first_named_in(agents, order, text, k) {
            Some((choose|k: int| first_named_in(agents, order, text, k), None))
        } else {
            None
        },
    }
}

/// The fields read from the JSON span of the answer, where there are any.
pub open spec fn parsed_reply(text: Seq<char>) -> Option<(Seq<char>, Option<Seq<char>>)> {
    match json_span(text) {
        Some(span) => reply_of(span),
        None => None,
    }
}

/// The scan position of the agent that the parsed answer names, where there is one.
pub open spec fn named_pick(agents: Seq<Agent>, order: Seq<usize>, parsed: Option<(Seq<char>, Option<Seq<char>>)>) -> Option<int> {
    match parsed {
        Some((name, _)) => if exists|k: int| first_with_name(agents, order, name, k) {
            Some(choose|k: int| first_with_name(agents, order, name, k))
        } else {
            None
        },
        None => None,
    }
}

proof fn lemma_first_with_name_unique(agents: Seq<Agent>, order: Seq<usize>, name: Seq<char>, k: int, k2: int)
    requires
        first_with_name(agents, order, name, k),
        first_with_name(agents, order, name, k2),
    ensures
        k == k2,
{
}

proof fn lemma_first_named_in_unique(agents: Seq<Agent>, order: Seq<usize>, text: Seq<char>, k: int, k2: int)
    requires
        first_named_in(agents, order, text, k),
        first_named_in(agents, order, text, k2),
    ensures
        k == k2,
{
}

/// The first scan position whose agent is named `name`.
fn find_by_name(agents: &Vec<Agent>, order: &Vec<usize>, name: &str) -> (r: Option<usize>)
    requires
        is_ranking(agents@, order@),
    ensures
        match r {
            Some(k) => first_with_name(agents@, order@, name@, k as int),
            None => forall|k: int| !first_with_name(agents@, order@, name@, k),
        },
{
    let mut k: usize = 0;
    while k < order.len()
        invariant
            is_ranking(agents@, order@),
            k <= order@.len(),
            forall|k2: int| 0 <= k2 < k ==> ranked(agents@, order@, k2).name@ != name@,
        decreases order@.len() - k,
    {
        if str_eq(agents[order[k]].name.as_str(), name) {
            return Some(k);
        }
        k = k + 1;
    }
    None
}

/// The first scan position whose agent's name occurs in `text`.
fn find_named_in(agents: &Vec<Agent>, order: &Vec<usize>, text: &Vec<char>) -> (r: Option<usize>)
    requires
        is_ranking(agents@, order@),
    ensures
        match r {
            Some(k) => first_named_in(agents@, order@, text@, k as int),
            None => forall|k: int| !first_named_in(agents@, order@, text@, k),
        },
{
    let mut k: usize = 0;
    while k < order.len()
        invariant
            is_ranking(agents@, order@),
            k <= order@.len(),
            forall|k2: int| 0 <= k2 < k ==> !contains_seq(text@, ranked(agents@, order@, k2).name@),
        decreases order@.len() - k,
    {
        let name = chars_of(agents[order[k]].name.as_str());
        if contains_chars(text, &name) {
            return Some(k);
        }
        k = k + 1;
    }
    None
}

proof fn lemma_json_bounds_unique(s: Seq<char>, a: int, b: int, a2: int, b2: int)
    requires
        json_bounds(s, a, b),
        json_bounds(s, a2, b2),
    ensures
        a == a2 && b == b2,
{
}

/// The bounds of the JSON span of `s`, where there is one.
fn find_json_span(s: &Vec<char>) -> (r: Option<(usize, usize)>)
    ensures
        match r {
            Some((a, b)) => json_bounds(s@, a as int, b as int) && a < b,
            None => !exists|a: int, b: int| json_bounds(s@, a, b) && a < b,
        },
{
    let mut a: usize = 0;
    while a < s.len() && s[a] != '{'
        invariant
            a <= s@.len(),
            forall|j: int| 0 <= j < a ==> s@[j] != '{',
        decreases s@.len() - a,
    {
        a = a + 1;
    }
    if a == s.len() {
        return None;
    }
    let mut b: usize = s.len();
    while b > 0 && s[b - 1] != '}'
        invariant
            b <= s@.len(),
            forall|j: int| b <= j < s@.len() ==> s@[j] != '}',
        decreases b,
    {
        b = b - 1;
    }
    if b == 0 {
        return None;
    }
    let b = b - 1;
    if a < b {
        Some((a, b))
    } else {
        proof {
            assert forall|a2: int, b2: int| json_bounds(s@, a2, b2) implies !(a2 < b2) by {
                lemma_json_bounds_unique(s@, a as int, b as int, a2, b2);
            }
        }
        None
    }
}

/// The agent that the model's answer picks, as (scan position, reasoning).
pub fn parse_classification(text: &str, agents: &Vec<Agent>, order: &Vec<usize>) -> (r: Option<(usize, Option<String>)>)
    requires
        is_ranking(agents@, order@),
    ensures
        match r {
            Some((k, reasoning)) => reply_pick(agents@, order@, text@) == Some((k as int, opt_view(reasoning))),
            None => reply_pick(agents@, order@, text@) is None,
        },
{
    let chars = chars_of(text);
    let ghost spec_parsed = parsed_reply(text@);
    let parsed = match find_json_span(&chars) {
        Some((a, b)) => {
            let n = chars.len();
            assert(b < n);
            let span = text.substring_char(a, b + 1);
            proof {
                let (a2, b2) = choose|a2: int, b2: int| json_bounds(text@, a2, b2) && a2 < b2;
                lemma_json_bounds_unique(text@, a as int, b as int, a2, b2);
                assert(json_span(text@) == Some(span@));
            }
            parse_reply_json(span)
        },
        None => {
            assert(json_span(text@) is None);
            None
        },
    };
    assert(match parsed {
        Some((n, reason)) => spec_parsed == Some((n@, opt_view(reason))),
        None => spec_parsed is None,
    });
    let named = match &parsed {
        Some((name, _)) => find_by_name(agents, order, name.as_str()),
        None => None,
    };
    let ghost spec_named = named_pick(agents@, order@, spec_parsed);
    proof {
        match named {
            Some(k) => {
                let name = parsed.unwrap().0@;
                assert(first_with_name(agents@, order@, name, k as int));
                assert(spec_parsed.unwrap().0 == name);
                let k2 = choose|k2: int| first_with_name(agents@, order@, name, k2);
                lemma_first_with_name_unique(agents@, order@, name, k as int, k2);
                assert(spec_named == Some(k as int));
            },
            None => {
                assert(spec_named is None);
            },
        }
    }
    match (named, parsed) {
        (Some(k), Some((_, reasoning))) => {
            assert(spec_parsed matches Some((_, rs)) && rs == opt_view(reasoning));
            proof {
                let name = spec_parsed.unwrap().0;
                assert(first_with_name(agents@, order@, name, k as int));
                let k2 = choose|k2: int| first_with_name(agents@, order@, name, k2);
                lemma_first_with_name_unique(agents@, order@, name, k as int, k2);
                assert(spec_named == Some(k as int));
            }
            assert(reply_pick(agents@, order@, text@) == Some((k as int, opt_view(reasoning))));
            Some((k, reasoning))
        },
        _ => {
            assert(spec_named is None);
            match find_named_in(agents, order, &chars) {
                Some(k) => {
                    proof {
                        let k2 = choose|k2: int| first_named_in(agents@, order@, text@, k2);
                        lemma_first_named_in_unique(agents@, order@, text@, k as int, k2);
                    }
                    assert(reply_pick(agents@, order@, text@) == Some((k as int, opt_view(None))));
                    Some((k, None))
                },
                None => {
                    assert(reply_pick(agents@, order@, text@) is None);
                    None
                },
            }
        },
    }
}

/// `req` runs the model-assisted tier: the prompt is the message, the
/// tenant's classification model and timeout apply, the working directory is
/// the isolated one, and nothing else is set.
pub open spec fn is_classification_request(req: ChatCompletionRequest, prompt: Seq<char>, settings: &ClassifySettings, isolated_dir: Seq<char>) -> bool {
    &&& req.user_message@ == prompt
    &&& opt_str(req.model) == Some(settings.model@)
    &&& req.timeout == Some(settings.timeout as u64)
    &&& opt_str(req.working_dir) == Some(isolated_dir)
    &&& req.instruction is None && req.project is None && req.requester is None
    &&& req.source is None && req.agent is None && req.metadata is None
    &&& req.fallback_model is None && req.allowed_tools is None && req.disallowed_tools is None
    &&& req.system_prompt is None && req.session_id is None && req.continue_session is None
    &&& req.resume_session_id is None && req.add_dirs is None && req.mcp_config is None
    &&& req.agents is None
}

/// The request that runs the model-assisted tier; see `is_classification_request`.
pub fn classification_request(prompt: String, settings: &ClassifySettings, isolated_dir: &str) -> (r: ChatCompletionRequest)
    ensures
        is_classification_request(r, prompt@, settings, isolated_dir@),
{
    ChatCompletionRequest {
        user_message: prompt,
        instruction: None,
        project: None,
        requester: None,
        source: None,
        agent: None,
        metadata: None,
        model: Some(settings.model.clone()),
        fallback_model: None,
        allowed_tools: None,
        disallowed_tools: None,
        system_prompt: None,
        working_dir: Some(isolated_dir.to_string()),
        session_id: None,
        continue_session: None,
        resume_session_id: None,
        add_dirs: None,
        mcp_config: None,
        agents: None,
        timeout: Some(settings.timeout as u64),
    }
}

/// What a model-assisted classification run gave back.
#[derive(Debug, Clone)]
pub struct ModelReply {
    pub status: ExecutionStatus,
    pub result: Option<String>,
}

/// The model-assisted tier, from the run's outcome: the picked agent with
/// confidence 0.8 where the run completed with a text that picks one, else
/// the fallback answer.
pub fn reply_tier(reply: &ModelReply, agents: &Vec<Agent>, order: &Vec<usize>, settings: &ClassifySettings, duration_ms: u64) -> (r: ClassifyResponse)
    requires
        is_ranking(agents@, order@),
    ensures
        r.duration_ms == duration_ms,
        match (reply.status, reply.result) {
            (ExecutionStatus::Completed, Some(t)) => match reply_pick(agents@, order@, t@) {
                Some((k, reasoning)) => {
                    &&& r.agent@ == ranked(agents@, order@, k).name@
                    &&& r.confidence == MODEL_CONFIDENCE
                    &&& r.method@ == "llm"@
                    &&& opt_view(r.reasoning) == reasoning
                    &&& r.matched_keyword is None
                },
                None => is_fallback(r, settings),
            },
            _ => is_fallback(r, settings),
        },
{
    if reply.status.is_success() {
        match &reply.result {
            Some(t) => {
                match parse_classification(t.as_str(), agents, order) {
                    Some((k, reasoning)) => {
                        proof {
                            reveal_strlit("llm");
                        }
                        return build_response(&agents[order[k]], MODEL_CONFIDENCE, reasoning, "llm", None, duration_ms);
                    },
                    None => {},
                }
            },
            None => {},
        }
    }
    build_fallback_response(settings, duration_ms)
}

/// One step of the classification cascade.
#[derive(Debug)]
pub enum ClassifyStep {
    /// The cascade has its answer.
    Done(ClassifyResponse),
    /// The semantic-retrieval collaborator must be asked for candidates.
    NeedSemantic,
    /// The model must be run with this request.
    NeedModel(ChatCompletionRequest),
}

/// The classification cascade: keyword tier, then (where enabled) the
/// semantic tier, then the model-assisted tier, then the fallback agent.
/// The caller runs the outside work that a step asks for and calls again
/// with its outcome: `semantic` holds the candidates once retrieved, `reply`
/// the model's answer once run.
pub fn classify_step(
    cache: &mut PatternCache,
    text: &str,
    agents: &Vec<Agent>,
    settings: &ClassifySettings,
    semantic_enabled: bool,
    isolated_dir: &str,
    semantic: Option<&Vec<SemanticMatch>>,
    reply: Option<&ModelReply>,
    duration_ms: u64,
) -> (r: ClassifyStep)
    requires
        old(cache).wf(),
    ensures
        final(cache).wf(),
        exists|order: Seq<usize>| {
            &&& #[trigger] is_ranking(agents@, order)
            &&& if any_keyword_hit(agents@, order, text@) {
                r matches ClassifyStep::Done(resp) && resp.method@ == "keyword"@
                    && resp.confidence == KEYWORD_CONFIDENCE && exists|k: int, ri: int| {
                    &&& #[trigger] first_keyword_hit(agents@, order, text@, k, ri)
                    &&& resp.agent@ == ranked(agents@, order, k).name@
                    &&& resp.matched_keyword matches Some(m) && m@ == ranked(agents@, order, k).keywords@[ri]@
                    &&& resp.reasoning matches Some(t) && t@ == keyword_reasoning(ranked(agents@, order, k).keywords@[ri]@, ranked(agents@, order, k).name@)
                }
            } else if semantic_enabled && semantic is None {
                r is NeedSemantic
            } else if semantic_enabled && any_candidate(agents@, order, semantic->0@) {
                r matches ClassifyStep::Done(resp) && resp.method@ == "semantic"@ && resp.matched_keyword is None
                    && exists|i: int, k: int, adj: int| {
                    &&& #[trigger] best_candidate(agents@, order, semantic->0@, i, k, adj)
                    &&& resp.agent@ == ranked(agents@, order, k).name@
                    &&& resp.confidence == (if adj < FULL_CONFIDENCE { adj } else { FULL_CONFIDENCE as int })
                }
            } else if reply is None {
                r matches ClassifyStep::NeedModel(req) && is_classification_request(
                    req,
                    prompt_of(text@, agents@, order, settings.fallback_agent@),
                    settings,
                    isolated_dir@,
                )
            } else {
                r matches ClassifyStep::Done(resp) && match (reply->0.status, reply->0.result) {
                    (ExecutionStatus::Completed, Some(t)) => match reply_pick(agents@, order, t@) {
                        Some((k, reasoning)) => {
                            &&& resp.agent@ == ranked(agents@, order, k).name@
                            &&& resp.confidence == MODEL_CONFIDENCE
                            &&& resp.method@ == "llm"@
                            &&& opt_view(resp.reasoning) == reasoning
                            &&& resp.matched_keyword is None
                        },
                        None => is_fallback(resp, settings),
                    },
                    _ => is_fallback(resp, settings),
                }
            }
        },
        agents@.len() == 0 && reply is Some && (semantic_enabled ==> semantic is Some) ==> (r matches ClassifyStep::Done(resp) && is_fallback(resp, settings)),
{
    let order = rank_agents(agents);
    match keyword_tier(cache, text, agents, &order, duration_ms) {
        Some(resp) => {
            return ClassifyStep::Done(resp);
        },
        None => {},
    }
    if semantic_enabled {
        match semantic {
            None => {
                return ClassifyStep::NeedSemantic;
            },
            Some(matches) => {
                match semantic_tier(agents, &order, matches, duration_ms) {
                    Some(resp) => {
                        return ClassifyStep::Done(resp);
                    },
                    None => {},
                }
            },
        }
    }
    match reply {
        None => ClassifyStep::NeedModel(
            classification_request(classification_prompt(text, agents, &order, settings), settings, isolated_dir),
        ),
        Some(rep) => {
            let resp = reply_tier(rep, agents, &order, settings, duration_ms);
            proof {
                if agents@.len() == 0 {
                    assert(forall|k: int| !first_named_in(agents@, order@, text@, k));
                    assert forall|t: Seq<char>| reply_pick(agents@, order@, t) is None by {
                        assert(forall|k: int| !first_named_in(agents@, order@, t, k));
                        assert(forall|k: int, n: Seq<char>| !first_with_name(agents@, order@, n, k));
                    }
                }
            }
            ClassifyStep::Done(resp)
        },
    }
}

} // verus!
