use vstd::prelude::*;
use vstd::string::StringExecFns;
use crate::classify::SemanticMatch;
use crate::text::{append_str, push_decimal, decimal, str_eq};
use crate::types::Agent;

verus! {

/// A hit of the semantic-retrieval collaborator.
#[derive(Debug, Clone)]
pub struct SearchHit {
    pub content: String,
    /// Similarity, in millionths.
    pub score: u32,
    /// Key and value of each tag.
    pub tags: Vec<(String, String)>,
}

/// The tag filter of a routing search: routing documents, of the tenant where one is named.
pub open spec fn routing_tags_of(project_id: Option<Seq<char>>) -> Seq<char> {
    match project_id {
        Some(p) => "type:agent-routing,project:"@ + p,
        None => "type:agent-routing"@,
    }
}

/// The tag filter of a routing search.
pub fn routing_tags(project_id: Option<&str>) -> (r: String)
    ensures
        r@ == routing_tags_of(match project_id { Some(p) => Some(p@), None => None }),
{
    match project_id {
        Some(p) => {
            let mut t = String::from_str("type:agent-routing,project:");
            append_str(&mut t, p);
            t
        },
        None => String::from_str("type:agent-routing"),
    }
}

/// The arguments of a search command: query, tag filter, JSON output and result limit.
pub fn search_args(text: &str, tags: &str, top_k: u32) -> (r: Vec<String>)
    ensures
        r@.len() == 8,
        r@[0]@ == "search"@,
        r@[1]@ == text@,
        r@[2]@ == "--tags"@,
        r@[3]@ == tags@,
        r@[4]@ == "--format"@,
        r@[5]@ == "json"@,
        r@[6]@ == "--limit"@,
        r@[7]@ == decimal(top_k as nat),
{
    let mut limit = String::new();
    push_decimal(&mut limit, top_k as u64);
    let mut r: Vec<String> = Vec::new();
    r.push(String::from_str("search"));
    r.push(text.to_string());
    r.push(String::from_str("--tags"));
    r.push(tags.to_string());
    r.push(String::from_str("--format"));
    r.push(String::from_str("json"));
    r.push(String::from_str("--limit"));
    r.push(limit);
    r
}

/// The value of the first tag keyed `agent`, where there is one.
pub open spec fn agent_tag(tags: Seq<(String, String)>) -> Option<Seq<char>>
    decreases tags.len(),
{
    if tags.len() == 0 {
        None
    } else if tags[0].0@ == "agent"@ {
        Some(tags[0].1@)
    } else {
        agent_tag(tags.drop_first())
    }
}

/// A hit is kept where it carries an agent tag and scores at least `min_score`.
pub open spec fn kept_hit(h: SearchHit, min_score: u32) -> bool {
    agent_tag(h.tags@) is Some && h.score >= min_score
}

/// The candidates that the kept hits give, in order.
pub open spec fn candidates_of(hits: Seq<SearchHit>, min_score: u32) -> Seq<(Seq<char>, u32, Seq<char>)>
    decreases hits.len(),
{
    if hits.len() == 0 {
        Seq::empty()
    } else {
        let prev = candidates_of(hits.drop_last(), min_score);
        let h = hits.last();
        if kept_hit(h, min_score) {
            prev.push((agent_tag(h.tags@)->0, h.score, h.content@))
        } else {
            prev
        }
    }
}

/// The view of candidates.
pub open spec fn matches_view(m: Seq<SemanticMatch>) -> Seq<(Seq<char>, u32, Seq<char>)> {
    m.map_values(|x: SemanticMatch| (x.agent@, x.score, x.matched_example@))
}

fn find_agent_tag(tags: &Vec<(String, String)>) -> (r: Option<String>)
    ensures
        opt_chars(r) == agent_tag(tags@),
{
    let mut i: usize = 0;
    proof {
        reveal_strlit("agent");
        assert(tags@.subrange(0, tags@.len() as int) =~= tags@);
    }
    while i < tags.len()
        invariant
            i <= tags@.len(),
            agent_tag(tags@) == agent_tag(tags@.subrange(i as int, tags@.len() as int)),
        decreases tags@.len() - i,
    {
        let ghost rest = tags@.subrange(i as int, tags@.len() as int);
        assert(rest.drop_first() =~= tags@.subrange(i + 1, tags@.len() as int));
        if str_eq(tags[i].0.as_str(), "agent") {
            return Some(tags[i].1.clone());
        }
        i = i + 1;
    }
    None
}

/// The characters of an optional string.
pub open spec fn opt_chars(o: Option<String>) -> Option<Seq<char>> {
    match o {
        Some(s) => Some(s@),
        None => None,
    }
}

/// The candidates of a search: each hit with an `agent` tag and a score of at
/// least `min_score`, naming that agent, in the order of the hits.
pub fn select_matches(hits: &Vec<SearchHit>, min_score: u32) -> (r: Vec<SemanticMatch>)
    ensures
        matches_view(r@) == candidates_of(hits@, min_score),
{
    let mut out: Vec<SemanticMatch> = Vec::new();
    let mut i: usize = 0;
    while i < hits.len()
        invariant
            i <= hits@.len(),
            matches_view(out@) == candidates_of(hits@.subrange(0, i as int), min_score),
        decreases hits@.len() - i,
    {
        let h = &hits[i];
        let ghost sub = hits@.subrange(0, i + 1);
        assert(sub.drop_last() =~= hits@.subrange(0, i as int));
        match find_agent_tag(&h.tags) {
            Some(agent) => {
                if h.score >= min_score {
                    let ghost before = out@;
                    out.push(SemanticMatch { agent, score: h.score, matched_example: h.content.clone() });
                    assert(matches_view(out@) =~= matches_view(before).push(matches_view(out@).last()));
                }
            },
            None => {},
        }
        i = i + 1;
    }
    assert(hits@.subrange(0, hits@.len() as int) =~= hits@);
    out
}

/// A string as a JSON string literal, as `serde_json` writes it.
pub uninterp spec fn json_string_of(s: Seq<char>) -> Seq<char>;

/// Relies on serde_json::to_string: the JSON string literal of a string
/// (quoted and escaped); writing a string cannot fail.
#[verifier::external_body]
fn json_string(s: &str) -> (r: String)
    ensures
        r@ == json_string_of(s@),
{
    serde_json::to_string(s).unwrap_or_default()
}

/// An agent's examples are indexed where its priority is not negative and it has examples.
pub open spec fn indexable(a: Agent) -> bool {
    a.priority >= 0 && a.examples@.len() > 0
}

/// The tags of an agent's indexed examples.
pub open spec fn agent_tags_of(agent_id: Seq<char>, project_id: Seq<char>) -> Seq<char> {
    "type:agent-routing,agent:"@ + agent_id + ",project:"@ + project_id
}

/// The import line of example `i` of an agent: a JSON object with the example
/// as content and `agent://<id>/<i>` as URL.
pub open spec fn import_line_of(agent_id: Seq<char>, i: nat, example: Seq<char>) -> Seq<char> {
    "{\"content\":"@ + json_string_of(example) + ",\"url\":"@ + json_string_of(
        "agent://"@ + agent_id + "/"@ + decimal(i),
    ) + "}"@
}

/// `b` is the batch of agent `a`: the agent is indexable, and the batch has
/// its name, its tags and one import line per example.
pub open spec fn batch_for(b: IndexBatch, a: Agent, project_id: Seq<char>) -> bool {
    &&& indexable(a)
    &&& b.agent_name@ == a.name@
    &&& b.tags@ == agent_tags_of(a.id@, project_id)
    &&& b.lines@.len() == a.examples@.len()
    &&& forall|i: int| 0 <= i < b.lines@.len() ==> #[trigger] b.lines@[i]@ == import_line_of(a.id@, i as nat, a.examples@[i]@)
}

/// What is imported for one agent.
#[derive(Debug)]
pub struct IndexBatch {
    pub agent_name: String,
    pub tags: String,
    /// One JSON object per line.
    pub lines: Vec<String>,
}

fn import_line(agent_id: &str, i: u64, example: &str) -> (r: String)
    ensures
        r@ == import_line_of(agent_id@, i as nat, example@),
{
    let mut url = String::from_str("agent://");
    append_str(&mut url, agent_id);
    append_str(&mut url, "/");
    push_decimal(&mut url, i);
    let mut line = String::from_str("{\"content\":");
    let c = json_string(example);
    append_str(&mut line, c.as_str());
    append_str(&mut line, ",\"url\":");
    let u = json_string(url.as_str());
    append_str(&mut line, u.as_str());
    append_str(&mut line, "}");
    line
}

/// The agents whose examples are indexed, in configured order.
pub open spec fn indexed_agents(agents: Seq<Agent>) -> Seq<Agent> {
    agents.filter(|a: Agent| indexable(a))
}

/// The batches to import for a tenant's agents: one per indexable agent, in
/// configured order, with one line per example.
pub fn index_batches(project_id: &str, agents: &Vec<Agent>) -> (r: Vec<IndexBatch>)
    ensures
        r@.len() == indexed_agents(agents@).len(),
        forall|j: int| 0 <= j < r@.len() ==> #[trigger] batch_for(r@[j], indexed_agents(agents@)[j], project_id@),
{
    let mut out: Vec<IndexBatch> = Vec::new();
    let mut k: usize = 0;
    while k < agents.len()
        invariant
            k <= agents@.len(),
            out@.len() == indexed_agents(agents@.subrange(0, k as int)).len(),
            forall|j: int| 0 <= j < out@.len() ==> #[trigger] batch_for(out@[j], indexed_agents(agents@.subrange(0, k as int))[j], project_id@),
        decreases agents@.len() - k,
    {
        let a = &agents[k];
        let ghost before = out@;
        let ghost prev = agents@.subrange(0, k as int);
        proof {
            assert(agents@.subrange(0, k + 1) =~= prev.push(agents@[k as int]));
            prev.lemma_filter_push(agents@[k as int], |a: Agent| indexable(a));
        }
        if a.priority >= 0 && a.examples.len() > 0 {
            let mut lines: Vec<String> = Vec::new();
            let mut i: usize = 0;
            while i < a.examples.len()
                invariant
                    i <= a.examples@.len(),
                    lines@.len() == i,
                    forall|m: int| 0 <= m < i ==> #[trigger] lines@[m]@ == import_line_of(a.id@, m as nat, a.examples@[m]@),
                decreases a.examples@.len() - i,
            {
                lines.push(import_line(a.id.as_str(), i as u64, a.examples[i].as_str()));
                i = i + 1;
            }
            let mut tags = String::from_str("type:agent-routing,agent:");
            append_str(&mut tags, a.id.as_str());
            append_str(&mut tags, ",project:");
            append_str(&mut tags, project_id);
            let b = IndexBatch { agent_name: a.name.clone(), tags, lines };
            assert(batch_for(b, agents@[k as int], project_id@));
            out.push(b);
            proof {
                let f = indexed_agents(agents@.subrange(0, k + 1));
                assert(f == indexed_agents(prev).push(agents@[k as int]));
                assert forall|j: int| 0 <= j < out@.len() implies #[trigger] batch_for(out@[j], f[j], project_id@) by {
                    if j < before.len() {
                        assert(out@[j] == before[j]);
                        assert(f[j] == indexed_agents(prev)[j]);
                    }
                }
            }
        }
        k = k + 1;
    }
    assert(agents@.subrange(0, agents@.len() as int) =~= agents@);
    out
}

} // verus!
