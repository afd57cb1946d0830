use vstd::prelude::*;
use std::sync::Arc;
use vstd::string::StrSliceExecFns;
use vstd::string::StringExecFns;
use crate::text::{chars_of, contains_chars, contains_seq, lower_of, lowercase};

verus! {

#[verifier::external_type_specification]
#[verifier::external_body]
pub struct ExRegex(regex::Regex);

/// Whether `regex::Regex::new` accepts the pattern.
pub uninterp spec fn regex_compiles(pattern: Seq<char>) -> bool;

/// Whether the compiled pattern finds a match anywhere in the text.
pub uninterp spec fn regex_matches(pattern: Seq<char>, text: Seq<char>) -> bool;

/// The text with every non-overlapping match of the pattern replaced by the
/// replacement, in which `$1`, `$2` stand for capture groups.
pub uninterp spec fn regex_replaced(pattern: Seq<char>, text: Seq<char>, replacement: Seq<char>) -> Seq<char>;

/// A rule written `/inner/` (more than two characters) is a pattern rule.
pub open spec fn is_pattern_rule(rule: Seq<char>) -> bool {
    rule.len() > 2 && rule[0] == '/' && rule[rule.len() - 1] == '/'
}

/// The case-insensitive pattern that a `/inner/` rule stands for.
pub open spec fn pattern_source(rule: Seq<char>) -> Seq<char> {
    seq!['(', '?', 'i', ')'] + rule.subrange(1, rule.len() - 1)
}

/// Whether a keyword rule matches the text: a pattern rule matches where its
/// pattern compiles and finds a match; any other rule matches where it occurs
/// in the text, both taken in lower case.
pub open spec fn rule_matches(rule: Seq<char>, text: Seq<char>) -> bool {
    if is_pattern_rule(rule) {
        regex_compiles(pattern_source(rule)) && regex_matches(pattern_source(rule), text)
    } else {
        contains_seq(lower_of(text), lower_of(rule))
    }
}

/// A compiled pattern together with the source it was compiled from.
pub struct Pattern {
    source: String,
    re: regex::Regex,
}

impl Pattern {
    /// The source this pattern was compiled from.
    pub closed spec fn source(&self) -> Seq<char> {
        self.source@
    }

    /// Relies on regex::Regex::is_match: whether the pattern matches anywhere
    /// in the text.
    #[verifier::external_body]
    pub(crate) fn is_match(&self, text: &str) -> (r: bool)
        ensures
            r == regex_matches(self.source(), text@),
    {
        self.re.is_match(text)
    }
}

impl Pattern {
    /// Relies on regex::Regex::replace_all: replaces every non-overlapping
    /// match, expanding capture-group references in the replacement.
    #[verifier::external_body]
    pub(crate) fn replace_all(&self, text: &str, replacement: &str) -> (r: String)
        ensures
            r@ == regex_replaced(self.source(), text@, replacement@),
    {
        self.re.replace_all(text, replacement).into_owned()
    }
}

/// Relies on regex::Regex::new: compiles the pattern, or fails where the
/// pattern is malformed.
#[verifier::external_body]
pub(crate) fn compile_pattern(source: &str) -> (r: Option<Pattern>)
    ensures
        r.is_some() == regex_compiles(source@),
        r matches Some(p) ==> p.source() == source@,
{
    regex::Regex::new(source).ok().map(|re| Pattern { source: source.to_string(), re })
}

/// Map from pattern rule to its compiled pattern, or `None` where the rule
/// did not compile.
pub type PatternTable = dashmap::DashMap<String, Option<Arc<Pattern>>>;

/// The rules that a table holds, each with the source of its compiled
/// pattern, or `None` where it did not compile.
pub uninterp spec fn pattern_table(m: PatternTable) -> Map<Seq<char>, Option<Seq<char>>>;

/// The source of an optional compiled pattern.
pub open spec fn compiled_source(o: Option<Arc<Pattern>>) -> Option<Seq<char>> {
    match o {
        Some(p) => Some(p.source()),
        None => None,
    }
}

/// The empty table.
pub open spec fn no_patterns() -> Map<Seq<char>, Option<Seq<char>>> {
    Map::empty()
}

/// Relies on dashmap::DashMap::new: an empty map.
#[verifier::external_body]
fn patterns_new() -> (r: PatternTable)
    ensures
        pattern_table(r) == no_patterns(),
{
    dashmap::DashMap::new()
}

/// Relies on dashmap::DashMap::get: the entry of a rule, where there is one.
#[verifier::external_body]
fn patterns_get(m: &PatternTable, rule: &str) -> (r: Option<Option<Arc<Pattern>>>)
    ensures
        r is None <==> !pattern_table(*m).contains_key(rule@),
        r matches Some(o) ==> pattern_table(*m)[rule@] == compiled_source(o),
{
    m.get(rule).map(|e| e.value().clone())
}

/// Relies on dashmap::DashMap::insert: the rule now holds the entry.
#[verifier::external_body]
fn patterns_insert(m: &mut PatternTable, rule: String, compiled: Option<Arc<Pattern>>)
    ensures
        pattern_table(*final(m)) == pattern_table(*old(m)).insert(rule@, compiled_source(compiled)),
{
    m.insert(rule, compiled);
}

/// Relies on dashmap::DashMap::len: the number of entries.
#[verifier::external_body]
fn patterns_len(m: &PatternTable) -> (r: usize)
    ensures
        r == pattern_table(*m).len(),
{
    m.len()
}

/// Compiled pattern rules, each compiled once; a rule that fails to compile
/// is remembered as such and never compiled again.
pub struct PatternCache {
    entries: PatternTable,
    compiles: Ghost<nat>,
}

impl PatternCache {
    /// The rules held, each with the source of its compiled pattern.
    pub closed spec fn view(&self) -> Map<Seq<char>, Option<Seq<char>>> {
        pattern_table(self.entries)
    }

    /// How many times a pattern has been compiled.
    pub closed spec fn compiles(&self) -> nat {
        self.compiles@
    }

    /// Every rule held is a pattern rule, and holds what compiling it gives;
    /// each rule was compiled exactly once.
    pub open spec fn wf(&self) -> bool {
        &&& self@.dom().finite()
        &&& self.compiles() == self@.len()
        &&& forall|rule: Seq<char>| #[trigger] self@.contains_key(rule) ==> {
            &&& is_pattern_rule(rule)
            &&& self@[rule] == (if regex_compiles(pattern_source(rule)) {
                Some(pattern_source(rule))
            } else {
                None
            })
        }
    }

    pub fn new() -> (r: PatternCache)
        ensures
            r.wf(),
            r@.len() == 0,
            r.compiles() == 0,
    {
        let r = PatternCache { entries: patterns_new(), compiles: Ghost(0) };
        assert(r@.dom() =~= Set::<Seq<char>>::empty());
        r
    }

    /// Number of rules held.
    pub fn len(&self) -> (r: usize)
        ensures
            r == self@.len(),
    {
        patterns_len(&self.entries)
    }

    /// Whether `rule` matches `text`; `text_lower` is the text in lower case.
    /// A pattern rule seen before is not compiled again.
    pub fn match_keyword(&mut self, rule: &str, text: &str, text_lower: &Vec<char>) -> (r: bool)
        requires
            old(self).wf(),
            text_lower@ == lower_of(text@),
        ensures
            final(self).wf(),
            r == rule_matches(rule@, text@),
            old(self)@.contains_key(rule@) || !is_pattern_rule(rule@) ==> final(self)@ == old(self)@
                && final(self).compiles() == old(self).compiles(),
            !old(self)@.contains_key(rule@) && is_pattern_rule(rule@) ==> final(self)@.dom() == old(self)@.dom().insert(rule@)
                && final(self).compiles() == old(self).compiles() + 1,
    {
        let n = rule.unicode_len();
        if n > 2 && rule.get_char(0) == '/' && rule.get_char(n - 1) == '/' {
            match patterns_get(&self.entries, rule) {
                Some(cached) => {
                    return match cached {
                        Some(p) => p.is_match(text),
                        None => false,
                    };
                },
                None => {},
            }
            let inner = rule.substring_char(1, n - 1);
            let mut source = String::from_str("(?i)");
            proof {
                reveal_strlit("(?i)");
            }
            source.append(inner);
            assert(source@ =~= pattern_source(rule@));
            proof {
                self.compiles@ = self.compiles@ + 1;
            }
            let compiled = match compile_pattern(source.as_str()) {
                Some(p) => Some(Arc::new(p)),
                None => None,
            };
            let r = match &compiled {
                Some(p) => p.is_match(text),
                None => false,
            };
            let ghost before = self@;
            patterns_insert(&mut self.entries, rule.to_string(), compiled);
            assert(self@.dom() =~= before.dom().insert(rule@));
            assert(self@.len() == before.len() + 1);
            r
        } else {
            let kw = lowercase(rule);
            let kw_chars = chars_of(kw.as_str());
            contains_chars(text_lower, &kw_chars)
        }
    }
}

/// A pattern rule is tested case-insensitively against the raw text, and a
/// pattern rule that does not compile matches no text at all.
pub proof fn lemma_pattern_rules(rule: Seq<char>, text: Seq<char>)
    requires
        is_pattern_rule(rule),
    ensures
        rule_matches(rule, text) == (regex_compiles(pattern_source(rule)) && regex_matches(
            seq!['(', '?', 'i', ')'] + rule.subrange(1, rule.len() - 1),
            text,
        )),
        !regex_compiles(pattern_source(rule)) ==> !rule_matches(rule, text),
{
}

} // verus!
