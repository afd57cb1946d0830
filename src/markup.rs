use vstd::prelude::*;
use crate::pattern::{compile_pattern, regex_compiles, regex_replaced};
use crate::text::{trim, trimmed};

verus! {

/// One rewriting step: where the pattern compiles, every match is replaced.
pub open spec fn rewritten(pattern: Seq<char>, text: Seq<char>, replacement: Seq<char>) -> Seq<char> {
    if regex_compiles(pattern) {
        regex_replaced(pattern, text, replacement)
    } else {
        text
    }
}

fn rewrite(pattern: &str, text: &str, replacement: &str) -> (r: String)
    ensures
        r@ == rewritten(pattern@, text@, replacement@),
{
    match compile_pattern(pattern) {
        Some(p) => p.replace_all(text, replacement),
        None => text.to_string(),
    }
}

/// Markdown turned into chat-platform markup: headers and bold become
/// `*bold*`, links become `<url|label>`, strike-through becomes `~text~`,
/// and runs of three or more newlines become one blank line.
pub open spec fn mrkdwn_of(text: Seq<char>) -> Seq<char> {
    let a = rewritten("(?m)^#{1,6}\\s+(.+)$"@, text, "*$1*"@);
    let b = rewritten("\\[([^\\]]+)\\]\\(([^)]+)\\)"@, a, "<$2|$1>"@);
    let c = rewritten("\\*\\*(.+?)\\*\\*"@, b, "*$1*"@);
    let d = rewritten("~~(.+?)~~"@, c, "~$1~"@);
    rewritten("\\n{3,}"@, d, "\n\n"@)
}

/// Converts Markdown to chat-platform markup; see `mrkdwn_of`.
pub fn to_mrkdwn(text: &str) -> (r: String)
    ensures
        r@ == mrkdwn_of(text@),
{
    let a = rewrite("(?m)^#{1,6}\\s+(.+)$", text, "*$1*");
    let b = rewrite("\\[([^\\]]+)\\]\\(([^)]+)\\)", a.as_str(), "<$2|$1>");
    let c = rewrite("\\*\\*(.+?)\\*\\*", b.as_str(), "*$1*");
    let d = rewrite("~~(.+?)~~", c.as_str(), "~$1~");
    rewrite("\\n{3,}", d.as_str(), "\n\n")
}

/// The text without user mentions (`<@ID>`), trimmed.
pub open spec fn without_mentions(text: Seq<char>) -> Seq<char> {
    trimmed(rewritten("<@[A-Z0-9]+>"@, text, ""@))
}

/// Removes user mentions and trims the rest.
pub fn strip_mentions(text: &str) -> (r: String)
    ensures
        r@ == without_mentions(text@),
{
    let s = rewrite("<@[A-Z0-9]+>", text, "");
    trim(s.as_str())
}

} // verus!
