use vstd::prelude::*;
use vstd::string::StringExecFns;
use crate::text::{chars_of, lower_of, lowercase, push_char, str_eq, string_of, whitespace, is_whitespace};

verus! {

/// Whether `char::is_alphanumeric` holds of the character.
pub uninterp spec fn alphanumeric(c: char) -> bool;

/// Relies on char::is_alphanumeric: the Unicode Alphabetic or Numeric property.
#[verifier::external_body]
fn is_alphanumeric(c: char) -> (r: bool)
    ensures
        r == alphanumeric(c),
{
    c.is_alphanumeric()
}

/// The words of `s` (runs between white space) joined by `-`, with a flag
/// that a separator is due before the next word.
pub open spec fn dash_state(s: Seq<char>) -> (Seq<char>, bool)
    decreases s.len(),
{
    if s.len() == 0 {
        (Seq::empty(), false)
    } else {
        let (acc, gap) = dash_state(s.drop_last());
        let c = s.last();
        if whitespace(c) {
            (acc, acc.len() > 0)
        } else if gap {
            (acc + seq!['-', c], false)
        } else {
            (acc.push(c), false)
        }
    }
}

/// The characters of `s` that a slug keeps: alphanumerics and `-`.
pub open spec fn slug_chars(s: Seq<char>) -> Seq<char>
    decreases s.len(),
{
    if s.len() == 0 {
        Seq::empty()
    } else if alphanumeric(s.last()) || s.last() == '-' {
        slug_chars(s.drop_last()).push(s.last())
    } else {
        slug_chars(s.drop_last())
    }
}

/// `s` without leading `-`.
pub open spec fn trim_start_dash(s: Seq<char>) -> Seq<char>
    decreases s.len(),
{
    if s.len() > 0 && s[0] == '-' {
        trim_start_dash(s.drop_first())
    } else {
        s
    }
}

/// `s` without trailing `-`.
pub open spec fn trim_end_dash(s: Seq<char>) -> Seq<char>
    decreases s.len(),
{
    if s.len() > 0 && s.last() == '-' {
        trim_end_dash(s.drop_last())
    } else {
        s
    }
}

/// The slug of a name: lower case, words joined by `-`, only alphanumerics
/// and `-` kept, no `-` at either end.
pub open spec fn slug_of(name: Seq<char>) -> Seq<char> {
    trim_end_dash(trim_start_dash(slug_chars(dash_state(lower_of(name)).0)))
}

/// The slug of a name; see `slug_of`.
pub fn slugify(name: &str) -> (r: String)
    ensures
        r@ == slug_of(name@),
{
    let lower = lowercase(name);
    let cs = chars_of(lower.as_str());
    let n = cs.len();
    let mut acc: Vec<char> = Vec::new();
    let mut gap = false;
    let mut i: usize = 0;
    while i < n
        invariant
            i <= n,
            n == cs@.len(),
            cs@ == lower_of(name@),
            (acc@, gap) == dash_state(cs@.subrange(0, i as int)),
        decreases n - i,
    {
        let c = cs[i];
        assert(cs@.subrange(0, i + 1).drop_last() =~= cs@.subrange(0, i as int));
        if is_whitespace(c) {
            gap = acc.len() > 0;
        } else if gap {
            acc.push('-');
            acc.push(c);
            gap = false;
        } else {
            acc.push(c);
        }
        proof {
            let (pa, pg) = dash_state(cs@.subrange(0, i as int));
            if !whitespace(c) && pg {
                assert(acc@ =~= pa + seq!['-', c]);
            }
        }
        i = i + 1;
    }
    assert(cs@.subrange(0, n as int) =~= cs@);
    let mut kept: Vec<char> = Vec::new();
    let mut j: usize = 0;
    while j < acc.len()
        invariant
            j <= acc@.len(),
            kept@ == slug_chars(acc@.subrange(0, j as int)),
        decreases acc@.len() - j,
    {
        let c = acc[j];
        assert(acc@.subrange(0, j + 1).drop_last() =~= acc@.subrange(0, j as int));
        if is_alphanumeric(c) || c == '-' {
            kept.push(c);
        }
        j = j + 1;
    }
    assert(acc@.subrange(0, acc@.len() as int) =~= acc@);
    let m = kept.len();
    let mut a: usize = 0;
    assert(kept@.subrange(0, m as int) =~= kept@);
    while a < m && kept[a] == '-'
        invariant
            a <= m,
            m == kept@.len(),
            trim_start_dash(kept@) == trim_start_dash(kept@.subrange(a as int, m as int)),
        decreases m - a,
    {
        assert(kept@.subrange(a as int, m as int).drop_first() =~= kept@.subrange(a + 1, m as int));
        a = a + 1;
    }
    let ghost t = kept@.subrange(a as int, m as int);
    let mut b: usize = m;
    assert(t.subrange(0, t.len() as int) =~= t);
    while b > a && kept[b - 1] == '-'
        invariant
            a <= b <= m,
            m == kept@.len(),
            t == kept@.subrange(a as int, m as int),
            trim_end_dash(t) == trim_end_dash(kept@.subrange(a as int, b as int)),
        decreases b,
    {
        assert(kept@.subrange(a as int, b as int).drop_last() =~= kept@.subrange(a as int, b - 1));
        b = b - 1;
    }
    let mut out: Vec<char> = Vec::new();
    let mut k: usize = a;
    while k < b
        invariant
            a <= k <= b <= m,
            m == kept@.len(),
            out@ == kept@.subrange(a as int, k as int),
        decreases b - k,
    {
        out.push(kept[k]);
        assert(out@ =~= kept@.subrange(a as int, k + 1));
        k = k + 1;
    }
    string_of(&out)
}

/// The upper-case form of a character, as `char::to_uppercase` gives it.
pub uninterp spec fn upper_of(c: char) -> Seq<char>;

/// Relies on char::to_uppercase: the characters that the character maps to.
#[verifier::external_body]
fn uppercase_char(c: char) -> (r: String)
    ensures
        r@ == upper_of(c),
{
    c.to_uppercase().collect()
}

/// `s` with each `-`-separated part capitalised and the parts joined by spaces.
pub open spec fn title_words(s: Seq<char>) -> Seq<char>
    decreases s.len(),
{
    if s.len() == 0 {
        Seq::empty()
    } else {
        let prev = title_words(s.drop_last());
        let c = s.last();
        if c == '-' {
            prev.push(' ')
        } else if s.len() == 1 || s[s.len() - 2] == '-' {
            prev + upper_of(c)
        } else {
            prev.push(c)
        }
    }
}

/// The display name of a workflow: a fixed name for the known handlers, the
/// name's parts capitalised otherwise.
pub open spec fn workflow_display_name_of(name: Seq<char>) -> Seq<char> {
    if name == "slack-mention-handler"@ {
        "Slack Mention"@
    } else if name == "slack-message-handler"@ {
        "Slack Message"@
    } else if name == "incident-reaction-handler"@ {
        "Incident Reaction"@
    } else if name == "gitlab-mr-review"@ {
        "MR Review"@
    } else if name == "feedback-handler"@ {
        "Feedback"@
    } else {
        title_words(name)
    }
}

/// The display name of a workflow; see `workflow_display_name_of`.
pub fn workflow_display_name(name: &str) -> (r: String)
    ensures
        r@ == workflow_display_name_of(name@),
{
    if str_eq(name, "slack-mention-handler") {
        return String::from_str("Slack Mention");
    } else if str_eq(name, "slack-message-handler") {
        return String::from_str("Slack Message");
    } else if str_eq(name, "incident-reaction-handler") {
        return String::from_str("Incident Reaction");
    } else if str_eq(name, "gitlab-mr-review") {
        return String::from_str("MR Review");
    } else if str_eq(name, "feedback-handler") {
        return String::from_str("Feedback");
    }
    let cs = chars_of(name);
    let mut out = String::new();
    let mut i: usize = 0;
    while i < cs.len()
        invariant
            i <= cs@.len(),
            cs@ == name@,
            out@ == title_words(cs@.subrange(0, i as int)),
        decreases cs@.len() - i,
    {
        let ghost sub = cs@.subrange(0, i + 1);
        assert(sub.drop_last() =~= cs@.subrange(0, i as int));
        let c = cs[i];
        if c == '-' {
            push_char(&mut out, ' ');
        } else if i == 0 || cs[i - 1] == '-' {
            let u = uppercase_char(c);
            crate::text::append_str(&mut out, u.as_str());
        } else {
            push_char(&mut out, c);
        }
        i = i + 1;
    }
    assert(cs@.subrange(0, cs@.len() as int) =~= cs@);
    out
}

} // verus!
