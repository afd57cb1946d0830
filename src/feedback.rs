use vstd::prelude::*;
use crate::text::str_eq;
use crate::types::{ApiError, ErrorCode, ReactionResult};

verus! {

/// Spec of the feedback score: both kinds present give 0, only positive
/// gives 1, only negative gives -1, none gives nothing.
pub open spec fn score_of(positive: i64, negative: i64) -> Option<i32> {
    if positive > 0 && negative > 0 {
        Some(0i32)
    } else if positive > 0 {
        Some(1i32)
    } else if negative > 0 {
        Some(-1i32)
    } else {
        None
    }
}

pub fn calculate_score(positive: i64, negative: i64) -> (r: Option<i32>)
    ensures
        r == score_of(positive, negative),
{
    if positive > 0 && negative > 0 {
        Some(0)
    } else if positive > 0 {
        Some(1)
    } else if negative > 0 {
        Some(-1)
    } else {
        None
    }
}

/// The reactions that count as feedback: thumbs up or down.
pub open spec fn feedback_reaction(r: Seq<char>) -> bool {
    r == "thumbsup"@ || r == "+1"@ || r == "thumbsdown"@ || r == "-1"@
}

/// The reactions that trigger work: the number names from zero to nine.
pub open spec fn trigger_reaction(r: Seq<char>) -> bool {
    r == "one"@ || r == "two"@ || r == "three"@ || r == "four"@ || r == "five"@ || r == "six"@
        || r == "seven"@ || r == "eight"@ || r == "nine"@ || r == "zero"@
}

/// Whether a reaction counts as feedback.
pub fn is_feedback_reaction(reaction: &str) -> (r: bool)
    ensures
        r == feedback_reaction(reaction@),
{
    str_eq(reaction, "thumbsup") || str_eq(reaction, "+1") || str_eq(reaction, "thumbsdown")
        || str_eq(reaction, "-1")
}

fn is_trigger_reaction(reaction: &str) -> (r: bool)
    ensures
        r == trigger_reaction(reaction@),
{
    str_eq(reaction, "one") || str_eq(reaction, "two") || str_eq(reaction, "three") || str_eq(
        reaction,
        "four",
    ) || str_eq(reaction, "five") || str_eq(reaction, "six") || str_eq(reaction, "seven")
        || str_eq(reaction, "eight") || str_eq(reaction, "nine") || str_eq(reaction, "zero")
}

/// What a reaction on an execution means.
#[derive(Debug, Clone, Copy, PartialEq, Eq, Structural)]
pub enum ReactionCategory {
    Feedback,
    Trigger,
    Action,
}

impl ReactionCategory {
    pub fn as_str(&self) -> (r: &'static str)
        ensures
            r@ == (match *self {
                ReactionCategory::Feedback => "feedback"@,
                ReactionCategory::Trigger => "trigger"@,
                ReactionCategory::Action => "action"@,
            }),
    {
        proof {
            reveal_strlit("feedback");
            reveal_strlit("trigger");
            reveal_strlit("action");
        }
        match self {
            ReactionCategory::Feedback => "feedback",
            ReactionCategory::Trigger => "trigger",
            ReactionCategory::Action => "action",
        }
    }

    /// Feedback for thumbs, trigger for number names, action for the rest.
    pub fn from_reaction(reaction: &str) -> (r: ReactionCategory)
        ensures
            r == (if feedback_reaction(reaction@) {
                ReactionCategory::Feedback
            } else if trigger_reaction(reaction@) {
                ReactionCategory::Trigger
            } else {
                ReactionCategory::Action
            }),
    {
        if is_feedback_reaction(reaction) {
            ReactionCategory::Feedback
        } else if is_trigger_reaction(reaction) {
            ReactionCategory::Trigger
        } else {
            ReactionCategory::Action
        }
    }
}

/// Feedback on an execution may come only from its requester.
/// `execution_requester` is `None` where the execution was not found, and
/// otherwise holds its requester, where it has one.
pub fn validate_feedback_permission(reaction: &str, execution_requester: Option<Option<&str>>, user_id: &str) -> (r: Result<(), ApiError>)
    ensures
        r is Err <==> (feedback_reaction(reaction@) && match execution_requester {
            Some(Some(req)) => req@ != user_id@,
            Some(None) => true,
            None => false,
        }),
        r matches Err(e) ==> e.code == ErrorCode::Forbidden && e.message@ == "only the original requester can add feedback"@,
{
    if is_feedback_reaction(reaction) {
        let other = match execution_requester {
            Some(Some(req)) => !str_eq(req, user_id),
            Some(None) => true,
            None => false,
        };
        if other {
            return Err(ApiError::forbidden("only the original requester can add feedback"));
        }
    }
    Ok(())
}

/// The outcome of recording a reaction: a user's second feedback replaces the
/// first; a trigger already left on the execution is not recorded again;
/// anything else is a new record.
pub open spec fn reaction_outcome(category: ReactionCategory, had_feedback: bool, already_triggered: bool) -> ReactionResult {
    match category {
        ReactionCategory::Feedback => if had_feedback { ReactionResult::Updated } else { ReactionResult::Created },
        ReactionCategory::Trigger => if already_triggered { ReactionResult::AlreadyTriggered } else { ReactionResult::Created },
        ReactionCategory::Action => ReactionResult::Created,
    }
}

/// The outcome of recording a reaction of `category`, given whether the user
/// already left feedback on the execution and whether the same trigger was
/// already left on it.
pub fn reaction_result(category: ReactionCategory, had_feedback: bool, already_triggered: bool) -> (r: ReactionResult)
    ensures
        r == reaction_outcome(category, had_feedback, already_triggered),
{
    match category {
        ReactionCategory::Feedback => if had_feedback { ReactionResult::Updated } else { ReactionResult::Created },
        ReactionCategory::Trigger => if already_triggered { ReactionResult::AlreadyTriggered } else { ReactionResult::Created },
        ReactionCategory::Action => ReactionResult::Created,
    }
}

impl ReactionResult {
    /// The name of the outcome.
    pub fn as_str(&self) -> (r: &'static str)
        ensures
            r@ == (match *self {
                ReactionResult::Created => "created"@,
                ReactionResult::Updated => "updated"@,
                ReactionResult::AlreadyTriggered => "already_triggered"@,
            }),
    {
        proof {
            reveal_strlit("created");
            reveal_strlit("updated");
            reveal_strlit("already_triggered");
        }
        match self {
            ReactionResult::Created => "created",
            ReactionResult::Updated => "updated",
            ReactionResult::AlreadyTriggered => "already_triggered",
        }
    }
}

} // verus!
