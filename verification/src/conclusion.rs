//! The closed outcome classification attached to runs, jobs and steps.

use crate::errors::UnknownConclusionError;
use crate::text::str_eq;
use vstd::prelude::*;

verus! {

/// Outcome of a run, job or step. The set is closed: any other token is
/// rejected at parse time rather than coerced into a default.
#[derive(Clone, Copy, PartialEq, Eq, Structural, Debug)]
pub enum Conclusion {
    Success,
    Failure,
    Cancelled,
    Skipped,
}

/// The parse relation: which token maps to which conclusion. Tokens are
/// matched exactly, with no trimming and no case normalization.
pub open spec fn spec_parse_conclusion(s: Seq<char>) -> Option<Conclusion> {
    if s == "success"@ {
        Some(Conclusion::Success)
    } else if s == "failure"@ {
        Some(Conclusion::Failure)
    } else if s == "cancelled"@ {
        Some(Conclusion::Cancelled)
    } else if s == "skipped"@ {
        Some(Conclusion::Skipped)
    } else {
        None
    }
}

impl Conclusion {
    /// The canonical lowercase token of this conclusion.
    pub open spec fn spec_token(self) -> Seq<char> {
        match self {
            Conclusion::Success => "success"@,
            Conclusion::Failure => "failure"@,
            Conclusion::Cancelled => "cancelled"@,
            Conclusion::Skipped => "skipped"@,
        }
    }

    /// Strict parse of a conclusion token: the matching variant, or the
    /// rejected token wrapped verbatim in an `UnknownConclusionError`.
    pub fn parse(token: &str) -> (r: Result<Conclusion, UnknownConclusionError>)
        ensures
            match spec_parse_conclusion(token@) {
                Some(c) => r matches Ok(got) && got == c,
                None => r matches Err(e) && e.details@ == token@,
            },
    {
        if str_eq(token, "success") {
            Ok(Conclusion::Success)
        } else if str_eq(token, "failure") {
            Ok(Conclusion::Failure)
        } else if str_eq(token, "cancelled") {
            Ok(Conclusion::Cancelled)
        } else if str_eq(token, "skipped") {
            Ok(Conclusion::Skipped)
        } else {
            Err(UnknownConclusionError::new(token))
        }
    }

    /// Renders the conclusion back to its canonical token.
    pub fn as_token(&self) -> (r: String)
        ensures
            r@ == self.spec_token(),
    {
        match self {
            Conclusion::Success => String::from_str("success"),
            Conclusion::Failure => String::from_str("failure"),
            Conclusion::Cancelled => String::from_str("cancelled"),
            Conclusion::Skipped => String::from_str("skipped"),
        }
    }
}

/// The four canonical tokens are pairwise distinct.
pub proof fn lemma_tokens_distinct()
    ensures
        "success"@ != "failure"@,
        "success"@ != "cancelled"@,
        "success"@ != "skipped"@,
        "failure"@ != "cancelled"@,
        "failure"@ != "skipped"@,
        "cancelled"@ != "skipped"@,
{
    reveal_strlit("success");
    reveal_strlit("failure");
    reveal_strlit("cancelled");
    reveal_strlit("skipped");
    assert("success"@[0] == 's' && "failure"@[0] == 'f' && "skipped"@[1] == 'k');
    assert("success"@.len() == 7 && "failure"@.len() == 7 && "cancelled"@.len() == 9
        && "skipped"@.len() == 7);
    assert("success"@[1] == 'u');
}

/// Every conclusion's canonical token parses back to that conclusion.
pub proof fn lemma_token_round_trip(c: Conclusion)
    ensures
        spec_parse_conclusion(c.spec_token()) == Some(c),
{
    lemma_tokens_distinct();
}

/// A token that parses successfully is the parsed conclusion's canonical
/// token: parsing loses nothing.
pub proof fn lemma_parse_round_trip(s: Seq<char>, c: Conclusion)
    requires
        spec_parse_conclusion(s) == Some(c),
    ensures
        c.spec_token() == s,
{
}

} // verus!
