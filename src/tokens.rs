use vstd::prelude::*;

use crate::error::AdapterError;
use crate::prompt::{ends_in_newline, flat_text, prompt_answer_prefix, role_text, Prompt, Role};

verus! {

/// The token ceiling that generation is held to.
pub const MAX_TOKENS: i32 = 128;

/// Token usage against a ceiling. The count used is never negative; what
/// remains may be, which signals a prompt already over budget.
#[derive(Clone, Copy, Debug)]
pub struct TokenCount {
    max: i32,
    used: i32,
}

impl View for TokenCount {
    /// The ceiling and the count used.
    type V = (int, int);

    closed spec fn view(&self) -> (int, int) {
        (self.max as int, self.used as int)
    }
}

impl TokenCount {
    pub open spec fn wf(&self) -> bool {
        self@.1 >= 0
    }

    /// What remains of the budget, as an integer.
    pub open spec fn remaining(&self) -> int {
        self@.0 - self@.1
    }

    /// The ceiling.
    pub fn max_tokens(&self) -> (r: i32)
        ensures
            r == self@.0,
    {
        self.max
    }

    /// The count used.
    pub fn tokens_used(&self) -> (r: i32)
        ensures
            r == self@.1,
    {
        self.used
    }

    /// What remains of the budget; negative when the usage is over the
    /// ceiling, never clamped.
    pub fn tokens_remaining(&self) -> (r: i64)
        ensures
            r == self.remaining(),
    {
        self.max as i64 - self.used as i64
    }
}

/// The budget for a usage of `used` tokens against a ceiling of `max_tokens`.
pub fn budget(max_tokens: i32, used: i32) -> (r: TokenCount)
    requires
        used >= 0,
    ensures
        r@ == (max_tokens as int, used as int),
        r.wf(),
{
    TokenCount { max: max_tokens, used }
}

/// The number of tokens that a prompt uses, from the tokenization of its
/// flattened text and, where the prompt has an answer prefix, of that
/// prefix. A failed tokenization, or a sum past `i32::MAX`, leaves the usage
/// unknown.
pub open spec fn usage(
    text_tokens: Result<Seq<usize>, AdapterError>,
    prefix_tokens: Option<Result<Seq<usize>, AdapterError>>,
) -> Result<int, AdapterError> {
    match text_tokens {
        Err(_) => Err(AdapterError::UnableToCompute),
        Ok(a) => match prefix_tokens {
            None => if a.len() <= i32::MAX {
                Ok(a.len() as int)
            } else {
                Err(AdapterError::UnableToCompute)
            },
            Some(Err(_)) => Err(AdapterError::UnableToCompute),
            Some(Ok(b)) => if a.len() + b.len() <= i32::MAX {
                Ok((a.len() + b.len()) as int)
            } else {
                Err(AdapterError::UnableToCompute)
            },
        },
    }
}

/// The token sequences that tokenization results hold, seen as sequences.
pub open spec fn tokens_view(r: Result<Vec<usize>, AdapterError>) -> Result<Seq<usize>, AdapterError> {
    match r {
        Ok(v) => Ok(v@),
        Err(e) => Err(e),
    }
}

pub open spec fn prefix_tokens_view(r: Option<Result<Vec<usize>, AdapterError>>) -> Option<
    Result<Seq<usize>, AdapterError>,
> {
    match r {
        None => None,
        Some(t) => Some(tokens_view(t)),
    }
}

/// Sums the tokens of a prompt's text and of its answer prefix. Any failed
/// tokenization is reported as `UnableToCompute`.
pub fn tokens_used(
    text_tokens: &Result<Vec<usize>, AdapterError>,
    prefix_tokens: &Option<Result<Vec<usize>, AdapterError>>,
) -> (r: Result<i32, AdapterError>)
    ensures
        match usage(tokens_view(*text_tokens), prefix_tokens_view(*prefix_tokens)) {
            Ok(n) => r == Ok::<i32, AdapterError>(n as i32),
            Err(e) => r == Err::<i32, AdapterError>(e),
        },
{
    let a = match text_tokens {
        Ok(v) => v.len(),
        Err(_) => {
            return Err(AdapterError::UnableToCompute);
        },
    };
    let b = match prefix_tokens {
        None => 0,
        Some(Ok(v)) => v.len(),
        Some(Err(_)) => {
            return Err(AdapterError::UnableToCompute);
        },
    };
    if a > i32::MAX as usize || b > i32::MAX as usize - a {
        return Err(AdapterError::UnableToCompute);
    }
    Ok((a + b) as i32)
}

/// The budget of a prompt against the configured ceiling, from the
/// tokenization of its text and of its answer prefix.
pub fn estimate_tokens(
    text_tokens: &Result<Vec<usize>, AdapterError>,
    prefix_tokens: &Option<Result<Vec<usize>, AdapterError>>,
) -> (r: Result<TokenCount, AdapterError>)
    ensures
        match usage(tokens_view(*text_tokens), prefix_tokens_view(*prefix_tokens)) {
            Ok(n) => r is Ok && r->Ok_0@ == (MAX_TOKENS as int, n) && r->Ok_0.wf(),
            Err(e) => r == Err::<TokenCount, AdapterError>(e),
        },
{
    match tokens_used(text_tokens, prefix_tokens) {
        Ok(n) => Ok(budget(MAX_TOKENS, n)),
        Err(e) => Err(e),
    }
}

/// What remains of a budget is the ceiling minus the usage, negative results
/// included.
pub proof fn lemma_budget_arithmetic(max_tokens: i32, used: i32, c: TokenCount)
    requires
        used >= 0,
        c@ == (max_tokens as int, used as int),
    ensures
        c.remaining() == max_tokens - used,
        used > max_tokens ==> c.remaining() < 0,
{
}

/// A chat prompt whose text does not end in a newline is charged for the
/// tokens of a newline and the assistant marker; one whose text ends in a
/// newline, for the marker alone. In both cases the usage is the tokens of
/// the text plus those of the prefix.
pub proof fn lemma_answer_prefix_accounting(prompt: Prompt, text_tokens: Seq<usize>, prefix_tokens: Seq<usize>)
    requires
        prompt is Chat,
        text_tokens.len() + prefix_tokens.len() <= i32::MAX,
    ensures
        !ends_in_newline(flat_text(prompt)) ==> prompt_answer_prefix(prompt) == Some(
            "\n"@ + role_text(Role::Assistant) + ":"@,
        ),
        ends_in_newline(flat_text(prompt)) ==> prompt_answer_prefix(prompt) == Some(
            role_text(Role::Assistant) + ":"@,
        ),
        usage(Ok(text_tokens), Some(Ok(prefix_tokens))) == Ok::<int, AdapterError>(
            (text_tokens.len() + prefix_tokens.len()) as int,
        ),
{
}

} // verus!
