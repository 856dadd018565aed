use vstd::prelude::*;
use vstd::string::*;

use crate::error::AdapterError;
use crate::guard::{acquire_step, ExecutionGuard, Permit};
use crate::prompt::{answer_prefix, flat_text, prompt_answer_prefix, Prompt};
use crate::tokens::{estimate_tokens, prefix_tokens_view, tokens_view, usage, TokenCount, MAX_TOKENS};
use crate::wire::{completion_outcome, completion_request, completion_result, CallFault, ReqCompletion, ResCompletion};

verus! {

#[verifier::external_type_specification]
#[verifier::external_body]
pub struct ExClient(reqwest::Client);

/// Where the backend listens unless told otherwise.
pub open spec fn default_address() -> Seq<char> {
    "http://127.0.0.1:8080"@
}

/// The completion client: an HTTP connection pool and the backend's base
/// address, without a trailing `/`.
pub struct Executor {
    http: reqwest::Client,
    adress: String,
}

impl Executor {
    /// The backend's base address.
    pub closed spec fn address(&self) -> Seq<char> {
        self.adress@
    }

    /// A client for the backend at `address`.
    pub fn new(http: reqwest::Client, address: String) -> (r: Executor)
        ensures
            r.address() == address@,
    {
        Executor { http, adress: address }
    }

    /// A client for the backend at the local default address,
    /// `http://127.0.0.1:8080`.
    pub fn new_with_options(http: reqwest::Client) -> (r: Executor)
        ensures
            r.address() == default_address(),
    {
        Executor { http, adress: String::from_str("http://127.0.0.1:8080") }
    }

    /// The connection pool that calls go through.
    pub fn http(&self) -> &reqwest::Client {
        &self.http
    }

    /// The base address followed by `path`.
    fn endpoint(&self, path: &str) -> (r: String)
        ensures
            r@ == self.address() + path@,
    {
        let mut url = self.adress.clone();
        url.append(path);
        url
    }

    /// The URL of the completion endpoint.
    pub fn completion_url(&self) -> (r: String)
        ensures
            r@ == self.address() + "/completion"@,
    {
        self.endpoint("/completion")
    }

    /// The URL of the tokenize endpoint.
    pub fn tokenize_url(&self) -> (r: String)
        ensures
            r@ == self.address() + "/tokenize"@,
    {
        self.endpoint("/tokenize")
    }

    /// The URL of the detokenize endpoint.
    pub fn detokenize_url(&self) -> (r: String)
        ensures
            r@ == self.address() + "/detokenize"@,
    {
        self.endpoint("/detokenize")
    }

    /// The token ceiling of generation.
    pub fn max_tokens_allowed(&self) -> (r: i32)
        ensures
            r == MAX_TOKENS,
    {
        MAX_TOKENS
    }

    /// The answer prefix of a prompt: a role marker for a chat, none for text.
    pub fn answer_prefix(&self, prompt: &Prompt) -> (r: Option<String>)
        ensures
            r is Some <==> prompt_answer_prefix(*prompt) is Some,
            r is Some ==> r->Some_0@ == prompt_answer_prefix(*prompt)->Some_0,
    {
        answer_prefix(prompt)
    }

    /// The budget of a prompt, from the tokenization of its flattened text
    /// and of its answer prefix.
    pub fn tokens_used(
        &self,
        text_tokens: &Result<Vec<usize>, AdapterError>,
        prefix_tokens: &Option<Result<Vec<usize>, AdapterError>>,
    ) -> (r: Result<TokenCount, AdapterError>)
        ensures
            match usage(tokens_view(*text_tokens), prefix_tokens_view(*prefix_tokens)) {
                Ok(n) => r is Ok && r->Ok_0@ == (MAX_TOKENS as int, n) && r->Ok_0.wf(),
                Err(e) => r == Err::<TokenCount, AdapterError>(e),
            },
    {
        estimate_tokens(text_tokens, prefix_tokens)
    }
}

/// Admits one inference: takes the guard's permit and builds the completion
/// request, or refuses with `Busy` while another inference holds it.
pub fn begin_inference(guard: &mut ExecutionGuard, prompt: &Prompt, stop: Vec<String>) -> (r: Result<
    (Permit, ReqCompletion),
    AdapterError,
>)
    ensures
        (r is Ok, final(guard)@) == acquire_step(old(guard)@),
        r is Err ==> r == Err::<(Permit, ReqCompletion), AdapterError>(AdapterError::Busy),
        r is Ok ==> r->Ok_0.1.prompt@ == flat_text(*prompt) && r->Ok_0.1.stop@ == stop@,
{
    match guard.try_acquire() {
        None => Err(AdapterError::Busy),
        Some(permit) => Ok((permit, completion_request(prompt, stop))),
    }
}

/// Ends an inference: releases the permit whatever the call gave, and reads
/// the outcome of the completion call.
pub fn finish_inference(
    guard: &mut ExecutionGuard,
    permit: Permit,
    outcome: Result<ResCompletion, CallFault>,
) -> (r: Result<String, AdapterError>)
    ensures
        !final(guard)@,
        match completion_outcome(outcome) {
            Ok(s) => r is Ok && r->Ok_0@ == s,
            Err(e) => r == Err::<String, AdapterError>(e),
        },
{
    guard.release(permit);
    completion_result(outcome)
}

} // verus!
