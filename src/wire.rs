use vstd::prelude::*;
use vstd::string::*;

use crate::error::AdapterError;
use crate::prompt::{flat_text, Prompt};

verus! {

/// Body of `POST /completion`.
#[derive(Clone, Debug)]
pub struct ReqCompletion {
    pub prompt: String,
    pub stop: Vec<String>,
}

/// Answer of `POST /completion`.
#[derive(Clone, Debug)]
pub struct ResCompletion {
    pub content: String,
}

/// Body of `POST /tokenize`.
#[derive(Clone, Debug)]
pub struct ReqTokenize {
    pub content: String,
}

/// Answer of `POST /tokenize`.
#[derive(Clone, Debug)]
pub struct ResTokenize {
    pub tokens: Vec<usize>,
}

/// Body of `POST /detokenize`.
#[derive(Clone, Debug)]
pub struct ReqDetokenize {
    pub tokens: Vec<usize>,
}

/// Answer of `POST /detokenize`.
#[derive(Clone, Debug)]
pub struct ResDetokenize {
    pub content: String,
}

/// Why a call to the backend gave no usable answer.
#[derive(Clone, Copy, Debug, PartialEq, Eq, Structural)]
pub enum CallFault {
    /// The connection failed or timed out.
    Transport,
    /// The answer's body did not have the expected shape.
    Malformed,
}

/// The request that asks the backend to complete `prompt`, stopping at any
/// of `stop`.
pub fn completion_request(prompt: &Prompt, stop: Vec<String>) -> (r: ReqCompletion)
    ensures
        r.prompt@ == flat_text(*prompt),
        r.stop@ == stop@,
{
    ReqCompletion { prompt: prompt.to_text(), stop }
}

/// The request that asks the backend for the tokens of `text`.
pub fn tokenize_request(text: &str) -> (r: ReqTokenize)
    ensures
        r.content@ == text@,
{
    ReqTokenize { content: String::from_str(text) }
}

/// The request that asks the backend for the text of `tokens`.
pub fn detokenize_request(tokens: Vec<usize>) -> (r: ReqDetokenize)
    ensures
        r.tokens@ == tokens@,
{
    ReqDetokenize { tokens }
}

/// What a completion call yields: the generated text verbatim, or the
/// failure that the fault stands for.
pub open spec fn completion_outcome(r: Result<ResCompletion, CallFault>) -> Result<Seq<char>, AdapterError> {
    match r {
        Ok(res) => Ok(res.content@),
        Err(CallFault::Transport) => Err(AdapterError::TransportError),
        Err(CallFault::Malformed) => Err(AdapterError::ProtocolError),
    }
}

/// Reads the outcome of a completion call. The text is not trimmed.
pub fn completion_result(r: Result<ResCompletion, CallFault>) -> (out: Result<String, AdapterError>)
    ensures
        match completion_outcome(r) {
            Ok(s) => out is Ok && out->Ok_0@ == s,
            Err(e) => out == Err::<String, AdapterError>(e),
        },
{
    match r {
        Ok(res) => Ok(res.content),
        Err(CallFault::Transport) => Err(AdapterError::TransportError),
        Err(CallFault::Malformed) => Err(AdapterError::ProtocolError),
    }
}

/// What a tokenize call yields: the backend's tokens as they came, or
/// `TokenizationError` on any fault.
pub open spec fn tokenize_outcome(r: Result<ResTokenize, CallFault>) -> Result<Seq<usize>, AdapterError> {
    match r {
        Ok(res) => Ok(res.tokens@),
        Err(_) => Err(AdapterError::TokenizationError),
    }
}

/// What a detokenize call yields: the backend's text as it came, or
/// `TokenizationError` on any fault.
pub open spec fn detokenize_outcome(r: Result<ResDetokenize, CallFault>) -> Result<Seq<char>, AdapterError> {
    match r {
        Ok(res) => Ok(res.content@),
        Err(_) => Err(AdapterError::TokenizationError),
    }
}

/// Reads the outcome of a tokenize call.
pub fn tokenize_result(r: Result<ResTokenize, CallFault>) -> (out: Result<Vec<usize>, AdapterError>)
    ensures
        match tokenize_outcome(r) {
            Ok(t) => out is Ok && out->Ok_0@ == t,
            Err(e) => out == Err::<Vec<usize>, AdapterError>(e),
        },
{
    match r {
        Ok(res) => Ok(res.tokens),
        Err(_) => Err(AdapterError::TokenizationError),
    }
}

/// Reads the outcome of a detokenize call.
pub fn detokenize_result(r: Result<ResDetokenize, CallFault>) -> (out: Result<String, AdapterError>)
    ensures
        match detokenize_outcome(r) {
            Ok(s) => out is Ok && out->Ok_0@ == s,
            Err(e) => out == Err::<String, AdapterError>(e),
        },
{
    match r {
        Ok(res) => Ok(res.content),
        Err(_) => Err(AdapterError::TokenizationError),
    }
}

/// A round trip through the adapter passes the backend's results on
/// unchanged: the tokens of a tokenize answer come out as they are, the
/// request for their text carries them as they are, and the text of the
/// detokenize answer comes out as it is. So where the backend's detokenize
/// gives back the text that it tokenized, so does the adapter.
pub proof fn lemma_round_trip(text: Seq<char>, tokenized: ResTokenize, detokenized: ResDetokenize)
    requires
        detokenized.content@ == text,
    ensures
        tokenize_outcome(Ok(tokenized)) == Ok::<Seq<usize>, AdapterError>(tokenized.tokens@),
        (ReqDetokenize { tokens: tokenized.tokens }).tokens@ == tokenized.tokens@,
        detokenize_outcome(Ok(detokenized)) == Ok::<Seq<char>, AdapterError>(text),
{
}

} // verus!
