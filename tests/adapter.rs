use llama_bot::assemble::{instruction_prompt, mention_tag, message_prompt, reply_text, request_text};
use llama_bot::error::{AdapterError, RegistryError};
use llama_bot::executor::{begin_inference, finish_inference, Executor};
use llama_bot::guard::ExecutionGuard;
use llama_bot::prompt::{answer_prefix, ChatTurn, Prompt, Role};
use llama_bot::registry::{should_respond, ChatRegistry, ChatSession, Privacy, Trigger};
use llama_bot::tokens::{budget, estimate_tokens, tokens_used, MAX_TOKENS};
use llama_bot::wire::{
    completion_request, completion_result, detokenize_request, detokenize_result, tokenize_request,
    tokenize_result, CallFault, ResCompletion, ResDetokenize, ResTokenize,
};

fn turn(role: Role, body: &str) -> ChatTurn {
    ChatTurn { role, body: body.to_string() }
}

#[test]
fn budget_remaining_is_difference() {
    let c = budget(128, 100);
    assert_eq!(c.max_tokens(), 128);
    assert_eq!(c.tokens_used(), 100);
    assert_eq!(c.tokens_remaining(), 28);
}

#[test]
fn budget_remaining_goes_negative() {
    let c = budget(128, 200);
    assert_eq!(c.tokens_remaining(), -72);
    let extreme = budget(i32::MIN, i32::MAX);
    assert_eq!(extreme.tokens_remaining(), i32::MIN as i64 - i32::MAX as i64);
}

#[test]
fn chat_prompt_flattens_one_line_per_turn() {
    let p = Prompt::Chat(vec![turn(Role::User, "hi"), turn(Role::Other("Bob".to_string()), "yo")]);
    assert_eq!(p.to_text(), "User: hi\nBob: yo\n");
    assert_eq!(Prompt::Text("plain".to_string()).to_text(), "plain");
}

#[test]
fn answer_prefix_after_newline_has_marker_only() {
    let p = Prompt::Chat(vec![turn(Role::User, "hello")]);
    assert_eq!(answer_prefix(&p), Some("Assistant:".to_string()));
}

#[test]
fn answer_prefix_without_newline_starts_with_one() {
    let p = Prompt::Chat(vec![]);
    assert_eq!(answer_prefix(&p), Some("\nAssistant:".to_string()));
}

#[test]
fn text_prompt_has_no_answer_prefix() {
    assert_eq!(answer_prefix(&Prompt::Text("Hello".to_string())), None);
}

#[test]
fn usage_counts_text_and_prefix() {
    let used = tokens_used(&Ok(vec![1, 2, 3]), &Some(Ok(vec![4, 5])));
    assert_eq!(used, Ok(5));
    assert_eq!(tokens_used(&Ok(vec![1, 2, 3]), &None), Ok(3));
    let c = estimate_tokens(&Ok(vec![7; 130]), &Some(Ok(vec![8; 2]))).unwrap();
    assert_eq!(c.max_tokens(), MAX_TOKENS);
    assert_eq!(c.tokens_used(), 132);
    assert_eq!(c.tokens_remaining(), -4);
}

#[test]
fn failed_tokenization_leaves_usage_unknown() {
    assert_eq!(
        tokens_used(&Err(AdapterError::TokenizationError), &None),
        Err(AdapterError::UnableToCompute)
    );
    assert_eq!(
        tokens_used(&Ok(vec![1]), &Some(Err(AdapterError::TokenizationError))),
        Err(AdapterError::UnableToCompute)
    );
    assert!(matches!(
        estimate_tokens(&Err(AdapterError::TransportError), &None),
        Err(AdapterError::UnableToCompute)
    ));
}

#[test]
fn second_inference_is_busy_until_first_ends() {
    let mut guard = ExecutionGuard::new();
    let prompt = Prompt::Text("Hello".to_string());
    let first = begin_inference(&mut guard, &prompt, vec![]);
    assert!(first.is_ok());
    assert!(guard.is_busy());
    let second = begin_inference(&mut guard, &prompt, vec![]);
    assert!(matches!(second, Err(AdapterError::Busy)));
    let (permit, _req) = first.unwrap();
    let done = finish_inference(&mut guard, permit, Err(CallFault::Transport));
    assert_eq!(done, Err(AdapterError::TransportError));
    assert!(!guard.is_busy());
    assert!(begin_inference(&mut guard, &prompt, vec![]).is_ok());
}

#[test]
fn guard_grants_one_permit_at_a_time() {
    let mut guard = ExecutionGuard::new();
    let p = guard.try_acquire();
    assert!(p.is_some());
    assert!(guard.try_acquire().is_none());
    guard.release(p.unwrap());
    assert!(guard.try_acquire().is_some());
}

#[test]
fn inference_returns_text_verbatim() {
    let mut guard = ExecutionGuard::new();
    let prompt = Prompt::Text("Hello".to_string());
    let (permit, req) = begin_inference(&mut guard, &prompt, vec!["\n".to_string()]).unwrap();
    assert_eq!(req.prompt, "Hello");
    assert_eq!(req.stop, vec!["\n".to_string()]);
    let out = finish_inference(&mut guard, permit, Ok(ResCompletion { content: "Hi there\n".to_string() }));
    assert_eq!(out, Ok("Hi there\n".to_string()));
    assert!(!guard.is_busy());
}

#[test]
fn wire_faults_map_to_errors() {
    assert_eq!(completion_result(Err(CallFault::Transport)), Err(AdapterError::TransportError));
    assert_eq!(completion_result(Err(CallFault::Malformed)), Err(AdapterError::ProtocolError));
    assert_eq!(tokenize_result(Err(CallFault::Transport)), Err(AdapterError::TokenizationError));
    assert_eq!(detokenize_result(Err(CallFault::Malformed)), Err(AdapterError::TokenizationError));
}

#[test]
fn round_trip_passes_backend_values_through() {
    let req = tokenize_request("héllo");
    assert_eq!(req.content, "héllo");
    let tokens = tokenize_result(Ok(ResTokenize { tokens: vec![15, 2, 99] })).unwrap();
    assert_eq!(tokens, vec![15, 2, 99]);
    let back = detokenize_request(tokens);
    assert_eq!(back.tokens, vec![15, 2, 99]);
    let text = detokenize_result(Ok(ResDetokenize { content: "héllo".to_string() }));
    assert_eq!(text, Ok("héllo".to_string()));
}

#[test]
fn completion_request_flattens_chat() {
    let p = Prompt::Chat(vec![turn(Role::System, "be brief"), turn(Role::Assistant, "ok")]);
    let req = completion_request(&p, vec![]);
    assert_eq!(req.prompt, "System: be brief\nAssistant: ok\n");
    assert!(req.stop.is_empty());
}

#[test]
fn executor_builds_endpoint_urls() {
    let exec = Executor::new_with_options(reqwest::Client::new());
    assert_eq!(exec.completion_url(), "http://127.0.0.1:8080/completion");
    assert_eq!(exec.tokenize_url(), "http://127.0.0.1:8080/tokenize");
    assert_eq!(exec.detokenize_url(), "http://127.0.0.1:8080/detokenize");
    let other = Executor::new(reqwest::Client::new(), "http://llm:9000".to_string());
    assert_eq!(other.completion_url(), "http://llm:9000/completion");
    assert_eq!(exec.max_tokens_allowed(), 128);
}

#[test]
fn executor_accounts_chat_prompt() {
    let exec = Executor::new_with_options(reqwest::Client::new());
    let p = Prompt::Chat(vec![turn(Role::User, "hi")]);
    assert_eq!(exec.answer_prefix(&p), Some("Assistant:".to_string()));
    let c = exec.tokens_used(&Ok(vec![1, 2]), &Some(Ok(vec![3]))).unwrap();
    assert_eq!(c.tokens_used(), 3);
    assert_eq!(c.tokens_remaining(), 125);
}

#[test]
fn contradictory_session_is_refused() {
    let mut reg = ChatRegistry::new();
    assert_eq!(
        reg.register(1, Trigger::OnMessage, Privacy::OnlyMentions),
        Err(RegistryError::InvalidCombination)
    );
    assert_eq!(reg.lookup(1), None);
    assert_eq!(ChatSession::new(Trigger::OnMessage, Privacy::OnlyMentions), Err(RegistryError::InvalidCombination));
}

#[test]
fn other_three_combinations_register() {
    let mut reg = ChatRegistry::new();
    assert_eq!(reg.register(1, Trigger::OnMessage, Privacy::AllMessages), Ok(()));
    assert_eq!(reg.register(2, Trigger::OnMention, Privacy::AllMessages), Ok(()));
    assert_eq!(reg.register(3, Trigger::OnMention, Privacy::OnlyMentions), Ok(()));
    assert_eq!(
        reg.lookup(3),
        Some(ChatSession { trigger: Trigger::OnMention, privacy: Privacy::OnlyMentions })
    );
}

#[test]
fn second_registration_on_a_channel_fails() {
    let mut reg = ChatRegistry::new();
    assert_eq!(reg.register(7, Trigger::OnMention, Privacy::AllMessages), Ok(()));
    assert_eq!(reg.register(7, Trigger::OnMessage, Privacy::AllMessages), Err(RegistryError::AlreadyExists));
    assert_eq!(
        reg.lookup(7),
        Some(ChatSession { trigger: Trigger::OnMention, privacy: Privacy::AllMessages })
    );
}

#[test]
fn trigger_gating() {
    let every = ChatSession { trigger: Trigger::OnMessage, privacy: Privacy::AllMessages };
    let mention = ChatSession { trigger: Trigger::OnMention, privacy: Privacy::OnlyMentions };
    assert!(should_respond(every, true));
    assert!(should_respond(every, false));
    assert!(should_respond(mention, true));
    assert!(!should_respond(mention, false));
}

#[test]
fn handling_follows_session_or_mentions() {
    let mut reg = ChatRegistry::new();
    reg.register(5, Trigger::OnMessage, Privacy::AllMessages).unwrap();
    assert!(reg.should_handle(5, false, false));
    assert!(!reg.should_handle(5, true, true));
    assert!(reg.should_handle(6, false, true));
    assert!(!reg.should_handle(6, false, false));
}

#[test]
fn mention_tag_pads_discriminator() {
    assert_eq!(mention_tag("bot", Some(42)), "@bot#0042");
    assert_eq!(mention_tag("bot", Some(1234)), "@bot#1234");
    assert_eq!(mention_tag("bot", Some(65535)), "@bot#65535");
    assert_eq!(mention_tag("bot", None), "@bot");
}

#[test]
fn request_drops_leading_mentions_and_space() {
    assert_eq!(request_text("@bot#0042@bot#0042  tell me a joke \n", "bot", Some(42)), "tell me a joke");
    assert_eq!(request_text("@bot#0042 @bot#0042 again", "bot", Some(42)), "@bot#0042 again");
    assert_eq!(request_text("@bot what is 2+2?", "bot", None), "what is 2+2?");
    assert_eq!(request_text("hi @bot", "bot", None), "hi @bot");
}

#[test]
fn instruction_template_wraps_request() {
    assert_eq!(
        instruction_prompt("say hi"),
        "Below is an instruction that describes a task. Write a response that appropriately completes the request.\n\n### Instruction:\nsay hi\n\n### Response:\n"
    );
    assert_eq!(message_prompt("@bot say hi", "bot", None), instruction_prompt("say hi"));
}

#[test]
fn reply_is_trimmed_for_display() {
    assert_eq!(reply_text("  Hi there\n"), "Hi there");
    assert_eq!(reply_text(" \n "), "");
}
