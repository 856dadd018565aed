use llm_chain::prompt::{ChatMessage, ChatMessageCollection, ChatRole, Data};
use vstd::prelude::*;
use vstd::string::*;

verus! {

/// The sender of a chat turn.
#[derive(Clone, Debug)]
pub enum Role {
    User,
    Assistant,
    System,
    Other(String),
}

/// One turn of a conversation.
#[derive(Clone, Debug)]
pub struct ChatTurn {
    pub role: Role,
    pub body: String,
}

/// A prompt: a flat text block, or an ordered sequence of chat turns.
#[derive(Clone, Debug)]
pub enum Prompt {
    Text(String),
    Chat(Vec<ChatTurn>),
}

/// How a role is written in a flattened conversation.
pub open spec fn role_text(role: Role) -> Seq<char> {
    match role {
        Role::User => "User"@,
        Role::Assistant => "Assistant"@,
        Role::System => "System"@,
        Role::Other(s) => s@,
    }
}

/// One flattened turn: `<role>: <body>` and a newline.
pub open spec fn turn_text(turn: ChatTurn) -> Seq<char> {
    role_text(turn.role) + ": "@ + turn.body@ + "\n"@
}

/// The flattened turns, in order.
pub open spec fn chat_text(turns: Seq<ChatTurn>) -> Seq<char>
    decreases turns.len(),
{
    if turns.len() == 0 {
        Seq::empty()
    } else {
        chat_text(turns.drop_last()) + turn_text(turns.last())
    }
}

/// The text that a prompt flattens to.
pub open spec fn flat_text(prompt: Prompt) -> Seq<char> {
    match prompt {
        Prompt::Text(t) => t@,
        Prompt::Chat(turns) => chat_text(turns@),
    }
}

/// Relies on llm_chain's `Data::<String>::to_text`: a text prompt is itself;
/// a chat is each message written as `<role>: <body>` and a newline, in
/// order, with roles written by `ChatRole`'s `Display`.
#[verifier::external_body]
fn to_text(prompt: &Prompt) -> (r: String)
    ensures
        r@ == flat_text(*prompt),
{
    let data = match prompt {
        Prompt::Text(t) => Data::Text(t.clone()),
        Prompt::Chat(turns) => Data::Chat(ChatMessageCollection::for_vector(turns.iter().map(|t| {
            let role = match &t.role {
                Role::User => ChatRole::User,
                Role::Assistant => ChatRole::Assistant,
                Role::System => ChatRole::System,
                Role::Other(s) => ChatRole::Other(s.clone()),
            };
            ChatMessage::new(role, t.body.clone())
        }).collect())),
    };
    data.to_text()
}

/// Relies on the `Display` of llm_chain's `ChatRole::Assistant`, which
/// writes `Assistant`.
#[verifier::external_body]
fn assistant_label() -> (r: String)
    ensures
        r@ == role_text(Role::Assistant),
{
    ChatRole::Assistant.to_string()
}

impl Prompt {
    /// The prompt as one block of text.
    pub fn to_text(&self) -> (r: String)
        ensures
            r@ == flat_text(*self),
    {
        to_text(self)
    }

    /// Whether the prompt is a sequence of chat turns.
    pub fn is_chat(&self) -> (r: bool)
        ensures
            r == (*self is Chat),
    {
        match self {
            Prompt::Chat(_) => true,
            Prompt::Text(_) => false,
        }
    }
}

/// Whether a text ends in a newline.
pub open spec fn ends_in_newline(s: Seq<char>) -> bool {
    s.len() > 0 && s.last() == '\n'
}

/// The role marker that precedes the model's reply to a chat prompt whose
/// flattened text is `text`: `Assistant:`, preceded by a newline unless the
/// text already ends in one.
pub open spec fn answer_prefix_text(text: Seq<char>) -> Seq<char> {
    if ends_in_newline(text) {
        role_text(Role::Assistant) + ":"@
    } else {
        "\n"@ + role_text(Role::Assistant) + ":"@
    }
}

/// The answer prefix that a prompt carries: one for a chat, none for text.
pub open spec fn prompt_answer_prefix(prompt: Prompt) -> Option<Seq<char>> {
    if prompt is Chat {
        Some(answer_prefix_text(flat_text(prompt)))
    } else {
        None
    }
}

/// The answer prefix of a prompt, counted in its token usage.
pub fn answer_prefix(prompt: &Prompt) -> (r: Option<String>)
    ensures
        r is Some <==> prompt_answer_prefix(*prompt) is Some,
        r is Some ==> r->Some_0@ == prompt_answer_prefix(*prompt)->Some_0,
{
    if !prompt.is_chat() {
        return None;
    }
    let text = prompt.to_text();
    let n = text.unicode_len();
    let mut prefix = if n > 0 && text.get_char(n - 1) == '\n' {
        String::new()
    } else {
        String::from_str("\n")
    };
    let label = assistant_label();
    prefix.append(label.as_str());
    prefix.append(":");
    proof {
        reveal_strlit("\n");
        reveal_strlit(":");
    }
    Some(prefix)
}

} // verus!
