use std::collections::HashMap;
use vstd::prelude::*;
use vstd::std_specs::hash::group_hash_axioms;

use crate::error::RegistryError;

verus! {

broadcast use group_hash_axioms;

/// Which incoming messages make a channel's session reply.
#[derive(Clone, Copy, Debug, PartialEq, Eq, Structural)]
pub enum Trigger {
    OnMessage,
    OnMention,
}

/// How much conversation context a session includes in its prompts.
#[derive(Clone, Copy, Debug, PartialEq, Eq, Structural)]
pub enum Privacy {
    AllMessages,
    OnlyMentions,
}

/// A channel's chat session: its trigger mode and privacy mode.
#[derive(Clone, Copy, Debug, PartialEq, Eq, Structural)]
pub struct ChatSession {
    pub trigger: Trigger,
    pub privacy: Privacy,
}

/// The one pair that cannot stand together: firing on every message while
/// keeping only mentions.
pub open spec fn valid_combination(trigger: Trigger, privacy: Privacy) -> bool {
    !(trigger == Trigger::OnMessage && privacy == Privacy::OnlyMentions)
}

impl ChatSession {
    pub open spec fn wf(&self) -> bool {
        valid_combination(self.trigger, self.privacy)
    }

    /// Builds a session, refusing the contradictory pair.
    pub fn new(trigger: Trigger, privacy: Privacy) -> (r: Result<ChatSession, RegistryError>)
        ensures
            valid_combination(trigger, privacy) <==> r is Ok,
            r is Ok ==> r->Ok_0 == (ChatSession { trigger, privacy }),
            r is Err ==> r->Err_0 == RegistryError::InvalidCombination,
    {
        if trigger == Trigger::OnMessage && privacy == Privacy::OnlyMentions {
            Err(RegistryError::InvalidCombination)
        } else {
            Ok(ChatSession { trigger, privacy })
        }
    }
}

/// Whether a session replies to a message, given whether the message
/// mentions the bot.
pub open spec fn responds(session: ChatSession, mentions_bot: bool) -> bool {
    match session.trigger {
        Trigger::OnMessage => true,
        Trigger::OnMention => mentions_bot,
    }
}

/// Decides whether a session replies to a message.
pub fn should_respond(session: ChatSession, message_mentions_bot: bool) -> (r: bool)
    ensures
        r == responds(session, message_mentions_bot),
{
    match session.trigger {
        Trigger::OnMessage => true,
        Trigger::OnMention => message_mentions_bot,
    }
}

/// The chat sessions, keyed by channel identifier.
pub struct ChatRegistry {
    sessions: HashMap<u64, ChatSession>,
}

impl View for ChatRegistry {
    type V = Map<u64, ChatSession>;

    closed spec fn view(&self) -> Map<u64, ChatSession> {
        self.sessions@
    }
}

impl ChatRegistry {
    /// Every stored session holds a valid combination.
    pub open spec fn wf(&self) -> bool {
        forall|c: u64| #[trigger] self@.contains_key(c) ==> self@[c].wf()
    }

    /// The outcome that registering `(trigger, privacy)` on `channel` has
    /// against the sessions `m`.
    pub open spec fn register_outcome(
        m: Map<u64, ChatSession>,
        channel: u64,
        trigger: Trigger,
        privacy: Privacy,
    ) -> Result<(), RegistryError> {
        if !valid_combination(trigger, privacy) {
            Err(RegistryError::InvalidCombination)
        } else if m.contains_key(channel) {
            Err(RegistryError::AlreadyExists)
        } else {
            Ok(())
        }
    }

    /// An empty registry.
    pub fn new() -> (r: ChatRegistry)
        ensures
            r@ == Map::<u64, ChatSession>::empty(),
            r.wf(),
    {
        ChatRegistry { sessions: HashMap::new() }
    }

    /// Registers a session on a channel. The combination is checked first;
    /// on any failure nothing is stored.
    pub fn register(&mut self, channel_id: u64, trigger: Trigger, privacy: Privacy) -> (r: Result<
        (),
        RegistryError,
    >)
        requires
            old(self).wf(),
        ensures
            final(self).wf(),
            r == Self::register_outcome(old(self)@, channel_id, trigger, privacy),
            r is Ok ==> final(self)@ == old(self)@.insert(
                channel_id,
                ChatSession { trigger, privacy },
            ),
            r is Err ==> final(self)@ == old(self)@,
    {
        let session = match ChatSession::new(trigger, privacy) {
            Ok(s) => s,
            Err(e) => {
                return Err(e);
            },
        };
        if self.sessions.contains_key(&channel_id) {
            return Err(RegistryError::AlreadyExists);
        }
        self.sessions.insert(channel_id, session);
        Ok(())
    }

    /// Whether the bot answers a message in a channel: never its own
    /// messages; by the channel's session where it has one; else only where
    /// the message mentions the bot.
    pub open spec fn handles(&self, channel_id: u64, own_message: bool, mentions_bot: bool) -> bool {
        !own_message && if self@.contains_key(channel_id) {
            responds(self@[channel_id], mentions_bot)
        } else {
            mentions_bot
        }
    }

    /// Decides whether the bot answers a message in a channel.
    pub fn should_handle(&self, channel_id: u64, own_message: bool, mentions_bot: bool) -> (r: bool)
        requires
            self.wf(),
        ensures
            r == self.handles(channel_id, own_message, mentions_bot),
    {
        if own_message {
            return false;
        }
        match self.lookup(channel_id) {
            Some(session) => should_respond(session, mentions_bot),
            None => mentions_bot,
        }
    }

    /// The session of a channel, if one was registered.
    pub fn lookup(&self, channel_id: u64) -> (r: Option<ChatSession>)
        requires
            self.wf(),
        ensures
            r == (if self@.contains_key(channel_id) {
                Some(self@[channel_id])
            } else {
                None
            }),
            r is Some ==> r->Some_0.wf(),
    {
        match self.sessions.get(&channel_id) {
            Some(s) => {
                assert(self@.contains_key(channel_id));
                Some(*s)
            },
            None => None,
        }
    }
}

/// Registering a session that fires on every message but keeps only mentions
/// fails with `InvalidCombination` whatever the registry holds; each of the
/// other three pairs succeeds on a channel that has no session yet.
pub proof fn lemma_register_validation(
    m: Map<u64, ChatSession>,
    channel: u64,
    trigger: Trigger,
    privacy: Privacy,
)
    ensures
        trigger == Trigger::OnMessage && privacy == Privacy::OnlyMentions
            ==> ChatRegistry::register_outcome(m, channel, trigger, privacy) == Err::<(), RegistryError>(
            RegistryError::InvalidCombination,
        ),
        !(trigger == Trigger::OnMessage && privacy == Privacy::OnlyMentions) && !m.contains_key(
            channel,
        ) ==> ChatRegistry::register_outcome(m, channel, trigger, privacy) == Ok::<(), RegistryError>(()),
{
}

/// A session that fires on every message replies whether or not it is
/// mentioned; one that fires on mentions replies exactly when mentioned.
pub proof fn lemma_trigger_gating(session: ChatSession, mentions_bot: bool)
    ensures
        session.trigger == Trigger::OnMessage ==> responds(session, mentions_bot),
        session.trigger == Trigger::OnMention ==> responds(session, mentions_bot) == mentions_bot,
{
}

} // verus!
