//! Bot-level state: identity learned from READY, the greeting feature's
//! memory, and the gateway intents the bot identifies with.

use vstd::prelude::*;

use crate::types::id::Id;
use crate::types::marker::{ApplicationMarker, ChannelMarker, UserMarker};
use crate::types::PresenceUpdate;

verus! {

/// Core bot identity and lifecycle state.
pub struct BotState {
    /// The bot's own user ID (set on READY).
    pub bot_user_id: Option<Id<UserMarker>>,
    /// The application ID (set on READY).
    pub application_id: Option<Id<ApplicationMarker>>,
    /// Whether slash commands have been registered this session.
    pub commands_registered: bool,
    /// When the bot started, in epoch milliseconds.
    pub start_time_ms: u64,
}

impl BotState {
    /// Fresh state for a bot that started at `start_time_ms`.
    pub fn new(start_time_ms: u64) -> (r: Self)
        ensures
            r.bot_user_id is None,
            r.application_id is None,
            !r.commands_registered,
            r.start_time_ms == start_time_ms,
    {
        BotState {
            bot_user_id: None,
            application_id: None,
            commands_registered: false,
            start_time_ms,
        }
    }

    /// Seconds elapsed since start, given the clock's reading now.
    pub fn uptime_secs(&self, now_ms: u64) -> (r: u64)
        ensures
            now_ms >= self.start_time_ms ==> r == (now_ms - self.start_time_ms) / 1000,
            now_ms < self.start_time_ms ==> r == 0,
    {
        if now_ms >= self.start_time_ms {
            (now_ms - self.start_time_ms) / 1000
        } else {
            0
        }
    }
}

/// State for the "greet users who come online" feature.
pub struct GreetState {
    /// Channel to send greeting messages in.
    pub greet_channel_id: Option<Id<ChannelMarker>>,
    /// Users we've already greeted this session (to avoid spamming).
    pub greeted_users: Vec<u64>,
}

impl GreetState {
    /// Users already greeted this session.
    pub open spec fn greeted(&self) -> Seq<u64> {
        self.greeted_users@
    }

    pub fn new() -> (r: Self)
        ensures
            r.greet_channel_id is None,
            r.greeted() =~= Seq::<u64>::empty(),
    {
        GreetState { greet_channel_id: None, greeted_users: Vec::new() }
    }

    /// Whether a user was already greeted this session.
    pub fn already_greeted(&self, user_id: u64) -> (r: bool)
        ensures
            r == self.greeted().contains(user_id),
    {
        let n = self.greeted_users.len();
        for i in 0..n
            invariant
                n == self.greeted_users@.len(),
                forall|k: int| 0 <= k < i ==> self.greeted_users@[k] != user_id,
        {
            if self.greeted_users[i] == user_id {
                return true;
            }
        }
        false
    }

    /// Decide whether to greet a user whose presence changed: greet exactly
    /// when they came online, they are not the bot itself, and they have not
    /// been greeted this session.  A greeted user is remembered at once, so
    /// no user is greeted twice.
    pub fn presence_greeting(
        &mut self,
        bot_user_id: &Option<Id<UserMarker>>,
        presence: &PresenceUpdate,
    ) -> (r: bool)
        ensures
            r <==> ((match presence.status {
                Some(s) => s@ == "online"@,
                None => false,
            }) && (match bot_user_id {
                Some(b) => b.spec_get() != presence.user.id.spec_get(),
                None => true,
            }) && !old(self).greeted().contains(presence.user.id.spec_get())),
            r ==> final(self).greeted() =~= old(self).greeted().push(
                presence.user.id.spec_get(),
            ),
            !r ==> final(self).greeted() == old(self).greeted(),
            final(self).greet_channel_id == old(self).greet_channel_id,
    {
        proof {
            reveal_strlit("online");
        }
        let online = match &presence.status {
            Some(s) => crate::text::str_eq(s.as_str(), "online"),
            None => false,
        };
        if !online {
            return false;
        }
        let user_id = presence.user.id.get();
        let is_self = match bot_user_id {
            Some(b) => b.get() == user_id,
            None => false,
        };
        if is_self {
            return false;
        }
        if self.already_greeted(user_id) {
            return false;
        }
        self.greeted_users.push(user_id);
        true
    }
}

/// The gateway intents bitmask the bot identifies with: GUILDS,
/// GUILD_MEMBERS, GUILD_PRESENCES, GUILD_MESSAGES and MESSAGE_CONTENT.
pub fn gateway_intents() -> (r: u32)
    ensures
        r == 1 + 2 + 256 + 512 + 32768,
{
    proof {
        assert((1u32 | 2u32 | 256u32 | 512u32 | 32768u32) == 33539u32) by (bit_vector);
    }
    1 | 2 | 256 | 512 | 32768
}

} // verus!
