//! Convenience methods on the typed model: tags, avatar URLs, and
//! snowflake-derived creation times.
//!
//! The contracts live on the inherent methods; the extension traits re-export
//! the same operations under the names downstream code imports.

use vstd::prelude::*;
use vstd::string::StringExecFns;

use crate::text::{spec_dec, spec_dec_pad, u64_to_dec_pad};
use crate::types::id::Id;
use crate::types::marker::UserMarker;
use crate::types::{Guild, Interaction, Message, User};

verus! {

/// The CDN URL of an avatar image: prefix, user ID, slash, hash, suffix.
pub open spec fn spec_avatar_url(id: u64, hash: Seq<char>) -> Seq<char> {
    "https://cdn.discordapp.com/avatars/"@ + spec_dec(id as nat) + "/"@ + hash + ".png"@
}

impl User {
    /// Returns the CDN URL for the user's avatar, or `None` if no avatar is
    /// set.
    pub fn avatar_url(&self) -> (r: Option<String>)
        ensures
            r is Some <==> self.avatar is Some,
            r matches Some(url) ==> self.avatar matches Some(h) && url@ == spec_avatar_url(
                self.id.spec_get(),
                h@,
            ),
    {
        match &self.avatar {
            Some(hash) => {
                let mut url: String = "https://cdn.discordapp.com/avatars/".to_owned();
                url.append(self.id.to_dec_string().as_str());
                url.append("/");
                url.append(hash.as_str());
                url.append(".png");
                Some(url)
            },
            None => None,
        }
    }

    /// `Username#Discriminator`, or just `Username` for accounts on the new
    /// username system (discriminator zero).
    pub fn tag(&self) -> (r: String)
        ensures
            self.discriminator == 0 ==> r@ == self.name@,
            self.discriminator != 0 ==> r@ == self.name@ + "#"@ + spec_dec_pad(
                self.discriminator as nat,
                4,
            ),
    {
        if self.discriminator == 0 {
            let mut out = String::new();
            out.append(self.name.as_str());
            proof {
                assert(out@ =~= self.name@);
            }
            out
        } else {
            let mut out = String::new();
            out.append(self.name.as_str());
            out.append("#");
            out.append(u64_to_dec_pad(self.discriminator as u64, 4).as_str());
            out
        }
    }
}

impl Message {
    /// Unix-millisecond timestamp derived from the message snowflake.
    pub fn snowflake_timestamp_ms(&self) -> (r: Option<u64>)
        ensures
            r == Some((self.id.spec_get() / 0x40_0000 + 1_420_070_400_000) as u64),
    {
        Some(self.id.timestamp_ms())
    }

    /// Whether a given user ID is mentioned in the message.
    pub fn mentions_user(&self, user_id: Id<UserMarker>) -> (r: bool)
        ensures
            r == exists|i: int|
                0 <= i < self.mentions@.len() && (#[trigger] self.mentions@[i].id).spec_get()
                    == user_id.spec_get(),
    {
        let target = user_id.get();
        let n = self.mentions.len();
        for i in 0..n
            invariant
                n == self.mentions@.len(),
                target == user_id.spec_get(),
                forall|k: int|
                    0 <= k < i ==> (#[trigger] self.mentions@[k].id).spec_get() != target,
        {
            if self.mentions[i].id.get() == target {
                return true;
            }
        }
        false
    }
}

impl Guild {
    /// Unix-millisecond timestamp derived from the guild snowflake.
    pub fn created_at_ms(&self) -> (r: Option<u64>)
        ensures
            r == Some((self.id.spec_get() / 0x40_0000 + 1_420_070_400_000) as u64),
    {
        Some(self.id.timestamp_ms())
    }
}

impl Interaction {
    /// The user who triggered the interaction, as a specification value:
    /// nested inside `member` in a guild, at the top level in a DM.
    pub open spec fn spec_author(&self) -> Option<User> {
        match self.member {
            Some(m) => match m.user {
                Some(u) => Some(u),
                None => self.user,
            },
            None => self.user,
        }
    }

    /// The user who triggered the interaction: nested inside `member` in a
    /// guild, at the top level in a DM.
    pub fn author(&self) -> (r: Option<&User>)
        ensures
            (match r {
                Some(x) => self.spec_author() == Some(*x),
                None => self.spec_author() is None,
            }),
    {
        match &self.member {
            Some(m) => match &m.user {
                Some(u) => Some(u),
                None => self.user.as_ref(),
            },
            None => self.user.as_ref(),
        }
    }
}

// ---------------------------------------------------------------------------
// Extension traits
// ---------------------------------------------------------------------------

/// Convenience methods on [`User`], under the names downstream code
/// imports; the contracts live on the inherent methods they forward to.
pub trait UserExt {
    /// Returns the CDN URL for the user's avatar, or `None` if none is set.
    fn avatar_url(&self) -> Option<String>;

    /// `Username#Discriminator` or just `Username`.
    fn tag(&self) -> String;
}

impl UserExt for User {
    fn avatar_url(&self) -> Option<String> {
        User::avatar_url(self)
    }

    fn tag(&self) -> String {
        User::tag(self)
    }
}

/// Convenience methods on [`Message`].
pub trait MessageExt {
    /// Unix-millisecond timestamp derived from the message snowflake.
    fn snowflake_timestamp_ms(&self) -> Option<u64>;

    /// Whether a given user ID is mentioned in the message.
    fn mentions_user(&self, user_id: Id<UserMarker>) -> bool;
}

impl MessageExt for Message {
    fn snowflake_timestamp_ms(&self) -> Option<u64> {
        Message::snowflake_timestamp_ms(self)
    }

    fn mentions_user(&self, user_id: Id<UserMarker>) -> bool {
        Message::mentions_user(self, user_id)
    }
}

/// Convenience methods on [`Guild`].
pub trait GuildExt {
    /// Unix-millisecond timestamp derived from the guild snowflake.
    fn created_at_ms(&self) -> Option<u64>;
}

impl GuildExt for Guild {
    fn created_at_ms(&self) -> Option<u64> {
        Guild::created_at_ms(self)
    }
}

/// Convenience methods on [`Interaction`].
pub trait InteractionExt {
    /// The user who triggered the interaction.
    fn author(&self) -> Option<&User>;
}

impl InteractionExt for Interaction {
    fn author(&self) -> Option<&User> {
        Interaction::author(self)
    }
}

/// Convenience methods on [`Id`].
pub trait IdExt {
    /// The wrapped snowflake, as a specification-level value.
    spec fn spec_value(&self) -> u64;

    /// Get the inner u64 value of the ID.
    fn value(&self) -> (r: u64)
        ensures
            r == self.spec_value(),
    ;
}

impl<T> IdExt for Id<T> {
    open spec fn spec_value(&self) -> u64 {
        self.spec_get()
    }

    fn value(&self) -> (r: u64) {
        self.get()
    }
}

} // verus!
