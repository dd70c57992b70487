//! Outbound message bodies and REST rate-limit metadata.

use vstd::prelude::*;
use vstd::string::StringExecFns;

use crate::types::id::Id;
use crate::types::marker::{ChannelMarker, GuildMarker, MessageMarker};
use crate::types::{Component, Embed};

verus! {

/// Body for creating a new message via the REST API, built up with chaining
/// calls; each one changes exactly the field it names.
#[derive(Debug)]
pub struct CreateMessage {
    pub content: Option<String>,
    pub embeds: Option<Vec<Embed>>,
    pub message_reference: Option<CreateMessageReference>,
    pub components: Option<Vec<Component>>,
    pub flags: Option<u32>,
}

impl CreateMessage {
    /// Create a new empty message body.
    pub fn new() -> (r: Self)
        ensures
            r.content is None,
            r.embeds is None,
            r.message_reference is None,
            r.components is None,
            r.flags is None,
    {
        CreateMessage {
            content: None,
            embeds: None,
            message_reference: None,
            components: None,
            flags: None,
        }
    }

    /// Set the text content of the message.
    pub fn content(self, text: &str) -> (r: Self)
        ensures
            r == (CreateMessage { content: r.content, ..self }),
            r.content matches Some(c) && c@ == text@,
    {
        CreateMessage { content: Some(text.to_owned()), ..self }
    }

    /// Append an embed to the message.
    pub fn embed(self, embed: Embed) -> (r: Self)
        ensures
            r == (CreateMessage { embeds: r.embeds, ..self }),
            r.embeds matches Some(es) && es@.last() == embed,
            self.embeds matches Some(prev) ==> (r.embeds matches Some(es) && es@.drop_last()
                =~= prev@),
            self.embeds is None ==> (r.embeds matches Some(es) && es@.len() == 1),
    {
        let mut es = match self.embeds {
            Some(v) => v,
            None => Vec::new(),
        };
        es.push(embed);
        CreateMessage { embeds: Some(es), ..self }
    }

    /// Mark the message as a reply to another message.
    pub fn reply_to(self, message_id: Id<MessageMarker>) -> (r: Self)
        ensures
            r == (CreateMessage { message_reference: r.message_reference, ..self }),
            r.message_reference matches Some(mr) && mr.message_id == Some(message_id)
                && mr.channel_id is None && mr.guild_id is None && !mr.fail_if_not_exists,
    {
        CreateMessage {
            message_reference: Some(
                CreateMessageReference {
                    message_id: Some(message_id),
                    channel_id: None,
                    guild_id: None,
                    fail_if_not_exists: false,
                },
            ),
            ..self
        }
    }

    /// Append a component row to the message.
    pub fn component_row(self, row: Component) -> (r: Self)
        ensures
            r == (CreateMessage { components: r.components, ..self }),
            r.components matches Some(cs) && cs@.last() == row,
            self.components matches Some(prev) ==> (r.components matches Some(cs)
                && cs@.drop_last() =~= prev@),
            self.components is None ==> (r.components matches Some(cs) && cs@.len() == 1),
    {
        let mut cs = match self.components {
            Some(v) => v,
            None => Vec::new(),
        };
        cs.push(row);
        CreateMessage { components: Some(cs), ..self }
    }
}

/// Reference attached to an outbound reply message.
#[derive(Debug)]
pub struct CreateMessageReference {
    pub message_id: Option<Id<MessageMarker>>,
    pub channel_id: Option<Id<ChannelMarker>>,
    pub guild_id: Option<Id<GuildMarker>>,
    pub fail_if_not_exists: bool,
}

/// Rate-limit metadata extracted from Discord REST API response headers.
/// Durations are kept in whole milliseconds.
#[derive(Debug, Clone)]
pub struct RateLimitInfo {
    pub remaining: Option<u32>,
    /// Epoch milliseconds at which the bucket resets.
    pub reset_at_ms: Option<u64>,
    /// Milliseconds until the bucket resets.
    pub reset_after_ms: Option<u64>,
    pub bucket: Option<String>,
    pub is_global: bool,
}

} // verus!
