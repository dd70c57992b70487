//! Typed representations of Discord API objects.
//!
//! These mirror the Discord API docs so the gateway and REST cores can work
//! over plain values.  Wire encoding and decoding happen outside the library;
//! everything here is data plus small verified constructors.

use vstd::prelude::*;
use vstd::string::StringExecFns;

use crate::types::datetime::Timestamp;
use crate::types::id::Id;
use crate::types::marker::{
    ApplicationMarker, ChannelMarker, EmojiMarker, GenericMarker, GuildMarker, InteractionMarker,
    MessageMarker, UserMarker,
};

pub mod builders;
pub mod custom;
pub mod datetime;
pub mod ext;
pub mod id;
pub mod marker;
pub mod oauth;
pub mod util;

verus! {

// ---------------------------------------------------------------------------
// User
// ---------------------------------------------------------------------------

/// A Discord user.
#[derive(Debug, Clone)]
pub struct User {
    pub id: Id<UserMarker>,
    pub name: String,
    /// Zero for accounts on the new username system.
    pub discriminator: u16,
    pub avatar: Option<String>,
    pub bot: bool,
    pub global_name: Option<String>,
}

/// Partial user object (e.g. inside PRESENCE_UPDATE); only the `id` is
/// guaranteed.
#[derive(Debug, Clone)]
pub struct PartialUser {
    pub id: Id<UserMarker>,
    pub username: Option<String>,
    pub avatar: Option<String>,
    pub bot: bool,
}

// ---------------------------------------------------------------------------
// Channel
// ---------------------------------------------------------------------------

/// The kind of a channel, as Discord numbers them.
#[derive(Debug, Clone, Copy, PartialEq, Eq, Structural)]
pub enum ChannelType {
    GuildText,
    Dm,
    GuildVoice,
    GroupDm,
    GuildCategory,
    GuildAnnouncement,
    AnnouncementThread,
    PublicThread,
    PrivateThread,
    GuildStageVoice,
    GuildDirectory,
    GuildForum,
}

impl ChannelType {
    /// The wire value of the channel kind.
    pub open spec fn spec_u8(&self) -> u8 {
        match self {
            ChannelType::GuildText => 0,
            ChannelType::Dm => 1,
            ChannelType::GuildVoice => 2,
            ChannelType::GroupDm => 3,
            ChannelType::GuildCategory => 4,
            ChannelType::GuildAnnouncement => 5,
            ChannelType::AnnouncementThread => 10,
            ChannelType::PublicThread => 11,
            ChannelType::PrivateThread => 12,
            ChannelType::GuildStageVoice => 13,
            ChannelType::GuildDirectory => 14,
            ChannelType::GuildForum => 15,
        }
    }

    /// Encode the channel kind for the wire.
    pub fn as_u8(&self) -> (r: u8)
        ensures
            r == self.spec_u8(),
    {
        match self {
            ChannelType::GuildText => 0,
            ChannelType::Dm => 1,
            ChannelType::GuildVoice => 2,
            ChannelType::GroupDm => 3,
            ChannelType::GuildCategory => 4,
            ChannelType::GuildAnnouncement => 5,
            ChannelType::AnnouncementThread => 10,
            ChannelType::PublicThread => 11,
            ChannelType::PrivateThread => 12,
            ChannelType::GuildStageVoice => 13,
            ChannelType::GuildDirectory => 14,
            ChannelType::GuildForum => 15,
        }
    }

    /// Decode a channel kind from the wire; unknown numbers are rejected.
    pub fn from_u8(n: u8) -> (r: Option<ChannelType>)
        ensures
            r matches Some(k) ==> k.spec_u8() == n,
            r is None ==> forall|k: ChannelType| k.spec_u8() != n,
    {
        match n {
            0 => Some(ChannelType::GuildText),
            1 => Some(ChannelType::Dm),
            2 => Some(ChannelType::GuildVoice),
            3 => Some(ChannelType::GroupDm),
            4 => Some(ChannelType::GuildCategory),
            5 => Some(ChannelType::GuildAnnouncement),
            10 => Some(ChannelType::AnnouncementThread),
            11 => Some(ChannelType::PublicThread),
            12 => Some(ChannelType::PrivateThread),
            13 => Some(ChannelType::GuildStageVoice),
            14 => Some(ChannelType::GuildDirectory),
            15 => Some(ChannelType::GuildForum),
            _ => None,
        }
    }
}

/// A guild or DM channel.
#[derive(Debug, Clone)]
pub struct Channel {
    pub id: Id<ChannelMarker>,
    pub kind: ChannelType,
    pub guild_id: Option<Id<GuildMarker>>,
    pub name: Option<String>,
    pub topic: Option<String>,
    pub position: Option<i32>,
    pub parent_id: Option<Id<ChannelMarker>>,
    pub nsfw: bool,
}

// ---------------------------------------------------------------------------
// Message
// ---------------------------------------------------------------------------

/// A message in a channel.
#[derive(Debug)]
pub struct Message {
    pub id: Id<MessageMarker>,
    pub channel_id: Id<ChannelMarker>,
    pub guild_id: Option<Id<GuildMarker>>,
    pub author: User,
    pub content: String,
    pub timestamp: Timestamp,
    pub edited_timestamp: Option<Timestamp>,
    pub tts: bool,
    pub mention_everyone: bool,
    pub mentions: Vec<User>,
    pub attachments: Vec<Attachment>,
    pub embeds: Vec<Embed>,
    pub pinned: bool,
    pub message_reference: Option<MessageReference>,
    /// The message this one is replying to (if resolved).
    pub referenced_message: Option<Box<Message>>,
    pub components: Vec<Component>,
    /// Interaction metadata when this message is an interaction response.
    pub interaction: Option<MessageInteraction>,
}

/// Reference carried by an inbound reply message.
#[derive(Debug, Clone)]
pub struct MessageReference {
    pub message_id: Option<Id<MessageMarker>>,
    pub channel_id: Option<Id<ChannelMarker>>,
    pub guild_id: Option<Id<GuildMarker>>,
    pub fail_if_not_exists: bool,
}

/// Interaction metadata on a message that answers an interaction.
#[derive(Debug, Clone)]
pub struct MessageInteraction {
    pub id: Id<InteractionMarker>,
    pub kind: u8,
    pub name: String,
    pub user: User,
}

/// A file attached to a message.
#[derive(Debug, Clone)]
pub struct Attachment {
    pub id: Id<GenericMarker>,
    pub filename: String,
    pub size: u64,
    pub url: String,
    pub proxy_url: String,
    pub content_type: Option<String>,
    pub width: Option<u32>,
    pub height: Option<u32>,
}

// ---------------------------------------------------------------------------
// Embed
// ---------------------------------------------------------------------------

/// A rich embed.  The builder-style methods return an updated copy, so calls
/// chain; each one changes exactly the field it names.
#[derive(Debug, Clone)]
pub struct Embed {
    pub title: Option<String>,
    pub description: Option<String>,
    pub url: Option<String>,
    pub color: Option<u32>,
    pub footer: Option<EmbedFooter>,
    pub image: Option<EmbedMedia>,
    pub thumbnail: Option<EmbedMedia>,
    pub author: Option<EmbedAuthor>,
    pub fields: Vec<EmbedField>,
    pub timestamp: Option<Timestamp>,
}

impl Embed {
    /// An embed with every field unset.
    pub fn new() -> (r: Self)
        ensures
            r.title is None,
            r.description is None,
            r.url is None,
            r.color is None,
            r.footer is None,
            r.image is None,
            r.thumbnail is None,
            r.author is None,
            r.fields@ =~= Seq::<EmbedField>::empty(),
            r.timestamp is None,
    {
        Embed {
            title: None,
            description: None,
            url: None,
            color: None,
            footer: None,
            image: None,
            thumbnail: None,
            author: None,
            fields: Vec::new(),
            timestamp: None,
        }
    }

    pub fn title(self, title: &str) -> (r: Self)
        ensures
            r == (Embed { title: r.title, ..self }),
            r.title matches Some(t) && t@ == title@,
    {
        Embed { title: Some(title.to_owned()), ..self }
    }

    pub fn description(self, desc: &str) -> (r: Self)
        ensures
            r == (Embed { description: r.description, ..self }),
            r.description matches Some(d) && d@ == desc@,
    {
        Embed { description: Some(desc.to_owned()), ..self }
    }

    pub fn color(self, color: u32) -> (r: Self)
        ensures
            r == (Embed { color: Some(color), ..self }),
    {
        Embed { color: Some(color), ..self }
    }

    pub fn field(self, name: &str, value: &str, inline: bool) -> (r: Self)
        ensures
            r == (Embed { fields: r.fields, ..self }),
            r.fields@.len() == self.fields@.len() + 1,
            r.fields@.drop_last() =~= self.fields@,
            r.fields@.last().name@ == name@,
            r.fields@.last().value@ == value@,
            r.fields@.last().inline == inline,
    {
        let mut fields = self.fields;
        fields.push(EmbedField { name: name.to_owned(), value: value.to_owned(), inline });
        proof {
            assert(fields@.drop_last() =~= fields@.subrange(0, fields@.len() - 1));
        }
        Embed { fields, ..self }
    }

    pub fn footer(self, text: &str) -> (r: Self)
        ensures
            r == (Embed { footer: r.footer, ..self }),
            r.footer matches Some(f) && f.text@ == text@ && f.icon_url is None,
    {
        Embed { footer: Some(EmbedFooter { text: text.to_owned(), icon_url: None }), ..self }
    }

    pub fn footer_with_icon(self, text: &str, icon_url: &str) -> (r: Self)
        ensures
            r == (Embed { footer: r.footer, ..self }),
            r.footer matches Some(f) && f.icon_url matches Some(u) && f.text@ == text@ && u@
                == icon_url@,
    {
        Embed {
            footer: Some(EmbedFooter { text: text.to_owned(), icon_url: Some(icon_url.to_owned()) }),
            ..self
        }
    }

    pub fn thumbnail(self, url: &str) -> (r: Self)
        ensures
            r == (Embed { thumbnail: r.thumbnail, ..self }),
            r.thumbnail matches Some(m) && m.url@ == url@,
    {
        Embed { thumbnail: Some(EmbedMedia { url: url.to_owned() }), ..self }
    }

    pub fn image(self, url: &str) -> (r: Self)
        ensures
            r == (Embed { image: r.image, ..self }),
            r.image matches Some(m) && m.url@ == url@,
    {
        Embed { image: Some(EmbedMedia { url: url.to_owned() }), ..self }
    }

    pub fn author(self, name: &str) -> (r: Self)
        ensures
            r == (Embed { author: r.author, ..self }),
            r.author matches Some(a) && a.name@ == name@ && a.url is None && a.icon_url is None,
    {
        Embed {
            author: Some(EmbedAuthor { name: name.to_owned(), url: None, icon_url: None }),
            ..self
        }
    }

    /// Set the embed timestamp from an ISO 8601 string.  A string that does
    /// not parse leaves the embed unchanged.
    pub fn timestamp(self, ts: &str) -> (r: Self)
        ensures
            r == (Embed { timestamp: r.timestamp, ..self }),
            crate::types::datetime::valid_timestamp(ts@) ==> (r.timestamp matches Some(t)
                && t.view() == ts@),
            !crate::types::datetime::valid_timestamp(ts@) ==> r.timestamp == self.timestamp,
    {
        match Timestamp::parse(ts) {
            Ok(parsed) => Embed { timestamp: Some(parsed), ..self },
            Err(_) => self,
        }
    }

    pub fn url(self, url: &str) -> (r: Self)
        ensures
            r == (Embed { url: r.url, ..self }),
            r.url matches Some(u) && u@ == url@,
    {
        Embed { url: Some(url.to_owned()), ..self }
    }
}

/// Footer line of an embed.
#[derive(Debug, Clone)]
pub struct EmbedFooter {
    pub text: String,
    pub icon_url: Option<String>,
}

/// An embed image or thumbnail.
#[derive(Debug, Clone)]
pub struct EmbedMedia {
    pub url: String,
}

/// Author line of an embed.
#[derive(Debug, Clone)]
pub struct EmbedAuthor {
    pub name: String,
    pub url: Option<String>,
    pub icon_url: Option<String>,
}

/// A titled field inside an embed.
#[derive(Debug, Clone)]
pub struct EmbedField {
    pub name: String,
    pub value: String,
    pub inline: bool,
}

// ---------------------------------------------------------------------------
// Guild
// ---------------------------------------------------------------------------

/// A guild ("server").
#[derive(Debug, Clone)]
pub struct Guild {
    pub id: Id<GuildMarker>,
    pub name: String,
    pub icon: Option<String>,
    pub owner_id: Id<UserMarker>,
    pub approximate_member_count: Option<u64>,
    pub approximate_presence_count: Option<u64>,
    pub channels: Vec<Channel>,
    pub members: Vec<GuildMember>,
}

/// Guild stub delivered in READY.
#[derive(Debug, Clone)]
pub struct UnavailableGuild {
    pub id: Id<GuildMarker>,
    pub unavailable: bool,
}

/// A member of a guild.
#[derive(Debug, Clone)]
pub struct GuildMember {
    pub user: Option<User>,
    pub nick: Option<String>,
    pub roles: Vec<Id<GenericMarker>>,
    pub joined_at: Option<Timestamp>,
    pub deaf: bool,
    pub mute: bool,
}

// ---------------------------------------------------------------------------
// Presence
// ---------------------------------------------------------------------------

/// A PRESENCE_UPDATE event.
#[derive(Debug, Clone)]
pub struct PresenceUpdate {
    pub user: PartialUser,
    pub guild_id: Option<Id<GuildMarker>>,
    pub status: Option<String>,
    pub activities: Vec<Activity>,
}

/// An activity inside a presence.
#[derive(Debug, Clone)]
pub struct Activity {
    pub name: String,
    pub kind: u8,
    pub url: Option<String>,
    pub state: Option<String>,
    pub details: Option<String>,
}

// ---------------------------------------------------------------------------
// READY event payload
// ---------------------------------------------------------------------------

/// The READY event data sent by the gateway after a successful IDENTIFY.
#[derive(Debug, Clone)]
pub struct ReadyEvent {
    pub v: u8,
    pub user: User,
    pub session_id: String,
    pub resume_gateway_url: String,
    pub guilds: Vec<UnavailableGuild>,
    pub application: ReadyApplication,
}

/// Minimal application object embedded in [`ReadyEvent`].
#[derive(Debug, Clone)]
pub struct ReadyApplication {
    pub id: Id<ApplicationMarker>,
    pub flags: Option<u64>,
}

// ---------------------------------------------------------------------------
// Interactions (slash commands, buttons, select menus, modals)
// ---------------------------------------------------------------------------

/// Top-level interaction received via INTERACTION_CREATE.
#[derive(Debug)]
pub struct Interaction {
    pub id: Id<InteractionMarker>,
    pub application_id: Id<ApplicationMarker>,
    pub kind: InteractionType,
    pub data: Option<InteractionData>,
    pub guild_id: Option<Id<GuildMarker>>,
    pub channel_id: Option<Id<ChannelMarker>>,
    pub member: Option<GuildMember>,
    pub user: Option<User>,
    pub token: String,
    pub message: Option<Box<Message>>,
}

/// The kind of an interaction, as Discord numbers them.
#[derive(Debug, Clone, Copy, PartialEq, Eq, Structural)]
pub enum InteractionType {
    Ping,
    ApplicationCommand,
    MessageComponent,
    ApplicationCommandAutocomplete,
    ModalSubmit,
}

impl InteractionType {
    /// The wire value of the interaction kind.
    pub open spec fn spec_u8(&self) -> u8 {
        match self {
            InteractionType::Ping => 1,
            InteractionType::ApplicationCommand => 2,
            InteractionType::MessageComponent => 3,
            InteractionType::ApplicationCommandAutocomplete => 4,
            InteractionType::ModalSubmit => 5,
        }
    }

    /// Encode the interaction kind for the wire.
    pub fn as_u8(&self) -> (r: u8)
        ensures
            r == self.spec_u8(),
    {
        match self {
            InteractionType::Ping => 1,
            InteractionType::ApplicationCommand => 2,
            InteractionType::MessageComponent => 3,
            InteractionType::ApplicationCommandAutocomplete => 4,
            InteractionType::ModalSubmit => 5,
        }
    }

    /// Decode an interaction kind from the wire.
    pub fn from_u8(n: u8) -> (r: Option<InteractionType>)
        ensures
            r matches Some(k) ==> k.spec_u8() == n,
            r is None ==> forall|k: InteractionType| k.spec_u8() != n,
    {
        match n {
            1 => Some(InteractionType::Ping),
            2 => Some(InteractionType::ApplicationCommand),
            3 => Some(InteractionType::MessageComponent),
            4 => Some(InteractionType::ApplicationCommandAutocomplete),
            5 => Some(InteractionType::ModalSubmit),
            _ => None,
        }
    }
}

/// Payload of an interaction: which command or component fired, with its
/// arguments or submitted values.
#[derive(Debug)]
pub struct InteractionData {
    /// Command ID, for application commands.
    pub id: Option<Id<GenericMarker>>,
    /// Command name, for application commands.
    pub name: Option<String>,
    /// For components and modals: the developer-defined `custom_id`.
    pub custom_id: Option<String>,
    /// Component type, for MESSAGE_COMPONENT interactions.
    pub component_type: Option<u8>,
    pub options: Vec<CommandOption>,
    /// Selected values from a select menu.
    pub values: Vec<String>,
    /// Modal submit components.
    pub components: Vec<Component>,
}

/// An argument passed to a slash command.
#[derive(Debug)]
pub struct CommandOption {
    pub name: String,
    pub kind: u8,
    pub value: Option<CommandOptionValue>,
    pub options: Vec<CommandOption>,
    pub focused: bool,
}

/// The value of a slash-command argument, as a plain value.
#[derive(Debug)]
pub enum CommandOptionValue {
    String(String),
    Integer(i64),
    Boolean(bool),
}

// ---------------------------------------------------------------------------
// Interaction responses (what we send back)
// ---------------------------------------------------------------------------

/// An interaction response sent back to Discord.
#[derive(Debug)]
pub struct InteractionResponse {
    pub kind: InteractionCallbackType,
    pub data: Option<InteractionCallbackData>,
}

/// The type of callback for an interaction response.
#[derive(Debug, Clone, Copy, PartialEq, Eq, Structural)]
pub enum InteractionCallbackType {
    Pong,
    ChannelMessageWithSource,
    DeferredChannelMessageWithSource,
    DeferredUpdateMessage,
    UpdateMessage,
    ApplicationCommandAutocompleteResult,
    Modal,
}

impl InteractionCallbackType {
    /// The wire value of the callback type.
    pub open spec fn spec_u8(&self) -> u8 {
        match self {
            InteractionCallbackType::Pong => 1,
            InteractionCallbackType::ChannelMessageWithSource => 4,
            InteractionCallbackType::DeferredChannelMessageWithSource => 5,
            InteractionCallbackType::DeferredUpdateMessage => 6,
            InteractionCallbackType::UpdateMessage => 7,
            InteractionCallbackType::ApplicationCommandAutocompleteResult => 8,
            InteractionCallbackType::Modal => 9,
        }
    }

    /// Encode the callback type for the wire.
    pub fn as_u8(&self) -> (r: u8)
        ensures
            r == self.spec_u8(),
    {
        match self {
            InteractionCallbackType::Pong => 1,
            InteractionCallbackType::ChannelMessageWithSource => 4,
            InteractionCallbackType::DeferredChannelMessageWithSource => 5,
            InteractionCallbackType::DeferredUpdateMessage => 6,
            InteractionCallbackType::UpdateMessage => 7,
            InteractionCallbackType::ApplicationCommandAutocompleteResult => 8,
            InteractionCallbackType::Modal => 9,
        }
    }

    /// Decode a callback type from the wire; unknown numbers are rejected.
    pub fn from_u8(n: u8) -> (r: Option<InteractionCallbackType>)
        ensures
            r matches Some(k) ==> k.spec_u8() == n,
            r is None ==> forall|k: InteractionCallbackType| k.spec_u8() != n,
    {
        match n {
            1 => Some(InteractionCallbackType::Pong),
            4 => Some(InteractionCallbackType::ChannelMessageWithSource),
            5 => Some(InteractionCallbackType::DeferredChannelMessageWithSource),
            6 => Some(InteractionCallbackType::DeferredUpdateMessage),
            7 => Some(InteractionCallbackType::UpdateMessage),
            8 => Some(InteractionCallbackType::ApplicationCommandAutocompleteResult),
            9 => Some(InteractionCallbackType::Modal),
            _ => None,
        }
    }
}

/// Data payload for an interaction callback.
#[derive(Debug)]
pub struct InteractionCallbackData {
    pub content: Option<String>,
    pub embeds: Option<Vec<Embed>>,
    pub components: Option<Vec<Component>>,
    pub flags: Option<u32>,
    /// For modal responses.
    pub title: Option<String>,
    pub custom_id: Option<String>,
}

impl InteractionCallbackData {
    /// A callback payload with every field unset.
    pub fn empty() -> (r: Self)
        ensures
            r.content is None,
            r.embeds is None,
            r.components is None,
            r.flags is None,
            r.title is None,
            r.custom_id is None,
    {
        InteractionCallbackData {
            content: None,
            embeds: None,
            components: None,
            flags: None,
            title: None,
            custom_id: None,
        }
    }
}

// ---------------------------------------------------------------------------
// Components (buttons, select menus, action rows, text inputs)
// ---------------------------------------------------------------------------

/// A message component.
#[derive(Debug)]
pub enum Component {
    ActionRow(ActionRow),
    Button(Button),
    SelectMenu(SelectMenu),
    TextInput(TextInput),
}

/// A row wrapping other components.
#[derive(Debug)]
pub struct ActionRow {
    pub components: Vec<Component>,
}

/// A clickable button.
#[derive(Debug, Clone)]
pub struct Button {
    pub custom_id: Option<String>,
    pub disabled: bool,
    pub emoji: Option<ComponentEmoji>,
    pub label: Option<String>,
    pub style: ButtonStyle,
    pub url: Option<String>,
}

/// Button styles, as Discord numbers them.
#[derive(Debug, Clone, Copy, PartialEq, Eq, Structural)]
pub enum ButtonStyle {
    Primary,
    Secondary,
    Success,
    Danger,
    Link,
}

impl ButtonStyle {
    /// The wire value of the button style.
    pub open spec fn spec_u8(&self) -> u8 {
        match self {
            ButtonStyle::Primary => 1,
            ButtonStyle::Secondary => 2,
            ButtonStyle::Success => 3,
            ButtonStyle::Danger => 4,
            ButtonStyle::Link => 5,
        }
    }

    /// Encode the button style for the wire.
    pub fn as_u8(&self) -> (r: u8)
        ensures
            r == self.spec_u8(),
    {
        match self {
            ButtonStyle::Primary => 1,
            ButtonStyle::Secondary => 2,
            ButtonStyle::Success => 3,
            ButtonStyle::Danger => 4,
            ButtonStyle::Link => 5,
        }
    }
}

/// A select menu.
#[derive(Debug, Clone)]
pub struct SelectMenu {
    pub custom_id: String,
    pub disabled: bool,
    pub max_values: Option<u8>,
    pub min_values: Option<u8>,
    pub options: Vec<SelectOption>,
    pub placeholder: Option<String>,
}

/// One choice inside a select menu.
#[derive(Debug, Clone)]
pub struct SelectOption {
    pub label: String,
    pub value: String,
    pub description: Option<String>,
    pub emoji: Option<ComponentEmoji>,
    pub default: bool,
}

/// A text input inside a modal.
#[derive(Debug, Clone)]
pub struct TextInput {
    pub custom_id: String,
    pub label: Option<String>,
    pub max_length: Option<u32>,
    pub min_length: Option<u32>,
    pub placeholder: Option<String>,
    pub required: Option<bool>,
    pub style: TextInputStyle,
    pub value: Option<String>,
}

/// Text input styles, as Discord numbers them.
#[derive(Debug, Clone, Copy, PartialEq, Eq, Structural)]
pub enum TextInputStyle {
    Short,
    Paragraph,
}

impl TextInputStyle {
    /// The wire value of the text input style.
    pub open spec fn spec_u8(&self) -> u8 {
        match self {
            TextInputStyle::Short => 1,
            TextInputStyle::Paragraph => 2,
        }
    }

    /// Encode the text input style for the wire.
    pub fn as_u8(&self) -> (r: u8)
        ensures
            r == self.spec_u8(),
    {
        match self {
            TextInputStyle::Short => 1,
            TextInputStyle::Paragraph => 2,
        }
    }
}

/// An emoji attached to a component.
#[derive(Debug, Clone)]
pub struct ComponentEmoji {
    pub id: Option<Id<EmojiMarker>>,
    pub name: Option<String>,
    pub animated: bool,
}

// ---------------------------------------------------------------------------
// Slash command registration payloads
// ---------------------------------------------------------------------------

/// An application command, as registered with Discord.
#[derive(Debug, Clone)]
pub struct ApplicationCommand {
    pub id: Option<Id<crate::types::marker::CommandMarker>>,
    pub kind: CommandType,
    pub name: String,
    pub description: String,
    pub options: Vec<ApplicationCommandOption>,
    pub nsfw: Option<bool>,
}

/// The kind of an application command, as Discord numbers them.
#[derive(Debug, Clone, Copy, PartialEq, Eq, Structural)]
pub enum CommandType {
    ChatInput,
    User,
    Message,
}

impl CommandType {
    /// The wire value of the command kind.
    pub open spec fn spec_u8(&self) -> u8 {
        match self {
            CommandType::ChatInput => 1,
            CommandType::User => 2,
            CommandType::Message => 3,
        }
    }

    /// Encode the command kind for the wire.
    pub fn as_u8(&self) -> (r: u8)
        ensures
            r == self.spec_u8(),
    {
        match self {
            CommandType::ChatInput => 1,
            CommandType::User => 2,
            CommandType::Message => 3,
        }
    }
}

/// An option declared on an application command.
#[derive(Debug, Clone)]
pub struct ApplicationCommandOption {
    pub name: String,
    pub description: String,
    pub kind: CommandOptionType,
    pub required: Option<bool>,
    pub choices: Vec<ApplicationCommandOptionChoice>,
}

/// The kind of a command option, as Discord numbers them.
#[derive(Debug, Clone, Copy, PartialEq, Eq, Structural)]
pub enum CommandOptionType {
    SubCommand,
    SubCommandGroup,
    String,
    Integer,
    Boolean,
    User,
    Channel,
    Role,
    Mentionable,
    Number,
    Attachment,
}

impl CommandOptionType {
    /// The wire value of the option kind.
    pub open spec fn spec_u8(&self) -> u8 {
        match self {
            CommandOptionType::SubCommand => 1,
            CommandOptionType::SubCommandGroup => 2,
            CommandOptionType::String => 3,
            CommandOptionType::Integer => 4,
            CommandOptionType::Boolean => 5,
            CommandOptionType::User => 6,
            CommandOptionType::Channel => 7,
            CommandOptionType::Role => 8,
            CommandOptionType::Mentionable => 9,
            CommandOptionType::Number => 10,
            CommandOptionType::Attachment => 11,
        }
    }

    /// Encode the option kind for the wire.
    pub fn as_u8(&self) -> (r: u8)
        ensures
            r == self.spec_u8(),
    {
        match self {
            CommandOptionType::SubCommand => 1,
            CommandOptionType::SubCommandGroup => 2,
            CommandOptionType::String => 3,
            CommandOptionType::Integer => 4,
            CommandOptionType::Boolean => 5,
            CommandOptionType::User => 6,
            CommandOptionType::Channel => 7,
            CommandOptionType::Role => 8,
            CommandOptionType::Mentionable => 9,
            CommandOptionType::Number => 10,
            CommandOptionType::Attachment => 11,
        }
    }
}

/// A predefined choice for a command option.
#[derive(Debug, Clone)]
pub struct ApplicationCommandOptionChoice {
    pub name: String,
    pub value: String,
}

} // verus!
