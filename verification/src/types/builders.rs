//! Builder patterns for ergonomic type construction, and helper functions
//! that build message components without spelling out every field.

use vstd::prelude::*;
use vstd::string::StringExecFns;

use crate::types::datetime::Timestamp;
use crate::types::id::Id;
use crate::types::marker::CommandMarker;
use crate::types::{
    ActionRow, ApplicationCommand, ApplicationCommandOption, ApplicationCommandOptionChoice,
    Button, ButtonStyle, CommandOptionType, CommandType, Component, Embed, EmbedField, SelectMenu,
    SelectOption, TextInput, TextInputStyle,
};

verus! {

// ===========================================================================
// ApplicationCommand builder
// ===========================================================================

/// Ergonomic builder for [`ApplicationCommand`].
#[derive(Debug, Clone)]
pub struct ApplicationCommandBuilder {
    pub inner: ApplicationCommand,
}

impl ApplicationCommandBuilder {
    /// Start building a CHAT_INPUT (slash) command.
    pub fn chat_input(name: &str, description: &str) -> (r: Self)
        ensures
            r.inner.id is None,
            r.inner.kind == CommandType::ChatInput,
            r.inner.name@ == name@,
            r.inner.description@ == description@,
            r.inner.options@ =~= Seq::<ApplicationCommandOption>::empty(),
            r.inner.nsfw is None,
    {
        ApplicationCommandBuilder {
            inner: ApplicationCommand {
                id: None,
                kind: CommandType::ChatInput,
                name: name.to_owned(),
                description: description.to_owned(),
                options: Vec::new(),
                nsfw: None,
            },
        }
    }

    /// Start building a USER context-menu command.
    pub fn user(name: &str) -> (r: Self)
        ensures
            r.inner.id is None,
            r.inner.kind == CommandType::User,
            r.inner.name@ == name@,
            r.inner.description@ =~= Seq::<char>::empty(),
            r.inner.options@ =~= Seq::<ApplicationCommandOption>::empty(),
            r.inner.nsfw is None,
    {
        ApplicationCommandBuilder {
            inner: ApplicationCommand {
                id: None,
                kind: CommandType::User,
                name: name.to_owned(),
                description: String::new(),
                options: Vec::new(),
                nsfw: None,
            },
        }
    }

    /// Start building a MESSAGE context-menu command.
    pub fn message(name: &str) -> (r: Self)
        ensures
            r.inner.id is None,
            r.inner.kind == CommandType::Message,
            r.inner.name@ == name@,
            r.inner.description@ =~= Seq::<char>::empty(),
            r.inner.options@ =~= Seq::<ApplicationCommandOption>::empty(),
            r.inner.nsfw is None,
    {
        ApplicationCommandBuilder {
            inner: ApplicationCommand {
                id: None,
                kind: CommandType::Message,
                name: name.to_owned(),
                description: String::new(),
                options: Vec::new(),
                nsfw: None,
            },
        }
    }

    /// Set the command ID (normally assigned by Discord).
    pub fn id(self, id: Id<CommandMarker>) -> (r: Self)
        ensures
            r.inner == (ApplicationCommand { id: Some(id), ..self.inner }),
    {
        let mut inner = self.inner;
        inner.id = Some(id);
        ApplicationCommandBuilder { inner }
    }

    /// Add an option to the command.
    pub fn option(self, option: ApplicationCommandOption) -> (r: Self)
        ensures
            r.inner == (ApplicationCommand { options: r.inner.options, ..self.inner }),
            r.inner.options@.len() == self.inner.options@.len() + 1,
            r.inner.options@.drop_last() =~= self.inner.options@,
            r.inner.options@.last() == option,
    {
        let mut inner = self.inner;
        inner.options.push(option);
        ApplicationCommandBuilder { inner }
    }

    /// Add a simple option with just a name, description, type, and required
    /// flag.
    pub fn simple_option(
        self,
        kind: CommandOptionType,
        name: &str,
        description: &str,
        required: bool,
    ) -> (r: Self)
        ensures
            r.inner == (ApplicationCommand { options: r.inner.options, ..self.inner }),
            r.inner.options@.len() == self.inner.options@.len() + 1,
            r.inner.options@.drop_last() =~= self.inner.options@,
            r.inner.options@.last().name@ == name@,
            r.inner.options@.last().description@ == description@,
            r.inner.options@.last().kind == kind,
            r.inner.options@.last().required == Some(required),
            r.inner.options@.last().choices@ =~= Seq::<ApplicationCommandOptionChoice>::empty(),
    {
        let mut inner = self.inner;
        inner.options.push(
            ApplicationCommandOption {
                name: name.to_owned(),
                description: description.to_owned(),
                kind,
                required: Some(required),
                choices: Vec::new(),
            },
        );
        ApplicationCommandBuilder { inner }
    }

    /// Mark the command as NSFW.
    pub fn nsfw(self, nsfw: bool) -> (r: Self)
        ensures
            r.inner == (ApplicationCommand { nsfw: Some(nsfw), ..self.inner }),
    {
        let mut inner = self.inner;
        inner.nsfw = Some(nsfw);
        ApplicationCommandBuilder { inner }
    }

    /// Consume the builder and return the finished command.
    pub fn build(self) -> (r: ApplicationCommand)
        ensures
            r == self.inner,
    {
        self.inner
    }
}

/// Build an [`ApplicationCommandOption`] with choices.
pub fn command_option_with_choices(
    kind: CommandOptionType,
    name: &str,
    description: &str,
    required: bool,
    choices: Vec<ApplicationCommandOptionChoice>,
) -> (r: ApplicationCommandOption)
    ensures
        r.name@ == name@,
        r.description@ == description@,
        r.kind == kind,
        r.required == Some(required),
        r.choices == choices,
{
    ApplicationCommandOption {
        name: name.to_owned(),
        description: description.to_owned(),
        kind,
        required: Some(required),
        choices,
    }
}

// ===========================================================================
// Embed builder
// ===========================================================================

/// Ergonomic builder for [`Embed`]; it wraps the embed's own chaining
/// constructors.
#[derive(Debug, Clone)]
pub struct EmbedBuilder {
    pub inner: Embed,
}

impl EmbedBuilder {
    /// Create a new empty embed builder.
    pub fn new() -> (r: Self)
        ensures
            r.inner.title is None,
            r.inner.description is None,
            r.inner.url is None,
            r.inner.color is None,
            r.inner.footer is None,
            r.inner.image is None,
            r.inner.thumbnail is None,
            r.inner.author is None,
            r.inner.fields@ =~= Seq::<EmbedField>::empty(),
            r.inner.timestamp is None,
    {
        EmbedBuilder { inner: Embed::new() }
    }

    /// Set the embed title.
    pub fn title(self, title: &str) -> (r: Self)
        ensures
            r.inner == (Embed { title: r.inner.title, ..self.inner }),
            r.inner.title matches Some(t) && t@ == title@,
    {
        EmbedBuilder { inner: self.inner.title(title) }
    }

    /// Set the embed description.
    pub fn description(self, desc: &str) -> (r: Self)
        ensures
            r.inner == (Embed { description: r.inner.description, ..self.inner }),
            r.inner.description matches Some(d) && d@ == desc@,
    {
        EmbedBuilder { inner: self.inner.description(desc) }
    }

    /// Set the embed color (as a 24-bit RGB integer, e.g. `0xFF6600`).
    pub fn color(self, color: u32) -> (r: Self)
        ensures
            r.inner == (Embed { color: Some(color), ..self.inner }),
    {
        EmbedBuilder { inner: self.inner.color(color) }
    }

    /// Add a field to the embed.
    pub fn field(self, name: &str, value: &str, inline: bool) -> (r: Self)
        ensures
            r.inner == (Embed { fields: r.inner.fields, ..self.inner }),
            r.inner.fields@.len() == self.inner.fields@.len() + 1,
            r.inner.fields@.drop_last() =~= self.inner.fields@,
            r.inner.fields@.last().name@ == name@,
            r.inner.fields@.last().value@ == value@,
            r.inner.fields@.last().inline == inline,
    {
        EmbedBuilder { inner: self.inner.field(name, value, inline) }
    }

    /// Set the footer text.
    pub fn footer(self, text: &str) -> (r: Self)
        ensures
            r.inner == (Embed { footer: r.inner.footer, ..self.inner }),
            r.inner.footer matches Some(f) && f.text@ == text@ && f.icon_url is None,
    {
        EmbedBuilder { inner: self.inner.footer(text) }
    }

    /// Set the footer text and icon URL.
    pub fn footer_with_icon(self, text: &str, icon_url: &str) -> (r: Self)
        ensures
            r.inner == (Embed { footer: r.inner.footer, ..self.inner }),
            r.inner.footer matches Some(f) && f.icon_url matches Some(u) && f.text@ == text@ && u@
                == icon_url@,
    {
        EmbedBuilder { inner: self.inner.footer_with_icon(text, icon_url) }
    }

    /// Set the thumbnail URL.
    pub fn thumbnail(self, url: &str) -> (r: Self)
        ensures
            r.inner == (Embed { thumbnail: r.inner.thumbnail, ..self.inner }),
            r.inner.thumbnail matches Some(m) && m.url@ == url@,
    {
        EmbedBuilder { inner: self.inner.thumbnail(url) }
    }

    /// Set the image URL.
    pub fn image(self, url: &str) -> (r: Self)
        ensures
            r.inner == (Embed { image: r.inner.image, ..self.inner }),
            r.inner.image matches Some(m) && m.url@ == url@,
    {
        EmbedBuilder { inner: self.inner.image(url) }
    }

    /// Set the embed author name.
    pub fn author(self, name: &str) -> (r: Self)
        ensures
            r.inner == (Embed { author: r.inner.author, ..self.inner }),
            r.inner.author matches Some(a) && a.name@ == name@ && a.url is None
                && a.icon_url is None,
    {
        EmbedBuilder { inner: self.inner.author(name) }
    }

    /// Set the embed timestamp from an ISO 8601 string.  A string that does
    /// not parse leaves the embed unchanged.
    pub fn timestamp(self, ts: &str) -> (r: Self)
        ensures
            r.inner == (Embed { timestamp: r.inner.timestamp, ..self.inner }),
            crate::types::datetime::valid_timestamp(ts@) ==> (r.inner.timestamp matches Some(t)
                && t@ == ts@),
            !crate::types::datetime::valid_timestamp(ts@) ==> r.inner.timestamp
                == self.inner.timestamp,
    {
        EmbedBuilder { inner: self.inner.timestamp(ts) }
    }

    /// Set the embed URL.
    pub fn url(self, url: &str) -> (r: Self)
        ensures
            r.inner == (Embed { url: r.inner.url, ..self.inner }),
            r.inner.url matches Some(u) && u@ == url@,
    {
        EmbedBuilder { inner: self.inner.url(url) }
    }

    /// Consume the builder and return the finished embed.
    pub fn build(self) -> (r: Embed)
        ensures
            r == self.inner,
    {
        self.inner
    }
}

impl Default for EmbedBuilder {
    /// An embed builder with every field unset.
    fn default() -> (r: Self)
        ensures
            r.inner.title is None,
            r.inner.description is None,
            r.inner.url is None,
            r.inner.color is None,
            r.inner.footer is None,
            r.inner.image is None,
            r.inner.thumbnail is None,
            r.inner.author is None,
            r.inner.fields@ =~= Seq::<EmbedField>::empty(),
            r.inner.timestamp is None,
    {
        EmbedBuilder::new()
    }
}

// ===========================================================================
// Component helper functions
// ===========================================================================

/// Build an Action Row wrapping other components.
pub fn action_row(components: Vec<Component>) -> (r: Component)
    ensures
        r matches Component::ActionRow(ar) && ar.components == components,
{
    Component::ActionRow(ActionRow { components })
}

/// The button style for a wire value; out-of-range values fall back to
/// Primary.  Link buttons are built with [`link_button`] instead.
pub open spec fn spec_button_style(style: u8) -> ButtonStyle {
    if style == 2 {
        ButtonStyle::Secondary
    } else if style == 3 {
        ButtonStyle::Success
    } else if style == 4 {
        ButtonStyle::Danger
    } else {
        ButtonStyle::Primary
    }
}

/// Build a button component.  `style` values: 1=Primary, 2=Secondary,
/// 3=Success, 4=Danger.
pub fn button(style: u8, label: &str, custom_id: &str) -> (r: Component)
    ensures
        r matches Component::Button(b) && b.style == spec_button_style(style) && (
        b.label matches Some(l) && l@ == label@) && (b.custom_id matches Some(c) && c@
            == custom_id@) && !b.disabled && b.emoji is None && b.url is None,
{
    let button_style = match style {
        2 => ButtonStyle::Secondary,
        3 => ButtonStyle::Success,
        4 => ButtonStyle::Danger,
        _ => ButtonStyle::Primary,
    };
    Component::Button(
        Button {
            custom_id: Some(custom_id.to_owned()),
            disabled: false,
            emoji: None,
            label: Some(label.to_owned()),
            style: button_style,
            url: None,
        },
    )
}

/// Build a link button (style 5, no custom_id, requires url).
pub fn link_button(label: &str, url: &str) -> (r: Component)
    ensures
        r matches Component::Button(b) && b.style == ButtonStyle::Link && (b.label matches Some(l)
            && l@ == label@) && (b.url matches Some(u) && u@ == url@) && b.custom_id is None
            && !b.disabled && b.emoji is None,
{
    Component::Button(
        Button {
            custom_id: None,
            disabled: false,
            emoji: None,
            label: Some(label.to_owned()),
            style: ButtonStyle::Link,
            url: Some(url.to_owned()),
        },
    )
}

/// Build a string select menu component.
pub fn string_select(custom_id: &str, placeholder: &str, options: Vec<SelectOption>) -> (r:
    Component)
    ensures
        r matches Component::SelectMenu(m) && m.custom_id@ == custom_id@ && (
        m.placeholder matches Some(p) && p@ == placeholder@) && m.options == options
            && m.min_values == Some(1u8) && m.max_values == Some(1u8) && !m.disabled,
{
    Component::SelectMenu(
        SelectMenu {
            custom_id: custom_id.to_owned(),
            disabled: false,
            max_values: Some(1),
            min_values: Some(1),
            options,
            placeholder: Some(placeholder.to_owned()),
        },
    )
}

/// The text input style for a wire value; out-of-range values fall back to
/// Short.
pub open spec fn spec_text_input_style(style: u8) -> TextInputStyle {
    if style == 2 {
        TextInputStyle::Paragraph
    } else {
        TextInputStyle::Short
    }
}

/// Build a text input for use inside a modal.  `style`: 1 = Short,
/// 2 = Paragraph.
pub fn text_input(custom_id: &str, label: &str, style: u8, required: bool) -> (r: Component)
    ensures
        r matches Component::TextInput(t) && t.custom_id@ == custom_id@ && (
        t.label matches Some(l) && l@ == label@) && t.style == spec_text_input_style(style)
            && t.required == Some(required) && t.value is None && t.placeholder is None,
{
    let input_style = match style {
        2 => TextInputStyle::Paragraph,
        _ => TextInputStyle::Short,
    };
    Component::TextInput(
        TextInput {
            custom_id: custom_id.to_owned(),
            label: Some(label.to_owned()),
            max_length: None,
            min_length: None,
            placeholder: None,
            required: Some(required),
            style: input_style,
            value: None,
        },
    )
}

} // verus!
