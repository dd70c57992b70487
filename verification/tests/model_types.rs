//! The typed model: builders, components, outbound bodies, IDs, and the
//! command handlers built on them.

use hello_discord::bot::{gateway_intents, BotState, GreetState};
use hello_discord::handlers::{
    clamp_sides, count_text, first_message_when, first_text_channel, format_guild_info,
    format_whoami, get_option_u64, greeting_text, help_text, parse_command, parse_reroll_sides,
    prefix_command_action, reroll_custom_id, roll_response, roll_text, slash_command_action,
    slash_commands, text_response, unknown_command_text, unknown_slash_text, uptime_text,
    PrefixAction, SlashAction,
};
use hello_discord::json::create_message_json;
use hello_discord::types::builders::{
    action_row, button, link_button, string_select, text_input, ApplicationCommandBuilder,
    EmbedBuilder,
};
use hello_discord::types::custom::CreateMessage;
use hello_discord::types::ext::IdExt;
use hello_discord::types::id::Id;
use hello_discord::types::marker::{GuildMarker, MessageMarker};
use hello_discord::types::{
    ButtonStyle, Channel, ChannelType, CommandOption, CommandOptionType, CommandOptionValue,
    CommandType, Component, Guild, InteractionCallbackType, PartialUser, PresenceUpdate,
    SelectOption, TextInputStyle, User,
};

fn test_user(discriminator: u16, avatar: Option<&str>) -> User {
    User {
        id: Id::new(789),
        name: "alice".to_string(),
        discriminator,
        avatar: avatar.map(|a| a.to_string()),
        bot: false,
        global_name: None,
    }
}

fn test_guild(members: Option<u64>, online: Option<u64>) -> Guild {
    Guild {
        id: Id::new(123),
        name: "Test Server".to_string(),
        icon: None,
        owner_id: Id::new(456),
        approximate_member_count: members,
        approximate_presence_count: online,
        channels: Vec::new(),
        members: Vec::new(),
    }
}

// ---------------------------------------------------------------------------
// Slash command definitions
// ---------------------------------------------------------------------------

#[test]
fn slash_commands_returns_expected_count() {
    let cmds = slash_commands();
    assert_eq!(cmds.len(), 11);
}

#[test]
fn slash_commands_names_are_unique() {
    let cmds = slash_commands();
    let mut names: Vec<&str> = cmds.iter().map(|c| c.name.as_str()).collect();
    names.sort();
    names.dedup();
    assert_eq!(names.len(), cmds.len(), "duplicate command names found");
}

#[test]
fn slash_commands_all_have_descriptions() {
    for cmd in slash_commands() {
        assert!(
            !cmd.description.is_empty(),
            "command '{}' has empty description",
            cmd.name
        );
    }
}

#[test]
fn roll_command_has_sides_option() {
    let cmds = slash_commands();
    let roll = cmds.iter().find(|c| c.name == "roll").expect("no /roll");
    assert_eq!(roll.options.len(), 1);
    assert_eq!(roll.options[0].name, "sides");
    assert!(matches!(roll.options[0].kind, CommandOptionType::Integer));
    assert_eq!(roll.options[0].required, Some(false));
}

// ---------------------------------------------------------------------------
// text_response
// ---------------------------------------------------------------------------

#[test]
fn text_response_sets_content() {
    let resp = text_response("hello");
    assert_eq!(resp.data.as_ref().unwrap().content.as_deref(), Some("hello"));
}

#[test]
fn text_response_uses_channel_message_type() {
    let resp = text_response("x");
    assert!(matches!(resp.kind, InteractionCallbackType::ChannelMessageWithSource));
}

#[test]
fn text_response_has_no_extras() {
    let resp = text_response("x");
    let data = resp.data.unwrap();
    assert!(data.embeds.is_none());
    assert!(data.components.is_none());
    assert!(data.flags.is_none());
}

// ---------------------------------------------------------------------------
// format_guild_info / format_whoami / help_text
// ---------------------------------------------------------------------------

#[test]
fn format_guild_info_includes_guild_name() {
    let guild = test_guild(Some(42), Some(10));
    let text = format_guild_info(&guild);
    assert!(text.contains("Test Server"), "missing guild name");
    assert!(text.contains("42"), "missing member count");
    assert!(text.contains("10"), "missing online count");
    assert!(text.contains("<@456>"), "missing owner mention");
}

#[test]
fn format_guild_info_handles_missing_counts() {
    let guild = test_guild(None, None);
    let text = format_guild_info(&guild);
    assert!(text.contains("unknown"), "missing 'unknown' for absent counts");
}

#[test]
fn format_whoami_includes_username_and_id() {
    let user = test_user(1, None);
    let text = format_whoami(&user);
    assert!(text.contains("alice"), "missing username");
    assert!(text.contains("789"), "missing user id");
}

#[test]
fn help_text_mentions_all_prefix_commands() {
    let text = help_text();
    for cmd in &[
        "!hello", "!ping", "!uptime", "!roll", "!count", "!first", "!serverinfo", "!whoami",
        "!help",
    ] {
        assert!(text.contains(cmd), "help text missing {}", cmd);
    }
}

#[test]
fn help_text_mentions_all_slash_commands() {
    let text = help_text();
    for name in slash_commands().iter().map(|c| c.name.as_str()) {
        assert!(text.contains(&format!("/{}", name)), "help text missing /{}", name);
    }
}

// ---------------------------------------------------------------------------
// ApplicationCommandBuilder / EmbedBuilder
// ---------------------------------------------------------------------------

#[test]
fn application_command_builder_chat_input() {
    let cmd = ApplicationCommandBuilder::chat_input("ping", "Check bot latency").build();
    assert_eq!(cmd.name, "ping");
    assert_eq!(cmd.description, "Check bot latency");
    assert!(matches!(cmd.kind, CommandType::ChatInput));
    assert!(cmd.options.is_empty());
}

#[test]
fn application_command_builder_with_option() {
    let cmd = ApplicationCommandBuilder::chat_input("roll", "Roll a dice")
        .simple_option(CommandOptionType::Integer, "sides", "Number of sides", false)
        .build();

    assert_eq!(cmd.options.len(), 1);
    assert_eq!(cmd.options[0].name, "sides");
    assert!(matches!(cmd.options[0].kind, CommandOptionType::Integer));
    assert_eq!(cmd.options[0].required, Some(false));
}

#[test]
fn embed_builder_basic() {
    let embed = EmbedBuilder::new()
        .title("Test Title")
        .description("Test Description")
        .color(0xFF0000)
        .footer("Footer text")
        .build();

    assert_eq!(embed.title.as_deref(), Some("Test Title"));
    assert_eq!(embed.description.as_deref(), Some("Test Description"));
    assert_eq!(embed.color, Some(0xFF0000));
    assert!(embed.footer.is_some());
    assert_eq!(embed.footer.unwrap().text, "Footer text");
}

#[test]
fn embed_builder_with_fields() {
    let embed = EmbedBuilder::new()
        .field("Name1", "Value1", true)
        .field("Name2", "Value2", false)
        .build();

    assert_eq!(embed.fields.len(), 2);
    assert_eq!(embed.fields[0].name, "Name1");
    assert!(embed.fields[0].inline);
    assert_eq!(embed.fields[1].name, "Name2");
    assert!(!embed.fields[1].inline);
}

// ---------------------------------------------------------------------------
// Component helpers
// ---------------------------------------------------------------------------

#[test]
fn action_row_wraps_components() {
    let row = action_row(vec![button(1, "Click", "btn_click")]);
    match row {
        Component::ActionRow(ar) => assert_eq!(ar.components.len(), 1),
        _ => panic!("expected ActionRow"),
    }
}

#[test]
fn button_creates_correct_component() {
    let btn = button(3, "OK", "btn_ok");
    match btn {
        Component::Button(b) => {
            assert_eq!(b.label.as_deref(), Some("OK"));
            assert_eq!(b.custom_id.as_deref(), Some("btn_ok"));
            assert!(matches!(b.style, ButtonStyle::Success));
        }
        _ => panic!("expected Button"),
    }
}

#[test]
fn link_button_has_url_and_no_custom_id() {
    let btn = link_button("Visit", "https://example.com");
    match btn {
        Component::Button(b) => {
            assert!(b.custom_id.is_none());
            assert_eq!(b.url.as_deref(), Some("https://example.com"));
            assert!(matches!(b.style, ButtonStyle::Link));
        }
        _ => panic!("expected Button"),
    }
}

#[test]
fn text_input_creates_correct_component() {
    let ti = text_input("my_input", "Enter text", 2, true);
    match ti {
        Component::TextInput(t) => {
            assert_eq!(t.custom_id, "my_input");
            assert!(matches!(t.style, TextInputStyle::Paragraph));
            assert_eq!(t.required, Some(true));
        }
        _ => panic!("expected TextInput"),
    }
}

#[test]
fn string_select_carries_its_options() {
    let options = vec![SelectOption {
        label: "Rust".to_string(),
        value: "rust".to_string(),
        description: None,
        emoji: None,
        default: false,
    }];
    match string_select("language_select", "Choose a language...", options) {
        Component::SelectMenu(m) => {
            assert_eq!(m.custom_id, "language_select");
            assert_eq!(m.options.len(), 1);
            assert_eq!(m.min_values, Some(1));
            assert_eq!(m.max_values, Some(1));
        }
        _ => panic!("expected SelectMenu"),
    }
}

// ---------------------------------------------------------------------------
// CreateMessage and its wire form
// ---------------------------------------------------------------------------

#[test]
fn create_message_builder() {
    let msg = CreateMessage::new().content("hello").reply_to(Id::<MessageMarker>::new(12345));

    assert_eq!(msg.content.as_deref(), Some("hello"));
    assert!(msg.message_reference.is_some());
    let reference = msg.message_reference.unwrap();
    assert_eq!(reference.message_id.map(|id| id.get()), Some(12345));
}

#[test]
fn create_message_serializes() {
    // a content-only body yields exactly the content field
    let msg = CreateMessage::new().content("test");
    let json = create_message_json(&msg);
    assert!(json.contains("\"content\":\"test\""));
    assert!(!json.contains("embeds"));
    assert!(!json.contains("components"));
    assert!(!json.contains("flags"));
    assert_eq!(json, "{\"content\":\"test\"}");
}

#[test]
fn create_message_json_escapes_content() {
    let msg = CreateMessage::new().content("a\"b\\c\nd");
    assert_eq!(create_message_json(&msg), "{\"content\":\"a\\\"b\\\\c\\nd\"}");
}

#[test]
fn interaction_callback_type_roundtrip() {
    let ty = InteractionCallbackType::ChannelMessageWithSource;
    assert_eq!(ty.as_u8(), 4);
    assert_eq!(InteractionCallbackType::from_u8(4), Some(ty));
    assert_eq!(InteractionCallbackType::from_u8(2), None);
}

// ---------------------------------------------------------------------------
// IDs and snowflake timestamps
// ---------------------------------------------------------------------------

#[test]
fn guild_created_at_ms() {
    let guild_id = Id::<GuildMarker>::new(175928847299117063);
    let expected = (175928847299117063u64 >> 22) + 1_420_070_400_000;
    let sf = guild_id.get();
    let ms = (sf >> 22) + 1_420_070_400_000;
    assert_eq!(ms, expected);
    assert_eq!(guild_id.timestamp_ms(), expected);
}

#[test]
fn message_snowflake_timestamp() {
    let msg_id = Id::<MessageMarker>::new(175928847299117063);
    let expected = (175928847299117063u64 >> 22) + 1_420_070_400_000;
    let sf = msg_id.get();
    let ms = (sf >> 22) + 1_420_070_400_000;
    assert_eq!(ms, expected);
}

#[test]
fn id_ext_value() {
    let id = Id::<GuildMarker>::new(12345);
    assert_eq!(id.value(), 12345);
}

// ---------------------------------------------------------------------------
// User helpers
// ---------------------------------------------------------------------------

#[test]
fn user_tag_with_discriminator() {
    let user = test_user(1, None);
    assert_eq!(user.tag(), "alice#0001");
}

#[test]
fn user_tag_new_system() {
    let user = test_user(0, None);
    assert_eq!(user.tag(), "alice");
}

#[test]
fn user_avatar_url_none_when_no_avatar() {
    let user = test_user(1, None);
    assert!(user.avatar_url().is_none());
}

#[test]
fn user_avatar_url_present() {
    let user = test_user(0, Some("1a2b3c4d5e6f7a8b9c0d1e2f3a4b5c6d"));
    let url = user.avatar_url().unwrap();
    assert!(url.contains("789"));
    assert!(url.starts_with("https://cdn.discordapp.com/avatars/"));
    assert_eq!(
        url,
        "https://cdn.discordapp.com/avatars/789/1a2b3c4d5e6f7a8b9c0d1e2f3a4b5c6d.png"
    );
}

// ---------------------------------------------------------------------------
// Bot state
// ---------------------------------------------------------------------------

#[test]
fn bot_state_default_has_no_identity() {
    let state = BotState::new(0);
    assert!(state.bot_user_id.is_none());
    assert!(state.application_id.is_none());
    assert!(!state.commands_registered);
}

#[test]
fn bot_state_tracks_identity() {
    let mut state = BotState::new(0);
    state.bot_user_id = Some(Id::new(12345));
    state.application_id = Some(Id::new(67890));
    assert_eq!(state.bot_user_id.map(|id| id.get()), Some(12345));
    assert_eq!(state.application_id.map(|id| id.get()), Some(67890));
}

#[test]
fn bot_state_commands_registered_flag() {
    let mut state = BotState::new(0);
    assert!(!state.commands_registered);
    state.commands_registered = true;
    assert!(state.commands_registered);
}

#[test]
fn greet_state_default_is_empty() {
    let state = GreetState::new();
    assert!(state.greet_channel_id.is_none());
    assert!(state.greeted_users.is_empty());
}

#[test]
fn greet_state_tracks_greeted_users() {
    let mut state = GreetState::new();
    assert!(!state.already_greeted(1));
    state.greeted_users.push(1);
    assert!(state.already_greeted(1));
    assert!(!state.already_greeted(2));
}

#[test]
fn greet_state_no_duplicate_greetings() {
    let mut state = GreetState::new();
    let presence = PresenceUpdate {
        user: PartialUser { id: Id::new(1), username: None, avatar: None, bot: false },
        guild_id: None,
        status: Some("online".to_string()),
        activities: Vec::new(),
    };
    assert!(state.presence_greeting(&None, &presence));
    // the second coming-online of the same user is not greeted again
    assert!(!state.presence_greeting(&None, &presence));
    assert_eq!(state.greeted_users.len(), 1);
}

#[test]
fn greet_state_channel_id_can_be_set() {
    let mut state = GreetState::new();
    state.greet_channel_id = Some(Id::new(123));
    assert_eq!(state.greet_channel_id.map(|id| id.get()), Some(123));
}

#[test]
fn gateway_intents_includes_required_bits() {
    let intents = gateway_intents();
    assert_ne!(intents & 1, 0, "missing GUILDS");
    assert_ne!(intents & 2, 0, "missing GUILD_MEMBERS");
    assert_ne!(intents & 256, 0, "missing GUILD_PRESENCES");
    assert_ne!(intents & 512, 0, "missing GUILD_MESSAGES");
    assert_ne!(intents & 32768, 0, "missing MESSAGE_CONTENT");
}

// ---------------------------------------------------------------------------
// The prefix-command grammar and reply builders
// ---------------------------------------------------------------------------

#[test]
fn parse_command_splits_bang_commands() {
    let parsed = parse_command("!roll 20", None).unwrap();
    assert_eq!(parsed.0, "!roll");
    assert_eq!(parsed.1, "20");

    let parsed = parse_command("  !ping  ", None).unwrap();
    assert_eq!(parsed.0, "!ping");
    assert_eq!(parsed.1, "");

    assert!(parse_command("hello there", None).is_none());
    assert!(parse_command("", None).is_none());
}

#[test]
fn parse_command_understands_mentions() {
    let parsed = parse_command("<@789> help", Some(789)).unwrap();
    assert_eq!(parsed.0, "!help");

    let parsed = parse_command("<@!789> !roll 6", Some(789)).unwrap();
    assert_eq!(parsed.0, "!roll");
    assert_eq!(parsed.1, "6");

    // a mention of someone else is not a command
    assert!(parse_command("<@555> help", Some(789)).is_none());
    // a bare mention carries no command
    assert!(parse_command("<@789>", Some(789)).is_none());
}

#[test]
fn dice_sizes_are_clamped() {
    assert_eq!(clamp_sides(None), 6);
    assert_eq!(clamp_sides(Some(0)), 2);
    assert_eq!(clamp_sides(Some(1)), 2);
    assert_eq!(clamp_sides(Some(20)), 20);
    assert_eq!(clamp_sides(Some(5000)), 1000);
}

#[test]
fn reroll_round_trip() {
    let id = reroll_custom_id(20);
    assert_eq!(id, "reroll:20");
    assert_eq!(parse_reroll_sides(&id), Some(20));
    // a garbled suffix falls back to six sides
    assert_eq!(parse_reroll_sides("reroll:abc"), Some(6));
    assert_eq!(parse_reroll_sides("reroll:1"), Some(2));
    assert_eq!(parse_reroll_sides("other:20"), None);
}

#[test]
fn reply_texts_have_the_expected_shape() {
    assert_eq!(uptime_text(3_725), "⏱️ Bot uptime: 1h 2m 5s");
    assert_eq!(roll_text(20, 7), "🎲 Rolling a d20... **7**!");
    assert_eq!(count_text(345), "📊 This channel has approximately **345** messages.");
    assert_eq!(
        greeting_text(42),
        "Welcome online, <@42>! 🎉 Hope you're having a great day!"
    );
    assert_eq!(unknown_command_text("!nope"), "Not sure what that means: `!nope`");
    assert_eq!(unknown_slash_text("nope"), "Unknown command: `/nope`");
}

#[test]
fn roll_response_carries_a_reroll_button() {
    let resp = roll_response(20, 7, false);
    assert!(matches!(resp.kind, InteractionCallbackType::ChannelMessageWithSource));
    let data = resp.data.unwrap();
    assert_eq!(data.content.as_deref(), Some("🎲 Rolling a d20... **7**!"));
    match &data.components.as_ref().unwrap()[0] {
        Component::ActionRow(row) => match &row.components[0] {
            Component::Button(b) => assert_eq!(b.custom_id.as_deref(), Some("reroll:20")),
            _ => panic!("expected a button"),
        },
        _ => panic!("expected an action row"),
    }
    let update = roll_response(20, 7, true);
    assert!(matches!(update.kind, InteractionCallbackType::UpdateMessage));
}

#[test]
fn option_lookup_finds_integers() {
    let options = vec![
        CommandOption {
            name: "other".to_string(),
            kind: 3,
            value: Some(CommandOptionValue::String("x".to_string())),
            options: Vec::new(),
            focused: false,
        },
        CommandOption {
            name: "sides".to_string(),
            kind: 4,
            value: Some(CommandOptionValue::Integer(20)),
            options: Vec::new(),
            focused: false,
        },
    ];
    assert_eq!(get_option_u64(&options, "sides"), Some(20));
    assert_eq!(get_option_u64(&options, "other"), None);
    assert_eq!(get_option_u64(&options, "missing"), None);
}

#[test]
fn first_text_channel_picks_the_first() {
    let channels = vec![
        Channel {
            id: Id::new(1),
            kind: ChannelType::GuildVoice,
            guild_id: None,
            name: None,
            topic: None,
            position: None,
            parent_id: None,
            nsfw: false,
        },
        Channel {
            id: Id::new(2),
            kind: ChannelType::GuildText,
            guild_id: None,
            name: Some("general".to_string()),
            topic: None,
            position: None,
            parent_id: None,
            nsfw: false,
        },
    ];
    assert_eq!(first_text_channel(&channels), Some(1));
    assert_eq!(first_text_channel(&Vec::new()), None);
}

// ---------------------------------------------------------------------------
// Calendar renderings
// ---------------------------------------------------------------------------

#[test]
fn first_message_when_renders_the_date() {
    assert_eq!(
        first_message_when("2021-08-10T11:16:37.020000+00:00"),
        "August 10, 2021 at 11:16 UTC"
    );
    // a string that does not parse passes through unchanged
    assert_eq!(first_message_when("not a date"), "not a date");
}

#[test]
fn guild_created_date_is_rendered() {
    // guild snowflake 123 encodes the Discord epoch itself
    let text = format_guild_info(&test_guild(None, None));
    assert!(text.contains("January 01, 2015"), "missing creation date in {}", text);
}

// ---------------------------------------------------------------------------
// Command dispatch decisions
// ---------------------------------------------------------------------------

#[test]
fn slash_commands_dispatch_to_their_actions() {
    let no_options = Vec::new();
    match slash_command_action("ping", &no_options, None, 0) {
        SlashAction::Respond(resp) => {
            assert_eq!(resp.data.unwrap().content.as_deref(), Some("🏓 Pong!"));
        }
        _ => panic!("expected an immediate response"),
    }
    assert!(matches!(
        slash_command_action("count", &no_options, None, 0),
        SlashAction::CountMessages
    ));
    assert!(matches!(
        slash_command_action("first", &no_options, None, 0),
        SlashAction::FirstMessage
    ));
    assert!(matches!(
        slash_command_action("serverinfo", &no_options, None, 0),
        SlashAction::ServerInfo
    ));
    assert!(matches!(
        slash_command_action("send-logo", &no_options, None, 0),
        SlashAction::SendLogo
    ));
    match slash_command_action("frobnicate", &no_options, None, 0) {
        SlashAction::Respond(resp) => {
            assert_eq!(
                resp.data.unwrap().content.as_deref(),
                Some("Unknown command: `/frobnicate`")
            );
        }
        _ => panic!("expected an unknown-command response"),
    }
}

#[test]
fn prefix_commands_dispatch_to_their_actions() {
    let user = test_user(0, None);
    match prefix_command_action("!hello", "", &user, 0, None) {
        PrefixAction::Reply(text) => assert_eq!(text, "Hello, World! 👋"),
        _ => panic!("expected a reply"),
    }
    match prefix_command_action("!uptime", "", &user, 3725, None) {
        PrefixAction::Reply(text) => assert_eq!(text, "⏱️ Bot uptime: 1h 2m 5s"),
        _ => panic!("expected a reply"),
    }
    match prefix_command_action("!whoami", "", &user, 0, None) {
        PrefixAction::Reply(text) => assert!(text.contains("alice")),
        _ => panic!("expected a reply"),
    }
    match prefix_command_action("!roll", " 20 ", &user, 0, None) {
        PrefixAction::Reply(text) => assert!(text.starts_with("🎲 Rolling a d20... **")),
        _ => panic!("expected a reply"),
    }
    assert!(matches!(
        prefix_command_action("!count", "", &user, 0, None),
        PrefixAction::CountMessages
    ));
    assert!(matches!(
        prefix_command_action("!first", "", &user, 0, None),
        PrefixAction::FirstMessage
    ));
    assert!(matches!(
        prefix_command_action("!serverinfo", "", &user, 0, None),
        PrefixAction::ServerInfo
    ));
    match prefix_command_action("!nope", "", &user, 0, None) {
        PrefixAction::Reply(text) => {
            assert_eq!(text, "Not sure what that means: `!nope`");
        }
        _ => panic!("expected an unknown-command reply"),
    }
    assert!(matches!(
        prefix_command_action("hello", "", &user, 0, None),
        PrefixAction::Ignore
    ));
}
