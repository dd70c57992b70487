//! Command handling: the slash-command definitions, the prefix-command
//! grammar, and the reply builders.
//!
//! Handlers here are decision functions: they take the event's plain values
//! (plus the clock readings and dice rolls the surrounding loop supplies) and
//! return what to send.  The loop performs the REST calls.

use vstd::prelude::*;
use vstd::string::StrSliceExecFns;
use vstd::string::StringExecFns;

use crate::outside::long_date_of;
use crate::text::{spec_dec, str_eq, u64_to_dec};
use crate::types::builders::{action_row, button, string_select, text_input, ApplicationCommandBuilder};
use crate::types::{
    ApplicationCommand, Channel, ChannelType, CommandOption, CommandOptionType,
    CommandOptionValue, CommandType, Component, Guild, InteractionCallbackData,
    InteractionCallbackType, InteractionResponse, SelectOption, User,
};

verus! {

// ---------------------------------------------------------------------------
// Slash command definitions
// ---------------------------------------------------------------------------

/// The list of slash commands to register with Discord.
pub fn slash_commands() -> (r: Vec<ApplicationCommand>)
    ensures
        r@.len() == 11,
        r@[0].name@ == "ping"@,
        r@[1].name@ == "uptime"@,
        r@[2].name@ == "roll"@,
        r@[3].name@ == "serverinfo"@,
        r@[4].name@ == "whoami"@,
        r@[5].name@ == "count"@,
        r@[6].name@ == "first"@,
        r@[7].name@ == "help"@,
        r@[8].name@ == "report"@,
        r@[9].name@ == "send-logo"@,
        r@[10].name@ == "demo-select"@,
        forall|i: int| 0 <= i < r@.len() ==> (#[trigger] r@[i]).description@.len() > 0,
        forall|i: int| 0 <= i < r@.len() ==> (#[trigger] r@[i]).kind == CommandType::ChatInput,
        r@[2].options@.len() == 1 && r@[2].options@[0].name@ == "sides"@ && r@[2].options@[0].kind
            == CommandOptionType::Integer && r@[2].options@[0].required == Some(false),
        forall|i: int| 0 <= i < r@.len() && i != 2 ==> (#[trigger] r@[i]).options@.len() == 0,
{
    proof {
        reveal_strlit("ping");
        reveal_strlit("Check bot latency");
        reveal_strlit("uptime");
        reveal_strlit("See how long the bot has been running");
        reveal_strlit("roll");
        reveal_strlit("Roll a dice");
        reveal_strlit("sides");
        reveal_strlit("Number of sides (default: 6)");
        reveal_strlit("serverinfo");
        reveal_strlit("Show server information");
        reveal_strlit("whoami");
        reveal_strlit("Show info about yourself");
        reveal_strlit("count");
        reveal_strlit("Count messages in this channel");
        reveal_strlit("first");
        reveal_strlit("Show the first message ever sent in this channel");
        reveal_strlit("help");
        reveal_strlit("Show available commands");
        reveal_strlit("report");
        reveal_strlit("Submit a report via a pop-up form");
        reveal_strlit("send-logo");
        reveal_strlit("Send the bot logo");
        reveal_strlit("demo-select");
        reveal_strlit("Demo the select menu component");
    }
    let mut cmds: Vec<ApplicationCommand> = Vec::new();
    cmds.push(ApplicationCommandBuilder::chat_input("ping", "Check bot latency").build());
    cmds.push(
        ApplicationCommandBuilder::chat_input(
            "uptime",
            "See how long the bot has been running",
        ).build(),
    );
    cmds.push(
        ApplicationCommandBuilder::chat_input("roll", "Roll a dice").simple_option(
            CommandOptionType::Integer,
            "sides",
            "Number of sides (default: 6)",
            false,
        ).build(),
    );
    cmds.push(
        ApplicationCommandBuilder::chat_input("serverinfo", "Show server information").build(),
    );
    cmds.push(ApplicationCommandBuilder::chat_input("whoami", "Show info about yourself").build());
    cmds.push(
        ApplicationCommandBuilder::chat_input("count", "Count messages in this channel").build(),
    );
    cmds.push(
        ApplicationCommandBuilder::chat_input(
            "first",
            "Show the first message ever sent in this channel",
        ).build(),
    );
    cmds.push(ApplicationCommandBuilder::chat_input("help", "Show available commands").build());
    cmds.push(
        ApplicationCommandBuilder::chat_input(
            "report",
            "Submit a report via a pop-up form",
        ).build(),
    );
    cmds.push(ApplicationCommandBuilder::chat_input("send-logo", "Send the bot logo").build());
    cmds.push(
        ApplicationCommandBuilder::chat_input(
            "demo-select",
            "Demo the select menu component",
        ).build(),
    );
    cmds
}

// ---------------------------------------------------------------------------
// Command option extraction
// ---------------------------------------------------------------------------

/// The value of the first option named `name`, when it carries a nonnegative
/// integer.
pub open spec fn spec_option_u64(options: Seq<CommandOption>, name: Seq<char>) -> Option<u64>
    decreases options.len(),
{
    if options.len() == 0 {
        None
    } else if options[0].name@ == name {
        match options[0].value {
            Some(CommandOptionValue::Integer(v)) => if v >= 0 {
                Some(v as u64)
            } else {
                None
            },
            _ => None,
        }
    } else {
        spec_option_u64(options.subrange(1, options.len() as int), name)
    }
}

/// Extract an unsigned integer option value from a command's options.
pub fn get_option_u64(options: &Vec<CommandOption>, name: &str) -> (r: Option<u64>)
    ensures
        r == spec_option_u64(options@, name@),
{
    let n = options.len();
    proof {
        assert(options@.subrange(0, n as int) =~= options@);
    }
    for i in 0..n
        invariant
            n == options@.len(),
            spec_option_u64(options@, name@) == spec_option_u64(
                options@.subrange(i as int, n as int),
                name@,
            ),
    {
        proof {
            assert(options@.subrange(i as int, n as int).subrange(
                1,
                (n - i) as int,
            ) =~= options@.subrange(i + 1 as int, n as int));
            assert(options@.subrange(i as int, n as int)[0] == options@[i as int]);
        }
        if str_eq(options[i].name.as_str(), name) {
            return match &options[i].value {
                Some(CommandOptionValue::Integer(v)) => {
                    if *v >= 0 {
                        Some(*v as u64)
                    } else {
                        None
                    }
                },
                _ => None,
            };
        }
    }
    proof {
        assert(options@.subrange(n as int, n as int) =~= Seq::<CommandOption>::empty());
    }
    None
}

// ---------------------------------------------------------------------------
// The prefix-command grammar
// ---------------------------------------------------------------------------

/// ASCII whitespace, as the command grammar strips it.
pub open spec fn is_space(c: char) -> bool {
    c == ' ' || c == '\t' || c == '\n' || c == '\r'
}

/// `s` with leading whitespace removed.
pub open spec fn spec_trim_front(s: Seq<char>) -> Seq<char>
    decreases s.len(),
{
    if s.len() > 0 && is_space(s[0]) {
        spec_trim_front(s.subrange(1, s.len() as int))
    } else {
        s
    }
}

/// `s` with trailing whitespace removed.
pub open spec fn spec_trim_back(s: Seq<char>) -> Seq<char>
    decreases s.len(),
{
    if s.len() > 0 && is_space(s.last()) {
        spec_trim_back(s.drop_last())
    } else {
        s
    }
}

/// `s` with surrounding whitespace removed.
pub open spec fn spec_trim(s: Seq<char>) -> Seq<char> {
    spec_trim_back(spec_trim_front(s))
}

/// Whether `s` begins with `p`.
pub open spec fn spec_starts_with(s: Seq<char>, p: Seq<char>) -> bool {
    p.len() <= s.len() && s.take(p.len() as int) == p
}

fn starts_with(s: &str, p: &str) -> (r: bool)
    ensures
        r == spec_starts_with(s@, p@),
{
    let n = s.unicode_len();
    let m = p.unicode_len();
    if m > n {
        return false;
    }
    for i in 0..m
        invariant
            n == s@.len(),
            m == p@.len(),
            m <= n,
            forall|k: int| 0 <= k < i ==> s@[k] == p@[k],
    {
        if s.get_char(i) != p.get_char(i) {
            proof {
                assert(s@.take(p@.len() as int)[i as int] == s@[i as int]);
            }
            return false;
        }
    }
    proof {
        assert(s@.take(p@.len() as int) =~= p@);
    }
    true
}

fn is_space_exec(c: char) -> (r: bool)
    ensures
        r == is_space(c),
{
    c == ' ' || c == '\t' || c == '\n' || c == '\r'
}

/// Strip surrounding ASCII whitespace.
fn trim_spaces<'a>(s: &'a str) -> (r: &'a str)
    ensures
        r@ == spec_trim(s@),
{
    let n = s.unicode_len();
    let mut start: usize = 0;
    proof {
        assert(s@.subrange(0, n as int) =~= s@);
    }
    loop
        invariant_except_break
            0 <= start <= n,
            n == s@.len(),
            spec_trim_front(s@) == spec_trim_front(s@.subrange(start as int, n as int)),
        ensures
            0 <= start <= n,
            n == s@.len(),
            spec_trim_front(s@) == s@.subrange(start as int, n as int),
        decreases n - start,
    {
        if start >= n {
            proof {
                assert(s@.subrange(start as int, n as int) =~= Seq::<char>::empty());
            }
            break;
        }
        if !is_space_exec(s.get_char(start)) {
            proof {
                assert(s@.subrange(start as int, n as int)[0] == s@[start as int]);
            }
            break;
        }
        proof {
            assert(s@.subrange(start as int, n as int)[0] == s@[start as int]);
            assert(s@.subrange(start as int, n as int).subrange(
                1,
                (n - start) as int,
            ) =~= s@.subrange(start + 1 as int, n as int));
        }
        start = start + 1;
    }
    let mut end: usize = n;
    loop
        invariant_except_break
            start <= end <= n,
            n == s@.len(),
            spec_trim_front(s@) == s@.subrange(start as int, n as int),
            spec_trim_back(s@.subrange(start as int, n as int)) == spec_trim_back(
                s@.subrange(start as int, end as int),
            ),
        ensures
            start <= end <= n,
            n == s@.len(),
            spec_trim(s@) == s@.subrange(start as int, end as int),
        decreases end,
    {
        if end <= start {
            proof {
                assert(s@.subrange(start as int, end as int) =~= Seq::<char>::empty());
            }
            break;
        }
        if !is_space_exec(s.get_char(end - 1)) {
            proof {
                let cur = s@.subrange(start as int, end as int);
                assert(cur.last() == s@[end - 1]);
            }
            break;
        }
        proof {
            let cur = s@.subrange(start as int, end as int);
            assert(cur.last() == s@[end - 1]);
            assert(cur.drop_last() =~= s@.subrange(start as int, end - 1));
        }
        end = end - 1;
    }
    s.substring_char(start, end)
}

/// The bot mention as it appears at the front of a message: `<@{id}>`.
pub open spec fn spec_mention_tag(id: u64) -> Seq<char> {
    "<@"@ + spec_dec(id as nat) + ">"@
}

/// The nickname form of the mention: `<@!{id}>`.
pub open spec fn spec_mention_tag_nick(id: u64) -> Seq<char> {
    "<@!"@ + spec_dec(id as nat) + ">"@
}

/// The normalized command text of a message: the trimmed content when it
/// starts with `!`, else the text after a leading bot mention with `!`
/// prepended when missing; empty when the message is not a command.
pub open spec fn spec_command_text(content: Seq<char>, bot_user_id: Option<u64>) -> Seq<char> {
    let c = spec_trim(content);
    if spec_starts_with(c, "!"@) {
        c
    } else {
        match bot_user_id {
            None => Seq::empty(),
            Some(id) => {
                let eff = if spec_starts_with(c, spec_mention_tag(id)) {
                    spec_trim(c.skip(spec_mention_tag(id).len() as int))
                } else if spec_starts_with(c, spec_mention_tag_nick(id)) {
                    spec_trim(c.skip(spec_mention_tag_nick(id).len() as int))
                } else {
                    Seq::empty()
                };
                if eff.len() == 0 {
                    Seq::empty()
                } else if spec_starts_with(eff, "!"@) {
                    eff
                } else {
                    "!"@ + eff
                }
            },
        }
    }
}

/// Where the command name ends: the first space, or the end of the text.
pub open spec fn spec_space_index(s: Seq<char>) -> int
    decreases s.len(),
{
    if s.len() == 0 {
        0
    } else if s[0] == ' ' {
        0
    } else {
        1 + spec_space_index(s.subrange(1, s.len() as int))
    }
}

/// Split the normalized command text into the `!command` word and its
/// argument tail, as a two-way split on the first space does.
pub fn parse_command(content: &str, bot_user_id: Option<u64>) -> (r: Option<(String, String)>)
    ensures
        r is None <==> spec_command_text(content@, bot_user_id).len() == 0,
        r matches Some(p) ==> {
            let ct = spec_command_text(content@, bot_user_id);
            let sp = spec_space_index(ct);
            &&& p.0@ == ct.take(sp)
            &&& p.1@ == (if sp < ct.len() {
                ct.skip(sp + 1)
            } else {
                Seq::<char>::empty()
            })
        },
{
    proof {
        reveal_strlit("!");
        reveal_strlit("<@");
        reveal_strlit("<@!");
        reveal_strlit(">");
    }
    let trimmed = trim_spaces(content);
    let command_text: String = if starts_with(trimmed, "!") {
        trimmed.to_owned()
    } else {
        match bot_user_id {
            None => String::new(),
            Some(id) => {
                let id_dec = u64_to_dec(id);
                let mut tag: String = "<@".to_owned();
                tag.append(id_dec.as_str());
                tag.append(">");
                let mut nick: String = "<@!".to_owned();
                nick.append(id_dec.as_str());
                nick.append(">");
                proof {
                    assert(tag@ =~= spec_mention_tag(id));
                    assert(nick@ =~= spec_mention_tag_nick(id));
                }
                let eff: &str = if starts_with(trimmed, tag.as_str()) {
                    let rest = trimmed.substring_char(tag.as_str().unicode_len(), trimmed.unicode_len());
                    proof {
                        assert(rest@ =~= trimmed@.skip(spec_mention_tag(id).len() as int));
                    }
                    trim_spaces(rest)
                } else if starts_with(trimmed, nick.as_str()) {
                    let rest = trimmed.substring_char(nick.as_str().unicode_len(), trimmed.unicode_len());
                    proof {
                        assert(rest@ =~= trimmed@.skip(spec_mention_tag_nick(id).len() as int));
                    }
                    trim_spaces(rest)
                } else {
                    ""
                };
                proof {
                    reveal_strlit("");
                }
                if eff.unicode_len() == 0 {
                    String::new()
                } else if starts_with(eff, "!") {
                    eff.to_owned()
                } else {
                    let mut s: String = "!".to_owned();
                    s.append(eff);
                    s
                }
            },
        }
    };
    let ghost ct = spec_command_text(content@, bot_user_id);
    proof {
        assert(command_text@ == ct);
    }
    let ctlen = command_text.as_str().unicode_len();
    if ctlen == 0 {
        return None;
    }
    // find the first space
    let mut sp: usize = 0;
    proof {
        assert(ct.subrange(0, ctlen as int) =~= ct);
    }
    loop
        invariant_except_break
            0 <= sp <= ctlen,
            ctlen == command_text@.len(),
            command_text@ == ct,
            spec_space_index(ct) == sp + spec_space_index(ct.subrange(sp as int, ctlen as int)),
        ensures
            0 <= sp <= ctlen,
            command_text@ == ct,
            ctlen == ct.len(),
            spec_space_index(ct) == sp,
        decreases ctlen - sp,
    {
        if sp >= ctlen {
            proof {
                assert(ct.subrange(sp as int, ctlen as int) =~= Seq::<char>::empty());
            }
            break;
        }
        let c = command_text.as_str().get_char(sp);
        proof {
            assert(ct.subrange(sp as int, ctlen as int)[0] == ct[sp as int]);
        }
        if c == ' ' {
            break;
        }
        proof {
            assert(ct.subrange(sp as int, ctlen as int).subrange(
                1,
                (ctlen - sp) as int,
            ) =~= ct.subrange(sp + 1 as int, ctlen as int));
        }
        sp = sp + 1;
    }
    let cmd = command_text.as_str().substring_char(0, sp).to_owned();
    let args = if sp < ctlen {
        command_text.as_str().substring_char(sp + 1, ctlen).to_owned()
    } else {
        String::new()
    };
    proof {
        assert(cmd@ =~= ct.take(spec_space_index(ct)));
        if sp < ctlen {
            assert(args@ =~= ct.skip(spec_space_index(ct) + 1));
        }
    }
    Some((cmd, args))
}

// ---------------------------------------------------------------------------
// Dice
// ---------------------------------------------------------------------------

/// A requested die size clamped into [2, 1000], with 6 as the default.
pub open spec fn spec_clamp_sides(requested: Option<u64>) -> u32 {
    match requested {
        Some(n) => if n < 2 {
            2u32
        } else if n > 1000 {
            1000u32
        } else {
            n as u32
        },
        None => 6u32,
    }
}

/// Clamp a requested die size into [2, 1000], defaulting to 6.
pub fn clamp_sides(requested: Option<u64>) -> (r: u32)
    ensures
        2 <= r <= 1000,
        r == spec_clamp_sides(requested),
{
    match requested {
        Some(n) => {
            if n < 2 {
                2
            } else if n > 1000 {
                1000
            } else {
                n as u32
            }
        },
        None => 6,
    }
}

/// Roll a die: a uniform draw mapped into [1, sides].
pub fn roll_die(sides: u32) -> (r: u32)
    requires
        sides >= 1,
    ensures
        1 <= r <= sides,
{
    let x: u32 = rand::random::<u32>();
    (x % sides) + 1
}

// ---------------------------------------------------------------------------
// Reply text builders
// ---------------------------------------------------------------------------

/// The `!roll` reply: which die was rolled and what came up.
pub fn roll_text(sides: u32, roll: u32) -> (r: String)
    ensures
        r@ == "🎲 Rolling a d"@ + spec_dec(sides as nat) + "... **"@ + spec_dec(roll as nat)
            + "**!"@,
{
    proof {
        reveal_strlit("🎲 Rolling a d");
        reveal_strlit("... **");
        reveal_strlit("**!");
    }
    let mut out: String = "🎲 Rolling a d".to_owned();
    out.append(u64_to_dec(sides as u64).as_str());
    out.append("... **");
    out.append(u64_to_dec(roll as u64).as_str());
    out.append("**!");
    proof {
        assert(out@ =~= "🎲 Rolling a d"@ + spec_dec(sides as nat) + "... **"@ + spec_dec(
            roll as nat,
        ) + "**!"@);
    }
    out
}

/// The `custom_id` of the reroll button: `reroll:{sides}`.
pub fn reroll_custom_id(sides: u32) -> (r: String)
    ensures
        r@ == "reroll:"@ + spec_dec(sides as nat),
{
    proof {
        reveal_strlit("reroll:");
    }
    let mut out: String = "reroll:".to_owned();
    out.append(u64_to_dec(sides as u64).as_str());
    out
}

/// Recover the die size from a reroll button's `custom_id`, clamped into
/// [2, 1000] with 6 as the fallback.
pub fn parse_reroll_sides(custom_id: &str) -> (r: Option<u32>)
    ensures
        r is Some <==> spec_starts_with(custom_id@, "reroll:"@),
        r matches Some(sides) ==> 2 <= sides <= 1000,
{
    proof {
        reveal_strlit("reroll:");
    }
    if !starts_with(custom_id, "reroll:") {
        return None;
    }
    let plen: usize = "reroll:".unicode_len();
    let rest = custom_id.substring_char(plen, custom_id.unicode_len());
    let parsed = match crate::http::parse_u32_str(rest) {
        Some(v) => Some(v as u64),
        None => None,
    };
    let fallback = match parsed {
        Some(v) => Some(v),
        None => Some(6),
    };
    Some(clamp_sides(fallback))
}

/// The `!uptime` reply: hours, minutes and seconds since start.
pub fn uptime_text(secs: u64) -> (r: String)
    ensures
        r@ == "⏱️ Bot uptime: "@ + spec_dec((secs / 3600) as nat) + "h "@ + spec_dec(
            (secs % 3600 / 60) as nat,
        ) + "m "@ + spec_dec((secs % 60) as nat) + "s"@,
{
    proof {
        reveal_strlit("⏱️ Bot uptime: ");
        reveal_strlit("h ");
        reveal_strlit("m ");
        reveal_strlit("s");
    }
    let mut out: String = "⏱️ Bot uptime: ".to_owned();
    out.append(u64_to_dec(secs / 3600).as_str());
    out.append("h ");
    out.append(u64_to_dec(secs % 3600 / 60).as_str());
    out.append("m ");
    out.append(u64_to_dec(secs % 60).as_str());
    out.append("s");
    proof {
        assert(out@ =~= "⏱️ Bot uptime: "@ + spec_dec((secs / 3600) as nat) + "h "@ + spec_dec(
            (secs % 3600 / 60) as nat,
        ) + "m "@ + spec_dec((secs % 60) as nat) + "s"@);
    }
    out
}

/// The `!ping` reply; the latency is the receive time minus the snowflake
/// time of the message, when both are known.
pub fn ping_text(latency_ms: Option<i64>) -> (r: String)
    ensures
        latency_ms matches Some(ms) ==> (ms > i64::MIN ==> r@ == "🏓 Pong! Latency: "@
            + crate::text::spec_dec_pad_signed(ms as int, 1) + "ms"@),
        latency_ms is None ==> r@ == "🏓 Pong! Latency: unknown"@,
{
    proof {
        reveal_strlit("🏓 Pong! Latency: ");
        reveal_strlit("🏓 Pong! Latency: unknown");
        reveal_strlit("ms");
    }
    match latency_ms {
        Some(ms) => {
            let ms = if ms == i64::MIN {
                i64::MIN + 1
            } else {
                ms
            };
            let mut out: String = "🏓 Pong! Latency: ".to_owned();
            out.append(crate::text::i64_to_dec_pad(ms, 1).as_str());
            out.append("ms");
            proof {
                assert(out@ =~= "🏓 Pong! Latency: "@ + crate::text::spec_dec_pad_signed(
                    ms as int,
                    1,
                ) + "ms"@);
            }
            out
        },
        None => "🏓 Pong! Latency: unknown".to_owned(),
    }
}

/// The `!count` reply.
pub fn count_text(count: u64) -> (r: String)
    ensures
        r@ == "📊 This channel has approximately **"@ + spec_dec(count as nat) + "** messages."@,
{
    proof {
        reveal_strlit("📊 This channel has approximately **");
        reveal_strlit("** messages.");
    }
    let mut out: String = "📊 This channel has approximately **".to_owned();
    out.append(u64_to_dec(count).as_str());
    out.append("** messages.");
    proof {
        assert(out@ =~= "📊 This channel has approximately **"@ + spec_dec(count as nat)
            + "** messages."@);
    }
    out
}

/// The display form of a message's RFC 3339 timestamp: the long date and
/// time when it parses, the raw string otherwise.
pub fn first_message_when(ts: &str) -> (r: String)
    ensures
        (match crate::outside::rfc3339_unix_ms(ts@) {
            Some(ms) => (match crate::outside::long_date_time_of(ms) {
                Some(d) => r@ == d,
                None => r@ == ts@,
            }),
            None => r@ == ts@,
        }),
{
    match crate::outside::parse_rfc3339_ms(ts) {
        Some(ms) => match crate::outside::format_long_date_time(ms) {
            Some(d) => d,
            None => ts.to_owned(),
        },
        None => ts.to_owned(),
    }
}

/// The `!first` reply: the first message's content, author, and date.
pub fn first_message_text(content: &str, author_name: &str, when: &str) -> (r: String)
    ensures
        r@ == "📜 **First message in this channel:**\n> "@ + content@ + "\n— *"@ + author_name@
            + "* on "@ + when@,
{
    proof {
        reveal_strlit("📜 **First message in this channel:**\n> ");
        reveal_strlit("\n— *");
        reveal_strlit("* on ");
    }
    let mut out: String = "📜 **First message in this channel:**\n> ".to_owned();
    out.append(content);
    out.append("\n— *");
    out.append(author_name);
    out.append("* on ");
    out.append(when);
    proof {
        assert(out@ =~= "📜 **First message in this channel:**\n> "@ + content@ + "\n— *"@
            + author_name@ + "* on "@ + when@);
    }
    out
}

/// The one-time greeting for a user who came online.
pub fn greeting_text(user_id: u64) -> (r: String)
    ensures
        r@ == "Welcome online, <@"@ + spec_dec(user_id as nat)
            + ">! 🎉 Hope you're having a great day!"@,
{
    proof {
        reveal_strlit("Welcome online, <@");
        reveal_strlit(">! 🎉 Hope you're having a great day!");
    }
    let mut out: String = "Welcome online, <@".to_owned();
    out.append(u64_to_dec(user_id).as_str());
    out.append(">! 🎉 Hope you're having a great day!");
    proof {
        assert(out@ =~= "Welcome online, <@"@ + spec_dec(user_id as nat)
            + ">! 🎉 Hope you're having a great day!"@);
    }
    out
}

/// The reply to an unrecognised `!command`.
pub fn unknown_command_text(command: &str) -> (r: String)
    ensures
        r@ == "Not sure what that means: `"@ + command@ + "`"@,
{
    proof {
        reveal_strlit("Not sure what that means: `");
        reveal_strlit("`");
    }
    let mut out: String = "Not sure what that means: `".to_owned();
    out.append(command);
    out.append("`");
    proof {
        assert(out@ =~= "Not sure what that means: `"@ + command@ + "`"@);
    }
    out
}

/// The reply to an unrecognised slash command.
pub fn unknown_slash_text(name: &str) -> (r: String)
    ensures
        r@ == "Unknown command: `/"@ + name@ + "`"@,
{
    proof {
        reveal_strlit("Unknown command: `/");
        reveal_strlit("`");
    }
    let mut out: String = "Unknown command: `/".to_owned();
    out.append(name);
    out.append("`");
    proof {
        assert(out@ =~= "Unknown command: `/"@ + name@ + "`"@);
    }
    out
}

// ---------------------------------------------------------------------------
// Formatting helpers
// ---------------------------------------------------------------------------

/// The `!whoami` reply text: tag, ID, and avatar URL (or a note that none
/// is set).
pub open spec fn spec_whoami_text(user: User) -> Seq<char> {
    "👤 **About You:**\n• **Username:** "@ + (if user.discriminator == 0 {
        user.name@
    } else {
        user.name@ + "#"@ + crate::text::spec_dec_pad(user.discriminator as nat, 4)
    }) + "\n• **User ID:** "@ + spec_dec(user.id.spec_get() as nat) + "\n• **Avatar:** "@ + (
    match user.avatar {
        Some(h) => crate::types::ext::spec_avatar_url(user.id.spec_get(), h@),
        None => "No avatar set"@,
    })
}

/// The `!whoami` reply: tag, ID, and avatar URL (or a note that none is
/// set).
pub fn format_whoami(user: &User) -> (r: String)
    ensures
        r@ == spec_whoami_text(*user),
{
    proof {
        reveal_strlit("👤 **About You:**\n• **Username:** ");
        reveal_strlit("\n• **User ID:** ");
        reveal_strlit("\n• **Avatar:** ");
        reveal_strlit("No avatar set");
    }
    let avatar = match user.avatar_url() {
        Some(url) => url,
        None => "No avatar set".to_owned(),
    };
    let mut out: String = "👤 **About You:**\n• **Username:** ".to_owned();
    out.append(user.tag().as_str());
    out.append("\n• **User ID:** ");
    out.append(user.id.to_dec_string().as_str());
    out.append("\n• **Avatar:** ");
    out.append(avatar.as_str());
    proof {
        assert(out@ =~= spec_whoami_text(*user));
    }
    out
}

/// The count fields of the `!serverinfo` reply: the number, or `unknown`.
pub open spec fn spec_count_or_unknown(n: Option<u64>) -> Seq<char> {
    match n {
        Some(v) => spec_dec(v as nat),
        None => "unknown"@,
    }
}

/// The `!serverinfo` reply: name, member counts, owner mention, and the
/// creation date derived from the guild snowflake.
pub fn format_guild_info(guild: &Guild) -> (r: String)
    ensures
        r@ == "🏰 **Server Info: "@ + guild.name@ + "**\n• **Members:** "@
            + spec_count_or_unknown(guild.approximate_member_count) + " ("@
            + spec_count_or_unknown(guild.approximate_presence_count) + " online)\n• **Owner:** <@"@
            + spec_dec(guild.owner_id.spec_get() as nat) + ">\n• **Created:** "@ + (
        match long_date_of((guild.id.spec_get() / 0x40_0000 + 1_420_070_400_000) as i64) {
            Some(d) => d,
            None => "unknown"@,
        }),
{
    proof {
        reveal_strlit("🏰 **Server Info: ");
        reveal_strlit("**\n• **Members:** ");
        reveal_strlit(" (");
        reveal_strlit(" online)\n• **Owner:** <@");
        reveal_strlit(">\n• **Created:** ");
        reveal_strlit("unknown");
    }
    let member_count = match guild.approximate_member_count {
        Some(n) => u64_to_dec(n),
        None => "unknown".to_owned(),
    };
    let online_count = match guild.approximate_presence_count {
        Some(n) => u64_to_dec(n),
        None => "unknown".to_owned(),
    };
    let ms = match guild.created_at_ms() {
        Some(ms) => ms,
        None => 0,
    };
    let created = match crate::outside::format_long_date(ms as i64) {
        Some(d) => d,
        None => "unknown".to_owned(),
    };
    let mut out: String = "🏰 **Server Info: ".to_owned();
    out.append(guild.name.as_str());
    out.append("**\n• **Members:** ");
    out.append(member_count.as_str());
    out.append(" (");
    out.append(online_count.as_str());
    out.append(" online)\n• **Owner:** <@");
    out.append(guild.owner_id.to_dec_string().as_str());
    out.append(">\n• **Created:** ");
    out.append(created.as_str());
    proof {
        assert(out@ =~= "🏰 **Server Info: "@ + guild.name@ + "**\n• **Members:** "@
            + spec_count_or_unknown(guild.approximate_member_count) + " ("@
            + spec_count_or_unknown(guild.approximate_presence_count) + " online)\n• **Owner:** <@"@
            + spec_dec(guild.owner_id.spec_get() as nat) + ">\n• **Created:** "@ + (
        match long_date_of((guild.id.spec_get() / 0x40_0000 + 1_420_070_400_000) as i64) {
            Some(d) => d,
            None => "unknown"@,
        }));
    }
    out
}

/// The `!help` reply text, naming every command.
pub open spec fn spec_help_text() -> Seq<char> {
    "🤖 **Available Commands:**\n*Prefix commands (! or @mention):*\n• `!hello` — Say hello!\n• `!ping` — Check bot latency\n• `!uptime` — See how long the bot has been running\n• `!roll [sides]` — Roll a dice (default: 6 sides)\n• `!count` — Count messages in this channel\n• `!first` — Show the first message ever sent in this channel\n• `!serverinfo` — Show server information\n• `!whoami` — Show info about yourself\n• `!help` — Show this help message\n\n*Slash commands:*\n• `/ping` `/uptime` `/roll` `/serverinfo` `/whoami` `/count` `/first` `/help`\n• `/report` — Submit a report via a pop-up form\n• `/send-logo` — Send the bot logo\n• `/demo-select` — Demo the select menu component"@
}

/// The `!help` reply, naming every command.
pub fn help_text() -> (r: String)
    ensures
        r@ == spec_help_text(),
{
    "🤖 **Available Commands:**\n*Prefix commands (! or @mention):*\n• `!hello` — Say hello!\n• `!ping` — Check bot latency\n• `!uptime` — See how long the bot has been running\n• `!roll [sides]` — Roll a dice (default: 6 sides)\n• `!count` — Count messages in this channel\n• `!first` — Show the first message ever sent in this channel\n• `!serverinfo` — Show server information\n• `!whoami` — Show info about yourself\n• `!help` — Show this help message\n\n*Slash commands:*\n• `/ping` `/uptime` `/roll` `/serverinfo` `/whoami` `/count` `/first` `/help`\n• `/report` — Submit a report via a pop-up form\n• `/send-logo` — Send the bot logo\n• `/demo-select` — Demo the select menu component".to_owned()
}

// ---------------------------------------------------------------------------
// Interaction responses
// ---------------------------------------------------------------------------

/// A simple text interaction response: a channel message with only the
/// content set.
pub fn text_response(text: &str) -> (r: InteractionResponse)
    ensures
        r.kind == InteractionCallbackType::ChannelMessageWithSource,
        r.data matches Some(d) ==> d.content matches Some(c) && c@ == text@,
        r.data is Some,
        (match r.data {
            Some(d) => d.embeds is None && d.components is None && d.flags is None
                && d.title is None && d.custom_id is None,
            None => false,
        }),
{
    let mut data = InteractionCallbackData::empty();
    data.content = Some(text.to_owned());
    InteractionResponse { kind: InteractionCallbackType::ChannelMessageWithSource, data: Some(data) }
}

/// The roll response: the roll text plus a reroll button, either as a fresh
/// message (slash command) or as an update (button press).
pub fn roll_response(sides: u32, roll: u32, update: bool) -> (r: InteractionResponse)
    ensures
        update ==> r.kind == InteractionCallbackType::UpdateMessage,
        !update ==> r.kind == InteractionCallbackType::ChannelMessageWithSource,
        (match r.data {
            Some(d) => d.content matches Some(c) && d.components matches Some(rows) && c@
                == "🎲 Rolling a d"@ + spec_dec(sides as nat) + "... **"@ + spec_dec(roll as nat)
                + "**!"@ && rows.len() == 1,
            None => false,
        }),
{
    proof {
        reveal_strlit("🎲 Reroll");
    }
    let text = roll_text(sides, roll);
    let custom_id = reroll_custom_id(sides);
    let row = action_row(vec![button(1, "🎲 Reroll", custom_id.as_str())]);
    let mut data = InteractionCallbackData::empty();
    data.content = Some(text);
    data.components = Some(vec![row]);
    let kind = if update {
        InteractionCallbackType::UpdateMessage
    } else {
        InteractionCallbackType::ChannelMessageWithSource
    };
    InteractionResponse { kind, data: Some(data) }
}

/// The modal shown for `/report`: subject and description inputs.
pub fn report_modal_response() -> (r: InteractionResponse)
    ensures
        r.kind == InteractionCallbackType::Modal,
        (match r.data {
            Some(d) => d.title matches Some(t) && d.custom_id matches Some(c)
                && d.components matches Some(rows) && t@ == "📝 Submit a Report"@ && c@
                == "report_modal"@ && rows.len() == 2,
            None => false,
        }),
{
    proof {
        reveal_strlit("📝 Submit a Report");
        reveal_strlit("report_modal");
        reveal_strlit("report_subject");
        reveal_strlit("Subject");
        reveal_strlit("report_body");
        reveal_strlit("Description");
    }
    let subject_row = action_row(vec![text_input("report_subject", "Subject", 1, true)]);
    let body_row = action_row(vec![text_input("report_body", "Description", 2, true)]);
    let mut data = InteractionCallbackData::empty();
    data.title = Some("📝 Submit a Report".to_owned());
    data.custom_id = Some("report_modal".to_owned());
    data.components = Some(vec![subject_row, body_row]);
    InteractionResponse { kind: InteractionCallbackType::Modal, data: Some(data) }
}

/// The select-menu demo for `/demo-select`.
pub fn demo_select_response() -> (r: InteractionResponse)
    ensures
        r.kind == InteractionCallbackType::ChannelMessageWithSource,
        (match r.data {
            Some(d) => d.content matches Some(c) && d.components matches Some(rows) && c@
                == "Please select your favorite programming language:"@ && rows.len() == 1,
            None => false,
        }),
{
    proof {
        reveal_strlit("Please select your favorite programming language:");
        reveal_strlit("language_select");
        reveal_strlit("Choose a language...");
    }
    let mut options: Vec<SelectOption> = Vec::new();
    options.push(
        SelectOption {
            label: "Rust".to_owned(),
            value: "rust".to_owned(),
            description: Some("Fast, safe, and concurrent".to_owned()),
            emoji: None,
            default: false,
        },
    );
    options.push(
        SelectOption {
            label: "Python".to_owned(),
            value: "python".to_owned(),
            description: Some("Simple and versatile".to_owned()),
            emoji: None,
            default: false,
        },
    );
    options.push(
        SelectOption {
            label: "TypeScript".to_owned(),
            value: "typescript".to_owned(),
            description: Some("Typed JavaScript".to_owned()),
            emoji: None,
            default: false,
        },
    );
    options.push(
        SelectOption {
            label: "Go".to_owned(),
            value: "go".to_owned(),
            description: Some("Simple and efficient".to_owned()),
            emoji: None,
            default: false,
        },
    );
    let menu = string_select("language_select", "Choose a language...", options);
    let mut data = InteractionCallbackData::empty();
    data.content = Some("Please select your favorite programming language:".to_owned());
    data.components = Some(vec![action_row(vec![menu])]);
    InteractionResponse {
        kind: InteractionCallbackType::ChannelMessageWithSource,
        data: Some(data),
    }
}

/// The comma-separated join of select-menu values.
pub open spec fn spec_join_comma(values: Seq<String>) -> Seq<char>
    decreases values.len(),
{
    if values.len() == 0 {
        Seq::empty()
    } else if values.len() == 1 {
        values[0]@
    } else {
        spec_join_comma(values.drop_last()) + ", "@ + values.last()@
    }
}

/// The ephemeral reply to a select-menu choice.
pub fn selected_values_response(values: &Vec<String>) -> (r: InteractionResponse)
    ensures
        r.kind == InteractionCallbackType::ChannelMessageWithSource,
        (match r.data {
            Some(d) => (d.content matches Some(c) && c@ == "You selected: **"@ + spec_join_comma(
                values@,
            ) + "**"@) && d.flags == Some(64u32),
            None => false,
        }),
{
    proof {
        reveal_strlit("You selected: **");
        reveal_strlit("**");
        reveal_strlit(", ");
    }
    let mut joined = String::new();
    let n = values.len();
    for i in 0..n
        invariant
            n == values@.len(),
            joined@ == spec_join_comma(values@.take(i as int)),
    {
        if i > 0 {
            joined.append(", ");
        }
        joined.append(values[i].as_str());
        proof {
            assert(values@.take(i + 1 as int).drop_last() =~= values@.take(i as int));
            assert(values@.take(i + 1 as int).last() == values@[i as int]);
            if i == 0 {
                assert(joined@ =~= spec_join_comma(values@.take(i + 1 as int)));
            }
        }
    }
    proof {
        assert(values@.take(n as int) =~= values@);
    }
    let mut content: String = "You selected: **".to_owned();
    content.append(joined.as_str());
    content.append("**");
    let mut data = InteractionCallbackData::empty();
    data.content = Some(content);
    data.flags = Some(64);
    proof {
        assert(data.content->Some_0@ =~= "You selected: **"@ + spec_join_comma(values@) + "**"@);
    }
    InteractionResponse {
        kind: InteractionCallbackType::ChannelMessageWithSource,
        data: Some(data),
    }
}

/// The acknowledgement and embed built from a submitted report modal.
pub fn report_response(subject: &str, body: &str, author_name: &str, now_iso8601: &str) -> (r:
    InteractionResponse)
    ensures
        r.kind == InteractionCallbackType::ChannelMessageWithSource,
        (match r.data {
            Some(d) => d.content matches Some(c) && d.embeds matches Some(es) && c@
                == "✅ Report submitted! Thank you."@ && es.len() == 1,
            None => false,
        }),
{
    proof {
        reveal_strlit("📝 Report: ");
        reveal_strlit("Submitted by ");
        reveal_strlit("✅ Report submitted! Thank you.");
    }
    let mut title: String = "📝 Report: ".to_owned();
    title.append(subject);
    let mut footer: String = "Submitted by ".to_owned();
    footer.append(author_name);
    let embed = crate::types::builders::EmbedBuilder::new().title(title.as_str()).description(
        body,
    ).color(0xFF6600).footer(footer.as_str()).timestamp(now_iso8601).build();
    let mut data = InteractionCallbackData::empty();
    data.content = Some("✅ Report submitted! Thank you.".to_owned());
    data.embeds = Some(vec![embed]);
    InteractionResponse {
        kind: InteractionCallbackType::ChannelMessageWithSource,
        data: Some(data),
    }
}

// ---------------------------------------------------------------------------
// Guild and modal helpers
// ---------------------------------------------------------------------------

/// The first text channel of a guild, used as the greeting channel.
pub fn first_text_channel(channels: &Vec<Channel>) -> (r: Option<usize>)
    ensures
        r matches Some(i) ==> i < channels@.len() && channels@[i as int].kind
            == ChannelType::GuildText && (forall|k: int|
            0 <= k < i ==> (#[trigger] channels@[k]).kind != ChannelType::GuildText),
        r is None ==> forall|k: int|
            0 <= k < channels@.len() ==> (#[trigger] channels@[k]).kind != ChannelType::GuildText,
{
    let n = channels.len();
    for i in 0..n
        invariant
            n == channels@.len(),
            forall|k: int| 0 <= k < i ==> (#[trigger] channels@[k]).kind != ChannelType::GuildText,
    {
        if channels[i].kind.as_u8() == 0 {
            proof {
                assert(channels@[i as int].kind == ChannelType::GuildText);
            }
            return Some(i);
        }
        proof {
            assert(channels@[i as int].kind != ChannelType::GuildText);
        }
    }
    None
}

/// The text inputs submitted with a modal: each input's `custom_id` and
/// value, walking the rows in order.
pub fn modal_text_inputs(components: &Vec<Component>) -> (r: Vec<(String, String)>) {
    let mut inputs: Vec<(String, String)> = Vec::new();
    let n = components.len();
    for i in 0..n
        invariant
            n == components@.len(),
    {
        if let Component::ActionRow(row) = &components[i] {
            let m = row.components.len();
            for j in 0..m
                invariant
                    m == row.components@.len(),
            {
                if let Component::TextInput(ti) = &row.components[j] {
                    let value = match &ti.value {
                        Some(v) => v.clone(),
                        None => String::new(),
                    };
                    inputs.push((ti.custom_id.clone(), value));
                }
            }
        }
    }
    inputs
}

/// The subject and body fields of a submitted report modal; when a field
/// repeats, the last value wins.
pub fn report_fields(inputs: &Vec<(String, String)>) -> (r: (String, String)) {
    proof {
        reveal_strlit("report_subject");
        reveal_strlit("report_body");
    }
    let mut subject = String::new();
    let mut body = String::new();
    let n = inputs.len();
    for i in 0..n
        invariant
            n == inputs@.len(),
    {
        if str_eq(inputs[i].0.as_str(), "report_subject") {
            subject = inputs[i].1.clone();
        } else if str_eq(inputs[i].0.as_str(), "report_body") {
            body = inputs[i].1.clone();
        }
    }
    (subject, body)
}


// ---------------------------------------------------------------------------
// Command dispatch decisions
// ---------------------------------------------------------------------------

/// What the driver does with a slash command: answer at once, or perform a
/// REST fetch first and answer from its result.
pub enum SlashAction {
    /// Answer immediately with this response.
    Respond(InteractionResponse),
    /// Fetch the guild, then answer with its formatted info.
    ServerInfo,
    /// Count the channel's messages, then answer with the total.
    CountMessages,
    /// Fetch the channel's first message, then answer with it.
    FirstMessage,
    /// Acknowledge deferred, then send the logo file as a follow-up.
    SendLogo,
}

/// Decide what a slash command does.  Commands whose reply depends on a REST
/// fetch come back as the fetch to perform; everything else is answered at
/// once, unknown names included.
pub fn slash_command_action(
    name: &str,
    options: &Vec<CommandOption>,
    author: Option<&User>,
    uptime_secs: u64,
) -> (r: SlashAction)
    ensures
        name@ == "ping"@ ==> (r matches SlashAction::Respond(resp) && resp.data matches Some(d)
            && d.content matches Some(c) && resp.kind
            == InteractionCallbackType::ChannelMessageWithSource && c@ == "🏓 Pong!"@),
        name@ == "uptime"@ ==> (r matches SlashAction::Respond(resp) && resp.data matches Some(d)
            && d.content matches Some(c) && c@ == "⏱️ Bot uptime: "@ + spec_dec(
            (uptime_secs / 3600) as nat,
        ) + "h "@ + spec_dec((uptime_secs % 3600 / 60) as nat) + "m "@ + spec_dec(
            (uptime_secs % 60) as nat,
        ) + "s"@),
        name@ == "roll"@ ==> (r matches SlashAction::Respond(resp) && resp.data matches Some(d)
            && d.content matches Some(c) && exists|roll: u32|
            1 <= roll <= spec_clamp_sides(spec_option_u64(options@, "sides"@)) && c@
                == "🎲 Rolling a d"@ + spec_dec(
                spec_clamp_sides(spec_option_u64(options@, "sides"@)) as nat,
            ) + "... **"@ + spec_dec(roll as nat) + "**!"@),
        name@ == "serverinfo"@ ==> r is ServerInfo,
        name@ == "whoami"@ ==> (match author {
            Some(u) => r matches SlashAction::Respond(resp) && resp.data matches Some(d)
                && d.content matches Some(c) && c@ == spec_whoami_text(*u),
            None => r matches SlashAction::Respond(resp) && resp.data matches Some(d)
                && d.content matches Some(c) && c@ == "❌ Couldn't determine your user info."@,
        }),
        name@ == "count"@ ==> r is CountMessages,
        name@ == "first"@ ==> r is FirstMessage,
        name@ == "help"@ ==> (r matches SlashAction::Respond(resp) && resp.data matches Some(d)
            && d.content matches Some(c) && c@ == spec_help_text()),
        name@ == "report"@ ==> (r matches SlashAction::Respond(resp) && resp.kind
            == InteractionCallbackType::Modal),
        name@ == "send-logo"@ ==> r is SendLogo,
        name@ == "demo-select"@ ==> (r matches SlashAction::Respond(resp)
            && resp.data matches Some(d) && d.components is Some),
        name@ != "ping"@ && name@ != "uptime"@ && name@ != "roll"@ && name@ != "serverinfo"@
            && name@ != "whoami"@ && name@ != "count"@ && name@ != "first"@ && name@ != "help"@
            && name@ != "report"@ && name@ != "send-logo"@ && name@ != "demo-select"@ ==> (
        r matches SlashAction::Respond(resp) && resp.data matches Some(d)
            && d.content matches Some(c) && c@ == "Unknown command: `/"@ + name@ + "`"@),
{
    proof {
        reveal_strlit("ping");
        reveal_strlit("uptime");
        reveal_strlit("roll");
        reveal_strlit("serverinfo");
        reveal_strlit("whoami");
        reveal_strlit("count");
        reveal_strlit("first");
        reveal_strlit("help");
        reveal_strlit("report");
        reveal_strlit("send-logo");
        reveal_strlit("demo-select");
        reveal_strlit("sides");
        reveal_strlit("🏓 Pong!");
        reveal_strlit("❌ Couldn't determine your user info.");
        // the names are pairwise distinct: mostly by length, otherwise by
        // their first character
        assert("ping"@.len() == 4 && "uptime"@.len() == 6 && "roll"@.len() == 4
            && "serverinfo"@.len() == 10 && "whoami"@.len() == 6 && "count"@.len() == 5
            && "first"@.len() == 5 && "help"@.len() == 4 && "report"@.len() == 6
            && "send-logo"@.len() == 9 && "demo-select"@.len() == 11);
        assert("ping"@[0] != "roll"@[0] && "ping"@[0] != "help"@[0] && "roll"@[0] != "help"@[0]);
        assert("ping"@ != "roll"@ && "ping"@ != "help"@ && "roll"@ != "help"@);
        assert("uptime"@[0] != "whoami"@[0] && "uptime"@[0] != "report"@[0] && "whoami"@[0]
            != "report"@[0]);
        assert("uptime"@ != "whoami"@ && "uptime"@ != "report"@ && "whoami"@ != "report"@);
        assert("count"@[0] != "first"@[0]);
        assert("count"@ != "first"@);
    }
    if str_eq(name, "ping") {
        SlashAction::Respond(text_response("🏓 Pong!"))
    } else if str_eq(name, "uptime") {
        SlashAction::Respond(text_response(uptime_text(uptime_secs).as_str()))
    } else if str_eq(name, "roll") {
        let sides = clamp_sides(get_option_u64(options, "sides"));
        let roll = roll_die(sides);
        SlashAction::Respond(roll_response(sides, roll, false))
    } else if str_eq(name, "serverinfo") {
        SlashAction::ServerInfo
    } else if str_eq(name, "whoami") {
        match author {
            Some(user) => SlashAction::Respond(text_response(format_whoami(user).as_str())),
            None => SlashAction::Respond(text_response("❌ Couldn't determine your user info.")),
        }
    } else if str_eq(name, "count") {
        SlashAction::CountMessages
    } else if str_eq(name, "first") {
        SlashAction::FirstMessage
    } else if str_eq(name, "help") {
        SlashAction::Respond(text_response(help_text().as_str()))
    } else if str_eq(name, "report") {
        SlashAction::Respond(report_modal_response())
    } else if str_eq(name, "send-logo") {
        SlashAction::SendLogo
    } else if str_eq(name, "demo-select") {
        SlashAction::Respond(demo_select_response())
    } else {
        SlashAction::Respond(text_response(unknown_slash_text(name).as_str()))
    }
}

/// What the driver does with a `!`-prefixed command from a message.
pub enum PrefixAction {
    /// Reply to the message with this text.
    Reply(String),
    /// Count the channel's messages, then reply with the total.
    CountMessages,
    /// Fetch the channel's first message, then reply with it.
    FirstMessage,
    /// Fetch the guild, then reply with its formatted info.
    ServerInfo,
    /// Not a command at all.
    Ignore,
}

/// The die size a `!roll` argument asks for.
pub open spec fn spec_roll_args_sides(args: Seq<char>) -> u32 {
    spec_clamp_sides(
        match crate::http::spec_parse_u32(spec_trim(args)) {
            Some(v) => Some(v as u64),
            None => None,
        },
    )
}

/// Decide what a prefix command does.  The replies that need no REST fetch
/// are built here; the rest name the fetch to perform.
pub fn prefix_command_action(
    command: &str,
    args: &str,
    author: &User,
    uptime_secs: u64,
    latency_ms: Option<i64>,
) -> (r: PrefixAction)
    ensures
        command@ == "!hello"@ ==> (r matches PrefixAction::Reply(c) && c@ == "Hello, World! 👋"@),
        command@ == "!ping"@ ==> (r matches PrefixAction::Reply(c) && (latency_ms is None ==> c@
            == "🏓 Pong! Latency: unknown"@) && (latency_ms matches Some(ms) ==> (ms > i64::MIN
            ==> c@ == "🏓 Pong! Latency: "@ + crate::text::spec_dec_pad_signed(ms as int, 1)
            + "ms"@))),
        command@ == "!uptime"@ ==> (r matches PrefixAction::Reply(c) && c@ == "⏱️ Bot uptime: "@
            + spec_dec((uptime_secs / 3600) as nat) + "h "@ + spec_dec(
            (uptime_secs % 3600 / 60) as nat,
        ) + "m "@ + spec_dec((uptime_secs % 60) as nat) + "s"@),
        command@ == "!roll"@ ==> (r matches PrefixAction::Reply(c) && exists|roll: u32|
            1 <= roll <= spec_roll_args_sides(args@) && c@ == "🎲 Rolling a d"@ + spec_dec(
                spec_roll_args_sides(args@) as nat,
            ) + "... **"@ + spec_dec(roll as nat) + "**!"@),
        command@ == "!count"@ ==> r is CountMessages,
        command@ == "!first"@ ==> r is FirstMessage,
        command@ == "!serverinfo"@ ==> r is ServerInfo,
        command@ == "!whoami"@ ==> (r matches PrefixAction::Reply(c) && c@ == spec_whoami_text(
            *author,
        )),
        command@ == "!help"@ ==> (r matches PrefixAction::Reply(c) && c@ == spec_help_text()),
        spec_starts_with(command@, "!"@) && command@ != "!hello"@ && command@ != "!ping"@
            && command@ != "!uptime"@ && command@ != "!roll"@ && command@ != "!count"@ && command@
            != "!first"@ && command@ != "!serverinfo"@ && command@ != "!whoami"@ && command@
            != "!help"@ ==> (r matches PrefixAction::Reply(c) && c@
            == "Not sure what that means: `"@ + command@ + "`"@),
        !spec_starts_with(command@, "!"@) ==> r is Ignore,
{
    proof {
        reveal_strlit("!");
        reveal_strlit("!hello");
        reveal_strlit("!ping");
        reveal_strlit("!uptime");
        reveal_strlit("!roll");
        reveal_strlit("!count");
        reveal_strlit("!first");
        reveal_strlit("!serverinfo");
        reveal_strlit("!whoami");
        reveal_strlit("!help");
        reveal_strlit("Hello, World! 👋");
        // the commands are pairwise distinct: mostly by length, otherwise by
        // their second character
        assert("!hello"@.len() == 6 && "!ping"@.len() == 5 && "!uptime"@.len() == 7
            && "!roll"@.len() == 5 && "!count"@.len() == 6 && "!first"@.len() == 6
            && "!serverinfo"@.len() == 11 && "!whoami"@.len() == 7 && "!help"@.len() == 5);
        assert("!ping"@[1] != "!roll"@[1] && "!ping"@[1] != "!help"@[1] && "!roll"@[1]
            != "!help"@[1]);
        assert("!ping"@ != "!roll"@ && "!ping"@ != "!help"@ && "!roll"@ != "!help"@);
        assert("!hello"@[1] != "!count"@[1] && "!hello"@[1] != "!first"@[1] && "!count"@[1]
            != "!first"@[1]);
        assert("!hello"@ != "!count"@ && "!hello"@ != "!first"@ && "!count"@ != "!first"@);
        assert("!uptime"@[1] != "!whoami"@[1]);
        assert("!uptime"@ != "!whoami"@);
        // every named command starts with the prefix
        assert(spec_starts_with("!hello"@, "!"@)) by {
            assert("!hello"@.take(1) =~= "!"@);
        }
        assert(spec_starts_with("!ping"@, "!"@)) by {
            assert("!ping"@.take(1) =~= "!"@);
        }
        assert(spec_starts_with("!uptime"@, "!"@)) by {
            assert("!uptime"@.take(1) =~= "!"@);
        }
        assert(spec_starts_with("!roll"@, "!"@)) by {
            assert("!roll"@.take(1) =~= "!"@);
        }
        assert(spec_starts_with("!count"@, "!"@)) by {
            assert("!count"@.take(1) =~= "!"@);
        }
        assert(spec_starts_with("!first"@, "!"@)) by {
            assert("!first"@.take(1) =~= "!"@);
        }
        assert(spec_starts_with("!serverinfo"@, "!"@)) by {
            assert("!serverinfo"@.take(1) =~= "!"@);
        }
        assert(spec_starts_with("!whoami"@, "!"@)) by {
            assert("!whoami"@.take(1) =~= "!"@);
        }
        assert(spec_starts_with("!help"@, "!"@)) by {
            assert("!help"@.take(1) =~= "!"@);
        }
    }
    if !starts_with(command, "!") {
        return PrefixAction::Ignore;
    }
    if str_eq(command, "!hello") {
        PrefixAction::Reply("Hello, World! 👋".to_owned())
    } else if str_eq(command, "!ping") {
        PrefixAction::Reply(ping_text(latency_ms))
    } else if str_eq(command, "!uptime") {
        PrefixAction::Reply(uptime_text(uptime_secs))
    } else if str_eq(command, "!roll") {
        let requested = match crate::http::parse_u32_str(trim_spaces(args)) {
            Some(v) => Some(v as u64),
            None => None,
        };
        let sides = clamp_sides(requested);
        let roll = roll_die(sides);
        let text = roll_text(sides, roll);
        proof {
            assert(sides == spec_roll_args_sides(args@));
            assert(1 <= roll <= spec_roll_args_sides(args@) && text@ == "🎲 Rolling a d"@
                + spec_dec(spec_roll_args_sides(args@) as nat) + "... **"@ + spec_dec(
                roll as nat,
            ) + "**!"@);
        }
        PrefixAction::Reply(text)
    } else if str_eq(command, "!count") {
        PrefixAction::CountMessages
    } else if str_eq(command, "!first") {
        PrefixAction::FirstMessage
    } else if str_eq(command, "!serverinfo") {
        PrefixAction::ServerInfo
    } else if str_eq(command, "!whoami") {
        PrefixAction::Reply(format_whoami(author))
    } else if str_eq(command, "!help") {
        PrefixAction::Reply(help_text())
    } else {
        PrefixAction::Reply(unknown_command_text(command))
    }
}

} // verus!
