//! Verified JSON emission for outbound bodies.
//!
//! The library frames the bytes it sends itself, so what goes on the wire is
//! pinned down by contracts: in particular, a [`CreateMessage`] with only its
//! content set serializes to a JSON object holding exactly the `content`
//! field.

use vstd::prelude::*;
use vstd::string::StrSliceExecFns;
use vstd::string::StringExecFns;

use crate::text::{hex_char, hex_digit_str, u64_to_dec};
use crate::types::custom::{CreateMessage, CreateMessageReference};
use crate::types::{Component, Embed, EmbedField, SelectOption};

verus! {

// ---------------------------------------------------------------------------
// String escaping
// ---------------------------------------------------------------------------

/// The JSON escape of one character: quote and backslash are escaped, the
/// common control characters get their short forms, other control characters
/// get a `\u00XX` escape, and everything else stands for itself.
pub open spec fn spec_escape_char(c: char) -> Seq<char> {
    if c == '"' {
        seq!['\\', '"']
    } else if c == '\\' {
        seq!['\\', '\\']
    } else if c == '\n' {
        seq!['\\', 'n']
    } else if c == '\r' {
        seq!['\\', 'r']
    } else if c == '\t' {
        seq!['\\', 't']
    } else if (c as u32) < 0x20 {
        seq!['\\', 'u', '0', '0', hex_char((c as u32 / 16) as int), hex_char((c as u32 % 16) as int)]
    } else {
        seq![c]
    }
}

/// The JSON escape of a string, character by character.
pub open spec fn spec_escape(s: Seq<char>) -> Seq<char>
    decreases s.len(),
{
    if s.len() == 0 {
        Seq::empty()
    } else {
        spec_escape(s.drop_last()) + spec_escape_char(s.last())
    }
}

/// A JSON string literal: quotes around the escaped text.
pub open spec fn spec_json_string(s: Seq<char>) -> Seq<char> {
    seq!['"'] + spec_escape(s) + seq!['"']
}

/// Append the JSON escape of one character.
fn push_escaped(out: &mut String, c: char)
    ensures
        final(out)@ == old(out)@ + spec_escape_char(c),
{
    if c == '"' {
        out.append("\\\"");
        proof {
            reveal_strlit("\\\"");
            assert(out@ =~= old(out)@ + spec_escape_char(c));
        }
    } else if c == '\\' {
        out.append("\\\\");
        proof {
            reveal_strlit("\\\\");
            assert(out@ =~= old(out)@ + spec_escape_char(c));
        }
    } else if c == '\n' {
        out.append("\\n");
        proof {
            reveal_strlit("\\n");
            assert(out@ =~= old(out)@ + spec_escape_char(c));
        }
    } else if c == '\r' {
        out.append("\\r");
        proof {
            reveal_strlit("\\r");
            assert(out@ =~= old(out)@ + spec_escape_char(c));
        }
    } else if c == '\t' {
        out.append("\\t");
        proof {
            reveal_strlit("\\t");
            assert(out@ =~= old(out)@ + spec_escape_char(c));
        }
    } else if (c as u32) < 0x20 {
        out.append("\\u00");
        let code = c as u32;
        out.append(hex_digit_str((code / 16) as u64));
        out.append(hex_digit_str((code % 16) as u64));
        proof {
            reveal_strlit("\\u00");
            assert(out@ =~= old(out)@ + spec_escape_char(c));
        }
    } else {
        crate::outside::push_char(out, c);
        proof {
            assert(out@ =~= old(out)@ + spec_escape_char(c));
        }
    }
}

/// Append a JSON string literal for `s`.
fn push_json_string(out: &mut String, s: &str)
    ensures
        final(out)@ == old(out)@ + spec_json_string(s@),
{
    proof {
        reveal_strlit("\"");
    }
    out.append("\"");
    let n = s.unicode_len();
    for i in 0..n
        invariant
            n == s@.len(),
            out@ =~= old(out)@ + seq!['"'] + spec_escape(s@.take(i as int)),
    {
        push_escaped(out, s.get_char(i));
        proof {
            assert(s@.take(i + 1 as int).drop_last() =~= s@.take(i as int));
            assert(out@ =~= old(out)@ + seq!['"'] + spec_escape(s@.take(i + 1 as int)));
        }
    }
    out.append("\"");
    proof {
        assert(s@.take(n as int) =~= s@);
        assert(out@ =~= old(out)@ + spec_json_string(s@));
    }
}

// ---------------------------------------------------------------------------
// Small emitters
// ---------------------------------------------------------------------------

/// The JSON object `{"content":<text>}`, as used in multipart payloads.
pub open spec fn spec_content_object(text: Seq<char>) -> Seq<char> {
    "{\"content\":"@ + spec_json_string(text) + "}"@
}

/// Build the JSON object `{"content":<text>}`.
pub fn content_object_json(text: &str) -> (r: String)
    ensures
        r@ == spec_content_object(text@),
{
    proof {
        reveal_strlit("{\"content\":");
        reveal_strlit("}");
    }
    let mut out: String = "{\"content\":".to_owned();
    push_json_string(&mut out, text);
    out.append("}");
    proof {
        assert(out@ =~= spec_content_object(text@));
    }
    out
}

/// Whether a string renders as a JSON object (shape check only).
pub open spec fn braced(s: Seq<char>) -> bool {
    s.len() >= 2 && s[0] == '{' && s.last() == '}'
}

/// Append `"name":` for an object field, with a leading comma unless the
/// field is the first.
fn push_field_name(out: &mut String, first: bool, name: &str)
    ensures
        final(out)@ == old(out)@ + (if first {
            Seq::<char>::empty()
        } else {
            ","@
        }) + spec_json_string(name@) + ":"@,
{
    if !first {
        out.append(",");
    }
    push_json_string(out, name);
    out.append(":");
    proof {
        reveal_strlit(",");
        reveal_strlit(":");
        assert(out@ =~= old(out)@ + (if first {
            Seq::<char>::empty()
        } else {
            ","@
        }) + spec_json_string(name@) + ":"@);
    }
}

// ---------------------------------------------------------------------------
// Component and embed emission (shape contracts)
// ---------------------------------------------------------------------------

/// Emit a leaf component (button, select menu, or text input).  A nested
/// action row renders as an empty object; rows nest only one level in the
/// Discord API.
fn leaf_component_json(c: &Component) -> (r: String)
    ensures
        braced(r@),
{
    proof {
        reveal_strlit("{");
        reveal_strlit("}");
    }
    let mut out: String = "{".to_owned();
    match c {
        Component::Button(b) => {
            proof {
                reveal_strlit("\"type\":2");
            }
            out.append("\"type\":2");
            push_field_name(&mut out, false, "style");
            out.append(u64_to_dec(b.style.as_u8() as u64).as_str());
            if let Some(label) = &b.label {
                push_field_name(&mut out, false, "label");
                push_json_string(&mut out, label.as_str());
            }
            if let Some(custom_id) = &b.custom_id {
                push_field_name(&mut out, false, "custom_id");
                push_json_string(&mut out, custom_id.as_str());
            }
            if let Some(url) = &b.url {
                push_field_name(&mut out, false, "url");
                push_json_string(&mut out, url.as_str());
            }
            if b.disabled {
                proof {
                    reveal_strlit(",\"disabled\":true");
                }
                out.append(",\"disabled\":true");
            }
        },
        Component::SelectMenu(m) => {
            proof {
                reveal_strlit("\"type\":3");
                reveal_strlit(",\"options\":[");
                reveal_strlit(",");
                reveal_strlit("]");
            }
            out.append("\"type\":3");
            push_field_name(&mut out, false, "custom_id");
            push_json_string(&mut out, m.custom_id.as_str());
            if let Some(placeholder) = &m.placeholder {
                push_field_name(&mut out, false, "placeholder");
                push_json_string(&mut out, placeholder.as_str());
            }
            if let Some(min_values) = m.min_values {
                push_field_name(&mut out, false, "min_values");
                out.append(u64_to_dec(min_values as u64).as_str());
            }
            if let Some(max_values) = m.max_values {
                push_field_name(&mut out, false, "max_values");
                out.append(u64_to_dec(max_values as u64).as_str());
            }
            out.append(",\"options\":[");
            let n = m.options.len();
            for i in 0..n
                invariant
                    n == m.options.len(),
                    out@.len() > 0,
                    out@[0] == '{',
            {
                if i > 0 {
                    out.append(",");
                }
                let opt = select_option_json(&m.options[i]);
                out.append(opt.as_str());
            }
            out.append("]");
        },
        Component::TextInput(t) => {
            proof {
                reveal_strlit("\"type\":4");
            }
            out.append("\"type\":4");
            push_field_name(&mut out, false, "custom_id");
            push_json_string(&mut out, t.custom_id.as_str());
            if let Some(label) = &t.label {
                push_field_name(&mut out, false, "label");
                push_json_string(&mut out, label.as_str());
            }
            push_field_name(&mut out, false, "style");
            out.append(u64_to_dec(t.style.as_u8() as u64).as_str());
            if let Some(required) = t.required {
                push_field_name(&mut out, false, "required");
                proof {
                    reveal_strlit("true");
                    reveal_strlit("false");
                }
                if required {
                    out.append("true");
                } else {
                    out.append("false");
                }
            }
            if let Some(value) = &t.value {
                push_field_name(&mut out, false, "value");
                push_json_string(&mut out, value.as_str());
            }
        },
        Component::ActionRow(_) => {},
    }
    out.append("}");
    out
}

/// Emit one select-menu option.
fn select_option_json(o: &SelectOption) -> (r: String)
    ensures
        braced(r@),
{
    proof {
        reveal_strlit("{");
        reveal_strlit("}");
        reveal_strlit(",\"default\":true");
    }
    let mut out: String = "{".to_owned();
    push_field_name(&mut out, true, "label");
    push_json_string(&mut out, o.label.as_str());
    push_field_name(&mut out, false, "value");
    push_json_string(&mut out, o.value.as_str());
    if let Some(description) = &o.description {
        push_field_name(&mut out, false, "description");
        push_json_string(&mut out, description.as_str());
    }
    if o.default {
        out.append(",\"default\":true");
    }
    out.append("}");
    out
}

/// Emit a component; an action row wraps its children.
pub fn component_json(c: &Component) -> (r: String)
    ensures
        braced(r@),
{
    match c {
        Component::ActionRow(row) => {
            proof {
                reveal_strlit("{\"type\":1,\"components\":[");
                reveal_strlit(",");
                reveal_strlit("]}");
            }
            let mut out: String = "{\"type\":1,\"components\":[".to_owned();
            let n = row.components.len();
            for i in 0..n
                invariant
                    n == row.components.len(),
                    out@.len() > 0,
                    out@[0] == '{',
            {
                if i > 0 {
                    out.append(",");
                }
                let child = leaf_component_json(&row.components[i]);
                out.append(child.as_str());
            }
            out.append("]}");
            proof {
                assert(braced(out@));
            }
            out
        },
        other => leaf_component_json(other),
    }
}

/// Emit an embed footer.
fn embed_footer_json(text: &str, icon_url: &Option<String>) -> (r: String)
    ensures
        braced(r@),
{
    proof {
        reveal_strlit("{\"text\":");
        reveal_strlit(",\"icon_url\":");
        reveal_strlit("}");
    }
    let mut out: String = "{\"text\":".to_owned();
    push_json_string(&mut out, text);
    if let Some(icon) = icon_url {
        out.append(",\"icon_url\":");
        push_json_string(&mut out, icon.as_str());
    }
    out.append("}");
    out
}

/// Emit an embed image or thumbnail.
fn embed_media_json(url: &str) -> (r: String)
    ensures
        braced(r@),
{
    proof {
        reveal_strlit("{\"url\":");
        reveal_strlit("}");
    }
    let mut out: String = "{\"url\":".to_owned();
    push_json_string(&mut out, url);
    out.append("}");
    out
}

/// Emit an embed author line.
fn embed_author_json(name: &str) -> (r: String)
    ensures
        braced(r@),
{
    proof {
        reveal_strlit("{\"name\":");
        reveal_strlit("}");
    }
    let mut out: String = "{\"name\":".to_owned();
    push_json_string(&mut out, name);
    out.append("}");
    out
}

/// Emit the embed field list.
fn embed_fields_json(fields: &Vec<EmbedField>) -> (r: String)
    ensures
        r@.len() > 0 && r@[0] == '[' && r@.last() == ']',
{
    proof {
        reveal_strlit("[");
        reveal_strlit("]");
        reveal_strlit(",");
        reveal_strlit("{\"name\":");
        reveal_strlit(",\"value\":");
        reveal_strlit(",\"inline\":true");
        reveal_strlit(",\"inline\":false");
        reveal_strlit("}");
    }
    let mut out: String = "[".to_owned();
    let n = fields.len();
    for i in 0..n
        invariant
            n == fields.len(),
            out@.len() > 0,
            out@[0] == '[',
    {
        if i > 0 {
            out.append(",");
        }
        let f = &fields[i];
        out.append("{\"name\":");
        push_json_string(&mut out, f.name.as_str());
        out.append(",\"value\":");
        push_json_string(&mut out, f.value.as_str());
        if f.inline {
            out.append(",\"inline\":true");
        } else {
            out.append(",\"inline\":false");
        }
        out.append("}");
    }
    out.append("]");
    out
}

/// Emit an embed.
#[verifier::rlimit(100)]
pub fn embed_json(e: &Embed) -> (r: String)
    ensures
        braced(r@),
{
    proof {
        reveal_strlit("{");
        reveal_strlit("}");
    }
    let mut out: String = "{".to_owned();
    let mut first = true;
    if let Some(title) = &e.title {
        push_field_name(&mut out, first, "title");
        push_json_string(&mut out, title.as_str());
        first = false;
    }
    if let Some(description) = &e.description {
        push_field_name(&mut out, first, "description");
        push_json_string(&mut out, description.as_str());
        first = false;
    }
    if let Some(url) = &e.url {
        push_field_name(&mut out, first, "url");
        push_json_string(&mut out, url.as_str());
        first = false;
    }
    if let Some(color) = e.color {
        push_field_name(&mut out, first, "color");
        out.append(u64_to_dec(color as u64).as_str());
        first = false;
    }
    if let Some(footer) = &e.footer {
        push_field_name(&mut out, first, "footer");
        let fj = embed_footer_json(footer.text.as_str(), &footer.icon_url);
        out.append(fj.as_str());
        first = false;
    }
    if let Some(image) = &e.image {
        push_field_name(&mut out, first, "image");
        let mj = embed_media_json(image.url.as_str());
        out.append(mj.as_str());
        first = false;
    }
    if let Some(thumbnail) = &e.thumbnail {
        push_field_name(&mut out, first, "thumbnail");
        let mj = embed_media_json(thumbnail.url.as_str());
        out.append(mj.as_str());
        first = false;
    }
    if let Some(author) = &e.author {
        push_field_name(&mut out, first, "author");
        let aj = embed_author_json(author.name.as_str());
        out.append(aj.as_str());
        first = false;
    }
    if e.fields.len() > 0 {
        push_field_name(&mut out, first, "fields");
        let fj = embed_fields_json(&e.fields);
        out.append(fj.as_str());
        first = false;
    }
    if let Some(ts) = &e.timestamp {
        push_field_name(&mut out, first, "timestamp");
        push_json_string(&mut out, ts.as_str());
        first = false;
    }
    out.append("}");
    out
}

/// Emit an outbound message reference.
fn message_reference_json(mr: &CreateMessageReference) -> (r: String)
    ensures
        braced(r@),
{
    proof {
        reveal_strlit("{");
        reveal_strlit("}");
        reveal_strlit(",\"fail_if_not_exists\":true");
        reveal_strlit(",\"fail_if_not_exists\":false");
        reveal_strlit("\"fail_if_not_exists\":true");
        reveal_strlit("\"fail_if_not_exists\":false");
    }
    let mut out: String = "{".to_owned();
    let mut first = true;
    if let Some(message_id) = &mr.message_id {
        push_field_name(&mut out, first, "message_id");
        push_json_string(&mut out, message_id.to_dec_string().as_str());
        first = false;
    }
    if let Some(channel_id) = &mr.channel_id {
        push_field_name(&mut out, first, "channel_id");
        push_json_string(&mut out, channel_id.to_dec_string().as_str());
        first = false;
    }
    if let Some(guild_id) = &mr.guild_id {
        push_field_name(&mut out, first, "guild_id");
        push_json_string(&mut out, guild_id.to_dec_string().as_str());
        first = false;
    }
    if first {
        if mr.fail_if_not_exists {
            out.append("\"fail_if_not_exists\":true");
        } else {
            out.append("\"fail_if_not_exists\":false");
        }
    } else {
        if mr.fail_if_not_exists {
            out.append(",\"fail_if_not_exists\":true");
        } else {
            out.append(",\"fail_if_not_exists\":false");
        }
    }
    out.append("}");
    out
}

// ---------------------------------------------------------------------------
// CreateMessage emission
// ---------------------------------------------------------------------------

/// Serialize an outbound message body.  A body with only `content` set
/// yields a JSON object holding exactly the `content` field.
pub fn create_message_json(msg: &CreateMessage) -> (r: String)
    ensures
        msg.content is Some && msg.embeds is None && msg.message_reference is None
            && msg.components is None && msg.flags is None ==> r@ == "{\"content\":"@
            + spec_json_string(msg.content->Some_0@) + "}"@,
        braced(r@),
{
    proof {
        reveal_strlit("{");
        reveal_strlit("}");
        reveal_strlit(",");
        reveal_strlit("]");
        reveal_strlit("{\"content\":");
    }
    let mut out: String = "{".to_owned();
    let mut first = true;
    if let Some(content) = &msg.content {
        push_field_name(&mut out, first, "content");
        push_json_string(&mut out, content.as_str());
        first = false;
    }
    if let Some(embeds) = &msg.embeds {
        push_field_name(&mut out, first, "embeds");
        proof {
            reveal_strlit("[");
        }
        out.append("[");
        let n = embeds.len();
        for i in 0..n
            invariant
                n == embeds.len(),
                out@.len() > 0,
                out@[0] == '{',
        {
            if i > 0 {
                out.append(",");
            }
            let e = embed_json(&embeds[i]);
            out.append(e.as_str());
        }
        out.append("]");
        first = false;
    }
    if let Some(mr) = &msg.message_reference {
        push_field_name(&mut out, first, "message_reference");
        let mrj = message_reference_json(mr);
        out.append(mrj.as_str());
        first = false;
    }
    if let Some(components) = &msg.components {
        push_field_name(&mut out, first, "components");
        proof {
            reveal_strlit("[");
        }
        out.append("[");
        let n = components.len();
        for i in 0..n
            invariant
                n == components.len(),
                out@.len() > 0,
                out@[0] == '{',
        {
            if i > 0 {
                out.append(",");
            }
            let c = component_json(&components[i]);
            out.append(c.as_str());
        }
        out.append("]");
        first = false;
    }
    if let Some(flags) = msg.flags {
        push_field_name(&mut out, first, "flags");
        out.append(u64_to_dec(flags as u64).as_str());
        first = false;
    }
    out.append("}");
    proof {
        if msg.content is Some && msg.embeds is None && msg.message_reference is None
            && msg.components is None && msg.flags is None {
            reveal_strlit("content");
            reveal_strlit(":");
            assert(spec_escape("content"@) =~= "content"@) by {
                reveal_with_fuel(spec_escape, 10);
            }
            assert(out@ =~= "{\"content\":"@ + spec_json_string(msg.content->Some_0@) + "}"@);
        }
    }
    out
}

} // verus!
