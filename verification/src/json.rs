//! JSON emission for the outgoing messages, specified to the character.
//!
//! The wire format tags each variant with its name as an object key, keeps
//! struct fields in declaration order, renders the broker's key/value lists
//! as JSON objects in their held order, and escapes only what JSON
//! requires: quotes, backslashes and control characters.

use vstd::prelude::*;
use vstd::string::{StrSliceExecFns, StringExecFns};

use crate::messaging::{
    NewPollMessage, OutgoingPresenterMessage, OutgoingUserMessage, SlideSettings,
};
use crate::outside::push_char;
use crate::presentation::poll::VoteType;
use crate::ratelimiting::RatelimiterResponse;
use crate::textfmt::dec_str;

verus! {

/// The lowercase hexadecimal digit for `d`.
pub open spec fn hex_digit(d: int) -> char {
    if d == 0 {
        '0'
    } else if d == 1 {
        '1'
    } else if d == 2 {
        '2'
    } else if d == 3 {
        '3'
    } else if d == 4 {
        '4'
    } else if d == 5 {
        '5'
    } else if d == 6 {
        '6'
    } else if d == 7 {
        '7'
    } else if d == 8 {
        '8'
    } else if d == 9 {
        '9'
    } else if d == 10 {
        'a'
    } else if d == 11 {
        'b'
    } else if d == 12 {
        'c'
    } else if d == 13 {
        'd'
    } else if d == 14 {
        'e'
    } else {
        'f'
    }
}

/// How one character is written inside a JSON string: quotes and
/// backslashes get a backslash, the named control characters their short
/// escapes, other control characters a \u00xx escape, and everything else
/// stands as itself.
pub open spec fn esc_char(c: char) -> Seq<char> {
    if c == '"' {
        seq!['\\', '"']
    } else if c == '\\' {
        seq!['\\', '\\']
    } else if c == '\u{8}' {
        seq!['\\', 'b']
    } else if c == '\t' {
        seq!['\\', 't']
    } else if c == '\n' {
        seq!['\\', 'n']
    } else if c == '\u{c}' {
        seq!['\\', 'f']
    } else if c == '\r' {
        seq!['\\', 'r']
    } else if (c as u32) < 0x20 {
        seq!['\\', 'u', '0', '0', hex_digit(c as u32 as int / 16), hex_digit(c as u32 as int % 16)]
    } else {
        seq![c]
    }
}

/// A whole character sequence, escaped.
pub open spec fn escaped(s: Seq<char>) -> Seq<char>
    decreases s.len(),
{
    if s.len() == 0 {
        Seq::empty()
    } else {
        escaped(s.drop_last()) + esc_char(s.last())
    }
}

/// A JSON string literal for `s`.
pub open spec fn json_str(s: Seq<char>) -> Seq<char> {
    "\""@ + escaped(s) + "\""@
}

fn hex_digit_char(d: u32) -> (c: char)
    requires
        d < 16,
    ensures
        c == hex_digit(d as int),
{
    if d == 0 {
        '0'
    } else if d == 1 {
        '1'
    } else if d == 2 {
        '2'
    } else if d == 3 {
        '3'
    } else if d == 4 {
        '4'
    } else if d == 5 {
        '5'
    } else if d == 6 {
        '6'
    } else if d == 7 {
        '7'
    } else if d == 8 {
        '8'
    } else if d == 9 {
        '9'
    } else if d == 10 {
        'a'
    } else if d == 11 {
        'b'
    } else if d == 12 {
        'c'
    } else if d == 13 {
        'd'
    } else if d == 14 {
        'e'
    } else {
        'f'
    }
}

/// Writes one JSON string literal for `s` onto `out`.
pub fn append_json_str(out: &mut String, s: &str)
    ensures
        final(out)@ == old(out)@ + json_str(s@),
{
    out.append("\"");
    let n = s.unicode_len();
    for i in 0..n
        invariant
            n == s@.len(),
            out@ == old(out)@ + "\""@ + escaped(s@.subrange(0, i as int)),
    {
        let ghost before = out@;
        let c = s.get_char(i);
        if c == '"' {
            push_char(out, '\\');
            push_char(out, '"');
        } else if c == '\\' {
            push_char(out, '\\');
            push_char(out, '\\');
        } else if c == '\u{8}' {
            push_char(out, '\\');
            push_char(out, 'b');
        } else if c == '\t' {
            push_char(out, '\\');
            push_char(out, 't');
        } else if c == '\n' {
            push_char(out, '\\');
            push_char(out, 'n');
        } else if c == '\u{c}' {
            push_char(out, '\\');
            push_char(out, 'f');
        } else if c == '\r' {
            push_char(out, '\\');
            push_char(out, 'r');
        } else if (c as u32) < 0x20 {
            push_char(out, '\\');
            push_char(out, 'u');
            push_char(out, '0');
            push_char(out, '0');
            push_char(out, hex_digit_char((c as u32) / 16));
            push_char(out, hex_digit_char((c as u32) % 16));
        } else {
            push_char(out, c);
        }
        proof {
            assert(out@ =~= before + esc_char(c));
            let sub1 = s@.subrange(0, i as int + 1);
            assert(sub1.drop_last() =~= s@.subrange(0, i as int));
            assert(sub1.last() == c);
            assert(escaped(sub1) == escaped(s@.subrange(0, i as int)) + esc_char(c));
            assert(out@ =~= old(out)@ + "\""@ + escaped(sub1));
        }
    }
    proof {
        assert(s@.subrange(0, n as int) =~= s@);
    }
    out.append("\"");
    proof {
        assert(out@ =~= old(out)@ + json_str(s@));
    }
}

/// Writes a decimal number onto `out`.
pub fn append_u64(out: &mut String, v: u64)
    ensures
        final(out)@ == old(out)@ + dec_str(v as int),
{
    let num = crate::textfmt::u64_to_string(v);
    out.append(num.as_str());
}

/// The entries of a JSON object with string values, comma separated.
pub open spec fn join_str_entries(entries: Seq<(String, String)>) -> Seq<char>
    decreases entries.len(),
{
    if entries.len() == 0 {
        Seq::empty()
    } else if entries.len() == 1 {
        json_str(entries[0].0@) + ":"@ + json_str(entries[0].1@)
    } else {
        join_str_entries(entries.drop_last()) + ","@ + json_str(entries.last().0@) + ":"@
            + json_str(entries.last().1@)
    }
}

/// A JSON object whose values are strings.
pub open spec fn json_str_obj(entries: Seq<(String, String)>) -> Seq<char> {
    "{"@ + join_str_entries(entries) + "}"@
}

/// Writes a JSON object with string values onto `out`.
pub fn append_str_obj(out: &mut String, entries: &Vec<(String, String)>)
    ensures
        final(out)@ == old(out)@ + json_str_obj(entries@),
{
    out.append("{");
    let n = entries.len();
    for i in 0..n
        invariant
            n == entries@.len(),
            out@ == old(out)@ + "{"@ + join_str_entries(entries@.subrange(0, i as int)),
    {
        let ghost before = out@;
        if i > 0 {
            out.append(",");
        }
        append_json_str(out, entries[i].0.as_str());
        out.append(":");
        append_json_str(out, entries[i].1.as_str());
        proof {
            let sub1 = entries@.subrange(0, i as int + 1);
            assert(sub1.drop_last() =~= entries@.subrange(0, i as int));
            assert(sub1.last() == entries@[i as int]);
            if i == 0 {
                assert(out@ =~= old(out)@ + "{"@ + join_str_entries(sub1));
            } else {
                assert(out@ =~= old(out)@ + "{"@ + join_str_entries(sub1));
            }
        }
    }
    proof {
        assert(entries@.subrange(0, n as int) =~= entries@);
    }
    out.append("}");
    proof {
        assert(out@ =~= old(out)@ + json_str_obj(entries@));
    }
}

/// The entries of a JSON object with unsigned values, comma separated.
pub open spec fn join_u64_entries(entries: Seq<(String, u64)>) -> Seq<char>
    decreases entries.len(),
{
    if entries.len() == 0 {
        Seq::empty()
    } else if entries.len() == 1 {
        json_str(entries[0].0@) + ":"@ + dec_str(entries[0].1 as int)
    } else {
        join_u64_entries(entries.drop_last()) + ","@ + json_str(entries.last().0@) + ":"@
            + dec_str(entries.last().1 as int)
    }
}

/// A JSON object whose values are unsigned numbers.
pub open spec fn json_u64_obj(entries: Seq<(String, u64)>) -> Seq<char> {
    "{"@ + join_u64_entries(entries) + "}"@
}

/// Writes a JSON object with unsigned values onto `out`.
pub fn append_u64_obj(out: &mut String, entries: &Vec<(String, u64)>)
    ensures
        final(out)@ == old(out)@ + json_u64_obj(entries@),
{
    out.append("{");
    let n = entries.len();
    for i in 0..n
        invariant
            n == entries@.len(),
            out@ == old(out)@ + "{"@ + join_u64_entries(entries@.subrange(0, i as int)),
    {
        if i > 0 {
            out.append(",");
        }
        append_json_str(out, entries[i].0.as_str());
        out.append(":");
        append_u64(out, entries[i].1);
        proof {
            let sub1 = entries@.subrange(0, i as int + 1);
            assert(sub1.drop_last() =~= entries@.subrange(0, i as int));
            assert(sub1.last() == entries@[i as int]);
            assert(out@ =~= old(out)@ + "{"@ + join_u64_entries(sub1));
        }
    }
    proof {
        assert(entries@.subrange(0, n as int) =~= entries@);
    }
    out.append("}");
    proof {
        assert(out@ =~= old(out)@ + json_u64_obj(entries@));
    }
}

/// The entries of a JSON object with boolean values, comma separated.
pub open spec fn join_bool_entries(entries: Seq<(String, bool)>) -> Seq<char>
    decreases entries.len(),
{
    if entries.len() == 0 {
        Seq::empty()
    } else if entries.len() == 1 {
        json_str(entries[0].0@) + ":"@ + (if entries[0].1 {
            "true"@
        } else {
            "false"@
        })
    } else {
        join_bool_entries(entries.drop_last()) + ","@ + json_str(entries.last().0@) + ":"@ + (
        if entries.last().1 {
            "true"@
        } else {
            "false"@
        })
    }
}

/// A JSON object whose values are booleans.
pub open spec fn json_bool_obj(entries: Seq<(String, bool)>) -> Seq<char> {
    "{"@ + join_bool_entries(entries) + "}"@
}

/// Writes a JSON object with boolean values onto `out`.
pub fn append_bool_obj(out: &mut String, entries: &Vec<(String, bool)>)
    ensures
        final(out)@ == old(out)@ + json_bool_obj(entries@),
{
    out.append("{");
    let n = entries.len();
    for i in 0..n
        invariant
            n == entries@.len(),
            out@ == old(out)@ + "{"@ + join_bool_entries(entries@.subrange(0, i as int)),
    {
        if i > 0 {
            out.append(",");
        }
        append_json_str(out, entries[i].0.as_str());
        out.append(":");
        if entries[i].1 {
            out.append("true");
        } else {
            out.append("false");
        }
        proof {
            let sub1 = entries@.subrange(0, i as int + 1);
            assert(sub1.drop_last() =~= entries@.subrange(0, i as int));
            assert(sub1.last() == entries@[i as int]);
            assert(out@ =~= old(out)@ + "{"@ + join_bool_entries(sub1));
        }
    }
    proof {
        assert(entries@.subrange(0, n as int) =~= entries@);
    }
    out.append("}");
    proof {
        assert(out@ =~= old(out)@ + json_bool_obj(entries@));
    }
}

/// The entries of a JSON object with small unsigned values.
pub open spec fn join_u8_entries(entries: Seq<(String, u8)>) -> Seq<char>
    decreases entries.len(),
{
    if entries.len() == 0 {
        Seq::empty()
    } else if entries.len() == 1 {
        json_str(entries[0].0@) + ":"@ + dec_str(entries[0].1 as int)
    } else {
        join_u8_entries(entries.drop_last()) + ","@ + json_str(entries.last().0@) + ":"@
            + dec_str(entries.last().1 as int)
    }
}

/// A JSON object whose values are small unsigned numbers.
pub open spec fn json_u8_obj(entries: Seq<(String, u8)>) -> Seq<char> {
    "{"@ + join_u8_entries(entries) + "}"@
}

/// Writes a JSON object with small unsigned values onto `out`.
pub fn append_u8_obj(out: &mut String, entries: &Vec<(String, u8)>)
    ensures
        final(out)@ == old(out)@ + json_u8_obj(entries@),
{
    out.append("{");
    let n = entries.len();
    for i in 0..n
        invariant
            n == entries@.len(),
            out@ == old(out)@ + "{"@ + join_u8_entries(entries@.subrange(0, i as int)),
    {
        if i > 0 {
            out.append(",");
        }
        append_json_str(out, entries[i].0.as_str());
        out.append(":");
        append_u64(out, entries[i].1 as u64);
        proof {
            let sub1 = entries@.subrange(0, i as int + 1);
            assert(sub1.drop_last() =~= entries@.subrange(0, i as int));
            assert(sub1.last() == entries@[i as int]);
            assert(out@ =~= old(out)@ + "{"@ + join_u8_entries(sub1));
        }
    }
    proof {
        assert(entries@.subrange(0, n as int) =~= entries@);
    }
    out.append("}");
    proof {
        assert(out@ =~= old(out)@ + json_u8_obj(entries@));
    }
}

/// The elements of a JSON array of strings, comma separated.
pub open spec fn join_strs(items: Seq<String>) -> Seq<char>
    decreases items.len(),
{
    if items.len() == 0 {
        Seq::empty()
    } else if items.len() == 1 {
        json_str(items[0]@)
    } else {
        join_strs(items.drop_last()) + ","@ + json_str(items.last()@)
    }
}

/// A JSON array of strings.
pub open spec fn json_str_array(items: Seq<String>) -> Seq<char> {
    "["@ + join_strs(items) + "]"@
}

/// Writes a JSON array of strings onto `out`.
pub fn append_str_array(out: &mut String, items: &Vec<String>)
    ensures
        final(out)@ == old(out)@ + json_str_array(items@),
{
    out.append("[");
    let n = items.len();
    for i in 0..n
        invariant
            n == items@.len(),
            out@ == old(out)@ + "["@ + join_strs(items@.subrange(0, i as int)),
    {
        if i > 0 {
            out.append(",");
        }
        append_json_str(out, items[i].as_str());
        proof {
            let sub1 = items@.subrange(0, i as int + 1);
            assert(sub1.drop_last() =~= items@.subrange(0, i as int));
            assert(sub1.last() == items@[i as int]);
            assert(out@ =~= old(out)@ + "["@ + join_strs(sub1));
        }
    }
    proof {
        assert(items@.subrange(0, n as int) =~= items@);
    }
    out.append("]");
    proof {
        assert(out@ =~= old(out)@ + json_str_array(items@));
    }
}

/// The JSON shape of slide settings.
pub open spec fn json_slide_settings(st: SlideSettings) -> Seq<char> {
    "{\"message\":"@ + json_str(st.message@) + ",\"emojis\":"@ + json_str_array(st.emojis@)
        + "}"@
}

/// Writes slide settings onto `out`.
pub fn append_slide_settings(out: &mut String, st: &SlideSettings)
    ensures
        final(out)@ == old(out)@ + json_slide_settings(*st),
{
    out.append("{\"message\":");
    append_json_str(out, st.message.as_str());
    out.append(",\"emojis\":");
    append_str_array(out, &st.emojis);
    out.append("}");
    proof {
        assert(out@ =~= old(out)@ + json_slide_settings(*st));
    }
}

/// The JSON shape of a vote kind, tagged by its variant name.
pub open spec fn json_vote_type(vt: VoteType) -> Seq<char> {
    match vt {
        VoteType::SingleBinary { choice } => "{\"SingleBinary\":{\"choice\":"@ + json_str(
            choice@,
        ) + "}}"@,
        VoteType::MultipleBinary { choices } => "{\"MultipleBinary\":{\"choices\":"@
            + json_bool_obj(choices@) + "}}"@,
        VoteType::SingleValue { choice, value } => "{\"SingleValue\":{\"choice\":"@ + json_str(
            choice@,
        ) + ",\"value\":"@ + dec_str(value as int) + "}}"@,
        VoteType::MultipleValue { choices } => "{\"MultipleValue\":{\"choices\":"@
            + json_u8_obj(choices@) + "}}"@,
    }
}

/// Writes a vote kind onto `out`.
pub fn append_vote_type(out: &mut String, vt: &VoteType)
    ensures
        final(out)@ == old(out)@ + json_vote_type(*vt),
{
    match vt {
        VoteType::SingleBinary { choice } => {
            out.append("{\"SingleBinary\":{\"choice\":");
            append_json_str(out, choice.as_str());
            out.append("}}");
        },
        VoteType::MultipleBinary { choices } => {
            out.append("{\"MultipleBinary\":{\"choices\":");
            append_bool_obj(out, choices);
            out.append("}}");
        },
        VoteType::SingleValue { choice, value } => {
            out.append("{\"SingleValue\":{\"choice\":");
            append_json_str(out, choice.as_str());
            out.append(",\"value\":");
            append_u64(out, *value as u64);
            out.append("}}");
        },
        VoteType::MultipleValue { choices } => {
            out.append("{\"MultipleValue\":{\"choices\":");
            append_u8_obj(out, choices);
            out.append("}}");
        },
    }
    proof {
        assert(out@ =~= old(out)@ + json_vote_type(*vt));
    }
}

/// The JSON shape of a poll definition.
pub open spec fn json_new_poll(p: NewPollMessage) -> Seq<char> {
    "{\"name\":"@ + json_str(p.name@) + ",\"options\":"@ + json_str_array(p.options@)
        + ",\"vote_type\":"@ + json_vote_type(p.vote_type) + "}"@
}

/// Writes a poll definition onto `out`.
pub fn append_new_poll(out: &mut String, p: &NewPollMessage)
    ensures
        final(out)@ == old(out)@ + json_new_poll(*p),
{
    out.append("{\"name\":");
    append_json_str(out, p.name.as_str());
    out.append(",\"options\":");
    append_str_array(out, &p.options);
    out.append(",\"vote_type\":");
    append_vote_type(out, &p.vote_type);
    out.append("}");
    proof {
        assert(out@ =~= old(out)@ + json_new_poll(*p));
    }
}

/// The JSON shape of a rate-limiter answer.
pub open spec fn json_ratelimiter_response(r: RatelimiterResponse) -> Seq<char> {
    match r {
        RatelimiterResponse::Allowed(notes) => "{\"Allowed\":"@ + json_str_obj(notes@) + "}"@,
        RatelimiterResponse::Blocked(name) => "{\"Blocked\":"@ + json_str(name@) + "}"@,
    }
}

/// The JSON shape of everything the broker sends a user.
pub open spec fn json_user_message(m: OutgoingUserMessage) -> Seq<char> {
    match m {
        OutgoingUserMessage::InitialPresentationData { title, settings } => {
            "{\"InitialPresentationData\":{\"title\":"@ + json_str(title@) + ",\"settings\":"@
                + (match settings {
                Some(st) => json_slide_settings(st),
                None => "null"@,
            }) + "}}"@
        },
        OutgoingUserMessage::RatelimiterResponse(r) => "{\"RatelimiterResponse\":"@
            + json_ratelimiter_response(r) + "}"@,
        OutgoingUserMessage::NewSlide(st) => "{\"NewSlide\":"@ + json_slide_settings(st) + "}"@,
        OutgoingUserMessage::NewPoll(p) => "{\"NewPoll\":"@ + json_new_poll(p) + "}"@,
        OutgoingUserMessage::Success(s) => "{\"Success\":"@ + json_str(s@) + "}"@,
        OutgoingUserMessage::Error(s) => "{\"Error\":"@ + json_str(s@) + "}"@,
        OutgoingUserMessage::Disconnect(s) => "{\"Disconnect\":"@ + json_str(s@) + "}"@,
    }
}

/// The JSON shape of everything the broker sends a presenter.
pub open spec fn json_presenter_message(m: OutgoingPresenterMessage) -> Seq<char> {
    match m {
        OutgoingPresenterMessage::Emoji(e) => "{\"Emoji\":{\"emoji\":"@ + json_str(e.emoji@)
            + ",\"size\":"@ + dec_str(e.size as int) + "}}"@,
        OutgoingPresenterMessage::PollResults(t) => "{\"PollResults\":"@ + json_u64_obj(t@)
            + "}"@,
        OutgoingPresenterMessage::Error(s) => "{\"Error\":"@ + json_str(s@) + "}"@,
    }
}

impl OutgoingUserMessage {
    /// This message on the wire.
    pub fn json(&self) -> (r: String)
        ensures
            r@ == json_user_message(*self),
    {
        let mut out = String::new();
        match self {
            OutgoingUserMessage::InitialPresentationData { title, settings } => {
                out.append("{\"InitialPresentationData\":{\"title\":");
                append_json_str(&mut out, title.as_str());
                out.append(",\"settings\":");
                match settings {
                    Some(st) => append_slide_settings(&mut out, st),
                    None => out.append("null"),
                }
                out.append("}}");
            },
            OutgoingUserMessage::RatelimiterResponse(r) => {
                out.append("{\"RatelimiterResponse\":");
                match r {
                    RatelimiterResponse::Allowed(notes) => {
                        out.append("{\"Allowed\":");
                        append_str_obj(&mut out, notes);
                        out.append("}");
                    },
                    RatelimiterResponse::Blocked(name) => {
                        out.append("{\"Blocked\":");
                        append_json_str(&mut out, name.as_str());
                        out.append("}");
                    },
                }
                out.append("}");
            },
            OutgoingUserMessage::NewSlide(st) => {
                out.append("{\"NewSlide\":");
                append_slide_settings(&mut out, st);
                out.append("}");
            },
            OutgoingUserMessage::NewPoll(p) => {
                out.append("{\"NewPoll\":");
                append_new_poll(&mut out, p);
                out.append("}");
            },
            OutgoingUserMessage::Success(s) => {
                out.append("{\"Success\":");
                append_json_str(&mut out, s.as_str());
                out.append("}");
            },
            OutgoingUserMessage::Error(s) => {
                out.append("{\"Error\":");
                append_json_str(&mut out, s.as_str());
                out.append("}");
            },
            OutgoingUserMessage::Disconnect(s) => {
                out.append("{\"Disconnect\":");
                append_json_str(&mut out, s.as_str());
                out.append("}");
            },
        }
        proof {
            assert(out@ =~= json_user_message(*self));
        }
        out
    }
}

impl OutgoingPresenterMessage {
    /// This message on the wire.
    pub fn json(&self) -> (r: String)
        ensures
            r@ == json_presenter_message(*self),
    {
        let mut out = String::new();
        match self {
            OutgoingPresenterMessage::Emoji(e) => {
                out.append("{\"Emoji\":{\"emoji\":");
                append_json_str(&mut out, e.emoji.as_str());
                out.append(",\"size\":");
                append_u64(&mut out, e.size as u64);
                out.append("}}");
            },
            OutgoingPresenterMessage::PollResults(t) => {
                out.append("{\"PollResults\":");
                append_u64_obj(&mut out, t);
                out.append("}");
            },
            OutgoingPresenterMessage::Error(s) => {
                out.append("{\"Error\":");
                append_json_str(&mut out, s.as_str());
                out.append("}");
            },
        }
        proof {
            assert(out@ =~= json_presenter_message(*self));
        }
        out
    }
}

} // verus!
