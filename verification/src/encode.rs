//! Encoding one request body: the JSON object holding the model
//! identifier and the conversation, with the pending user prompt as its
//! last message. The encoding, string escaping included, is the
//! library's own and is stated exactly.

use crate::message::{user_msg, wf_conversation, Conversation, MessageView, Role};
use vstd::prelude::*;
use vstd::string::StringExecFns;

verus! {

/// The lowercase hexadecimal digit for a value below 16.
pub open spec fn hex_digit(n: int) -> char {
    if n == 0 {
        '0'
    } else if n == 1 {
        '1'
    } else if n == 2 {
        '2'
    } else if n == 3 {
        '3'
    } else if n == 4 {
        '4'
    } else if n == 5 {
        '5'
    } else if n == 6 {
        '6'
    } else if n == 7 {
        '7'
    } else if n == 8 {
        '8'
    } else if n == 9 {
        '9'
    } else if n == 10 {
        'a'
    } else if n == 11 {
        'b'
    } else if n == 12 {
        'c'
    } else if n == 13 {
        'd'
    } else if n == 14 {
        'e'
    } else {
        'f'
    }
}

/// How one character stands inside a JSON string literal: quote,
/// backslash and the named control characters get a backslash escape,
/// the remaining control characters a `\u00..` escape, anything else
/// stands as itself.
pub open spec fn escaped_char(c: char) -> Seq<char> {
    if c == '"' {
        seq!['\\', '"']
    } else if c == '\\' {
        seq!['\\', '\\']
    } else if c == '\n' {
        seq!['\\', 'n']
    } else if c == '\r' {
        seq!['\\', 'r']
    } else if c == '\t' {
        seq!['\\', 't']
    } else if (c as u32) < 32 {
        seq!['\\', 'u', '0', '0', hex_digit(c as u32 as int / 16), hex_digit(c as u32 as int % 16)]
    } else {
        seq![c]
    }
}

/// A text as it stands inside a JSON string literal.
pub open spec fn escaped(s: Seq<char>) -> Seq<char>
    decreases s.len(),
{
    if s.len() == 0 {
        Seq::empty()
    } else {
        escaped(s.drop_last()) + escaped_char(s.last())
    }
}

/// The wire name of a role.
pub open spec fn role_name(r: Role) -> Seq<char> {
    match r {
        Role::System => "system"@,
        Role::User => "user"@,
        Role::Assistant => "assistant"@,
    }
}

/// One message as a JSON object.
pub open spec fn message_json(m: MessageView) -> Seq<char> {
    "{\"role\":\""@ + role_name(m.role) + "\",\"content\":\""@ + escaped(m.content) + "\"}"@
}

/// A message list as the comma-separated items of a JSON array.
pub open spec fn messages_json(ms: Seq<MessageView>) -> Seq<char>
    decreases ms.len(),
{
    if ms.len() == 0 {
        Seq::empty()
    } else if ms.len() == 1 {
        message_json(ms[0])
    } else {
        messages_json(ms.drop_last()) + ","@ + message_json(ms.last())
    }
}

/// The whole request body for a model and a message list.
pub open spec fn request_json(model: Seq<char>, ms: Seq<MessageView>) -> Seq<char> {
    "{\"model\":\""@ + escaped(model) + "\",\"messages\":["@ + messages_json(ms) + "]}"@
}

/// Relies on String::push: it appends exactly the given character.
#[verifier::external_body]
fn push_char(s: &mut String, c: char)
    ensures
        final(s)@ == old(s)@ + seq![c],
{
    s.push(c);
}

/// The lowercase hexadecimal digit for a value below 16.
fn hex_digit_char(n: u32) -> (c: char)
    requires
        n < 16,
    ensures
        c == hex_digit(n as int),
{
    if n == 0 {
        '0'
    } else if n == 1 {
        '1'
    } else if n == 2 {
        '2'
    } else if n == 3 {
        '3'
    } else if n == 4 {
        '4'
    } else if n == 5 {
        '5'
    } else if n == 6 {
        '6'
    } else if n == 7 {
        '7'
    } else if n == 8 {
        '8'
    } else if n == 9 {
        '9'
    } else if n == 10 {
        'a'
    } else if n == 11 {
        'b'
    } else if n == 12 {
        'c'
    } else if n == 13 {
        'd'
    } else if n == 14 {
        'e'
    } else {
        'f'
    }
}

/// Append `s`, escaped for a JSON string literal, to `out`.
fn append_escaped(out: &mut String, s: &str)
    ensures
        final(out)@ == old(out)@ + escaped(s@),
{
    let n = s.unicode_len();
    let mut i: usize = 0;
    while i < n
        invariant
            n == s@.len(),
            i <= n,
            out@ == old(out)@ + escaped(s@.take(i as int)),
        decreases n - i,
    {
        let ghost before = out@;
        let c = s.get_char(i);
        if c == '"' {
            push_char(out, '\\');
            push_char(out, '"');
        } else if c == '\\' {
            push_char(out, '\\');
            push_char(out, '\\');
        } else if c == '\n' {
            push_char(out, '\\');
            push_char(out, 'n');
        } else if c == '\r' {
            push_char(out, '\\');
            push_char(out, 'r');
        } else if c == '\t' {
            push_char(out, '\\');
            push_char(out, 't');
        } else {
            let code = c as u32;
            if code < 32 {
                push_char(out, '\\');
                push_char(out, 'u');
                push_char(out, '0');
                push_char(out, '0');
                push_char(out, hex_digit_char(code / 16));
                push_char(out, hex_digit_char(code % 16));
            } else {
                push_char(out, c);
            }
        }
        proof {
            assert(out@ =~= before + escaped_char(s@[i as int]));
            let t = s@.take(i + 1);
            assert(t.drop_last() =~= s@.take(i as int));
            assert(t.last() == s@[i as int]);
            assert(out@ =~= old(out)@ + escaped(s@.take(i + 1)));
        }
        i += 1;
    }
    proof {
        assert(s@.take(n as int) =~= s@);
    }
}

/// The wire name of a role.
pub fn role_str(r: Role) -> (s: &'static str)
    ensures
        s@ == role_name(r),
{
    match r {
        Role::System => "system",
        Role::User => "user",
        Role::Assistant => "assistant",
    }
}

/// Append one message object to `out`.
fn append_message(out: &mut String, role: Role, content: &str)
    ensures
        final(out)@ == old(out)@ + message_json(
            MessageView { role: role, content: content@ },
        ),
{
    out.append("{\"role\":\"");
    out.append(role_str(role));
    out.append("\",\"content\":\"");
    append_escaped(out, content);
    out.append("\"}");
    proof {
        assert(out@ =~= old(out)@ + message_json(MessageView { role: role, content: content@ }));
    }
}

/// The request body for one round trip: the committed conversation with
/// the pending user prompt appended as the last message, under the
/// given model identifier.
pub fn encode_request(model: &str, conv: &Conversation, prompt: &str) -> (r: String)
    requires
        wf_conversation(conv@),
    ensures
        r@ == request_json(model@, conv@.push(user_msg(prompt@))),
{
    let ghost ms = conv@.push(user_msg(prompt@));
    let mut r = String::new();
    r.append("{\"model\":\"");
    append_escaped(&mut r, model);
    r.append("\",\"messages\":[");
    let ghost mid = r@;
    let n = conv.len();
    let mut i: usize = 0;
    while i < n
        invariant
            n == conv@.len(),
            n >= 1,
            i <= n,
            ms == conv@.push(user_msg(prompt@)),
            r@ == mid + messages_json(conv@.take(i as int)),
        decreases n - i,
    {
        if i > 0 {
            r.append(",");
        }
        let m = conv.message_at(i);
        let ghost before = r@;
        append_message(&mut r, m.role, m.content.as_str());
        proof {
            let t = conv@.take(i + 1);
            assert(t.drop_last() =~= conv@.take(i as int));
            assert(t.last() == conv@[i as int]);
            if i == 0 {
                assert(r@ =~= mid + messages_json(conv@.take(1)));
            } else {
                assert(r@ =~= mid + messages_json(conv@.take(i + 1)));
            }
        }
        i += 1;
    }
    r.append(",");
    append_message(&mut r, Role::User, prompt);
    r.append("]}");
    proof {
        assert(conv@.take(n as int) =~= conv@);
        assert(ms.drop_last() =~= conv@);
        assert(ms.last() == user_msg(prompt@));
        assert(r@ =~= request_json(model@, ms));
    }
    r
}

} // verus!
