//! The outbound side: the reply text built from a question and an answer,
//! and the JSON payload `{"content": <string>}` that carries it to the
//! channel endpoint.

use vstd::prelude::*;

verus! {

/// Relies on `String::push` from std: it appends the given character to
/// the end of the string.
pub assume_specification[ String::push ](s: &mut String, c: char)
    ensures
        final(s)@ == old(s)@.push(c),
;

/// The reply sent for `question` answered by `answer`.
pub open spec fn reply_of(question: Seq<char>, answer: Seq<char>) -> Seq<char> {
    "You asked: '"@ + question + "'\nQuestion Answer: "@ + answer + "\n"@
}

/// Builds the reply text for a question and the answer the model gave.
pub fn format_reply(question: &String, answer: &String) -> (r: String)
    ensures
        r@ == reply_of(question@, answer@),
{
    let mut r = String::from_str("You asked: '");
    r.append(question.as_str());
    r.append("'\nQuestion Answer: ");
    r.append(answer.as_str());
    r.append("\n");
    proof {
        assert(r@ =~= reply_of(question@, answer@));
    }
    r
}

/// The digit characters used in a JSON `\u00XX` escape.
pub open spec fn hex_digit_spec(v: int) -> char {
    if v == 0 { '0' } else if v == 1 { '1' } else if v == 2 { '2' } else if v == 3 { '3' }
    else if v == 4 { '4' } else if v == 5 { '5' } else if v == 6 { '6' } else if v == 7 { '7' }
    else if v == 8 { '8' } else if v == 9 { '9' } else if v == 10 { 'a' } else if v == 11 { 'b' }
    else if v == 12 { 'c' } else if v == 13 { 'd' } else if v == 14 { 'e' } else { 'f' }
}

/// How one character appears inside a JSON string: quote and backslash are
/// escaped, the control characters below 0x20 take their short escapes or
/// `\u00XX`, and every other character stands as itself.
pub open spec fn escape_char(c: char) -> Seq<char> {
    if c == '"' {
        seq!['\\', '"']
    } else if c == '\\' {
        seq!['\\', '\\']
    } else if c == '\u{8}' {
        seq!['\\', 'b']
    } else if c == '\t' {
        seq!['\\', 't']
    } else if c == '\n' {
        seq!['\\', 'n']
    } else if c == '\u{c}' {
        seq!['\\', 'f']
    } else if c == '\r' {
        seq!['\\', 'r']
    } else if (c as u32) < 0x20 {
        seq!['\\', 'u', '0', '0', hex_digit_spec(c as int / 16), hex_digit_spec(c as int % 16)]
    } else {
        seq![c]
    }
}

/// The body of the JSON string that encodes `s`.
pub open spec fn json_escaped(s: Seq<char>) -> Seq<char>
    decreases s.len(),
{
    if s.len() == 0 {
        Seq::empty()
    } else {
        json_escaped(s.drop_last()) + escape_char(s.last())
    }
}

/// The JSON payload posted to the channel endpoint for content `s`.
pub open spec fn payload_of(s: Seq<char>) -> Seq<char> {
    "{\"content\":\""@ + json_escaped(s) + "\"}"@
}

/// The digit character for a value below 16.
fn hex_digit(v: u32) -> (c: char)
    requires
        v < 16,
    ensures
        c == hex_digit_spec(v as int),
{
    if v == 0 { '0' } else if v == 1 { '1' } else if v == 2 { '2' } else if v == 3 { '3' }
    else if v == 4 { '4' } else if v == 5 { '5' } else if v == 6 { '6' } else if v == 7 { '7' }
    else if v == 8 { '8' } else if v == 9 { '9' } else if v == 10 { 'a' } else if v == 11 { 'b' }
    else if v == 12 { 'c' } else if v == 13 { 'd' } else if v == 14 { 'e' } else { 'f' }
}

/// Appends the JSON encoding of one character.
fn push_escaped(out: &mut String, c: char)
    ensures
        final(out)@ == old(out)@ + escape_char(c),
{
    if c == '"' {
        out.push('\\');
        out.push('"');
    } else if c == '\\' {
        out.push('\\');
        out.push('\\');
    } else if c == '\u{8}' {
        out.push('\\');
        out.push('b');
    } else if c == '\t' {
        out.push('\\');
        out.push('t');
    } else if c == '\n' {
        out.push('\\');
        out.push('n');
    } else if c == '\u{c}' {
        out.push('\\');
        out.push('f');
    } else if c == '\r' {
        out.push('\\');
        out.push('r');
    } else if (c as u32) < 0x20 {
        let v = c as u32;
        out.push('\\');
        out.push('u');
        out.push('0');
        out.push('0');
        out.push(hex_digit(v / 16));
        out.push(hex_digit(v % 16));
    } else {
        out.push(c);
    }
    proof {
        assert(out@ =~= old(out)@ + escape_char(c));
    }
}

/// Builds the JSON payload `{"content": <content>}` as the channel
/// endpoint expects it.
pub fn content_payload(content: &String) -> (r: String)
    ensures
        r@ == payload_of(content@),
{
    let s = content.as_str();
    let n = s.unicode_len();
    let mut out = String::from_str("{\"content\":\"");
    let mut i: usize = 0;
    while i < n
        invariant
            0 <= i <= n,
            n == s@.len(),
            s@ == content@,
            out@ == "{\"content\":\""@ + json_escaped(s@.subrange(0, i as int)),
        decreases n - i,
    {
        let c = s.get_char(i);
        push_escaped(&mut out, c);
        proof {
            let t = s@.subrange(0, i + 1);
            assert(t.drop_last() =~= s@.subrange(0, i as int));
            assert(out@ =~= "{\"content\":\""@ + json_escaped(t));
        }
        i += 1;
    }
    out.append("\"}");
    proof {
        assert(s@.subrange(0, n as int) =~= s@);
        assert(out@ =~= payload_of(content@));
    }
    out
}

} // verus!
