//! JSON string framing: escaping for the request bodies this client sends,
//! and trusted readers for the response bodies the device answers with.

use vstd::prelude::*;
use vstd::string::StringExecFns;

verus! {

/// The character for one hexadecimal digit, lower case.
pub open spec fn hex_digit(d: nat) -> char {
    if d < 10 {
        (48 + d) as char
    } else {
        (87 + d) as char
    }
}

/// How one character is written inside a JSON string literal: quote and
/// backslash get a backslash escape, control characters a `\u00..` escape,
/// and every other character stands as itself.
pub open spec fn escape_char(c: char) -> Seq<char> {
    if c == '"' {
        seq!['\\', '"']
    } else if c == '\\' {
        seq!['\\', '\\']
    } else if (c as nat) < 32 {
        seq!['\\', 'u', '0', '0', hex_digit((c as nat) / 16), hex_digit((c as nat) % 16)]
    } else {
        seq![c]
    }
}

/// The body of a JSON string literal for `s`: each character escaped.
pub open spec fn escape_str(s: Seq<char>) -> Seq<char>
    decreases s.len(),
{
    if s.len() == 0 {
        Seq::empty()
    } else {
        escape_str(s.drop_last()) + escape_char(s.last())
    }
}

/// A complete JSON string literal for `s`, quotes included.
pub open spec fn json_string_lit(s: Seq<char>) -> Seq<char> {
    seq!['"'] + escape_str(s) + seq!['"']
}

/// Whether a character passes into a JSON string literal as itself:
/// everything but the quote, the backslash and the control characters.
/// Spaces and characters beyond ASCII are all plain.
pub open spec fn plain_char(c: char) -> bool {
    c != '"' && c != '\\' && (c as nat) >= 32
}

/// The value of one hexadecimal digit character, lower case.
pub open spec fn hex_val(c: char) -> Option<nat> {
    if 48 <= (c as nat) && (c as nat) <= 57 {
        Some(((c as nat) - 48) as nat)
    } else if 97 <= (c as nat) && (c as nat) <= 102 {
        Some(((c as nat) - 87) as nat)
    } else {
        None
    }
}

/// Prepends a character to a successfully unescaped tail.
pub open spec fn unescape_cons(c: char, tail: Option<Seq<char>>) -> Option<Seq<char>> {
    match tail {
        Some(t) => Some(seq![c] + t),
        None => None,
    }
}

/// How the body of a JSON string literal reads back: backslash escapes and
/// `\u00..` escapes are undone, a bare quote or control character is
/// rejected, and every other character stands for itself.
pub open spec fn unescape_str(s: Seq<char>) -> Option<Seq<char>>
    decreases s.len(),
{
    if s.len() == 0 {
        Some(Seq::empty())
    } else if s[0] == '\\' {
        if s.len() >= 2 && s[1] == '"' {
            unescape_cons('"', unescape_str(s.skip(2)))
        } else if s.len() >= 2 && s[1] == '\\' {
            unescape_cons('\\', unescape_str(s.skip(2)))
        } else if s.len() >= 6 && s[1] == 'u' && s[2] == '0' && s[3] == '0' {
            match (hex_val(s[4]), hex_val(s[5])) {
                (Some(hi), Some(lo)) => unescape_cons(
                    ((hi * 16 + lo) as nat) as char,
                    unescape_str(s.skip(6)),
                ),
                _ => None,
            }
        } else {
            None
        }
    } else if s[0] == '"' || (s[0] as nat) < 32 {
        None
    } else {
        unescape_cons(s[0], unescape_str(s.skip(1)))
    }
}

/// Escaping reads the text front to back as well: the first character's
/// escape, then the escape of the rest.
pub proof fn lemma_escape_front(s: Seq<char>)
    requires
        s.len() > 0,
    ensures
        escape_str(s) == escape_char(s[0]) + escape_str(s.drop_first()),
    decreases s.len(),
{
    if s.len() == 1 {
        assert(s.drop_last() =~= Seq::<char>::empty());
        assert(s.drop_first() =~= Seq::<char>::empty());
        assert(escape_str(s) =~= escape_char(s[0]) + escape_str(s.drop_first()));
    } else {
        lemma_escape_front(s.drop_last());
        assert(s.drop_last().drop_first() =~= s.drop_first().drop_last());
        assert(s.drop_first().last() == s.last());
        assert(escape_str(s) =~= escape_char(s[0]) + escape_str(s.drop_first()));
    }
}

/// Unescaping undoes escaping: every name, whatever it holds, comes back
/// from its escaped form letter for letter.
pub proof fn lemma_unescape_escape(s: Seq<char>)
    ensures
        unescape_str(escape_str(s)) == Some(s),
    decreases s.len(),
{
    if s.len() > 0 {
        lemma_escape_front(s);
        lemma_unescape_escape(s.drop_first());
        let c = s[0];
        let e = escape_str(s);
        if c == '"' {
            assert(e.skip(2) =~= escape_str(s.drop_first()));
            assert(seq!['"'] + s.drop_first() =~= s);
        } else if c == '\\' {
            assert(e.skip(2) =~= escape_str(s.drop_first()));
            assert(seq!['\\'] + s.drop_first() =~= s);
        } else if (c as nat) < 32 {
            let hi = (c as nat) / 16;
            let lo = (c as nat) % 16;
            assert(hex_val(hex_digit(hi)) == Some(hi));
            assert(hex_val(hex_digit(lo)) == Some(lo));
            assert(hi * 16 + lo == c as nat);
            vstd::utf8::char_u32_cast(c, c as u32);
            assert(((hi * 16 + lo) as nat) as char == c);
            assert(e.skip(6) =~= escape_str(s.drop_first()));
            assert(seq![c] + s.drop_first() =~= s);
        } else {
            assert(e[0] == c);
            assert(e.skip(1) =~= escape_str(s.drop_first()));
            assert(seq![c] + s.drop_first() =~= s);
        }
    }
}

/// A name made of plain characters is written into its JSON string literal
/// unchanged: no transformation at all, whatever spaces or non-ASCII
/// characters it holds.
pub proof fn lemma_escape_plain(s: Seq<char>)
    requires
        forall|i: int| 0 <= i < s.len() ==> plain_char(s[i]),
    ensures
        escape_str(s) == s,
    decreases s.len(),
{
    if s.len() > 0 {
        lemma_escape_plain(s.drop_last());
        assert(escape_str(s) =~= s);
    } else {
        assert(escape_str(s) =~= s);
    }
}

fn hex_digit_char(d: u8) -> (c: char)
    requires
        d < 16,
    ensures
        c == hex_digit(d as nat),
{
    if d < 10 {
        (48u8 + d) as char
    } else {
        (87u8 + d) as char
    }
}

fn push_escaped(r: &mut String, c: char)
    ensures
        final(r)@ == old(r)@ + escape_char(c),
{
    if c == '"' {
        r.push('\\');
        r.push('"');
    } else if c == '\\' {
        r.push('\\');
        r.push('\\');
    } else if (c as u32) < 32 {
        let d = c as u32;
        r.push('\\');
        r.push('u');
        r.push('0');
        r.push('0');
        r.push(hex_digit_char((d / 16) as u8));
        r.push(hex_digit_char((d % 16) as u8));
    } else {
        r.push(c);
    }
    assert(final(r)@ =~= old(r)@ + escape_char(c));
}

/// Escapes `s` for use inside a JSON string literal.
pub fn escape_json_string(s: &str) -> (r: String)
    ensures
        r@ == escape_str(s@),
{
    let mut r = String::new();
    for c in it: s.chars()
        invariant
            it.seq() == s@,
            r@ == escape_str(s@.take(it.index() as int)),
    {
        proof {
            assert(s@.take(it.index() as int + 1).drop_last() =~= s@.take(it.index() as int));
        }
        push_escaped(&mut r, c);
    }
    proof {
        assert(s@.take(s@.len() as int) =~= s@);
    }
    r
}

/// Appends a complete JSON string literal for `s` to `r`.
pub fn push_json_string(r: &mut String, s: &str)
    ensures
        final(r)@ == old(r)@ + json_string_lit(s@),
{
    r.push('"');
    let escaped = escape_json_string(s);
    r.append(escaped.as_str());
    r.push('"');
    assert(final(r)@ =~= old(r)@ + json_string_lit(s@));
}

/// What parsing a JSON array of strings yields on a given body text.
pub uninterp spec fn json_string_array(s: Seq<char>) -> Option<Seq<Seq<char>>>;

/// What reading one top-level string member of a JSON object yields.
pub uninterp spec fn json_string_field(s: Seq<char>, key: Seq<char>) -> Option<Seq<char>>;

/// What reading one top-level unsigned member of a JSON object yields,
/// when that number fits in sixteen bits.
pub uninterp spec fn json_u16_field(s: Seq<char>, key: Seq<char>) -> Option<u16>;

/// Relies on serde_json::from_str::<Vec<String>>: parses a JSON array of
/// strings, in order; the result depends on the body text alone.
#[verifier::external_body]
pub(crate) fn parse_string_array(s: &str) -> (r: Option<Vec<String>>)
    ensures
        r.deep_view() == json_string_array(s@),
{
    serde_json::from_str::<Vec<String>>(s).ok()
}

/// Relies on serde_json::from_str::<Value>, Value::get and Value::as_str:
/// reads the string under `key` at the top level of a JSON object; the
/// result depends on the body text and the key alone.
#[verifier::external_body]
pub(crate) fn parse_string_field(s: &str, key: &str) -> (r: Option<String>)
    ensures
        r.deep_view() == json_string_field(s@, key@),
{
    let value: serde_json::Value = match serde_json::from_str(s) {
        Ok(v) => v,
        Err(_) => return None,
    };
    match value.get(key) {
        Some(member) => member.as_str().map(|t| t.to_string()),
        None => None,
    }
}

/// Relies on serde_json::from_str::<Value>, Value::get and Value::as_u64:
/// reads the unsigned number under `key` at the top level of a JSON object,
/// if it fits in a u16; the result depends on the body text and the key alone.
#[verifier::external_body]
pub(crate) fn parse_u16_field(s: &str, key: &str) -> (r: Option<u16>)
    ensures
        r == json_u16_field(s@, key@),
{
    let value: serde_json::Value = match serde_json::from_str(s) {
        Ok(v) => v,
        Err(_) => return None,
    };
    match value.get(key) {
        Some(member) => member.as_u64().and_then(|n| u16::try_from(n).ok()),
        None => None,
    }
}

} // verus!
