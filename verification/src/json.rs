use vstd::prelude::*;

use crate::text::opt_chars;

verus! {

/// The lowercase hexadecimal digit for `d`, which is below sixteen.
pub open spec fn hex_digit(d: nat) -> char {
    if d < 10 {
        ((d + 48) as u8) as char
    } else {
        ((d + 87) as u8) as char
    }
}

/// How a JSON string writes one character: `"` and `\` behind a backslash,
/// backspace, tab, line feed, form feed and carriage return as `\b \t \n \f \r`,
/// other characters below U+0020 as `\u00xx` in lowercase hexadecimal, and every
/// other character as itself.
pub open spec fn json_escape_char(c: char) -> Seq<char> {
    if c == '"' {
        seq!['\\', '"']
    } else if c == '\\' {
        seq!['\\', '\\']
    } else if c == '\x08' {
        seq!['\\', 'b']
    } else if c == '\t' {
        seq!['\\', 't']
    } else if c == '\n' {
        seq!['\\', 'n']
    } else if c == '\x0c' {
        seq!['\\', 'f']
    } else if c == '\r' {
        seq!['\\', 'r']
    } else if (c as int) < 0x20 {
        seq!['\\', 'u', '0', '0', hex_digit((c as nat) / 16), hex_digit((c as nat) % 16)]
    } else {
        seq![c]
    }
}

/// The characters of `s`, each written as a JSON string writes it.
pub open spec fn json_escape(s: Seq<char>) -> Seq<char>
    decreases s.len(),
{
    if s.len() == 0 {
        Seq::empty()
    } else {
        json_escape_char(s[0]) + json_escape(s.drop_first())
    }
}

/// `s` as a JSON string literal: its escaped characters between double quotes.
pub open spec fn json_literal(s: Seq<char>) -> Seq<char> {
    seq!['"'] + json_escape(s) + seq!['"']
}

/// The value of a hexadecimal digit, either case.
pub open spec fn hex_value(c: char) -> Option<nat> {
    if '0' <= c && c <= '9' {
        Some((c as nat - 48) as nat)
    } else if 'a' <= c && c <= 'f' {
        Some((c as nat - 87) as nat)
    } else if 'A' <= c && c <= 'F' {
        Some((c as nat - 55) as nat)
    } else {
        None
    }
}

/// The character a two-character escape `\e` stands for.
pub open spec fn short_escape(e: char) -> Option<char> {
    if e == '"' {
        Some('"')
    } else if e == '\\' {
        Some('\\')
    } else if e == '/' {
        Some('/')
    } else if e == 'b' {
        Some('\x08')
    } else if e == 't' {
        Some('\t')
    } else if e == 'n' {
        Some('\n')
    } else if e == 'f' {
        Some('\x0c')
    } else if e == 'r' {
        Some('\r')
    } else {
        None
    }
}

/// `rest` with `c` in front, where there is a `rest`.
pub open spec fn prepend(c: char, rest: Option<Seq<char>>) -> Option<Seq<char>> {
    match rest {
        Some(r) => Some(seq![c] + r),
        None => None,
    }
}

/// The text that the body of a JSON string literal (what stands between its
/// quotes) stands for: the escapes of RFC 8259, with a `\u` escape read as the
/// character it names (escapes into the surrogate range are not read); nothing
/// where the body holds a bare `"`, a bare control character, or a malformed
/// escape.
pub open spec fn json_unescape(t: Seq<char>) -> Option<Seq<char>>
    decreases t.len(),
{
    if t.len() == 0 {
        Some(Seq::empty())
    } else if t[0] == '\\' {
        if t.len() < 2 {
            None
        } else if short_escape(t[1]) is Some {
            prepend(short_escape(t[1])->0, json_unescape(t.skip(2)))
        } else if t[1] == 'u' && t.len() >= 6 {
            match (hex_value(t[2]), hex_value(t[3]), hex_value(t[4]), hex_value(t[5])) {
                (Some(a), Some(b), Some(c), Some(d)) => {
                    let v = a * 4096 + b * 256 + c * 16 + d;
                    if v < 0xD800 || v >= 0xE000 {
                        prepend(v as char, json_unescape(t.skip(6)))
                    } else {
                        None
                    }
                },
                _ => None,
            }
        } else {
            None
        }
    } else if t[0] == '"' || (t[0] as int) < 0x20 {
        None
    } else {
        prepend(t[0], json_unescape(t.drop_first()))
    }
}

/// The text a JSON string literal stands for, if `t` is one.
pub open spec fn json_string_value(t: Seq<char>) -> Option<Seq<char>> {
    if t.len() >= 2 && t[0] == '"' && t.last() == '"' {
        json_unescape(t.subrange(1, t.len() - 1))
    } else {
        None
    }
}

proof fn lemma_hex_digit_value(d: nat)
    requires
        d < 16,
    ensures
        hex_value(hex_digit(d)) == Some(d),
{
}

proof fn lemma_unescape_escaped_char(c: char, rest: Seq<char>)
    ensures
        json_unescape(json_escape_char(c) + rest) == prepend(c, json_unescape(rest)),
{
    let t = json_escape_char(c) + rest;
    if c == '"' || c == '\\' || c == '\x08' || c == '\t' || c == '\n' || c == '\x0c' || c
        == '\r' {
        assert(t.skip(2) =~= rest);
    } else if (c as int) < 0x20 {
        let hi = (c as nat) / 16;
        let lo = (c as nat) % 16;
        lemma_hex_digit_value(0);
        lemma_hex_digit_value(hi);
        lemma_hex_digit_value(lo);
        assert(t[2] == hex_digit(0));
        assert(t[4] == hex_digit(hi));
        assert(t[5] == hex_digit(lo));
        assert(t.skip(6) =~= rest);
        assert((hi * 16 + lo) as char == c);
    } else {
        assert(t.drop_first() =~= rest);
    }
}

/// Reading back the escaped characters of `s` gives `s`.
pub proof fn lemma_json_escape_round_trip(s: Seq<char>)
    ensures
        json_unescape(json_escape(s)) == Some(s),
    decreases s.len(),
{
    if s.len() > 0 {
        lemma_json_escape_round_trip(s.drop_first());
        lemma_unescape_escaped_char(s[0], json_escape(s.drop_first()));
        assert(seq![s[0]] + s.drop_first() =~= s);
    }
}

proof fn lemma_escape_char_one_line(c: char)
    ensures
        !json_escape_char(c).contains('\n'),
{
    let head = json_escape_char(c);
    if (c as int) < 0x20 {
        lemma_hex_digit_value(0);
        lemma_hex_digit_value((c as nat) / 16);
        lemma_hex_digit_value((c as nat) % 16);
    }
    if head.contains('\n') {
        let k = choose|k: int| 0 <= k < head.len() && head[k] == '\n';
        assert(hex_value(head[k]) is None);
    }
}

/// The escaped characters of `s` hold no line feed.
pub proof fn lemma_json_escape_one_line(s: Seq<char>)
    ensures
        !json_escape(s).contains('\n'),
    decreases s.len(),
{
    if s.len() > 0 {
        lemma_json_escape_one_line(s.drop_first());
        let head = json_escape_char(s[0]);
        let tail = json_escape(s.drop_first());
        lemma_escape_char_one_line(s[0]);
        if (head + tail).contains('\n') {
            let k = choose|k: int| 0 <= k < (head + tail).len() && (head + tail)[k] == '\n';
            if k >= head.len() {
                assert(tail[k - head.len()] == '\n');
            } else {
                assert(head[k] == '\n');
            }
        }
    }
}

/// A JSON string literal stands for the text it was made from, and holds no line
/// feed: it is a single string token.
pub proof fn lemma_json_literal_reads_back(s: Seq<char>)
    ensures
        json_string_value(json_literal(s)) == Some(s),
        !json_literal(s).contains('\n'),
{
    let t = json_literal(s);
    assert(t.subrange(1, t.len() - 1) =~= json_escape(s));
    lemma_json_escape_round_trip(s);
    lemma_json_escape_one_line(s);
    if t.contains('\n') {
        let k = choose|k: int| 0 <= k < t.len() && t[k] == '\n';
        assert(json_escape(s)[k - 1] == '\n');
    }
}

/// The string held under the member `key` of the JSON object that `text` parses
/// to; nothing where `text` is not JSON, not an object, or the member is missing
/// or not a string.
pub uninterp spec fn json_member_string_of(text: Seq<char>, key: Seq<char>) -> Option<Seq<char>>;

/// Calls `serde_json::to_string` on a string. serde_json serialises a `str` into
/// a `Vec<u8>`, which cannot fail, writing a `"`, each character as
/// [`json_escape_char`] states, and a closing `"`.
#[verifier::external_body]
pub(crate) fn to_json_string(s: &str) -> (r: Option<String>)
    ensures
        opt_chars(r) == Some(json_literal(s@)),
{
    serde_json::to_string(s).ok()
}

/// Builds the `serde_json::Value` object with the one member `key` holding the
/// string `value`, and writes it with its `Display` impl: compact JSON, `{`, the
/// key's literal, `:`, the value's literal, `}`.
#[verifier::external_body]
pub(crate) fn json_object_text(key: &str, value: &str) -> (r: String)
    ensures
        r@ == seq!['{'] + json_literal(key@) + seq![':'] + json_literal(value@) + seq!['}'],
{
    let mut object = serde_json::Map::new();
    object.insert(key.to_string(), serde_json::Value::String(value.to_string()));
    serde_json::Value::Object(object).to_string()
}

/// Parses `text` with `serde_json::from_str` into a `serde_json::Value`, indexes
/// it by `key` (which gives `Null` for a missing member or a non-object) and reads
/// that with `as_str`. The result is named by `json_member_string_of`.
#[verifier::external_body]
pub(crate) fn json_member_string(text: &str, key: &str) -> (r: Option<String>)
    ensures
        opt_chars(r) == json_member_string_of(text@, key@),
{
    match serde_json::from_str::<serde_json::Value>(text) {
        Ok(value) => value[key].as_str().map(|m| m.to_string()),
        Err(_) => None,
    }
}

} // verus!
