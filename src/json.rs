//! The one-shot listing as JSON text.

use vstd::prelude::*;
use crate::process::DisplayProcessInfo;
use crate::text::{chars_of, decimal_text, push_char, signed_decimal};

verus! {

/// The lowercase hexadecimal digits, in order of value.
pub open spec fn hex_chars() -> Seq<char> {
    seq!['0', '1', '2', '3', '4', '5', '6', '7', '8', '9', 'a', 'b', 'c', 'd', 'e', 'f']
}

/// How one character is written inside a JSON string: quote and backslash
/// behind a backslash, control characters as `\u00XX`, the rest as they are.
pub open spec fn escaped_char(c: char) -> Seq<char> {
    if c == '"' {
        seq!['\\', '"']
    } else if c == '\\' {
        seq!['\\', '\\']
    } else if (c as u32) < 0x20 {
        seq!['\\', 'u', '0', '0', hex_chars()[(c as u32 / 16) as int], hex_chars()[(c as u32 % 16) as int]]
    } else {
        seq![c]
    }
}

/// The characters of `s` written inside a JSON string.
pub open spec fn escaped(s: Seq<char>) -> Seq<char>
    decreases s.len(),
{
    if s.len() == 0 {
        Seq::empty()
    } else {
        escaped(s.drop_last()) + escaped_char(s.last())
    }
}

/// `s` as a JSON string literal.
pub open spec fn quoted(s: Seq<char>) -> Seq<char> {
    seq!['"'] + escaped(s) + seq!['"']
}

/// One listing row as a JSON object.
pub open spec fn row_json(r: DisplayProcessInfo) -> Seq<char> {
    "{\"pid\":"@ + signed_decimal(r.pid as int) + ",\"name\":"@ + quoted(r.name@) + ",\"ports\":"@
        + quoted(r.ports@) + ",\"command\":"@ + quoted(r.command@) + "}"@
}

/// The rows `rows` as the items of a JSON array, comma separated.
pub open spec fn rows_json(rows: Seq<DisplayProcessInfo>) -> Seq<char>
    decreases rows.len(),
{
    if rows.len() == 0 {
        Seq::empty()
    } else if rows.len() == 1 {
        row_json(rows[0])
    } else {
        rows_json(rows.drop_last()) + ","@ + row_json(rows.last())
    }
}

/// `s` as a JSON string literal.
pub fn json_quoted(s: &str) -> (r: String)
    ensures
        r@ == quoted(s@),
{
    let hex = chars_of("0123456789abcdef");
    proof {
        reveal_strlit("0123456789abcdef");
        assert(hex@ =~= hex_chars());
    }
    let chars = chars_of(s);
    let mut out = String::new();
    push_char(&mut out, '"');
    let mut i: usize = 0;
    while i < chars.len()
        invariant
            i <= chars.len(),
            chars@ == s@,
            hex@ == hex_chars(),
            out@ == seq!['"'] + escaped(chars@.subrange(0, i as int)),
        decreases chars.len() - i,
    {
        let c = chars[i];
        let ghost before = out@;
        if c == '"' {
            push_char(&mut out, '\\');
            push_char(&mut out, '"');
        } else if c == '\\' {
            push_char(&mut out, '\\');
            push_char(&mut out, '\\');
        } else if (c as u32) < 0x20 {
            push_char(&mut out, '\\');
            push_char(&mut out, 'u');
            push_char(&mut out, '0');
            push_char(&mut out, '0');
            push_char(&mut out, hex[(c as u32 / 16) as usize]);
            push_char(&mut out, hex[(c as u32 % 16) as usize]);
        } else {
            push_char(&mut out, c);
        }
        proof {
            assert(out@ =~= before + escaped_char(c));
            assert(chars@.subrange(0, i + 1).drop_last() =~= chars@.subrange(0, i as int));
            assert(chars@.subrange(0, i + 1).last() == c);
        }
        i = i + 1;
    }
    push_char(&mut out, '"');
    proof {
        assert(chars@.subrange(0, chars.len() as int) =~= s@);
        assert(out@ =~= quoted(s@));
    }
    out
}

/// One listing row as a JSON object.
pub fn row_to_json(r: &DisplayProcessInfo) -> (t: String)
    ensures
        t@ == row_json(*r),
{
    let t = String::from_str("{\"pid\":");
    let t = t.concat(decimal_text(r.pid as i64).as_str());
    let t = t.concat(",\"name\":");
    let t = t.concat(json_quoted(r.name.as_str()).as_str());
    let t = t.concat(",\"ports\":");
    let t = t.concat(json_quoted(r.ports.as_str()).as_str());
    let t = t.concat(",\"command\":");
    let t = t.concat(json_quoted(r.command.as_str()).as_str());
    let t = t.concat("}");
    t
}

/// The listing as a JSON array of objects with fields pid, name, ports and command.
pub fn rows_to_json(rows: &Vec<DisplayProcessInfo>) -> (t: String)
    ensures
        t@ == seq!['['] + rows_json(rows@) + seq![']'],
{
    let mut body = String::new();
    let mut i: usize = 0;
    while i < rows.len()
        invariant
            i <= rows.len(),
            body@ == rows_json(rows@.subrange(0, i as int)),
        decreases rows.len() - i,
    {
        proof {
            assert(rows@.subrange(0, i + 1).drop_last() =~= rows@.subrange(0, i as int));
            assert(rows@.subrange(0, i + 1).last() == rows@[i as int]);
        }
        if i > 0 {
            body.append(",");
        }
        body.append(row_to_json(&rows[i]).as_str());
        i = i + 1;
    }
    assert(rows@.subrange(0, rows.len() as int) =~= rows@);
    let t = String::from_str("[");
    let t = t.concat(body.as_str());
    let t = t.concat("]");
    proof {
        reveal_strlit("[");
        reveal_strlit("]");
        assert(t@ =~= seq!['['] + rows_json(rows@) + seq![']']);
    }
    t
}

} // verus!
