//! Verified construction of the gateway's JSON wire text: string escaping
//! and the transport-error envelope. The field order of every envelope is
//! alphabetical, matching a serializer that keeps objects as ordered maps.

use vstd::prelude::*;
use vstd::string::StrSliceExecFns;
use vstd::string::StringExecFns;
use crate::text::push_char;

verus! {

/// The lowercase hex digit for a value below sixteen.
pub open spec fn hex_char(d: nat) -> char
    recommends
        d < 16,
{
    if d < 10 {
        (('0' as u8) + d) as char
    } else {
        (('a' as u8) + (d - 10)) as char
    }
}

/// How one character is written inside a JSON string: quote and backslash
/// get a backslash escape, the named control characters their short form,
/// the remaining control characters a `\u00XX` form, and everything else
/// stands as itself.
pub open spec fn escape_char(c: char) -> Seq<char> {
    if c == '"' {
        seq!['\\', '"']
    } else if c == '\\' {
        seq!['\\', '\\']
    } else if c == '\u{08}' {
        seq!['\\', 'b']
    } else if c == '\t' {
        seq!['\\', 't']
    } else if c == '\n' {
        seq!['\\', 'n']
    } else if c == '\u{0C}' {
        seq!['\\', 'f']
    } else if c == '\r' {
        seq!['\\', 'r']
    } else if (c as nat) < 0x20 {
        seq!['\\', 'u', '0', '0', hex_char((c as nat) / 16), hex_char((c as nat) % 16)]
    } else {
        seq![c]
    }
}

/// The body of a JSON string: each character escaped, in order.
pub open spec fn json_escaped(s: Seq<char>) -> Seq<char>
    decreases s.len(),
{
    if s.len() == 0 {
        Seq::empty()
    } else {
        json_escaped(s.drop_last()) + escape_char(s.last())
    }
}

/// A complete JSON string literal: quotes around the escaped body.
pub open spec fn json_string(s: Seq<char>) -> Seq<char> {
    seq!['"'] + json_escaped(s) + seq!['"']
}

/// Appends the escaped form of one character.
fn append_escaped_char(out: &mut String, c: char)
    ensures
        final(out)@ == old(out)@ + escape_char(c),
{
    if c == '"' {
        out.append("\\\"");
        proof { reveal_strlit("\\\""); }
        assert("\\\""@ == escape_char(c));
    } else if c == '\\' {
        out.append("\\\\");
        proof { reveal_strlit("\\\\"); }
        assert("\\\\"@ == escape_char(c));
    } else if c == '\u{08}' {
        out.append("\\b");
        proof { reveal_strlit("\\b"); }
        assert("\\b"@ == escape_char(c));
    } else if c == '\t' {
        out.append("\\t");
        proof { reveal_strlit("\\t"); }
        assert("\\t"@ == escape_char(c));
    } else if c == '\n' {
        out.append("\\n");
        proof { reveal_strlit("\\n"); }
        assert("\\n"@ == escape_char(c));
    } else if c == '\u{0C}' {
        out.append("\\f");
        proof { reveal_strlit("\\f"); }
        assert("\\f"@ == escape_char(c));
    } else if c == '\r' {
        out.append("\\r");
        proof { reveal_strlit("\\r"); }
        assert("\\r"@ == escape_char(c));
    } else if (c as u32) < 0x20 {
        out.append("\\u00");
        proof { reveal_strlit("\\u00"); }
        let v: u32 = c as u32;
        let hi: u8 = (v / 16) as u8;
        let lo: u8 = (v % 16) as u8;
        let hi_c: char = if hi < 10 {
            (('0' as u8) + hi) as char
        } else {
            (('a' as u8) + (hi - 10)) as char
        };
        let lo_c: char = if lo < 10 {
            (('0' as u8) + lo) as char
        } else {
            (('a' as u8) + (lo - 10)) as char
        };
        push_char(out, hi_c);
        push_char(out, lo_c);
        assert(final(out)@ =~= old(out)@ + escape_char(c));
    } else {
        push_char(out, c);
        assert(final(out)@ =~= old(out)@ + escape_char(c));
    }
}

/// Appends the escaped body of `s`.
fn append_escaped(out: &mut String, s: &str)
    ensures
        final(out)@ == old(out)@ + json_escaped(s@),
{
    let n = s.unicode_len();
    let mut i: usize = 0;
    while i < n
        invariant
            n == s@.len(),
            0 <= i <= n,
            out@ == old(out)@ + json_escaped(s@.take(i as int)),
        decreases n - i,
    {
        let c = s.get_char(i);
        append_escaped_char(out, c);
        proof {
            assert(s@.take(i + 1).drop_last() == s@.take(i as int));
            assert(s@.take(i + 1).last() == s@[i as int]);
            assert(json_escaped(s@.take(i + 1)) == json_escaped(s@.take(i as int))
                + escape_char(s@[i as int]));
        }
        i = i + 1;
    }
    assert(s@.take(n as int) == s@);
}

/// Appends `s` as a quoted, escaped JSON string.
pub fn append_json_string(out: &mut String, s: &str)
    ensures
        final(out)@ == old(out)@ + json_string(s@),
{
    push_char(out, '"');
    append_escaped(out, s);
    push_char(out, '"');
    assert(final(out)@ =~= old(out)@ + json_string(s@));
}

/// The gateway's transport-error envelope:
/// `{"error":{"code":C,"message":M,"trace_id":T}}` with each field a JSON
/// string.
pub open spec fn spec_error_envelope(code: Seq<char>, message: Seq<char>, trace_id: Seq<char>) -> Seq<char> {
    "{\"error\":{\"code\":"@ + json_string(code) + ",\"message\":"@ + json_string(message)
        + ",\"trace_id\":"@ + json_string(trace_id) + "}}"@
}

/// Renders the transport-error envelope for the given code, human-readable
/// message and trace identifier.
pub fn error_envelope(code: &str, message: &str, trace_id: &str) -> (r: String)
    ensures
        r@ == spec_error_envelope(code@, message@, trace_id@),
{
    let mut out = String::new();
    out.append("{\"error\":{\"code\":");
    append_json_string(&mut out, code);
    out.append(",\"message\":");
    append_json_string(&mut out, message);
    out.append(",\"trace_id\":");
    append_json_string(&mut out, trace_id);
    out.append("}}");
    assert(out@ =~= spec_error_envelope(code@, message@, trace_id@));
    out
}

} // verus!
