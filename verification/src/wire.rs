//! The Loki push wire format: a batch is one JSON object,
//! `{"streams":[{"stream":{..labels..},"values":[[ts,line],..]}]}`, with
//! timestamps rendered as decimal strings and every string JSON-escaped.

use vstd::prelude::*;

use crate::text::{chars_to_string, hex_digit_char, push_dec_u128, spec_dec_digits, spec_hex_digit};
use vstd::string::{StrSliceExecFns, StringExecFns};

verus! {

/// The JSON rendering of one string character: double quote and backslash are
/// backslash-escaped, the common control characters take their short escapes,
/// any other control character below 0x20 its four-digit `\u` escape.
pub open spec fn spec_json_escape_char(c: char) -> Seq<char> {
    if c == '"' {
        seq!['\\', '"']
    } else if c == '\\' {
        seq!['\\', '\\']
    } else if c == '\n' {
        seq!['\\', 'n']
    } else if c == '\r' {
        seq!['\\', 'r']
    } else if c == '\t' {
        seq!['\\', 't']
    } else if c == '\u{8}' {
        seq!['\\', 'b']
    } else if c == '\u{c}' {
        seq!['\\', 'f']
    } else if (c as u32) < 0x20 {
        seq!['\\', 'u', '0', '0'] + seq![
            spec_hex_digit(((c as u32) / 16) as nat),
            spec_hex_digit(((c as u32) % 16) as nat),
        ]
    } else {
        seq![c]
    }
}

/// The JSON escaping of a whole string, character by character.
pub open spec fn spec_json_escape(s: Seq<char>) -> Seq<char>
    decreases s.len(),
{
    if s.len() == 0 {
        Seq::empty()
    } else {
        spec_json_escape(s.drop_last()) + spec_json_escape_char(s.last())
    }
}

/// A JSON string literal: the escaped text in double quotes.
pub open spec fn spec_json_string(s: Seq<char>) -> Seq<char> {
    seq!['"'] + spec_json_escape(s) + seq!['"']
}

/// One label rendered as a JSON object member, `"key":"value"`.
pub open spec fn spec_label_item(p: (Seq<char>, Seq<char>)) -> Seq<char> {
    spec_json_string(p.0) + seq![':'] + spec_json_string(p.1)
}

/// The comma-joined members of the label object.
pub open spec fn spec_label_members(labels: Seq<(Seq<char>, Seq<char>)>) -> Seq<char>
    decreases labels.len(),
{
    if labels.len() == 0 {
        Seq::empty()
    } else if labels.len() == 1 {
        spec_label_item(labels[0])
    } else {
        spec_label_members(labels.drop_last()) + seq![','] + spec_label_item(labels.last())
    }
}

/// One entry rendered as a JSON value pair, `["<timestamp>","<line>"]`.
pub open spec fn spec_value_item(e: (u128, Seq<char>)) -> Seq<char> {
    seq!['[', '"'] + spec_dec_digits(e.0 as nat) + seq!['"', ','] + spec_json_string(e.1) + seq![
        ']',
    ]
}

/// The comma-joined elements of the values array.
pub open spec fn spec_value_elements(entries: Seq<(u128, Seq<char>)>) -> Seq<char>
    decreases entries.len(),
{
    if entries.len() == 0 {
        Seq::empty()
    } else if entries.len() == 1 {
        spec_value_item(entries[0])
    } else {
        spec_value_elements(entries.drop_last()) + seq![','] + spec_value_item(entries.last())
    }
}

/// The whole wire body for one batch: one stream carrying the label object
/// and the timestamped lines.
pub open spec fn spec_wire_body(
    labels: Seq<(Seq<char>, Seq<char>)>,
    entries: Seq<(u128, Seq<char>)>,
) -> Seq<char> {
    "{\"streams\":[{\"stream\":{"@ + spec_label_members(labels) + "},\"values\":["@
        + spec_value_elements(entries) + "]}]}"@
}

/// Renders `s` as a JSON string literal, escaped and quoted.
pub fn json_string(s: &str) -> (r: String)
    ensures
        r@ == spec_json_string(s@),
{
    let len = s.unicode_len();
    let mut out: Vec<char> = Vec::new();
    out.push('"');
    let mut i: usize = 0;
    while i < len
        invariant
            i <= len,
            len == s@.len(),
            out@ == seq!['"'] + spec_json_escape(s@.take(i as int)),
        decreases len - i,
    {
        let c = s.get_char(i);
        let ghost prefix = s@.take(i as int);
        assert(s@.take(i + 1).drop_last() =~= prefix);
        assert(s@.take(i + 1).last() == c);
        if c == '"' {
            out.push('\\');
            out.push('"');
        } else if c == '\\' {
            out.push('\\');
            out.push('\\');
        } else if c == '\n' {
            out.push('\\');
            out.push('n');
        } else if c == '\r' {
            out.push('\\');
            out.push('r');
        } else if c == '\t' {
            out.push('\\');
            out.push('t');
        } else if c == '\u{8}' {
            out.push('\\');
            out.push('b');
        } else if c == '\u{c}' {
            out.push('\\');
            out.push('f');
        } else if (c as u32) < 0x20 {
            out.push('\\');
            out.push('u');
            out.push('0');
            out.push('0');
            out.push(hex_digit_char((c as u32 / 16) as u8));
            out.push(hex_digit_char((c as u32 % 16) as u8));
        } else {
            out.push(c);
        }
        assert(out@ =~= seq!['"'] + (spec_json_escape(prefix) + spec_json_escape_char(c)));
        i += 1;
    }
    assert(s@.take(len as int) =~= s@);
    out.push('"');
    assert(out@ =~= spec_json_string(s@));
    chars_to_string(&out)
}

/// Renders `n` as decimal text.
pub fn dec_string_u128(n: u128) -> (r: String)
    ensures
        r@ == spec_dec_digits(n as nat),
{
    let mut digits: Vec<char> = Vec::new();
    push_dec_u128(n, &mut digits);
    assert(digits@ =~= spec_dec_digits(n as nat));
    chars_to_string(&digits)
}

/// Serializes one batch to the wire body: its labels, then its entries.
pub fn serialize_wire_body(labels: &Vec<(String, String)>, entries: &Vec<(u128, String)>) -> (r:
    String)
    ensures
        r@ == spec_wire_body(labels.deep_view(), entries.deep_view()),
{
    proof {
        reveal_strlit(",");
        reveal_strlit(":");
        reveal_strlit("]}]}");
    }
    let ghost ldv = labels.deep_view();
    let ghost edv = entries.deep_view();
    let mut out = String::new();
    out.append("{\"streams\":[{\"stream\":{");

    let mut i: usize = 0;
    while i < labels.len()
        invariant
            i <= labels@.len(),
            ldv == labels.deep_view(),
            ldv.len() == labels@.len(),
            out@ == "{\"streams\":[{\"stream\":{"@ + spec_label_members(ldv.take(i as int)),
        decreases labels@.len() - i,
    {
        proof {
            reveal_strlit(",");
            reveal_strlit(":");
        }
        assert(ldv.take(i + 1).drop_last() =~= ldv.take(i as int));
        assert(ldv.take(i + 1).last() == ldv[i as int]);
        if i > 0 {
            out.append(",");
        }
        let key = json_string(labels[i].0.as_str());
        out.append(key.as_str());
        out.append(":");
        let value = json_string(labels[i].1.as_str());
        out.append(value.as_str());
        assert(ldv[i as int] == (labels@[i as int].0@, labels@[i as int].1@));
        assert(out@ =~= "{\"streams\":[{\"stream\":{"@ + spec_label_members(ldv.take(i + 1)));
        i += 1;
    }
    assert(ldv.take(labels.len() as int) =~= ldv);

    out.append("},\"values\":[");
    let ghost head = "{\"streams\":[{\"stream\":{"@ + spec_label_members(ldv)
        + "},\"values\":["@;
    assert(out@ =~= head);

    let mut j: usize = 0;
    while j < entries.len()
        invariant
            j <= entries@.len(),
            edv == entries.deep_view(),
            edv.len() == entries@.len(),
            out@ == head + spec_value_elements(edv.take(j as int)),
        decreases entries@.len() - j,
    {
        proof {
            reveal_strlit(",");
            reveal_strlit("[\"");
            reveal_strlit("\",");
            reveal_strlit("]");
        }
        assert(edv.take(j + 1).drop_last() =~= edv.take(j as int));
        assert(edv.take(j + 1).last() == edv[j as int]);
        if j > 0 {
            out.append(",");
        }
        out.append("[\"");
        let ts = dec_string_u128(entries[j].0);
        out.append(ts.as_str());
        out.append("\",");
        let line = json_string(entries[j].1.as_str());
        out.append(line.as_str());
        out.append("]");
        assert(edv[j as int] == (entries@[j as int].0, entries@[j as int].1@));
        assert(out@ =~= head + spec_value_elements(edv.take(j + 1)));
        j += 1;
    }
    assert(edv.take(entries.len() as int) =~= edv);

    out.append("]}]}");
    assert(out@ =~= spec_wire_body(ldv, edv));
    out
}

} // verus!
