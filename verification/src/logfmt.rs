//! A logfmt marshaller: log record fields become `key=value` attribute pairs.
//! Keys are normalized (characters that logfmt forbids are removed, an empty
//! key becomes `_`, duplicate keys are dropped) and values are escaped and
//! quoted when they hold characters that would break the format.

use vstd::prelude::*;

use crate::text::{
    chars_to_string, is_control_char, push_hex_u32, spec_hex_digits, spec_is_control,
};
use vstd::string::StrSliceExecFns;

verus! {

/// A character that may not appear in a logfmt key.
pub open spec fn spec_is_invalid_key_char(c: char) -> bool {
    c == ' ' || c == '=' || c == '"'
}

/// `s` with every character that logfmt forbids in keys removed.
pub open spec fn spec_strip_key(s: Seq<char>) -> Seq<char>
    decreases s.len(),
{
    if s.len() == 0 {
        Seq::empty()
    } else if spec_is_invalid_key_char(s.last()) {
        spec_strip_key(s.drop_last())
    } else {
        spec_strip_key(s.drop_last()).push(s.last())
    }
}

/// The normalized form of a key: forbidden characters removed, and a key left
/// empty by that replaced by a single underscore.
pub open spec fn spec_normalize_key(s: Seq<char>) -> Seq<char> {
    if spec_strip_key(s).len() == 0 {
        seq!['_']
    } else {
        spec_strip_key(s)
    }
}

/// A character whose presence in a value forces the value to be quoted.
pub open spec fn spec_char_needs_quotes(c: char) -> bool {
    c == '\\' || c == '"' || c == ' ' || c == '=' || c == '\n' || c == '\r' || c == '\t'
        || spec_is_control(c)
}

/// The escaped rendering of one value character. Backslashes and double
/// quotes are backslash-escaped; newline, carriage return and tab are
/// backslash-prefixed only when `escape_newlines` is set; any other control
/// character becomes its `\u{..}` escape sequence.
pub open spec fn spec_escape_char(c: char, escape_newlines: bool) -> Seq<char> {
    if c == '\\' || c == '"' {
        seq!['\\', c]
    } else if c == ' ' || c == '=' {
        seq![c]
    } else if c == '\n' || c == '\r' || c == '\t' {
        if escape_newlines {
            seq!['\\', c]
        } else {
            seq![c]
        }
    } else if spec_is_control(c) {
        seq!['\\', 'u', '{'] + spec_hex_digits((c as u32) as nat) + seq!['}']
    } else {
        seq![c]
    }
}

/// The concatenation of the escaped renderings of the characters of `s`.
pub open spec fn spec_escape_body(s: Seq<char>, escape_newlines: bool) -> Seq<char>
    decreases s.len(),
{
    if s.len() == 0 {
        Seq::empty()
    } else {
        spec_escape_body(s.drop_last(), escape_newlines) + spec_escape_char(
            s.last(),
            escape_newlines,
        )
    }
}

/// Whether some character of `s` forces the value to be quoted.
pub open spec fn spec_value_needs_quotes(s: Seq<char>) -> bool {
    exists|i: int| 0 <= i < s.len() && spec_char_needs_quotes(s[i])
}

/// The formatted rendering of a value: its escaped body, wrapped in double
/// quotes when any of its characters requires quoting.
pub open spec fn spec_escape_value(s: Seq<char>, escape_newlines: bool) -> Seq<char> {
    if spec_value_needs_quotes(s) {
        seq!['"'] + spec_escape_body(s, escape_newlines) + seq!['"']
    } else {
        spec_escape_body(s, escape_newlines)
    }
}

/// Whether the attribute list already holds an entry under key `k`.
pub open spec fn spec_has_key(attrs: Seq<(Seq<char>, Seq<char>)>, k: Seq<char>) -> bool {
    exists|i: int| 0 <= i < attrs.len() && attrs[i].0 == k
}

/// The attribute list after writing the pair `(key, val)`: the key is
/// normalized, the value escaped, and a pair whose normalized key is already
/// present is dropped.
pub open spec fn spec_write_pair(
    attrs: Seq<(Seq<char>, Seq<char>)>,
    key: Seq<char>,
    val: Seq<char>,
    escape_newlines: bool,
) -> Seq<(Seq<char>, Seq<char>)> {
    let nk = spec_normalize_key(key);
    if spec_has_key(attrs, nk) {
        attrs
    } else {
        attrs.push((nk, spec_escape_value(val, escape_newlines)))
    }
}

/// Selects which fields of a log record the logfmt formatter renders into the
/// attribute list.
#[derive(Clone, Copy, PartialEq, Eq, Structural, Debug)]
pub struct LogfmtAutoFields {
    /// Write a `level` attribute with the record's level.
    pub level: bool,
    /// Write a `message` attribute with the record's message, when non-empty.
    pub message: bool,
    /// Write a `target` attribute with the record's target, when non-empty.
    pub target: bool,
    /// Write a `module` attribute when the record carries a module path.
    pub module: bool,
    /// Write a `file` attribute when the record carries a file name.
    pub file: bool,
    /// Write a `line` attribute when the record carries a line number.
    pub line: bool,
}

impl Default for LogfmtAutoFields {
    /// The default selection: the level and the module path.
    fn default() -> (r: Self)
        ensures
            r.level && r.module,
            !r.message && !r.target && !r.file && !r.line,
    {
        LogfmtAutoFields {
            level: true,
            message: false,
            target: false,
            module: true,
            file: false,
            line: false,
        }
    }
}

/// Marshals log records using the logfmt plain-text format. Which record
/// fields are rendered is chosen by `include_fields`; `escape_newlines`
/// selects whether newline, carriage return and tab get a backslash prefix.
#[derive(Debug)]
pub struct LogfmtFormatter {
    /// Which record fields are rendered.
    pub include_fields: LogfmtAutoFields,
    /// Whether newline, carriage return and tab get a backslash prefix.
    pub escape_newlines: bool,
}

impl Default for LogfmtFormatter {
    /// A formatter with the default field selection and no newline escaping.
    fn default() -> (r: Self)
        ensures
            r.include_fields.level && r.include_fields.module,
            !r.include_fields.message && !r.include_fields.target,
            !r.include_fields.file && !r.include_fields.line,
            !r.escape_newlines,
    {
        LogfmtFormatter { include_fields: LogfmtAutoFields::default(), escape_newlines: false }
    }
}

impl LogfmtFormatter {
    /// Creates a formatter that renders the fields chosen by `include_fields`
    /// and escapes newline-like characters when `escape_newlines` is set.
    pub fn new(include_fields: LogfmtAutoFields, escape_newlines: bool) -> (r: Self)
        ensures
            r.include_fields == include_fields,
            r.escape_newlines == escape_newlines,
    {
        LogfmtFormatter { include_fields, escape_newlines }
    }

    /// Writes one key-value pair into the attribute list: the key normalized,
    /// the value escaped, a duplicate normalized key dropped.
    pub fn write_pair(&self, attributes: &mut Vec<(String, String)>, key: String, val: &str)
        ensures
            final(attributes).deep_view() == spec_write_pair(
                old(attributes).deep_view(),
                key@,
                val@,
                self.escape_newlines,
            ),
    {
        let normalized = normalize_key(key.as_str());
        if has_key(attributes, &normalized) {
            return;
        }
        let formatted = escape_value(val, self.escape_newlines);
        attributes.push((normalized, formatted));
        assert(attributes.deep_view() =~= spec_write_pair(
            old(attributes).deep_view(),
            key@,
            val@,
            self.escape_newlines,
        ));
    }
}

/// Normalizes a logfmt key: removes forbidden characters and replaces a key
/// left empty by a single underscore.
pub fn normalize_key(key: &str) -> (r: String)
    ensures
        r@ == spec_normalize_key(key@),
{
    let len = key.unicode_len();
    let mut kept: Vec<char> = Vec::new();
    let mut i: usize = 0;
    while i < len
        invariant
            i <= len,
            len == key@.len(),
            kept@ == spec_strip_key(key@.take(i as int)),
        decreases len - i,
    {
        let c = key.get_char(i);
        assert(key@.take(i + 1).drop_last() =~= key@.take(i as int));
        if !(c == ' ' || c == '=' || c == '"') {
            kept.push(c);
        }
        i += 1;
    }
    assert(key@.take(len as int) =~= key@);
    if kept.len() == 0 {
        kept.push('_');
    }
    chars_to_string(&kept)
}

/// Formats a logfmt value: escapes its characters and wraps the result in
/// double quotes when any character requires quoting.
pub fn escape_value(val: &str, escape_newlines: bool) -> (r: String)
    ensures
        r@ == spec_escape_value(val@, escape_newlines),
{
    let len = val.unicode_len();
    let mut body: Vec<char> = Vec::new();
    let mut need_quotes = false;
    let mut i: usize = 0;
    while i < len
        invariant
            i <= len,
            len == val@.len(),
            body@ == spec_escape_body(val@.take(i as int), escape_newlines),
            need_quotes == spec_value_needs_quotes(val@.take(i as int)),
        decreases len - i,
    {
        let c = val.get_char(i);
        let ghost prefix = val@.take(i as int);
        assert(val@.take(i + 1).drop_last() =~= prefix);
        assert(val@.take(i + 1).last() == c);
        if c == '\\' || c == '"' {
            need_quotes = true;
            body.push('\\');
            body.push(c);
        } else if c == ' ' || c == '=' {
            need_quotes = true;
            body.push(c);
        } else if c == '\n' || c == '\r' || c == '\t' {
            need_quotes = true;
            if escape_newlines {
                body.push('\\');
            }
            body.push(c);
        } else if is_control_char(c) {
            need_quotes = true;
            body.push('\\');
            body.push('u');
            body.push('{');
            push_hex_u32(c as u32, &mut body);
            body.push('}');
        } else {
            body.push(c);
        }
        assert(body@ =~= spec_escape_body(prefix, escape_newlines) + spec_escape_char(
            c,
            escape_newlines,
        ));
        proof {
            if spec_char_needs_quotes(c) {
                assert(spec_value_needs_quotes(val@.take(i + 1)));
            } else if spec_value_needs_quotes(prefix) {
                let j = choose|j: int| 0 <= j < prefix.len() && spec_char_needs_quotes(prefix[j]);
                assert(spec_char_needs_quotes(val@.take(i + 1)[j]));
            } else {
                assert(forall|j: int|
                    0 <= j < i + 1 ==> !spec_char_needs_quotes(#[trigger] val@.take(i + 1)[j]));
            }
        }
        i += 1;
    }
    assert(val@.take(len as int) =~= val@);
    if need_quotes {
        let mut quoted: Vec<char> = Vec::new();
        quoted.push('"');
        quoted.append(&mut body);
        quoted.push('"');
        assert(quoted@ =~= seq!['"'] + spec_escape_body(val@, escape_newlines) + seq!['"']);
        chars_to_string(&quoted)
    } else {
        chars_to_string(&body)
    }
}

/// Whether the attribute list already holds `key`.
fn has_key(attributes: &Vec<(String, String)>, key: &String) -> (r: bool)
    ensures
        r == spec_has_key(attributes.deep_view(), key@),
{
    let mut i: usize = 0;
    while i < attributes.len()
        invariant
            i <= attributes@.len(),
            forall|j: int| 0 <= j < i ==> (#[trigger] attributes.deep_view()[j]).0 != key@,
        decreases attributes@.len() - i,
    {
        if attributes[i].0.eq(key) {
            assert(attributes.deep_view()[i as int].0 == key@);
            return true;
        }
        i += 1;
    }
    false
}

} // verus!
