//! The record abstraction consumed by formatters: a log record exposes its
//! level, message, target, module path, file and line, and a formatter turns
//! one record into the line text and the attribute pairs shipped to Loki.

use vstd::prelude::*;

use crate::logfmt::{spec_write_pair, LogfmtFormatter};
use vstd::string::StrSliceExecFns;

verus! {

/// The mathematical content of a log record: what each accessor returns.
pub ghost struct RecordModel {
    pub level: Seq<char>,
    pub message: Seq<char>,
    pub target: Seq<char>,
    pub module: Option<Seq<char>>,
    pub file: Option<Seq<char>>,
    pub line: Option<Seq<char>>,
}

/// A log record as a formatter reads it. Adapters for concrete logging
/// frameworks implement this by exposing their record's fields.
pub trait FormatLog {
    /// The record's field values.
    spec fn model(&self) -> RecordModel;

    /// The record's level, as lower-case text.
    fn level(&self) -> (r: String)
        ensures
            r@ == self.model().level,
    ;

    /// The record's message.
    fn message(&self) -> (r: String)
        ensures
            r@ == self.model().message,
    ;

    /// The record's target.
    fn target(&self) -> (r: String)
        ensures
            r@ == self.model().target,
    ;

    /// The record's module path, when it carries one.
    fn module(&self) -> (r: Option<String>)
        ensures
            r.deep_view() == self.model().module,
    ;

    /// The record's source file, when it carries one.
    fn file(&self) -> (r: Option<String>)
        ensures
            r.deep_view() == self.model().file,
    ;

    /// The record's source line, as decimal text, when it carries one.
    fn line(&self) -> (r: Option<String>)
        ensures
            r.deep_view() == self.model().line,
    ;
}

/// A log record held as plain values. The adapter that bridges a logging
/// framework builds one of these from the framework's record type.
#[derive(Debug, Clone)]
pub struct LogRecord {
    /// The level, as lower-case text.
    pub level: String,
    /// The message text.
    pub message: String,
    /// The target of the log directive.
    pub target: String,
    /// The module path, if known.
    pub module: Option<String>,
    /// The source file, if known.
    pub file: Option<String>,
    /// The source line as decimal text, if known.
    pub line: Option<String>,
}

impl FormatLog for LogRecord {
    open spec fn model(&self) -> RecordModel {
        RecordModel {
            level: self.level@,
            message: self.message@,
            target: self.target@,
            module: self.module.deep_view(),
            file: self.file.deep_view(),
            line: self.line.deep_view(),
        }
    }

    fn level(&self) -> (r: String) {
        self.level.clone()
    }

    fn message(&self) -> (r: String) {
        self.message.clone()
    }

    fn target(&self) -> (r: String) {
        self.target.clone()
    }

    fn module(&self) -> (r: Option<String>) {
        clone_opt_string(&self.module)
    }

    fn file(&self) -> (r: Option<String>) {
        clone_opt_string(&self.file)
    }

    fn line(&self) -> (r: Option<String>) {
        clone_opt_string(&self.line)
    }
}

fn clone_opt_string(s: &Option<String>) -> (r: Option<String>)
    ensures
        r.deep_view() == s.deep_view(),
{
    match s {
        Some(v) => Some(v.clone()),
        None => None,
    }
}

/// A formatter marshals one log record into the line text handed to the
/// delivery engine and into the record's attribute pairs.
pub trait LokiFormatter {
    /// The line text produced for a record with the given field values.
    spec fn spec_log_line(&self, rec: RecordModel) -> Seq<char>;

    /// The attribute pairs produced for a record with the given field values.
    spec fn spec_attributes(&self, rec: RecordModel) -> Seq<(Seq<char>, Seq<char>)>;

    /// The line text for `rec`.
    fn log_line<R: FormatLog>(&self, rec: &R) -> (r: String)
        ensures
            r@ == self.spec_log_line(rec.model()),
    ;

    /// The attribute pairs for `rec`.
    fn attributes<R: FormatLog>(&self, rec: &R) -> (r: Vec<(String, String)>)
        ensures
            r.deep_view() == self.spec_attributes(rec.model()),
    ;
}

impl LokiFormatter for LogfmtFormatter {
    /// The logfmt line text is the record's message, unchanged.
    open spec fn spec_log_line(&self, rec: RecordModel) -> Seq<char> {
        rec.message
    }

    /// The logfmt attributes: of the selected fields, in order, `level`, a
    /// non-empty `message`, a non-empty `target`, then `module`, `file` and
    /// `line` where the record carries them, each written as a normalized
    /// key with an escaped value.
    open spec fn spec_attributes(&self, rec: RecordModel) -> Seq<(Seq<char>, Seq<char>)> {
        let esc = self.escape_newlines;
        let a0 = Seq::<(Seq<char>, Seq<char>)>::empty();
        let a1 = if self.include_fields.level {
            spec_write_pair(a0, "level"@, rec.level, esc)
        } else {
            a0
        };
        let a2 = if self.include_fields.message && rec.message.len() > 0 {
            spec_write_pair(a1, "message"@, rec.message, esc)
        } else {
            a1
        };
        let a3 = if self.include_fields.target && rec.target.len() > 0 {
            spec_write_pair(a2, "target"@, rec.target, esc)
        } else {
            a2
        };
        let a4 = if self.include_fields.module && rec.module is Some {
            spec_write_pair(a3, "module"@, rec.module->Some_0, esc)
        } else {
            a3
        };
        let a5 = if self.include_fields.file && rec.file is Some {
            spec_write_pair(a4, "file"@, rec.file->Some_0, esc)
        } else {
            a4
        };
        if self.include_fields.line && rec.line is Some {
            spec_write_pair(a5, "line"@, rec.line->Some_0, esc)
        } else {
            a5
        }
    }

    fn log_line<R: FormatLog>(&self, rec: &R) -> (r: String) {
        rec.message()
    }

    fn attributes<R: FormatLog>(&self, rec: &R) -> (r: Vec<(String, String)>) {
        let mut attributes: Vec<(String, String)> = Vec::new();
        assert(attributes.deep_view() =~= Seq::<(Seq<char>, Seq<char>)>::empty());

        if self.include_fields.level {
            let level = rec.level();
            self.write_pair(&mut attributes, "level".to_owned(), level.as_str());
        }

        if self.include_fields.message {
            let message = rec.message();
            if message.as_str().unicode_len() > 0 {
                self.write_pair(&mut attributes, "message".to_owned(), message.as_str());
            }
        }

        if self.include_fields.target {
            let target = rec.target();
            if target.as_str().unicode_len() > 0 {
                self.write_pair(&mut attributes, "target".to_owned(), target.as_str());
            }
        }

        if self.include_fields.module {
            if let Some(module) = rec.module() {
                self.write_pair(&mut attributes, "module".to_owned(), module.as_str());
            }
        }

        if self.include_fields.file {
            if let Some(file) = rec.file() {
                self.write_pair(&mut attributes, "file".to_owned(), file.as_str());
            }
        }

        if self.include_fields.line {
            if let Some(line) = rec.line() {
                self.write_pair(&mut attributes, "line".to_owned(), line.as_str());
            }
        }

        attributes
    }
}

} // verus!
