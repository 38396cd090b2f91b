//! The log record the sink consumes.
//!
//! A record carries a severity level, the formatted message, the target name,
//! and optionally the originating module path, source file and source line.
//! It is immutable once built and read-only to the sink; the logging facade
//! that produces records stands outside this crate and hands their fields in
//! as plain values.

use vstd::prelude::*;

use crate::level::Level;

verus! {

/// One structured log event, as handed to the sink by the logging facade.
#[derive(Debug)]
pub struct LogRecord {
    /// Severity of the event.
    pub level: Level,
    /// The formatted message text.
    pub args: String,
    /// Target of the event (by convention, the module that emitted it).
    pub target: String,
    /// Module path of the emitting code, when known.
    pub module: Option<String>,
    /// Source file of the emitting code, when known.
    pub file: Option<String>,
    /// Source line of the emitting code, when known.
    pub line: Option<u32>,
}

/// Mathematical image of a [`LogRecord`]: every text field as a character
/// sequence.
pub struct LogRecordView {
    pub level: Level,
    pub args: Seq<char>,
    pub target: Seq<char>,
    pub module: Option<Seq<char>>,
    pub file: Option<Seq<char>>,
    pub line: Option<u32>,
}

impl View for LogRecord {
    type V = LogRecordView;

    open spec fn view(&self) -> LogRecordView {
        LogRecordView {
            level: self.level,
            args: self.args@,
            target: self.target@,
            module: match self.module {
                Some(path) => Some(path@),
                None => None,
            },
            file: match self.file {
                Some(file) => Some(file@),
                None => None,
            },
            line: self.line,
        }
    }
}

impl LogRecord {
    /// Builds a record from its parts.
    pub fn new(
        level: Level,
        args: String,
        target: String,
        module: Option<String>,
        file: Option<String>,
        line: Option<u32>,
    ) -> (record: LogRecord)
        ensures
            record@.level == level,
            record@.args == args@,
            record@.target == target@,
            record@.module == match module {
                Some(path) => Some(path@),
                None => None::<Seq<char>>,
            },
            record@.file == match file {
                Some(file) => Some(file@),
                None => None::<Seq<char>>,
            },
            record@.line == line,
    {
        LogRecord { level, args, target, module, file, line }
    }

    /// Severity of the record.
    pub fn level(&self) -> (level: Level)
        ensures
            level == self@.level,
    {
        self.level
    }
}

} // verus!
