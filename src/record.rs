//! One log event.
use vstd::prelude::*;

use crate::level::Level;

verus! {

/// The level name given to the record that a crash produces; it ranks above
/// every ordinary level.
pub open spec fn panic_level_name() -> Seq<char> {
    "PANIC"@
}

/// One log event: severity, message and, when known, where it was emitted.
#[derive(Debug)]
pub struct LogAnywhereRecord {
    pub level: String,
    pub message: String,
    pub file: Option<String>,
    pub line: Option<u32>,
}

impl LogAnywhereRecord {
    /// Builds the record of an ordinary event of severity `level`.
    pub fn new(level: Level, message: String, file: Option<String>, line: Option<u32>) -> (r: Self)
        ensures
            r.level@ == level.spec_name(),
            r.message == message,
            r.file == file,
            r.line == line,
    {
        LogAnywhereRecord { level: level.name(), message, file, line }
    }

    /// Builds the record of a crash: the highest severity, the fault's message
    /// and, when known, its location.
    pub fn panic(message: String, file: Option<String>, line: Option<u32>) -> (r: Self)
        ensures
            r.level@ == panic_level_name(),
            r.message == message,
            r.file == file,
            r.line == line,
    {
        proof {
            reveal_strlit("PANIC");
        }
        LogAnywhereRecord { level: "PANIC".to_owned(), message, file, line }
    }

    /// A copy of the record, equal to it in every field.
    pub fn duplicate(&self) -> (r: Self)
        ensures
            r == *self,
    {
        let file = match &self.file {
            Some(f) => Some(f.clone()),
            None => None,
        };
        LogAnywhereRecord {
            level: self.level.clone(),
            message: self.message.clone(),
            file,
            line: self.line,
        }
    }
}

} // verus!
