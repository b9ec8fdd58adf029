//! The log record consumed by the renderer.
//!
//! A record carries plain values only: the severity level, the target (a
//! module-path-like string used for allow/deny filtering), the message text,
//! the optional source location, and the identity of the thread that issued
//! the record. The renderer never mutates a record.

use vstd::prelude::*;

use crate::level::Level;

verus! {

/// One log record: what a caller hands to an adapter for rendering.
///
/// The thread fields are captured by the caller when the record is made;
/// `thread_id` may still carry the wrapper punctuation of the runtime's
/// debug rendering (`ThreadId(..)`), which the renderer strips.
pub struct LogRecord {
    pub level: Level,
    pub target: String,
    pub message: String,
    pub file: Option<String>,
    pub line: Option<u32>,
    pub mod_path: Option<String>,
    pub thread_id: String,
    pub thread_name: Option<String>,
}

/// The mathematical value of a [`LogRecord`]: every string as a `Seq<char>`.
#[verifier::ext_equal]
pub struct RecordV {
    pub level: Level,
    pub target: Seq<char>,
    pub message: Seq<char>,
    pub file: Option<Seq<char>>,
    pub line: Option<u32>,
    pub mod_path: Option<Seq<char>>,
    pub thread_id: Seq<char>,
    pub thread_name: Option<Seq<char>>,
}

/// The view of an optional string.
pub open spec fn opt_str_view(s: Option<String>) -> Option<Seq<char>> {
    match s {
        Some(x) => Some(x@),
        None => None,
    }
}

impl View for LogRecord {
    type V = RecordV;

    open spec fn view(&self) -> RecordV {
        RecordV {
            level: self.level,
            target: self.target@,
            message: self.message@,
            file: opt_str_view(self.file),
            line: self.line,
            mod_path: opt_str_view(self.mod_path),
            thread_id: self.thread_id@,
            thread_name: opt_str_view(self.thread_name),
        }
    }
}

impl LogRecord {
    /// A record with the given level, target and message, and no source
    /// location, module path or thread identity.
    pub fn new(level: Level, target: &str, message: &str) -> (r: LogRecord)
        ensures
            r@ == (RecordV {
                level,
                target: target@,
                message: message@,
                file: None,
                line: None,
                mod_path: None,
                thread_id: Seq::<char>::empty(),
                thread_name: None,
            }),
    {
        let r = LogRecord {
            level,
            target: target.to_owned(),
            message: message.to_owned(),
            file: None,
            line: None,
            mod_path: None,
            thread_id: String::new(),
            thread_name: None,
        };
        proof {
            assert(r@ =~= RecordV {
                level,
                target: target@,
                message: message@,
                file: None,
                line: None,
                mod_path: None,
                thread_id: Seq::<char>::empty(),
                thread_name: None,
            });
        }
        r
    }
}

} // verus!
