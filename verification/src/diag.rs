//! The diagnostics sink.
//!
//! Script-originated `stdout` and `stderr` calls, and the errors the
//! orchestrator catches around script evaluation, land here as an ordered
//! log for the external UI to render.  The log is cleared at the start of
//! every full reload.

use vstd::prelude::*;

verus! {

/// Which stream a log entry belongs to.
#[derive(Clone, Copy, Debug, PartialEq, Eq, Structural)]
pub enum LogKind {
    Stdout,
    Stderr,
}

/// One captured message.
pub struct LogEntry {
    pub kind: LogKind,
    pub message: String,
}

/// The ordered diagnostics log.
pub struct DiagLog {
    pub entries: Vec<LogEntry>,
}

impl DiagLog {
    /// An empty log.
    pub fn new() -> (log: DiagLog)
        ensures
            log.entries@.len() == 0,
    {
        DiagLog { entries: Vec::new() }
    }

    /// Drop every entry.
    pub fn clear(&mut self)
        ensures
            final(self).entries@.len() == 0,
    {
        self.entries = Vec::new();
    }

    /// Append a message from the script's standard-output channel.
    pub fn push_stdout(&mut self, message: String)
        ensures
            final(self).entries@.len() == old(self).entries@.len() + 1,
            forall|i: int| 0 <= i < old(self).entries@.len()
                ==> final(self).entries@[i] == old(self).entries@[i],
            final(self).entries@.last().kind == LogKind::Stdout,
            final(self).entries@.last().message@ == message@,
    {
        self.entries.push(LogEntry { kind: LogKind::Stdout, message });
    }

    /// Append a message from the script's standard-error channel.
    pub fn push_stderr(&mut self, message: String)
        ensures
            final(self).entries@.len() == old(self).entries@.len() + 1,
            forall|i: int| 0 <= i < old(self).entries@.len()
                ==> final(self).entries@[i] == old(self).entries@[i],
            final(self).entries@.last().kind == LogKind::Stderr,
            final(self).entries@.last().message@ == message@,
    {
        self.entries.push(LogEntry { kind: LogKind::Stderr, message });
    }

    /// How many entries the log holds.
    pub fn len(&self) -> (n: usize)
        ensures
            n == self.entries@.len(),
    {
        self.entries.len()
    }
}

} // verus!
