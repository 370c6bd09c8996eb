//! A bounded in-memory log: the most recent thousand entries are kept.

use std::collections::VecDeque;
use vstd::prelude::*;

verus! {

/// The number of entries the log keeps.
pub const MAX_LOG_ENTRIES: usize = 1000;

/// How grave an entry is.
#[derive(Clone, Copy, Debug, PartialEq, Eq, Structural)]
pub enum LogLevel {
    Debug,
    Info,
    Warning,
    Error,
}

/// One entry of the log.
#[derive(Debug)]
pub struct LogEntry {
    pub timestamp: u64,
    pub level: LogLevel,
    pub message: String,
    pub context: Option<String>,
}

/// Mathematical value of a [`LogEntry`].
pub struct LogEntryView {
    pub timestamp: u64,
    pub level: LogLevel,
    pub message: Seq<char>,
    pub context: Option<Seq<char>>,
}

/// The value of an optional text.
pub open spec fn optional_text(text: Option<String>) -> Option<Seq<char>> {
    match text {
        Some(t) => Some(t@),
        None => None,
    }
}

impl View for LogEntry {
    type V = LogEntryView;

    open spec fn view(&self) -> LogEntryView {
        LogEntryView {
            timestamp: self.timestamp,
            level: self.level,
            message: self.message@,
            context: optional_text(self.context),
        }
    }
}

impl Clone for LogEntry {
    fn clone(&self) -> (copy: Self)
        ensures
            copy@ == self@,
    {
        LogEntry {
            timestamp: self.timestamp,
            level: self.level,
            message: self.message.clone(),
            context: match &self.context {
                Some(text) => Some(text.clone()),
                None => None,
            },
        }
    }
}

/// The views of a list of entries, in order.
pub open spec fn entry_views(entries: Seq<LogEntry>) -> Seq<LogEntryView> {
    entries.map_values(|e: LogEntry| e@)
}

/// The log after `entry` has been added: where it already holds a thousand
/// entries the oldest one makes room.
pub open spec fn logged(entries: Seq<LogEntryView>, entry: LogEntryView) -> Seq<LogEntryView> {
    if entries.len() >= 1000 {
        entries.skip(1).push(entry)
    } else {
        entries.push(entry)
    }
}

/// The last `count` entries, newest first.
pub open spec fn recent(entries: Seq<LogEntryView>, count: int) -> Seq<LogEntryView> {
    let n = if count < entries.len() {
        count
    } else {
        entries.len() as int
    };
    Seq::new(n as nat, |i: int| entries[entries.len() - 1 - i])
}

/// The log.
pub struct Logger {
    entries: VecDeque<LogEntry>,
}

impl Logger {
    /// The entries, oldest first.
    pub closed spec fn entries(&self) -> Seq<LogEntryView> {
        entry_views(self.entries@)
    }

    /// An empty log.
    pub fn new() -> (logger: Self)
        ensures
            logger.entries() == Seq::<LogEntryView>::empty(),
    {
        let logger = Logger { entries: VecDeque::with_capacity(MAX_LOG_ENTRIES) };
        assert(logger.entries() =~= Seq::<LogEntryView>::empty());
        logger
    }

    /// Adds an entry made at time `now`.
    pub fn log(&mut self, level: LogLevel, message: String, context: Option<String>, now: u64)
        ensures
            final(self).entries() == logged(
                old(self).entries(),
                LogEntryView {
                    timestamp: now,
                    level,
                    message: message@,
                    context: optional_text(context),
                },
            ),
    {
        if self.entries.len() >= MAX_LOG_ENTRIES {
            let _ = self.entries.pop_front();
        }
        let entry = LogEntry { timestamp: now, level, message, context };
        self.entries.push_back(entry);
        assert(self.entries() =~= logged(old(self).entries(), entry@));
    }

    /// Adds an entry at the level `Debug`.
    pub fn debug(&mut self, message: String, context: Option<String>, now: u64)
        ensures
            final(self).entries() == logged(
                old(self).entries(),
                LogEntryView {
                    timestamp: now,
                    level: LogLevel::Debug,
                    message: message@,
                    context: optional_text(context),
                },
            ),
    {
        self.log(LogLevel::Debug, message, context, now);
    }

    /// Adds an entry at the level `Info`.
    pub fn info(&mut self, message: String, context: Option<String>, now: u64)
        ensures
            final(self).entries() == logged(
                old(self).entries(),
                LogEntryView {
                    timestamp: now,
                    level: LogLevel::Info,
                    message: message@,
                    context: optional_text(context),
                },
            ),
    {
        self.log(LogLevel::Info, message, context, now);
    }

    /// Adds an entry at the level `Warning`.
    pub fn warning(&mut self, message: String, context: Option<String>, now: u64)
        ensures
            final(self).entries() == logged(
                old(self).entries(),
                LogEntryView {
                    timestamp: now,
                    level: LogLevel::Warning,
                    message: message@,
                    context: optional_text(context),
                },
            ),
    {
        self.log(LogLevel::Warning, message, context, now);
    }

    /// Adds an entry at the level `Error`.
    pub fn error(&mut self, message: String, context: Option<String>, now: u64)
        ensures
            final(self).entries() == logged(
                old(self).entries(),
                LogEntryView {
                    timestamp: now,
                    level: LogLevel::Error,
                    message: message@,
                    context: optional_text(context),
                },
            ),
    {
        self.log(LogLevel::Error, message, context, now);
    }

    /// Every entry, oldest first.
    pub fn get_logs(&self) -> (logs: Vec<LogEntry>)
        ensures
            entry_views(logs@) == self.entries(),
    {
        let n = self.entries.len();
        let mut logs: Vec<LogEntry> = Vec::new();
        let mut i: usize = 0;
        while i < n
            invariant
                n == self.entries@.len(),
                0 <= i <= n,
                logs@.len() == i,
                forall|j: int| 0 <= j < i ==> #[trigger] logs@[j]@ == self.entries@[j]@,
            decreases n - i,
        {
            logs.push(self.entries[i].clone());
            i += 1;
        }
        assert(entry_views(logs@) =~= self.entries());
        logs
    }

    /// The last `count` entries, newest first.
    pub fn get_recent_logs(&self, count: usize) -> (logs: Vec<LogEntry>)
        ensures
            entry_views(logs@) == recent(self.entries(), count as int),
    {
        let n = self.entries.len();
        let wanted = if count < n {
            count
        } else {
            n
        };
        let mut logs: Vec<LogEntry> = Vec::new();
        let mut i: usize = 0;
        while i < wanted
            invariant
                n == self.entries@.len(),
                wanted <= n,
                0 <= i <= wanted,
                logs@.len() == i,
                forall|j: int| 0 <= j < i ==> #[trigger] logs@[j]@ == self.entries@[n - 1 - j]@,
            decreases wanted - i,
        {
            logs.push(self.entries[n - 1 - i].clone());
            i += 1;
        }
        assert(entry_views(logs@) =~= recent(self.entries(), count as int));
        logs
    }

    /// Drops every entry.
    pub fn clear(&mut self)
        ensures
            final(self).entries() == Seq::<LogEntryView>::empty(),
    {
        self.entries.clear();
        assert(self.entries() =~= Seq::<LogEntryView>::empty());
    }
}

/// Adds an entry at the level `Debug` to `logger`.
pub fn log_debug(logger: &mut Logger, message: String, context: Option<String>, now: u64)
    ensures
        final(logger).entries() == logged(
            old(logger).entries(),
            LogEntryView {
                timestamp: now,
                level: LogLevel::Debug,
                message: message@,
                context: optional_text(context),
            },
        ),
{
    logger.debug(message, context, now);
}

/// Adds an entry at the level `Info` to `logger`.
pub fn log_info(logger: &mut Logger, message: String, context: Option<String>, now: u64)
    ensures
        final(logger).entries() == logged(
            old(logger).entries(),
            LogEntryView {
                timestamp: now,
                level: LogLevel::Info,
                message: message@,
                context: optional_text(context),
            },
        ),
{
    logger.info(message, context, now);
}

/// Adds an entry at the level `Warning` to `logger`.
pub fn log_warning(logger: &mut Logger, message: String, context: Option<String>, now: u64)
    ensures
        final(logger).entries() == logged(
            old(logger).entries(),
            LogEntryView {
                timestamp: now,
                level: LogLevel::Warning,
                message: message@,
                context: optional_text(context),
            },
        ),
{
    logger.warning(message, context, now);
}

/// Adds an entry at the level `Error` to `logger`.
pub fn log_error(logger: &mut Logger, message: String, context: Option<String>, now: u64)
    ensures
        final(logger).entries() == logged(
            old(logger).entries(),
            LogEntryView {
                timestamp: now,
                level: LogLevel::Error,
                message: message@,
                context: optional_text(context),
            },
        ),
{
    logger.error(message, context, now);
}

} // verus!
