//! What the console makes known to its subscribers.
use crate::logger::{string_view, LogLevel, LogRecord, LogRecordView};
use crate::utils::read_local_clock;
use vstd::prelude::*;

verus! {

/// The number of events that the event bus holds for a subscriber that has
/// fallen behind. A subscriber that falls further behind loses the oldest
/// events; the publisher never waits.
pub const EVENT_BUS_CAPACITY: usize = 256;

/// An event of the console, with the time at which it was published, in
/// milliseconds since the Unix epoch.
#[derive(Debug, Clone, PartialEq, Eq)]
pub enum DaemonConsoleEvent {
    UserConsoleInput { raw: String, timestamp: i64 },
    TerminalLog { level: LogLevel, message: String, module_name: Option<String>, timestamp: i64 },
    SubprocessLog { pid: u32, message: String, timestamp: i64 },
}

/// The view of a [`DaemonConsoleEvent`].
pub enum EventView {
    UserConsoleInput { raw: Seq<char>, timestamp: i64 },
    TerminalLog {
        level: LogLevel,
        message: Seq<char>,
        module_name: Option<Seq<char>>,
        timestamp: i64,
    },
    SubprocessLog { pid: u32, message: Seq<char>, timestamp: i64 },
}

impl View for DaemonConsoleEvent {
    type V = EventView;

    open spec fn view(&self) -> EventView {
        match *self {
            DaemonConsoleEvent::UserConsoleInput { raw, timestamp } => EventView::UserConsoleInput {
                raw: raw@,
                timestamp,
            },
            DaemonConsoleEvent::TerminalLog {
                level,
                message,
                module_name,
                timestamp,
            } => EventView::TerminalLog {
                level,
                message: message@,
                module_name: string_view(module_name),
                timestamp,
            },
            DaemonConsoleEvent::SubprocessLog {
                pid,
                message,
                timestamp,
            } => EventView::SubprocessLog { pid, message: message@, timestamp },
        }
    }
}

impl EventView {
    /// The time at which the event was published.
    pub open spec fn timestamp(self) -> i64 {
        match self {
            EventView::UserConsoleInput { timestamp, .. } => timestamp,
            EventView::TerminalLog { timestamp, .. } => timestamp,
            EventView::SubprocessLog { timestamp, .. } => timestamp,
        }
    }
}

/// An event that the console has decided to publish and that has no time yet:
/// it gets its time when it goes out.
#[derive(Debug, Clone, PartialEq, Eq)]
pub enum EventDraft {
    /// The user submitted the line `raw`.
    UserConsoleInput { raw: String },
    /// The console printed a log message.
    TerminalLog(LogRecord),
}

/// The view of an [`EventDraft`].
pub enum EventDraftView {
    UserConsoleInput { raw: Seq<char> },
    TerminalLog(LogRecordView),
}

impl View for EventDraft {
    type V = EventDraftView;

    open spec fn view(&self) -> EventDraftView {
        match *self {
            EventDraft::UserConsoleInput { raw } => EventDraftView::UserConsoleInput { raw: raw@ },
            EventDraft::TerminalLog(record) => EventDraftView::TerminalLog(record@),
        }
    }
}

impl DeepView for EventDraft {
    type V = EventDraftView;

    open spec fn deep_view(&self) -> EventDraftView {
        self@
    }
}

impl EventDraftView {
    /// The event that this draft becomes at the time `timestamp`.
    pub open spec fn at(self, timestamp: i64) -> EventView {
        match self {
            EventDraftView::UserConsoleInput { raw } => EventView::UserConsoleInput {
                raw,
                timestamp,
            },
            EventDraftView::TerminalLog(record) => EventView::TerminalLog {
                level: record.level,
                message: record.text,
                module_name: record.module_name,
                timestamp,
            },
        }
    }
}

impl DaemonConsoleEvent {
    /// The time in milliseconds since the Unix epoch, as events carry it.
    pub fn now_ts() -> i64 {
        read_local_clock().unix_millis
    }

    /// The time at which the event was published.
    pub fn timestamp(&self) -> (t: i64)
        ensures
            t == self@.timestamp(),
    {
        match self {
            DaemonConsoleEvent::UserConsoleInput { timestamp, .. } => *timestamp,
            DaemonConsoleEvent::TerminalLog { timestamp, .. } => *timestamp,
            DaemonConsoleEvent::SubprocessLog { timestamp, .. } => *timestamp,
        }
    }
}

impl EventDraft {
    /// The event that this draft becomes at the time `timestamp`.
    pub fn stamp(self, timestamp: i64) -> (event: DaemonConsoleEvent)
        ensures
            event@ == self@.at(timestamp),
    {
        match self {
            EventDraft::UserConsoleInput { raw } => DaemonConsoleEvent::UserConsoleInput {
                raw,
                timestamp,
            },
            EventDraft::TerminalLog(record) => DaemonConsoleEvent::TerminalLog {
                level: record.level,
                message: record.text,
                module_name: record.module_name,
                timestamp,
            },
        }
    }

    /// The event that this draft becomes now.
    pub fn stamp_now(self) -> (event: DaemonConsoleEvent)
        ensures
            event@ == self@.at(event@.timestamp()),
    {
        let now = DaemonConsoleEvent::now_ts();
        self.stamp(now)
    }
}

} // verus!
