//! The system log: a bounded record of lifecycle, command, inspection,
//! telemetry, collaboration, system, priority, AI and security events.
use vstd::prelude::*;
use crate::text::{lowercased, to_lowercase, chars_of, contains_seq, contains};
use crate::ids::new_id;
use crate::clock::now_ms;

verus! {

/// Kinds of log event.
#[derive(Debug, Clone, Copy, PartialEq, Eq, Structural)]
pub enum LogType {
    /// Surface creation, focus, close
    Lifecycle,
    /// Shell commands executed
    Command,
    /// Level 4/5 access
    Inspection,
    /// Resource snapshots
    Telemetry,
    /// Guest actions, joins/leaves
    Collaboration,
    /// Notifications, alerts
    System,
    /// Priority score updates
    Priority,
    /// AI interactions
    Ai,
    /// Authentication, deeper inspection toggle
    Security,
}

/// One log entry.
#[derive(Debug, Clone, PartialEq, Eq)]
pub struct LogEntry {
    pub id: u128,
    /// Milliseconds since the Unix epoch
    pub timestamp_ms: i64,
    /// "Global", "Sector:Name", "App:ID"
    pub region: String,
    pub event_type: LogType,
    pub message: String,
    /// Structured data, as JSON text
    pub details: Option<String>,
    pub surface_id: Option<String>,
}

/// The log.
#[derive(Debug)]
pub struct LogManager {
    pub entries: Vec<LogEntry>,
    pub max_entries: usize,
    pub enabled: bool,
}

/// The entries after one is recorded: the oldest goes when the log is full.
pub open spec fn appended(entries: Seq<LogEntry>, max: usize, e: LogEntry) -> Seq<LogEntry> {
    if entries.len() >= max && entries.len() > 0 {
        entries.drop_first().push(e)
    } else {
        entries.push(e)
    }
}

/// Whether an entry matches a filter, ignoring case, in message or region.
pub open spec fn entry_matches(e: LogEntry, filter: Seq<char>) -> bool {
    contains_seq(lowercased(e.message@), lowercased(filter)) || contains_seq(
        lowercased(e.region@),
        lowercased(filter),
    )
}

impl LogManager {
    /// An enabled log of at most a thousand entries.
    pub fn new() -> (m: LogManager)
        ensures
            m.entries@.len() == 0,
            m.max_entries == 1000,
            m.enabled,
    {
        LogManager { entries: Vec::new(), max_entries: 1000, enabled: true }
    }

    /// Records an event with identifier `id` at time `now`; a disabled log
    /// records only security events.
    pub fn log_at(&mut self, event_type: LogType, region: &str, message: &str, details: Option<String>, id: u128, now: i64)
        ensures
            final(self).max_entries == old(self).max_entries,
            final(self).enabled == old(self).enabled,
            !old(self).enabled && event_type != LogType::Security ==> final(self).entries@ == old(self).entries@,
            old(self).enabled || event_type == LogType::Security ==> final(self).entries@ == appended(
                old(self).entries@,
                old(self).max_entries,
                LogEntry {
                    id,
                    timestamp_ms: now,
                    region: final(self).entries@.last().region,
                    event_type,
                    message: final(self).entries@.last().message,
                    details,
                    surface_id: None,
                },
            ) && final(self).entries@.last().region@ == region@
                && final(self).entries@.last().message@ == message@,
    {
        if !self.enabled && event_type != LogType::Security {
            return;
        }
        let entry = LogEntry {
            id,
            timestamp_ms: now,
            region: String::from_str(region),
            event_type,
            message: String::from_str(message),
            details,
            surface_id: None,
        };
        if self.entries.len() >= self.max_entries && self.entries.len() > 0 {
            self.entries.remove(0);
        }
        self.entries.push(entry);
        assert(self.entries@ =~= appended(old(self).entries@, old(self).max_entries, self.entries@.last()));
    }

    /// Records an event now, under a fresh identifier.
    pub fn log(&mut self, event_type: LogType, region: &str, message: &str, details: Option<String>)
        ensures
            final(self).max_entries == old(self).max_entries,
            !old(self).enabled && event_type != LogType::Security ==> final(self).entries@ == old(self).entries@,
            old(self).enabled || event_type == LogType::Security ==> final(self).entries@.last().message@
                == message@ && final(self).entries@.last().event_type == event_type,
    {
        let id = new_id();
        let now = now_ms();
        self.log_at(event_type, region, message, details, id, now);
    }

    /// The entries whose message or region holds the filter, ignoring case,
    /// oldest first.
    pub fn query(&self, filter: &str) -> (v: Vec<&LogEntry>)
        ensures
            v@.len() == self.entries@.filter(|e: LogEntry| entry_matches(e, filter@)).len(),
            forall|i: int| 0 <= i < v@.len() ==> *v@[i] == self.entries@.filter(
                |e: LogEntry| entry_matches(e, filter@),
            )[i],
    {
        let lf_s = to_lowercase(filter);
        let lf = chars_of(lf_s.as_str());
        let ghost p = |e: LogEntry| entry_matches(e, filter@);
        let mut out: Vec<&LogEntry> = Vec::new();
        let mut i: usize = 0;
        while i < self.entries.len()
            invariant
                0 <= i <= self.entries@.len(),
                lf@ == lowercased(filter@),
                p == (|e: LogEntry| entry_matches(e, filter@)),
                out@.len() == self.entries@.take(i as int).filter(p).len(),
                forall|j: int| 0 <= j < out@.len() ==> *out@[j] == self.entries@.take(i as int).filter(p)[j],
            decreases self.entries@.len() - i,
        {
            reveal_with_fuel(Seq::filter, 1);
            assert(self.entries@.take(i + 1).drop_last() =~= self.entries@.take(i as int));
            let e = &self.entries[i];
            let lm_s = to_lowercase(e.message.as_str());
            let lr_s = to_lowercase(e.region.as_str());
            let lm = chars_of(lm_s.as_str());
            let lr = chars_of(lr_s.as_str());
            if contains(&lm, &lf) || contains(&lr, &lf) {
                out.push(e);
            }
            i = i + 1;
        }
        assert(self.entries@.take(i as int) =~= self.entries@);
        out
    }
}

/// A log never grows past its bound (taken as at least one entry).
pub proof fn law_log_stays_bounded(entries: Seq<LogEntry>, max: usize, e: LogEntry)
    requires
        entries.len() <= if max == 0 { 1 } else { max as int },
    ensures
        appended(entries, max, e).len() <= if max == 0 { 1 } else { max as int },
        appended(entries, max, e).last() == e,
{
}

} // verus!
