//! The statistics that the probe loop writes and the reporters read.
//!
//! Two windows are counted side by side: a short one for failure alerts and a
//! long one for health summaries. Every operation is one call on `&mut
//! Statistic`, so a holder of the lock never sees one half applied.

use vstd::prelude::*;
use vstd::string::StringExecFns;
use crate::clock::{local_now, Timestamp};

verus! {

/// What an entry says of the attempt counters.
#[derive(Clone, Copy, Debug, PartialEq, Eq)]
pub enum EntryKind {
    /// Nothing is counted.
    Info,
    /// One attempt that succeeded.
    Success,
    /// One attempt that failed.
    Error,
}

/// An entry that waits to be stamped and written to a statistic.
#[derive(Debug)]
pub struct LogEntry {
    pub kind: EntryKind,
    pub message: String,
}

/// The seven characters that stand between the time and the message of an
/// entry and tell its kind.
pub open spec fn tag_of(kind: EntryKind) -> Seq<char> {
    match kind {
        EntryKind::Info => "       "@,
        EntryKind::Success => " OK    "@,
        EntryKind::Error => " ERROR "@,
    }
}

/// A log entry: the time it was written, as text, the tag of its kind and the
/// message.
pub open spec fn entry_line(stamp: Seq<char>, kind: EntryKind, message: Seq<char>) -> Seq<char> {
    stamp + tag_of(kind) + message
}

/// The log entry written at `now`, with the time in RFC 2822 form.
pub open spec fn log_line(now: Timestamp, kind: EntryKind, message: Seq<char>) -> Seq<char> {
    entry_line(now.text(), kind, message)
}

/// Counters and log of the monitor.
pub struct Statistic {
    /// Entries of the current health window, oldest first.
    pub log: Vec<String>,
    /// Attempts in the current health window.
    pub total_attempts: u32,
    /// Failed attempts in the current health window.
    pub total_fails: u32,
    /// When the current health window began.
    pub total_started: Timestamp,
    /// Attempts in the current failure window.
    pub attempts: u32,
    /// The entry of the most recent failed attempt.
    pub last_error: String,
    /// Failed attempts in the current failure window.
    pub fails: u32,
    /// When the current failure window began.
    pub started: Timestamp,
}

/// What a `Statistic` holds, as mathematical values.
pub ghost struct StatisticView {
    pub log: Seq<Seq<char>>,
    pub total_attempts: nat,
    pub total_fails: nat,
    pub total_started: Timestamp,
    pub attempts: nat,
    pub last_error: Seq<char>,
    pub fails: nat,
    pub started: Timestamp,
}

impl StatisticView {
    /// No window counts more failures than attempts.
    pub open spec fn wf(self) -> bool {
        &&& self.fails <= self.attempts
        &&& self.total_fails <= self.total_attempts
    }

    /// Both windows open at `now`, with nothing counted or logged.
    pub open spec fn fresh(now: Timestamp) -> StatisticView {
        StatisticView {
            log: Seq::empty(),
            total_attempts: 0,
            total_fails: 0,
            total_started: now,
            attempts: 0,
            last_error: Seq::empty(),
            fails: 0,
            started: now,
        }
    }

    /// An entry is appended; nothing is counted.
    pub open spec fn with_info(self, line: Seq<char>) -> StatisticView {
        StatisticView { log: self.log.push(line), ..self }
    }

    /// An entry is appended and one attempt is counted in both windows.
    pub open spec fn with_success(self, line: Seq<char>) -> StatisticView {
        StatisticView {
            log: self.log.push(line),
            total_attempts: self.total_attempts + 1,
            attempts: self.attempts + 1,
            ..self
        }
    }

    /// An entry is appended and kept as the last error; one attempt and one
    /// failure are counted in both windows.
    pub open spec fn with_error(self, line: Seq<char>) -> StatisticView {
        StatisticView {
            log: self.log.push(line),
            last_error: line,
            total_attempts: self.total_attempts + 1,
            attempts: self.attempts + 1,
            total_fails: self.total_fails + 1,
            fails: self.fails + 1,
            ..self
        }
    }

    /// The statistic after an entry of the given kind and text was written.
    pub open spec fn with_entry(self, kind: EntryKind, line: Seq<char>) -> StatisticView {
        match kind {
            EntryKind::Info => self.with_info(line),
            EntryKind::Success => self.with_success(line),
            EntryKind::Error => self.with_error(line),
        }
    }

    /// Whether one more attempt can be counted in 32 bits in both windows.
    pub open spec fn has_room(self) -> bool {
        &&& self.attempts < u32::MAX
        &&& self.total_attempts < u32::MAX
    }
}

impl View for Statistic {
    type V = StatisticView;

    open spec fn view(&self) -> StatisticView {
        StatisticView {
            log: self.log.deep_view(),
            total_attempts: self.total_attempts as nat,
            total_fails: self.total_fails as nat,
            total_started: self.total_started,
            attempts: self.attempts as nat,
            last_error: self.last_error@,
            fails: self.fails as nat,
            started: self.started,
        }
    }
}

impl Statistic {
    /// The invariant of the counters.
    pub open spec fn wf(&self) -> bool {
        self@.wf()
    }

    /// Decides whether the invariant holds.
    pub fn is_well_formed(&self) -> (r: bool)
        ensures
            r == self.wf(),
    {
        self.fails <= self.attempts && self.total_fails <= self.total_attempts
    }

    /// Decides whether one more attempt can be counted in both windows.
    pub fn has_room(&self) -> (r: bool)
        ensures
            r == self@.has_room(),
    {
        self.attempts < u32::MAX && self.total_attempts < u32::MAX
    }

    /// A statistic whose two windows begin at `now`.
    pub fn new_at(now: Timestamp) -> (stat: Statistic)
        ensures
            stat@ == StatisticView::fresh(now),
            stat.wf(),
    {
        let stat = Statistic {
            log: Vec::new(),
            total_attempts: 0,
            total_fails: 0,
            total_started: now,
            attempts: 0,
            last_error: String::new(),
            fails: 0,
            started: now,
        };
        assert(stat.log.deep_view() =~= Seq::<Seq<char>>::empty());
        stat
    }

    /// A statistic whose two windows begin at the present moment.
    pub fn new() -> (stat: Statistic)
        ensures
            stat@ == StatisticView::fresh(stat.started),
            stat.wf(),
    {
        Statistic::new_at(local_now())
    }

    fn append_entry(&mut self, line: String)
        ensures
            final(self)@ == old(self)@.with_info(line@),
    {
        let ghost before = self.log.deep_view();
        self.log.push(line);
        assert(self.log.deep_view() =~= before.push(line@));
    }

    /// Writes an entry whose time is already in words: the line is appended
    /// to the log, and the counters move as the kind says. An error entry
    /// also becomes the last error.
    pub fn write_entry(&mut self, stamp: &str, kind: EntryKind, message: &str)
        requires
            !(kind is Info) ==> old(self)@.has_room(),
            kind is Error ==> old(self).wf(),
        ensures
            final(self)@ == old(self)@.with_entry(kind, entry_line(stamp@, kind, message@)),
            old(self).wf() ==> final(self).wf(),
    {
        let mut line = String::from_str(stamp);
        match kind {
            EntryKind::Info => {
                line.append("       ");
                line.append(message);
                self.append_entry(line);
            },
            EntryKind::Success => {
                line.append(" OK    ");
                line.append(message);
                self.append_entry(line);
                self.total_attempts += 1;
                self.attempts += 1;
            },
            EntryKind::Error => {
                line.append(" ERROR ");
                line.append(message);
                self.last_error = line.clone();
                self.append_entry(line);
                self.total_attempts += 1;
                self.attempts += 1;
                self.total_fails += 1;
                self.fails += 1;
            },
        }
    }

    /// Writes an entry made at `now`, counting what its kind says.
    pub fn record_at(&mut self, now: &Timestamp, entry: &LogEntry)
        requires
            now.printable(),
            !(entry.kind is Info) ==> old(self)@.has_room(),
            entry.kind is Error ==> old(self).wf(),
        ensures
            final(self)@ == old(self)@.with_entry(
                entry.kind,
                log_line(*now, entry.kind, entry.message@),
            ),
            old(self).wf() ==> final(self).wf(),
    {
        let stamp = now.to_rfc2822();
        self.write_entry(stamp.as_str(), entry.kind, entry.message.as_str());
    }

    /// Appends a plain entry written at `now`.
    pub fn log_info_at(&mut self, now: &Timestamp, message: &str)
        requires
            now.printable(),
        ensures
            final(self)@ == old(self)@.with_info(log_line(*now, EntryKind::Info, message@)),
            old(self).wf() ==> final(self).wf(),
    {
        let stamp = now.to_rfc2822();
        self.write_entry(stamp.as_str(), EntryKind::Info, message);
    }

    /// Appends the entry of a successful attempt made at `now` and counts the
    /// attempt in both windows.
    pub fn log_success_attempt_at(&mut self, now: &Timestamp, message: &str)
        requires
            now.printable(),
            old(self)@.has_room(),
        ensures
            final(self)@ == old(self)@.with_success(
                log_line(*now, EntryKind::Success, message@),
            ),
            old(self).wf() ==> final(self).wf(),
    {
        let stamp = now.to_rfc2822();
        self.write_entry(stamp.as_str(), EntryKind::Success, message);
    }

    /// Appends the entry of a failed attempt made at `now`, keeps it as the
    /// last error and counts the attempt and the failure in both windows.
    pub fn log_error_attempt_at(&mut self, now: &Timestamp, message: &str)
        requires
            now.printable(),
            old(self).wf(),
            old(self)@.has_room(),
        ensures
            final(self)@ == old(self)@.with_error(log_line(*now, EntryKind::Error, message@)),
            final(self).wf(),
    {
        let stamp = now.to_rfc2822();
        self.write_entry(stamp.as_str(), EntryKind::Error, message);
    }

    /// Writes an entry stamped with the present moment, counting what its
    /// kind says. Returns `false`, and changes nothing, where the clock gives
    /// a date that RFC 2822 cannot write.
    pub fn record(&mut self, entry: &LogEntry) -> (logged: bool)
        requires
            !(entry.kind is Info) ==> old(self)@.has_room(),
            entry.kind is Error ==> old(self).wf(),
        ensures
            logged ==> exists|now: Timestamp|
                now.printable() && final(self)@ == old(self)@.with_entry(
                    entry.kind,
                    #[trigger] log_line(now, entry.kind, entry.message@),
                ),
            !logged ==> *final(self) == *old(self),
            old(self).wf() ==> final(self).wf(),
    {
        let now = local_now();
        self.record_reading(&now, entry.kind, entry.message.as_str())
    }

    /// Appends a plain entry stamped with the present moment. Returns `false`,
    /// and changes nothing, where the clock gives a date that RFC 2822 cannot
    /// write.
    pub fn log_info(&mut self, message: &str) -> (logged: bool)
        ensures
            logged ==> exists|now: Timestamp|
                now.printable() && final(self)@ == old(self)@.with_info(
                    #[trigger] log_line(now, EntryKind::Info, message@),
                ),
            !logged ==> *final(self) == *old(self),
            old(self).wf() ==> final(self).wf(),
    {
        let now = local_now();
        self.record_reading(&now, EntryKind::Info, message)
    }

    /// Appends the entry of a successful attempt stamped with the present
    /// moment and counts the attempt. Returns `false`, and changes nothing,
    /// where the clock gives a date that RFC 2822 cannot write.
    pub fn log_success_attempt(&mut self, message: &str) -> (logged: bool)
        requires
            old(self)@.has_room(),
        ensures
            logged ==> exists|now: Timestamp|
                now.printable() && final(self)@ == old(self)@.with_success(
                    #[trigger] log_line(now, EntryKind::Success, message@),
                ),
            !logged ==> *final(self) == *old(self),
            old(self).wf() ==> final(self).wf(),
    {
        let now = local_now();
        self.record_reading(&now, EntryKind::Success, message)
    }

    /// Appends the entry of a failed attempt stamped with the present moment,
    /// keeps it as the last error and counts the attempt and the failure.
    /// Returns `false`, and changes nothing, where the clock gives a date that
    /// RFC 2822 cannot write.
    pub fn log_error_attempt(&mut self, message: &str) -> (logged: bool)
        requires
            old(self).wf(),
            old(self)@.has_room(),
        ensures
            logged ==> exists|now: Timestamp|
                now.printable() && final(self)@ == old(self)@.with_error(
                    #[trigger] log_line(now, EntryKind::Error, message@),
                ),
            !logged ==> *final(self) == *old(self),
            old(self).wf() ==> final(self).wf(),
    {
        let now = local_now();
        self.record_reading(&now, EntryKind::Error, message)
    }

    /// Writes an entry of the given kind for the clock reading `now`, whatever
    /// the reading is: one that RFC 2822 can write stamps the entry, which is
    /// then written and counted as its kind says; any other is refused, and
    /// nothing changes. Returns whether the entry was written.
    pub fn record_reading(&mut self, now: &Timestamp, kind: EntryKind, message: &str) -> (logged:
        bool)
        requires
            !(kind is Info) ==> old(self)@.has_room(),
            kind is Error ==> old(self).wf(),
        ensures
            logged == now.printable(),
            logged ==> final(self)@ == old(self)@.with_entry(
                kind,
                log_line(*now, kind, message@),
            ),
            !logged ==> *final(self) == *old(self),
            old(self).wf() ==> final(self).wf(),
    {
        if now.is_printable() {
            let stamp = now.to_rfc2822();
            self.write_entry(stamp.as_str(), kind, message);
            true
        } else {
            false
        }
    }
}

/// Appending an entry keeps the counters as they are.
pub proof fn lemma_info_keeps_counters(s: StatisticView, line: Seq<char>)
    ensures
        s.with_info(line).attempts == s.attempts,
        s.with_info(line).fails == s.fails,
        s.with_info(line).total_attempts == s.total_attempts,
        s.with_info(line).total_fails == s.total_fails,
        s.wf() ==> s.with_info(line).wf(),
{
}

/// A successful attempt adds exactly one to the attempts of both windows and
/// leaves both failure counters alone; the invariant is kept.
pub proof fn lemma_success_counts_one_attempt(s: StatisticView, line: Seq<char>)
    ensures
        s.with_success(line).attempts == s.attempts + 1,
        s.with_success(line).total_attempts == s.total_attempts + 1,
        s.with_success(line).fails == s.fails,
        s.with_success(line).total_fails == s.total_fails,
        s.with_success(line).last_error == s.last_error,
        s.with_success(line).log == s.log.push(line),
        s.wf() ==> s.with_success(line).wf(),
{
}

/// A failed attempt adds exactly one to all four counters and replaces the
/// last error by the new entry; the invariant is kept.
pub proof fn lemma_error_counts_one_failure(s: StatisticView, line: Seq<char>)
    ensures
        s.with_error(line).attempts == s.attempts + 1,
        s.with_error(line).total_attempts == s.total_attempts + 1,
        s.with_error(line).fails == s.fails + 1,
        s.with_error(line).total_fails == s.total_fails + 1,
        s.with_error(line).last_error == line,
        s.with_error(line).log == s.log.push(line),
        s.wf() ==> s.with_error(line).wf(),
{
}

} // verus!
