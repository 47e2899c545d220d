//! What a reporter sends and when it may reset the counters.
//!
//! A reporter sleeps, asks [`plan_report`] what to send, hands the text to the
//! transport with the lock released, and calls [`settle_report`] with what the
//! transport answered. Counters are reset only when the delivery is confirmed,
//! so a window keeps growing over failed deliveries.

use vstd::prelude::*;
use vstd::string::StringExecFns;
use crate::clock::{local_now, Timestamp};
use crate::stats::{EntryKind, Statistic, StatisticView};
use crate::text::{decimal, decimal_string};

verus! {

/// What the transport said of one report.
#[derive(Clone, Copy, Debug, PartialEq, Eq)]
pub enum Delivery {
    /// The request was answered with this HTTP status.
    Answered(u16),
    /// The request could not be sent or was not answered.
    Failed,
}

/// What a reporter does after its pause.
#[derive(Debug)]
pub enum ReportPlan {
    /// Nothing failed in the window: send nothing, reset nothing.
    Skip,
    /// Send this text.
    Send(String),
    /// The window start has no RFC 2822 text, so no report can be written.
    Unprintable,
}

/// What the health reporter sends once, before its first pause.
pub open spec fn greeting_text() -> Seq<char> {
    "Hello. Monitoring node client is sucessfully run."@
}

/// The text that a reporter sends when it starts: the health reporter greets,
/// the failure reporter sends nothing.
pub fn greeting(only_errors: bool) -> (text: Option<String>)
    ensures
        text.is_some() == !only_errors,
        text matches Some(t) ==> t@ == greeting_text(),
{
    if only_errors {
        None
    } else {
        Some(String::from_str("Hello. Monitoring node client is sucessfully run."))
    }
}

/// The counts of one window, in words; `started` is the window start as
/// text.
pub open spec fn summary(started: Seq<char>, attempts: nat, fails: nat) -> Seq<char> {
    "Since "@ + started + " there were "@ + decimal(attempts)
        + " attempts to transfer founds.\n"@ + if fails == 0 {
        "All of them were SUCCEDED\n"@
    } else {
        decimal(fails) + " of them FAILED\n"@
    }
}

/// A report: the summary of a window and, where one is given, the last error.
pub open spec fn report_body(
    started: Seq<char>,
    attempts: nat,
    fails: nat,
    last_error: Option<Seq<char>>,
) -> Seq<char> {
    match last_error {
        Some(error) => summary(started, attempts, fails) + "Last error: **"@ + error + "**"@,
        None => summary(started, attempts, fails),
    }
}

/// The text of the report of one cadence: the failure reporter writes of the
/// short window and adds the last error, the health reporter writes of the
/// long window.
pub open spec fn report_text(s: StatisticView, only_errors: bool) -> Seq<char> {
    if only_errors {
        report_body(s.started.text(), s.attempts, s.fails, Some(s.last_error))
    } else {
        report_body(s.total_started.text(), s.total_attempts, s.total_fails, None)
    }
}

/// The failure reporter stays silent while nothing has failed.
pub open spec fn skipped(s: StatisticView, only_errors: bool) -> bool {
    only_errors && s.fails == 0
}

/// The start of the window that the cadence reports on.
pub open spec fn window_start(s: StatisticView, only_errors: bool) -> Timestamp {
    if only_errors {
        s.started
    } else {
        s.total_started
    }
}

/// A delivery is confirmed when the request was answered with a status that is
/// neither a client error nor a server error.
pub open spec fn confirmed(delivery: Delivery) -> bool {
    match delivery {
        Delivery::Answered(code) => 100 <= code <= 999 && !(400 <= code <= 599),
        Delivery::Failed => false,
    }
}

impl StatisticView {
    /// The window of one cadence starts again at `now`: the failure window
    /// drops its two counters, the health window its two counters and the log.
    pub open spec fn reset(self, only_errors: bool, now: Timestamp) -> StatisticView {
        if only_errors {
            StatisticView { fails: 0, attempts: 0, started: now, ..self }
        } else {
            StatisticView {
                log: Seq::empty(),
                total_attempts: 0,
                total_fails: 0,
                total_started: now,
                ..self
            }
        }
    }

    /// The statistic after a report of the given cadence met with `delivery`.
    pub open spec fn settled(
        self,
        only_errors: bool,
        delivery: Delivery,
        now: Timestamp,
    ) -> StatisticView {
        if confirmed(delivery) {
            self.reset(only_errors, now)
        } else {
            self
        }
    }
}

/// `http::StatusCode::is_client_error` of the status that
/// `http::StatusCode::from_u16` makes of `code`: whether it lies in 400..=499.
/// The precondition is the range on which `from_u16` succeeds.
#[verifier::external_body]
fn status_is_client_error(code: u16) -> (r: bool)
    requires
        100 <= code <= 999,
    ensures
        r == (400 <= code <= 499),
{
    http::StatusCode::from_u16(code).unwrap().is_client_error()
}

/// `http::StatusCode::is_server_error` of the status that
/// `http::StatusCode::from_u16` makes of `code`: whether it lies in 500..=599.
/// The precondition is the range on which `from_u16` succeeds.
#[verifier::external_body]
fn status_is_server_error(code: u16) -> (r: bool)
    requires
        100 <= code <= 999,
    ensures
        r == (500 <= code <= 599),
{
    http::StatusCode::from_u16(code).unwrap().is_server_error()
}

/// Decides whether a delivery is confirmed.
pub fn delivery_confirmed(delivery: &Delivery) -> (r: bool)
    ensures
        r == confirmed(*delivery),
{
    match delivery {
        Delivery::Answered(code) => {
            if *code < 100 || *code > 999 {
                false
            } else {
                !(status_is_server_error(*code) || status_is_client_error(*code))
            }
        },
        Delivery::Failed => false,
    }
}

/// What an optional text holds.
pub open spec fn text_of(text: Option<&str>) -> Option<Seq<char>> {
    match text {
        Some(t) => Some(t@),
        None => None,
    }
}

/// Writes a report from the window start, already in words, the two counts
/// of the window and, for a failure report, the last error.
pub fn compose_report(started: &str, attempts: u32, fails: u32, last_error: Option<&str>) -> (text:
    String)
    ensures
        text@ == report_body(started@, attempts as nat, fails as nat, text_of(last_error)),
{
    let mut message = String::from_str("Since ");
    message.append(started);
    message.append(" there were ");
    let count = decimal_string(attempts);
    message.append(count.as_str());
    message.append(" attempts to transfer founds.\n");
    if fails == 0 {
        message.append("All of them were SUCCEDED\n");
    } else {
        let failed = decimal_string(fails);
        message.append(failed.as_str());
        message.append(" of them FAILED\n");
    }
    assert(message@ =~= summary(started@, attempts as nat, fails as nat));
    match last_error {
        Some(error) => {
            message.append("Last error: **");
            message.append(error);
            message.append("**");
        },
        None => {},
    }
    message
}

/// Writes the report of one cadence from a statistic whose window start can
/// be printed.
pub fn format_report(stat: &Statistic, only_errors: bool) -> (text: String)
    requires
        window_start(stat@, only_errors).printable(),
    ensures
        text@ == report_text(stat@, only_errors),
{
    if only_errors {
        let started = stat.started.to_rfc2822();
        compose_report(
            started.as_str(),
            stat.attempts,
            stat.fails,
            Some(stat.last_error.as_str()),
        )
    } else {
        let started = stat.total_started.to_rfc2822();
        compose_report(started.as_str(), stat.total_attempts, stat.total_fails, None)
    }
}

/// Decides what a reporter does after its pause. The failure reporter skips
/// while the failure counter is zero; otherwise the report is written, unless
/// the window start cannot be printed.
pub fn plan_report(stat: &Statistic, only_errors: bool) -> (plan: ReportPlan)
    ensures
        plan is Skip <==> skipped(stat@, only_errors),
        plan is Send <==> !skipped(stat@, only_errors) && window_start(
            stat@,
            only_errors,
        ).printable(),
        plan matches ReportPlan::Send(text) ==> text@ == report_text(stat@, only_errors),
{
    if only_errors && stat.fails == 0 {
        return ReportPlan::Skip;
    }
    let start = if only_errors {
        stat.started
    } else {
        stat.total_started
    };
    if start.is_printable() {
        ReportPlan::Send(format_report(stat, only_errors))
    } else {
        ReportPlan::Unprintable
    }
}

/// Starts the window of one cadence again at `now`.
pub fn reset_window(stat: &mut Statistic, only_errors: bool, now: Timestamp)
    ensures
        final(stat)@ == old(stat)@.reset(only_errors, now),
        old(stat).wf() ==> final(stat).wf(),
{
    if only_errors {
        stat.fails = 0;
        stat.started = now;
        stat.attempts = 0;
    } else {
        stat.log = Vec::new();
        stat.total_attempts = 0;
        stat.total_fails = 0;
        stat.total_started = now;
        assert(stat.log.deep_view() =~= Seq::<Seq<char>>::empty());
    }
}

/// Applies the outcome of a delivery that ended at `now`: a confirmed one
/// starts the cadence's window again at `now`, any other changes nothing.
/// Returns whether the window was reset.
pub fn settle_report_at(
    stat: &mut Statistic,
    only_errors: bool,
    delivery: &Delivery,
    now: Timestamp,
) -> (reset: bool)
    ensures
        reset == confirmed(*delivery),
        final(stat)@ == old(stat)@.settled(only_errors, *delivery, now),
        !reset ==> *final(stat) == *old(stat),
        old(stat).wf() ==> final(stat).wf(),
{
    if delivery_confirmed(delivery) {
        reset_window(stat, only_errors, now);
        true
    } else {
        false
    }
}

/// Applies the outcome of a delivery that has just ended: a confirmed one
/// starts the cadence's window again at the present moment, any other changes
/// nothing. Returns whether the window was reset.
pub fn settle_report(stat: &mut Statistic, only_errors: bool, delivery: &Delivery) -> (reset: bool)
    ensures
        reset == confirmed(*delivery),
        reset ==> final(stat)@ == old(stat)@.reset(
            only_errors,
            window_start(final(stat)@, only_errors),
        ),
        !reset ==> *final(stat) == *old(stat),
        old(stat).wf() ==> final(stat).wf(),
{
    if delivery_confirmed(delivery) {
        reset_window(stat, only_errors, local_now());
        true
    } else {
        false
    }
}

/// A confirmed delivery resets the counters and the window start of its own
/// cadence and leaves those of the other cadence, and the last error, as they
/// were. Only the health cadence empties the log.
pub proof fn lemma_confirmed_delivery_resets_own_window(
    s: StatisticView,
    only_errors: bool,
    delivery: Delivery,
    now: Timestamp,
)
    requires
        confirmed(delivery),
    ensures
        ({
            let t = s.settled(only_errors, delivery, now);
            &&& t.last_error == s.last_error
            &&& only_errors ==> {
                &&& t.attempts == 0 && t.fails == 0 && t.started == now
                &&& t.total_attempts == s.total_attempts
                &&& t.total_fails == s.total_fails
                &&& t.total_started == s.total_started
                &&& t.log == s.log
            }
            &&& !only_errors ==> {
                &&& t.total_attempts == 0 && t.total_fails == 0 && t.total_started == now
                &&& t.log == Seq::<Seq<char>>::empty()
                &&& t.attempts == s.attempts
                &&& t.fails == s.fails
                &&& t.started == s.started
            }
            &&& s.wf() ==> t.wf()
        }),
{
}

/// A delivery that is not confirmed leaves every counter, both window starts,
/// the log and the last error as they were.
pub proof fn lemma_failed_delivery_changes_nothing(
    s: StatisticView,
    only_errors: bool,
    delivery: Delivery,
    now: Timestamp,
)
    requires
        !confirmed(delivery),
    ensures
        s.settled(only_errors, delivery, now) == s,
{
}

/// Whatever is done to a statistic (an entry of any kind written, a report of
/// either cadence settled, confirmed or not), no window ends up with more
/// failures than attempts.
pub proof fn lemma_every_operation_keeps_invariant(
    s: StatisticView,
    kind: EntryKind,
    line: Seq<char>,
    only_errors: bool,
    delivery: Delivery,
    now: Timestamp,
)
    requires
        s.wf(),
    ensures
        s.with_entry(kind, line).wf(),
        s.reset(only_errors, now).wf(),
        s.settled(only_errors, delivery, now).wf(),
{
}

/// While nothing has failed in the failure window, the failure reporter has
/// nothing to send, whatever else the statistic holds.
pub proof fn lemma_no_failures_no_report(s: StatisticView)
    requires
        s.fails == 0,
    ensures
        skipped(s, true),
{
}

} // verus!
