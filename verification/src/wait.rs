//! The bounded wait for finalization.
//!
//! A submitted message is followed through a stream of status events. Each
//! item must arrive within the timeout counted from the item before it (or
//! from the start of the wait): a slow but steady stream is never cut off, a
//! stalled one is. The first `Finalized` status ends the wait; the transaction
//! it names is then fetched under the same discipline and checked for an
//! abort.

use vstd::prelude::*;
use vstd::string::StringExecFns;

verus! {

/// Seconds that the monitor allows between two items of a stream.
pub const REQUEST_TIMEOUT: u64 = 60;

/// Identity of a message, and of the transaction that finalizes it.
#[derive(Clone, Copy, Debug, PartialEq, Eq)]
pub struct MessageId {
    pub bytes: [u8; 32],
}

/// How far the ledger has come with a message.
#[derive(Clone, Copy, Debug, PartialEq, Eq)]
pub enum ProcessingStatus {
    Unknown,
    Queued,
    Processing,
    Preliminary,
    Proposed,
    Finalized,
    Refused,
    Transiting,
}

/// One status report of the ledger.
#[derive(Clone, Copy, Debug, PartialEq, Eq)]
pub struct StatusEvent {
    pub message_id: MessageId,
    pub status: ProcessingStatus,
}

/// What a status stream yields: a status, or the source's own error.
#[derive(Debug)]
pub enum StreamItem {
    Status(StatusEvent),
    Failure(String),
}

/// An item together with the time that passed before it arrived, counted from
/// the item before it or, for the first, from the start of the wait. The time
/// is in the unit of the timeout it is held against.
#[derive(Debug)]
pub struct Observation {
    pub waited: u64,
    pub item: StreamItem,
}

/// A transaction as far as the monitor reads it.
#[derive(Debug)]
pub struct TransactionRecord {
    pub id: MessageId,
    /// Whether the ledger aborted the transaction.
    pub aborted: bool,
    /// The record written out for diagnostics.
    pub details: String,
}

/// What the fetch of a single record yields.
#[derive(Debug)]
pub enum FetchItem<T> {
    /// The ledger returned the record.
    Loaded(T),
    /// The ledger answered without a record.
    Missing,
    /// The source's own error.
    Failure(String),
}

/// The answer of a fetch together with the time that passed before it came.
#[derive(Debug)]
pub struct FetchObservation<T> {
    pub waited: u64,
    pub item: FetchItem<T>,
}

/// Why a probe step failed.
#[derive(Debug)]
pub enum ProbeError {
    /// Nothing arrived within the timeout.
    Timeout,
    /// The status stream ended before any `Finalized` status.
    NoFinalization,
    /// The ledger aborted the transaction.
    TransactionAborted(TransactionRecord),
    /// A call of the ledger client failed.
    Transport(String),
}

/// A probe error as a mathematical value.
pub ghost enum Failure {
    Timeout,
    NoFinalization,
    TransactionAborted(TransactionRecord),
    Transport(Seq<char>),
}

impl View for ProbeError {
    type V = Failure;

    open spec fn view(&self) -> Failure {
        match self {
            ProbeError::Timeout => Failure::Timeout,
            ProbeError::NoFinalization => Failure::NoFinalization,
            ProbeError::TransactionAborted(record) => Failure::TransactionAborted(*record),
            ProbeError::Transport(message) => Failure::Transport(message@),
        }
    }
}

/// A result with its error taken as a mathematical value.
pub open spec fn outcome<T>(result: Result<T, ProbeError>) -> Result<T, Failure> {
    match result {
        Ok(value) => Ok(value),
        Err(e) => Err(e@),
    }
}

/// The text that reports an error of the status stream.
pub open spec fn stream_failure_text(cause: Seq<char>) -> Seq<char> {
    "error next state getting: "@ + cause
}

/// The text that reports a fetch whose stream ended without an answer.
pub open spec fn no_answer_text(subject: Seq<char>) -> Seq<char> {
    "Error unwrap stream next while loading "@ + subject
}

/// The text that reports an error of a fetch.
pub open spec fn fetch_failure_text(subject: Seq<char>, cause: Seq<char>) -> Seq<char> {
    "Error while loading "@ + subject + ": "@ + cause
}

/// The text that reports an answer without a record.
pub open spec fn missing_text(subject: Seq<char>) -> Seq<char> {
    "Error unwrap returned "@ + subject
}

/// Whether an observation carries a status that does not end the wait and
/// came in time.
pub open spec fn passes(timeout: u64, o: Observation) -> bool {
    &&& o.waited <= timeout
    &&& o.item matches StreamItem::Status(event)
    &&& !(event.status is Finalized)
}

/// What one observation decides: nothing while the wait goes on, else the
/// outcome. The time is looked at first, so a late item counts as a stall
/// whatever it carries.
pub open spec fn verdict(timeout: u64, o: Observation) -> Option<Result<MessageId, Failure>> {
    if o.waited > timeout {
        Some(Err(Failure::Timeout))
    } else {
        match o.item {
            StreamItem::Failure(cause) => Some(
                Err(Failure::Transport(stream_failure_text(cause@))),
            ),
            StreamItem::Status(event) => if event.status is Finalized {
                Some(Ok(event.message_id))
            } else {
                None
            },
        }
    }
}

/// The outcome of a wait over a whole stream, read in arrival order: that of
/// the first observation that decides, or `NoFinalization` where the stream
/// ends before any does.
pub open spec fn wait_outcome(timeout: u64, stream: Seq<Observation>) -> Result<
    MessageId,
    Failure,
>
    decreases stream.len(),
{
    if stream.len() == 0 {
        Err(Failure::NoFinalization)
    } else {
        match verdict(timeout, stream[0]) {
            Some(decided) => decided,
            None => wait_outcome(timeout, stream.skip(1)),
        }
    }
}

/// What the answer of a fetch comes to, `None` standing for a stream that
/// ended without one. `subject` names what was fetched in the error texts.
pub open spec fn fetch_outcome<T>(
    timeout: u64,
    answer: Option<FetchObservation<T>>,
    subject: Seq<char>,
) -> Result<T, Failure> {
    match answer {
        None => Err(Failure::Transport(no_answer_text(subject))),
        Some(o) => if o.waited > timeout {
            Err(Failure::Timeout)
        } else {
            match o.item {
                FetchItem::Failure(cause) => Err(
                    Failure::Transport(fetch_failure_text(subject, cause@)),
                ),
                FetchItem::Missing => Err(Failure::Transport(missing_text(subject))),
                FetchItem::Loaded(record) => Ok(record),
            }
        },
    }
}

/// A transaction that the ledger aborted is an error that carries the record.
pub open spec fn settled(record: TransactionRecord) -> Result<TransactionRecord, Failure> {
    if record.aborted {
        Err(Failure::TransactionAborted(record))
    } else {
        Ok(record)
    }
}

/// What the answer of a transaction fetch comes to.
pub open spec fn transaction_outcome(
    timeout: u64,
    answer: Option<FetchObservation<TransactionRecord>>,
) -> Result<TransactionRecord, Failure> {
    match fetch_outcome(timeout, answer, "Transaction"@) {
        Ok(record) => settled(record),
        Err(failure) => Err(failure),
    }
}

/// The text by which an error is logged.
pub open spec fn failure_text(failure: Failure) -> Seq<char> {
    match failure {
        Failure::Timeout => "Error: no event within the timeout"@,
        Failure::NoFinalization => "Error: no transaction id"@,
        Failure::TransactionAborted(record) => "transaction aborted!\n\n"@ + record.details@,
        Failure::Transport(message) => message,
    }
}

/// The timer of one wait: it is wound up again by every item that arrives.
#[derive(Clone, Copy, Debug)]
pub struct BoundedWait {
    /// The longest time that may pass between two items.
    pub timeout: u64,
}

impl BoundedWait {
    /// A wait that allows `timeout` between two items.
    pub fn new(timeout: u64) -> (wait: BoundedWait)
        ensures
            wait.timeout == timeout,
    {
        BoundedWait { timeout }
    }

    /// Looks at the next observation of a status stream. `None` tells the
    /// caller to go on waiting; `Some` ends the wait with its result.
    pub fn observe(&self, observation: &Observation) -> (step: Option<
        Result<MessageId, ProbeError>,
    >)
        ensures
            step.is_some() == verdict(self.timeout, *observation).is_some(),
            step matches Some(result) ==> Some(outcome(result)) == verdict(
                self.timeout,
                *observation,
            ),
    {
        if observation.waited > self.timeout {
            return Some(Err(ProbeError::Timeout));
        }
        match &observation.item {
            StreamItem::Failure(cause) => {
                let mut message = String::from_str("error next state getting: ");
                message.append(cause.as_str());
                Some(Err(ProbeError::Transport(message)))
            },
            StreamItem::Status(event) => {
                match event.status {
                    ProcessingStatus::Finalized => Some(Ok(event.message_id)),
                    _ => None,
                }
            },
        }
    }

    /// The result of a wait whose stream has ended without a decision.
    pub fn closed(&self) -> (result: Result<MessageId, ProbeError>)
        ensures
            outcome(result) == wait_outcome(self.timeout, Seq::empty()),
    {
        Err(ProbeError::NoFinalization)
    }

    /// Looks at the answer of a fetch, `None` standing for a stream that ended
    /// without one: a late answer is a timeout, an error or an empty answer is
    /// reported under the name of what was fetched, and a record is returned.
    pub fn fetch<T>(&self, answer: Option<FetchObservation<T>>, subject: &str) -> (result: Result<
        T,
        ProbeError,
    >)
        ensures
            outcome(result) == fetch_outcome(self.timeout, answer, subject@),
    {
        match answer {
            None => {
                let mut message = String::from_str("Error unwrap stream next while loading ");
                message.append(subject);
                Err(ProbeError::Transport(message))
            },
            Some(o) => {
                if o.waited > self.timeout {
                    return Err(ProbeError::Timeout);
                }
                match o.item {
                    FetchItem::Failure(cause) => {
                        let mut message = String::from_str("Error while loading ");
                        message.append(subject);
                        message.append(": ");
                        message.append(cause.as_str());
                        Err(ProbeError::Transport(message))
                    },
                    FetchItem::Missing => {
                        let mut message = String::from_str("Error unwrap returned ");
                        message.append(subject);
                        Err(ProbeError::Transport(message))
                    },
                    FetchItem::Loaded(record) => Ok(record),
                }
            },
        }
    }

    /// Looks at the answer of a transaction fetch: what `fetch` makes of it,
    /// but for a transaction that the ledger aborted, which is an error that
    /// carries the record.
    pub fn conclude(&self, answer: Option<FetchObservation<TransactionRecord>>) -> (result: Result<
        TransactionRecord,
        ProbeError,
    >)
        ensures
            outcome(result) == transaction_outcome(self.timeout, answer),
    {
        match self.fetch(answer, "Transaction") {
            Ok(record) => check_transaction(record),
            Err(e) => Err(e),
        }
    }
}

/// Returns the record of a transaction unless the ledger aborted it.
pub fn check_transaction(record: TransactionRecord) -> (result: Result<
    TransactionRecord,
    ProbeError,
>)
    ensures
        outcome(result) == settled(record),
{
    if record.aborted {
        Err(ProbeError::TransactionAborted(record))
    } else {
        Ok(record)
    }
}

/// Waits for finalization over a recorded stream: the observations are read
/// in arrival order and the first that decides gives the result.
pub fn await_finalization(timeout: u64, stream: &Vec<Observation>) -> (result: Result<
    MessageId,
    ProbeError,
>)
    ensures
        outcome(result) == wait_outcome(timeout, stream@),
{
    let wait = BoundedWait::new(timeout);
    let mut i: usize = 0;
    assert(stream@.skip(0) =~= stream@);
    while i < stream.len()
        invariant
            i <= stream.len(),
            wait.timeout == timeout,
            wait_outcome(timeout, stream@) == wait_outcome(timeout, stream@.skip(i as int)),
        decreases stream.len() - i,
    {
        let ghost rest = stream@.skip(i as int);
        assert(rest[0] == stream@[i as int]);
        assert(rest.skip(1) =~= stream@.skip(i + 1));
        match wait.observe(&stream[i]) {
            Some(result) => {
                return result;
            },
            None => {},
        }
        i += 1;
    }
    assert(stream@.skip(i as int) =~= Seq::<Observation>::empty());
    wait.closed()
}

/// What the two phases of a wait come to: the status stream must reach a
/// `Finalized` status, and only then does the fetched transaction count.
pub open spec fn processing_outcome(
    timeout: u64,
    stream: Seq<Observation>,
    answer: Option<FetchObservation<TransactionRecord>>,
) -> Result<TransactionRecord, Failure> {
    match wait_outcome(timeout, stream) {
        Ok(_) => transaction_outcome(timeout, answer),
        Err(failure) => Err(failure),
    }
}

/// Follows a message over a recorded status stream and, if it was finalized,
/// looks at the answer of the transaction fetch.
pub fn wait_message_processing(
    timeout: u64,
    stream: &Vec<Observation>,
    answer: Option<FetchObservation<TransactionRecord>>,
) -> (result: Result<TransactionRecord, ProbeError>)
    ensures
        outcome(result) == processing_outcome(timeout, stream@, answer),
{
    match await_finalization(timeout, stream) {
        Ok(_) => BoundedWait::new(timeout).conclude(answer),
        Err(e) => Err(e),
    }
}

impl ProbeError {
    /// The text by which the error is logged.
    pub fn message(&self) -> (text: String)
        ensures
            text@ == failure_text(self@),
    {
        match self {
            ProbeError::Timeout => String::from_str("Error: no event within the timeout"),
            ProbeError::NoFinalization => String::from_str("Error: no transaction id"),
            ProbeError::TransactionAborted(record) => {
                let mut text = String::from_str("transaction aborted!\n\n");
                text.append(record.details.as_str());
                text
            },
            ProbeError::Transport(message) => message.clone(),
        }
    }
}

/// A stream stalls at `k` if every observation before it came in time with a
/// status that is not final, and the one at `k` came late. Such a wait fails
/// with `Timeout`, whatever the late item and all later ones carry.
pub proof fn lemma_stalled_stream_times_out(timeout: u64, stream: Seq<Observation>, k: int)
    requires
        0 <= k < stream.len(),
        forall|j: int| 0 <= j < k ==> passes(timeout, #[trigger] stream[j]),
        stream[k].waited > timeout,
    ensures
        wait_outcome(timeout, stream) == Err::<MessageId, Failure>(Failure::Timeout),
    decreases k,
{
    if k > 0 {
        let rest = stream.skip(1);
        assert(passes(timeout, stream[0]));
        assert forall|j: int| 0 <= j < k - 1 implies passes(timeout, #[trigger] rest[j]) by {
            assert(rest[j] == stream[j + 1]);
        }
        lemma_stalled_stream_times_out(timeout, rest, k - 1);
    }
}

/// If no gap up to the first `Finalized` status exceeds the timeout, and the
/// source raised no error before it, the wait returns the identity carried by
/// that status.
pub proof fn lemma_steady_stream_finalizes(
    timeout: u64,
    stream: Seq<Observation>,
    k: int,
    event: StatusEvent,
)
    requires
        0 <= k < stream.len(),
        forall|j: int| 0 <= j < k ==> passes(timeout, #[trigger] stream[j]),
        stream[k].waited <= timeout,
        stream[k].item == StreamItem::Status(event),
        event.status is Finalized,
    ensures
        wait_outcome(timeout, stream) == Ok::<MessageId, Failure>(event.message_id),
    decreases k,
{
    if k > 0 {
        let rest = stream.skip(1);
        assert(passes(timeout, stream[0]));
        assert forall|j: int| 0 <= j < k - 1 implies passes(timeout, #[trigger] rest[j]) by {
            assert(rest[j] == stream[j + 1]);
        }
        lemma_steady_stream_finalizes(timeout, rest, k - 1, event);
    }
}

/// A stream in which every observation came in time with a status that is not
/// final ends the wait with `NoFinalization`.
pub proof fn lemma_ended_stream_has_no_finalization(timeout: u64, stream: Seq<Observation>)
    requires
        forall|j: int| 0 <= j < stream.len() ==> passes(timeout, #[trigger] stream[j]),
    ensures
        wait_outcome(timeout, stream) == Err::<MessageId, Failure>(Failure::NoFinalization),
    decreases stream.len(),
{
    if stream.len() > 0 {
        let rest = stream.skip(1);
        assert(passes(timeout, stream[0]));
        assert forall|j: int| 0 <= j < rest.len() implies passes(timeout, #[trigger] rest[j]) by {
            assert(rest[j] == stream[j + 1]);
        }
        lemma_ended_stream_has_no_finalization(timeout, rest);
    }
}

} // verus!
