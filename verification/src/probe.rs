//! The probe loop as a state machine.
//!
//! A round begins when the loop wakes: the connection is set up again if it
//! is stale, missing accounts are provisioned, then a fixed number of
//! transfers runs round-robin over the pool. The caller performs each
//! [`Action`] against the ledger and hands the outcome back; the scheduler
//! decides what is logged and what comes next. Any failure ends the round:
//! what was provisioned stays, the cursor stays, and the next round starts
//! after the usual pause. The loop runs until it is told to stop.

use vstd::arithmetic::div_mod::{lemma_add_mod_noop_right, lemma_small_mod};
use vstd::prelude::*;
use vstd::string::StringExecFns;
use crate::config::TesterConfig;
use crate::stats::{EntryKind, LogEntry};
use crate::text::{decimal, decimal_string};
use crate::wait::{failure_text, ProbeError};

verus! {

/// Seconds after which the connection is set up again, whatever happened in
/// between.
pub const REINIT_INTERVAL: u64 = 1800;

/// The amount that every probe transfer moves.
pub const TRANSFER_VALUE: u32 = 100;

/// The amount that a new account is funded with before it is deployed.
pub const FUNDING_VALUE: u128 = 100_000_000_000;

/// The arguments of the wallet call that moves `TRANSFER_VALUE` to the
/// account at `recipient`.
pub open spec fn transfer_params_text(recipient: Seq<char>) -> Seq<char> {
    "{ \"recipient\" : \"x"@ + recipient + "\", \"value\": \""@ + decimal(TRANSFER_VALUE as nat)
        + "\" }"@
}

/// Writes the arguments of a probe transfer to `recipient`.
pub fn transfer_params(recipient: &str) -> (text: String)
    ensures
        text@ == transfer_params_text(recipient@),
{
    let mut text = String::from_str("{ \"recipient\" : \"x");
    text.append(recipient);
    text.append("\", \"value\": \"");
    let value = decimal_string(TRANSFER_VALUE);
    text.append(value.as_str());
    text.append("\" }");
    text
}

/// A funded account that transfers are made from and to.
#[derive(Debug)]
pub struct ProbeAccount {
    /// The account's address, as the ledger client prints it.
    pub address: String,
    /// The key pair that signs for the account.
    pub key_pair: Vec<u8>,
}

/// Where in a round the loop stands.
#[derive(Clone, Copy, Debug, PartialEq, Eq)]
pub enum Phase {
    /// Before the first round, and asleep between two rounds.
    Idle,
    /// The connection is being set up.
    Initializing,
    /// An account is being funded and deployed.
    Provisioning,
    /// A transfer is under way.
    Transferring,
    /// The loop was told to end; nothing follows.
    Stopped,
}

/// What the caller is to do next.
#[derive(Clone, Copy, Debug, PartialEq, Eq)]
pub enum Action {
    /// Pause for this many seconds, then call `wake`.
    Sleep(u64),
    /// Set up the connection, then call `initialized`.
    Initialize,
    /// Fund and deploy one new account, then call `provisioned`.
    Provision,
    /// Transfer between the accounts at these places of the pool, then call
    /// `transferred`.
    Transfer { from: usize, to: usize },
    /// End the loop.
    Stop,
}

/// What one outcome led to: the entry to log, if any, and the next action.
#[derive(Debug)]
pub struct Step {
    pub entry: Option<LogEntry>,
    pub action: Action,
}

/// The probe loop's state.
#[derive(Debug)]
pub struct ProbeScheduler {
    pub config: TesterConfig,
    pub phase: Phase,
    /// Whether the connection is set up and not yet stale.
    pub inited: bool,
    /// The place in the pool that the next transfer starts from.
    pub next_acc: usize,
    /// The accounts provisioned so far, in the order they were made.
    pub accounts: Vec<ProbeAccount>,
    /// When the connection was last declared stale, in seconds of a clock
    /// that never runs backwards.
    pub last_init: u64,
    /// Transfers still to make in the current round.
    pub transfers_left: u32,
}

/// The state of the probe loop as a mathematical value.
pub ghost struct SchedulerView {
    pub acc_count: usize,
    pub tr_interval: u64,
    pub tr_count: u32,
    pub phase: Phase,
    pub inited: bool,
    pub next_acc: usize,
    pub pool: Seq<ProbeAccount>,
    pub last_init: u64,
    pub transfers_left: u32,
}

impl View for ProbeScheduler {
    type V = SchedulerView;

    open spec fn view(&self) -> SchedulerView {
        SchedulerView {
            acc_count: self.config.acc_count,
            tr_interval: self.config.tr_interval,
            tr_count: self.config.tr_count,
            phase: self.phase,
            inited: self.inited,
            next_acc: self.next_acc,
            pool: self.accounts@,
            last_init: self.last_init,
            transfers_left: self.transfers_left,
        }
    }
}

impl SchedulerView {
    /// The cursor points into a pool that is never larger than its target; an
    /// account is provisioned only while the pool is short, and a transfer is
    /// made only when it is full and the round still owes one.
    pub open spec fn wf(self) -> bool {
        &&& self.acc_count > 0
        &&& self.next_acc < self.acc_count
        &&& self.pool.len() <= self.acc_count
        &&& self.phase is Initializing ==> !self.inited
        &&& self.phase is Provisioning ==> self.inited && self.pool.len() < self.acc_count
        &&& self.phase is Transferring ==> {
            &&& self.inited
            &&& self.pool.len() == self.acc_count
            &&& 0 < self.transfers_left <= self.tr_count
        }
    }

    /// The place after the cursor, going round the pool.
    pub open spec fn neighbour(self) -> usize {
        ((self.next_acc + 1) % (self.acc_count as int)) as usize
    }

    /// The transfer that the cursor stands for.
    pub open spec fn transfer(self) -> Action {
        Action::Transfer { from: self.next_acc, to: self.neighbour() }
    }

    /// The action that the loop is waiting on.
    pub open spec fn pending(self) -> Action {
        match self.phase {
            Phase::Idle => Action::Sleep(self.tr_interval),
            Phase::Initializing => Action::Initialize,
            Phase::Provisioning => Action::Provision,
            Phase::Transferring => self.transfer(),
            Phase::Stopped => Action::Stop,
        }
    }

    /// The loop ends, in whatever phase it was. The pool and the cursor are
    /// kept, but no later outcome or wake-up changes anything.
    pub open spec fn shutdown(self) -> (SchedulerView, Action) {
        (SchedulerView { phase: Phase::Stopped, ..self }, Action::Stop)
    }

    /// The round ends here: the loop sleeps for the configured interval.
    pub open spec fn rest(self) -> (SchedulerView, Action) {
        (SchedulerView { phase: Phase::Idle, ..self }, Action::Sleep(self.tr_interval))
    }

    /// The round goes on with a connection that is set up: missing accounts
    /// come first, then the transfers, if the round has any.
    pub open spec fn resume(self) -> (SchedulerView, Action) {
        if self.pool.len() < self.acc_count {
            (SchedulerView { phase: Phase::Provisioning, ..self }, Action::Provision)
        } else if self.tr_count > 0 {
            (
                SchedulerView {
                    phase: Phase::Transferring,
                    transfers_left: self.tr_count,
                    ..self
                },
                self.transfer(),
            )
        } else {
            self.rest()
        }
    }

    /// Whether the connection is stale at `now`.
    pub open spec fn stale(self, now: u64) -> bool {
        self.last_init + REINIT_INTERVAL < now
    }

    /// A round begins at `now`. A stale connection is set up again first,
    /// whether or not it ever failed.
    pub open spec fn wake(self, now: u64) -> (SchedulerView, Action) {
        if !(self.phase is Idle) {
            (self, self.pending())
        } else {
            let s = if self.stale(now) {
                SchedulerView { last_init: now, inited: false, ..self }
            } else {
                self
            };
            if !s.inited {
                (SchedulerView { phase: Phase::Initializing, ..s }, Action::Initialize)
            } else {
                s.resume()
            }
        }
    }

    /// The connection was set up (`ok`) or could not be.
    pub open spec fn initialized(self, ok: bool) -> (SchedulerView, Action) {
        if !(self.phase is Initializing) {
            (self, self.pending())
        } else if ok {
            SchedulerView { inited: true, ..self }.resume()
        } else {
            self.rest()
        }
    }

    /// An account was provisioned, or (`None`) could not be.
    pub open spec fn provisioned(self, account: Option<ProbeAccount>) -> (SchedulerView, Action) {
        if !(self.phase is Provisioning) {
            (self, self.pending())
        } else {
            match account {
                Some(a) => SchedulerView { pool: self.pool.push(a), ..self }.resume(),
                None => self.rest(),
            }
        }
    }

    /// The transfer at the cursor went through (`ok`) or failed. Only a
    /// transfer that went through moves the cursor.
    pub open spec fn transferred(self, ok: bool) -> (SchedulerView, Action) {
        if !(self.phase is Transferring) {
            (self, self.pending())
        } else if ok {
            let s = SchedulerView {
                next_acc: self.neighbour(),
                transfers_left: (self.transfers_left - 1) as u32,
                ..self
            };
            if s.transfers_left > 0 {
                (s, s.transfer())
            } else {
                s.rest()
            }
        } else {
            self.rest()
        }
    }
}

impl SchedulerView {
    /// The state after `n` transfers in a row went through.
    pub open spec fn after_transfers(self, n: nat) -> SchedulerView
        decreases n,
    {
        if n == 0 {
            self
        } else {
            self.transferred(true).0.after_transfers((n - 1) as nat)
        }
    }
}

/// An entry as a mathematical value: its kind and its message.
pub open spec fn entry_view(entry: Option<LogEntry>) -> Option<(EntryKind, Seq<char>)> {
    match entry {
        Some(e) => Some((e.kind, e.message@)),
        None => None,
    }
}

/// The entry that tells of an attempt to set up the connection.
pub open spec fn init_entry(outcome: Result<(), String>) -> (EntryKind, Seq<char>) {
    match outcome {
        Ok(_) => (EntryKind::Info, "Successfully initialized"@),
        Err(cause) => (EntryKind::Error, "Error while initialization: "@ + cause@),
    }
}

/// The entry that tells of an attempt to provision an account.
pub open spec fn provision_entry(outcome: Result<ProbeAccount, ProbeError>) -> (
    EntryKind,
    Seq<char>,
) {
    match outcome {
        Ok(account) => (EntryKind::Info, account.address@ + " successfully deployed"@),
        Err(e) => (EntryKind::Error, "Error while deploying: "@ + failure_text(e@)),
    }
}

/// The entry that tells of a transfer between two addresses.
pub open spec fn transfer_entry(from: Seq<char>, to: Seq<char>, outcome: Result<(), ProbeError>) -> (
    EntryKind,
    Seq<char>,
) {
    match outcome {
        Ok(_) => (
            EntryKind::Success,
            "Founds from "@ + from + " to "@ + to + " successfully transferred"@,
        ),
        Err(e) => (EntryKind::Error, "Error while transferring founds: "@ + failure_text(e@)),
    }
}

impl ProbeScheduler {
    /// The invariant of the loop's state.
    pub open spec fn wf(&self) -> bool {
        self@.wf()
    }

    /// Decides whether the invariant holds.
    pub fn is_well_formed(&self) -> (r: bool)
        ensures
            r == self.wf(),
    {
        let pool = self.accounts.len();
        let target = self.config.acc_count;
        let phase_fits = match self.phase {
            Phase::Idle => true,
            Phase::Stopped => true,
            Phase::Initializing => !self.inited,
            Phase::Provisioning => self.inited && pool < target,
            Phase::Transferring => self.inited && pool == target && 0 < self.transfers_left
                && self.transfers_left <= self.config.tr_count,
        };
        target > 0 && self.next_acc < target && pool <= target && phase_fits
    }

    /// The state before the first round: no account, the cursor at the first
    /// place, the connection not set up.
    pub fn new(config: TesterConfig, now: u64) -> (scheduler: ProbeScheduler)
        requires
            config.acc_count > 0,
        ensures
            scheduler.wf(),
            scheduler@ == (SchedulerView {
                acc_count: config.acc_count,
                tr_interval: config.tr_interval,
                tr_count: config.tr_count,
                phase: Phase::Idle,
                inited: false,
                next_acc: 0,
                pool: Seq::empty(),
                last_init: now,
                transfers_left: 0,
            }),
    {
        ProbeScheduler {
            config,
            phase: Phase::Idle,
            inited: false,
            next_acc: 0,
            accounts: Vec::new(),
            last_init: now,
            transfers_left: 0,
        }
    }

    /// The place after the cursor, going round the pool.
    pub fn neighbour(&self) -> (place: usize)
        requires
            self.wf(),
        ensures
            place == self@.neighbour(),
            place < self.config.acc_count,
    {
        (self.next_acc + 1) % self.config.acc_count
    }

    /// The action that the loop is waiting on.
    pub fn pending(&self) -> (action: Action)
        requires
            self.wf(),
        ensures
            action == self@.pending(),
    {
        match self.phase {
            Phase::Idle => Action::Sleep(self.config.tr_interval),
            Phase::Initializing => Action::Initialize,
            Phase::Provisioning => Action::Provision,
            Phase::Transferring => Action::Transfer { from: self.next_acc, to: self.neighbour() },
            Phase::Stopped => Action::Stop,
        }
    }

    /// Ends the loop. An outcome that is still under way may be handed in
    /// afterwards; it is passed over.
    pub fn shutdown(&mut self) -> (action: Action)
        requires
            old(self).wf(),
        ensures
            final(self).wf(),
            (final(self)@, action) == old(self)@.shutdown(),
    {
        self.phase = Phase::Stopped;
        Action::Stop
    }

    fn rest(&mut self) -> (action: Action)
        requires
            (SchedulerView { phase: Phase::Idle, ..old(self)@ }).wf(),
        ensures
            final(self).wf(),
            (final(self)@, action) == old(self)@.rest(),
    {
        self.phase = Phase::Idle;
        Action::Sleep(self.config.tr_interval)
    }

    fn resume(&mut self) -> (action: Action)
        requires
            old(self).inited,
            (SchedulerView { phase: Phase::Idle, ..old(self)@ }).wf(),
        ensures
            final(self).wf(),
            (final(self)@, action) == old(self)@.resume(),
    {
        if self.accounts.len() < self.config.acc_count {
            self.phase = Phase::Provisioning;
            Action::Provision
        } else if self.config.tr_count > 0 {
            self.phase = Phase::Transferring;
            self.transfers_left = self.config.tr_count;
            Action::Transfer { from: self.next_acc, to: self.neighbour() }
        } else {
            self.phase = Phase::Idle;
            Action::Sleep(self.config.tr_interval)
        }
    }

    /// Begins a round at `now`, a reading in seconds of a clock that never
    /// runs backwards. Called before the first round and after every sleep.
    pub fn wake(&mut self, now: u64) -> (action: Action)
        requires
            old(self).wf(),
        ensures
            final(self).wf(),
            (final(self)@, action) == old(self)@.wake(now),
    {
        match self.phase {
            Phase::Idle => {},
            _ => {
                return self.pending();
            },
        }
        if now > REINIT_INTERVAL && self.last_init < now - REINIT_INTERVAL {
            self.last_init = now;
            self.inited = false;
        }
        if !self.inited {
            self.phase = Phase::Initializing;
            Action::Initialize
        } else {
            self.resume()
        }
    }

    /// Takes the outcome of setting up the connection.
    pub fn initialized(&mut self, outcome: Result<(), String>) -> (step: Step)
        requires
            old(self).wf(),
        ensures
            final(self).wf(),
            (final(self)@, step.action) == old(self)@.initialized(outcome is Ok),
            entry_view(step.entry) == if old(self).phase is Initializing {
                Some(init_entry(outcome))
            } else {
                None
            },
    {
        match self.phase {
            Phase::Initializing => {},
            _ => {
                return Step { entry: None, action: self.pending() };
            },
        }
        match outcome {
            Ok(_) => {
                self.inited = true;
                let action = self.resume();
                let message = String::from_str("Successfully initialized");
                Step { entry: Some(LogEntry { kind: EntryKind::Info, message }), action }
            },
            Err(cause) => {
                let action = self.rest();
                let mut message = String::from_str("Error while initialization: ");
                message.append(cause.as_str());
                Step { entry: Some(LogEntry { kind: EntryKind::Error, message }), action }
            },
        }
    }

    /// Takes the outcome of provisioning one account. A new account joins the
    /// pool at its end; a failure ends the round and leaves the pool as it is.
    pub fn provisioned(&mut self, outcome: Result<ProbeAccount, ProbeError>) -> (step: Step)
        requires
            old(self).wf(),
        ensures
            final(self).wf(),
            (final(self)@, step.action) == old(self)@.provisioned(
                match outcome {
                    Ok(account) => Some(account),
                    Err(_) => None,
                },
            ),
            entry_view(step.entry) == if old(self).phase is Provisioning {
                Some(provision_entry(outcome))
            } else {
                None
            },
    {
        match self.phase {
            Phase::Provisioning => {},
            _ => {
                return Step { entry: None, action: self.pending() };
            },
        }
        match outcome {
            Ok(account) => {
                let mut message = account.address.clone();
                message.append(" successfully deployed");
                self.accounts.push(account);
                let action = self.resume();
                Step { entry: Some(LogEntry { kind: EntryKind::Info, message }), action }
            },
            Err(e) => {
                let action = self.rest();
                let mut message = String::from_str("Error while deploying: ");
                let cause = e.message();
                message.append(cause.as_str());
                Step { entry: Some(LogEntry { kind: EntryKind::Error, message }), action }
            },
        }
    }

    /// Takes the outcome of the transfer at the cursor. After a success the
    /// cursor moves on and the round goes on or, with its last transfer made,
    /// ends; a failure ends the round at once and leaves the cursor where it
    /// is.
    pub fn transferred(&mut self, outcome: Result<(), ProbeError>) -> (step: Step)
        requires
            old(self).wf(),
        ensures
            final(self).wf(),
            (final(self)@, step.action) == old(self)@.transferred(outcome is Ok),
            entry_view(step.entry) == if old(self).phase is Transferring {
                Some(
                    transfer_entry(
                        old(self).accounts@[old(self).next_acc as int].address@,
                        old(self).accounts@[old(self)@.neighbour() as int].address@,
                        outcome,
                    ),
                )
            } else {
                None
            },
    {
        match self.phase {
            Phase::Transferring => {},
            _ => {
                return Step { entry: None, action: self.pending() };
            },
        }
        match outcome {
            Ok(_) => {
                let to = self.neighbour();
                let mut message = String::from_str("Founds from ");
                message.append(self.accounts[self.next_acc].address.as_str());
                message.append(" to ");
                message.append(self.accounts[to].address.as_str());
                message.append(" successfully transferred");
                self.next_acc = to;
                self.transfers_left = self.transfers_left - 1;
                let action = if self.transfers_left > 0 {
                    Action::Transfer { from: self.next_acc, to: self.neighbour() }
                } else {
                    self.rest()
                };
                Step { entry: Some(LogEntry { kind: EntryKind::Success, message }), action }
            },
            Err(e) => {
                let action = self.rest();
                let mut message = String::from_str("Error while transferring founds: ");
                let cause = e.message();
                message.append(cause.as_str());
                Step { entry: Some(LogEntry { kind: EntryKind::Error, message }), action }
            },
        }
    }
}

/// Transfers that go through move the cursor round the pool, one place each:
/// after `n` of them, no more than the round still owed, the cursor stands
/// `n` places further on, counted modulo the size of the pool. The pool is
/// untouched, and the round is over exactly when the last transfer it owed
/// was made.
pub proof fn lemma_cursor_goes_round(s: SchedulerView, n: nat)
    requires
        s.wf(),
        s.phase is Transferring,
        n <= s.transfers_left,
    ensures
        s.after_transfers(n).next_acc == (s.next_acc + n) % (s.acc_count as int),
        s.after_transfers(n).pool == s.pool,
        s.after_transfers(n).transfers_left == s.transfers_left - n,
        n < s.transfers_left ==> s.after_transfers(n).phase is Transferring,
        n == s.transfers_left ==> s.after_transfers(n).phase is Idle,
        s.after_transfers(n).wf(),
    decreases n,
{
    let m = s.acc_count as int;
    if n == 0 {
        lemma_small_mod(s.next_acc as nat, s.acc_count as nat);
    } else {
        let t = s.transferred(true).0;
        assert(t.next_acc == (s.next_acc + 1) % m);
        lemma_add_mod_noop_right(n - 1, s.next_acc + 1, m);
        if t.transfers_left > 0 {
            lemma_cursor_goes_round(t, (n - 1) as nat);
        } else {
            assert(n == 1);
            assert(t.after_transfers(0) == t);
        }
    }
}

/// Once the loop was told to stop, every wake-up and every outcome leaves the
/// state as it is and is answered with `Stop`.
pub proof fn lemma_stopped_stays_stopped(
    s: SchedulerView,
    now: u64,
    ok: bool,
    account: Option<ProbeAccount>,
)
    requires
        s.phase is Stopped,
    ensures
        s.wake(now) == (s, Action::Stop),
        s.initialized(ok) == (s, Action::Stop),
        s.provisioned(account) == (s, Action::Stop),
        s.transferred(ok) == (s, Action::Stop),
{
}

/// Every transition keeps the invariant, whatever the outcome and whenever it
/// comes.
pub proof fn lemma_transitions_keep_invariant(
    s: SchedulerView,
    now: u64,
    ok: bool,
    account: Option<ProbeAccount>,
)
    requires
        s.wf(),
    ensures
        s.wake(now).0.wf(),
        s.initialized(ok).0.wf(),
        s.provisioned(account).0.wf(),
        s.transferred(ok).0.wf(),
        s.shutdown().0.wf(),
{
}

/// A failure, of whatever step, ends the round: the loop sleeps for the
/// configured interval, and the cursor and the pool are as they were.
pub proof fn lemma_failure_ends_round(s: SchedulerView)
    requires
        s.wf(),
    ensures
        s.phase is Initializing ==> s.initialized(false) == s.rest(),
        s.phase is Provisioning ==> s.provisioned(None) == s.rest(),
        s.phase is Transferring ==> s.transferred(false) == s.rest(),
        s.rest().1 == Action::Sleep(s.tr_interval),
        s.rest().0.next_acc == s.next_acc,
        s.rest().0.pool == s.pool,
{
}

/// No transition asks for a transfer while the pool is short of its target,
/// and every transfer it asks for names two places of the pool.
pub proof fn lemma_transfers_need_full_pool(
    s: SchedulerView,
    now: u64,
    ok: bool,
    account: Option<ProbeAccount>,
)
    requires
        s.wf(),
    ensures
        transfer_in_pool(s.wake(now)),
        transfer_in_pool(s.initialized(ok)),
        transfer_in_pool(s.provisioned(account)),
        transfer_in_pool(s.transferred(ok)),
{
}

/// Where the action is a transfer, the pool is full and both places lie in it.
pub open spec fn transfer_in_pool(step: (SchedulerView, Action)) -> bool {
    step.1 matches Action::Transfer { from, to } ==> {
        &&& step.0.pool.len() == step.0.acc_count
        &&& from == step.0.next_acc
        &&& from < step.0.pool.len()
        &&& to < step.0.pool.len()
    }
}

} // verus!
