//! The acquisition loop: attempt after attempt, a fixed pause between them,
//! until the lock is held or the time allowed for acquiring it is used up.
//!
//! The loop is a state machine. It performs nothing itself: in every state it
//! names the one thing its driver is to do next, and the driver reports back
//! with an event.

use crate::lock::{elapsed_between, Attempt, AttemptView, Outcome, OutcomeView, Redlock, RedlockView};
use crate::request::{LockRequest, LockRequestView, SetReply, UnlockRequest, UnlockRequestView};
use crate::text::{copy_strings, decimal, decimal_string};
use crate::token::is_random_id;
use vstd::prelude::*;
use vstd::string::*;

verus! {

/// The pause between a failed attempt and the next one, in milliseconds. It
/// does not grow.
pub const RETRY_INTERVAL_MS: u64 = 100;

/// The lease duration in milliseconds for one given in seconds. A duration
/// beyond the range of milliseconds counts as the longest one in range.
pub open spec fn lease_ms(ttl_secs: u64) -> u64 {
    if ttl_secs * 1000 <= u64::MAX {
        (ttl_secs * 1000) as u64
    } else {
        u64::MAX
    }
}

/// Where the loop stands.
#[derive(Clone, Copy, Debug, PartialEq, Eq, Structural)]
pub enum LoopState {
    /// About to look at the clock: either the deadline has passed, or an
    /// attempt follows.
    Waiting,
    /// An attempt is under way: its commands are out.
    Attempting,
    /// The last attempt failed; what it may have stored is being taken away.
    Cleaning,
    /// The last attempt failed; the pause before the next one is due.
    Retry,
    /// The lock is held. Final.
    Acquired,
    /// The deadline passed without a successful attempt. Final.
    Failed,
}

/// What the driver reports.
#[derive(Debug)]
pub enum LoopEvent {
    /// The clock's reading in milliseconds.
    Clock(u128),
    /// The reply of each instance, in the order of the commands, and the
    /// clock's reading after the last reply came in.
    Replied(Vec<SetReply>, u128),
    /// The conditional deletes have been sent.
    Cleaned,
    /// The pause is over.
    Slept,
}

/// A [`LoopEvent`] as a mathematical value.
pub enum LoopEventView {
    Clock(u128),
    Replied(Seq<SetReply>, u128),
    Cleaned,
    Slept,
}

impl View for LoopEvent {
    type V = LoopEventView;

    open spec fn view(&self) -> LoopEventView {
        match self {
            LoopEvent::Clock(now_ms) => LoopEventView::Clock(*now_ms),
            LoopEvent::Replied(replies, now_ms) => LoopEventView::Replied(replies@, *now_ms),
            LoopEvent::Cleaned => LoopEventView::Cleaned,
            LoopEvent::Slept => LoopEventView::Slept,
        }
    }
}

/// Why the loop gave up.
#[derive(Debug)]
pub struct AcquireError {
    /// The lock that could not be acquired.
    pub lock_name: String,
    /// The time that was allowed for acquiring it, in seconds.
    pub timeout_secs: u64,
}

/// An [`AcquireError`] as a mathematical value.
pub struct AcquireErrorView {
    pub lock_name: Seq<char>,
    pub timeout_secs: u64,
}

impl View for AcquireError {
    type V = AcquireErrorView;

    open spec fn view(&self) -> AcquireErrorView {
        AcquireErrorView { lock_name: self.lock_name@, timeout_secs: self.timeout_secs }
    }
}

impl AcquireErrorView {
    /// The error in words.
    pub open spec fn message(self) -> Seq<char> {
        "failed to acquire lock "@ + self.lock_name + " in "@ + decimal(self.timeout_secs as nat)
            + " sec"@
    }
}

impl AcquireError {
    /// The error in words, naming the lock and the time allowed.
    pub fn message(&self) -> (text: String)
        ensures
            text@ == self@.message(),
    {
        let mut text = String::from_str("failed to acquire lock ");
        text.append(self.lock_name.as_str());
        text.append(" in ");
        text.append(decimal_string(self.timeout_secs).as_str());
        text.append(" sec");
        text
    }
}

/// What the driver is to do next.
#[derive(Debug)]
pub enum LoopAction {
    /// Read the clock and report [`LoopEvent::Clock`].
    ReadClock,
    /// Send each conditional write, whatever the others come to, and report
    /// [`LoopEvent::Replied`].
    Lock(Vec<LockRequest>),
    /// Send each conditional delete, whatever the others come to and whether
    /// or not it fails, and report [`LoopEvent::Cleaned`].
    Unlock(Vec<UnlockRequest>),
    /// Pause for this many milliseconds and report [`LoopEvent::Slept`].
    Sleep(u64),
    /// Nothing more: the lock is held, and this is its handle.
    Hold(Redlock),
    /// Nothing more: report this error.
    Fail(AcquireError),
}

/// A [`LoopAction`] as a mathematical value.
pub enum LoopActionView {
    ReadClock,
    Lock(Seq<LockRequestView>),
    Unlock(Seq<UnlockRequestView>),
    Sleep(u64),
    Hold(RedlockView),
    Fail(AcquireErrorView),
}

impl View for LoopAction {
    type V = LoopActionView;

    open spec fn view(&self) -> LoopActionView {
        match self {
            LoopAction::ReadClock => LoopActionView::ReadClock,
            LoopAction::Lock(requests) => LoopActionView::Lock(requests.deep_view()),
            LoopAction::Unlock(requests) => LoopActionView::Unlock(requests.deep_view()),
            LoopAction::Sleep(ms) => LoopActionView::Sleep(*ms),
            LoopAction::Hold(lock) => LoopActionView::Hold(lock@),
            LoopAction::Fail(error) => LoopActionView::Fail(error@),
        }
    }
}

/// Where the loop stands, with what it holds there, as a mathematical value.
pub enum PhaseView {
    Waiting,
    /// With the attempt under way.
    Attempting(AttemptView),
    /// With the conditional deletes that clean up after the failed attempt.
    Cleaning(Seq<UnlockRequestView>),
    Retry,
    /// With the handle.
    Acquired(RedlockView),
    Failed,
}

impl PhaseView {
    /// The state alone.
    pub open spec fn state(self) -> LoopState {
        match self {
            PhaseView::Waiting => LoopState::Waiting,
            PhaseView::Attempting(_) => LoopState::Attempting,
            PhaseView::Cleaning(_) => LoopState::Cleaning,
            PhaseView::Retry => LoopState::Retry,
            PhaseView::Acquired(_) => LoopState::Acquired,
            PhaseView::Failed => LoopState::Failed,
        }
    }
}

/// The acquisition loop as a mathematical value.
pub struct AcquisitionView {
    /// Addresses of the storage instances, in the order they are contacted.
    pub servers: Seq<Seq<char>>,
    /// The lock to acquire.
    pub lock_name: Seq<char>,
    /// Lease duration of every attempt, in milliseconds.
    pub ttl_ms: u64,
    /// The time allowed for acquiring the lock, in seconds.
    pub timeout_secs: u64,
    /// The clock's reading when the loop began, in milliseconds.
    pub started_ms: u128,
    /// Where the loop stands.
    pub phase: PhaseView,
}

impl AcquisitionView {
    /// Whether time is left for another attempt at `now_ms`.
    pub open spec fn in_time(self, now_ms: u128) -> bool {
        elapsed_between(self.started_ms, now_ms) < self.timeout_secs * 1000
    }

    /// The attempt that the loop makes at `now_ms` under the token `id`.
    pub open spec fn attempt(self, id: u128, now_ms: u128) -> AttemptView {
        AttemptView {
            servers: self.servers,
            name: self.lock_name,
            id,
            ttl_ms: self.ttl_ms,
            started_ms: now_ms,
        }
    }

    /// The token of the attempt under way, if one is.
    pub open spec fn token(self) -> u128 {
        match self.phase {
            PhaseView::Attempting(attempt) => attempt.id,
            _ => 0,
        }
    }

    /// Where the loop stands after `event`. An event that the loop does not
    /// wait for changes nothing. `fresh` is the token of the attempt that
    /// begins, if one does.
    pub open spec fn next_phase(self, event: LoopEventView, fresh: u128) -> PhaseView {
        match (self.phase, event) {
            (PhaseView::Waiting, LoopEventView::Clock(now_ms)) => if self.in_time(now_ms) {
                PhaseView::Attempting(self.attempt(fresh, now_ms))
            } else {
                PhaseView::Failed
            },
            (PhaseView::Attempting(attempt), LoopEventView::Replied(replies, now_ms)) => match attempt.outcome(
                replies,
                now_ms,
            ) {
                OutcomeView::Acquired(lock) => PhaseView::Acquired(lock),
                OutcomeView::Rejected(cleanup) => PhaseView::Cleaning(cleanup),
            },
            (PhaseView::Cleaning(_), LoopEventView::Cleaned) => PhaseView::Retry,
            (PhaseView::Retry, LoopEventView::Slept) => PhaseView::Waiting,
            _ => self.phase,
        }
    }

    /// The loop after `event`.
    pub open spec fn step(self, event: LoopEventView, fresh: u128) -> AcquisitionView {
        AcquisitionView { phase: self.next_phase(event, fresh), ..self }
    }

    /// The error that the loop reports when it fails.
    pub open spec fn error(self) -> AcquireErrorView {
        AcquireErrorView { lock_name: self.lock_name, timeout_secs: self.timeout_secs }
    }

    /// What the driver is to do where the loop stands.
    pub open spec fn action(self) -> LoopActionView {
        match self.phase {
            PhaseView::Waiting => LoopActionView::ReadClock,
            PhaseView::Attempting(attempt) => LoopActionView::Lock(attempt.lock_requests()),
            PhaseView::Cleaning(cleanup) => LoopActionView::Unlock(cleanup),
            PhaseView::Retry => LoopActionView::Sleep(RETRY_INTERVAL_MS),
            PhaseView::Acquired(lock) => LoopActionView::Hold(lock),
            PhaseView::Failed => LoopActionView::Fail(self.error()),
        }
    }
}

/// The acquisition loop for one lock.
#[derive(Debug)]
pub struct Acquisition {
    servers: Vec<String>,
    lock_name: String,
    ttl_ms: u64,
    timeout_secs: u64,
    started_ms: u128,
    phase: Phase,
}

#[derive(Debug)]
enum Phase {
    Waiting,
    Attempting(Attempt),
    Cleaning(Vec<UnlockRequest>),
    Retry,
    Acquired(Redlock),
    Failed,
}

impl View for Phase {
    type V = PhaseView;

    closed spec fn view(&self) -> PhaseView {
        match self {
            Phase::Waiting => PhaseView::Waiting,
            Phase::Attempting(attempt) => PhaseView::Attempting(attempt@),
            Phase::Cleaning(cleanup) => PhaseView::Cleaning(cleanup.deep_view()),
            Phase::Retry => PhaseView::Retry,
            Phase::Acquired(lock) => PhaseView::Acquired(lock@),
            Phase::Failed => PhaseView::Failed,
        }
    }
}

impl View for Acquisition {
    type V = AcquisitionView;

    closed spec fn view(&self) -> AcquisitionView {
        AcquisitionView {
            servers: self.servers.deep_view(),
            lock_name: self.lock_name@,
            ttl_ms: self.ttl_ms,
            timeout_secs: self.timeout_secs,
            started_ms: self.started_ms,
            phase: self.phase@,
        }
    }
}

fn copy_unlocks(items: &Vec<UnlockRequest>) -> (copy: Vec<UnlockRequest>)
    ensures
        copy.deep_view() == items.deep_view(),
{
    let mut copy: Vec<UnlockRequest> = Vec::new();
    let mut i: usize = 0;
    while i < items.len()
        invariant
            i <= items.len(),
            copy.len() == i,
            forall|j: int| 0 <= j < i ==> copy[j]@ == items[j]@,
        decreases items.len() - i,
    {
        copy.push(items[i].clone());
        i += 1;
    }
    assert(copy.deep_view() =~= items.deep_view());
    copy
}

impl Acquisition {
    /// A loop that tries for `timeout_secs` seconds, counted from the clock
    /// reading `now_ms`, to acquire `lock_name` at `servers`, with a lease of
    /// `ttl_secs` seconds for every attempt.
    pub fn new(
        servers: &Vec<String>,
        lock_name: &str,
        ttl_secs: u64,
        timeout_secs: u64,
        now_ms: u128,
    ) -> (acquisition: Acquisition)
        ensures
            acquisition@ == (AcquisitionView {
                servers: servers.deep_view(),
                lock_name: lock_name@,
                ttl_ms: lease_ms(ttl_secs),
                timeout_secs,
                started_ms: now_ms,
                phase: PhaseView::Waiting,
            }),
    {
        let ttl_ms: u64 = if ttl_secs <= u64::MAX / 1000 {
            ttl_secs * 1000
        } else {
            u64::MAX
        };
        Acquisition {
            servers: copy_strings(servers),
            lock_name: String::from_str(lock_name),
            ttl_ms,
            timeout_secs,
            started_ms: now_ms,
            phase: Phase::Waiting,
        }
    }

    /// Where the loop stands.
    pub fn state(&self) -> (state: LoopState)
        ensures
            state == self@.phase.state(),
    {
        match self.phase {
            Phase::Waiting => LoopState::Waiting,
            Phase::Attempting(_) => LoopState::Attempting,
            Phase::Cleaning(_) => LoopState::Cleaning,
            Phase::Retry => LoopState::Retry,
            Phase::Acquired(_) => LoopState::Acquired,
            Phase::Failed => LoopState::Failed,
        }
    }

    /// What the driver is to do next.
    pub fn action(&self) -> (action: LoopAction)
        ensures
            action@ == self@.action(),
    {
        match &self.phase {
            Phase::Waiting => LoopAction::ReadClock,
            Phase::Attempting(attempt) => LoopAction::Lock(attempt.requests()),
            Phase::Cleaning(cleanup) => LoopAction::Unlock(copy_unlocks(cleanup)),
            Phase::Retry => LoopAction::Sleep(RETRY_INTERVAL_MS),
            Phase::Acquired(lock) => LoopAction::Hold(lock.clone()),
            Phase::Failed => LoopAction::Fail(
                AcquireError { lock_name: self.lock_name.clone(), timeout_secs: self.timeout_secs },
            ),
        }
    }

    /// Takes in what the driver reports, and gives the loop as it stands
    /// then, with what the driver is to do next.
    ///
    /// When an attempt begins, it does so under a fresh random token.
    pub fn step(self, event: LoopEvent) -> (next: (Acquisition, LoopAction))
        ensures
            next.0@ == self@.step(event@, next.0@.token()),
            next.1@ == next.0@.action(),
            self@.phase is Waiting && next.0@.phase is Attempting ==> is_random_id(next.0@.token()),
    {
        let Acquisition { servers, lock_name, ttl_ms, timeout_secs, started_ms, phase } = self;
        let phase = match (phase, event) {
            (Phase::Waiting, LoopEvent::Clock(now_ms)) => {
                let elapsed: u128 = if now_ms >= started_ms {
                    now_ms - started_ms
                } else {
                    0
                };
                if elapsed < (timeout_secs as u128) * 1000 {
                    Phase::Attempting(Redlock::try_lock(&servers, lock_name.as_str(), ttl_ms, now_ms))
                } else {
                    Phase::Failed
                }
            },
            (Phase::Attempting(attempt), LoopEvent::Replied(replies, now_ms)) => {
                match attempt.conclude(&replies, now_ms) {
                    Outcome::Acquired(lock) => Phase::Acquired(lock),
                    Outcome::Rejected(cleanup) => Phase::Cleaning(cleanup),
                }
            },
            (Phase::Cleaning(_), LoopEvent::Cleaned) => Phase::Retry,
            (Phase::Retry, LoopEvent::Slept) => Phase::Waiting,
            (phase, _) => phase,
        };
        let next = Acquisition { servers, lock_name, ttl_ms, timeout_secs, started_ms, phase };
        let action = next.action();
        (next, action)
    }
}

} // verus!
