//! The lock manager: one acquisition attempt across all storage instances,
//! the handle that a successful attempt yields, and its release.

use crate::request::{LockRequest, LockRequestView, SetReply, UnlockRequest, UnlockRequestView};
use crate::text::copy_strings;
use crate::token::{hyphenated, id_text, is_random_id, random_id};
use vstd::prelude::*;
use vstd::string::*;

verus! {

/// The number of instances, out of `n`, that must have stored the token: a
/// strict majority.
pub open spec fn quorum(n: nat) -> nat {
    n / 2 + 1
}

/// How many of the first `n` instances stored the token, going by `replies`.
/// An instance for which `replies` holds no entry counts as not reached.
pub open spec fn granted(replies: Seq<SetReply>, n: nat) -> nat
    decreases n,
{
    if n == 0 {
        0
    } else {
        let before = granted(replies, (n - 1) as nat);
        if n - 1 < replies.len() && replies[n - 1] == SetReply::Stored {
            before + 1
        } else {
            before
        }
    }
}

/// The time that has passed between two readings of one monotonic clock. A
/// later reading that lies before the earlier one counts as no time at all.
pub open spec fn elapsed_between(started_ms: u128, now_ms: u128) -> nat {
    if now_ms >= started_ms {
        (now_ms - started_ms) as nat
    } else {
        0
    }
}

/// A lock handle as a mathematical value.
pub struct RedlockView {
    /// Addresses of the storage instances, in the order they are contacted.
    pub servers: Seq<Seq<char>>,
    /// The lock's name.
    pub name: Seq<char>,
    /// The ownership token.
    pub id: u128,
}

impl RedlockView {
    /// The commands that release the lock: one conditional delete per
    /// instance, in order, each for this lock's name and token.
    pub open spec fn release_requests(self) -> Seq<UnlockRequestView> {
        Seq::new(
            self.servers.len(),
            |i: int|
                UnlockRequestView {
                    server: self.servers[i],
                    key: self.name,
                    value: hyphenated(self.id),
                },
        )
    }
}

/// An acquisition attempt as a mathematical value.
pub struct AttemptView {
    /// Addresses of the storage instances, in the order they are contacted.
    pub servers: Seq<Seq<char>>,
    /// The lock's name.
    pub name: Seq<char>,
    /// The ownership token of this attempt.
    pub id: u128,
    /// Lease duration in milliseconds.
    pub ttl_ms: u64,
    /// The clock's reading when the attempt began, in milliseconds.
    pub started_ms: u128,
}

impl AttemptView {
    /// The handle that this attempt yields if it succeeds.
    pub open spec fn handle(self) -> RedlockView {
        RedlockView { servers: self.servers, name: self.name, id: self.id }
    }

    /// The commands of this attempt: one conditional write per instance, in
    /// order.
    pub open spec fn lock_requests(self) -> Seq<LockRequestView> {
        Seq::new(
            self.servers.len(),
            |i: int|
                LockRequestView {
                    server: self.servers[i],
                    key: self.name,
                    value: hyphenated(self.id),
                    ttl_ms: self.ttl_ms,
                },
        )
    }

    /// Whether a strict majority of the instances stored the token.
    pub open spec fn has_quorum(self, replies: Seq<SetReply>) -> bool {
        granted(replies, self.servers.len()) >= quorum(self.servers.len())
    }

    /// Whether part of the lease is left at `now_ms`.
    pub open spec fn within_lease(self, now_ms: u128) -> bool {
        elapsed_between(self.started_ms, now_ms) < self.ttl_ms
    }

    /// Whether the attempt yields a handle: a strict majority stored the
    /// token, and the lease has not run out while the replies came in.
    pub open spec fn accepted(self, replies: Seq<SetReply>, now_ms: u128) -> bool {
        self.has_quorum(replies) && self.within_lease(now_ms)
    }

    /// How the attempt ends on these replies, read at `now_ms`: with the
    /// handle if it is accepted, and otherwise with the commands that take the
    /// token away from every instance again.
    pub open spec fn outcome(self, replies: Seq<SetReply>, now_ms: u128) -> OutcomeView {
        if self.accepted(replies, now_ms) {
            OutcomeView::Acquired(self.handle())
        } else {
            OutcomeView::Rejected(self.handle().release_requests())
        }
    }
}

/// An [`Outcome`] as a mathematical value.
pub enum OutcomeView {
    Acquired(RedlockView),
    Rejected(Seq<UnlockRequestView>),
}

/// A held lock: the storage instances, the lock's name and the token that
/// proves ownership.
///
/// A handle comes out of [`Attempt::conclude`] and nowhere else, apart from
/// copies of it. Every copy has the same authority to release the lock.
#[derive(Debug)]
pub struct Redlock {
    servers: Vec<String>,
    name: String,
    id: u128,
}

impl View for Redlock {
    type V = RedlockView;

    closed spec fn view(&self) -> RedlockView {
        RedlockView { servers: self.servers.deep_view(), name: self.name@, id: self.id }
    }
}

/// An acquisition attempt under way: the commands have been fixed, the
/// replies are still to come.
#[derive(Debug)]
pub struct Attempt {
    servers: Vec<String>,
    name: String,
    id: u128,
    ttl_ms: u64,
    started_ms: u128,
}

impl View for Attempt {
    type V = AttemptView;

    closed spec fn view(&self) -> AttemptView {
        AttemptView {
            servers: self.servers.deep_view(),
            name: self.name@,
            id: self.id,
            ttl_ms: self.ttl_ms,
            started_ms: self.started_ms,
        }
    }
}

/// How an attempt ended.
#[derive(Debug)]
pub enum Outcome {
    /// The lock is held.
    Acquired(Redlock),
    /// The lock is not held. The commands undo what the attempt may have
    /// stored; they are to be sent to every instance, and their failures
    /// ignored.
    Rejected(Vec<UnlockRequest>),
}

impl View for Outcome {
    type V = OutcomeView;

    open spec fn view(&self) -> OutcomeView {
        match self {
            Outcome::Acquired(lock) => OutcomeView::Acquired(lock@),
            Outcome::Rejected(cleanup) => OutcomeView::Rejected(cleanup.deep_view()),
        }
    }
}

fn unlock_requests(servers: &Vec<String>, name: &String, id: u128) -> (reqs: Vec<UnlockRequest>)
    ensures
        reqs.deep_view() == (RedlockView {
            servers: servers.deep_view(),
            name: name@,
            id,
        }).release_requests(),
{
    let mut reqs: Vec<UnlockRequest> = Vec::new();
    let mut i: usize = 0;
    while i < servers.len()
        invariant
            i <= servers.len(),
            reqs.len() == i,
            forall|j: int|
                0 <= j < i ==> reqs[j]@ == (UnlockRequestView {
                    server: servers[j]@,
                    key: name@,
                    value: hyphenated(id),
                }),
        decreases servers.len() - i,
    {
        reqs.push(
            UnlockRequest { server: servers[i].clone(), key: name.clone(), value: id_text(id) },
        );
        i += 1;
    }
    assert(reqs.deep_view() =~= (RedlockView {
        servers: servers.deep_view(),
        name: name@,
        id,
    }).release_requests());
    reqs
}

impl Redlock {
    /// Begins an attempt to take the lock `lock_name` at `servers` for
    /// `ttl_ms` milliseconds, under a fresh random token. `now_ms` is the
    /// reading of a monotonic clock, in milliseconds; the same clock is read
    /// again for [`Attempt::conclude`].
    ///
    /// The attempt is carried out by sending [`Attempt::requests`] and handing
    /// the replies to [`Attempt::conclude`]. An attempt at no instances, or for
    /// a lease of zero milliseconds, is carried out like any other and ends
    /// without a handle.
    pub fn try_lock(servers: &Vec<String>, lock_name: &str, ttl_ms: u64, now_ms: u128) -> (attempt:
        Attempt)
        ensures
            attempt@.servers == servers.deep_view(),
            attempt@.name == lock_name@,
            attempt@.ttl_ms == ttl_ms,
            attempt@.started_ms == now_ms,
            is_random_id(attempt@.id),
    {
        Attempt::with_token(servers, lock_name, ttl_ms, random_id(), now_ms)
    }

    /// The commands that release the lock: one per storage instance, to be
    /// sent to each whatever the others answer, their failures ignored.
    ///
    /// Releasing is safe to repeat, from this handle or a copy of it.
    pub fn release(&self) -> (reqs: Vec<UnlockRequest>)
        ensures
            reqs.deep_view() == self@.release_requests(),
    {
        unlock_requests(&self.servers, &self.name, self.id)
    }

    /// The addresses of the storage instances.
    pub fn servers(&self) -> (servers: &Vec<String>)
        ensures
            servers.deep_view() == self@.servers,
    {
        &self.servers
    }

    /// The lock's name.
    pub fn name(&self) -> (name: &str)
        ensures
            name@ == self@.name,
    {
        self.name.as_str()
    }

    /// The ownership token.
    pub fn id(&self) -> (id: u128)
        ensures
            id == self@.id,
    {
        self.id
    }
}

impl Clone for Redlock {
    fn clone(&self) -> (copy: Self)
        ensures
            copy@ == self@,
    {
        Redlock { servers: copy_strings(&self.servers), name: self.name.clone(), id: self.id }
    }
}

impl Attempt {
    /// Begins an attempt as [`Redlock::try_lock`] does, under the given
    /// token.
    pub fn with_token(
        servers: &Vec<String>,
        lock_name: &str,
        ttl_ms: u64,
        id: u128,
        now_ms: u128,
    ) -> (attempt: Attempt)
        ensures
            attempt@ == (AttemptView {
                servers: servers.deep_view(),
                name: lock_name@,
                id,
                ttl_ms,
                started_ms: now_ms,
            }),
    {
        Attempt {
            servers: copy_strings(servers),
            name: String::from_str(lock_name),
            id,
            ttl_ms,
            started_ms: now_ms,
        }
    }

    /// The ownership token of this attempt.
    pub fn id(&self) -> (id: u128)
        ensures
            id == self@.id,
    {
        self.id
    }

    /// The commands of this attempt: one per storage instance, in order. Each
    /// is to be sent whatever the others answer.
    pub fn requests(&self) -> (reqs: Vec<LockRequest>)
        ensures
            reqs.deep_view() == self@.lock_requests(),
    {
        let mut reqs: Vec<LockRequest> = Vec::new();
        let mut i: usize = 0;
        while i < self.servers.len()
            invariant
                i <= self.servers.len(),
                reqs.len() == i,
                forall|j: int|
                    0 <= j < i ==> reqs[j]@ == (LockRequestView {
                        server: self.servers[j]@,
                        key: self.name@,
                        value: hyphenated(self.id),
                        ttl_ms: self.ttl_ms,
                    }),
            decreases self.servers.len() - i,
        {
            reqs.push(
                LockRequest {
                    server: self.servers[i].clone(),
                    key: self.name.clone(),
                    value: id_text(self.id),
                    ttl_ms: self.ttl_ms,
                },
            );
            i += 1;
        }
        assert(reqs.deep_view() =~= self@.lock_requests());
        reqs
    }

    /// How many instances stored the token, going by `replies`: the reply at
    /// position `i` is that of the instance at position `i`.
    pub fn count_granted(&self, replies: &Vec<SetReply>) -> (count: usize)
        ensures
            count == granted(replies@, self@.servers.len()),
    {
        let mut count: usize = 0;
        let mut i: usize = 0;
        while i < self.servers.len()
            invariant
                i <= self.servers.len(),
                count <= i,
                count == granted(replies@, i as nat),
            decreases self.servers.len() - i,
        {
            if i < replies.len() && replies[i].is_stored() {
                count += 1;
            }
            i += 1;
        }
        count
    }

    /// Ends the attempt. `replies` holds the reply of each instance, in the
    /// order of [`Attempt::requests`]; `now_ms` is the clock's reading after
    /// the last reply came in.
    ///
    /// The lock is held if and only if a strict majority of all instances
    /// stored the token and less than the lease duration has passed since the
    /// attempt began. Otherwise the outcome carries the commands that take the
    /// token away from every instance again.
    pub fn conclude(self, replies: &Vec<SetReply>, now_ms: u128) -> (outcome: Outcome)
        ensures
            outcome@ == self@.outcome(replies@, now_ms),
    {
        let locked: usize = self.count_granted(replies);
        let needed: usize = self.servers.len() / 2 + 1;
        let elapsed: u128 = if now_ms >= self.started_ms {
            now_ms - self.started_ms
        } else {
            0
        };
        if needed <= locked && elapsed < self.ttl_ms as u128 {
            Outcome::Acquired(Redlock { servers: self.servers, name: self.name, id: self.id })
        } else {
            Outcome::Rejected(unlock_requests(&self.servers, &self.name, self.id))
        }
    }
}

} // verus!
