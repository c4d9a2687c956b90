//! Leases and mutual exclusion: what a handle rests on when it is handed
//! out, and that of two attempts on one lock at most one holds it at any
//! time.

use crate::lock::{granted, quorum, AttemptView};
use crate::request::{LockRequestView, SetReply};
use crate::store::{
    apply, held_by, in_time_order, replay, succeeded, Cluster, Command, Entry, Op,
};
use crate::token::{hyphenated, hyphenated_is_injective};
use vstd::prelude::*;

verus! {

proof fn lemma_disjoint_bound(first: Seq<SetReply>, second: Seq<SetReply>, n: nat)
    requires
        forall|i: int|
            0 <= i < n && i < first.len() && i < second.len() ==> !(first[i] == SetReply::Stored
                && second[i] == SetReply::Stored),
    ensures
        granted(first, n) + granted(second, n) <= n,
    decreases n,
{
    if n > 0 {
        lemma_disjoint_bound(first, second, (n - 1) as nat);
    }
}

/// Any two majorities of the same instances have an instance in common.
pub proof fn quorums_intersect(first: Seq<SetReply>, second: Seq<SetReply>, n: nat)
    requires
        granted(first, n) >= quorum(n),
        granted(second, n) >= quorum(n),
    ensures
        exists|i: int|
            0 <= i < n && i < first.len() && i < second.len() && first[i] == SetReply::Stored
                && second[i] == SetReply::Stored,
{
    if forall|i: int|
        0 <= i < n && i < first.len() && i < second.len() ==> !(first[i] == SetReply::Stored
            && second[i] == SetReply::Stored) {
        lemma_disjoint_bound(first, second, n);
    }
}

/// Whether `op` is the conditional delete that gives up what `req` stored.
pub open spec fn gives_up(op: Op, req: LockRequestView) -> bool {
    op.command matches Command::Unlock(unlock) && unlock.server == req.server && unlock.key
        == req.key && unlock.value == req.value
}

proof fn lemma_take_step(cluster: Cluster, ops: Seq<Op>, r: int)
    requires
        0 <= r < ops.len(),
    ensures
        replay(cluster, ops.take(r + 1)) == apply(replay(cluster, ops.take(r)), ops[r]).0,
{
    assert(ops.take(r + 1).drop_last() =~= ops.take(r));
}

proof fn lemma_entry_stays(cluster: Cluster, ops: Seq<Op>, p: int, r: int, req: LockRequestView)
    requires
        0 <= p < r <= ops.len(),
        ops[p].command == Command::Lock(req),
        succeeded(cluster, ops, p),
        forall|m: int| p < m < r ==> !gives_up(#[trigger] ops[m], req),
        forall|m: int| p < m < r ==> (#[trigger] ops[m]).at < ops[p].at + req.ttl_ms,
    ensures
        ({
            let now = replay(cluster, ops.take(r));
            &&& now.dom().contains(req.server)
            &&& now[req.server].dom().contains(req.key)
            &&& now[req.server][req.key] == Entry {
                value: req.value,
                expires_at: ops[p].at + req.ttl_ms,
            }
        }),
    decreases r - p,
{
    lemma_take_step(cluster, ops, r - 1);
    if r > p + 1 {
        lemma_entry_stays(cluster, ops, p, r - 1, req);
        let op = ops[r - 1];
        assert(!gives_up(op, req));
        assert(op.at < ops[p].at + req.ttl_ms);
    }
}

/// A lease shuts others out: once an instance has stored a value under a key,
/// no later conditional write on that key succeeds there before the lease has
/// run out, unless the owner gives the key up in between.
pub proof fn lease_excludes(
    cluster: Cluster,
    ops: Seq<Op>,
    p: int,
    q: int,
    earlier: LockRequestView,
    later: LockRequestView,
)
    requires
        in_time_order(ops),
        0 <= p < q < ops.len(),
        ops[p].command == Command::Lock(earlier),
        ops[q].command == Command::Lock(later),
        earlier.server == later.server,
        earlier.key == later.key,
        succeeded(cluster, ops, p),
        succeeded(cluster, ops, q),
        forall|m: int| p < m < q ==> !gives_up(#[trigger] ops[m], earlier),
    ensures
        ops[q].at >= ops[p].at + earlier.ttl_ms,
{
    if ops[q].at < ops[p].at + earlier.ttl_ms {
        assert forall|m: int| p < m < q implies (#[trigger] ops[m]).at < ops[p].at
            + earlier.ttl_ms by {
            assert(ops[m].at <= ops[q].at);
        }
        lemma_entry_stays(cluster, ops, p, q, earlier);
    }
}

/// An attempt as it took place.
pub struct Performed {
    /// The attempt.
    pub attempt: AttemptView,
    /// The reply of each instance.
    pub replies: Seq<SetReply>,
    /// For each instance that stored the token, where in the course of events
    /// it did so.
    pub positions: Seq<int>,
    /// The clock's reading when the attempt was concluded.
    pub concluded_ms: u128,
}

impl Performed {
    /// Whether the attempt yielded a handle.
    pub open spec fn accepted(self) -> bool {
        self.attempt.accepted(self.replies, self.concluded_ms)
    }

    /// Whether the handle of this attempt is in force at time `t`: it has been
    /// handed out, and the lease, counted from the attempt's start, has not
    /// run out.
    pub open spec fn valid_at(self, t: int) -> bool {
        self.accepted() && self.concluded_ms <= t < self.attempt.started_ms + self.attempt.ttl_ms
    }

    /// Whether `ops`, executed from `cluster` on, bears the attempt out: every
    /// reply that reports the token stored stands for a conditional write of
    /// this attempt that an instance executed with success, after the attempt
    /// began and before it was concluded.
    pub open spec fn borne_out_by(self, cluster: Cluster, ops: Seq<Op>) -> bool {
        let n = self.attempt.servers.len();
        &&& self.replies.len() == n
        &&& self.positions.len() == n
        &&& forall|i: int|
            0 <= i < n && self.replies[i] == SetReply::Stored ==> {
                let p = #[trigger] self.positions[i];
                &&& 0 <= p < ops.len()
                &&& ops[p].command == Command::Lock(self.attempt.lock_requests()[i])
                &&& succeeded(cluster, ops, p)
                &&& self.attempt.started_ms <= ops[p].at <= self.concluded_ms
            }
    }

    /// Whether the lock of this attempt is never given up in `ops`.
    pub open spec fn kept_throughout(self, ops: Seq<Op>) -> bool {
        forall|m: int, i: int|
            0 <= m < ops.len() && 0 <= i < self.attempt.servers.len() ==> !gives_up(
                #[trigger] ops[m],
                #[trigger] self.attempt.lock_requests()[i],
            )
    }
}

/// What a handle rests on. When an attempt yields a handle, a strict
/// majority of its instances hold the lock's name with the attempt's token,
/// and none of these leases has run out: each instance that reported the
/// token stored still holds it at the moment the handle is handed out,
/// provided the owner has not given it up.
pub proof fn handle_rests_on_majority(cluster: Cluster, ops: Seq<Op>, run: Performed)
    requires
        in_time_order(ops),
        run.borne_out_by(cluster, ops),
        run.kept_throughout(ops),
        run.accepted(),
        forall|m: int| 0 <= m < ops.len() ==> (#[trigger] ops[m]).at <= run.concluded_ms,
    ensures
        granted(run.replies, run.attempt.servers.len()) >= run.attempt.servers.len() / 2 + 1,
        forall|i: int|
            0 <= i < run.attempt.servers.len() && run.replies[i] == SetReply::Stored ==> {
                let server = #[trigger] run.attempt.servers[i];
                &&& replay(cluster, ops).dom().contains(server)
                &&& held_by(
                    replay(cluster, ops)[server],
                    run.attempt.name,
                    hyphenated(run.attempt.id),
                    run.concluded_ms as int,
                )
            },
{
    assert forall|i: int|
        0 <= i < run.attempt.servers.len() && run.replies[i] == SetReply::Stored implies {
        let server = #[trigger] run.attempt.servers[i];
        &&& replay(cluster, ops).dom().contains(server)
        &&& held_by(
            replay(cluster, ops)[server],
            run.attempt.name,
            hyphenated(run.attempt.id),
            run.concluded_ms as int,
        )
    } by {
        let p = run.positions[i];
        let req = run.attempt.lock_requests()[i];
        assert forall|m: int| p < m < ops.len() implies !gives_up(#[trigger] ops[m], req) by {
            assert(!gives_up(ops[m], run.attempt.lock_requests()[i]));
        }
        lemma_entry_stays(cluster, ops, p, ops.len() as int, req);
        assert(ops.take(ops.len() as int) =~= ops);
    }
}

/// Mutual exclusion. Two attempts with different tokens contend for one lock
/// at the same instances, on one clock, and both yield a handle. As long as
/// neither gives its lock up, the two handles are never in force at the same
/// time: when the later one was handed out, the lease of the other had run
/// out.
pub proof fn mutual_exclusion(cluster: Cluster, ops: Seq<Op>, one: Performed, other: Performed)
    requires
        in_time_order(ops),
        one.attempt.servers == other.attempt.servers,
        one.attempt.name == other.attempt.name,
        one.attempt.id != other.attempt.id,
        one.borne_out_by(cluster, ops),
        other.borne_out_by(cluster, ops),
        one.kept_throughout(ops),
        other.kept_throughout(ops),
        one.accepted(),
        other.accepted(),
    ensures
        other.concluded_ms >= one.attempt.started_ms + one.attempt.ttl_ms || one.concluded_ms
            >= other.attempt.started_ms + other.attempt.ttl_ms,
        forall|t: int| !(one.valid_at(t) && other.valid_at(t)),
{
    let n = one.attempt.servers.len();
    quorums_intersect(one.replies, other.replies, n);
    let i = choose|i: int|
        0 <= i < n && i < one.replies.len() && i < other.replies.len() && one.replies[i]
            == SetReply::Stored && other.replies[i] == SetReply::Stored;
    let p = one.positions[i];
    let q = other.positions[i];
    let mine = one.attempt.lock_requests()[i];
    let theirs = other.attempt.lock_requests()[i];
    if p == q {
        assert(mine.value == theirs.value);
        hyphenated_is_injective(one.attempt.id, other.attempt.id);
    } else if p < q {
        assert forall|m: int| p < m < q implies !gives_up(#[trigger] ops[m], mine) by {
            assert(!gives_up(ops[m], one.attempt.lock_requests()[i]));
        }
        lease_excludes(cluster, ops, p, q, mine, theirs);
    } else {
        assert forall|m: int| q < m < p implies !gives_up(#[trigger] ops[m], theirs) by {
            assert(!gives_up(ops[m], other.attempt.lock_requests()[i]));
        }
        lease_excludes(cluster, ops, q, p, theirs, mine);
    }
}

} // verus!
