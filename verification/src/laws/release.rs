//! Releasing a lock: what it does to the storage instances, that doing it
//! twice is harmless, and that it never takes away what belongs to another
//! owner.

use crate::lock::RedlockView;
use crate::request::UnlockRequestView;
use crate::store::{apply, held_by, replay, unlocks_at, Cluster, Command, Instance, Op};
use crate::token::hyphenated;
use vstd::prelude::*;

verus! {

/// One conditional delete respects ownership: sent to an instance that does
/// not hold the key with the sender's token, it changes nothing, whatever the
/// key holds instead and whenever the command arrives.
pub proof fn unlock_spares_other_owner(cluster: Cluster, req: UnlockRequestView, at: int)
    requires
        cluster.dom().contains(req.server) ==> !held_by(
            cluster[req.server],
            req.key,
            req.value,
            at,
        ),
    ensures
        apply(cluster, Op { command: Command::Unlock(req), at }) == (cluster, false),
{
    if cluster.dom().contains(req.server) {
        assert(cluster.insert(req.server, cluster[req.server]) =~= cluster);
    }
}

/// One conditional delete is idempotent: sent again, at the same time or
/// later, it finds nothing to delete.
pub proof fn unlock_is_idempotent(cluster: Cluster, req: UnlockRequestView, first: int, second: int)
    requires
        first <= second,
    ensures
        ({
            let once = apply(cluster, Op { command: Command::Unlock(req), at: first }).0;
            apply(once, Op { command: Command::Unlock(req), at: second }) == (once, false)
        }),
{
    let once = apply(cluster, Op { command: Command::Unlock(req), at: first }).0;
    unlock_spares_other_owner(once, req, second);
}

/// The cluster after the lock has been released at time `now`: after the
/// commands of [`RedlockView::release_requests`], in order.
pub open spec fn released(cluster: Cluster, lock: RedlockView, now: int) -> Cluster {
    replay(cluster, unlocks_at(lock.release_requests(), now))
}

/// The instance at `server` after a release of `lock` at `now`: it has lost
/// the lock's key if it is one of the lock's instances and held the key with
/// the lock's token; if not, it is as it was.
pub open spec fn instance_after_release(
    cluster: Cluster,
    lock: RedlockView,
    now: int,
    server: Seq<char>,
) -> Instance {
    if lock.servers.contains(server) && held_by(
        cluster[server],
        lock.name,
        hyphenated(lock.id),
        now,
    ) {
        cluster[server].remove(lock.name)
    } else {
        cluster[server]
    }
}

proof fn lemma_release_prefix(cluster: Cluster, lock: RedlockView, now: int, k: int)
    requires
        0 <= k <= lock.servers.len(),
    ensures
        ({
            let prefix = RedlockView { servers: lock.servers.take(k), ..lock };
            &&& released(cluster, prefix, now).dom() == cluster.dom()
            &&& forall|server: Seq<char>| #[trigger]
                cluster.dom().contains(server) ==> released(cluster, prefix, now)[server]
                    == instance_after_release(cluster, prefix, now, server)
        }),
    decreases k,
{
    let prefix = RedlockView { servers: lock.servers.take(k), ..lock };
    let ops = unlocks_at(prefix.release_requests(), now);
    if k > 0 {
        let shorter = RedlockView { servers: lock.servers.take(k - 1), ..lock };
        lemma_release_prefix(cluster, lock, now, k - 1);
        assert(ops.drop_last() =~= unlocks_at(shorter.release_requests(), now));
        assert(ops.last().command == Command::Unlock(
            UnlockRequestView {
                server: lock.servers[k - 1],
                key: lock.name,
                value: hyphenated(lock.id),
            },
        ));
        assert(prefix.servers =~= shorter.servers.push(lock.servers[k - 1]));
        assert forall|server: Seq<char>| #[trigger] cluster.dom().contains(server) implies released(
            cluster,
            prefix,
            now,
        )[server] =~= instance_after_release(cluster, prefix, now, server) by {
            if prefix.servers.contains(server) && server != lock.servers[k - 1] {
                let i = choose|i: int| 0 <= i < k && prefix.servers[i] == server;
                assert(shorter.servers[i] == server);
            }
            if shorter.servers.contains(server) {
                let i = choose|i: int| 0 <= i < k - 1 && shorter.servers[i] == server;
                assert(prefix.servers[i] == server);
            }
        }
    }
}

/// What a release does to the cluster: it touches no instance but the lock's
/// own, and of those it changes exactly the ones that hold the lock's key
/// with the lock's token, by deleting that key.
pub proof fn release_effect(cluster: Cluster, lock: RedlockView, now: int)
    ensures
        released(cluster, lock, now).dom() == cluster.dom(),
        forall|server: Seq<char>| #[trigger]
            cluster.dom().contains(server) ==> released(cluster, lock, now)[server]
                == instance_after_release(cluster, lock, now, server),
{
    lemma_release_prefix(cluster, lock, now, lock.servers.len() as int);
    assert(lock.servers.take(lock.servers.len() as int) =~= lock.servers);
}

/// Releasing is idempotent: a second release, at the same time or later,
/// leaves every instance as the first release left it.
pub proof fn release_is_idempotent(cluster: Cluster, lock: RedlockView, first: int, second: int)
    requires
        first <= second,
    ensures
        released(released(cluster, lock, first), lock, second) == released(cluster, lock, first),
{
    let once = released(cluster, lock, first);
    release_effect(cluster, lock, first);
    release_effect(once, lock, second);
    assert(released(once, lock, second) =~= once);
}

/// Releasing gives the lock up everywhere: after a release, no instance of
/// the lock that could be reached holds the lock's key with the lock's token,
/// then or later.
pub proof fn release_leaves_no_token(
    cluster: Cluster,
    lock: RedlockView,
    now: int,
    later: int,
    server: Seq<char>,
)
    requires
        cluster.dom().contains(server),
        lock.servers.contains(server),
        now <= later,
    ensures
        !held_by(released(cluster, lock, now)[server], lock.name, hyphenated(lock.id), later),
{
    release_effect(cluster, lock, now);
}

/// Whether `op` is one of the conditional deletes by which `lock` is
/// released.
pub open spec fn releases(op: Op, lock: RedlockView) -> bool {
    op.command matches Command::Unlock(req) && lock.servers.contains(req.server) && req.key
        == lock.name && req.value == hyphenated(lock.id)
}

/// Releasing may be repeated at will: once the lock has been released, no
/// further conditional deletes for it, from the handle or any copy of it, to
/// all of its instances or to some, in any order, change anything.
pub proof fn released_stays_released(cluster: Cluster, lock: RedlockView, now: int, ops: Seq<Op>)
    requires
        forall|m: int| 0 <= m < ops.len() ==> releases(#[trigger] ops[m], lock) && now <= ops[m].at,
    ensures
        replay(released(cluster, lock, now), ops) == released(cluster, lock, now),
    decreases ops.len(),
{
    if ops.len() > 0 {
        released_stays_released(cluster, lock, now, ops.drop_last());
        let op = ops.last();
        assert(releases(op, lock));
        let req = op.command->Unlock_0;
        release_effect(cluster, lock, now);
        if cluster.dom().contains(req.server) {
            release_leaves_no_token(cluster, lock, now, op.at, req.server);
        }
        unlock_spares_other_owner(released(cluster, lock, now), req, op.at);
    }
}

/// Releasing respects ownership: an instance that does not hold the lock's
/// key with this lock's token is left exactly as it is. That covers a key
/// that holds another token, one that has expired, and one that is absent.
pub proof fn release_spares_other_owner(
    cluster: Cluster,
    lock: RedlockView,
    now: int,
    server: Seq<char>,
)
    requires
        cluster.dom().contains(server),
        !held_by(cluster[server], lock.name, hyphenated(lock.id), now),
    ensures
        released(cluster, lock, now)[server] == cluster[server],
{
    release_effect(cluster, lock, now);
}

} // verus!
