//! A mathematical model of the storage instances: what each of the two
//! commands does to an instance, on a clock shared by all of them.
//!
//! Nothing here runs. The model gives the commands of the library a meaning,
//! so that what the protocol guarantees can be stated and proved.

use crate::request::{LockRequestView, UnlockRequestView};
use vstd::prelude::*;

verus! {

/// What an instance keeps under one key.
pub struct Entry {
    /// The stored text.
    pub value: Seq<char>,
    /// The time from which on the entry counts as gone.
    pub expires_at: int,
}

/// The state of one storage instance: its entries by key.
pub type Instance = Map<Seq<char>, Entry>;

/// The instances that exist, by address. A command for any other address has
/// nowhere to arrive.
pub type Cluster = Map<Seq<char>, Instance>;

/// Whether `key` is present at time `now`: stored and not yet expired.
pub open spec fn holds(inst: Instance, key: Seq<char>, now: int) -> bool {
    inst.dom().contains(key) && now < inst[key].expires_at
}

/// Whether `key` is present at time `now` with the text `value`.
pub open spec fn held_by(inst: Instance, key: Seq<char>, value: Seq<char>, now: int) -> bool {
    holds(inst, key, now) && inst[key].value == value
}

/// The conditional write: stores `value` under `key` for `ttl_ms`
/// milliseconds if the key is absent at `now`, and says whether it did. A
/// lease that is not positive is refused.
pub open spec fn set_if_absent(
    inst: Instance,
    key: Seq<char>,
    value: Seq<char>,
    ttl_ms: int,
    now: int,
) -> (Instance, bool) {
    if ttl_ms <= 0 || holds(inst, key, now) {
        (inst, false)
    } else {
        (inst.insert(key, Entry { value, expires_at: now + ttl_ms }), true)
    }
}

/// The conditional delete: removes `key` if it is present at `now` with the
/// text `value`, and says whether it did.
pub open spec fn delete_if_owner(inst: Instance, key: Seq<char>, value: Seq<char>, now: int) -> (
    Instance,
    bool,
) {
    if held_by(inst, key, value, now) {
        (inst.remove(key), true)
    } else {
        (inst, false)
    }
}

/// One of the two commands.
pub enum Command {
    Lock(LockRequestView),
    Unlock(UnlockRequestView),
}

impl Command {
    /// The address of the instance that the command is for.
    pub open spec fn server(self) -> Seq<char> {
        match self {
            Command::Lock(req) => req.server,
            Command::Unlock(req) => req.server,
        }
    }

    /// What the command does to the instance it arrives at, at time `now`,
    /// and whether it stored or deleted anything.
    pub open spec fn run(self, inst: Instance, now: int) -> (Instance, bool) {
        match self {
            Command::Lock(req) => set_if_absent(inst, req.key, req.value, req.ttl_ms as int, now),
            Command::Unlock(req) => delete_if_owner(inst, req.key, req.value, now),
        }
    }
}

/// A command together with the time at which its instance executes it.
pub struct Op {
    pub command: Command,
    pub at: int,
}

/// The cluster after `op`, and whether the command stored or deleted
/// anything. An instance executes a command in one step. A command for an
/// address without an instance changes nothing.
pub open spec fn apply(cluster: Cluster, op: Op) -> (Cluster, bool) {
    let server = op.command.server();
    if cluster.dom().contains(server) {
        let (inst, done) = op.command.run(cluster[server], op.at);
        (cluster.insert(server, inst), done)
    } else {
        (cluster, false)
    }
}

/// The cluster after the commands of `ops`, executed one after the other.
pub open spec fn replay(cluster: Cluster, ops: Seq<Op>) -> Cluster
    decreases ops.len(),
{
    if ops.len() == 0 {
        cluster
    } else {
        apply(replay(cluster, ops.drop_last()), ops.last()).0
    }
}

/// Whether the command at position `i` of `ops` stored or deleted anything.
pub open spec fn succeeded(cluster: Cluster, ops: Seq<Op>, i: int) -> bool {
    apply(replay(cluster, ops.take(i)), ops[i]).1
}

/// Whether time does not run backwards along `ops`.
pub open spec fn in_time_order(ops: Seq<Op>) -> bool {
    forall|i: int, j: int| 0 <= i <= j < ops.len() ==> ops[i].at <= ops[j].at
}

/// The conditional deletes `reqs`, all executed at time `now`.
pub open spec fn unlocks_at(reqs: Seq<UnlockRequestView>, now: int) -> Seq<Op> {
    Seq::new(reqs.len(), |i: int| Op { command: Command::Unlock(reqs[i]), at: now })
}

} // verus!
