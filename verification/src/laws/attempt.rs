//! One acquisition attempt: when it yields a handle, and what it leaves
//! behind when it does not.

use crate::laws::release::{release_effect, released};
use crate::lock::{elapsed_between, granted, AttemptView, OutcomeView, RedlockView};
use crate::request::{SetReply, UnlockRequestView};
use crate::store::{held_by, Cluster};
use crate::token::hyphenated;
use vstd::prelude::*;

verus! {

/// An attempt at `n` instances, of which `s` stored the token, yields a
/// handle if and only if `s >= n / 2 + 1` and less time than the lease has
/// passed since the attempt began. The handle is for the attempt's instances,
/// name and token. In every other case the attempt yields no handle but one
/// conditional delete for each of the `n` instances, in order, whether it
/// stored the token or not.
pub proof fn handle_iff_quorum_in_time(attempt: AttemptView, replies: Seq<SetReply>, now_ms: u128)
    ensures
        attempt.outcome(replies, now_ms) is Acquired <==> granted(replies, attempt.servers.len())
            >= attempt.servers.len() / 2 + 1 && elapsed_between(attempt.started_ms, now_ms)
            < attempt.ttl_ms,
        attempt.outcome(replies, now_ms) is Acquired ==> attempt.outcome(replies, now_ms)
            == OutcomeView::Acquired(
            RedlockView { servers: attempt.servers, name: attempt.name, id: attempt.id },
        ),
        attempt.outcome(replies, now_ms) is Rejected ==> ({
            let cleanup = attempt.outcome(replies, now_ms)->Rejected_0;
            &&& cleanup.len() == attempt.servers.len()
            &&& forall|i: int|
                0 <= i < attempt.servers.len() ==> #[trigger] cleanup[i] == (UnlockRequestView {
                    server: attempt.servers[i],
                    key: attempt.name,
                    value: hyphenated(attempt.id),
                })
        }),
{
}

/// An attempt at no instances at all, or for a lease of no duration, never
/// yields a handle.
pub proof fn nothing_to_hold(attempt: AttemptView, replies: Seq<SetReply>, now_ms: u128)
    requires
        attempt.servers.len() == 0 || attempt.ttl_ms == 0,
    ensures
        attempt.outcome(replies, now_ms) is Rejected,
{
}

/// The cleanup of a rejected attempt leaves no partial lock behind: once its
/// commands have been executed, no instance of the attempt that could be
/// reached holds the lock's key with the attempt's token, then or later.
pub proof fn cleanup_leaves_no_token(
    cluster: Cluster,
    attempt: AttemptView,
    replies: Seq<SetReply>,
    now_ms: u128,
    at: int,
    later: int,
    server: Seq<char>,
)
    requires
        attempt.outcome(replies, now_ms) is Rejected,
        cluster.dom().contains(server),
        attempt.servers.contains(server),
        at <= later,
    ensures
        attempt.outcome(replies, now_ms)->Rejected_0 == attempt.handle().release_requests(),
        !held_by(
            released(cluster, attempt.handle(), at)[server],
            attempt.name,
            hyphenated(attempt.id),
            later,
        ),
{
    release_effect(cluster, attempt.handle(), at);
}

} // verus!
