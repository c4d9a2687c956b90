//! The acquisition loop: what it asks of its driver, how it ends, and that
//! it does end.

use crate::acquire::{
    AcquisitionView, LoopActionView, LoopEventView, PhaseView, RETRY_INTERVAL_MS,
};
use crate::request::SetReply;
use vstd::prelude::*;

verus! {

/// What reaches the loop in one step: an event, and the token that an
/// attempt gets if the event makes one begin.
pub struct Input {
    pub event: LoopEventView,
    pub fresh: u128,
}

/// The loop after the steps of `inputs`, one after the other.
pub open spec fn run(acquisition: AcquisitionView, inputs: Seq<Input>) -> AcquisitionView
    decreases inputs.len(),
{
    if inputs.len() == 0 {
        acquisition
    } else {
        let input = inputs.last();
        run(acquisition, inputs.drop_last()).step(input.event, input.fresh)
    }
}

/// One turn of a driver that does as it is told: it reads the clock, sends
/// the conditional writes of an attempt, cleans up, and pauses.
pub struct Round {
    /// The clock's reading at the start of the turn, in milliseconds.
    pub now_ms: u128,
    /// The token of the attempt.
    pub id: u128,
    /// The replies to the conditional writes.
    pub replies: Seq<SetReply>,
    /// The clock's reading after the last reply, in milliseconds.
    pub replied_ms: u128,
}

/// The loop after one turn of the driver.
pub open spec fn after_round(acquisition: AcquisitionView, round: Round) -> AcquisitionView {
    acquisition.step(LoopEventView::Clock(round.now_ms), round.id).step(
        LoopEventView::Replied(round.replies, round.replied_ms),
        round.id,
    ).step(LoopEventView::Cleaned, round.id).step(LoopEventView::Slept, round.id)
}

/// The loop after the turns of `rounds`, one after the other.
pub open spec fn after_rounds(acquisition: AcquisitionView, rounds: Seq<Round>) -> AcquisitionView
    decreases rounds.len(),
{
    if rounds.len() == 0 {
        acquisition
    } else {
        after_round(after_rounds(acquisition, rounds.drop_last()), rounds.last())
    }
}

/// Whether the attempt of this turn yields a handle.
pub open spec fn yields(acquisition: AcquisitionView, round: Round) -> bool {
    acquisition.attempt(round.id, round.now_ms).accepted(round.replies, round.replied_ms)
}

/// Whether each of the first `k` turns began in time and ended without a
/// handle.
pub open spec fn all_retried(acquisition: AcquisitionView, rounds: Seq<Round>, k: int) -> bool {
    forall|j: int|
        0 <= j < k ==> acquisition.in_time((#[trigger] rounds[j]).now_ms) && !yields(
            acquisition,
            rounds[j],
        )
}

/// Whether turn `k` is the first to yield a handle, and no turn up to it
/// began after the deadline.
pub open spec fn first_success(acquisition: AcquisitionView, rounds: Seq<Round>, k: int) -> bool {
    &&& 0 <= k < rounds.len()
    &&& all_retried(acquisition, rounds, k)
    &&& acquisition.in_time(rounds[k].now_ms)
    &&& yields(acquisition, rounds[k])
}

/// Whether turn `k` is the first to begin after the deadline, and no turn
/// before it yielded a handle.
pub open spec fn first_late(acquisition: AcquisitionView, rounds: Seq<Round>, k: int) -> bool {
    &&& 0 <= k < rounds.len()
    &&& all_retried(acquisition, rounds, k)
    &&& !acquisition.in_time(rounds[k].now_ms)
}

/// The dialogue of a turn that begins in time. The loop asks for the clock,
/// then for the conditional writes of a new attempt at all its instances. If
/// the replies make the attempt succeed, it hands out the handle. If not, it
/// asks for the conditional deletes at all instances, then for the fixed
/// pause, and then for the clock again.
pub proof fn dialogue_of_a_round(acquisition: AcquisitionView, round: Round)
    requires
        acquisition.phase is Waiting,
        acquisition.in_time(round.now_ms),
    ensures
        ({
            let attempt = acquisition.attempt(round.id, round.now_ms);
            let asked = acquisition.step(LoopEventView::Clock(round.now_ms), round.id);
            let replied = asked.step(
                LoopEventView::Replied(round.replies, round.replied_ms),
                round.id,
            );
            let cleaned = replied.step(LoopEventView::Cleaned, round.id);
            let slept = cleaned.step(LoopEventView::Slept, round.id);
            &&& acquisition.action() == LoopActionView::ReadClock
            &&& asked.action() == LoopActionView::Lock(attempt.lock_requests())
            &&& yields(acquisition, round) ==> replied.action() == LoopActionView::Hold(
                attempt.handle(),
            )
            &&& !yields(acquisition, round) ==> {
                &&& replied.action() == LoopActionView::Unlock(attempt.handle().release_requests())
                &&& cleaned.action() == LoopActionView::Sleep(RETRY_INTERVAL_MS)
                &&& slept.action() == LoopActionView::ReadClock
                &&& slept == acquisition
            }
        }),
{
}

/// The final states are final: once the lock is held, or the loop has
/// failed, nothing that is reported changes anything, and the loop asks for
/// no further attempt.
pub proof fn terminal_is_final(acquisition: AcquisitionView, inputs: Seq<Input>)
    requires
        acquisition.phase is Acquired || acquisition.phase is Failed,
    ensures
        run(acquisition, inputs) == acquisition,
        !(run(acquisition, inputs).action() is Lock),
    decreases inputs.len(),
{
    if inputs.len() > 0 {
        terminal_is_final(acquisition, inputs.drop_last());
    }
}

/// The lock comes to be held in one way only: the replies to the attempt
/// under way make that attempt succeed, and the handle is that attempt's.
pub proof fn acquired_only_by_success(acquisition: AcquisitionView, input: Input)
    requires
        !(acquisition.phase is Acquired),
        acquisition.step(input.event, input.fresh).phase is Acquired,
    ensures
        acquisition.phase is Attempting,
        input.event is Replied,
        ({
            let attempt = acquisition.phase->Attempting_0;
            &&& attempt.accepted(input.event->Replied_0, input.event->Replied_1)
            &&& acquisition.step(input.event, input.fresh).phase == PhaseView::Acquired(
                attempt.handle(),
            )
        }),
{
}

/// Where a driven loop stands after any number of turns: still waiting as
/// long as every turn began in time and ended without a handle; holding the
/// lock from the first turn on that began in time and yielded a handle, and
/// holding it by that handle; failed from the first turn on that began after
/// the deadline.
pub proof fn state_after_rounds(acquisition: AcquisitionView, rounds: Seq<Round>)
    requires
        acquisition.phase is Waiting,
    ensures
        ({
            let end = after_rounds(acquisition, rounds);
            &&& end == AcquisitionView { phase: end.phase, ..acquisition }
            &&& end.phase is Waiting || end.phase is Acquired || end.phase is Failed
            &&& end.phase is Waiting <==> all_retried(acquisition, rounds, rounds.len() as int)
            &&& end.phase is Acquired <==> exists|k: int| first_success(acquisition, rounds, k)
            &&& end.phase is Failed <==> exists|k: int| first_late(acquisition, rounds, k)
            &&& forall|k: int| #[trigger]
                first_success(acquisition, rounds, k) ==> end.phase == PhaseView::Acquired(
                    acquisition.attempt(rounds[k].id, rounds[k].now_ms).handle(),
                )
        }),
    decreases rounds.len(),
{
    if rounds.len() > 0 {
        let n = rounds.len() as int;
        let shorter = rounds.drop_last();
        state_after_rounds(acquisition, shorter);
        let before = after_rounds(acquisition, shorter);
        assert(forall|j: int| 0 <= j < n - 1 ==> shorter[j] == rounds[j]);
        assert forall|k: int| 0 <= k < n - 1 implies first_success(acquisition, shorter, k)
            == first_success(acquisition, rounds, k) && first_late(acquisition, shorter, k)
            == first_late(acquisition, rounds, k) by {}
        if before.phase is Waiting {
            // No turn before the last one decided, so the last one does.
            assert(all_retried(acquisition, rounds, n - 1));
            if !acquisition.in_time(rounds[n - 1].now_ms) {
                assert(first_late(acquisition, rounds, n - 1));
            } else if yields(acquisition, rounds[n - 1]) {
                assert(first_success(acquisition, rounds, n - 1));
            }
        } else if before.phase is Acquired {
            let k = choose|k: int| first_success(acquisition, shorter, k);
            lemma_one_first(acquisition, rounds, k);
        } else {
            let k = choose|k: int| first_late(acquisition, shorter, k);
            lemma_one_first(acquisition, rounds, k);
        }
    }
}

/// Only one turn decides: the first that yields a handle or begins late.
proof fn lemma_one_first(acquisition: AcquisitionView, rounds: Seq<Round>, k: int)
    requires
        first_success(acquisition, rounds, k) || first_late(acquisition, rounds, k),
    ensures
        forall|m: int|
            m != k ==> !first_success(acquisition, rounds, m) && !first_late(
                acquisition,
                rounds,
                m,
            ),
        !(first_success(acquisition, rounds, k) && first_late(acquisition, rounds, k)),
        !all_retried(acquisition, rounds, rounds.len() as int),
{
}

/// The loop ends in failure if no attempt that began in time yielded a
/// handle and a turn began after the deadline. The error names the lock and
/// the time that was allowed.
pub proof fn fails_when_every_attempt_fails(
    acquisition: AcquisitionView,
    rounds: Seq<Round>,
    late: int,
)
    requires
        acquisition.phase is Waiting,
        forall|j: int|
            0 <= j < rounds.len() && acquisition.in_time((#[trigger] rounds[j]).now_ms) ==> !yields(
                acquisition,
                rounds[j],
            ),
        0 <= late < rounds.len(),
        !acquisition.in_time(rounds[late].now_ms),
    ensures
        after_rounds(acquisition, rounds).phase is Failed,
        after_rounds(acquisition, rounds).action() == LoopActionView::Fail(acquisition.error()),
        acquisition.error().lock_name == acquisition.lock_name,
        acquisition.error().timeout_secs == acquisition.timeout_secs,
{
    state_after_rounds(acquisition, rounds);
    assert(!all_retried(acquisition, rounds, rounds.len() as int));
    assert(forall|k: int| !first_success(acquisition, rounds, k));
}

/// The loop ends with the lock held on the first attempt that yields a
/// handle, hands out that handle, and stays so whatever is reported
/// afterwards: it asks for no further attempt.
pub proof fn holds_after_first_success(
    acquisition: AcquisitionView,
    rounds: Seq<Round>,
    first: int,
    later: Seq<Input>,
)
    requires
        acquisition.phase is Waiting,
        first_success(acquisition, rounds, first),
    ensures
        ({
            let handle = acquisition.attempt(rounds[first].id, rounds[first].now_ms).handle();
            let end = run(after_rounds(acquisition, rounds), later);
            &&& after_rounds(acquisition, rounds.take(first + 1)).phase == PhaseView::Acquired(
                handle,
            )
            &&& after_rounds(acquisition, rounds).phase == PhaseView::Acquired(handle)
            &&& end.phase == PhaseView::Acquired(handle)
            &&& end.action() == LoopActionView::Hold(handle)
        }),
{
    state_after_rounds(acquisition, rounds);
    let upto = rounds.take(first + 1);
    state_after_rounds(acquisition, upto);
    assert(first_success(acquisition, upto, first));
    terminal_is_final(after_rounds(acquisition, rounds), later);
}

proof fn lemma_clock_advances(acquisition: AcquisitionView, rounds: Seq<Round>, k: int)
    requires
        0 <= k < rounds.len(),
        rounds[0].now_ms >= acquisition.started_ms,
        forall|j: int|
            0 <= j < rounds.len() - 1 ==> (#[trigger] rounds[j + 1]).now_ms >= rounds[j].now_ms
                + RETRY_INTERVAL_MS,
    ensures
        rounds[k].now_ms >= acquisition.started_ms + k * RETRY_INTERVAL_MS,
    decreases k,
{
    if k > 0 {
        lemma_clock_advances(acquisition, rounds, k - 1);
        assert(rounds[(k - 1) + 1].now_ms >= rounds[k - 1].now_ms + RETRY_INTERVAL_MS);
    }
}

/// The loop ends: if the clock moves on by at least the pause from one turn
/// to the next, the loop has reached a final state once more than ten turns
/// per second of the time allowed have been made.
pub proof fn loop_terminates(acquisition: AcquisitionView, rounds: Seq<Round>)
    requires
        acquisition.phase is Waiting,
        rounds.len() > acquisition.timeout_secs * 10,
        rounds[0].now_ms >= acquisition.started_ms,
        forall|j: int|
            0 <= j < rounds.len() - 1 ==> (#[trigger] rounds[j + 1]).now_ms >= rounds[j].now_ms
                + RETRY_INTERVAL_MS,
    ensures
        after_rounds(acquisition, rounds).phase is Acquired || after_rounds(
            acquisition,
            rounds,
        ).phase is Failed,
{
    state_after_rounds(acquisition, rounds);
    let late = acquisition.timeout_secs as int * 10;
    lemma_clock_advances(acquisition, rounds, late);
    assert(!acquisition.in_time(rounds[late].now_ms));
}

} // verus!
