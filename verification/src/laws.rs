//! The laws the pipeline obeys, stated over the models the contracts use.

use vstd::prelude::*;

use vstd::seq_lib::*;
use vstd::set_lib::*;

use crate::channel::channel_contents;
use crate::format::FixateFormat;
use crate::params::{ParamId, PodObjectView};
use crate::pool::BufferUserHandle;
use crate::stream_core::{
    attach_post, dequeue_post, live_handles, param_changed_action, queue_post, remove_post,
    terminate_post, PoolEvent, QueueError, StreamCore,
};
use crate::MAX_BUFFERS;
use crate::MAX_PROCESS_BUFFERS;

verus! {

/// Pool conservation: after any sequence of pool events, a handle's export
/// is alive exactly when it was added and not removed since.  Together
/// with the stream invariant — the attached handles equal
/// [`live_handles`] of the log — the set of valid exported buffers is
/// always the adds minus the removes.
pub proof fn lemma_pool_conservation(events: Seq<PoolEvent>, h: BufferUserHandle)
    ensures
        live_handles(events).contains(h) <==> exists|i: int|
            0 <= i < events.len() && events[i] == PoolEvent::Added(h) && (forall|j: int|
                i < j < events.len() ==> events[j] != PoolEvent::Removed(h)),
    decreases events.len(),
{
    if events.len() == 0 {
    } else {
        let n = events.len() as int;
        let prev = events.drop_last();
        lemma_pool_conservation(prev, h);
        assert forall|j: int| 0 <= j < n - 1 implies events[j] == prev[j] by {}
        assert(events.last() == events[n - 1]);

        if events.last() == PoolEvent::Removed(h) {
            assert(!live_handles(events).contains(h));
            if exists|i: int|
                0 <= i < n && events[i] == PoolEvent::Added(h) && (forall|j: int|
                    i < j < n ==> events[j] != PoolEvent::Removed(h)) {
                let i = choose|i: int|
                    0 <= i < n && events[i] == PoolEvent::Added(h) && (forall|j: int|
                        i < j < n ==> events[j] != PoolEvent::Removed(h));
                assert(events[n - 1] != PoolEvent::Removed(h));
            }
        } else if events.last() == PoolEvent::Added(h) {
            assert(live_handles(events).contains(h));
            assert(events[n - 1] == PoolEvent::Added(h) && (forall|j: int|
                n - 1 < j < n ==> events[j] != PoolEvent::Removed(h)));
        } else {
            assert(live_handles(events).contains(h) == live_handles(prev).contains(h));
            if exists|i: int|
                0 <= i < n - 1 && prev[i] == PoolEvent::Added(h) && (forall|j: int|
                    i < j < n - 1 ==> prev[j] != PoolEvent::Removed(h)) {
                let i = choose|i: int|
                    0 <= i < n - 1 && prev[i] == PoolEvent::Added(h) && (forall|j: int|
                        i < j < n - 1 ==> prev[j] != PoolEvent::Removed(h));
                assert(events[i] == PoolEvent::Added(h));
                assert forall|j: int| i < j < n implies events[j] != PoolEvent::Removed(h) by {
                    if j < n - 1 {
                        assert(prev[j] != PoolEvent::Removed(h));
                    }
                }
            }
            if exists|i: int|
                0 <= i < n && events[i] == PoolEvent::Added(h) && (forall|j: int|
                    i < j < n ==> events[j] != PoolEvent::Removed(h)) {
                let i = choose|i: int|
                    0 <= i < n && events[i] == PoolEvent::Added(h) && (forall|j: int|
                        i < j < n ==> events[j] != PoolEvent::Removed(h));
                assert(i != n - 1);
                assert(prev[i] == PoolEvent::Added(h) && (forall|j: int|
                    i < j < n - 1 ==> prev[j] != PoolEvent::Removed(h)));
            }
        }
    }
}

/// Pool conservation, delivery half: in any well-formed stream, every
/// delivery the lifecycle log records was of a handle that had been added
/// and not removed since — no handle reaches the backend's process
/// operation after its removal ran.
pub proof fn lemma_no_delivery_after_removal(s: StreamCore, i: int, h: BufferUserHandle)
    requires
        s.wf(),
        0 <= i < s.events@.len(),
        s.events@[i] == PoolEvent::Processed(h),
    ensures
        exists|a: int|
            0 <= a < i && s.events@[a] == PoolEvent::Added(h) && (forall|j: int|
                a < j < i ==> s.events@[j] != PoolEvent::Removed(h)),
{
    let before = s.events@.take(i);
    assert(live_handles(before).contains(h));
    lemma_pool_conservation(before, h);
    let a = choose|a: int|
        0 <= a < before.len() && before[a] == PoolEvent::Added(h) && (forall|j: int|
            a < j < before.len() ==> before[j] != PoolEvent::Removed(h));
    assert(s.events@[a] == PoolEvent::Added(h));
    assert forall|j: int| a < j < i implies s.events@[j] != PoolEvent::Removed(h) by {
        assert(before[j] == s.events@[j]);
    }
}

/// Backpressure: starting from an empty processing channel, four queued
/// buffers are taken and the fifth is rejected — deterministically, and
/// without touching what is already queued.
pub proof fn lemma_backpressure(
    s: Seq<StreamCore>,
    tokens: Seq<crate::pool::BufferHandle>,
    results: Seq<Result<(), QueueError>>,
)
    requires
        s.len() == 6,
        tokens.len() == 5,
        results.len() == 5,
        channel_contents(s[0].channel).len() == 0,
        s[0].driving,
        queue_post(s[0], s[1], tokens[0], results[0]),
        queue_post(s[1], s[2], tokens[1], results[1]),
        queue_post(s[2], s[3], tokens[2], results[2]),
        queue_post(s[3], s[4], tokens[3], results[3]),
        queue_post(s[4], s[5], tokens[4], results[4]),
    ensures
        forall|k: int| 0 <= k < MAX_PROCESS_BUFFERS as int ==> #[trigger] results[k] is Ok,
        results[4] == Err::<(), QueueError>(QueueError::ChannelFull),
        channel_contents(s[5].channel) == channel_contents(s[4].channel),
{
    assert(channel_contents(s[1].channel).len() == 1);
    assert(channel_contents(s[2].channel).len() == 2);
    assert(channel_contents(s[3].channel).len() == 3);
    assert(channel_contents(s[4].channel).len() == 4);
    assert(results[0] is Ok);
    assert(results[1] is Ok);
    assert(results[2] is Ok);
    assert(results[3] is Ok);
}

/// Drop on exhaustion, part one: the free-buffer queue can never hold more
/// than the pool bound, so at most [`MAX_BUFFERS`] dequeues can succeed
/// before the consumer gives a buffer back.
pub proof fn lemma_available_bounded(s: StreamCore)
    requires
        s.wf(),
    ensures
        s.available@.len() <= MAX_BUFFERS as int,
{
    let tokens = s.available@.map_values(|t: u64| t as int);
    assert(tokens.no_duplicates()) by {
        assert forall|i: int, j: int|
            0 <= i < tokens.len() && 0 <= j < tokens.len() && i != j implies tokens[i]
            != tokens[j] by {
            if i < j {
                assert(s.available@[i] != s.available@[j]);
            } else {
                assert(s.available@[j] != s.available@[i]);
            }
        }
    }
    tokens.unique_seq_to_set();
    let bound = s.slots@.len() as int;
    let range = set_int_range(0, bound);
    lemma_int_range(0, bound);
    assert(tokens.to_set().subset_of(range)) by {
        assert forall|x: int| tokens.to_set().contains(x) implies range.contains(x) by {
            assert(tokens.contains(x));
            let k = choose|k: int| 0 <= k < tokens.len() && tokens[k] == x;
            assert((s.available@[k] as int) < s.slots@.len());
        }
    }
    lemma_len_subset(tokens.to_set(), range);
    assert(tokens.to_set().len() <= bound);
}

/// Drop on exhaustion, part two: a dequeue from an exhausted pool hands
/// out nothing and changes nothing.
pub proof fn lemma_exhausted_dequeue(
    pre: StreamCore,
    post: StreamCore,
    r: Option<(crate::pool::BufferHandle, BufferUserHandle)>,
)
    requires
        dequeue_post(pre, post, r),
        pre.available@.len() == 0,
    ensures
        r is None,
        post == pre,
{
}

/// One successful dequeue takes exactly one buffer out of the free queue.
proof fn lemma_dequeue_run_available(
    states: Seq<StreamCore>,
    results: Seq<Option<(crate::pool::BufferHandle, BufferUserHandle)>>,
    i: int,
)
    requires
        states.len() == results.len() + 1,
        forall|k: int|
            1 <= k <= results.len() ==> #[trigger] dequeue_post(
                states[k - 1],
                states[k],
                results[k - 1],
            ),
        forall|k: int| 0 <= k < results.len() ==> (#[trigger] results[k]) is Some,
        0 <= i <= results.len(),
    ensures
        states[i].available@.len() == states[0].available@.len() - i,
    decreases i,
{
    if i > 0 {
        lemma_dequeue_run_available(states, results, i - 1);
        assert(dequeue_post(states[i - 1], states[i], results[i - 1]));
        assert(results[i - 1] is Some);
    }
}

/// Drop on exhaustion, part three: no run of dequeues with no returns can
/// hand out more buffers than the pool bound — with a pool of
/// [`MAX_BUFFERS`] buffers, at latest the dequeue after the bound's worth
/// of successes yields nothing.
pub proof fn lemma_dequeue_run_bounded(
    states: Seq<StreamCore>,
    results: Seq<Option<(crate::pool::BufferHandle, BufferUserHandle)>>,
)
    requires
        states.len() == results.len() + 1,
        states[0].wf(),
        forall|k: int|
            1 <= k <= results.len() ==> #[trigger] dequeue_post(
                states[k - 1],
                states[k],
                results[k - 1],
            ),
        forall|k: int| 0 <= k < results.len() ==> (#[trigger] results[k]) is Some,
    ensures
        results.len() <= MAX_BUFFERS as int,
{
    let n = results.len() as int;
    if n > 0 {
        lemma_dequeue_run_available(states, results, n - 1);
        assert(dequeue_post(states[n - 1], states[n], results[n - 1]));
        assert(results[n - 1] is Some);
        assert(states[n - 1].available@.len() > 0);
        lemma_available_bounded(states[0]);
    }
}

/// Negotiation idempotence: what a format-parameter notification decides
/// depends only on the advertised geometry and catalog, the notification
/// itself, and the backend's fixation answer — not on any state an
/// earlier delivery of the same notification changed.  Re-delivering a
/// notification therefore decides the same action and the same fixated
/// format, and allocates nothing anew.
pub proof fn lemma_negotiation_idempotent(
    first: StreamCore,
    second: StreamCore,
    id: ParamId,
    param: Option<PodObjectView>,
    fx: Option<FixateFormat>,
)
    requires
        first.width == second.width,
        first.height == second.height,
        crate::negotiate::catalog_view(first.enum_formats@) == crate::negotiate::catalog_view(
            second.enum_formats@,
        ),
    ensures
        param_changed_action(first, id, param, fx) == param_changed_action(second, id, param, fx),
{
}

/// Teardown safety, part one: terminating an already-terminated stream
/// changes nothing further, and the termination callback has still run
/// exactly once.
pub proof fn lemma_terminate_idempotent(s0: StreamCore, s1: StreamCore, s2: StreamCore)
    requires
        s0.wf(),
        terminate_post(s0, s1),
        terminate_post(s1, s2),
    ensures
        s2.terminate_runs == 1,
        s2.slots == s0.slots,
        s2.events == s0.events,
{
}

/// Teardown safety, part two: a stray add callback after termination
/// takes nothing into the pool and changes nothing.
pub proof fn lemma_stray_add_ignored(
    pre: StreamCore,
    post: StreamCore,
    n_datas: nat,
    info: Option<crate::pool::BufferInfoView>,
    r: Option<BufferUserHandle>,
)
    requires
        pre.terminated,
        attach_post(pre, post, n_datas, info, r),
    ensures
        post == pre,
        r is None,
{
}

/// Teardown safety, part three: a remove callback releases the export
/// behind a handle exactly once — the second removal of the same token
/// finds the handle gone and does nothing, before or after termination.
pub proof fn lemma_remove_once(
    s0: StreamCore,
    s1: StreamCore,
    s2: StreamCore,
    token: u64,
    h: BufferUserHandle,
    second: Option<BufferUserHandle>,
)
    requires
        remove_post(s0, s1, token, Some(h)),
        remove_post(s1, s2, token, second),
    ensures
        second is None,
        s2.events == s1.events,
{
    assert((token as int) < s0.slots@.len());
    assert(s1.slots@[token as int]@.user_handle is None);
}

} // verus!
