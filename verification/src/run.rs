//! Model of a whole tracking run: the sequence of tick outcomes a loop
//! consumes, the events it publishes, and the laws that hold of every
//! run.

use vstd::prelude::*;
use crate::event::WindowSampleView;
use crate::tracker::WindowChangeView;
use crate::tracker::tick_emits;
use crate::tracker::tick_event;
use crate::tracker::tick_last_app;

verus! {

/// One tick of a tracking loop as the model sees it: the outcome of the
/// foreground-window query and the timestamp sampled at that tick.
pub ghost struct Tick {
    pub query: Option<WindowSampleView>,
    pub timestamp: u64,
}

/// The last-seen application name after a run: `init` advanced by every
/// tick in order.
pub open spec fn last_app_after(init: Seq<char>, ticks: Seq<Tick>) -> Seq<char>
    decreases ticks.len(),
{
    if ticks.len() == 0 {
        init
    } else {
        tick_last_app(last_app_after(init, ticks.drop_last()), ticks.last().query)
    }
}

/// The application name of the last successful query in `ticks`, or
/// `init` when every query failed: failed queries are no observations.
pub open spec fn last_observed(init: Seq<char>, ticks: Seq<Tick>) -> Seq<char>
    decreases ticks.len(),
{
    if ticks.len() == 0 {
        init
    } else if ticks.last().query is Some {
        ticks.last().query->0.app_name
    } else {
        last_observed(init, ticks.drop_last())
    }
}

/// Whether the tick at position `i` of the run publishes an event.
pub open spec fn emits_at(init: Seq<char>, ticks: Seq<Tick>, i: int) -> bool {
    tick_emits(last_app_after(init, ticks.take(i)), ticks[i].query)
}

/// All events a run publishes, in order of publication.
pub open spec fn events_after(init: Seq<char>, ticks: Seq<Tick>) -> Seq<WindowChangeView>
    decreases ticks.len(),
{
    if ticks.len() == 0 {
        Seq::empty()
    } else {
        let earlier = events_after(init, ticks.drop_last());
        match tick_event(
            last_app_after(init, ticks.drop_last()),
            ticks.last().query,
            ticks.last().timestamp,
        ) {
            Some(change) => earlier.push(change),
            None => earlier,
        }
    }
}

/// One more tick extends a run by exactly that tick's own decision:
/// the state advances by `tick_last_app` and the published events grow
/// by `tick_event`'s outcome, which is what every call of
/// [`crate::tracker::Tracker::tick`] guarantees. A host that performs
/// one tick after a run of `ticks` therefore continues the run
/// `ticks.push(tick)`.
pub proof fn lemma_run_step(init: Seq<char>, ticks: Seq<Tick>, tick: Tick)
    ensures
        last_app_after(init, ticks.push(tick)) == tick_last_app(
            last_app_after(init, ticks),
            tick.query,
        ),
        events_after(init, ticks.push(tick)) == match tick_event(
            last_app_after(init, ticks),
            tick.query,
            tick.timestamp,
        ) {
            Some(change) => events_after(init, ticks).push(change),
            None => events_after(init, ticks),
        },
{
    assert(ticks.push(tick).drop_last() =~= ticks);
}

/// The tracker's state is always the name of the last successful
/// observation: a failed query never counts as an observation.
pub proof fn lemma_state_is_last_observed(init: Seq<char>, ticks: Seq<Tick>)
    ensures
        last_app_after(init, ticks) == last_observed(init, ticks),
    decreases ticks.len(),
{
    if ticks.len() > 0 {
        lemma_state_is_last_observed(init, ticks.drop_last());
    }
}

/// An event is published at a tick if and only if that tick's query
/// succeeded and reported an application name different from the last
/// successfully observed one (or from the initial name while nothing
/// was observed yet). A failed query never triggers nor suppresses an
/// event.
pub proof fn lemma_event_iff_app_changed(init: Seq<char>, ticks: Seq<Tick>, i: int)
    requires
        0 <= i < ticks.len(),
    ensures
        emits_at(init, ticks, i) <==> (ticks[i].query is Some && ticks[i].query->0.app_name
            != last_observed(init, ticks.take(i))),
{
    lemma_state_is_last_observed(init, ticks.take(i));
}

/// A run in which every query fails publishes no event at all and
/// leaves the last-seen name untouched.
pub proof fn lemma_all_failures_publish_nothing(init: Seq<char>, ticks: Seq<Tick>)
    requires
        forall|i: int| 0 <= i < ticks.len() ==> ticks[i].query is None,
    ensures
        events_after(init, ticks) == Seq::<WindowChangeView>::empty(),
        last_app_after(init, ticks) == init,
    decreases ticks.len(),
{
    if ticks.len() > 0 {
        assert(ticks.last().query is None);
        lemma_all_failures_publish_nothing(init, ticks.drop_last());
    }
}

/// The loop stays live through failures: however many queries failed
/// before it, the first successful query publishes an event as soon as
/// its application name differs from the initial one.
pub proof fn lemma_emits_on_first_success(init: Seq<char>, ticks: Seq<Tick>, n: int)
    requires
        0 <= n < ticks.len(),
        forall|i: int| 0 <= i < n ==> ticks[i].query is None,
        ticks[n].query is Some,
        ticks[n].query->0.app_name != init,
    ensures
        emits_at(init, ticks, n),
{
    assert forall|i: int| 0 <= i < ticks.take(n).len() implies ticks.take(n)[i].query
        is None by {
        assert(ticks.take(n)[i] == ticks[i]);
    }
    lemma_all_failures_publish_nothing(init, ticks.take(n));
}

/// Two consecutive successful observations of the same application name
/// publish no event at the second of them.
pub proof fn lemma_duplicate_observation_suppressed(init: Seq<char>, ticks: Seq<Tick>, i: int)
    requires
        0 <= i,
        i + 1 < ticks.len(),
        ticks[i].query is Some,
        ticks[i + 1].query is Some,
        ticks[i].query->0.app_name == ticks[i + 1].query->0.app_name,
    ensures
        !emits_at(init, ticks, i + 1),
{
    let upto = ticks.take(i + 1);
    assert(upto.drop_last() =~= ticks.take(i));
    assert(upto.last() == ticks[i]);
    assert(last_app_after(init, upto) == ticks[i].query->0.app_name);
}

/// Every event of a run carries the timestamp of some tick, so when the
/// ticks' timestamps never decrease, no event's timestamp exceeds the
/// last tick's, and the events' timestamps never decrease either.
proof fn lemma_event_timestamps_bounded(init: Seq<char>, ticks: Seq<Tick>)
    requires
        forall|i: int, j: int|
            0 <= i <= j < ticks.len() ==> ticks[i].timestamp <= ticks[j].timestamp,
    ensures
        forall|k: int|
            0 <= k < events_after(init, ticks).len() ==> ticks.len() > 0 && events_after(
                init,
                ticks,
            )[k].timestamp <= ticks.last().timestamp,
        forall|k: int, l: int|
            0 <= k <= l < events_after(init, ticks).len() ==> events_after(init, ticks)[k].timestamp
                <= events_after(init, ticks)[l].timestamp,
    decreases ticks.len(),
{
    if ticks.len() > 0 {
        let earlier_ticks = ticks.drop_last();
        assert forall|i: int, j: int|
            0 <= i <= j < earlier_ticks.len() implies earlier_ticks[i].timestamp
            <= earlier_ticks[j].timestamp by {
            assert(earlier_ticks[i] == ticks[i]);
            assert(earlier_ticks[j] == ticks[j]);
        }
        lemma_event_timestamps_bounded(init, earlier_ticks);
        let earlier = events_after(init, earlier_ticks);
        let events = events_after(init, ticks);
        if earlier_ticks.len() > 0 {
            assert(earlier_ticks.last() == ticks[ticks.len() - 2]);
            assert(forall|k: int|
                0 <= k < earlier.len() ==> earlier[k].timestamp <= ticks.last().timestamp);
        }
        match tick_event(
            last_app_after(init, earlier_ticks),
            ticks.last().query,
            ticks.last().timestamp,
        ) {
            Some(change) => {
                assert(events == earlier.push(change));
                assert(forall|k: int| 0 <= k < earlier.len() ==> events[k] == earlier[k]);
                assert(events.last() == change);
            },
            None => {
                assert(events == earlier);
            },
        }
    }
}

/// Within one run whose ticks carry non-decreasing timestamps, the
/// timestamps of the published events are non-decreasing in publication
/// order.
pub proof fn lemma_event_timestamps_non_decreasing(init: Seq<char>, ticks: Seq<Tick>)
    requires
        forall|i: int, j: int|
            0 <= i <= j < ticks.len() ==> ticks[i].timestamp <= ticks[j].timestamp,
    ensures
        forall|k: int, l: int|
            0 <= k <= l < events_after(init, ticks).len() ==> events_after(init, ticks)[k].timestamp
                <= events_after(init, ticks)[l].timestamp,
{
    lemma_event_timestamps_bounded(init, ticks);
}

/// Tracking loops started independently start blank independently: each
/// one publishes an event on its own first successful observation of a
/// nonempty application name, however many loops run beside it.
pub proof fn lemma_fresh_loops_emit_independently(
    first: Option<WindowSampleView>,
    second: Option<WindowSampleView>,
)
    requires
        first is Some && first->0.app_name.len() > 0,
        second is Some && second->0.app_name.len() > 0,
    ensures
        tick_emits(Seq::<char>::empty(), first),
        tick_emits(Seq::<char>::empty(), second),
{
}

} // verus!
