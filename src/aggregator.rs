//! The fold of a run's merged events into the set of peers seen.

use crate::host::{Event, HostInfo};
use std::collections::HashMap;
use vstd::prelude::*;

verus! {

broadcast use vstd::std_specs::hash::group_hash_axioms;

/// The peers kept so far, by identifier, and whether the deadline has passed.
pub type RunState = (Map<u128, HostInfo>, bool);

/// The state before any event.
pub open spec fn fresh() -> RunState {
    (Map::empty(), false)
}

/// The state after one more event. Once the deadline has passed nothing
/// changes; a tick ends the run when no whole second is left; a peer is kept
/// only if its identifier is new.
pub open spec fn absorb(state: RunState, event: Event) -> RunState {
    if state.1 {
        state
    } else {
        match event {
            Event::Countdown(remaining) => (state.0, remaining == 0),
            Event::HostFound(h) => (
                if state.0.contains_key(h.id) {
                    state.0
                } else {
                    state.0.insert(h.id, h)
                },
                false,
            ),
        }
    }
}

/// The state after a sequence of events, in order.
pub open spec fn absorb_all(state: RunState, events: Seq<Event>) -> RunState
    decreases events.len(),
{
    if events.len() == 0 {
        state
    } else {
        absorb(absorb_all(state, events.drop_last()), events.last())
    }
}

/// Whether an event is the tick at which no whole second is left.
pub open spec fn is_deadline(event: Event) -> bool {
    event matches Event::Countdown(remaining) && remaining == 0
}

/// What the listener should report for an event: the seconds left, for a
/// tick that arrives before the deadline has passed.
pub open spec fn report_of(state: RunState, event: Event) -> Option<u64> {
    if !state.1 && event is Countdown {
        Some(event->Countdown_0)
    } else {
        None
    }
}

/// The events that announce `hosts`, in order.
pub open spec fn announcements(hosts: Seq<HostInfo>) -> Seq<Event> {
    hosts.map_values(|h: HostInfo| Event::HostFound(h))
}

/// Whether `hosts[i]` is the first announcement of its identifier.
pub open spec fn first_of_its_id(hosts: Seq<HostInfo>, i: int) -> bool {
    forall|j: int| 0 <= j < i ==> hosts[j].id != hosts[i].id
}

/// Folding `a` and then `b` is folding `a + b`.
pub proof fn lemma_absorb_all_append(state: RunState, a: Seq<Event>, b: Seq<Event>)
    ensures
        absorb_all(state, a + b) == absorb_all(absorb_all(state, a), b),
    decreases b.len(),
{
    if b.len() == 0 {
        assert(a + b =~= a);
    } else {
        assert((a + b).drop_last() =~= a + b.drop_last());
        lemma_absorb_all_append(state, a, b.drop_last());
    }
}

/// After the deadline no event changes the state.
pub proof fn lemma_finished_is_final(state: RunState, events: Seq<Event>)
    requires
        state.1,
    ensures
        absorb_all(state, events) == state,
    decreases events.len(),
{
    if events.len() > 0 {
        lemma_finished_is_final(state, events.drop_last());
    }
}

/// A run is not over before its deadline tick.
pub proof fn lemma_open_until_deadline(events: Seq<Event>)
    requires
        forall|i: int| 0 <= i < events.len() ==> !is_deadline(#[trigger] events[i]),
    ensures
        !absorb_all(fresh(), events).1,
    decreases events.len(),
{
    if events.len() > 0 {
        lemma_open_until_deadline(events.drop_last());
        assert(!is_deadline(events[events.len() - 1]));
    }
}

/// The run ends exactly at the first tick with no second left: it is still
/// open after every event before that tick, closed right after it, and the
/// peers kept at the end are those kept before the tick, whatever follows.
pub proof fn deadline_closes_run(before: Seq<Event>, after: Seq<Event>)
    requires
        forall|i: int| 0 <= i < before.len() ==> !is_deadline(#[trigger] before[i]),
    ensures
        !absorb_all(fresh(), before).1,
        absorb_all(fresh(), before.push(Event::Countdown(0))) == (absorb_all(fresh(), before).0, true),
        absorb_all(fresh(), before.push(Event::Countdown(0)) + after) == (
            absorb_all(fresh(), before).0,
            true,
        ),
{
    lemma_open_until_deadline(before);
    let closed = before.push(Event::Countdown(0));
    assert(closed.drop_last() =~= before);
    lemma_absorb_all_append(fresh(), closed, after);
    lemma_finished_is_final(absorb_all(fresh(), closed), after);
}

/// Folding announcements keeps exactly one entry per identifier announced,
/// holding the first announcement of that identifier.
pub proof fn first_announcement_wins(hosts: Seq<HostInfo>)
    ensures
        !absorb_all(fresh(), announcements(hosts)).1,
        forall|id: u128|
            absorb_all(fresh(), announcements(hosts)).0.contains_key(id) <==> exists|i: int|
                0 <= i < hosts.len() && #[trigger] hosts[i].id == id,
        forall|i: int|
            0 <= i < hosts.len() && first_of_its_id(hosts, i) ==> absorb_all(
                fresh(),
                announcements(hosts),
            ).0[#[trigger] hosts[i].id] == hosts[i],
    decreases hosts.len(),
{
    if hosts.len() > 0 {
        let prev = hosts.drop_last();
        let n = hosts.len() - 1;
        first_announcement_wins(prev);
        assert(announcements(hosts).drop_last() =~= announcements(prev));
        let m0 = absorb_all(fresh(), announcements(prev)).0;
        let m = absorb_all(fresh(), announcements(hosts)).0;
        assert forall|id: u128| m.contains_key(id) <==> exists|i: int|
            0 <= i < hosts.len() && #[trigger] hosts[i].id == id by {
            if m.contains_key(id) && id != hosts[n].id {
                let i = choose|i: int| 0 <= i < prev.len() && #[trigger] prev[i].id == id;
                assert(hosts[i].id == id);
            }
            if exists|i: int| 0 <= i < hosts.len() && #[trigger] hosts[i].id == id {
                let i = choose|i: int| 0 <= i < hosts.len() && #[trigger] hosts[i].id == id;
                if i < n {
                    assert(prev[i].id == id);
                }
            }
        }
        assert forall|i: int|
            0 <= i < hosts.len() && first_of_its_id(hosts, i) implies m[#[trigger] hosts[i].id]
            == hosts[i] by {
            if i < n {
                assert(prev[i] == hosts[i]);
                assert(first_of_its_id(prev, i));
            } else {
                if m0.contains_key(hosts[n].id) {
                    let j = choose|j: int| 0 <= j < prev.len() && #[trigger] prev[j].id == hosts[n].id;
                    assert(hosts[j].id == hosts[n].id);
                }
            }
        }
    }
}

/// Folds the events of a run, one at a time, into the peers seen.
pub struct Aggregator {
    hosts: HashMap<u128, HostInfo>,
    finished: bool,
}

impl Aggregator {
    /// The peers kept and whether the run is over.
    pub closed spec fn state(&self) -> RunState {
        (self.hosts@, self.finished)
    }

    pub fn new() -> (r: Self)
        ensures
            r.state() == fresh(),
    {
        Aggregator { hosts: HashMap::new(), finished: false }
    }

    /// Whether the deadline tick has been seen.
    pub fn is_finished(&self) -> (r: bool)
        ensures
            r == self.state().1,
    {
        self.finished
    }

    /// Takes one event of the merged stream. Returns the seconds left when the
    /// event is a tick that still belongs to the run, for the progress report.
    pub fn step(&mut self, event: Event) -> (report: Option<u64>)
        ensures
            final(self).state() == absorb(old(self).state(), event),
            report == report_of(old(self).state(), event),
    {
        if self.finished {
            return None;
        }
        match event {
            Event::Countdown(remaining) => {
                self.finished = remaining == 0;
                Some(remaining)
            },
            Event::HostFound(h) => {
                if !self.hosts.contains_key(&h.id) {
                    self.hosts.insert(h.id, h);
                }
                None
            },
        }
    }

    /// Folds a whole sequence of events, in order.
    pub fn collect(events: Vec<Event>) -> (r: Self)
        ensures
            r.state() == absorb_all(fresh(), events@),
    {
        let ghost all = events@;
        let total = events.len();
        let mut rest = events;
        let mut agg = Aggregator::new();
        let mut done: usize = 0;
        while rest.len() > 0
            invariant
                done + rest@.len() == all.len(),
                all.len() == total,
                rest@ == all.subrange(done as int, all.len() as int),
                agg.state() == absorb_all(fresh(), all.subrange(0, done as int)),
            decreases rest@.len(),
        {
            let e = rest.remove(0);
            let ghost before = all.subrange(0, done as int);
            agg.step(e);
            done = done + 1;
            assert(all.subrange(0, done as int).drop_last() =~= before);
        }
        assert(all.subrange(0, done as int) =~= all);
        agg
    }

    /// The peers seen, by identifier.
    pub fn finish(self) -> (r: HashMap<u128, HostInfo>)
        ensures
            r@ == self.state().0,
    {
        self.hosts
    }
}

} // verus!
