//! The snapshot store and one polling cycle: sample, diff every identity
//! seen before, render, and replace the snapshot.

use std::collections::HashMap;
use vstd::prelude::*;
use crate::notice::{notices, notifications_view, notify_changes, Notification};
use crate::presence::PresenceState;

verus! {

broadcast use vstd::std_specs::hash::group_hash_axioms;

/// A notification as a title, a body and a colour.
pub type NoticeView = (Seq<char>, Seq<char>, u32);

/// The last observed state of every identity seen in the latest cycle.
pub struct SnapshotStore {
    states: HashMap<u64, PresenceState>,
}

impl View for SnapshotStore {
    type V = Map<u64, PresenceState>;

    closed spec fn view(&self) -> Map<u64, PresenceState> {
        self.states@
    }
}

/// The mapping that a list of samples describes: a later sample of an
/// identity replaces an earlier one.
pub open spec fn sampled(samples: Seq<(u64, PresenceState)>) -> Map<u64, PresenceState>
    decreases samples.len(),
{
    if samples.len() == 0 {
        Map::empty()
    } else {
        let last = samples.last();
        sampled(samples.drop_last()).insert(last.0, last.1)
    }
}

/// Whether sample `i` is the last one of its identity.
pub open spec fn is_latest(samples: Seq<(u64, PresenceState)>, i: int) -> bool {
    forall|j: int| i < j < samples.len() ==> samples[j].0 != samples[i].0
}

/// What the first `n` samples contribute to a cycle over `prev`: for each
/// identity that `prev` holds, the notifications of its change, taken at its
/// last sample.
pub open spec fn cycle_prefix(
    prev: Map<u64, PresenceState>,
    samples: Seq<(u64, PresenceState)>,
    n: nat,
    time: Seq<char>,
) -> Seq<NoticeView>
    decreases n,
{
    if n == 0 {
        Seq::empty()
    } else {
        let i = n - 1;
        let s = samples[i];
        let own = if is_latest(samples, i) && prev.contains_key(s.0) {
            notices(prev[s.0], s.1, time)
        } else {
            Seq::empty()
        };
        cycle_prefix(prev, samples, (n - 1) as nat, time) + own
    }
}

/// The notifications of a whole cycle over `prev`, in sample order.
pub open spec fn cycle_notices(
    prev: Map<u64, PresenceState>,
    samples: Seq<(u64, PresenceState)>,
    time: Seq<char>,
) -> Seq<NoticeView> {
    cycle_prefix(prev, samples, samples.len(), time)
}

/// The snapshot after a cycle holds exactly the identities that were
/// sampled, each with the state of its last sample: an identity that the
/// sampler left out is dropped, whatever the snapshot held for it.
pub proof fn lemma_snapshot_is_what_was_sampled(samples: Seq<(u64, PresenceState)>, id: u64)
    ensures
        sampled(samples).contains_key(id) <==> exists|i: int|
            0 <= i < samples.len() && #[trigger] samples[i].0 == id,
        forall|i: int|
            0 <= i < samples.len() && #[trigger] samples[i].0 == id && is_latest(samples, i)
                ==> sampled(samples)[id] == samples[i].1,
    decreases samples.len(),
{
    if samples.len() > 0 {
        let rest = samples.drop_last();
        lemma_snapshot_is_what_was_sampled(rest, id);
        let n = samples.len() - 1;
        if sampled(samples).contains_key(id) && samples.last().0 != id {
            let i = choose|i: int| 0 <= i < rest.len() && #[trigger] rest[i].0 == id;
            assert(samples[i].0 == id);
        }
        assert forall|i: int| 0 <= i < samples.len() && #[trigger] samples[i].0 == id && is_latest(
            samples,
            i,
        ) implies sampled(samples)[id] == samples[i].1 by {
            if i < n {
                assert(samples[n].0 != id);
                assert(rest[i] == samples[i]);
                assert(is_latest(rest, i));
            }
        }
        if exists|i: int| 0 <= i < samples.len() && #[trigger] samples[i].0 == id {
            let i = choose|i: int| 0 <= i < samples.len() && #[trigger] samples[i].0 == id;
            if i < n && samples.last().0 != id {
                assert(rest[i].0 == id);
            }
        }
    }
}

/// Two sample lists that agree on every identity and on every state, except
/// on the state of an identity absent from `prev`, give the same
/// notifications over the first `n` samples.
proof fn lemma_prefix_ignores_first_sighting(
    prev: Map<u64, PresenceState>,
    a: Seq<(u64, PresenceState)>,
    b: Seq<(u64, PresenceState)>,
    n: nat,
    time: Seq<char>,
)
    requires
        a.len() == b.len(),
        n <= a.len(),
        forall|i: int| 0 <= i < a.len() ==> #[trigger] a[i].0 == b[i].0,
        forall|i: int|
            0 <= i < a.len() && prev.contains_key(#[trigger] a[i].0) ==> a[i].1 == b[i].1,
    ensures
        cycle_prefix(prev, a, n, time) == cycle_prefix(prev, b, n, time),
    decreases n,
{
    if n > 0 {
        lemma_prefix_ignores_first_sighting(prev, a, b, (n - 1) as nat, time);
        let i = n - 1;
        assert(a[i].0 == b[i].0);
        assert(is_latest(a, i) == is_latest(b, i)) by {
            assert forall|j: int| i < j < a.len() implies (a[j].0 != a[i].0 <==> b[j].0 != b[i].0) by {
                assert(a[j].0 == b[j].0);
            }
        }
    }
}

/// An identity absent from the previous snapshot never gives rise to a
/// notification: whatever its sampled state, the cycle notifies the same.
pub proof fn lemma_first_sighting_is_silent(
    prev: Map<u64, PresenceState>,
    a: Seq<(u64, PresenceState)>,
    b: Seq<(u64, PresenceState)>,
    time: Seq<char>,
)
    requires
        a.len() == b.len(),
        forall|i: int| 0 <= i < a.len() ==> #[trigger] a[i].0 == b[i].0,
        forall|i: int|
            0 <= i < a.len() && prev.contains_key(#[trigger] a[i].0) ==> a[i].1 == b[i].1,
    ensures
        cycle_notices(prev, a, time) == cycle_notices(prev, b, time),
{
    lemma_prefix_ignores_first_sighting(prev, a, b, a.len(), time);
}

proof fn lemma_prefix_of_unseen_is_empty(
    prev: Map<u64, PresenceState>,
    samples: Seq<(u64, PresenceState)>,
    n: nat,
    time: Seq<char>,
)
    requires
        n <= samples.len(),
        forall|i: int| 0 <= i < samples.len() ==> !prev.contains_key(#[trigger] samples[i].0),
    ensures
        cycle_prefix(prev, samples, n, time) == Seq::<NoticeView>::empty(),
    decreases n,
{
    if n > 0 {
        lemma_prefix_of_unseen_is_empty(prev, samples, (n - 1) as nat, time);
        assert(!prev.contains_key(samples[n - 1].0));
        assert(cycle_prefix(prev, samples, n, time) =~= Seq::<NoticeView>::empty());
    }
}

/// A cycle in which no sampled identity was in the previous snapshot
/// notifies nothing.
pub proof fn lemma_all_first_sightings_are_silent(
    prev: Map<u64, PresenceState>,
    samples: Seq<(u64, PresenceState)>,
    time: Seq<char>,
)
    requires
        forall|i: int| 0 <= i < samples.len() ==> !prev.contains_key(#[trigger] samples[i].0),
    ensures
        cycle_notices(prev, samples, time) == Seq::<NoticeView>::empty(),
{
    lemma_prefix_of_unseen_is_empty(prev, samples, samples.len(), time);
}

proof fn lemma_prefix_of_repeat_is_empty(
    samples: Seq<(u64, PresenceState)>,
    n: nat,
    time: Seq<char>,
)
    requires
        n <= samples.len(),
    ensures
        cycle_prefix(sampled(samples), samples, n, time) == Seq::<NoticeView>::empty(),
    decreases n,
{
    if n > 0 {
        let i = n - 1;
        let prev = sampled(samples);
        lemma_prefix_of_repeat_is_empty(samples, (n - 1) as nat, time);
        lemma_snapshot_is_what_was_sampled(samples, samples[i].0);
        if is_latest(samples, i) && prev.contains_key(samples[i].0) {
            let s = samples[i].1;
            assert(prev[samples[i].0] == s);
            crate::presence::lemma_unchanged_state_is_silent(s);
            assert(notices(s, s, time) =~= Seq::<NoticeView>::empty());
        }
        assert(cycle_prefix(prev, samples, n, time) =~= Seq::<NoticeView>::empty());
    }
}

/// Sampling again exactly what the previous cycle sampled notifies nothing.
pub proof fn lemma_repeated_cycle_is_silent(samples: Seq<(u64, PresenceState)>, time: Seq<char>)
    ensures
        cycle_notices(sampled(samples), samples, time) == Seq::<NoticeView>::empty(),
{
    lemma_prefix_of_repeat_is_empty(samples, samples.len(), time);
}

impl SnapshotStore {
    /// An empty store: no identity has been seen yet.
    pub fn new() -> (r: SnapshotStore)
        ensures
            r@ == Map::<u64, PresenceState>::empty(),
    {
        SnapshotStore { states: HashMap::new() }
    }

    /// A copy of the current snapshot.
    pub fn read(&self) -> (r: HashMap<u64, PresenceState>)
        ensures
            r@ == self@,
    {
        self.states.clone()
    }

    /// Replaces the whole snapshot.
    pub fn replace(&mut self, states: HashMap<u64, PresenceState>)
        ensures
            final(self)@ == states@,
    {
        self.states = states;
    }

    /// The last observed state of `id`, if it was seen in the latest cycle.
    pub fn get(&self, id: u64) -> (r: Option<&PresenceState>)
        ensures
            match r {
                Some(s) => self@.contains_key(id) && *s == self@[id],
                None => !self@.contains_key(id),
            },
    {
        self.states.get(&id)
    }

    /// The number of identities in the snapshot.
    pub fn len(&self) -> (r: usize)
        ensures
            r == self@.len(),
    {
        self.states.len()
    }
}

/// The mapping described by `samples`, a later sample of an identity
/// replacing an earlier one.
pub fn collect_samples(samples: &Vec<(u64, PresenceState)>) -> (r: HashMap<u64, PresenceState>)
    ensures
        r@ == sampled(samples@),
{
    let mut map: HashMap<u64, PresenceState> = HashMap::new();
    let mut i: usize = 0;
    while i < samples.len()
        invariant
            i <= samples@.len(),
            map@ == sampled(samples@.take(i as int)),
        decreases samples@.len() - i,
    {
        let id = samples[i].0;
        let state = samples[i].1.duplicate();
        map.insert(id, state);
        assert(samples@.take(i + 1).drop_last() =~= samples@.take(i as int));
        i = i + 1;
    }
    assert(samples@.take(samples@.len() as int) =~= samples@);
    map
}

/// Whether sample `i` is the last one of its identity.
fn latest_of_id(samples: &Vec<(u64, PresenceState)>, i: usize) -> (r: bool)
    requires
        i < samples@.len(),
    ensures
        r == is_latest(samples@, i as int),
{
    let id = samples[i].0;
    let n = samples.len();
    let mut j: usize = i + 1;
    while j < samples.len()
        invariant
            i < j <= samples@.len(),
            id == samples@[i as int].0,
            forall|k: int| i < k < j ==> samples@[k].0 != id,
        decreases samples@.len() - j,
    {
        if samples[j].0 == id {
            return false;
        }
        j = j + 1;
    }
    true
}

/// One polling cycle at `time`: every identity present both in the snapshot
/// and among `samples` is classified against its previous state, and the
/// snapshot is then replaced by exactly what was sampled, so that an
/// identity missing from `samples` counts as never seen when it comes back.
pub fn run_cycle(store: &mut SnapshotStore, samples: &Vec<(u64, PresenceState)>, time: &str) -> (r:
    Vec<Notification>)
    ensures
        notifications_view(r@) == cycle_notices(old(store)@, samples@, time@),
        final(store)@ == sampled(samples@),
{
    let mut out: Vec<Notification> = Vec::new();
    let mut i: usize = 0;
    while i < samples.len()
        invariant
            i <= samples@.len(),
            notifications_view(out@) == cycle_prefix(store@, samples@, i as nat, time@),
        decreases samples@.len() - i,
    {
        let ghost before = out@;
        let (id, cur) = (samples[i].0, &samples[i].1);
        if latest_of_id(samples, i) {
            match store.get(id) {
                Some(prev) => {
                    let mut more = notify_changes(prev, cur, time);
                    out.append(&mut more);
                    assert(notifications_view(out@) =~= notifications_view(before)
                        + notices(store@[id], *cur, time@));
                },
                None => {},
            }
        }
        assert(notifications_view(out@) =~= cycle_prefix(store@, samples@, (i + 1) as nat, time@));
        i = i + 1;
    }
    let next = collect_samples(samples);
    store.replace(next);
    out
}

/// One polling cycle stamped with the current time in `zone`: whatever time
/// the clock gave, the notifications are those of [`run_cycle`] at that time,
/// and the snapshot becomes what was sampled.
pub fn check(store: &mut SnapshotStore, samples: &Vec<(u64, PresenceState)>, zone: &chrono_tz::Tz) -> (r:
    Vec<Notification>)
    ensures
        exists|time: Seq<char>|
            notifications_view(r@) == cycle_notices(old(store)@, samples@, time),
        final(store)@ == sampled(samples@),
{
    let time = crate::clock::local_time_text(zone);
    let r = run_cycle(store, samples, time.as_str());
    assert(notifications_view(r@) == cycle_notices(old(store)@, samples@, time@));
    r
}

} // verus!
