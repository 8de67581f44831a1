use vstd::prelude::*;
use vstd::multiset::Multiset;
use crate::ledger::{Time, TripID};
use crate::trip::TripSpec;

verus! {

#[derive(Clone, Copy, Debug, PartialEq, Eq, Structural)]
pub enum Command {
    /// Start a registered trip, following its specification.
    StartTrip(TripID, TripSpec),
}

/// Pending commands, each due at a simulated time.
pub struct Scheduler {
    pub events: Vec<(Time, Command)>,
}

/// Whether the times of the events never decrease.
pub open spec fn in_time_order(s: Seq<(Time, Command)>) -> bool {
    forall|i: int, j: int| 0 <= i <= j < s.len() ==> s[i].0 <= s[j].0
}

impl Scheduler {
    pub fn new() -> (r: Scheduler)
        ensures
            r.events@.len() == 0,
    {
        Scheduler { events: Vec::new() }
    }

    /// Queues a command due at `time`.
    pub fn push(&mut self, time: Time, cmd: Command)
        ensures
            final(self).events@ == old(self).events@.push((time, cmd)),
    {
        self.events.push((time, cmd));
    }

    /// Takes out the earliest pending command; of several due at once, the
    /// one queued first.
    pub fn get_next(&mut self) -> (r: Option<(Time, Command)>)
        ensures
            old(self).events@.len() == 0 ==> r is None && final(self).events@ == old(self).events@,
            old(self).events@.len() > 0 ==> exists|k: int|
                0 <= k < old(self).events@.len() && r == Some(old(self).events@[k])
                    && final(self).events@ == old(self).events@.remove(k)
                    && (forall|j: int| 0 <= j < old(self).events@.len() ==> old(self).events@[k].0 <= #[trigger] old(self).events@[j].0)
                    && (forall|j: int| 0 <= j < k ==> old(self).events@[k].0 < #[trigger] old(self).events@[j].0),
    {
        if self.events.len() == 0 {
            return None;
        }
        let mut best: usize = 0;
        let mut i: usize = 1;
        while i < self.events.len()
            invariant
                1 <= i <= self.events@.len(),
                best < i,
                forall|j: int| 0 <= j < i ==> self.events@[best as int].0 <= #[trigger] self.events@[j].0,
                forall|j: int| 0 <= j < best ==> self.events@[best as int].0 < #[trigger] self.events@[j].0,
            decreases self.events@.len() - i,
        {
            if self.events[i].0 < self.events[best].0 {
                best = i;
            }
            i = i + 1;
        }
        Some(self.events.remove(best))
    }

    /// Takes out every pending command, earliest first, keeping the order
    /// in which commands due at once were queued.
    pub fn drain_in_order(&mut self) -> (r: Vec<(Time, Command)>)
        ensures
            final(self).events@.len() == 0,
            in_time_order(r@),
            r@.to_multiset() == old(self).events@.to_multiset(),
    {
        let mut out: Vec<(Time, Command)> = Vec::new();
        let ghost orig = self.events@;
        proof {
            out@.to_multiset_ensures();
            assert(out@.to_multiset().add(orig.to_multiset()) =~= orig.to_multiset());
        }
        while self.events.len() > 0
            invariant
                in_time_order(out@),
                out@.to_multiset().add(self.events@.to_multiset()) == orig.to_multiset(),
                forall|a: int, b: int| 0 <= a < out@.len() && 0 <= b < self.events@.len() ==> out@[a].0 <= self.events@[b].0,
            decreases self.events@.len(),
        {
            let ghost before = self.events@;
            let e = self.get_next();
            let ghost k = choose|k: int| 0 <= k < before.len() && e == Some(before[k])
                    && self.events@ == before.remove(k)
                    && (forall|j: int| 0 <= j < before.len() ==> before[k].0 <= #[trigger] before[j].0)
                    && (forall|j: int| 0 <= j < k ==> before[k].0 < #[trigger] before[j].0);
            let e = e.unwrap();
            proof {
                out@.to_multiset_ensures();
                before.to_multiset_ensures();
                assert(out@.push(e).to_multiset() =~= out@.to_multiset().insert(e));
                assert(before.remove(k).to_multiset() =~= before.to_multiset().remove(before[k]));
                assert forall|b: int| 0 <= b < self.events@.len() implies e.0 <= self.events@[b].0 by {
                    if b < k {
                        assert(self.events@[b] == before[b]);
                    } else {
                        assert(self.events@[b] == before[b + 1]);
                    }
                }
                assert forall|a: int| 0 <= a < out@.len() implies out@[a].0 <= e.0 by {
                    assert(before[k] == e);
                }
            }
            out.push(e);
            proof {
                assert(out@.to_multiset().add(self.events@.to_multiset()) =~= orig.to_multiset());
            }
        }
        proof {
            self.events@.to_multiset_ensures();
            assert(self.events@.to_multiset() =~= Multiset::empty());
        }
        out
    }
}

} // verus!
