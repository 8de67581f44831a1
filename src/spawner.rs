use vstd::prelude::*;
use crate::ledger::{Time, TripEndpoint, TripID, TripLeg, TripManager, TripMode, TripPurpose, PersonID, TripRecord};
use crate::map::{bike_rack_spot, building_spot, bus_stop_spot, deferred_spot, DrivingGoal, MapView, SidewalkSpot};
use crate::scheduler::{Command, Scheduler};
use crate::trip::{aborts, fits_map, runnable, validate, validated, TripSpec, VehicleType};

verus! {

/// A validated trip waiting to be registered and scheduled.
#[derive(Clone, Copy, Debug, PartialEq, Eq, Structural)]
pub struct TripSpawnPlan {
    pub person: PersonID,
    pub start_time: Time,
    pub spec: TripSpec,
    pub trip_start: TripEndpoint,
    pub purpose: TripPurpose,
    /// Register the trip, but never start it.
    pub cancelled: bool,
    /// A scenario editor changed this trip.
    pub modified: bool,
}

/// Collects validated trips, then registers and schedules them all at once.
pub struct TripSpawner {
    pub trips: Vec<TripSpawnPlan>,
}

/// The reason recorded for a trip that a plan asked to cancel.
pub open spec fn cancel_reason() -> Seq<char> {
    "traffic pattern modifier cancelled this trip"@
}

/// The walk to a building that ends a drive to park near it.
pub open spec fn final_walk(goal: DrivingGoal, map: &MapView) -> Seq<TripLeg> {
    match goal {
        DrivingGoal::ParkNear(b) => seq![TripLeg::Walk(building_spot(b, map))],
        DrivingGoal::Border(..) => seq![],
    }
}

/// The legs of a trip, in the order they are taken.
pub open spec fn legs_of(spec: TripSpec, map: &MapView) -> Seq<TripLeg> {
    match spec {
        TripSpec::VehicleAppearing { goal, use_vehicle, .. } => seq![TripLeg::Drive(use_vehicle, goal)]
            + final_walk(goal, map),
        TripSpec::SpawningFailure { .. } => seq![],
        TripSpec::UsingParkedCar { car, goal, .. } => seq![
            TripLeg::Walk(deferred_spot()),
            TripLeg::Drive(car, goal),
        ] + final_walk(goal, map),
        TripSpec::JustWalking { goal, .. } => seq![TripLeg::Walk(goal)],
        TripSpec::UsingBike { bike, start, goal } => seq![
            TripLeg::Walk(bike_rack_spot(start, map).unwrap()),
            TripLeg::Drive(bike, goal),
        ] + final_walk(goal, map),
        TripSpec::UsingTransit { goal, route, stop1, maybe_stop2, .. } => match maybe_stop2 {
            Some(stop2) => seq![
                TripLeg::Walk(bus_stop_spot(stop1, map)),
                TripLeg::RideBus(route, Some(stop2)),
                TripLeg::Walk(goal),
            ],
            None => seq![TripLeg::Walk(bus_stop_spot(stop1, map)), TripLeg::RideBus(route, None)],
        },
    }
}

pub open spec fn mode_of(spec: TripSpec) -> TripMode {
    match spec {
        TripSpec::VehicleAppearing { use_vehicle, .. } => if use_vehicle.1 == VehicleType::Bike {
            TripMode::Bike
        } else {
            TripMode::Drive
        },
        TripSpec::UsingParkedCar { .. } => TripMode::Drive,
        TripSpec::JustWalking { .. } => TripMode::Walk,
        TripSpec::UsingBike { .. } => TripMode::Bike,
        TripSpec::UsingTransit { .. } => TripMode::Transit,
        TripSpec::SpawningFailure { .. } => TripMode::Walk,
    }
}

/// Whether a plan can be finalized against this map and ledger.
pub open spec fn ready(plan: TripSpawnPlan, map: &MapView, ledger: &TripManager) -> bool {
    &&& ledger.has_person(plan.person)
    &&& fits_map(plan.spec, map)
    &&& runnable(plan.spec, map)
}

/// The event that starts the trip of a plan, registered under `id`.
pub open spec fn start_event(plan: TripSpawnPlan, id: nat) -> (Time, Command) {
    (plan.start_time, Command::StartTrip(TripID(id as usize), plan.spec))
}

/// The events that finalizing `plans` queues, when their trips get the ids
/// from `first` on: one for each plan that is not cancelled, in plan order.
pub open spec fn start_events(plans: Seq<TripSpawnPlan>, first: nat) -> Seq<(Time, Command)>
    decreases plans.len(),
{
    if plans.len() == 0 {
        seq![]
    } else {
        let rest = start_events(plans.drop_last(), first);
        if plans.last().cancelled {
            rest
        } else {
            rest.push(start_event(plans.last(), (first + plans.len() - 1) as nat))
        }
    }
}

/// Whether a registered trip is the one finalizing `plan` registers.
pub open spec fn registered_as(t: TripRecord, plan: TripSpawnPlan, map: &MapView) -> bool {
    &&& t.person == plan.person
    &&& t.start_time == plan.start_time
    &&& t.start == plan.trip_start
    &&& t.mode == mode_of(plan.spec)
    &&& t.purpose == plan.purpose
    &&& t.modified == plan.modified
    &&& t.legs@ == legs_of(plan.spec, map)
    &&& plan.cancelled ==> t.cancelled is Some && t.cancelled.unwrap()@ == cancel_reason()
    &&& !plan.cancelled ==> t.cancelled is None
}

fn final_walk_leg(legs: &mut Vec<TripLeg>, goal: DrivingGoal, map: &MapView)
    requires
        goal.fits(map),
    ensures
        final(legs)@ == old(legs)@ + final_walk(goal, map),
{
    match goal {
        DrivingGoal::ParkNear(b) => {
            legs.push(TripLeg::Walk(SidewalkSpot::building(b, map)));
        },
        DrivingGoal::Border(..) => {},
    }
    assert(final_walk(goal, map) =~= seq![] ==> legs@ =~= old(legs)@ + final_walk(goal, map));
}

/// The legs and the mode of a runnable trip.
fn legs_for(spec: TripSpec, map: &MapView) -> (r: (Vec<TripLeg>, TripMode))
    requires
        fits_map(spec, map),
        runnable(spec, map),
    ensures
        r.0@ == legs_of(spec, map),
        r.1 == mode_of(spec),
{
    match spec {
        TripSpec::VehicleAppearing { goal, use_vehicle, .. } => {
            let mut legs = vec![TripLeg::Drive(use_vehicle, goal)];
            final_walk_leg(&mut legs, goal, map);
            let mode = if use_vehicle.1 == VehicleType::Bike {
                TripMode::Bike
            } else {
                TripMode::Drive
            };
            (legs, mode)
        },
        TripSpec::SpawningFailure { .. } => (Vec::new(), TripMode::Walk),
        TripSpec::UsingParkedCar { car, goal, .. } => {
            let mut legs = vec![
                TripLeg::Walk(SidewalkSpot::deferred_parking_spot()),
                TripLeg::Drive(car, goal),
            ];
            final_walk_leg(&mut legs, goal, map);
            (legs, TripMode::Drive)
        },
        TripSpec::JustWalking { goal, .. } => {
            let legs = vec![TripLeg::Walk(goal)];
            proof {
                assert(legs@ =~= legs_of(spec, map));
            }
            (legs, TripMode::Walk)
        },
        TripSpec::UsingBike { bike, start, goal } => {
            let walk_to = SidewalkSpot::bike_rack(start, map).unwrap();
            let mut legs = vec![TripLeg::Walk(walk_to), TripLeg::Drive(bike, goal)];
            final_walk_leg(&mut legs, goal, map);
            (legs, TripMode::Bike)
        },
        TripSpec::UsingTransit { goal, route, stop1, maybe_stop2, .. } => {
            let walk_to = SidewalkSpot::bus_stop(stop1, map);
            let legs = match maybe_stop2 {
                Some(stop2) => vec![
                    TripLeg::Walk(walk_to),
                    TripLeg::RideBus(route, Some(stop2)),
                    TripLeg::Walk(goal),
                ],
                None => vec![TripLeg::Walk(walk_to), TripLeg::RideBus(route, None)],
            };
            proof {
                assert(legs@ =~= legs_of(spec, map));
            }
            (legs, TripMode::Transit)
        },
    }
}

/// Every event that finalizing queues starts the trip of a plan that is not
/// cancelled, at that plan's start time.
pub proof fn lemma_events_start_accepted_plans(plans: Seq<TripSpawnPlan>, first: nat)
    ensures
        start_events(plans, first).len() <= plans.len(),
        forall|j: int|
            0 <= j < start_events(plans, first).len() ==> exists|i: int|
                0 <= i < plans.len() && !plans[i].cancelled && #[trigger] start_events(plans, first)[j]
                    == start_event(plans[i], first + i as nat),
    decreases plans.len(),
{
    if plans.len() > 0 {
        let rest = plans.drop_last();
        lemma_events_start_accepted_plans(rest, first);
        let ev = start_events(plans, first);
        assert forall|j: int| 0 <= j < ev.len() implies exists|i: int|
            0 <= i < plans.len() && !plans[i].cancelled && #[trigger] ev[j] == start_event(
                plans[i],
                first + i as nat,
            ) by {
            if j < start_events(rest, first).len() {
                let i = choose|i: int|
                    0 <= i < rest.len() && !rest[i].cancelled && #[trigger] start_events(rest, first)[j]
                        == start_event(rest[i], first + i as nat);
                assert(plans[i] == rest[i]);
            } else {
                let i = plans.len() - 1;
                assert(!plans[i].cancelled && ev[j] == start_event(plans[i], first + i as nat));
            }
        }
    }
}

/// The trip that a command starts.
pub open spec fn started_trip(c: Command) -> TripID {
    match c {
        Command::StartTrip(id, _) => id,
    }
}

/// A cancelled plan's trip is never started: no event that finalizing
/// queues names the id it was registered under (its record is still made,
/// as `finalize` states).
pub proof fn lemma_cancelled_plan_never_started(plans: Seq<TripSpawnPlan>, first: nat, i: int)
    requires
        0 <= i < plans.len(),
        plans[i].cancelled,
        first + plans.len() <= usize::MAX,
    ensures
        forall|j: int|
            0 <= j < start_events(plans, first).len() ==> started_trip(
                #[trigger] start_events(plans, first)[j].1,
            ) != TripID((first + i) as usize),
{
    lemma_events_start_accepted_plans(plans, first);
    assert forall|j: int|
        0 <= j < start_events(plans, first).len() implies started_trip(
            #[trigger] start_events(plans, first)[j].1,
        ) != TripID((first + i) as usize) by {
        let k = choose|k: int|
            0 <= k < plans.len() && !plans[k].cancelled && #[trigger] start_events(plans, first)[j]
                == start_event(plans[k], first + k as nat);
        assert(k != i);
    }
}

/// Finalizing plans none of which is cancelled queues exactly one event per
/// plan, in plan order, each due at that plan's start time.
pub proof fn lemma_accepted_plans_each_start(plans: Seq<TripSpawnPlan>, first: nat)
    requires
        forall|i: int| 0 <= i < plans.len() ==> !(#[trigger] plans[i]).cancelled,
    ensures
        start_events(plans, first).len() == plans.len(),
        forall|i: int|
            0 <= i < plans.len() ==> #[trigger] start_events(plans, first)[i] == start_event(
                plans[i],
                first + i as nat,
            ),
        forall|i: int| 0 <= i < plans.len() ==> #[trigger] start_events(plans, first)[i].0 == plans[i].start_time,
    decreases plans.len(),
{
    if plans.len() > 0 {
        let rest = plans.drop_last();
        assert forall|i: int| 0 <= i < rest.len() implies !(#[trigger] rest[i]).cancelled by {
            assert(rest[i] == plans[i]);
        }
        lemma_accepted_plans_each_start(rest, first);
        assert(!plans[plans.len() - 1].cancelled);
    }
}

impl TripSpawner {
    pub fn new() -> (r: TripSpawner)
        ensures
            r.trips@.len() == 0,
    {
        TripSpawner { trips: Vec::new() }
    }

    /// Validates a trip and wraps it in a plan; nothing is registered or
    /// scheduled yet. Reads the map only, so many threads may call it.
    pub fn schedule_trip(
        &self,
        person: PersonID,
        start_time: Time,
        spec: TripSpec,
        trip_start: TripEndpoint,
        purpose: TripPurpose,
        cancelled: bool,
        modified: bool,
        map: &MapView,
    ) -> (r: TripSpawnPlan)
        requires
            fits_map(spec, map),
            !aborts(spec, map),
        ensures
            r == (TripSpawnPlan {
                person,
                start_time,
                spec: validated(spec, map),
                trip_start,
                purpose,
                cancelled,
                modified,
            }),
    {
        let spec = validate(spec, map);
        TripSpawnPlan { person, start_time, spec, trip_start, purpose, cancelled, modified }
    }

    /// Adds a batch of plans, keeping their order.
    pub fn schedule_trips(&mut self, trips: Vec<TripSpawnPlan>)
        ensures
            final(self).trips@ == old(self).trips@ + trips@,
    {
        let mut trips = trips;
        self.trips.append(&mut trips);
    }
    /// Takes out the plans whose trips failed validation, keeping the order
    /// of both parts. Such a trip has no legs: these plans are reported
    /// apart, and never finalized.
    pub fn take_failures(&mut self) -> (r: Vec<TripSpawnPlan>)
        ensures
            r@ == old(self).trips@.filter(|p: TripSpawnPlan| p.spec is SpawningFailure),
            final(self).trips@ == old(self).trips@.filter(|p: TripSpawnPlan| !(p.spec is SpawningFailure)),
    {
        let mut keep: Vec<TripSpawnPlan> = Vec::new();
        let mut out: Vec<TripSpawnPlan> = Vec::new();
        let mut i: usize = 0;
        proof {
            reveal(Seq::filter);
            assert(self.trips@.take(0).filter(|p: TripSpawnPlan| p.spec is SpawningFailure) =~= seq![]);
            assert(self.trips@.take(0).filter(|p: TripSpawnPlan| !(p.spec is SpawningFailure)) =~= seq![]);
        }
        while i < self.trips.len()
            invariant
                i <= self.trips@.len(),
                self.trips@ == old(self).trips@,
                out@ == self.trips@.take(i as int).filter(|p: TripSpawnPlan| p.spec is SpawningFailure),
                keep@ == self.trips@.take(i as int).filter(|p: TripSpawnPlan| !(p.spec is SpawningFailure)),
            decreases self.trips@.len() - i,
        {
            let plan = self.trips[i];
            let ghost next = self.trips@.take(i + 1);
            proof {
                assert(next.drop_last() =~= self.trips@.take(i as int));
                assert(next.last() == plan);
                reveal(Seq::filter);
                assert(next.filter(|p: TripSpawnPlan| p.spec is SpawningFailure) == if plan.spec is SpawningFailure {
                    next.drop_last().filter(|p: TripSpawnPlan| p.spec is SpawningFailure).push(plan)
                } else {
                    next.drop_last().filter(|p: TripSpawnPlan| p.spec is SpawningFailure)
                });
                assert(next.filter(|p: TripSpawnPlan| !(p.spec is SpawningFailure)) == if !(plan.spec is SpawningFailure) {
                    next.drop_last().filter(|p: TripSpawnPlan| !(p.spec is SpawningFailure)).push(plan)
                } else {
                    next.drop_last().filter(|p: TripSpawnPlan| !(p.spec is SpawningFailure))
                });
            }
            if plan.spec.is_failure() {
                out.push(plan);
            } else {
                keep.push(plan);
            }
            assert(out@ == next.filter(|p: TripSpawnPlan| p.spec is SpawningFailure));
            assert(keep@ == next.filter(|p: TripSpawnPlan| !(p.spec is SpawningFailure)));
            i = i + 1;
        }
        proof {
            assert(self.trips@.take(i as int) =~= self.trips@);
        }
        self.trips = keep;
        out
    }

    /// Registers every plan's trip with the ledger, in order; then marks it
    /// cancelled, or queues the event that starts it at its start time.
    /// A failed trip has no legs to register: take such plans out first with
    /// `take_failures` and report them apart.
    pub fn finalize(self, map: &MapView, trips: &mut TripManager, scheduler: &mut Scheduler)
        requires
            old(trips).wf(),
            forall|i: int| 0 <= i < self.trips@.len() ==> ready(#[trigger] self.trips@[i], map, &*old(trips)),
        ensures
            final(trips).wf(),
            final(trips).people@ == old(trips).people@,
            final(trips).trips@.len() == old(trips).trips@.len() + self.trips@.len(),
            forall|i: int| 0 <= i < old(trips).trips@.len() ==> final(trips).trips@[i] == old(trips).trips@[i],
            forall|i: int|
                0 <= i < self.trips@.len() ==> registered_as(
                    #[trigger] final(trips).trips@[old(trips).trips@.len() + i],
                    self.trips@[i],
                    map,
                ),
            final(scheduler).events@ == old(scheduler).events@ + start_events(
                self.trips@,
                old(trips).trips@.len(),
            ),
    {
        let plans = self.trips;
        let ghost first = trips.trips@.len();
        let ghost old_trips = trips.trips@;
        let ghost old_events = scheduler.events@;
        let mut i: usize = 0;
        while i < plans.len()
            invariant
                i <= plans@.len(),
                plans@ == self.trips@,
                trips.wf(),
                trips.people@ == old(trips).people@,
                forall|j: int| 0 <= j < plans@.len() ==> ready(#[trigger] plans@[j], map, &*old(trips)),
                first == old(trips).trips@.len(),
                old_trips == old(trips).trips@,
                old_events == old(scheduler).events@,
                trips.trips@.len() == first + i,
                forall|j: int| 0 <= j < first ==> trips.trips@[j] == old_trips[j],
                forall|j: int| 0 <= j < i ==> registered_as(#[trigger] trips.trips@[first + j], plans@[j], map),
                scheduler.events@ == old_events + start_events(plans@.take(i as int), first),
            decreases plans@.len() - i,
        {
            let plan = plans[i];
            assert(ready(plans@[i as int], map, &*old(trips)));
            let person = trips.get_person(plan.person).unwrap();
            let (legs, mode) = legs_for(plan.spec, map);
            let trip = trips.new_trip(
                person.id,
                plan.start_time,
                plan.trip_start,
                mode,
                plan.purpose,
                plan.modified,
                legs,
            );
            if plan.cancelled {
                let reason = "traffic pattern modifier cancelled this trip".to_owned();
                trips.cancel_unstarted_trip(trip, reason);
            } else {
                scheduler.push(plan.start_time, Command::StartTrip(trip, plan.spec));
            }
            proof {
                assert(plans@.take(i + 1).drop_last() =~= plans@.take(i as int));
                assert(plans@.take(i + 1).last() == plan);
                assert(old_events + start_events(plans@.take(i + 1), first) =~= scheduler.events@);
                assert(registered_as(trips.trips@[first + i], plans@[i as int], map));
            }
            i = i + 1;
        }
        proof {
            assert(plans@.take(i as int) =~= plans@);
        }
    }
}

impl TripSpec {
    pub fn is_failure(&self) -> (r: bool)
        ensures
            r == (*self is SpawningFailure),
    {
        match self {
            TripSpec::SpawningFailure { .. } => true,
            _ => false,
        }
    }
}

} // verus!
