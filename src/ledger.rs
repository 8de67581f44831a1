use vstd::prelude::*;
use crate::map::{BusRouteID, BusStopID, DrivingGoal, IntersectionID, Position, SidewalkSpot, BuildingID};
use crate::trip::CarID;

verus! {

/// Simulated time, in milliseconds.
pub type Time = u64;

#[derive(Clone, Copy, Debug, PartialEq, Eq, Structural)]
pub struct PersonID(pub usize);

#[derive(Clone, Copy, Debug, PartialEq, Eq, Structural)]
pub struct TripID(pub usize);

#[derive(Clone, Copy, Debug, PartialEq, Eq, Structural)]
pub enum TripMode {
    Walk,
    Bike,
    Transit,
    Drive,
}

#[derive(Clone, Copy, Debug, PartialEq, Eq, Structural)]
pub enum TripPurpose {
    Home,
    Work,
    School,
    Escort,
    PersonalBusiness,
    Shopping,
    Meal,
    Leisure,
    Recreation,
    Medical,
    ParkAndRideTransfer,
}

/// Where a trip starts.
#[derive(Clone, Copy, Debug, PartialEq, Eq, Structural)]
pub enum TripEndpoint {
    Bldg(BuildingID),
    Border(IntersectionID),
    SuddenlyAppear(Position),
}

/// One movement of a trip.
#[derive(Clone, Copy, Debug, PartialEq, Eq, Structural)]
pub enum TripLeg {
    Walk(SidewalkSpot),
    Drive(CarID, DrivingGoal),
    /// Ride a route, getting off at the stop if one is given, else at its end.
    RideBus(BusRouteID, Option<BusStopID>),
}

#[derive(Clone, Copy, Debug, PartialEq, Eq, Structural)]
pub struct Person {
    pub id: PersonID,
}

/// A registered trip.
pub struct TripRecord {
    pub id: TripID,
    pub person: PersonID,
    pub start_time: Time,
    pub start: TripEndpoint,
    pub mode: TripMode,
    pub purpose: TripPurpose,
    pub modified: bool,
    pub legs: Vec<TripLeg>,
    /// Why the trip was cancelled before it started, if it was.
    pub cancelled: Option<String>,
}

/// The registry of people and of the trips they take. A trip's id is its
/// index, and so is a person's.
pub struct TripManager {
    pub people: Vec<Person>,
    pub trips: Vec<TripRecord>,
}

impl TripManager {
    pub open spec fn wf(&self) -> bool {
        &&& forall|i: int| 0 <= i < self.people@.len() ==> (#[trigger] self.people@[i]).id.0 == i
        &&& forall|i: int| 0 <= i < self.trips@.len() ==> (#[trigger] self.trips@[i]).id.0 == i
    }

    pub open spec fn has_person(&self, p: PersonID) -> bool {
        p.0 < self.people@.len()
    }

    pub fn new() -> (r: TripManager)
        ensures
            r.wf(),
            r.people@.len() == 0,
            r.trips@.len() == 0,
    {
        TripManager { people: Vec::new(), trips: Vec::new() }
    }

    /// Registers a new person, whose id is the number of people before.
    pub fn new_person(&mut self) -> (r: PersonID)
        requires
            old(self).wf(),
        ensures
            final(self).wf(),
            r.0 == old(self).people@.len(),
            final(self).people@ == old(self).people@.push(Person { id: r }),
            final(self).trips@ == old(self).trips@,
    {
        let id = PersonID(self.people.len());
        self.people.push(Person { id });
        id
    }

    pub fn get_person(&self, p: PersonID) -> (r: Option<Person>)
        requires
            self.wf(),
        ensures
            self.has_person(p) ==> r == Some(Person { id: p }),
            !self.has_person(p) ==> r is None,
    {
        if p.0 < self.people.len() {
            Some(self.people[p.0])
        } else {
            None
        }
    }

    /// Registers a trip that has not started, under the next free id.
    pub fn new_trip(
        &mut self,
        person: PersonID,
        start_time: Time,
        start: TripEndpoint,
        mode: TripMode,
        purpose: TripPurpose,
        modified: bool,
        legs: Vec<TripLeg>,
    ) -> (r: TripID)
        requires
            old(self).wf(),
        ensures
            final(self).wf(),
            r.0 == old(self).trips@.len(),
            final(self).people@ == old(self).people@,
            final(self).trips@.len() == old(self).trips@.len() + 1,
            forall|i: int| 0 <= i < old(self).trips@.len() ==> final(self).trips@[i] == old(self).trips@[i],
            ({
                let t = final(self).trips@[r.0 as int];
                &&& t.id == r
                &&& t.person == person
                &&& t.start_time == start_time
                &&& t.start == start
                &&& t.mode == mode
                &&& t.purpose == purpose
                &&& t.modified == modified
                &&& t.legs@ == legs@
                &&& t.cancelled is None
            }),
    {
        let id = TripID(self.trips.len());
        self.trips.push(
            TripRecord { id, person, start_time, start, mode, purpose, modified, legs, cancelled: None },
        );
        id
    }

    /// Marks a trip as cancelled before it started, for the given reason.
    pub fn cancel_unstarted_trip(&mut self, id: TripID, reason: String)
        requires
            old(self).wf(),
            id.0 < old(self).trips@.len(),
        ensures
            final(self).wf(),
            final(self).people@ == old(self).people@,
            final(self).trips@.len() == old(self).trips@.len(),
            forall|i: int|
                0 <= i < old(self).trips@.len() && i != id.0 ==> final(self).trips@[i] == old(self).trips@[i],
            ({
                let (t, o) = (final(self).trips@[id.0 as int], old(self).trips@[id.0 as int]);
                &&& t.id == o.id
                &&& t.person == o.person
                &&& t.start_time == o.start_time
                &&& t.start == o.start
                &&& t.mode == o.mode
                &&& t.purpose == o.purpose
                &&& t.modified == o.modified
                &&& t.legs@ == o.legs@
                &&& t.cancelled == Some(reason)
            }),
    {
        let mut t = self.trips.remove(id.0);
        t.cancelled = Some(reason);
        self.trips.insert(id.0, t);
    }
}

} // verus!
