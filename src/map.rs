use vstd::prelude::*;

verus! {

/// A distance along a lane, in centimeters.
pub type Distance = u64;

#[derive(Clone, Copy, Debug, PartialEq, Eq, Structural)]
pub struct LaneID(pub usize);

#[derive(Clone, Copy, Debug, PartialEq, Eq, Structural)]
pub struct BuildingID(pub usize);

#[derive(Clone, Copy, Debug, PartialEq, Eq, Structural)]
pub struct IntersectionID(pub usize);

#[derive(Clone, Copy, Debug, PartialEq, Eq, Structural)]
pub struct BusRouteID(pub usize);

#[derive(Clone, Copy, Debug, PartialEq, Eq, Structural)]
pub struct BusStopID(pub usize);

/// A point on a lane: the lane and the distance from its start.
#[derive(Clone, Copy, Debug, PartialEq, Eq, Structural)]
pub struct Position {
    pub lane: LaneID,
    pub dist_along: Distance,
}

/// Which kinds of movement a path is restricted to.
#[derive(Clone, Copy, Debug, PartialEq, Eq, Structural)]
pub enum PathConstraints {
    Pedestrian,
    Car,
    Bike,
    Bus,
    Train,
}

/// A request for the pathfinder.
#[derive(Clone, Copy, Debug, PartialEq, Eq, Structural)]
pub struct PathRequest {
    pub start: Position,
    pub end: Position,
    pub constraints: PathConstraints,
}

#[derive(Clone, Copy, Debug, PartialEq, Eq, Structural)]
pub struct Lane {
    pub length: Distance,
}

/// Where a bike can be left near a building: the spot on the biking lane and
/// the matching spot on the sidewalk.
#[derive(Clone, Copy, Debug, PartialEq, Eq, Structural)]
pub struct BikeConnection {
    pub bike_pos: Position,
    pub sidewalk_pos: Position,
}

#[derive(Clone, Copy, Debug, PartialEq, Eq, Structural)]
pub struct Building {
    /// Where the front door meets the sidewalk.
    pub sidewalk_pos: Position,
    /// Where a car heading to this building ends its drive.
    pub driving_pos: Position,
    /// The bike rack serving this building, if any lane allows biking nearby.
    pub biking_connection: Option<BikeConnection>,
}

#[derive(Clone, Copy, Debug, PartialEq, Eq, Structural)]
pub struct Intersection {
    /// For a border, where a pedestrian leaves the map; `None` when no
    /// sidewalk crosses it.
    pub border_sidewalk: Option<Position>,
}

#[derive(Clone, Copy, Debug, PartialEq, Eq, Structural)]
pub struct BusStop {
    pub sidewalk_pos: Position,
}

/// The read-only view of the road network that trip instantiation consults.
/// Every id indexes the matching table.
pub struct MapView {
    pub lanes: Vec<Lane>,
    pub buildings: Vec<Building>,
    pub intersections: Vec<Intersection>,
    pub bus_stops: Vec<BusStop>,
}

impl MapView {
    pub open spec fn has_lane(&self, l: LaneID) -> bool {
        l.0 < self.lanes@.len()
    }

    pub open spec fn has_building(&self, b: BuildingID) -> bool {
        b.0 < self.buildings@.len()
    }

    pub open spec fn has_intersection(&self, i: IntersectionID) -> bool {
        i.0 < self.intersections@.len()
    }

    pub open spec fn has_bus_stop(&self, s: BusStopID) -> bool {
        s.0 < self.bus_stops@.len()
    }

    pub open spec fn lane_length(&self, l: LaneID) -> Distance {
        self.lanes@[l.0 as int].length
    }

    pub open spec fn building(&self, b: BuildingID) -> Building {
        self.buildings@[b.0 as int]
    }

    /// The length of a lane.
    pub fn get_lane_length(&self, l: LaneID) -> (r: Distance)
        requires
            self.has_lane(l),
        ensures
            r == self.lane_length(l),
    {
        self.lanes[l.0].length
    }

    /// The record of a building.
    pub fn get_b(&self, b: BuildingID) -> (r: Building)
        requires
            self.has_building(b),
        ensures
            r == self.building(b),
    {
        self.buildings[b.0]
    }
}

/// Where a vehicle's trip ends.
#[derive(Clone, Copy, Debug, PartialEq, Eq, Structural)]
pub enum DrivingGoal {
    /// Park near this building, then walk to it.
    ParkNear(BuildingID),
    /// Leave the map at this border intersection through this lane.
    Border(IntersectionID, LaneID),
}

impl DrivingGoal {
    /// Whether every id the goal names exists in the map.
    pub open spec fn fits(&self, map: &MapView) -> bool {
        match *self {
            DrivingGoal::ParkNear(b) => map.has_building(b),
            DrivingGoal::Border(i, l) => map.has_intersection(i) && map.has_lane(l),
        }
    }

    /// Where a vehicle moving under `constraints` ends this goal: for a
    /// building, its driving spot (a car) or its bike rack (a bike, if any);
    /// for a border, the end of the exit lane.
    pub open spec fn goal_pos_spec(&self, constraints: PathConstraints, map: &MapView) -> Option<Position> {
        match *self {
            DrivingGoal::ParkNear(b) => if constraints == PathConstraints::Bike {
                match map.building(b).biking_connection {
                    Some(c) => Some(c.bike_pos),
                    None => None,
                }
            } else {
                Some(map.building(b).driving_pos)
            },
            DrivingGoal::Border(_, l) => Some(Position { lane: l, dist_along: map.lane_length(l) }),
        }
    }

    pub fn goal_pos(&self, constraints: PathConstraints, map: &MapView) -> (r: Option<Position>)
        requires
            self.fits(map),
            constraints == PathConstraints::Car || constraints == PathConstraints::Bike,
        ensures
            r == self.goal_pos_spec(constraints, map),
    {
        match *self {
            DrivingGoal::ParkNear(b) => {
                let bldg = map.get_b(b);
                if constraints == PathConstraints::Bike {
                    match bldg.biking_connection {
                        Some(c) => Some(c.bike_pos),
                        None => None,
                    }
                } else {
                    Some(bldg.driving_pos)
                }
            },
            DrivingGoal::Border(_, l) => Some(Position { lane: l, dist_along: map.get_lane_length(l) }),
        }
    }
}

/// What a sidewalk spot leads to.
#[derive(Clone, Copy, Debug, PartialEq, Eq, Structural)]
pub enum SidewalkPOI {
    /// A parking spot not known yet; the parking subsystem resolves it later.
    DeferredParkingSpot,
    Building(BuildingID),
    BusStop(BusStopID),
    Border(IntersectionID),
    /// A bike rack, with the spot on the biking lane it serves.
    BikeRack(Position),
}

/// A place a pedestrian can start or end at.
#[derive(Clone, Copy, Debug, PartialEq, Eq, Structural)]
pub struct SidewalkSpot {
    pub connection: SidewalkPOI,
    pub sidewalk_pos: Position,
}

pub open spec fn building_spot(b: BuildingID, map: &MapView) -> SidewalkSpot {
    SidewalkSpot { connection: SidewalkPOI::Building(b), sidewalk_pos: map.building(b).sidewalk_pos }
}

pub open spec fn bike_rack_spot(b: BuildingID, map: &MapView) -> Option<SidewalkSpot> {
    match map.building(b).biking_connection {
        Some(c) => Some(SidewalkSpot { connection: SidewalkPOI::BikeRack(c.bike_pos), sidewalk_pos: c.sidewalk_pos }),
        None => None,
    }
}

pub open spec fn border_spot(i: IntersectionID, map: &MapView) -> Option<SidewalkSpot> {
    match map.intersections@[i.0 as int].border_sidewalk {
        Some(p) => Some(SidewalkSpot { connection: SidewalkPOI::Border(i), sidewalk_pos: p }),
        None => None,
    }
}

pub open spec fn bus_stop_spot(s: BusStopID, map: &MapView) -> SidewalkSpot {
    SidewalkSpot { connection: SidewalkPOI::BusStop(s), sidewalk_pos: map.bus_stops@[s.0 as int].sidewalk_pos }
}

pub open spec fn deferred_spot() -> SidewalkSpot {
    SidewalkSpot {
        connection: SidewalkPOI::DeferredParkingSpot,
        sidewalk_pos: Position { lane: LaneID(0), dist_along: 0 },
    }
}

impl SidewalkSpot {
    /// The front door of a building.
    pub fn building(b: BuildingID, map: &MapView) -> (r: SidewalkSpot)
        requires
            map.has_building(b),
        ensures
            r == building_spot(b, map),
    {
        SidewalkSpot { connection: SidewalkPOI::Building(b), sidewalk_pos: map.get_b(b).sidewalk_pos }
    }

    /// The bike rack serving a building, if it has one.
    pub fn bike_rack(b: BuildingID, map: &MapView) -> (r: Option<SidewalkSpot>)
        requires
            map.has_building(b),
        ensures
            r == bike_rack_spot(b, map),
    {
        match map.get_b(b).biking_connection {
            Some(c) => Some(SidewalkSpot { connection: SidewalkPOI::BikeRack(c.bike_pos), sidewalk_pos: c.sidewalk_pos }),
            None => None,
        }
    }

    /// Where a pedestrian leaves the map at a border, if a sidewalk crosses it.
    pub fn end_at_border(i: IntersectionID, map: &MapView) -> (r: Option<SidewalkSpot>)
        requires
            map.has_intersection(i),
        ensures
            r == border_spot(i, map),
    {
        match map.intersections[i.0].border_sidewalk {
            Some(p) => Some(SidewalkSpot { connection: SidewalkPOI::Border(i), sidewalk_pos: p }),
            None => None,
        }
    }

    /// The waiting spot of a bus stop.
    pub fn bus_stop(s: BusStopID, map: &MapView) -> (r: SidewalkSpot)
        requires
            map.has_bus_stop(s),
        ensures
            r == bus_stop_spot(s, map),
    {
        SidewalkSpot { connection: SidewalkPOI::BusStop(s), sidewalk_pos: map.bus_stops[s.0].sidewalk_pos }
    }

    /// A placeholder for the parking spot of a car that is not known yet.
    pub fn deferred_parking_spot() -> (r: SidewalkSpot)
        ensures
            r == deferred_spot(),
    {
        SidewalkSpot {
            connection: SidewalkPOI::DeferredParkingSpot,
            sidewalk_pos: Position { lane: LaneID(0), dist_along: 0 },
        }
    }
}

} // verus!
