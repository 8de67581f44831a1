use vstd::prelude::*;
use crate::map::{
    bike_rack_spot, border_spot, building_spot, bus_stop_spot, BuildingID,
    BusRouteID, BusStopID, DrivingGoal, MapView, PathConstraints, PathRequest, Position,
    SidewalkSpot,
};

verus! {

#[derive(Clone, Copy, Debug, PartialEq, Eq, Structural)]
pub enum VehicleType {
    Car,
    Bus,
    Train,
    Bike,
}

#[derive(Clone, Copy, Debug, PartialEq, Eq, Structural)]
pub struct CarID(pub usize, pub VehicleType);

/// Why validation could not produce a runnable trip.
#[derive(Clone, Copy, Debug, PartialEq, Eq, Structural)]
pub enum SpawnFailure {
    /// The goal has no end position for a vehicle moving under these constraints.
    NoGoalPosition { goal: DrivingGoal, constraints: PathConstraints },
    /// The building has no bike rack, and the goal cannot be reached on foot.
    CannotBikeOrWalk { start: BuildingID, goal: DrivingGoal },
}

/// How a trip begins and ends.
#[allow(inconsistent_fields)]
#[derive(Clone, Copy, Debug, PartialEq, Eq, Structural)]
pub enum TripSpec {
    /// A vehicle appears at an exact position (a border, or anywhere while debugging).
    VehicleAppearing {
        start_pos: Position,
        goal: DrivingGoal,
        /// A vehicle of the person that is currently off the map.
        use_vehicle: CarID,
        retry_if_no_room: bool,
    },
    /// Validation could not produce a runnable trip.
    SpawningFailure { use_vehicle: Option<CarID>, error: SpawnFailure },
    /// Walk to a car parked near a building, then drive.
    UsingParkedCar {
        /// A currently parked vehicle of the person.
        car: CarID,
        start_bldg: BuildingID,
        goal: DrivingGoal,
    },
    JustWalking { start: SidewalkSpot, goal: SidewalkSpot },
    /// Walk to the bike rack of a building, ride, then maybe walk to the goal.
    UsingBike { bike: CarID, start: BuildingID, goal: DrivingGoal },
    /// Walk to a stop, ride a route, and walk on from the alighting stop if
    /// there is one (without one, ride to the route's end).
    UsingTransit {
        start: SidewalkSpot,
        goal: SidewalkSpot,
        route: BusRouteID,
        stop1: BusStopID,
        maybe_stop2: Option<BusStopID>,
    },
}

/// A malformed request: one that a correct generator never produces.
#[derive(Clone, Copy, Debug, PartialEq, Eq, Structural)]
pub enum SpawnFault {
    /// The request names a lane, building, intersection or stop that the map lacks.
    UnknownId,
    /// The vehicle would appear at or past the end of its lane.
    PastLaneEnd { start_pos: Position },
    /// The vehicle would appear at the very end of the border lane it exits through.
    AtBorderEdge { start_pos: Position },
    /// The walk starts where it ends.
    WalkToSelf { spot: SidewalkSpot },
}

pub open spec fn constraints_for(v: CarID) -> PathConstraints {
    if v.1 == VehicleType::Bike {
        PathConstraints::Bike
    } else {
        PathConstraints::Car
    }
}

/// Whether every id that the specification has the map look up exists in it.
pub open spec fn fits_map(spec: TripSpec, map: &MapView) -> bool {
    match spec {
        TripSpec::VehicleAppearing { start_pos, goal, .. } => map.has_lane(start_pos.lane) && goal.fits(map),
        TripSpec::SpawningFailure { .. } => true,
        TripSpec::UsingParkedCar { start_bldg, goal, .. } => map.has_building(start_bldg) && goal.fits(map),
        TripSpec::JustWalking { .. } => true,
        TripSpec::UsingBike { start, goal, .. } => map.has_building(start) && goal.fits(map),
        TripSpec::UsingTransit { stop1, .. } => map.has_bus_stop(stop1),
    }
}

/// The malformed request faults of a specification that fits the map, if any.
pub open spec fn fault_of(spec: TripSpec, map: &MapView) -> Option<SpawnFault> {
    match spec {
        TripSpec::VehicleAppearing { start_pos, goal, .. } => {
            if start_pos.dist_along >= map.lane_length(start_pos.lane) {
                Some(SpawnFault::PastLaneEnd { start_pos })
            } else {
                match goal {
                    DrivingGoal::Border(_, l) => if start_pos.lane == l && start_pos.dist_along
                        == map.lane_length(l) {
                        Some(SpawnFault::AtBorderEdge { start_pos })
                    } else {
                        None
                    },
                    DrivingGoal::ParkNear(_) => None,
                }
            }
        },
        TripSpec::JustWalking { start, goal } => if start == goal {
            Some(SpawnFault::WalkToSelf { spot: start })
        } else {
            None
        },
        _ => None,
    }
}

/// Whether validating the specification aborts the run.
pub open spec fn aborts(spec: TripSpec, map: &MapView) -> bool {
    fault_of(spec, map) is Some
}

/// The walking trip that replaces a bike trip that cannot or need not ride;
/// towards a border it exists only if a sidewalk crosses that border.
pub open spec fn walking_backup(start: BuildingID, goal: DrivingGoal, map: &MapView) -> Option<TripSpec> {
    match goal {
        DrivingGoal::ParkNear(b) => Some(
            TripSpec::JustWalking { start: building_spot(start, map), goal: building_spot(b, map) },
        ),
        DrivingGoal::Border(i, _) => match border_spot(i, map) {
            Some(g) => Some(TripSpec::JustWalking { start: building_spot(start, map), goal: g }),
            None => None,
        },
    }
}

/// What validation turns a specification into.
pub open spec fn validated(spec: TripSpec, map: &MapView) -> TripSpec {
    match spec {
        TripSpec::VehicleAppearing { goal, use_vehicle, .. } => {
            let c = constraints_for(use_vehicle);
            if goal.goal_pos_spec(c, map) is None {
                TripSpec::SpawningFailure {
                    use_vehicle: Some(use_vehicle),
                    error: SpawnFailure::NoGoalPosition { goal, constraints: c },
                }
            } else {
                spec
            }
        },
        TripSpec::UsingBike { bike, start, goal } => {
            let backup = walking_backup(start, goal, map);
            match bike_rack_spot(start, map) {
                Some(start_spot) => match goal {
                    DrivingGoal::ParkNear(b) => match bike_rack_spot(b, map) {
                        Some(goal_spot) => if start_spot.sidewalk_pos.lane
                            == goal_spot.sidewalk_pos.lane {
                            backup.unwrap()
                        } else {
                            spec
                        },
                        None => backup.unwrap(),
                    },
                    DrivingGoal::Border(..) => spec,
                },
                None => match backup {
                    Some(w) => w,
                    None => TripSpec::SpawningFailure {
                        use_vehicle: Some(bike),
                        error: SpawnFailure::CannotBikeOrWalk { start, goal },
                    },
                },
            }
        },
        _ => spec,
    }
}

/// Whether a validated specification can be finalized and asked for a path:
/// it is no failure, a vehicle's goal resolves, and a bike trip starts at a rack.
pub open spec fn runnable(spec: TripSpec, map: &MapView) -> bool {
    match spec {
        TripSpec::VehicleAppearing { goal, use_vehicle, .. } => goal.goal_pos_spec(
            constraints_for(use_vehicle),
            map,
        ) is Some,
        TripSpec::SpawningFailure { .. } => false,
        TripSpec::UsingBike { start, .. } => bike_rack_spot(start, map) is Some,
        _ => true,
    }
}

/// Checks a request for the faults that make validation abort.
pub fn check_trip(spec: &TripSpec, map: &MapView) -> (r: Result<(), SpawnFault>)
    ensures
        !fits_map(*spec, map) ==> r == Err::<(), SpawnFault>(SpawnFault::UnknownId),
        fits_map(*spec, map) ==> match fault_of(*spec, map) {
            Some(f) => r == Err::<(), SpawnFault>(f),
            None => r is Ok,
        },
{
    match *spec {
        TripSpec::VehicleAppearing { start_pos, goal, .. } => {
            if start_pos.lane.0 >= map.lanes.len() {
                return Err(SpawnFault::UnknownId);
            }
            match goal {
                DrivingGoal::ParkNear(b) => {
                    if b.0 >= map.buildings.len() {
                        return Err(SpawnFault::UnknownId);
                    }
                },
                DrivingGoal::Border(i, l) => {
                    if i.0 >= map.intersections.len() || l.0 >= map.lanes.len() {
                        return Err(SpawnFault::UnknownId);
                    }
                },
            }
            if start_pos.dist_along >= map.get_lane_length(start_pos.lane) {
                return Err(SpawnFault::PastLaneEnd { start_pos });
            }
            if let DrivingGoal::Border(_, l) = goal {
                if start_pos.lane == l && start_pos.dist_along == map.get_lane_length(l) {
                    return Err(SpawnFault::AtBorderEdge { start_pos });
                }
            }
            Ok(())
        },
        TripSpec::SpawningFailure { .. } => Ok(()),
        TripSpec::UsingParkedCar { start_bldg, goal, .. } => {
            if start_bldg.0 >= map.buildings.len() || !goal_fits(&goal, map) {
                Err(SpawnFault::UnknownId)
            } else {
                Ok(())
            }
        },
        TripSpec::JustWalking { start, goal } => {
            if start == goal {
                Err(SpawnFault::WalkToSelf { spot: start })
            } else {
                Ok(())
            }
        },
        TripSpec::UsingBike { start, goal, .. } => {
            if start.0 >= map.buildings.len() || !goal_fits(&goal, map) {
                Err(SpawnFault::UnknownId)
            } else {
                Ok(())
            }
        },
        TripSpec::UsingTransit { stop1, .. } => {
            if stop1.0 >= map.bus_stops.len() {
                Err(SpawnFault::UnknownId)
            } else {
                Ok(())
            }
        },
    }
}

fn goal_fits(goal: &DrivingGoal, map: &MapView) -> (r: bool)
    ensures
        r == goal.fits(map),
{
    match *goal {
        DrivingGoal::ParkNear(b) => b.0 < map.buildings.len(),
        DrivingGoal::Border(i, l) => i.0 < map.intersections.len() && l.0 < map.lanes.len(),
    }
}

/// The path constraints of a vehicle.
pub fn vehicle_constraints(v: CarID) -> (r: PathConstraints)
    ensures
        r == constraints_for(v),
{
    if v.1 == VehicleType::Bike {
        PathConstraints::Bike
    } else {
        PathConstraints::Car
    }
}

/// Validates a specification against the map, replacing an infeasible one
/// with a walking fallback or a failure. Reads the map only.
pub fn validate(spec: TripSpec, map: &MapView) -> (r: TripSpec)
    requires
        fits_map(spec, map),
        !aborts(spec, map),
    ensures
        r == validated(spec, map),
{
    match spec {
        TripSpec::VehicleAppearing { goal, use_vehicle, .. } => {
            let constraints = vehicle_constraints(use_vehicle);
            if goal.goal_pos(constraints, map).is_none() {
                TripSpec::SpawningFailure {
                    use_vehicle: Some(use_vehicle),
                    error: SpawnFailure::NoGoalPosition { goal, constraints },
                }
            } else {
                spec
            }
        },
        TripSpec::UsingBike { bike, start, goal } => {
            let backup = match goal {
                DrivingGoal::ParkNear(b) => Some(
                    TripSpec::JustWalking {
                        start: SidewalkSpot::building(start, map),
                        goal: SidewalkSpot::building(b, map),
                    },
                ),
                DrivingGoal::Border(i, _) => match SidewalkSpot::end_at_border(i, map) {
                    Some(g) => Some(
                        TripSpec::JustWalking { start: SidewalkSpot::building(start, map), goal: g },
                    ),
                    None => None,
                },
            };
            match SidewalkSpot::bike_rack(start, map) {
                Some(start_spot) => match goal {
                    DrivingGoal::ParkNear(b) => match SidewalkSpot::bike_rack(b, map) {
                        Some(goal_spot) => {
                            if start_spot.sidewalk_pos.lane == goal_spot.sidewalk_pos.lane {
                                backup.unwrap()
                            } else {
                                spec
                            }
                        },
                        None => backup.unwrap(),
                    },
                    DrivingGoal::Border(..) => spec,
                },
                None => match backup {
                    Some(w) => w,
                    None => TripSpec::SpawningFailure {
                        use_vehicle: Some(bike),
                        error: SpawnFailure::CannotBikeOrWalk { start, goal },
                    },
                },
            }
        },
        _ => spec,
    }
}

/// What validation leaves is either a failure or runnable.
pub proof fn lemma_validated_runnable(spec: TripSpec, map: &MapView)
    requires
        fits_map(spec, map),
        !(spec is SpawningFailure),
    ensures
        validated(spec, map) is SpawningFailure || runnable(validated(spec, map), map),
{
}

/// A vehicle cannot appear at the very end of its lane: validating such a
/// request aborts.
pub proof fn lemma_spawn_at_lane_end_aborts(
    start_pos: Position,
    goal: DrivingGoal,
    use_vehicle: CarID,
    retry_if_no_room: bool,
    map: &MapView,
)
    requires
        start_pos.dist_along == map.lane_length(start_pos.lane),
    ensures
        ({
            let spec = TripSpec::VehicleAppearing { start_pos, goal, use_vehicle, retry_if_no_room };
            aborts(spec, map) && fault_of(spec, map) == Some(SpawnFault::PastLaneEnd { start_pos })
        }),
{
}

/// A walk from a spot to itself makes no sense: validating it aborts.
pub proof fn lemma_walk_to_self_aborts(spot: SidewalkSpot, map: &MapView)
    ensures
        aborts(TripSpec::JustWalking { start: spot, goal: spot }, map),
{
}

/// A bike trip between two buildings whose bike racks sit on the same
/// sidewalk becomes the walk between the two buildings.
pub proof fn lemma_same_sidewalk_bike_trip_walks(bike: CarID, start: BuildingID, b: BuildingID, map: &MapView)
    requires
        map.has_building(start),
        map.has_building(b),
        bike_rack_spot(start, map) is Some,
        bike_rack_spot(b, map) is Some,
        bike_rack_spot(start, map).unwrap().sidewalk_pos.lane == bike_rack_spot(b, map).unwrap().sidewalk_pos.lane,
    ensures
        validated(TripSpec::UsingBike { bike, start, goal: DrivingGoal::ParkNear(b) }, map)
            == (TripSpec::JustWalking { start: building_spot(start, map), goal: building_spot(b, map) }),
{
}

/// A bike trip from a building without a bike rack, to a goal that cannot
/// be walked to, becomes a failure naming both ends.
pub proof fn lemma_no_rack_no_walk_fails(bike: CarID, start: BuildingID, goal: DrivingGoal, map: &MapView)
    requires
        map.has_building(start),
        goal.fits(map),
        bike_rack_spot(start, map) is None,
        walking_backup(start, goal, map) is None,
    ensures
        validated(TripSpec::UsingBike { bike, start, goal }, map) == (TripSpec::SpawningFailure {
            use_vehicle: Some(bike),
            error: SpawnFailure::CannotBikeOrWalk { start, goal },
        }),
{
}

/// The only goal a bike trip cannot be walked to is a border that no
/// sidewalk crosses.
pub proof fn lemma_walking_backup_missing(start: BuildingID, goal: DrivingGoal, map: &MapView)
    ensures
        walking_backup(start, goal, map) is None <==> match goal {
            DrivingGoal::Border(i, _) => border_spot(i, map) is None,
            DrivingGoal::ParkNear(_) => false,
        },
{
}

/// Validating the walk that a bike trip fell back to again changes nothing
/// and does not abort, unless the trip went from a building to itself.
pub proof fn lemma_walking_fallback_is_stable(bike: CarID, start: BuildingID, goal: DrivingGoal, map: &MapView)
    requires
        map.has_building(start),
        goal.fits(map),
        validated(TripSpec::UsingBike { bike, start, goal }, map) is JustWalking,
        goal != DrivingGoal::ParkNear(start),
    ensures
        ({
            let w = validated(TripSpec::UsingBike { bike, start, goal }, map);
            &&& fits_map(w, map)
            &&& !aborts(w, map)
            &&& validated(w, map) == w
        }),
{
}

/// The path request to compute ahead of a trip's start, when its end is known.
pub open spec fn path_request_spec(spec: TripSpec, map: &MapView) -> Option<PathRequest> {
    match spec {
        TripSpec::VehicleAppearing { start_pos, goal, use_vehicle, .. } => {
            let c = constraints_for(use_vehicle);
            Some(PathRequest { start: start_pos, end: goal.goal_pos_spec(c, map).unwrap(), constraints: c })
        },
        TripSpec::SpawningFailure { .. } => None,
        TripSpec::UsingParkedCar { .. } => None,
        TripSpec::JustWalking { start, goal } => Some(
            PathRequest {
                start: start.sidewalk_pos,
                end: goal.sidewalk_pos,
                constraints: PathConstraints::Pedestrian,
            },
        ),
        TripSpec::UsingBike { start, .. } => Some(
            PathRequest {
                start: map.building(start).sidewalk_pos,
                end: bike_rack_spot(start, map).unwrap().sidewalk_pos,
                constraints: PathConstraints::Pedestrian,
            },
        ),
        TripSpec::UsingTransit { start, stop1, .. } => Some(
            PathRequest {
                start: start.sidewalk_pos,
                end: bus_stop_spot(stop1, map).sidewalk_pos,
                constraints: PathConstraints::Pedestrian,
            },
        ),
    }
}

impl TripSpec {
    /// The path to compute before the trip starts, or `None` where its end is
    /// not known yet (a parked car) or there is no trip (a failure).
    pub fn get_pathfinding_request(&self, map: &MapView) -> (r: Option<PathRequest>)
        requires
            fits_map(*self, map),
            *self is SpawningFailure || runnable(*self, map),
        ensures
            r == path_request_spec(*self, map),
    {
        match *self {
            TripSpec::VehicleAppearing { start_pos, goal, use_vehicle, .. } => {
                let constraints = vehicle_constraints(use_vehicle);
                Some(
                    PathRequest {
                        start: start_pos,
                        end: goal.goal_pos(constraints, map).unwrap(),
                        constraints,
                    },
                )
            },
            TripSpec::SpawningFailure { .. } => None,
            TripSpec::UsingParkedCar { .. } => None,
            TripSpec::JustWalking { start, goal } => Some(
                PathRequest {
                    start: start.sidewalk_pos,
                    end: goal.sidewalk_pos,
                    constraints: PathConstraints::Pedestrian,
                },
            ),
            TripSpec::UsingBike { start, .. } => Some(
                PathRequest {
                    start: map.get_b(start).sidewalk_pos,
                    end: SidewalkSpot::bike_rack(start, map).unwrap().sidewalk_pos,
                    constraints: PathConstraints::Pedestrian,
                },
            ),
            TripSpec::UsingTransit { start, stop1, .. } => Some(
                PathRequest {
                    start: start.sidewalk_pos,
                    end: SidewalkSpot::bus_stop(stop1, map).sidewalk_pos,
                    constraints: PathConstraints::Pedestrian,
                },
            ),
        }
    }
}

} // verus!
