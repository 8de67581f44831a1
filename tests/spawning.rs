use sim::ledger::{Person, PersonID, TripEndpoint, TripID, TripLeg, TripManager, TripMode, TripPurpose};
use sim::map::{
    BikeConnection, Building, BuildingID, BusRouteID, BusStop, BusStopID, DrivingGoal, Intersection,
    IntersectionID, Lane, LaneID, MapView, PathConstraints, PathRequest, Position, SidewalkPOI, SidewalkSpot,
};
use sim::scheduler::{Command, Scheduler};
use sim::spawner::{TripSpawnPlan, TripSpawner};
use sim::trip::{check_trip, validate, CarID, SpawnFailure, SpawnFault, TripSpec, VehicleType};

fn pos(lane: usize, dist_along: u64) -> Position {
    Position { lane: LaneID(lane), dist_along }
}

/// Lanes 0-2 are roads, 3 and 4 sidewalks. Buildings 0 and 1 have racks on
/// sidewalk 3, building 2 on sidewalk 4, building 3 has none. Border 0 has a
/// sidewalk crossing, border 1 has none.
fn test_map() -> MapView {
    MapView {
        lanes: vec![
            Lane { length: 1000 },
            Lane { length: 1000 },
            Lane { length: 500 },
            Lane { length: 800 },
            Lane { length: 900 },
        ],
        buildings: vec![
            Building {
                sidewalk_pos: pos(3, 100),
                driving_pos: pos(0, 100),
                biking_connection: Some(BikeConnection { bike_pos: pos(1, 200), sidewalk_pos: pos(3, 200) }),
            },
            Building {
                sidewalk_pos: pos(3, 600),
                driving_pos: pos(0, 600),
                biking_connection: Some(BikeConnection { bike_pos: pos(1, 700), sidewalk_pos: pos(3, 700) }),
            },
            Building {
                sidewalk_pos: pos(4, 50),
                driving_pos: pos(2, 50),
                biking_connection: Some(BikeConnection { bike_pos: pos(2, 60), sidewalk_pos: pos(4, 60) }),
            },
            Building { sidewalk_pos: pos(4, 300), driving_pos: pos(2, 300), biking_connection: None },
        ],
        intersections: vec![
            Intersection { border_sidewalk: Some(pos(4, 900)) },
            Intersection { border_sidewalk: None },
        ],
        bus_stops: vec![BusStop { sidewalk_pos: pos(3, 400) }, BusStop { sidewalk_pos: pos(4, 400) }],
    }
}

fn bldg_spot(b: usize, map: &MapView) -> SidewalkSpot {
    SidewalkSpot { connection: SidewalkPOI::Building(BuildingID(b)), sidewalk_pos: map.buildings[b].sidewalk_pos }
}

const CAR: CarID = CarID(7, VehicleType::Car);
const BIKE: CarID = CarID(8, VehicleType::Bike);

fn plan(person: usize, start_time: u64, spec: TripSpec, cancelled: bool) -> TripSpawnPlan {
    TripSpawnPlan {
        person: PersonID(person),
        start_time,
        spec,
        trip_start: TripEndpoint::Bldg(BuildingID(0)),
        purpose: TripPurpose::Work,
        cancelled,
        modified: false,
    }
}

fn ledger_with(n: usize) -> TripManager {
    let mut ledger = TripManager::new();
    for _ in 0..n {
        ledger.new_person();
    }
    ledger
}

fn finalize_one(spec: TripSpec, map: &MapView) -> (TripManager, Scheduler) {
    let mut spawner = TripSpawner::new();
    spawner.schedule_trips(vec![plan(0, 10, spec, false)]);
    let mut ledger = ledger_with(1);
    let mut scheduler = Scheduler::new();
    spawner.finalize(map, &mut ledger, &mut scheduler);
    (ledger, scheduler)
}

#[test]
fn vehicle_appearing_at_lane_end_is_refused() {
    let map = test_map();
    let spec = TripSpec::VehicleAppearing {
        start_pos: pos(0, 1000),
        goal: DrivingGoal::ParkNear(BuildingID(1)),
        use_vehicle: CAR,
        retry_if_no_room: true,
    };
    assert_eq!(check_trip(&spec, &map), Err(SpawnFault::PastLaneEnd { start_pos: pos(0, 1000) }));
    let past = TripSpec::VehicleAppearing {
        start_pos: pos(2, 501),
        goal: DrivingGoal::Border(IntersectionID(0), LaneID(2)),
        use_vehicle: CAR,
        retry_if_no_room: false,
    };
    assert_eq!(check_trip(&past, &map), Err(SpawnFault::PastLaneEnd { start_pos: pos(2, 501) }));
    let inside = TripSpec::VehicleAppearing {
        start_pos: pos(0, 999),
        goal: DrivingGoal::ParkNear(BuildingID(1)),
        use_vehicle: CAR,
        retry_if_no_room: true,
    };
    assert_eq!(check_trip(&inside, &map), Ok(()));
}

#[test]
fn walking_to_the_same_spot_is_refused() {
    let map = test_map();
    let spot = bldg_spot(0, &map);
    let spec = TripSpec::JustWalking { start: spot, goal: spot };
    assert_eq!(check_trip(&spec, &map), Err(SpawnFault::WalkToSelf { spot }));
    let other = TripSpec::JustWalking { start: spot, goal: bldg_spot(1, &map) };
    assert_eq!(check_trip(&other, &map), Ok(()));
}

#[test]
fn unknown_ids_are_refused() {
    let map = test_map();
    let bike = TripSpec::UsingBike { bike: BIKE, start: BuildingID(9), goal: DrivingGoal::ParkNear(BuildingID(1)) };
    assert_eq!(check_trip(&bike, &map), Err(SpawnFault::UnknownId));
    let transit = TripSpec::UsingTransit {
        start: bldg_spot(0, &map),
        goal: bldg_spot(1, &map),
        route: BusRouteID(0),
        stop1: BusStopID(5),
        maybe_stop2: None,
    };
    assert_eq!(check_trip(&transit, &map), Err(SpawnFault::UnknownId));
    let car = TripSpec::UsingParkedCar {
        car: CAR,
        start_bldg: BuildingID(0),
        goal: DrivingGoal::Border(IntersectionID(4), LaneID(0)),
    };
    assert_eq!(check_trip(&car, &map), Err(SpawnFault::UnknownId));
    let failure = TripSpec::SpawningFailure {
        use_vehicle: None,
        error: SpawnFailure::CannotBikeOrWalk { start: BuildingID(9), goal: DrivingGoal::ParkNear(BuildingID(9)) },
    };
    assert_eq!(check_trip(&failure, &map), Ok(()));
}

#[test]
fn bike_trip_on_one_sidewalk_walks() {
    let map = test_map();
    let spec = TripSpec::UsingBike { bike: BIKE, start: BuildingID(0), goal: DrivingGoal::ParkNear(BuildingID(1)) };
    let spawner = TripSpawner::new();
    let p = spawner.schedule_trip(
        PersonID(0),
        5,
        spec,
        TripEndpoint::Bldg(BuildingID(0)),
        TripPurpose::Shopping,
        false,
        true,
        &map,
    );
    assert_eq!(p.spec, TripSpec::JustWalking { start: bldg_spot(0, &map), goal: bldg_spot(1, &map) });
    assert_eq!(p.person, PersonID(0));
    assert_eq!(p.start_time, 5);
    assert!(p.modified);
    assert!(!p.cancelled);
}

#[test]
fn bike_trip_between_sidewalks_rides() {
    let map = test_map();
    let spec = TripSpec::UsingBike { bike: BIKE, start: BuildingID(0), goal: DrivingGoal::ParkNear(BuildingID(2)) };
    assert_eq!(validate(spec, &map), spec);
    let to_border =
        TripSpec::UsingBike { bike: BIKE, start: BuildingID(0), goal: DrivingGoal::Border(IntersectionID(1), LaneID(1)) };
    assert_eq!(validate(to_border, &map), to_border);
}

#[test]
fn bike_trip_to_building_without_rack_walks() {
    let map = test_map();
    let spec = TripSpec::UsingBike { bike: BIKE, start: BuildingID(0), goal: DrivingGoal::ParkNear(BuildingID(3)) };
    assert_eq!(
        validate(spec, &map),
        TripSpec::JustWalking { start: bldg_spot(0, &map), goal: bldg_spot(3, &map) }
    );
}

#[test]
fn bike_trip_without_start_rack_walks() {
    let map = test_map();
    let spec = TripSpec::UsingBike { bike: BIKE, start: BuildingID(3), goal: DrivingGoal::ParkNear(BuildingID(2)) };
    assert_eq!(
        validate(spec, &map),
        TripSpec::JustWalking { start: bldg_spot(3, &map), goal: bldg_spot(2, &map) }
    );
    let to_border =
        TripSpec::UsingBike { bike: BIKE, start: BuildingID(3), goal: DrivingGoal::Border(IntersectionID(0), LaneID(2)) };
    assert_eq!(
        validate(to_border, &map),
        TripSpec::JustWalking {
            start: bldg_spot(3, &map),
            goal: SidewalkSpot { connection: SidewalkPOI::Border(IntersectionID(0)), sidewalk_pos: pos(4, 900) },
        }
    );
}

#[test]
fn bike_trip_that_can_neither_ride_nor_walk_fails() {
    let map = test_map();
    let goal = DrivingGoal::Border(IntersectionID(1), LaneID(2));
    let spec = TripSpec::UsingBike { bike: BIKE, start: BuildingID(3), goal };
    assert_eq!(
        validate(spec, &map),
        TripSpec::SpawningFailure {
            use_vehicle: Some(BIKE),
            error: SpawnFailure::CannotBikeOrWalk { start: BuildingID(3), goal },
        }
    );
}

#[test]
fn walking_fallback_validates_unchanged() {
    let map = test_map();
    for goal in [DrivingGoal::ParkNear(BuildingID(1)), DrivingGoal::ParkNear(BuildingID(3))] {
        let spec = TripSpec::UsingBike { bike: BIKE, start: BuildingID(0), goal };
        let once = validate(spec, &map);
        assert!(matches!(once, TripSpec::JustWalking { .. }));
        assert_eq!(check_trip(&once, &map), Ok(()));
        assert_eq!(validate(once, &map), once);
    }
}

#[test]
fn vehicle_without_goal_position_fails() {
    let map = test_map();
    let goal = DrivingGoal::ParkNear(BuildingID(3));
    let bike = TripSpec::VehicleAppearing { start_pos: pos(1, 0), goal, use_vehicle: BIKE, retry_if_no_room: true };
    assert_eq!(
        validate(bike, &map),
        TripSpec::SpawningFailure {
            use_vehicle: Some(BIKE),
            error: SpawnFailure::NoGoalPosition { goal, constraints: PathConstraints::Bike },
        }
    );
    let car = TripSpec::VehicleAppearing { start_pos: pos(0, 0), goal, use_vehicle: CAR, retry_if_no_room: true };
    assert_eq!(validate(car, &map), car);
}

#[test]
fn other_specs_pass_validation_unchanged() {
    let map = test_map();
    let parked = TripSpec::UsingParkedCar { car: CAR, start_bldg: BuildingID(3), goal: DrivingGoal::ParkNear(BuildingID(0)) };
    assert_eq!(validate(parked, &map), parked);
    let transit = TripSpec::UsingTransit {
        start: bldg_spot(0, &map),
        goal: bldg_spot(2, &map),
        route: BusRouteID(1),
        stop1: BusStopID(0),
        maybe_stop2: Some(BusStopID(1)),
    };
    assert_eq!(validate(transit, &map), transit);
    let walk = TripSpec::JustWalking { start: bldg_spot(0, &map), goal: bldg_spot(2, &map) };
    assert_eq!(validate(walk, &map), walk);
}

#[test]
fn cancelled_plan_is_registered_but_never_started() {
    let map = test_map();
    let walk = TripSpec::JustWalking { start: bldg_spot(0, &map), goal: bldg_spot(2, &map) };
    let mut spawner = TripSpawner::new();
    spawner.schedule_trips(vec![plan(1, 100, walk, true)]);
    let mut ledger = ledger_with(2);
    let mut scheduler = Scheduler::new();
    spawner.finalize(&map, &mut ledger, &mut scheduler);
    assert_eq!(ledger.trips.len(), 1);
    assert_eq!(ledger.trips[0].id, TripID(0));
    assert_eq!(ledger.trips[0].person, PersonID(1));
    assert_eq!(ledger.trips[0].cancelled.as_deref(), Some("traffic pattern modifier cancelled this trip"));
    assert!(scheduler.events.is_empty());
}

#[test]
fn accepted_plans_start_in_time_order() {
    let map = test_map();
    let walk = TripSpec::JustWalking { start: bldg_spot(0, &map), goal: bldg_spot(2, &map) };
    let mut spawner = TripSpawner::new();
    spawner.schedule_trips(vec![plan(0, 300, walk, false), plan(1, 100, walk, false)]);
    spawner.schedule_trips(vec![plan(2, 200, walk, true), plan(0, 100, walk, false), plan(1, 50, walk, false)]);
    let mut ledger = ledger_with(3);
    let mut scheduler = Scheduler::new();
    spawner.finalize(&map, &mut ledger, &mut scheduler);
    assert_eq!(ledger.trips.len(), 5);
    assert_eq!(scheduler.events.len(), 4);
    let times: Vec<u64> = scheduler.events.iter().map(|e| e.0).collect();
    assert_eq!(times, vec![300, 100, 100, 50]);
    assert!(ledger.trips[2].cancelled.is_some());
    let drained = scheduler.drain_in_order();
    assert!(scheduler.events.is_empty());
    let order: Vec<(u64, TripID)> = drained
        .iter()
        .map(|e| match e.1 {
            Command::StartTrip(id, _) => (e.0, id),
        })
        .collect();
    assert_eq!(order, vec![(50, TripID(4)), (100, TripID(1)), (100, TripID(3)), (300, TripID(0))]);
}

#[test]
fn scheduler_takes_earliest_first() {
    let map = test_map();
    let walk = TripSpec::JustWalking { start: bldg_spot(0, &map), goal: bldg_spot(2, &map) };
    let mut scheduler = Scheduler::new();
    scheduler.push(20, Command::StartTrip(TripID(0), walk));
    scheduler.push(10, Command::StartTrip(TripID(1), walk));
    scheduler.push(10, Command::StartTrip(TripID(2), walk));
    assert_eq!(scheduler.get_next(), Some((10, Command::StartTrip(TripID(1), walk))));
    assert_eq!(scheduler.get_next(), Some((10, Command::StartTrip(TripID(2), walk))));
    assert_eq!(scheduler.get_next(), Some((20, Command::StartTrip(TripID(0), walk))));
    assert_eq!(scheduler.get_next(), None);
}

#[test]
fn transit_trip_legs() {
    let map = test_map();
    let goal = bldg_spot(2, &map);
    let stop_spot = SidewalkSpot { connection: SidewalkPOI::BusStop(BusStopID(0)), sidewalk_pos: pos(3, 400) };
    let to_end = TripSpec::UsingTransit {
        start: bldg_spot(0, &map),
        goal,
        route: BusRouteID(3),
        stop1: BusStopID(0),
        maybe_stop2: None,
    };
    let (ledger, _) = finalize_one(to_end, &map);
    assert_eq!(ledger.trips[0].legs, vec![TripLeg::Walk(stop_spot), TripLeg::RideBus(BusRouteID(3), None)]);
    assert_eq!(ledger.trips[0].mode, TripMode::Transit);
    let to_stop = TripSpec::UsingTransit {
        start: bldg_spot(0, &map),
        goal,
        route: BusRouteID(3),
        stop1: BusStopID(0),
        maybe_stop2: Some(BusStopID(1)),
    };
    let (ledger, _) = finalize_one(to_stop, &map);
    assert_eq!(
        ledger.trips[0].legs,
        vec![TripLeg::Walk(stop_spot), TripLeg::RideBus(BusRouteID(3), Some(BusStopID(1))), TripLeg::Walk(goal)]
    );
}

#[test]
fn parked_car_to_border_has_no_final_walk() {
    let map = test_map();
    let goal = DrivingGoal::Border(IntersectionID(0), LaneID(2));
    let spec = TripSpec::UsingParkedCar { car: CAR, start_bldg: BuildingID(0), goal };
    let (ledger, scheduler) = finalize_one(spec, &map);
    let deferred = SidewalkSpot { connection: SidewalkPOI::DeferredParkingSpot, sidewalk_pos: pos(0, 0) };
    assert_eq!(ledger.trips[0].legs, vec![TripLeg::Walk(deferred), TripLeg::Drive(CAR, goal)]);
    assert_eq!(ledger.trips[0].mode, TripMode::Drive);
    assert_eq!(scheduler.events, vec![(10, Command::StartTrip(TripID(0), spec))]);
    let near = DrivingGoal::ParkNear(BuildingID(2));
    let spec = TripSpec::UsingParkedCar { car: CAR, start_bldg: BuildingID(0), goal: near };
    let (ledger, _) = finalize_one(spec, &map);
    assert_eq!(
        ledger.trips[0].legs,
        vec![TripLeg::Walk(deferred), TripLeg::Drive(CAR, near), TripLeg::Walk(bldg_spot(2, &map))]
    );
}

#[test]
fn vehicle_and_bike_trip_legs() {
    let map = test_map();
    let goal = DrivingGoal::ParkNear(BuildingID(1));
    let spec = TripSpec::VehicleAppearing { start_pos: pos(0, 0), goal, use_vehicle: BIKE, retry_if_no_room: false };
    let (ledger, _) = finalize_one(spec, &map);
    assert_eq!(ledger.trips[0].legs, vec![TripLeg::Drive(BIKE, goal), TripLeg::Walk(bldg_spot(1, &map))]);
    assert_eq!(ledger.trips[0].mode, TripMode::Bike);
    let border = DrivingGoal::Border(IntersectionID(0), LaneID(2));
    let spec = TripSpec::VehicleAppearing { start_pos: pos(0, 0), goal: border, use_vehicle: CAR, retry_if_no_room: false };
    let (ledger, _) = finalize_one(spec, &map);
    assert_eq!(ledger.trips[0].legs, vec![TripLeg::Drive(CAR, border)]);
    assert_eq!(ledger.trips[0].mode, TripMode::Drive);
    let spec = TripSpec::UsingBike { bike: BIKE, start: BuildingID(0), goal: DrivingGoal::ParkNear(BuildingID(2)) };
    let (ledger, _) = finalize_one(spec, &map);
    let rack = SidewalkSpot { connection: SidewalkPOI::BikeRack(pos(1, 200)), sidewalk_pos: pos(3, 200) };
    assert_eq!(
        ledger.trips[0].legs,
        vec![
            TripLeg::Walk(rack),
            TripLeg::Drive(BIKE, DrivingGoal::ParkNear(BuildingID(2))),
            TripLeg::Walk(bldg_spot(2, &map)),
        ]
    );
    assert_eq!(ledger.trips[0].mode, TripMode::Bike);
    let walk = TripSpec::JustWalking { start: bldg_spot(0, &map), goal: bldg_spot(3, &map) };
    let (ledger, _) = finalize_one(walk, &map);
    assert_eq!(ledger.trips[0].legs, vec![TripLeg::Walk(bldg_spot(3, &map))]);
    assert_eq!(ledger.trips[0].mode, TripMode::Walk);
}

#[test]
fn failures_are_taken_out_before_finalizing() {
    let map = test_map();
    let failed = validate(
        TripSpec::UsingBike { bike: BIKE, start: BuildingID(3), goal: DrivingGoal::Border(IntersectionID(1), LaneID(2)) },
        &map,
    );
    let walk = TripSpec::JustWalking { start: bldg_spot(0, &map), goal: bldg_spot(3, &map) };
    let mut spawner = TripSpawner::new();
    spawner.schedule_trips(vec![plan(0, 1, walk, false), plan(0, 2, failed, false), plan(0, 3, walk, true)]);
    let out = spawner.take_failures();
    assert_eq!(out, vec![plan(0, 2, failed, false)]);
    assert_eq!(spawner.trips, vec![plan(0, 1, walk, false), plan(0, 3, walk, true)]);
}

#[test]
fn path_requests() {
    let map = test_map();
    let ped = PathConstraints::Pedestrian;
    let car = TripSpec::VehicleAppearing {
        start_pos: pos(0, 5),
        goal: DrivingGoal::ParkNear(BuildingID(2)),
        use_vehicle: CAR,
        retry_if_no_room: true,
    };
    assert_eq!(
        car.get_pathfinding_request(&map),
        Some(PathRequest { start: pos(0, 5), end: pos(2, 50), constraints: PathConstraints::Car })
    );
    let bike = TripSpec::VehicleAppearing {
        start_pos: pos(1, 5),
        goal: DrivingGoal::Border(IntersectionID(0), LaneID(2)),
        use_vehicle: BIKE,
        retry_if_no_room: true,
    };
    assert_eq!(
        bike.get_pathfinding_request(&map),
        Some(PathRequest { start: pos(1, 5), end: pos(2, 500), constraints: PathConstraints::Bike })
    );
    let walk = TripSpec::JustWalking { start: bldg_spot(0, &map), goal: bldg_spot(3, &map) };
    assert_eq!(
        walk.get_pathfinding_request(&map),
        Some(PathRequest { start: pos(3, 100), end: pos(4, 300), constraints: ped })
    );
    let ride = TripSpec::UsingBike { bike: BIKE, start: BuildingID(2), goal: DrivingGoal::ParkNear(BuildingID(0)) };
    assert_eq!(
        ride.get_pathfinding_request(&map),
        Some(PathRequest { start: pos(4, 50), end: pos(4, 60), constraints: ped })
    );
    let transit = TripSpec::UsingTransit {
        start: bldg_spot(0, &map),
        goal: bldg_spot(2, &map),
        route: BusRouteID(0),
        stop1: BusStopID(1),
        maybe_stop2: None,
    };
    assert_eq!(
        transit.get_pathfinding_request(&map),
        Some(PathRequest { start: pos(3, 100), end: pos(4, 400), constraints: ped })
    );
    let parked = TripSpec::UsingParkedCar { car: CAR, start_bldg: BuildingID(0), goal: DrivingGoal::ParkNear(BuildingID(1)) };
    assert_eq!(parked.get_pathfinding_request(&map), None);
    let failure = TripSpec::SpawningFailure { use_vehicle: None, error: SpawnFailure::CannotBikeOrWalk { start: BuildingID(0), goal: DrivingGoal::ParkNear(BuildingID(0)) } };
    assert_eq!(failure.get_pathfinding_request(&map), None);
}

#[test]
fn ledger_registers_people_and_trips() {
    let mut ledger = ledger_with(2);
    assert_eq!(ledger.get_person(PersonID(1)), Some(Person { id: PersonID(1) }));
    assert_eq!(ledger.get_person(PersonID(2)), None);
    let id = ledger.new_trip(PersonID(1), 42, TripEndpoint::Border(IntersectionID(0)), TripMode::Walk, TripPurpose::Home, true, vec![]);
    assert_eq!(id, TripID(0));
    assert!(ledger.trips[0].modified);
    assert_eq!(ledger.trips[0].start_time, 42);
    ledger.cancel_unstarted_trip(id, "closed".to_string());
    assert_eq!(ledger.trips[0].cancelled.as_deref(), Some("closed"));
    assert_eq!(ledger.trips[0].person, PersonID(1));
}

#[test]
fn goal_positions_and_spots() {
    let map = test_map();
    let near = DrivingGoal::ParkNear(BuildingID(1));
    assert_eq!(near.goal_pos(PathConstraints::Car, &map), Some(pos(0, 600)));
    assert_eq!(near.goal_pos(PathConstraints::Bike, &map), Some(pos(1, 700)));
    assert_eq!(DrivingGoal::ParkNear(BuildingID(3)).goal_pos(PathConstraints::Bike, &map), None);
    assert_eq!(SidewalkSpot::bike_rack(BuildingID(3), &map), None);
    assert_eq!(SidewalkSpot::end_at_border(IntersectionID(1), &map), None);
    assert_eq!(SidewalkSpot::building(BuildingID(2), &map), bldg_spot(2, &map));
}
