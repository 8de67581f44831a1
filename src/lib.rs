//! Trip instantiation for a traffic microsimulation: validating requested
//! trips against the map, degrading infeasible ones to fallbacks, turning
//! accepted trips into legs and handing them to the event scheduler.

pub mod map;
pub mod trip;
pub mod ledger;
pub mod scheduler;
pub mod spawner;
