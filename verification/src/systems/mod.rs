pub mod collision_vehicle_vehicle;
pub mod vehicle_move;

pub use self::collision_vehicle_vehicle::CollisionVehToVehSystem;
pub use self::vehicle_move::VehicleMoveSystem;
