//! The calls that the simulator understands, by kind of vehicle.

pub mod airsim_client;
pub mod car_client;
pub mod multi_rotor_client;
pub mod replies;
