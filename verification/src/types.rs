//! Typed arguments and results of simulator calls, and their form as values.

pub mod collision_info;
pub mod drive_train;
pub mod gains;
pub mod geopoint;
pub mod image;
pub mod multi_rotor_state;
pub mod number;
pub mod path;
pub mod pose;
pub mod pwm;
pub mod rc_data;
pub mod rotor_states;
pub mod simulation;
pub mod vector;
pub mod weather;
pub mod yaw_mode;
