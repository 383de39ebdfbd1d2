//! A client for the simulator's remote-control protocol, without its socket.
//!
//! One TCP connection carries requests, responses and notifications as
//! MessagePack-RPC messages. This library holds what such a connection has to
//! decide and remember: how messages are framed in the byte stream, which
//! waiter a response belongs to, what becomes of the requests in flight when
//! the connection breaks, and what each call to the simulator looks like on
//! the wire. Reading and writing the socket is left to the caller.

pub mod clients;
pub mod codec;
pub mod correlator;
pub mod error;
pub mod frame;
pub mod integer;
pub mod message;
pub mod msgpack;
pub mod pump;
pub mod request_id;
pub mod types;
pub mod value;

pub use clients::airsim_client::AirsimClient;
pub use clients::car_client::CarClient;
pub use clients::multi_rotor_client::MultiRotorClient;
pub use error::{DecodeError, NetworkError, NetworkResult};
pub use msgpack::MsgPackClient;
pub use types::drive_train::DrivetrainType;
pub use types::gains::{AngularControllerGains, LinearControllerGains, PIDGains};
pub use types::geopoint::GeoPoint;
pub use types::image::{CompressedImage, ImageRequest, ImageRequests, ImageType};
pub use types::path::Path;
pub use types::pose::{
    Orientation2, Orientation3, Pose3, Position3, Quaternion, Velocity2, Velocity3,
};
pub use types::pwm::PWM;
pub use types::rc_data::RCData;
pub use types::rotor_states::{RotorState, RotorStates};
pub use types::simulation::SceneObjects;
pub use types::vector::Vector3;
pub use types::weather::WeatherParameter;
pub use types::yaw_mode::YawMode;
