use airsim_client::error::DecodeError;
use airsim_client::integer::Integer;
use airsim_client::message::Response;
use airsim_client::types::collision_info::CollisionInfo;
use airsim_client::types::geopoint::GeoPoint;
use airsim_client::types::multi_rotor_state::{LandedState, MultiRotorState};
use airsim_client::types::number::{first_four, first_three, Number};
use airsim_client::types::pose::{KinematicsState, Orientation3, Pose3, Position3, Quaternion};
use airsim_client::types::pwm::{signal_is_valid, PWM};
use airsim_client::types::rc_data::RCDataState;
use airsim_client::types::rotor_states::{RotorState, RotorStates};
use airsim_client::types::vector::Vector3;
use airsim_client::value::WireValue;
use airsim_client::{
    CompressedImage, DrivetrainType, ImageRequest, ImageRequests, ImageType, SceneObjects,
    WeatherParameter, YawMode,
};

fn name(text: &str) -> WireValue {
    WireValue::from_str(text)
}

fn single(x: f32) -> WireValue {
    WireValue::F32(x.to_bits())
}

fn num(x: f32) -> Number {
    Number::F32(x.to_bits())
}

fn listing(values: Vec<WireValue>) -> WireValue {
    WireValue::Dict(values.into_iter().enumerate().map(|(i, v)| (name(&format!("f{}", i)), v)).collect())
}

fn triple(x: f32, y: f32, z: f32) -> WireValue {
    listing(vec![single(x), single(y), single(z)])
}

fn ok(value: WireValue) -> Response {
    Response { id: 0, result: Ok(value) }
}

fn err(value: WireValue) -> Response {
    Response { id: 0, result: Err(value) }
}

#[test]
fn codes_of_the_enumerations() {
    assert_eq!(DrivetrainType::MaxDegreeOfFreedom.as_msgpack(), WireValue::from_i64(0));
    assert_eq!(DrivetrainType::ForwardOnly.as_msgpack(), WireValue::from_i64(1));
    let kinds = [
        ImageType::Scene,
        ImageType::DepthPlanar,
        ImageType::DepthPerspective,
        ImageType::DepthVis,
        ImageType::DisparityNormalized,
        ImageType::SurfaceNormals,
        ImageType::Infrared,
        ImageType::OpticalFlow,
        ImageType::OpticalFlowVis,
    ];
    for (code, kind) in kinds.iter().enumerate() {
        assert_eq!(kind.as_msgpack(), WireValue::from_u64(code as u64));
    }
    let weather = [
        WeatherParameter::Rain,
        WeatherParameter::Roadwetness,
        WeatherParameter::Snow,
        WeatherParameter::RoadSnow,
        WeatherParameter::MapleLeaf,
        WeatherParameter::RoadLeaf,
        WeatherParameter::Dust,
        WeatherParameter::Fog,
        WeatherParameter::Enabled,
    ];
    for (code, parameter) in weather.iter().enumerate() {
        assert_eq!(parameter.as_msgpack(), WireValue::from_u64(code as u64));
    }
}

#[test]
fn landed_state() {
    assert_eq!(LandedState::from_value(&WireValue::from_u64(0)), Ok(LandedState::Landed));
    assert_eq!(LandedState::from_value(&WireValue::from_i64(1)), Ok(LandedState::Flying));
    assert_eq!(LandedState::from_value(&WireValue::from_u64(2)), Err(DecodeError::UnexpectedShape));
    assert_eq!(LandedState::from_value(&WireValue::from_i64(-1)), Err(DecodeError::UnexpectedShape));
    assert_eq!(LandedState::from_value(&WireValue::Boolean(true)), Err(DecodeError::UnexpectedShape));
}

#[test]
fn compressed_image() {
    let pixels = WireValue::Array(vec![WireValue::from_u64(1), WireValue::from_u64(255), WireValue::from_u64(258)]);
    let image = CompressedImage::from_response(&ok(pixels)).unwrap();
    assert_eq!(image.0, vec![1, 255, 2]);
    let image = CompressedImage::from_response(&ok(WireValue::Array(vec![]))).unwrap();
    assert!(image.0.is_empty());

    let negative = WireValue::Array(vec![WireValue::from_i64(-1)]);
    assert!(matches!(CompressedImage::from_response(&ok(negative)), Err(DecodeError::UnexpectedShape)));
    assert!(matches!(CompressedImage::from_response(&ok(WireValue::Nil)), Err(DecodeError::UnexpectedShape)));
    // only an array is an image
    let binary = WireValue::Binary(vec![0x89, b'P', b'N', b'G']);
    assert!(matches!(CompressedImage::from_response(&ok(binary)), Err(DecodeError::UnexpectedShape)));
    assert!(matches!(CompressedImage::from_response(&ok(name("PNG"))), Err(DecodeError::UnexpectedShape)));
    assert!(matches!(
        CompressedImage::from_response(&err(WireValue::Binary(vec![1]))),
        Err(DecodeError::UnexpectedShape)
    ));
}

#[test]
fn scene_objects() {
    let objects = SceneObjects::from_response(&ok(WireValue::Array(vec![name("cube"), name("lamp")]))).unwrap();
    assert_eq!(objects.0, vec!["cube".to_string(), "lamp".to_string()]);
    let objects = SceneObjects::from_response(&ok(WireValue::Array(vec![]))).unwrap();
    assert!(objects.0.is_empty());
    assert!(matches!(
        SceneObjects::from_response(&ok(WireValue::Array(vec![name("cube"), WireValue::Nil]))),
        Err(DecodeError::UnexpectedShape)
    ));
    assert!(matches!(SceneObjects::from_response(&ok(name("cube"))), Err(DecodeError::UnexpectedShape)));
    assert!(matches!(
        SceneObjects::from_response(&err(WireValue::Array(vec![]))),
        Err(DecodeError::UnexpectedShape)
    ));
}

#[test]
fn image_requests() {
    let request = ImageRequest {
        camera_name: "front".to_string(),
        image_type: ImageType::SurfaceNormals,
        pixels_as_float: true,
        compress: false,
    };
    let expected = WireValue::Dict(vec![
        (name("camera_name"), name("front")),
        (name("image_type"), WireValue::from_u64(5)),
        (name("pixels_as_float"), WireValue::Boolean(true)),
        (name("compress"), WireValue::Boolean(false)),
    ]);
    assert_eq!(request.as_msgpack(), expected);
    assert_eq!(ImageRequests(vec![request.clone(), request]).as_msgpack(), WireValue::Array(vec![expected.duplicate(), expected]));
    assert_eq!(ImageRequests(vec![]).as_msgpack(), WireValue::Array(vec![]));
}

#[test]
fn numbers_listed_by_a_value() {
    let value = listing(vec![single(1.5), WireValue::from_i64(-2), WireValue::F64(2.5_f64.to_bits()), single(4.0)]);
    assert_eq!(
        Number::list(&value),
        Ok(vec![
            num(1.5),
            Number::Integer(Integer::from_i64(-2)),
            Number::F64(2.5_f64.to_bits()),
            num(4.0)
        ])
    );
    assert_eq!(first_three(&value).unwrap().2, Number::F64(2.5_f64.to_bits()));
    assert_eq!(first_four(&value).unwrap().3, num(4.0));
    assert_eq!(first_four(&triple(1.0, 2.0, 3.0)), None);
    assert_eq!(first_three(&listing(vec![single(1.0), single(2.0)])), None);
    // a later field that is no number spoils the whole listing
    assert_eq!(first_three(&listing(vec![single(1.0), single(2.0), single(3.0), name("x")])), None);
    assert_eq!(Number::list(&WireValue::Array(vec![single(1.0)])), Err(DecodeError::UnexpectedShape));
    assert_eq!(Number::from_value(&WireValue::Boolean(true)), None);
}

#[test]
fn vectors_positions_points_and_rotors() {
    let value = triple(1.0, -2.0, 3.5);
    assert_eq!(Vector3::from_value(&value), Ok(Vector3::new(num(1.0), num(-2.0), num(3.5))));
    assert_eq!(Position3::from_value(&value), Ok(Position3::new(num(1.0), num(-2.0), num(3.5))));
    assert_eq!(GeoPoint::from_value(&value), Ok(GeoPoint::new(num(1.0), num(-2.0), num(3.5))));
    assert_eq!(GeoPoint::from_response(&ok(value.duplicate())), Ok(GeoPoint::new(num(1.0), num(-2.0), num(3.5))));
    assert_eq!(GeoPoint::from_response(&err(value.duplicate())), Err(DecodeError::UnexpectedShape));
    assert_eq!(
        RotorState::from_value(&value),
        Ok(RotorState { thrust: num(1.0), torque_scaler: num(-2.0), speed: num(3.5) })
    );
    assert_eq!(Vector3::from_value(&WireValue::Nil), Err(DecodeError::UnexpectedShape));
    assert_eq!(
        Quaternion::from_value(&listing(vec![single(1.0), single(0.0), single(0.0), single(0.5)])),
        Ok(Quaternion::new(num(1.0), num(0.0), num(0.0), num(0.5)))
    );
    assert_eq!(Quaternion::from_value(&value), Err(DecodeError::UnexpectedShape));
    assert_eq!(Vector3::new(1.0_f32.to_bits(), 2.0_f32.to_bits(), 3.0_f32.to_bits()).as_msgpack(), WireValue::Dict(vec![
        (name("x_val"), single(1.0)),
        (name("y_val"), single(2.0)),
        (name("z_val"), single(3.0)),
    ]));
}

#[test]
fn pose_from_a_response() {
    let value = listing(vec![
        triple(1.0, 2.0, 3.0),
        listing(vec![single(1.0), single(0.0), single(0.0), single(0.0)]),
    ]);
    assert_eq!(
        Pose3::from_response(&ok(value.duplicate())),
        Ok(Pose3::new(
            Position3::new(num(1.0), num(2.0), num(3.0)),
            Quaternion::new(num(1.0), num(0.0), num(0.0), num(0.0)),
        ))
    );
    assert_eq!(Pose3::from_response(&err(value)), Err(DecodeError::UnexpectedShape));
    assert_eq!(Pose3::from_response(&ok(listing(vec![triple(1.0, 2.0, 3.0)]))), Err(DecodeError::UnexpectedShape));
    assert_eq!(
        Pose3::from_response(&ok(listing(vec![triple(1.0, 2.0, 3.0), triple(1.0, 2.0, 3.0)]))),
        Err(DecodeError::UnexpectedShape)
    );
}

fn kinematics_value() -> WireValue {
    listing(vec![
        triple(1.0, 2.0, 3.0),
        triple(0.1, 0.2, 0.3),
        triple(4.0, 5.0, 6.0),
        triple(7.0, 8.0, 9.0),
        triple(10.0, 11.0, 12.0),
        triple(13.0, 14.0, 15.0),
    ])
}

fn kinematics() -> KinematicsState<Number> {
    KinematicsState::new(
        Position3::new(num(1.0), num(2.0), num(3.0)),
        Orientation3::new(num(0.1), num(0.2), num(0.3)),
        Vector3::new(num(4.0), num(5.0), num(6.0)),
        Vector3::new(num(7.0), num(8.0), num(9.0)),
        Vector3::new(num(10.0), num(11.0), num(12.0)),
        Vector3::new(num(13.0), num(14.0), num(15.0)),
    )
}

#[test]
fn kinematic_state() {
    assert_eq!(KinematicsState::from_value(&kinematics_value()), Ok(kinematics()));
    let five = listing(vec![
        triple(1.0, 2.0, 3.0),
        triple(0.1, 0.2, 0.3),
        triple(4.0, 5.0, 6.0),
        triple(7.0, 8.0, 9.0),
        triple(10.0, 11.0, 12.0),
    ]);
    assert_eq!(KinematicsState::from_value(&five), Err(DecodeError::UnexpectedShape));
    assert_eq!(KinematicsState::from_value(&WireValue::Nil), Err(DecodeError::UnexpectedShape));
}

fn collision_value() -> WireValue {
    listing(vec![
        WireValue::Boolean(true),
        single(0.25),
        WireValue::from_u64(99),
        triple(0.0, 0.0, 1.0),
        triple(1.0, 2.0, 3.0),
        triple(4.0, 5.0, 6.0),
        name("wall"),
        WireValue::from_i64(-7),
    ])
}

fn collision() -> CollisionInfo<Number> {
    CollisionInfo {
        has_collided: true,
        penetration_depth: num(0.25),
        timestamp: 99,
        normal: Vector3::new(num(0.0), num(0.0), num(1.0)),
        impact_point: Vector3::new(num(1.0), num(2.0), num(3.0)),
        position: Vector3::new(num(4.0), num(5.0), num(6.0)),
        object_name: "wall".to_string(),
        object_id: -7,
    }
}

#[test]
fn collision_info() {
    assert_eq!(CollisionInfo::from_value(&collision_value()), Ok(collision()));
    let no_name = listing(vec![
        WireValue::Boolean(true),
        single(0.25),
        WireValue::from_u64(99),
        triple(0.0, 0.0, 1.0),
        triple(1.0, 2.0, 3.0),
        triple(4.0, 5.0, 6.0),
        WireValue::Nil,
        WireValue::from_i64(-7),
    ]);
    assert_eq!(CollisionInfo::from_value(&no_name), Err(DecodeError::UnexpectedShape));
}

fn rc_value() -> WireValue {
    listing(vec![
        WireValue::from_u64(5),
        single(0.2),
        single(0.1),
        single(0.6),
        single(0.3),
        WireValue::Nil,
        WireValue::Nil,
        WireValue::from_u64(3),
        WireValue::Nil,
        WireValue::Boolean(true),
        WireValue::Boolean(false),
    ])
}

fn rc_state() -> RCDataState<Number> {
    RCDataState {
        timestamp: 5,
        orientation: Orientation3::new(num(0.1), num(0.2), num(0.3)),
        throttle: num(0.6),
        switches: 3,
        is_initialized: true,
        is_valid: false,
    }
}

#[test]
fn rc_data_state() {
    assert_eq!(RCDataState::from_value(&rc_value()), Ok(rc_state()));
    assert_eq!(RCDataState::from_value(&triple(1.0, 2.0, 3.0)), Err(DecodeError::UnexpectedShape));
}

#[test]
fn multi_rotor_state() {
    let value = listing(vec![
        collision_value(),
        kinematics_value(),
        triple(47.0, -122.0, 100.0),
        WireValue::from_u64(1234),
        WireValue::from_u64(1),
        rc_value(),
    ]);
    assert_eq!(
        MultiRotorState::from_response(&ok(value.duplicate())),
        Ok(MultiRotorState {
            collision: collision(),
            kinematics_estimated: kinematics(),
            gps_location: GeoPoint::new(num(47.0), num(-122.0), num(100.0)),
            timestamp: 1234,
            landed_state: LandedState::Flying,
            rc_data: rc_state(),
        })
    );
    assert_eq!(MultiRotorState::from_response(&err(value)), Err(DecodeError::UnexpectedShape));
    let bad_landed = listing(vec![
        collision_value(),
        kinematics_value(),
        triple(47.0, -122.0, 100.0),
        WireValue::from_u64(1234),
        WireValue::from_u64(2),
        rc_value(),
    ]);
    assert_eq!(MultiRotorState::from_response(&ok(bad_landed)), Err(DecodeError::UnexpectedShape));
}

#[test]
fn rotor_states() {
    let rotor = |k: f32| triple(k, k + 0.5, k + 1.0);
    let value = listing(vec![
        WireValue::Array(vec![rotor(1.0), rotor(2.0), rotor(3.0), rotor(4.0), rotor(5.0)]),
        WireValue::from_u64(77),
    ]);
    let state = |k: f32| RotorState { thrust: num(k), torque_scaler: num(k + 0.5), speed: num(k + 1.0) };
    assert_eq!(
        RotorStates::from_response(&ok(value)),
        Ok(RotorStates { rotors: [state(1.0), state(2.0), state(3.0), state(4.0)], timestamp: 77 })
    );
    let three = listing(vec![WireValue::Array(vec![rotor(1.0), rotor(2.0), rotor(3.0)]), WireValue::from_u64(77)]);
    assert_eq!(RotorStates::from_response(&ok(three)), Err(DecodeError::UnexpectedShape));
    let spoiled = listing(vec![
        WireValue::Array(vec![rotor(1.0), rotor(2.0), rotor(3.0), rotor(4.0), WireValue::Nil]),
        WireValue::from_u64(77),
    ]);
    assert_eq!(RotorStates::from_response(&ok(spoiled)), Err(DecodeError::UnexpectedShape));
}

#[test]
fn motor_signals() {
    let accepted = |x: f32| !(x.is_sign_negative() || x > 1.0);
    for x in [0.0_f32, 0.5, 1.0, 1.0000001, 2.0, -0.0, -0.5, f32::INFINITY, f32::NEG_INFINITY, f32::NAN, -f32::NAN, f32::MIN_POSITIVE] {
        assert_eq!(signal_is_valid(x.to_bits()), accepted(x), "{}", x);
    }
    assert!(PWM::checked(0.1_f32.to_bits(), 0.2_f32.to_bits(), 0.3_f32.to_bits(), 1.0_f32.to_bits()).is_some());
    assert!(PWM::checked((-1.0_f32).to_bits(), 0.1_f32.to_bits(), 0.1_f32.to_bits(), 0.1_f32.to_bits()).is_none());
    assert!(PWM::checked(0.1_f32.to_bits(), 0.1_f32.to_bits(), 0.1_f32.to_bits(), 1.5_f32.to_bits()).is_none());
}

#[test]
fn yaw_mode() {
    let mode = YawMode::new(true, 45.0_f32.to_bits());
    assert_eq!(
        mode.as_msgpack(),
        WireValue::Dict(vec![(name("is_rate"), WireValue::Boolean(true)), (name("yaw_or_rate"), single(45.0))])
    );
}
