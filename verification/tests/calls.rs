use airsim_client::clients::airsim_client::Outgoing;
use airsim_client::clients::replies::{
    check_versions, is_nil_or_error, is_ok, is_true, nothing, text, version, VersionCheck,
};
use airsim_client::error::{CloseReason, DecodeError, NetworkError};
use airsim_client::message::{Message, Request, Response};
use airsim_client::msgpack::ConnectionState;
use airsim_client::pump::Inbound;
use airsim_client::request_id::RequestIdCounter;
use airsim_client::types::number::{negate, F32Bits, MINUS_ONE, ONE};
use airsim_client::value::WireValue;
use airsim_client::{
    AirsimClient, AngularControllerGains, CarClient, DrivetrainType, GeoPoint, ImageRequest,
    ImageRequests, ImageType, LinearControllerGains, MultiRotorClient, Orientation2, Orientation3,
    PIDGains, Path, Pose3, Position3, Quaternion, RCData, Vector3, Velocity2, Velocity3, YawMode,
    PWM,
};

fn bits(x: f32) -> F32Bits {
    x.to_bits()
}

fn single(x: f32) -> WireValue {
    WireValue::F32(x.to_bits())
}

fn name(text: &str) -> WireValue {
    WireValue::from_str(text)
}

fn xyz(x: f32, y: f32, z: f32) -> WireValue {
    WireValue::Dict(vec![
        (name("x_val"), single(x)),
        (name("y_val"), single(y)),
        (name("z_val"), single(z)),
    ])
}

fn yaw(is_rate: bool, value: f32) -> WireValue {
    WireValue::Dict(vec![
        (name("is_rate"), WireValue::Boolean(is_rate)),
        (name("yaw_or_rate"), single(value)),
    ])
}

/// The request that the bytes of an issued call decode to.
fn sent(out: Result<Outgoing, (NetworkError, u8)>) -> Request {
    let out = out.unwrap();
    match Message::decode(&out.bytes).unwrap() {
        (Message::Request(request), taken) => {
            assert_eq!(taken, out.bytes.len());
            assert_eq!(request.id, out.id);
            request
        }
        other => panic!("not a request: {:?}", other),
    }
}

fn airsim() -> AirsimClient<u8> {
    let mut client = AirsimClient::new();
    client.connected();
    client
}

fn drone() -> MultiRotorClient<u8> {
    let mut client = MultiRotorClient::new("Drone1".to_string());
    client.connected();
    client
}

fn expect(request: Request, id: u32, method: &str, params: Vec<WireValue>) {
    assert_eq!(request, Request { id, method: method.to_string(), params });
}

#[test]
fn ids_are_taken_in_order() {
    let mut client = airsim();
    expect(sent(client.ping(1)), 0, "ping", vec![]);
    expect(sent(client.reset(2)), 1, "reset", vec![]);
    expect(sent(client.get_server_version(3)), 2, "getServerVersion", vec![]);
    expect(sent(client.get_min_required_client_version(4)), 3, "getMinRequiredClientVersion", vec![]);
    assert_eq!(client.new_request_id(), 4);
    expect(sent(client.sim_is_pause(5)), 5, "simIsPause", vec![]);
    assert_eq!(client.in_flight(), 5);
}

#[test]
fn a_call_on_a_closed_connection_still_takes_an_id() {
    let mut client: AirsimClient<u8> = AirsimClient::new();
    assert!(client.ping(1).is_err());
    client.connected();
    expect(sent(client.ping(1)), 1, "ping", vec![]);
    let failed = client.close(CloseReason::Disconnected);
    assert_eq!(failed, vec![(1, 1)]);
    assert_eq!(
        client.ping(2),
        Err((
            NetworkError::Send { message: "the connection is closed: the peer is gone".to_string() },
            2
        ))
    );
    assert_eq!(client.state(), ConnectionState::Terminated(CloseReason::Disconnected));
    assert_eq!(client.new_request_id(), 3);
}

#[test]
fn ids_wrap_and_a_busy_id_is_refused() {
    let mut client: AirsimClient<u8> = AirsimClient::with_ids(RequestIdCounter::starting_at(u32::MAX - 1));
    client.connected();
    expect(sent(client.ping(1)), u32::MAX - 1, "ping", vec![]);
    expect(sent(client.ping(2)), 0, "ping", vec![]);

    let mut busy: AirsimClient<u8> = AirsimClient::new();
    busy.connected();
    expect(sent(busy.unary_rpc("a".to_string(), None, 1)), 0, "a", vec![]);
    let mut again: AirsimClient<u8> = AirsimClient::with_ids(RequestIdCounter::starting_at(7));
    again.connected();
    expect(sent(again.unary_rpc("a".to_string(), Some(vec![WireValue::Nil]), 1)), 7, "a", vec![WireValue::Nil]);
}

#[test]
fn airsim_calls() {
    let mut client = airsim();
    expect(sent(client.sim_pause(true, 0)), 0, "simPause", vec![WireValue::Boolean(true)]);
    expect(
        sent(client.sim_continue_for_time(2.5_f64.to_bits(), 0)),
        1,
        "simContinueFortime",
        vec![WireValue::F64(2.5_f64.to_bits())],
    );
    expect(sent(client.sim_continue_for_frames(-3, 0)), 2, "simContinueFortime", vec![WireValue::from_i64(-3)]);
    expect(
        sent(client.sim_set_light_intensity("lamp", bits(0.5), 0)),
        3,
        "simSetLightIntensity",
        vec![name("lamp"), single(0.5)],
    );
    expect(sent(client.sim_list_scene_objects(".*", 0)), 4, "simListSceneObjects", vec![name(".*")]);
    expect(sent(client.sim_get_object_pose("cube", 0)), 5, "simGetObjectPose", vec![name("cube")]);
    expect(sent(client.sim_destroy_object("cube", 0)), 6, "simDestroyObject", vec![name("cube")]);
    expect(
        sent(client.enable_api_control(true, Some("Car1"), 0)),
        7,
        "enableApiControl",
        vec![WireValue::Boolean(true), name("Car1")],
    );
    expect(
        sent(client.enable_api_control(false, None, 0)),
        8,
        "enableApiControl",
        vec![WireValue::Boolean(false), name("")],
    );
    expect(
        sent(client.is_api_control_enabled(true, None, 0)),
        9,
        "isApiControlEnabled",
        vec![WireValue::Boolean(true), name("")],
    );
    expect(sent(client.arm_disarm(true, Some("d"), 0)), 10, "armDisarm", vec![WireValue::Boolean(true), name("d")]);
    expect(sent(client.get_home_geo_point(Some("d"), 0)), 11, "getHomeGeoPoint", vec![name("d")]);
    expect(
        sent(client.sim_get_image(Some("d"), "front", ImageType::Infrared, None, 0)),
        12,
        "simGetImage",
        vec![name("front"), WireValue::from_u64(6), name("d"), WireValue::Boolean(false)],
    );
    expect(
        sent(client.take_off(20, None, 0)),
        13,
        "takeoff",
        vec![WireValue::from_u64(20), name("")],
    );
}

#[test]
fn spawn_object_and_images() {
    let mut client = airsim();
    let pose = Pose3::new(
        Position3::new(bits(1.0), bits(2.0), bits(3.0)),
        Quaternion::new(bits(1.0), bits(0.0), bits(0.0), bits(0.5)),
    );
    let scale = Vector3::new(bits(1.0), bits(1.0), bits(2.0));
    expect(
        sent(client.sim_spawn_object("light", "PointLightBP", pose, scale, Some(true), None, 0)),
        0,
        "simSpawnObject",
        vec![
            name("light"),
            name("PointLightBP"),
            WireValue::Dict(vec![
                (name("position"), xyz(1.0, 2.0, 3.0)),
                (
                    name("orientation"),
                    WireValue::Dict(vec![
                        (name("w_val"), single(1.0)),
                        (name("x_val"), single(0.0)),
                        (name("y_val"), single(0.0)),
                        (name("z_val"), single(0.5)),
                    ]),
                ),
            ]),
            xyz(1.0, 1.0, 2.0),
            WireValue::Boolean(true),
            WireValue::Boolean(false),
        ],
    );
    let requests = ImageRequests(vec![ImageRequest {
        camera_name: "0".to_string(),
        image_type: ImageType::DepthVis,
        pixels_as_float: false,
        compress: true,
    }]);
    expect(
        sent(client.sim_get_images(&requests, None, Some(true), 0)),
        1,
        "simGetImages",
        vec![
            WireValue::Array(vec![WireValue::Dict(vec![
                (name("camera_name"), name("0")),
                (name("image_type"), WireValue::from_u64(3)),
                (name("pixels_as_float"), WireValue::Boolean(false)),
                (name("compress"), WireValue::Boolean(true)),
            ])]),
            name(""),
            WireValue::Boolean(true),
        ],
    );
}

#[test]
fn multirotor_simple_calls() {
    let mut client = drone();
    assert_eq!(client.vehicle_name(), "Drone1");
    expect(sent(client.ping(0)), 0, "ping", vec![]);
    expect(sent(client.reset(0)), 1, "reset", vec![]);
    expect(sent(client.enable_api_control(true, 0)), 2, "enableApiControl", vec![WireValue::Boolean(true), name("Drone1")]);
    expect(
        sent(client.is_api_control_enabled(true, 0)),
        3,
        "isApiControlEnabled",
        vec![WireValue::Boolean(true), name("Drone1")],
    );
    expect(sent(client.arm_disarm(false, 0)), 4, "armDisarm", vec![WireValue::Boolean(false), name("Drone1")]);
    expect(sent(client.hover_async(0)), 5, "hover", vec![name("Drone1")]);
    expect(sent(client.get_home_geo_point(0)), 6, "getHomeGeoPoint", vec![name("Drone1")]);
    expect(sent(client.take_off_async(bits(20.0), 0)), 7, "takeoff", vec![single(20.0), name("Drone1")]);
    expect(sent(client.land_async(bits(20.0), 0)), 8, "land", vec![single(20.0), name("Drone1")]);
    expect(sent(client.go_home_async(bits(20.0), 0)), 9, "goHome", vec![single(20.0), name("Drone1")]);
    expect(sent(client.get_multirotor_state(0)), 10, "getMultirotorState", vec![name("Drone1")]);
    expect(sent(client.get_rotor_states(0)), 11, "getRotorStates", vec![name("Drone1")]);
    expect(
        sent(client.sim_get_image("0", ImageType::Scene, Some(true), 0)),
        12,
        "simGetImage",
        vec![name("0"), WireValue::from_u64(0), name("Drone1"), WireValue::Boolean(true)],
    );
}

#[test]
fn multirotor_velocity_calls() {
    let mut client = drone();
    let v3 = Velocity3::new(bits(1.0), bits(-2.0), bits(0.5));
    let v2 = Velocity2::new(bits(1.0), bits(-2.0));
    let mode = YawMode::new(true, bits(90.0));
    let expected3 = || {
        vec![
            single(1.0),
            single(-2.0),
            single(0.5),
            single(3.0),
            WireValue::from_u64(1),
            yaw(true, 90.0),
            name("Drone1"),
        ]
    };
    let expected2 = || {
        vec![
            single(1.0),
            single(-2.0),
            single(-10.0),
            single(3.0),
            WireValue::from_u64(0),
            yaw(true, 90.0),
            name("Drone1"),
        ]
    };
    expect(
        sent(client.move_by_velocity_body_frame_async(v3, bits(3.0), DrivetrainType::ForwardOnly, mode, 0)),
        0,
        "moveByVelocityBodyFrame",
        expected3(),
    );
    expect(
        sent(client.move_by_velocity_async(v3, bits(3.0), DrivetrainType::ForwardOnly, mode, 0)),
        1,
        "moveByVelocity",
        expected3(),
    );
    expect(
        sent(client.move_by_velocity_z_body_frame_async(
            v2,
            bits(-10.0),
            bits(3.0),
            DrivetrainType::MaxDegreeOfFreedom,
            mode,
            0,
        )),
        2,
        "moveByVelocityZBodyFrame",
        expected2(),
    );
    expect(
        sent(client.move_by_velocity_z_async(v2, bits(-10.0), bits(3.0), DrivetrainType::MaxDegreeOfFreedom, mode, 0)),
        3,
        "moveByVelocityZ",
        expected2(),
    );
    // the vertical part of the largest velocity is not sent
    expect(
        sent(client.move_by_manual_async(v3, bits(-10.0), bits(3.0), DrivetrainType::MaxDegreeOfFreedom, mode, 0)),
        4,
        "moveByManual",
        expected2(),
    );
}

#[test]
fn multirotor_goal_calls_and_their_defaults() {
    let mut client = drone();
    let mode = YawMode::new(false, bits(0.0));
    assert!(!mode.is_rate());
    assert_eq!(*mode.yaw_or_rate(), bits(0.0));
    let tail = |lookahead: f32, adaptive: f32| {
        vec![
            single(5.0),
            single(60.0),
            WireValue::from_u64(0),
            yaw(false, 0.0),
            single(lookahead),
            single(adaptive),
            name("Drone1"),
        ]
    };
    let mut position = vec![single(1.0), single(2.0), single(-3.0)];
    position.extend(tail(-1.0, 1.0));
    expect(
        sent(client.move_to_position_async(
            Position3::new(bits(1.0), bits(2.0), bits(-3.0)),
            bits(5.0),
            bits(60.0),
            DrivetrainType::MaxDegreeOfFreedom,
            mode,
            None,
            None,
            0,
        )),
        0,
        "moveToPosition",
        position,
    );
    let mut gps = vec![single(47.5), single(-122.25), single(100.0)];
    gps.extend(tail(2.0, 0.0));
    expect(
        sent(client.move_to_gps_async(
            GeoPoint::new(bits(47.5), bits(-122.25), bits(100.0)),
            bits(5.0),
            bits(60.0),
            DrivetrainType::MaxDegreeOfFreedom,
            mode,
            Some(bits(2.0)),
            Some(bits(0.0)),
            0,
        )),
        1,
        "moveToGPS",
        gps,
    );
    let path = Path(vec![
        Vector3::new(bits(0.0), bits(0.0), bits(-5.0)),
        Vector3::new(bits(10.0), bits(0.0), bits(-5.0)),
    ]);
    let mut on_path = vec![WireValue::Array(vec![xyz(0.0, 0.0, -5.0), xyz(10.0, 0.0, -5.0)])];
    on_path.extend(tail(-1.0, 1.0));
    expect(
        sent(client.move_on_path_async(
            &path,
            bits(5.0),
            bits(60.0),
            DrivetrainType::MaxDegreeOfFreedom,
            mode,
            None,
            None,
            0,
        )),
        2,
        "moveOnPath",
        on_path,
    );
    expect(
        sent(client.move_to_z_async(bits(-7.0), bits(5.0), bits(60.0), mode, None, Some(bits(4.0)), 0)),
        3,
        "moveToZ",
        vec![
            single(-7.0),
            single(5.0),
            single(60.0),
            yaw(false, 0.0),
            single(-1.0),
            single(4.0),
            name("Drone1"),
        ],
    );
    assert_eq!(MINUS_ONE, bits(-1.0));
    assert_eq!(ONE, bits(1.0));
}

#[test]
fn multirotor_attitude_calls_reverse_pitch_and_yaw() {
    let mut client = drone();
    let rotation = Orientation3::new(bits(0.1), bits(0.2), bits(-0.3));
    let two = Orientation2::new(bits(0.1), bits(0.2));
    let expected = |fourth: f32| {
        vec![
            single(0.1),
            single(-0.2),
            single(0.3),
            single(fourth),
            single(2.0),
            name("Drone1"),
        ]
    };
    expect(sent(client.move_by_roll_pitch_yaw_z_async(rotation, bits(-5.0), bits(2.0), 0)), 0, "moveByRollPitchYawZ", expected(-5.0));
    expect(
        sent(client.move_by_roll_pitch_yaw_throttle_async(rotation, bits(0.75), bits(2.0), 0)),
        1,
        "moveByRollPitchYawThrottle",
        expected(0.75),
    );
    expect(
        sent(client.move_by_roll_pitch_yawrate_throttle_async(two, bits(-0.3), bits(0.75), bits(2.0), 0)),
        2,
        "moveByRollPitchYawrateThrottle",
        expected(0.75),
    );
    expect(
        sent(client.move_by_roll_pitch_yawrate_z_async(two, bits(-0.3), bits(-5.0), bits(2.0), 0)),
        3,
        "moveByRollPitchYawrateZ",
        expected(-5.0),
    );
    expect(sent(client.move_by_angle_rates_z_async(rotation, bits(-5.0), bits(2.0), 0)), 4, "moveByAngleRatesZ", expected(-5.0));
    expect(
        sent(client.move_by_angle_rates_throttle_async(rotation, bits(0.75), bits(2.0), 0)),
        5,
        "moveByAngleRatesThrottle",
        expected(0.75),
    );
}

#[test]
fn negate_flips_the_sign_like_the_machine_does() {
    for x in [0.0_f32, -0.0, 1.0, -2.5, f32::INFINITY, f32::MIN_POSITIVE, f32::MAX, 1.0e-40] {
        assert_eq!(negate(x.to_bits()), (-x).to_bits());
    }
    assert_eq!(negate(f32::NAN.to_bits()), (-f32::NAN).to_bits());
}

#[test]
fn multirotor_gains_rc_and_pwm() {
    let mut client = drone();
    let linear = LinearControllerGains::new(
        PIDGains::new(bits(1.0), bits(2.0), bits(3.0)),
        PIDGains::new(bits(4.0), bits(5.0), bits(6.0)),
        PIDGains::new(bits(7.0), bits(8.0), bits(9.0)),
    );
    let three = |a: f32, b: f32, c: f32| WireValue::Array(vec![single(a), single(b), single(c)]);
    let linear_params =
        || vec![three(1.0, 4.0, 7.0), three(2.0, 5.0, 8.0), three(3.0, 6.0, 9.0), name("Drone1")];
    expect(sent(client.set_velocity_controller_gains(linear, 0)), 0, "setVelocityControllerGains", linear_params());
    expect(sent(client.set_position_controller_gains(linear, 0)), 1, "setPositionControllerGains", linear_params());
    let angular = AngularControllerGains::new(
        PIDGains::new(bits(1.0), bits(2.0), bits(3.0)),
        PIDGains::new(bits(4.0), bits(5.0), bits(6.0)),
        PIDGains::new(bits(7.0), bits(8.0), bits(9.0)),
    );
    let angular_params =
        || vec![three(1.0, 4.0, 7.0), three(8.0, 2.0, 5.0), three(3.0, 6.0, 9.0), name("Drone1")];
    expect(sent(client.set_angle_rate_controller_gains(angular, 0)), 2, "setAngleRateControllerGains", angular_params());
    expect(sent(client.set_angle_level_controller_gains(angular, 0)), 3, "setAngleLevelControllerGains", angular_params());
    assert_eq!(PIDGains::new(bits(1.0), bits(2.0), bits(3.0)).to_msgpack(), three(1.0, 2.0, 3.0));

    let rc = RCData::new(
        11,
        Orientation3::new(bits(0.1), bits(0.2), bits(0.3)),
        bits(0.6),
        Some([1, 2, 3, 4, 5, 6, 7, 8]),
        true,
        false,
    );
    expect(
        sent(client.move_by_rc(rc, 0)),
        4,
        "moveByRC",
        vec![
            WireValue::Dict(vec![
                (name("timestamp"), WireValue::from_u64(11)),
                (name("pitch"), single(0.2)),
                (name("roll"), single(0.1)),
                (name("throttle"), single(0.6)),
                (name("yaw"), single(0.3)),
                (name("switch1"), WireValue::from_u64(1)),
                (name("switch2"), WireValue::from_u64(2)),
                (name("switch3"), WireValue::from_u64(3)),
                (name("switch4"), WireValue::from_u64(4)),
                (name("switch5"), WireValue::from_u64(5)),
                (name("switch6"), WireValue::from_u64(6)),
                (name("switch7"), WireValue::from_u64(7)),
                (name("switch8"), WireValue::from_u64(8)),
                (name("is_initialized"), WireValue::Boolean(true)),
                (name("is_valid"), WireValue::Boolean(false)),
            ]),
            name("Drone1"),
        ],
    );
    assert_eq!(RCData::new(0, Orientation3::new(0_u32, 0, 0), 0, None, false, false).switches, [0; 8]);

    let pwm = PWM::new(bits(0.1), bits(0.2), bits(0.3), bits(1.0));
    expect(
        sent(client.move_by_motor_pwms_async(pwm, bits(2.0), 0)),
        5,
        "moveByMotorPWMs",
        vec![single(0.1), single(0.2), single(0.3), single(1.0), single(2.0), name("Drone1")],
    );
}

#[test]
fn car_calls() {
    let mut client: CarClient<u8> = CarClient::new("Car1".to_string());
    client.connected();
    assert_eq!(client.vehicle_name(), "Car1");
    expect(sent(client.ping(0)), 0, "ping", vec![]);
    expect(sent(client.reset(0)), 1, "reset", vec![]);
    expect(sent(client.enable_api_control(true, 0)), 2, "enableApiControl", vec![WireValue::Boolean(true), name("Car1")]);
    expect(
        sent(client.is_api_control_enabled(true, 0)),
        3,
        "isApiControlEnabled",
        vec![WireValue::Boolean(true), name("Car1")],
    );
    expect(sent(client.arm_disarm(true, 0)), 4, "armDisarm", vec![WireValue::Boolean(true), name("Car1")]);
    expect(sent(client.take_off_async(20, 0)), 5, "takeoff", vec![WireValue::from_u64(20), name("Car1")]);
    let reply = Message::Response(Response { id: 4, result: Ok(WireValue::Boolean(true)) }).pack();
    let received = client.receive(&reply);
    assert_eq!(
        received.events,
        vec![Inbound::Deliver { waiter: 0, response: Response { id: 4, result: Ok(WireValue::Boolean(true)) } }]
    );
    assert_eq!(client.close(CloseReason::Disconnected).len(), 5);
    assert_eq!(client.state(), ConnectionState::Terminated(CloseReason::Disconnected));
}

#[test]
fn what_replies_mean() {
    let ok = |value: WireValue| Response { id: 0, result: Ok(value) };
    let err = |value: WireValue| Response { id: 0, result: Err(value) };

    assert!(is_true(&ok(WireValue::Boolean(true))));
    assert!(!is_true(&ok(WireValue::Boolean(false))));
    assert!(!is_true(&ok(WireValue::from_u64(1))));
    assert!(!is_true(&err(WireValue::Boolean(true))));

    assert!(is_ok(&ok(WireValue::Nil)));
    assert!(!is_ok(&err(WireValue::Nil)));

    assert!(is_nil_or_error(&ok(WireValue::Nil)));
    assert!(is_nil_or_error(&err(WireValue::from_str("no"))));
    assert!(!is_nil_or_error(&ok(WireValue::Boolean(true))));

    assert_eq!(version(&ok(WireValue::from_u64(3))), 3);
    assert_eq!(version(&ok(WireValue::from_i64(-3))), 0);
    assert_eq!(version(&ok(WireValue::from_str("3"))), 0);
    assert_eq!(version(&err(WireValue::from_u64(3))), 0);

    assert_eq!(text(&ok(WireValue::from_str("cube_2"))), Ok("cube_2".to_string()));
    assert_eq!(text(&ok(WireValue::Nil)), Err(DecodeError::UnexpectedShape));
    assert_eq!(text(&err(WireValue::from_str("cube_2"))), Err(DecodeError::UnexpectedShape));

    assert_eq!(nothing(&ok(WireValue::Nil)), Ok(()));
    assert_eq!(nothing(&ok(WireValue::Boolean(true))), Err(DecodeError::UnexpectedShape));
    assert_eq!(nothing(&err(WireValue::Nil)), Err(DecodeError::UnexpectedShape));
}

#[test]
fn version_checks() {
    assert_eq!(check_versions(1, 1, 1, 1), VersionCheck::Supported);
    assert_eq!(check_versions(1, 1, 0, 1), VersionCheck::ServerTooOld);
    assert_eq!(check_versions(1, 2, 1, 1), VersionCheck::ClientTooOld);
    assert_eq!(check_versions(1, 2, 0, 1), VersionCheck::ServerTooOld);
    assert_eq!(AirsimClient::<u8>::get_client_version(), 1);
    assert_eq!(AirsimClient::<u8>::get_min_required_server_version(), 1);
}

#[test]
fn vehicle_clients_cancel_and_notify() {
    let mut client = drone();
    expect(sent(client.hover_async(9)), 0, "hover", vec![name("Drone1")]);
    assert_eq!(client.cancel(0), Some(9));
    assert_eq!(client.cancel(0), None);
    let bytes = client
        .notify(airsim_client::message::Notification { method: "n".to_string(), params: vec![] })
        .unwrap();
    assert_eq!(bytes, vec![0x93, 0x02, 0xa1, b'n', 0x90]);
    expect(sent(client.get_server_version(1)), 1, "getServerVersion", vec![]);
    expect(sent(client.get_min_required_client_version(1)), 2, "getMinRequiredClientVersion", vec![]);

    let mut plain = airsim();
    expect(sent(plain.ping(4)), 0, "ping", vec![]);
    assert_eq!(plain.cancel(0), Some(4));
    assert!(plain
        .notify(airsim_client::message::Notification { method: "n".to_string(), params: vec![] })
        .is_ok());
    assert!(plain.after_write(true).is_empty());
    assert_eq!(plain.after_read(None).failed, Vec::<(u32, u8)>::new());
    assert_eq!(plain.state(), ConnectionState::Terminated(CloseReason::Disconnected));

    expect(sent(client.hover_async(7)), 3, "hover", vec![name("Drone1")]);
    let mut failed = client.after_write(false);
    failed.sort();
    assert_eq!(failed, vec![(1, 1), (2, 1), (3, 7)]);
    assert_eq!(client.state(), ConnectionState::Terminated(CloseReason::WriteFailed));
}
