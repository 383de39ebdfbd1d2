use airsim_client::error::DecodeError;
use airsim_client::integer::Integer;
use airsim_client::message::{Message, Notification, Request, Response};
use airsim_client::value::WireValue;

fn ping_request() -> Message {
    Message::Request(Request { id: 1, method: "ping".to_string(), params: Vec::new() })
}

fn ping_bytes() -> Vec<u8> {
    vec![0x94, 0x00, 0x01, 0xa4, b'p', b'i', b'n', b'g', 0x90]
}

#[test]
fn it_works() {
    let result = 2 + 2;
    assert_eq!(result, 4);
}

#[test]
fn request_packs_to_nine_bytes() {
    assert_eq!(ping_request().pack(), ping_bytes());
}

#[test]
fn request_round_trip() {
    let bytes = Message::Request(Request {
        id: 1234,
        method: "dummy".to_string(),
        params: vec![WireValue::Boolean(true), WireValue::from_str("Drone1")],
    })
    .pack();
    let (message, taken) = Message::decode(&bytes).unwrap();
    assert_eq!(taken, bytes.len());
    assert_eq!(
        message,
        Message::Request(Request {
            id: 1234,
            method: "dummy".to_string(),
            params: vec![WireValue::Boolean(true), WireValue::from_str("Drone1")],
        })
    );
}

#[test]
fn response_round_trip_ok_and_err() {
    let ok = Message::Response(Response { id: 7, result: Ok(WireValue::Boolean(true)) });
    let bytes = ok.pack();
    assert_eq!(bytes, vec![0x94, 0x01, 0x07, 0xc0, 0xc3]);
    assert_eq!(
        Message::decode(&bytes).unwrap(),
        (Message::Response(Response { id: 7, result: Ok(WireValue::Boolean(true)) }), 5)
    );

    let err = Message::Response(Response { id: 8, result: Err(WireValue::from_str("no")) });
    let bytes = err.pack();
    assert_eq!(bytes, vec![0x94, 0x01, 0x08, 0xa2, b'n', b'o', 0xc0]);
    assert_eq!(
        Message::decode(&bytes).unwrap(),
        (Message::Response(Response { id: 8, result: Err(WireValue::from_str("no")) }), 7)
    );
}

#[test]
fn notification_round_trip() {
    let bytes = Message::Notification(Notification {
        method: "tick".to_string(),
        params: vec![WireValue::from_u64(3)],
    })
    .pack();
    assert_eq!(bytes, vec![0x93, 0x02, 0xa4, b't', b'i', b'c', b'k', 0x91, 0x03]);
    assert_eq!(
        Message::decode(&bytes).unwrap(),
        (
            Message::Notification(Notification {
                method: "tick".to_string(),
                params: vec![WireValue::from_u64(3)],
            }),
            9
        )
    );
}

#[test]
fn response_with_nil_error_reads_back_as_success() {
    let bytes = Message::Response(Response { id: 3, result: Err(WireValue::Nil) }).pack();
    assert_eq!(bytes, vec![0x94, 0x01, 0x03, 0xc0, 0xc0]);
    assert_eq!(
        Message::decode(&bytes).unwrap().0,
        Message::Response(Response { id: 3, result: Ok(WireValue::Nil) })
    );
}

#[test]
fn every_shorter_beginning_is_truncated() {
    let bytes = ping_bytes();
    for cut in 0..bytes.len() {
        assert_eq!(Message::decode(&bytes[..cut]), Err(DecodeError::Truncated));
    }
}

#[test]
fn decode_leaves_what_follows_the_message() {
    let mut bytes = ping_bytes();
    bytes.extend_from_slice(&[0x94, 0x01]);
    let (message, taken) = Message::decode(&bytes).unwrap();
    assert_eq!(message, ping_request());
    assert_eq!(taken, 9);
}

#[test]
fn values_that_are_no_message_are_invalid() {
    // not an array
    assert_eq!(Message::decode(&[0x05]), Err(DecodeError::Invalid));
    // an array of two items
    assert_eq!(Message::decode(&[0x92, 0x00, 0x01]), Err(DecodeError::Invalid));
    // an unknown tag
    assert_eq!(Message::decode(&[0x94, 0x05, 0x01, 0xa1, b'm', 0x90]), Err(DecodeError::Invalid));
    // a tag that is no integer
    assert_eq!(Message::decode(&[0x93, 0xc0, 0xa1, b'm', 0x90]), Err(DecodeError::Invalid));
    // a negative tag
    assert_eq!(Message::decode(&[0x93, 0xff, 0xa1, b'm', 0x90]), Err(DecodeError::Invalid));
    // a request of three items
    assert_eq!(Message::decode(&[0x93, 0x00, 0x01, 0xa1, b'm']), Err(DecodeError::Invalid));
    // a request whose method is no string
    assert_eq!(Message::decode(&[0x94, 0x00, 0x01, 0x07, 0x90]), Err(DecodeError::Invalid));
    // a request whose arguments are no array
    assert_eq!(Message::decode(&[0x94, 0x00, 0x01, 0xa1, b'm', 0xc0]), Err(DecodeError::Invalid));
    // a request whose id is negative
    assert_eq!(Message::decode(&[0x94, 0x00, 0xff, 0xa1, b'm', 0x90]), Err(DecodeError::Invalid));
    // a notification whose method is no string
    assert_eq!(Message::decode(&[0x93, 0x02, 0x01, 0x90]), Err(DecodeError::Invalid));
}

#[test]
fn an_id_beyond_32_bits_is_invalid() {
    let just_fits = [0x94, 0x00, 0xce, 0xff, 0xff, 0xff, 0xff, 0xa1, b'm', 0x90];
    assert_eq!(
        Message::decode(&just_fits).unwrap().0,
        Message::Request(Request { id: u32::MAX, method: "m".to_string(), params: Vec::new() })
    );
    let too_wide =
        [0x94, 0x00, 0xcf, 0x00, 0x00, 0x00, 0x01, 0x00, 0x00, 0x00, 0x00, 0xa1, b'm', 0x90];
    assert_eq!(Message::decode(&too_wide), Err(DecodeError::Invalid));
}

#[test]
fn a_response_of_three_items_is_invalid() {
    assert_eq!(Message::decode(&[0x93, 0x01, 0x05, 0xc0]), Err(DecodeError::Invalid));
    assert_eq!(Message::decode(&[0x93, 0x01, 0x05, 0xa1, b'e']), Err(DecodeError::Invalid));
}

#[test]
fn a_method_that_is_not_utf8_is_invalid() {
    assert_eq!(
        Message::decode(&[0x94, 0x00, 0x01, 0xa2, 0xff, 0xfe, 0x90]),
        Err(DecodeError::Invalid)
    );
}

#[test]
fn items_after_the_fourth_are_ignored() {
    let (message, taken) = Message::decode(&[0x95, 0x00, 0x01, 0xa1, b'm', 0x90, 0xc3]).unwrap();
    assert_eq!(taken, 7);
    assert_eq!(
        message,
        Message::Request(Request { id: 1, method: "m".to_string(), params: Vec::new() })
    );
}

#[test]
fn nesting_beyond_the_limit_is_reported() {
    let mut bytes = vec![0x91; 2000];
    bytes.push(0xc0);
    assert_eq!(Message::decode(&bytes), Err(DecodeError::DepthLimitExceeded));
}

#[test]
fn from_value_and_into_value_agree() {
    let value = ping_request().into_value();
    assert_eq!(
        value,
        WireValue::Array(vec![
            WireValue::from_u64(0),
            WireValue::from_u64(1),
            WireValue::from_str("ping"),
            WireValue::Array(Vec::new()),
        ])
    );
    assert_eq!(Message::from_value(value), Ok(ping_request()));
    assert_eq!(Message::from_value(WireValue::Nil), Err(DecodeError::Invalid));
}

#[test]
fn every_kind_of_value_survives_the_wire() {
    let params = vec![
        WireValue::Nil,
        WireValue::Boolean(false),
        WireValue::from_u64(u64::MAX),
        WireValue::from_i64(i64::MIN),
        WireValue::F32(1.5_f32.to_bits()),
        WireValue::F64((-0.25_f64).to_bits()),
        WireValue::from_str("héllo"),
        WireValue::Binary(vec![1, 2, 3]),
        WireValue::Array(vec![WireValue::from_u64(1), WireValue::Array(Vec::new())]),
        WireValue::Dict(vec![(WireValue::from_str("x_val"), WireValue::F32(2.0_f32.to_bits()))]),
        WireValue::Ext(-3, vec![9, 8]),
    ];
    let copy: Vec<WireValue> = params.iter().map(|p| p.duplicate()).collect();
    let bytes = Message::Notification(Notification { method: "all".to_string(), params })
        .pack();
    let (message, taken) = Message::decode(&bytes).unwrap();
    assert_eq!(taken, bytes.len());
    assert_eq!(message, Message::Notification(Notification { method: "all".to_string(), params: copy }));
}

#[test]
fn floats_travel_by_their_bits() {
    let bytes = Message::Notification(Notification {
        method: "f".to_string(),
        params: vec![WireValue::F32(0x3fc0_0000), WireValue::F64(0x7ff8_0000_0000_0001)],
    })
    .pack();
    assert_eq!(
        bytes,
        vec![
            0x93, 0x02, 0xa1, b'f', 0x92, 0xca, 0x3f, 0xc0, 0x00, 0x00, 0xcb, 0x7f, 0xf8, 0x00, 0x00,
            0x00, 0x00, 0x00, 0x01
        ]
    );
    match Message::decode(&bytes).unwrap().0 {
        Message::Notification(n) => {
            assert_eq!(n.params, vec![WireValue::F32(0x3fc0_0000), WireValue::F64(0x7ff8_0000_0000_0001)]);
        }
        other => panic!("unexpected message {:?}", other),
    }
}

#[test]
fn a_string_that_is_not_utf8_is_kept_as_bytes() {
    let bytes = [0x93, 0x02, 0xa1, b'm', 0x91, 0xa2, 0xff, 0xfe];
    match Message::decode(&bytes).unwrap().0 {
        Message::Notification(n) => {
            assert_eq!(n.params, vec![WireValue::RawString(vec![0xff, 0xfe])]);
            assert_eq!(n.params[0].as_str(), None);
            assert_eq!(n.params[0].as_slice(), Some(&[0xff_u8, 0xfe][..]));
        }
        other => panic!("unexpected message {:?}", other),
    }
}

#[test]
fn integers_compare_by_their_number() {
    assert_eq!(Integer::from_u64(5), Integer::from_i64(5));
    assert_ne!(Integer::from_u64(5), Integer::from_i64(-5));
    assert_eq!(Integer::from_i64(-1).as_u64(), None);
    assert_eq!(Integer::from_u64(u64::MAX).as_i64(), None);
    assert_eq!(Integer::from_u64(9).as_i64(), Some(9));
    assert_eq!(WireValue::from_i64(0), WireValue::from_u64(0));
}

#[test]
fn agrees_with_msgpack_rpc() {
    let theirs = msgpack_rpc::message::Message::Request(msgpack_rpc::message::Request {
        id: 77,
        method: "enableApiControl".to_string(),
        params: vec![msgpack_rpc::Value::Boolean(true), msgpack_rpc::Value::String("Drone1".into())],
    })
    .pack()
    .unwrap();
    let ours = Message::Request(Request {
        id: 77,
        method: "enableApiControl".to_string(),
        params: vec![WireValue::Boolean(true), WireValue::from_str("Drone1")],
    })
    .pack();
    assert_eq!(ours, theirs);

    let theirs = msgpack_rpc::message::Message::Response(msgpack_rpc::message::Response {
        id: 77,
        result: Err(msgpack_rpc::Value::from(42)),
    })
    .pack()
    .unwrap();
    let decoded = Message::decode(&theirs).unwrap().0;
    assert_eq!(decoded, Message::Response(Response { id: 77, result: Err(WireValue::from_u64(42)) }));
}
