use airsim_client::error::{CloseReason, DecodeError, NetworkError};
use airsim_client::message::{Message, Notification, Request, Response};
use airsim_client::msgpack::{ConnectionState, MsgPackClient};
use airsim_client::pump::Inbound;
use airsim_client::value::WireValue;

fn running() -> MsgPackClient<&'static str> {
    let mut client = MsgPackClient::new();
    client.connected();
    client
}

fn call(id: u32, method: &str) -> Request {
    Request { id, method: method.to_string(), params: Vec::new() }
}

fn reply_bytes(id: u32, value: WireValue) -> Vec<u8> {
    Message::Response(Response { id, result: Ok(value) }).pack()
}

#[test]
fn ping_is_answered_with_true() {
    let mut client = running();
    let bytes = client.request(call(0, "ping"), "caller").unwrap();
    assert_eq!(bytes, vec![0x94, 0x00, 0x00, 0xa4, b'p', b'i', b'n', b'g', 0x90]);
    assert_eq!(client.in_flight(), 1);

    let received = client.receive(&reply_bytes(0, WireValue::Boolean(true)));
    assert_eq!(received.failure, None);
    assert!(received.failed.is_empty());
    assert_eq!(received.events.len(), 1);
    match &received.events[0] {
        Inbound::Deliver { waiter, response } => {
            assert_eq!(*waiter, "caller");
            assert_eq!(response.id, 0);
            assert_eq!(response.result, Ok(WireValue::Boolean(true)));
        }
        other => panic!("unexpected routing {:?}", other),
    }
    assert_eq!(client.in_flight(), 0);
    assert_eq!(client.state(), ConnectionState::Running);
}

#[test]
fn replies_to_seven_and_eight_are_not_swapped() {
    let mut client: MsgPackClient<String> = MsgPackClient::new();
    client.connected();
    client.request(call(7, "a"), "caller of 7".to_string()).unwrap();
    client.request(call(8, "b"), "caller of 8".to_string()).unwrap();

    let mut bytes = reply_bytes(8, WireValue::from_str("for eight"));
    bytes.extend(reply_bytes(7, WireValue::from_str("for seven")));
    let received = client.receive(&bytes);
    assert_eq!(
        received.events,
        vec![
            Inbound::Deliver {
                waiter: "caller of 8".to_string(),
                response: Response { id: 8, result: Ok(WireValue::from_str("for eight")) },
            },
            Inbound::Deliver {
                waiter: "caller of 7".to_string(),
                response: Response { id: 7, result: Ok(WireValue::from_str("for seven")) },
            },
        ]
    );
    assert_eq!(client.in_flight(), 0);
}

#[test]
fn a_reply_split_over_three_reads() {
    let mut client = running();
    client.request(call(0, "ping"), "caller").unwrap();
    let bytes = reply_bytes(0, WireValue::from_str("pong"));
    assert_eq!(bytes.len(), 9);

    let first = client.receive(&bytes[0..3]);
    assert!(first.events.is_empty());
    assert_eq!(first.failure, None);
    assert_eq!(client.pending(), 3);
    let second = client.receive(&bytes[3..7]);
    assert!(second.events.is_empty());
    assert_eq!(client.pending(), 7);
    assert_eq!(client.in_flight(), 1);
    let third = client.receive(&bytes[7..9]);
    assert_eq!(
        third.events,
        vec![Inbound::Deliver {
            waiter: "caller",
            response: Response { id: 0, result: Ok(WireValue::from_str("pong")) },
        }]
    );
    assert_eq!(client.pending(), 0);
}

#[test]
fn an_unknown_id_is_reported_and_the_rest_goes_on() {
    let mut client = running();
    client.request(call(0, "ping"), "caller").unwrap();
    let received = client.receive(&reply_bytes(4242, WireValue::Nil));
    assert_eq!(
        received.events,
        vec![Inbound::Unmatched { response: Response { id: 4242, result: Ok(WireValue::Nil) } }]
    );
    assert_eq!(received.failure, None);
    assert!(received.failed.is_empty());
    assert_eq!(client.state(), ConnectionState::Running);
    assert_eq!(client.in_flight(), 1);

    let received = client.receive(&reply_bytes(0, WireValue::Boolean(true)));
    assert_eq!(
        received.events,
        vec![Inbound::Deliver {
            waiter: "caller",
            response: Response { id: 0, result: Ok(WireValue::Boolean(true)) },
        }]
    );
}

#[test]
fn an_error_reply_is_delivered_as_such() {
    let mut client = running();
    client.request(call(0, "land"), "caller").unwrap();
    let bytes = Message::Response(Response { id: 0, result: Err(WireValue::from_str("busy")) })
        .pack();
    let received = client.receive(&bytes);
    assert_eq!(
        received.events,
        vec![Inbound::Deliver {
            waiter: "caller",
            response: Response { id: 0, result: Err(WireValue::from_str("busy")) },
        }]
    );
    assert_eq!(client.state(), ConnectionState::Running);
}

#[test]
fn bytes_that_are_no_message_fail_every_waiter() {
    let mut client = running();
    client.request(call(0, "a"), "caller a").unwrap();
    client.request(call(1, "b"), "caller b").unwrap();
    client.request(call(2, "c"), "caller c").unwrap();

    let mut bytes = reply_bytes(0, WireValue::Nil);
    bytes.push(0x07);
    let mut received = client.receive(&bytes);
    assert_eq!(
        received.events,
        vec![Inbound::Deliver {
            waiter: "caller a",
            response: Response { id: 0, result: Ok(WireValue::Nil) }
        }]
    );
    assert_eq!(received.failure, Some(DecodeError::Invalid));
    received.failed.sort();
    assert_eq!(received.failed, vec![(1, "caller b"), (2, "caller c")]);
    assert_eq!(
        client.state(),
        ConnectionState::Terminated(CloseReason::Decode(DecodeError::Invalid))
    );
    assert_eq!(client.in_flight(), 0);

    // later calls fail at once: they cannot be sent
    let refused = NetworkError::Send {
        message: "the connection is closed: the bytes received were no message".to_string(),
    };
    assert_eq!(
        NetworkError::refused_after(CloseReason::Decode(DecodeError::Invalid)),
        refused.clone()
    );
    assert_eq!(client.request(call(3, "d"), "caller d"), Err((refused.clone(), "caller d")));
    assert_eq!(
        client.notify(Notification { method: "n".to_string(), params: Vec::new() }),
        Err(refused)
    );
    // and later bytes are dropped
    let after = client.receive(&reply_bytes(1, WireValue::Nil));
    assert!(after.events.is_empty());
    assert!(after.failed.is_empty());
    assert_eq!(after.failure, None);
}

#[test]
fn a_failed_write_fails_every_waiter() {
    let mut client = running();
    client.request(call(0, "a"), "caller a").unwrap();
    client.request(call(1, "b"), "caller b").unwrap();
    let mut failed = client.close(CloseReason::WriteFailed);
    failed.sort();
    assert_eq!(failed, vec![(0, "caller a"), (1, "caller b")]);
    assert_eq!(client.state(), ConnectionState::Terminated(CloseReason::WriteFailed));
    assert_eq!(client.in_flight(), 0);
    let refused =
        NetworkError::Send { message: "the connection is closed: a write failed".to_string() };
    assert_eq!(client.request(call(2, "c"), "caller c"), Err((refused.clone(), "caller c")));
    assert_eq!(
        client.notify(Notification { method: "n".to_string(), params: Vec::new() }),
        Err(refused)
    );
    // the first reason stays
    assert!(client.close(CloseReason::Disconnected).is_empty());
    assert_eq!(client.state(), ConnectionState::Terminated(CloseReason::WriteFailed));
    // a connection that has ended does not start again
    client.connected();
    assert_eq!(client.state(), ConnectionState::Terminated(CloseReason::WriteFailed));
}

#[test]
fn nothing_is_sent_before_the_socket_is_open() {
    let mut client: MsgPackClient<&str> = MsgPackClient::new();
    assert_eq!(client.state(), ConnectionState::Connecting);
    assert_eq!(
        client.request(call(0, "ping"), "caller"),
        Err((
            NetworkError::Send { message: "the connection is not established yet".to_string() },
            "caller"
        ))
    );
    assert_eq!(
        client.notify(Notification { method: "ping".to_string(), params: Vec::new() }),
        Err(NetworkError::Send { message: "the connection is not established yet".to_string() })
    );
    assert_eq!(client.in_flight(), 0);
    client.connected();
    assert_eq!(client.state(), ConnectionState::Running);
    assert!(client.request(call(0, "ping"), "caller").is_ok());
}

#[test]
fn an_id_still_in_flight_is_not_reused() {
    let mut client = running();
    assert!(client.request(call(5, "a"), "first").is_ok());
    assert_eq!(
        client.request(call(5, "b"), "second"),
        Err((
            NetworkError::Send { message: "the request id is still in flight".to_string() },
            "second"
        ))
    );
    assert_eq!(client.in_flight(), 1);
    // the waiter registered first is the one that gets the reply
    let received = client.receive(&reply_bytes(5, WireValue::Nil));
    assert_eq!(
        received.events,
        vec![Inbound::Deliver {
            waiter: "first",
            response: Response { id: 5, result: Ok(WireValue::Nil) }
        }]
    );
    // once answered, the id can be taken again
    assert!(client.request(call(5, "c"), "third").is_ok());
}

#[test]
fn notify_encodes_without_registering() {
    let client = running();
    let bytes = client
        .notify(Notification { method: "tick".to_string(), params: vec![WireValue::from_u64(3)] })
        .unwrap();
    assert_eq!(bytes, vec![0x93, 0x02, 0xa4, b't', b'i', b'c', b'k', 0x91, 0x03]);
    assert_eq!(client.in_flight(), 0);
}

#[test]
fn requests_from_the_peer_are_handed_on() {
    let mut client = running();
    let bytes = Message::Request(call(5, "hello")).pack();
    let received = client.receive(&bytes);
    assert_eq!(received.events, vec![Inbound::Request(call(5, "hello"))]);
}

#[test]
fn a_peer_that_goes_away_fails_every_waiter() {
    let mut client = running();
    client.request(call(0, "a"), "caller a").unwrap();
    let failed = client.close(CloseReason::Disconnected);
    assert_eq!(failed, vec![(0, "caller a")]);
    assert_eq!(NetworkError::after_close(CloseReason::Disconnected), NetworkError::Io);
    assert_eq!(
        NetworkError::after_close(CloseReason::Decode(DecodeError::DepthLimitExceeded)),
        NetworkError::Decode(DecodeError::DepthLimitExceeded)
    );
    assert!(DecodeError::Truncated.recoverable());
    assert!(!DecodeError::Invalid.recoverable());
}

#[test]
fn a_cancelled_request_gets_no_reply() {
    let mut client = running();
    client.request(call(0, "slow"), "caller").unwrap();
    client.request(call(1, "other"), "other caller").unwrap();
    assert_eq!(client.cancel(0), Some("caller"));
    assert_eq!(client.cancel(0), None);
    assert_eq!(client.in_flight(), 1);
    // the reply that comes after all finds no waiter, and harms nobody
    let received = client.receive(&reply_bytes(0, WireValue::Nil));
    assert_eq!(
        received.events,
        vec![Inbound::Unmatched { response: Response { id: 0, result: Ok(WireValue::Nil) } }]
    );
    assert_eq!(client.state(), ConnectionState::Running);
    assert_eq!(client.in_flight(), 1);
}

#[test]
fn what_errors_say() {
    assert_eq!(NetworkError::Recv.to_text(), "received because the channel is empty or closed");
    assert_eq!(NetworkError::Io.to_text(), "issue with read or write I/O operation");
    assert_eq!(
        NetworkError::Send { message: "queue closed".to_string() }.to_text(),
        "Could not send message: queue closed"
    );
    assert_eq!(
        NetworkError::Decode(DecodeError::Invalid).to_text(),
        "Could not decode the message that was received"
    );
    assert_eq!(NetworkError::Cancelled.to_text(), "the request was cancelled");
    assert_eq!(NetworkError::TimedOut.to_text(), "no response came in time");
}

#[test]
fn a_read_of_no_bytes_ends_the_connection() {
    let mut client = running();
    client.request(call(0, "a"), "caller a").unwrap();
    let out = client.after_read(Some(&[]));
    assert!(out.events.is_empty());
    assert_eq!(out.failure, None);
    assert_eq!(out.failed, vec![(0, "caller a")]);
    assert_eq!(client.state(), ConnectionState::Terminated(CloseReason::Disconnected));
    assert_eq!(
        client.notify(Notification { method: "n".to_string(), params: Vec::new() }),
        Err(NetworkError::Send { message: "the connection is closed: the peer is gone".to_string() })
    );
    // what the waiter that was in flight is told
    assert_eq!(NetworkError::after_close(CloseReason::Disconnected), NetworkError::Io);
}

#[test]
fn a_failed_read_ends_the_connection() {
    let mut client = running();
    client.request(call(0, "a"), "caller a").unwrap();
    client.request(call(1, "b"), "caller b").unwrap();
    let mut out = client.after_read(None);
    out.failed.sort();
    assert_eq!(out.failed, vec![(0, "caller a"), (1, "caller b")]);
    assert_eq!(client.state(), ConnectionState::Terminated(CloseReason::Disconnected));
    assert_eq!(client.in_flight(), 0);
}

#[test]
fn a_read_of_bytes_is_taken_in() {
    let mut client = running();
    client.request(call(0, "ping"), "caller").unwrap();
    let bytes = reply_bytes(0, WireValue::Boolean(true));
    let first = client.after_read(Some(&bytes[..4]));
    assert!(first.events.is_empty());
    assert!(first.failed.is_empty());
    assert_eq!(client.pending(), 4);
    assert_eq!(client.state(), ConnectionState::Running);
    let second = client.after_read(Some(&bytes[4..]));
    assert_eq!(
        second.events,
        vec![Inbound::Deliver {
            waiter: "caller",
            response: Response { id: 0, result: Ok(WireValue::Boolean(true)) },
        }]
    );
    assert_eq!(client.pending(), 0);
}

#[test]
fn only_a_failed_write_ends_the_connection() {
    let mut client = running();
    client.request(call(0, "a"), "caller a").unwrap();
    assert!(client.after_write(true).is_empty());
    assert_eq!(client.state(), ConnectionState::Running);
    assert_eq!(client.in_flight(), 1);
    assert_eq!(client.after_write(false), vec![(0, "caller a")]);
    assert_eq!(client.state(), ConnectionState::Terminated(CloseReason::WriteFailed));
}

#[test]
fn a_running_connection_takes_every_request_with_a_free_id() {
    let mut client = running();
    for id in 0..100_u32 {
        let bytes = client.request(call(id, "m"), "caller").unwrap();
        assert_eq!(bytes, Message::Request(call(id, "m")).pack());
    }
    assert_eq!(client.in_flight(), 100);
}
