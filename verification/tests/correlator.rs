use airsim_client::correlator::Correlator;
use airsim_client::message::{Message, Notification, Request, Response};
use airsim_client::pump::{dispatch, dispatch_all, Inbound};
use airsim_client::request_id::{RequestIdCounter, ID_LIMIT};
use airsim_client::value::WireValue;

fn reply(id: u32, value: u64) -> Response {
    Response { id, result: Ok(WireValue::from_u64(value)) }
}

#[test]
fn register_then_resolve() {
    let mut table: Correlator<&str> = Correlator::new();
    assert!(table.is_empty());
    assert_eq!(table.register(3, "three"), Ok(()));
    assert!(table.contains(3));
    assert_eq!(table.len(), 1);
    assert_eq!(table.resolve(3), Some("three"));
    assert!(!table.contains(3));
    assert_eq!(table.len(), 0);
    assert_eq!(table.resolve(3), None);
}

#[test]
fn an_id_in_flight_is_not_taken_again() {
    let mut table: Correlator<&str> = Correlator::new();
    assert_eq!(table.register(3, "first"), Ok(()));
    assert_eq!(table.register(3, "second"), Err("second"));
    assert_eq!(table.len(), 1);
    assert_eq!(table.resolve(3), Some("first"));
    assert_eq!(table.register(3, "third"), Ok(()));
}

#[test]
fn drain_hands_out_every_waiter_once() {
    let mut table: Correlator<String> = Correlator::new();
    for id in 0..50_u32 {
        assert_eq!(table.register(id * 7, format!("w{}", id)), Ok(()));
    }
    let mut ids = table.ids();
    ids.sort();
    assert_eq!(ids, (0..50_u32).map(|id| id * 7).collect::<Vec<u32>>());
    let mut all = table.drain();
    assert!(table.is_empty());
    all.sort();
    let mut expected: Vec<(u32, String)> = (0..50_u32).map(|id| (id * 7, format!("w{}", id))).collect();
    expected.sort();
    assert_eq!(all, expected);
    assert!(table.drain().is_empty());
}

#[test]
fn replies_in_reverse_order_reach_their_own_waiters() {
    let mut table: Correlator<&str> = Correlator::new();
    assert_eq!(table.register(7, "caller of 7"), Ok(()));
    assert_eq!(table.register(8, "caller of 8"), Ok(()));
    let events = dispatch_all(
        &mut table,
        vec![Message::Response(reply(8, 80)), Message::Response(reply(7, 70))],
    );
    assert_eq!(
        events,
        vec![
            Inbound::Deliver { waiter: "caller of 8", response: reply(8, 80) },
            Inbound::Deliver { waiter: "caller of 7", response: reply(7, 70) },
        ]
    );
    assert!(table.is_empty());
}

#[test]
fn every_order_of_three_replies() {
    let orders: [[u32; 3]; 6] = [[1, 2, 3], [1, 3, 2], [2, 1, 3], [2, 3, 1], [3, 1, 2], [3, 2, 1]];
    for order in orders {
        let mut table: Correlator<u32> = Correlator::new();
        for id in 1..=3_u32 {
            assert_eq!(table.register(id, id * 100), Ok(()));
        }
        let messages = order.iter().map(|id| Message::Response(reply(*id, 1))).collect();
        let events = dispatch_all(&mut table, messages);
        for (event, id) in events.iter().zip(order.iter()) {
            assert_eq!(*event, Inbound::Deliver { waiter: id * 100, response: reply(*id, 1) });
        }
        assert!(table.is_empty());
    }
}

#[test]
fn a_reply_that_nobody_waits_for_changes_nothing() {
    let mut table: Correlator<&str> = Correlator::new();
    assert_eq!(table.register(1, "one"), Ok(()));
    let event = dispatch(&mut table, Message::Response(reply(99, 0)));
    assert_eq!(event, Inbound::Unmatched { response: reply(99, 0) });
    assert_eq!(table.len(), 1);
    let event = dispatch(&mut table, Message::Response(reply(1, 5)));
    assert_eq!(event, Inbound::Deliver { waiter: "one", response: reply(1, 5) });
    // the same id a second time finds no waiter
    let event = dispatch(&mut table, Message::Response(reply(1, 5)));
    assert_eq!(event, Inbound::Unmatched { response: reply(1, 5) });
}

#[test]
fn messages_from_the_peer_are_handed_on() {
    let mut table: Correlator<&str> = Correlator::new();
    assert_eq!(table.register(1, "one"), Ok(()));
    let events = dispatch_all(
        &mut table,
        vec![
            Message::Request(Request { id: 1, method: "ask".to_string(), params: Vec::new() }),
            Message::Notification(Notification { method: "tell".to_string(), params: Vec::new() }),
        ],
    );
    assert_eq!(
        events,
        vec![
            Inbound::Request(Request { id: 1, method: "ask".to_string(), params: Vec::new() }),
            Inbound::Notification(Notification { method: "tell".to_string(), params: Vec::new() }),
        ]
    );
    assert!(table.contains(1));
}

#[test]
fn ids_count_up_from_zero() {
    let mut ids = RequestIdCounter::new();
    assert_eq!(ids.new_request_id(), 0);
    assert_eq!(ids.new_request_id(), 1);
    assert_eq!(ids.new_request_id(), 2);
}

#[test]
fn ids_start_again_at_zero() {
    assert_eq!(ID_LIMIT, u32::MAX);
    let mut ids = RequestIdCounter::starting_at(u32::MAX - 2);
    assert_eq!(ids.new_request_id(), u32::MAX - 2);
    assert_eq!(ids.new_request_id(), u32::MAX - 1);
    assert_eq!(ids.new_request_id(), 0);
    assert_eq!(ids.new_request_id(), 1);
    let mut ids = RequestIdCounter::starting_at(u32::MAX);
    assert_eq!(ids.new_request_id(), 0);
}
