//! Routing of the messages that arrive.
//!
//! A response goes to the waiter registered under its id, which thereby leaves
//! the table. A response that nobody waits for is handed on as such, so that
//! it can be reported; it changes nothing for the requests in flight. Requests
//! and notifications from the peer are handed on unchanged.

use crate::correlator::Correlator;
use crate::message::{
    Message, MessageModel, Notification, NotificationModel, Request, RequestModel, Response,
    ResponseModel,
};
use vstd::prelude::*;

verus! {

/// One message that arrived, with where it goes.
#[derive(Debug, PartialEq, Eq)]
pub enum Inbound<W> {
    /// A response, and the waiter that was registered under its id.
    Deliver { waiter: W, response: Response },
    /// A response whose id is not in flight.
    Unmatched { response: Response },
    /// A request made by the peer.
    Request(Request),
    /// A notification sent by the peer.
    Notification(Notification),
}

/// The mathematical content of an [`Inbound`].
pub enum InboundModel<W> {
    Deliver { waiter: W, response: ResponseModel },
    Unmatched { response: ResponseModel },
    Request(RequestModel),
    Notification(NotificationModel),
}

impl<W> View for Inbound<W> {
    type V = InboundModel<W>;

    open spec fn view(&self) -> InboundModel<W> {
        match self {
            Inbound::Deliver { waiter, response } => InboundModel::Deliver {
                waiter: *waiter,
                response: response@,
            },
            Inbound::Unmatched { response } => InboundModel::Unmatched { response: response@ },
            Inbound::Request(request) => InboundModel::Request(request@),
            Inbound::Notification(notification) => InboundModel::Notification(notification@),
        }
    }
}

/// The models of a sequence of routed messages, one by one.
pub open spec fn inbound_models<W>(events: Seq<Inbound<W>>) -> Seq<InboundModel<W>> {
    Seq::new(events.len(), |i: int| events[i]@)
}

/// A table of waiters and the routed messages that came out of it.
pub struct Routed<W> {
    /// The waiters that are still registered.
    pub waiters: Map<u32, W>,
    /// The routed messages, in arrival order.
    pub events: Seq<InboundModel<W>>,
}

/// Where one message goes, and the table after it.
pub open spec fn route_one<W>(waiters: Map<u32, W>, message: MessageModel) -> Routed<W> {
    match message {
        MessageModel::Response(response) => if waiters.contains_key(response.id) {
            Routed {
                waiters: waiters.remove(response.id),
                events: seq![InboundModel::Deliver { waiter: waiters[response.id], response }],
            }
        } else {
            Routed { waiters, events: seq![InboundModel::Unmatched { response }] }
        },
        MessageModel::Request(request) => Routed {
            waiters,
            events: seq![InboundModel::Request(request)],
        },
        MessageModel::Notification(notification) => Routed {
            waiters,
            events: seq![InboundModel::Notification(notification)],
        },
    }
}

/// Where each of `messages` goes when they are routed in arrival order, and
/// the table after the last of them.
pub open spec fn route<W>(waiters: Map<u32, W>, messages: Seq<MessageModel>) -> Routed<W>
    decreases messages.len(),
{
    if messages.len() == 0 {
        Routed { waiters, events: Seq::empty() }
    } else {
        let now = route_one(waiters, messages.first());
        let later = route(now.waiters, messages.drop_first());
        Routed { waiters: later.waiters, events: now.events + later.events }
    }
}

/// Routes one message.
pub fn dispatch<W>(table: &mut Correlator<W>, message: Message) -> (out: Inbound<W>)
    ensures
        route_one(old(table)@, message@) == (Routed { waiters: final(table)@, events: seq![out@] }),
{
    match message {
        Message::Response(response) => match table.resolve(response.id) {
            Some(waiter) => Inbound::Deliver { waiter, response },
            None => {
                assert(table@ =~= old(table)@);
                Inbound::Unmatched { response }
            },
        },
        Message::Request(request) => Inbound::Request(request),
        Message::Notification(notification) => Inbound::Notification(notification),
    }
}

/// Routes messages in arrival order.
pub fn dispatch_all<W>(table: &mut Correlator<W>, messages: Vec<Message>) -> (out: Vec<Inbound<W>>)
    ensures
        route(old(table)@, crate::frame::message_models(messages@)) == (Routed {
            waiters: final(table)@,
            events: inbound_models(out@),
        }),
{
    let ghost all = crate::frame::message_models(messages@);
    let ghost given = messages@;
    let mut out: Vec<Inbound<W>> = Vec::new();
    assert(all.skip(0) =~= all);
    assert(inbound_models(out@) + route(table@, all).events =~= route(table@, all).events);
    for message in iter: messages
        invariant
            iter.seq() == given,
            all == crate::frame::message_models(given),
            route(old(table)@, all).waiters == route(table@, all.skip(iter.index() as int)).waiters,
            route(old(table)@, all).events == inbound_models(out@) + route(
                table@,
                all.skip(iter.index() as int),
            ).events,
    {
        let ghost at = iter.index() as int;
        let ghost done = inbound_models(out@);
        assert(message@ == all[at]);
        assert(all.skip(at).first() == all[at]);
        assert(all.skip(at).drop_first() =~= all.skip(at + 1));
        let event = dispatch(table, message);
        out.push(event);
        assert(inbound_models(out@) =~= done + seq![event@]);
        assert(done + (seq![event@] + route(table@, all.skip(at + 1)).events) =~= (done
            + seq![event@]) + route(table@, all.skip(at + 1)).events);
    }
    assert(all.skip(all.len() as int) =~= Seq::<MessageModel>::empty());
    assert(inbound_models(out@) + Seq::<InboundModel<W>>::empty() =~= inbound_models(out@));
    out
}

/// The table after each of `calls`, an id and its waiter, has been registered
/// in turn; a call whose id is in flight by then is not entered.
pub open spec fn register_all<W>(waiters: Map<u32, W>, calls: Seq<(u32, W)>) -> Map<u32, W>
    decreases calls.len(),
{
    if calls.len() == 0 {
        waiters
    } else {
        let earlier = register_all(waiters, calls.drop_last());
        if earlier.contains_key(calls.last().0) {
            earlier
        } else {
            earlier.insert(calls.last().0, calls.last().1)
        }
    }
}

/// The messages that a sequence of responses arrives as.
pub open spec fn response_messages(responses: Seq<ResponseModel>) -> Seq<MessageModel> {
    Seq::new(responses.len(), |i: int| MessageModel::Response(responses[i]))
}

/// Responses whose ids are in flight, and differ from one another, are each
/// delivered to the waiter registered under their id, whatever order they come
/// in; the ids answered leave the table and the others stay as they were.
pub proof fn lemma_answers_reach_waiters<W>(waiters: Map<u32, W>, responses: Seq<ResponseModel>)
    requires
        forall|i: int| 0 <= i < responses.len() ==> waiters.contains_key((#[trigger] responses[i]).id),
        forall|i: int, j: int|
            0 <= i < j < responses.len() ==> (#[trigger] responses[i]).id != (
            #[trigger] responses[j]).id,
    ensures
        route(waiters, response_messages(responses)).events == Seq::new(
            responses.len(),
            |i: int|
                InboundModel::Deliver { waiter: waiters[responses[i].id], response: responses[i] },
        ),
        forall|id: u32|
            #![trigger route(waiters, response_messages(responses)).waiters.contains_key(id)]
            route(waiters, response_messages(responses)).waiters.contains_key(id) <==> (
            waiters.contains_key(id) && forall|i: int|
                0 <= i < responses.len() ==> (#[trigger] responses[i]).id != id),
        forall|id: u32|
            #![trigger route(waiters, response_messages(responses)).waiters[id]]
            route(waiters, response_messages(responses)).waiters.contains_key(id) ==> route(
                waiters,
                response_messages(responses),
            ).waiters[id] == waiters[id],
    decreases responses.len(),
{
    let messages = response_messages(responses);
    let expected = Seq::new(
        responses.len(),
        |i: int| InboundModel::Deliver { waiter: waiters[responses[i].id], response: responses[i] },
    );
    if responses.len() == 0 {
        assert(route(waiters, messages).events =~= expected);
    } else {
        let first = responses.first();
        let rest = responses.drop_first();
        let after = waiters.remove(first.id);
        assert(messages.first() == MessageModel::Response(first));
        assert(messages.drop_first() =~= response_messages(rest));
        assert forall|i: int| 0 <= i < rest.len() implies after.contains_key(
            (#[trigger] rest[i]).id,
        ) by {
            assert(rest[i] == responses[i + 1]);
        }
        assert forall|i: int, j: int| 0 <= i < j < rest.len() implies (#[trigger] rest[i]).id != (
        #[trigger] rest[j]).id by {
            assert(rest[i] == responses[i + 1]);
            assert(rest[j] == responses[j + 1]);
        }
        lemma_answers_reach_waiters(after, rest);
        let later = route(after, response_messages(rest));
        assert(route(waiters, messages).waiters == later.waiters);
        assert forall|i: int| 0 <= i < rest.len() implies after[(#[trigger] rest[i]).id]
            == waiters[rest[i].id] by {
            assert(rest[i] == responses[i + 1]);
        }
        assert(route(waiters, messages).events =~= expected) by {
            assert forall|i: int| 0 <= i < expected.len() implies route(waiters, messages).events[i]
                == expected[i] by {
                if i > 0 {
                    assert(rest[i - 1] == responses[i]);
                }
            }
        }
        assert forall|id: u32|
            #![trigger route(waiters, messages).waiters.contains_key(id)]
            route(waiters, messages).waiters.contains_key(id) <==> (waiters.contains_key(id)
                && forall|i: int| 0 <= i < responses.len() ==> (#[trigger] responses[i]).id != id) by {
            if later.waiters.contains_key(id) {
                assert forall|i: int| 0 <= i < responses.len() implies (#[trigger] responses[i]).id
                    != id by {
                    if i > 0 {
                        assert(rest[i - 1] == responses[i]);
                    }
                }
            }
            if waiters.contains_key(id) && forall|i: int|
                0 <= i < responses.len() ==> (#[trigger] responses[i]).id != id {
                assert(responses[0].id != id);
                assert forall|i: int| 0 <= i < rest.len() implies (#[trigger] rest[i]).id != id by {
                    assert(rest[i] == responses[i + 1]);
                }
            }
        }
    }
}

/// Correlation: when requests with different ids, none of them in flight
/// before, have been registered, each with its own waiter, and their responses
/// come back in any order, every response is delivered to the waiter of the
/// request that it answers.
///
/// `origin[k]` is the position in `calls` of the request that the `k`-th
/// response answers; no two responses answer the same request.
pub proof fn lemma_correlation<W>(
    waiters: Map<u32, W>,
    calls: Seq<(u32, W)>,
    responses: Seq<ResponseModel>,
    origin: Seq<int>,
)
    requires
        forall|i: int| 0 <= i < calls.len() ==> !waiters.contains_key((#[trigger] calls[i]).0),
        forall|i: int, j: int|
            0 <= i < j < calls.len() ==> (#[trigger] calls[i]).0 != (#[trigger] calls[j]).0,
        origin.len() == responses.len(),
        forall|k: int| 0 <= k < origin.len() ==> 0 <= #[trigger] origin[k] < calls.len(),
        forall|k: int, l: int|
            0 <= k < l < origin.len() ==> #[trigger] origin[k] != #[trigger] origin[l],
        forall|k: int|
            0 <= k < responses.len() ==> (#[trigger] responses[k]).id == calls[origin[k]].0,
    ensures
        route(register_all(waiters, calls), response_messages(responses)).events == Seq::new(
            responses.len(),
            |k: int| InboundModel::Deliver { waiter: calls[origin[k]].1, response: responses[k] },
        ),
{
    let table = register_all(waiters, calls);
    lemma_register_all(waiters, calls);
    assert forall|k: int| 0 <= k < responses.len() implies table.contains_key(
        (#[trigger] responses[k]).id,
    ) by {
        assert(table.contains_pair(calls[origin[k]].0, calls[origin[k]].1));
    }
    assert forall|k: int, l: int| 0 <= k < l < responses.len() implies (#[trigger] responses[k]).id
        != (#[trigger] responses[l]).id by {
        assert(origin[k] != origin[l]);
        if origin[k] < origin[l] {
            assert(calls[origin[k]].0 != calls[origin[l]].0);
        } else {
            assert(calls[origin[l]].0 != calls[origin[k]].0);
        }
    }
    lemma_answers_reach_waiters(table, responses);
    assert forall|k: int| 0 <= k < responses.len() implies table[(#[trigger] responses[k]).id]
        == calls[origin[k]].1 by {
        assert(table.contains_pair(calls[origin[k]].0, calls[origin[k]].1));
    }
    assert(route(table, response_messages(responses)).events =~= Seq::new(
        responses.len(),
        |k: int| InboundModel::Deliver { waiter: calls[origin[k]].1, response: responses[k] },
    ));
}

/// After requests with different ids, none of them in flight before, have
/// been registered, the table holds each of them with its own waiter, and
/// beside them only what it held before.
proof fn lemma_register_all<W>(waiters: Map<u32, W>, calls: Seq<(u32, W)>)
    requires
        forall|i: int| 0 <= i < calls.len() ==> !waiters.contains_key((#[trigger] calls[i]).0),
        forall|i: int, j: int|
            0 <= i < j < calls.len() ==> (#[trigger] calls[i]).0 != (#[trigger] calls[j]).0,
    ensures
        forall|i: int|
            0 <= i < calls.len() ==> register_all(waiters, calls).contains_pair(
                (#[trigger] calls[i]).0,
                calls[i].1,
            ),
        forall|id: u32| #[trigger]
            register_all(waiters, calls).contains_key(id) ==> waiters.contains_key(id) || exists|
                i: int,
            |
                0 <= i < calls.len() && (#[trigger] calls[i]).0 == id,
    decreases calls.len(),
{
    if calls.len() > 0 {
        let earlier = calls.drop_last();
        assert forall|i: int| 0 <= i < earlier.len() implies !waiters.contains_key(
            (#[trigger] earlier[i]).0,
        ) by {
            assert(earlier[i] == calls[i]);
        }
        assert forall|i: int, j: int| 0 <= i < j < earlier.len() implies (#[trigger] earlier[i]).0
            != (#[trigger] earlier[j]).0 by {
            assert(earlier[i] == calls[i]);
            assert(earlier[j] == calls[j]);
        }
        lemma_register_all(waiters, earlier);
        let last = calls.last();
        assert(!register_all(waiters, earlier).contains_key(last.0)) by {
            if register_all(waiters, earlier).contains_key(last.0) {
                let i = choose|i: int| 0 <= i < earlier.len() && (#[trigger] earlier[i]).0 == last.0;
                assert(earlier[i] == calls[i]);
                assert(calls[i].0 != calls[calls.len() - 1].0);
            }
        }
        assert forall|id: u32| #[trigger]
            register_all(waiters, calls).contains_key(id) implies waiters.contains_key(id)
            || exists|i: int| 0 <= i < calls.len() && (#[trigger] calls[i]).0 == id by {
            if id == last.0 {
                assert(calls[calls.len() - 1].0 == id);
            } else if !waiters.contains_key(id) {
                let i = choose|i: int| 0 <= i < earlier.len() && (#[trigger] earlier[i]).0 == id;
                assert(calls[i].0 == id);
            }
        }
        assert forall|i: int| 0 <= i < calls.len() implies register_all(
            waiters,
            calls,
        ).contains_pair((#[trigger] calls[i]).0, calls[i].1) by {
            if i < calls.len() - 1 {
                assert(earlier[i] == calls[i]);
                assert(calls[i].0 != calls[calls.len() - 1].0);
            }
        }
    }
}

/// Whether `event` hands `waiter` the response to `id`.
pub open spec fn hands_over<W>(event: InboundModel<W>, id: u32, waiter: W) -> bool {
    match event {
        InboundModel::Deliver { waiter: given, response } => given == waiter && response.id == id,
        _ => false,
    }
}

/// Whether one of `events` hands `waiter` the response to `id`.
pub open spec fn delivers<W>(events: Seq<InboundModel<W>>, id: u32, waiter: W) -> bool {
    exists|k: int| 0 <= k < events.len() && hands_over(#[trigger] events[k], id, waiter)
}

/// Once the response to an id has been routed, the id is no longer
/// registered, whether or not a waiter was found for it.
pub proof fn lemma_answered_id_leaves<W>(waiters: Map<u32, W>, response: ResponseModel)
    ensures
        !route_one(waiters, MessageModel::Response(response)).waiters.contains_key(response.id),
{
}

/// Routing loses no waiter and invents none. A waiter that was registered is
/// afterwards either still registered under its id or was handed the response
/// to its id; and whoever is registered afterwards was registered before,
/// under the same id.
pub proof fn lemma_route_keeps_account<W>(waiters: Map<u32, W>, messages: Seq<MessageModel>)
    ensures
        forall|id: u32| #[trigger]
            waiters.contains_key(id) ==> route(waiters, messages).waiters.contains_pair(
                id,
                waiters[id],
            ) || delivers(route(waiters, messages).events, id, waiters[id]),
        forall|id: u32| #[trigger]
            route(waiters, messages).waiters.contains_key(id) ==> waiters.contains_pair(
                id,
                route(waiters, messages).waiters[id],
            ),
    decreases messages.len(),
{
    if messages.len() > 0 {
        let now = route_one(waiters, messages.first());
        let later = route(now.waiters, messages.drop_first());
        let all = route(waiters, messages);
        lemma_route_keeps_account(now.waiters, messages.drop_first());
        assert forall|id: u32| #[trigger] waiters.contains_key(id) implies all.waiters.contains_pair(
            id,
            waiters[id],
        ) || delivers(all.events, id, waiters[id]) by {
            if now.waiters.contains_key(id) {
                assert(now.waiters[id] == waiters[id]);
                if !later.waiters.contains_pair(id, waiters[id]) {
                    assert(delivers(later.events, id, waiters[id]));
                    let k = choose|k: int|
                        0 <= k < later.events.len() && hands_over(
                            #[trigger] later.events[k],
                            id,
                            waiters[id],
                        );
                    assert(hands_over(all.events[k + 1], id, waiters[id]));
                }
            } else {
                assert(hands_over(all.events[0], id, waiters[id]));
            }
        }
    }
}

} // verus!
