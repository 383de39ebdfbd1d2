//! The client side of one connection, without its socket.
//!
//! [`MsgPackClient`] holds everything that the connection must remember: its
//! state, the requests in flight and the bytes received but not yet decoded.
//! It never touches a socket. Whoever owns the socket tells the client what
//! happened (bytes arrived, the peer went away, a write failed) and is told
//! what to do (which bytes to write, which waiter gets which response, which
//! waiters to fail).

use crate::correlator::{lists, Correlator};
use crate::error::{closed_text, CloseReason, DecodeError, NetworkError, NetworkErrorModel};
use crate::frame::{run, FrameDecoder};
use crate::message::{decoded, encoded, Message, MessageModel, Notification, Request};
use crate::pump::{dispatch_all, inbound_models, route, Inbound};
use vstd::prelude::*;

verus! {

/// Where a connection stands. It starts as `Connecting`, becomes `Running`
/// once the socket is open, and ends as `Terminated`; it never leaves
/// `Terminated`.
#[derive(Clone, Copy, Debug, PartialEq, Eq, Structural)]
pub enum ConnectionState {
    /// The socket is not open yet.
    Connecting,
    /// Messages can be sent and received.
    Running,
    /// The connection has ended and cannot be used again.
    Terminated(CloseReason),
}

/// The mathematical content of a [`MsgPackClient`].
pub struct ClientModel<W> {
    /// Where the connection stands.
    pub state: ConnectionState,
    /// The waiter registered under each id in flight.
    pub waiters: Map<u32, W>,
    /// The bytes received and not yet decoded.
    pub pending: Seq<u8>,
}

/// What came of the bytes of one read.
#[derive(Debug, PartialEq, Eq)]
pub struct Received<W> {
    /// The messages that the bytes completed, routed, in arrival order.
    pub events: Vec<Inbound<W>>,
    /// The waiters that will never get a response, each with its id: all that
    /// were in flight when the stream broke, and none otherwise.
    pub failed: Vec<(u32, W)>,
    /// The error that broke the stream, if one did.
    pub failure: Option<DecodeError>,
}

/// The text of the error for a message offered before the socket is open.
pub open spec fn not_connected_text() -> Seq<char> {
    "the connection is not established yet"@
}

/// The text of the error for a request whose id is still in flight.
pub open spec fn id_in_use_text() -> Seq<char> {
    "the request id is still in flight"@
}

/// The error that a message offered in `state` is refused with, if the state
/// refuses messages: the message could not be sent, because the socket is not
/// open yet or because the connection has ended.
pub open spec fn refusal(state: ConnectionState) -> Option<NetworkErrorModel> {
    match state {
        ConnectionState::Connecting => Some(
            NetworkErrorModel::Send { message: not_connected_text() },
        ),
        ConnectionState::Running => None,
        ConnectionState::Terminated(reason) => Some(
            NetworkErrorModel::Send { message: closed_text(reason) },
        ),
    }
}

/// What taking in the bytes of one read does. On a connection that is not
/// running, nothing. On a running connection the bytes join those pending;
/// every whole message at their front is decoded and routed, in arrival order;
/// bytes that end in the middle of a message stay pending. Bytes that do not
/// form a message end the connection, and `failed` then lists every waiter
/// that was still in flight.
pub open spec fn received<W>(
    before: ClientModel<W>,
    after: ClientModel<W>,
    chunk: Seq<u8>,
    out: Received<W>,
) -> bool {
    if before.state is Running {
        let decoded = run(before.pending + chunk);
        let routed = route(before.waiters, decoded.messages);
        &&& inbound_models(out.events@) == routed.events
        &&& out.failure == decoded.failure
        &&& after.pending == decoded.rest
        &&& match decoded.failure {
            None => {
                &&& after.state is Running
                &&& after.waiters == routed.waiters
                &&& out.failed@.len() == 0
            },
            Some(error) => {
                &&& after.state == ConnectionState::Terminated(CloseReason::Decode(error))
                &&& after.waiters == Map::<u32, W>::empty()
                &&& lists(out.failed@, routed.waiters)
            },
        }
    } else {
        &&& after == before
        &&& out.events@.len() == 0
        &&& out.failed@.len() == 0
        &&& out.failure.is_none()
    }
}

/// What offering a notification in `state` gives: its bytes, exactly when the
/// connection is running, and otherwise the error that says why not.
pub open spec fn notified(
    state: ConnectionState,
    notification: crate::message::NotificationModel,
    out: Result<Vec<u8>, NetworkError>,
) -> bool {
    match out {
        Ok(bytes) => {
            &&& state is Running
            &&& bytes@ == encoded(MessageModel::Notification(notification))
        },
        Err(error) => refusal(state) == Some(error@),
    }
}

/// What ending a connection does: `failed` lists every waiter that was in
/// flight, none is in flight afterwards, and the connection is terminated, for
/// `reason` unless it had ended before.
pub open spec fn ended<W>(
    before: ClientModel<W>,
    after: ClientModel<W>,
    reason: CloseReason,
    failed: Vec<(u32, W)>,
) -> bool {
    &&& after.pending == before.pending
    &&& after.waiters == Map::<u32, W>::empty()
    &&& lists(failed@, before.waiters)
    &&& after.state == (if before.state is Terminated {
        before.state
    } else {
        ConnectionState::Terminated(reason)
    })
}

/// What the outcome of one read does. Bytes that were read are taken in, as
/// [`received`] says. A read that brought no bytes, or that failed, means that
/// the peer is gone: the connection ends as [`ended`] says, nothing is
/// delivered, and `failed` lists every waiter that was in flight.
pub open spec fn read_taken<W>(
    before: ClientModel<W>,
    after: ClientModel<W>,
    read: Option<&[u8]>,
    out: Received<W>,
) -> bool {
    match read {
        Some(chunk) if chunk@.len() > 0 => received(before, after, chunk@, out),
        _ => {
            &&& ended(before, after, CloseReason::Disconnected, out.failed)
            &&& out.events@.len() == 0
            &&& out.failure.is_none()
        },
    }
}

/// What the outcome of one write does. A write that went through changes
/// nothing. A write that failed ends the connection as [`ended`] says, and
/// `failed` lists every waiter that was in flight.
pub open spec fn write_taken<W>(
    before: ClientModel<W>,
    after: ClientModel<W>,
    written: bool,
    failed: Vec<(u32, W)>,
) -> bool {
    if written {
        after == before && failed@.len() == 0
    } else {
        ended(before, after, CloseReason::WriteFailed, failed)
    }
}

/// The client side of one connection. `W` is whatever a caller waits with.
pub struct MsgPackClient<W> {
    state: ConnectionState,
    table: Correlator<W>,
    decoder: FrameDecoder,
}

impl<W> View for MsgPackClient<W> {
    type V = ClientModel<W>;

    closed spec fn view(&self) -> ClientModel<W> {
        ClientModel {
            state: self.state,
            waiters: self.table@,
            pending: self.decoder@,
        }
    }
}

impl<W> MsgPackClient<W> {
    /// What holds of every client: no request is in flight on a connection
    /// that has ended.
    pub open spec fn wf(&self) -> bool {
        self@.state is Terminated ==> self@.waiters == Map::<u32, W>::empty()
    }

    /// A client whose socket is not open yet.
    pub fn new() -> (client: Self)
        ensures
            client.wf(),
            client@ == (ClientModel {
                state: ConnectionState::Connecting,
                waiters: Map::<u32, W>::empty(),
                pending: Seq::<u8>::empty(),
            }),
    {
        MsgPackClient {
            state: ConnectionState::Connecting,
            table: Correlator::new(),
            decoder: FrameDecoder::new(),
        }
    }

    /// Where the connection stands.
    pub fn state(&self) -> (state: ConnectionState)
        ensures
            state == self@.state,
    {
        self.state
    }

    /// The number of requests in flight.
    pub fn in_flight(&self) -> (n: usize)
        ensures
            n == self@.waiters.len(),
    {
        self.table.len()
    }

    /// The number of bytes received and not yet decoded.
    pub fn pending(&self) -> (n: usize)
        ensures
            n == self@.pending.len(),
    {
        self.decoder.pending()
    }

    /// Records that the socket is open: `Connecting` becomes `Running`. In any
    /// other state nothing changes.
    pub fn connected(&mut self)
        requires
            old(self).wf(),
        ensures
            final(self).wf(),
            final(self)@ == (ClientModel {
                state: if old(self)@.state is Connecting {
                    ConnectionState::Running
                } else {
                    old(self)@.state
                },
                ..old(self)@
            }),
    {
        match self.state {
            ConnectionState::Connecting => {
                self.state = ConnectionState::Running;
            },
            _ => {},
        }
    }

    /// Prepares a request for sending: registers `waiter` under the request's
    /// id and encodes the request. The waiter is registered by the time the
    /// bytes exist, so that no response can arrive before its waiter is known.
    ///
    /// Succeeds exactly when the connection is running and the id is not in
    /// flight. Otherwise the waiter comes back with the error, and nothing
    /// changes.
    pub fn request(&mut self, request: Request, waiter: W) -> (out: Result<
        Vec<u8>,
        (NetworkError, W),
    >)
        requires
            old(self).wf(),
        ensures
            final(self).wf(),
            final(self)@.state == old(self)@.state,
            final(self)@.pending == old(self)@.pending,
            match out {
                Ok(bytes) => {
                    &&& old(self)@.state is Running
                    &&& !old(self)@.waiters.contains_key(request.id)
                    &&& bytes@ == encoded(MessageModel::Request(request@))
                    &&& final(self)@.waiters == old(self)@.waiters.insert(request.id, waiter)
                },
                Err((error, back)) => {
                    &&& back == waiter
                    &&& final(self)@.waiters == old(self)@.waiters
                    &&& old(self)@.state is Running ==> old(self)@.waiters.contains_key(request.id)
                    &&& error@ == match refusal(old(self)@.state) {
                        Some(refused) => refused,
                        None => NetworkErrorModel::Send { message: id_in_use_text() },
                    }
                },
            },
    {
        match self.state {
            ConnectionState::Connecting => {
                let message = "the connection is not established yet".to_owned();
                return Err((NetworkError::Send { message }, waiter));
            },
            ConnectionState::Terminated(reason) => {
                return Err((NetworkError::refused_after(reason), waiter));
            },
            ConnectionState::Running => {},
        }
        let id = request.id;
        match self.table.register(id, waiter) {
            Ok(()) => Ok(Message::Request(request).pack()),
            Err(back) => {
                let message = "the request id is still in flight".to_owned();
                Err((NetworkError::Send { message }, back))
            },
        }
    }

    /// Encodes a notification for sending. Nothing is registered: no response
    /// will come.
    ///
    /// Succeeds exactly when the connection is running.
    pub fn notify(&self, notification: Notification) -> (out: Result<Vec<u8>, NetworkError>)
        ensures
            notified(self@.state, notification@, out),
    {
        match self.state {
            ConnectionState::Connecting => {
                let message = "the connection is not established yet".to_owned();
                Err(NetworkError::Send { message })
            },
            ConnectionState::Terminated(reason) => Err(NetworkError::refused_after(reason)),
            ConnectionState::Running => Ok(Message::Notification(notification).pack()),
        }
    }

    /// Takes in the bytes of one read: decodes every message that they
    /// complete and routes each, in arrival order.
    ///
    /// Bytes that end in the middle of a message stay pending until the next
    /// read. Bytes that do not form a message break the stream: the connection
    /// is then terminated, and every waiter still in flight is handed back in
    /// `failed`, so that none waits forever. On a connection that is not
    /// running the bytes are dropped and nothing changes.
    pub fn receive(&mut self, chunk: &[u8]) -> (out: Received<W>)
        requires
            old(self).wf(),
        ensures
            final(self).wf(),
            received(old(self)@, final(self)@, chunk@, out),
    {
        match self.state {
            ConnectionState::Running => {},
            _ => {
                return Received { events: Vec::new(), failed: Vec::new(), failure: None };
            },
        }
        self.decoder.feed(chunk);
        let drained = self.decoder.drain();
        let events = dispatch_all(&mut self.table, drained.messages);
        let failed = match drained.failure {
            Some(error) => {
                let failed = self.table.drain();
                self.state = ConnectionState::Terminated(CloseReason::Decode(error));
                failed
            },
            None => Vec::new(),
        };
        Received { events, failed, failure: drained.failure }
    }

    /// Takes in the outcome of one read of the socket: the bytes read, or
    /// `None` for a read that failed. Bytes are decoded and routed as
    /// [`MsgPackClient::receive`] does. A read of no bytes, like a failed one,
    /// ends the connection: every waiter in flight is handed back in `failed`.
    pub fn after_read(&mut self, read: Option<&[u8]>) -> (out: Received<W>)
        requires
            old(self).wf(),
        ensures
            final(self).wf(),
            read_taken(old(self)@, final(self)@, read, out),
    {
        match read {
            Some(chunk) => {
                if chunk.len() > 0 {
                    self.receive(chunk)
                } else {
                    let failed = self.close(CloseReason::Disconnected);
                    Received { events: Vec::new(), failed, failure: None }
                }
            },
            None => {
                let failed = self.close(CloseReason::Disconnected);
                Received { events: Vec::new(), failed, failure: None }
            },
        }
    }

    /// Takes in the outcome of one write to the socket. A write that failed
    /// ends the connection: every waiter in flight is handed back.
    pub fn after_write(&mut self, written: bool) -> (failed: Vec<(u32, W)>)
        requires
            old(self).wf(),
        ensures
            final(self).wf(),
            write_taken(old(self)@, final(self)@, written, failed),
    {
        if written {
            Vec::new()
        } else {
            self.close(CloseReason::WriteFailed)
        }
    }

    /// Withdraws the request with the given id: its waiter, if it is still in
    /// flight, leaves the table and comes back, so that the caller can be told
    /// that it was cancelled or that its time ran out. A response that arrives
    /// for the id later finds no waiter.
    pub fn cancel(&mut self, id: u32) -> (out: Option<W>)
        requires
            old(self).wf(),
        ensures
            final(self).wf(),
            final(self)@.state == old(self)@.state,
            final(self)@.pending == old(self)@.pending,
            final(self)@.waiters == old(self)@.waiters.remove(id),
            out == (if old(self)@.waiters.contains_key(id) {
                Some(old(self)@.waiters[id])
            } else {
                None::<W>
            }),
    {
        let out = self.table.resolve(id);
        assert(old(self)@.waiters == Map::<u32, W>::empty() ==> self.table@ =~= Map::<
            u32,
            W,
        >::empty());
        out
    }

    /// Ends the connection for `reason` and hands back every waiter still in
    /// flight, each with its id, so that each can be told that no response
    /// will come. A connection that has already ended keeps its first reason.
    pub fn close(&mut self, reason: CloseReason) -> (failed: Vec<(u32, W)>)
        ensures
            final(self).wf(),
            ended(old(self)@, final(self)@, reason, failed),
    {
        let failed = self.table.drain();
        match self.state {
            ConnectionState::Terminated(_) => {},
            _ => {
                self.state = ConnectionState::Terminated(reason);
            },
        }
        failed
    }
}

/// Whether `failed` names `waiter` as the one that waited under `id`.
pub open spec fn fails<W>(failed: Seq<(u32, W)>, id: u32, waiter: W) -> bool {
    exists|i: int| 0 <= i < failed.len() && #[trigger] failed[i] == (id, waiter)
}

/// Fatal propagation on the reading side. When the bytes of a read break the
/// stream, no request is left waiting: every waiter that was in flight before
/// the read was either handed its response, which arrived ahead of the broken
/// bytes, or is named in `failed`. The connection is then terminated, and it
/// refuses every message offered later.
pub proof fn lemma_broken_stream_fails_all<W>(
    before: ClientModel<W>,
    after: ClientModel<W>,
    chunk: Seq<u8>,
    out: Received<W>,
)
    requires
        before.state is Running,
        received(before, after, chunk, out),
        out.failure.is_some(),
    ensures
        after.state == ConnectionState::Terminated(CloseReason::Decode(out.failure.unwrap())),
        after.waiters == Map::<u32, W>::empty(),
        refusal(after.state).is_some(),
        forall|id: u32| #[trigger]
            before.waiters.contains_key(id) ==> crate::pump::delivers(
                inbound_models(out.events@),
                id,
                before.waiters[id],
            ) || fails(out.failed@, id, before.waiters[id]),
{
    let decoded = run(before.pending + chunk);
    let routed = route(before.waiters, decoded.messages);
    crate::pump::lemma_route_keeps_account(before.waiters, decoded.messages);
    assert forall|id: u32| #[trigger] before.waiters.contains_key(id) implies crate::pump::delivers(
        inbound_models(out.events@),
        id,
        before.waiters[id],
    ) || fails(out.failed@, id, before.waiters[id]) by {
        if routed.waiters.contains_pair(id, before.waiters[id]) {
            let i = choose|i: int| 0 <= i < out.failed@.len() && (#[trigger] out.failed@[i]).0 == id;
            assert(routed.waiters.contains_pair(out.failed@[i].0, out.failed@[i].1));
            assert(out.failed@[i] == (id, before.waiters[id]));
        }
    }
}

/// Fatal propagation on the writing side, and when the peer goes away. When
/// a connection is closed, every waiter that was in flight is named in
/// `failed`, none is left, and the connection refuses every message offered
/// later.
pub proof fn lemma_close_fails_all<W>(
    before: ClientModel<W>,
    after: ClientModel<W>,
    reason: CloseReason,
    failed: Vec<(u32, W)>,
)
    requires
        ended(before, after, reason, failed),
    ensures
        after.state is Terminated,
        after.waiters == Map::<u32, W>::empty(),
        refusal(after.state).is_some(),
        forall|id: u32| #[trigger]
            before.waiters.contains_key(id) ==> fails(failed@, id, before.waiters[id]),
{
    assert forall|id: u32| #[trigger] before.waiters.contains_key(id) implies fails(
        failed@,
        id,
        before.waiters[id],
    ) by {
        let i = choose|i: int| 0 <= i < failed@.len() && (#[trigger] failed@[i]).0 == id;
        assert(before.waiters.contains_pair(failed@[i].0, failed@[i].1));
        assert(failed@[i] == (id, before.waiters[id]));
    }
}

/// A connection that has ended stays as it ended: bytes that arrive later
/// change nothing, closing it again keeps the first reason, and every message
/// offered is refused.
pub proof fn lemma_terminated_is_final<W>(
    before: ClientModel<W>,
    after_read: ClientModel<W>,
    chunk: Seq<u8>,
    out: Received<W>,
    after_close: ClientModel<W>,
    reason: CloseReason,
    failed: Vec<(u32, W)>,
)
    requires
        before.state is Terminated,
        received(before, after_read, chunk, out),
        ended(before, after_close, reason, failed),
    ensures
        after_read == before,
        after_close.state == before.state,
        refusal(before.state).is_some(),
{
}

/// A read that ends in the middle of a message waits for the rest. When the
/// bytes pending after a read are cut short, nothing is delivered and nobody is
/// failed, the table is as it was, every byte stays pending, and the
/// connection goes on running.
pub proof fn lemma_cut_short_read_waits<W>(
    before: ClientModel<W>,
    after: ClientModel<W>,
    chunk: Seq<u8>,
    out: Received<W>,
)
    requires
        before.state is Running,
        received(before, after, chunk, out),
        decoded(before.pending + chunk) == Err::<(MessageModel, nat), DecodeError>(
            DecodeError::Truncated,
        ),
    ensures
        out.events@.len() == 0,
        out.failed@.len() == 0,
        out.failure.is_none(),
        after.state is Running,
        after.waiters == before.waiters,
        after.pending == before.pending + chunk,
{
    assert(inbound_models(out.events@).len() == out.events@.len());
}

/// The read that brings the last bytes of a frame delivers its message. When
/// the bytes pending after a read are exactly the frame of a message, that
/// message and no other is routed, nothing stays pending, nobody is failed,
/// and the connection goes on running. What is routed depends on the frame
/// alone, not on how its bytes were cut into reads.
pub proof fn lemma_completing_read_delivers<W>(
    before: ClientModel<W>,
    after: ClientModel<W>,
    chunk: Seq<u8>,
    out: Received<W>,
    message: MessageModel,
)
    requires
        before.state is Running,
        received(before, after, chunk, out),
        crate::frame::is_frame(before.pending + chunk, message),
    ensures
        inbound_models(out.events@) == crate::pump::route_one(before.waiters, message).events,
        after.waiters == crate::pump::route_one(before.waiters, message).waiters,
        out.failed@.len() == 0,
        out.failure.is_none(),
        after.state is Running,
        after.pending == Seq::<u8>::empty(),
{
    let bytes = before.pending + chunk;
    let none = Seq::<MessageModel>::empty();
    crate::frame::lemma_decoded_within(bytes);
    assert(bytes.skip(bytes.len() as int) =~= Seq::<u8>::empty());
    assert(bytes.take(0) =~= Seq::<u8>::empty());
    assert(run(Seq::<u8>::empty()).messages == none);
    assert(seq![message] + none =~= seq![message]);
    assert(run(bytes).messages == seq![message]);
    let first = crate::pump::route_one(before.waiters, message);
    assert(seq![message].first() == message);
    assert(seq![message].drop_first() =~= none);
    assert(first.events + Seq::<crate::pump::InboundModel<W>>::empty() =~= first.events);
    assert(route(first.waiters, none).waiters == first.waiters);
    assert(route(first.waiters, seq![message].drop_first()).events =~= Seq::<
        crate::pump::InboundModel<W>,
    >::empty());
    assert(route(before.waiters, seq![message]).events == first.events);
    assert(route(before.waiters, seq![message]).waiters == first.waiters);
}

} // verus!
