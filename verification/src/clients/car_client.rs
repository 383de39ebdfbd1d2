//! The calls that a car understands.
//!
//! A call is issued, not carried out: the method takes the next request id,
//! registers the caller's waiter under it and hands back the bytes of the
//! request. Writing the bytes to the socket and waiting for the response is
//! left to the caller; what a response means is told by
//! [`crate::clients::replies`] and by the readers of the typed results.

use crate::clients::airsim_client::{issued, AirsimClient, AirsimModel, Outgoing};
use crate::error::{CloseReason, NetworkError};
use crate::message::Notification;
use crate::msgpack::{ClientModel, ConnectionState, Received};
use crate::value::{models_of, ValueModel, WireValue};
use vstd::prelude::*;

verus! {

/// The mathematical content of a [`CarClient`].
pub struct CarModel<W> {
    /// The connection and its id counter.
    pub airsim: AirsimModel<W>,
    /// The name of the vehicle that the calls are about.
    pub vehicle_name: Seq<char>,
}

/// A connection to the simulator that controls one car.
pub struct CarClient<W> {
    airsim_client: AirsimClient<W>,
    vehicle_name: String,
}

impl<W> View for CarClient<W> {
    type V = CarModel<W>;

    closed spec fn view(&self) -> CarModel<W> {
        CarModel { airsim: self.airsim_client@, vehicle_name: self.vehicle_name@ }
    }
}

impl<W> CarClient<W> {
    /// What holds of every client: no request is in flight on a connection
    /// that has ended.
    pub open spec fn wf(&self) -> bool {
        self@.airsim.client.state is Terminated ==> self@.airsim.client.waiters == Map::<
            u32,
            W,
        >::empty()
    }

    /// A client for the vehicle of the given name, whose socket is not open
    /// yet and whose first id is zero.
    pub fn new(vehicle_name: String) -> (out: Self)
        ensures
            out.wf(),
            out@ == (CarModel {
                airsim: AirsimModel {
                    client: ClientModel {
                        state: ConnectionState::Connecting,
                        waiters: Map::<u32, W>::empty(),
                        pending: Seq::<u8>::empty(),
                    },
                    counter: 0,
                },
                vehicle_name: vehicle_name@,
            }),
    {
        CarClient { airsim_client: AirsimClient::new(), vehicle_name }
    }

    /// Where the connection stands.
    pub fn state(&self) -> (state: ConnectionState)
        ensures
            state == self@.airsim.client.state,
    {
        self.airsim_client.state()
    }

    /// The name of the vehicle that the calls are about.
    pub fn vehicle_name(&self) -> (out: &str)
        ensures
            out@ == self@.vehicle_name,
    {
        self.vehicle_name.as_str()
    }

    /// Records that the socket is open.
    pub fn connected(&mut self)
        requires
            old(self).wf(),
        ensures
            final(self).wf(),
            final(self)@.vehicle_name == old(self)@.vehicle_name,
            final(self)@.airsim.counter == old(self)@.airsim.counter,
            final(self)@.airsim.client == (ClientModel {
                state: if old(self)@.airsim.client.state is Connecting {
                    ConnectionState::Running
                } else {
                    old(self)@.airsim.client.state
                },
                ..old(self)@.airsim.client
            }),
    {
        self.airsim_client.connected();
    }

    /// Takes in the bytes of one read.
    pub fn receive(&mut self, chunk: &[u8]) -> (out: Received<W>)
        requires
            old(self).wf(),
        ensures
            final(self).wf(),
            final(self)@.vehicle_name == old(self)@.vehicle_name,
            final(self)@.airsim.counter == old(self)@.airsim.counter,
            crate::msgpack::received(
                old(self)@.airsim.client,
                final(self)@.airsim.client,
                chunk@,
                out,
            ),
    {
        self.airsim_client.receive(chunk)
    }

    /// Encodes a notification for sending. Nothing is registered: no response
    /// will come.
    pub fn notify(&self, notification: Notification) -> (out: Result<Vec<u8>, NetworkError>)
        ensures
            crate::msgpack::notified(self@.airsim.client.state, notification@, out),
    {
        self.airsim_client.notify(notification)
    }

    /// Withdraws the request with the given id: its waiter, if it is still in
    /// flight, leaves the table and comes back.
    pub fn cancel(&mut self, id: u32) -> (out: Option<W>)
        requires
            old(self).wf(),
        ensures
            final(self).wf(),
            final(self)@.vehicle_name == old(self)@.vehicle_name,
            final(self)@.airsim.counter == old(self)@.airsim.counter,
            final(self)@.airsim.client.state == old(self)@.airsim.client.state,
            final(self)@.airsim.client.pending == old(self)@.airsim.client.pending,
            final(self)@.airsim.client.waiters == old(self)@.airsim.client.waiters.remove(id),
            out == (if old(self)@.airsim.client.waiters.contains_key(id) {
                Some(old(self)@.airsim.client.waiters[id])
            } else {
                None::<W>
            }),
    {
        self.airsim_client.cancel(id)
    }

    /// Takes in the outcome of one read of the socket: the bytes read, or
    /// `None` for a read that failed. A read of no bytes, like a failed one,
    /// ends the connection.
    pub fn after_read(&mut self, read: Option<&[u8]>) -> (out: Received<W>)
        requires
            old(self).wf(),
        ensures
            final(self).wf(),
            final(self)@.vehicle_name == old(self)@.vehicle_name,
            final(self)@.airsim.counter == old(self)@.airsim.counter,
            crate::msgpack::read_taken(
                old(self)@.airsim.client,
                final(self)@.airsim.client,
                read,
                out,
            ),
    {
        self.airsim_client.after_read(read)
    }

    /// Takes in the outcome of one write to the socket. A write that failed
    /// ends the connection.
    pub fn after_write(&mut self, written: bool) -> (failed: Vec<(u32, W)>)
        requires
            old(self).wf(),
        ensures
            final(self).wf(),
            final(self)@.vehicle_name == old(self)@.vehicle_name,
            final(self)@.airsim.counter == old(self)@.airsim.counter,
            crate::msgpack::write_taken(
                old(self)@.airsim.client,
                final(self)@.airsim.client,
                written,
                failed,
            ),
    {
        self.airsim_client.after_write(written)
    }

    /// Ends the connection.
    pub fn close(&mut self, reason: CloseReason) -> (failed: Vec<(u32, W)>)
        ensures
            final(self).wf(),
            final(self)@.vehicle_name == old(self)@.vehicle_name,
            final(self)@.airsim.counter == old(self)@.airsim.counter,
            crate::msgpack::ended(
                old(self)@.airsim.client,
                final(self)@.airsim.client,
                reason,
                failed,
            ),
    {
        self.airsim_client.close(reason)
    }

    /// Asks for the server's version.
    pub fn get_server_version(&mut self, waiter: W) -> (out: Result<Outgoing, (NetworkError, W)>)
        requires
            old(self).wf(),
        ensures
            final(self).wf(),
            final(self)@.vehicle_name == old(self)@.vehicle_name,
            issued(
                old(self)@.airsim,
                final(self)@.airsim,
                "getServerVersion"@,
                Seq::<ValueModel>::empty(),
                waiter,
                out,
            ),
    {
        self.airsim_client.unary_rpc("getServerVersion".to_owned(), None, waiter)
    }

    /// Asks for the oldest client version that the server works with.
    pub fn get_min_required_client_version(
        &mut self,
        waiter: W,
    ) -> (out: Result<Outgoing, (NetworkError, W)>)
        requires
            old(self).wf(),
        ensures
            final(self).wf(),
            final(self)@.vehicle_name == old(self)@.vehicle_name,
            issued(
                old(self)@.airsim,
                final(self)@.airsim,
                "getMinRequiredClientVersion"@,
                Seq::<ValueModel>::empty(),
                waiter,
                out,
            ),
    {
        self.airsim_client.unary_rpc("getMinRequiredClientVersion".to_owned(), None, waiter)
    }

    /// Asks to put the vehicle back into its starting state.
    pub fn reset(&mut self, waiter: W) -> (out: Result<Outgoing, (NetworkError, W)>)
        requires
            old(self).wf(),
        ensures
            final(self).wf(),
            final(self)@.vehicle_name == old(self)@.vehicle_name,
            issued(
                old(self)@.airsim,
                final(self)@.airsim,
                "reset"@,
                Seq::<ValueModel>::empty(),
                waiter,
                out,
            ),
    {
        self.airsim_client.unary_rpc("reset".to_owned(), None, waiter)
    }

    /// Asks whether the server is there.
    pub fn ping(&mut self, waiter: W) -> (out: Result<Outgoing, (NetworkError, W)>)
        requires
            old(self).wf(),
        ensures
            final(self).wf(),
            final(self)@.vehicle_name == old(self)@.vehicle_name,
            issued(
                old(self)@.airsim,
                final(self)@.airsim,
                "ping"@,
                Seq::<ValueModel>::empty(),
                waiter,
                out,
            ),
    {
        self.airsim_client.unary_rpc("ping".to_owned(), None, waiter)
    }

    /// Asks to enable or disable API control for the vehicle.
    pub fn enable_api_control(
        &mut self,
        is_enabled: bool,
        waiter: W,
    ) -> (out: Result<Outgoing, (NetworkError, W)>)
        requires
            old(self).wf(),
        ensures
            final(self).wf(),
            final(self)@.vehicle_name == old(self)@.vehicle_name,
            issued(
                old(self)@.airsim,
                final(self)@.airsim,
                "enableApiControl"@,
                seq![
                    ValueModel::Boolean(is_enabled),
                    ValueModel::String(old(self)@.vehicle_name),
                ],
                waiter,
                out,
            ),
    {
        let params = vec![
            WireValue::Boolean(is_enabled),
            WireValue::String(self.vehicle_name.clone()),
        ];
        assert(models_of(params@) =~= seq![
                ValueModel::Boolean(is_enabled),
                ValueModel::String(self@.vehicle_name),
            ]);
        self.airsim_client.unary_rpc("enableApiControl".to_owned(), Some(params), waiter)
    }

    /// Asks whether API control is enabled for the vehicle.
    pub fn is_api_control_enabled(
        &mut self,
        is_enabled: bool,
        waiter: W,
    ) -> (out: Result<Outgoing, (NetworkError, W)>)
        requires
            old(self).wf(),
        ensures
            final(self).wf(),
            final(self)@.vehicle_name == old(self)@.vehicle_name,
            issued(
                old(self)@.airsim,
                final(self)@.airsim,
                "isApiControlEnabled"@,
                seq![
                    ValueModel::Boolean(is_enabled),
                    ValueModel::String(old(self)@.vehicle_name),
                ],
                waiter,
                out,
            ),
    {
        let params = vec![
            WireValue::Boolean(is_enabled),
            WireValue::String(self.vehicle_name.clone()),
        ];
        assert(models_of(params@) =~= seq![
                ValueModel::Boolean(is_enabled),
                ValueModel::String(self@.vehicle_name),
            ]);
        self.airsim_client.unary_rpc("isApiControlEnabled".to_owned(), Some(params), waiter)
    }

    /// Asks to arm or disarm the vehicle.
    pub fn arm_disarm(&mut self, arm: bool, waiter: W) -> (out: Result<Outgoing, (NetworkError, W)>)
        requires
            old(self).wf(),
        ensures
            final(self).wf(),
            final(self)@.vehicle_name == old(self)@.vehicle_name,
            issued(
                old(self)@.airsim,
                final(self)@.airsim,
                "armDisarm"@,
                seq![
                    ValueModel::Boolean(arm),
                    ValueModel::String(old(self)@.vehicle_name),
                ],
                waiter,
                out,
            ),
    {
        let params = vec![
            WireValue::Boolean(arm),
            WireValue::String(self.vehicle_name.clone()),
        ];
        assert(models_of(params@) =~= seq![
                ValueModel::Boolean(arm),
                ValueModel::String(self@.vehicle_name),
            ]);
        self.airsim_client.unary_rpc("armDisarm".to_owned(), Some(params), waiter)
    }

    /// Asks the vehicle to take off; the timeout is in whole seconds.
    pub fn take_off_async(
        &mut self,
        timeout_sec: u64,
        waiter: W,
    ) -> (out: Result<Outgoing, (NetworkError, W)>)
        requires
            old(self).wf(),
        ensures
            final(self).wf(),
            final(self)@.vehicle_name == old(self)@.vehicle_name,
            issued(
                old(self)@.airsim,
                final(self)@.airsim,
                "takeoff"@,
                seq![
                    ValueModel::Integer(timeout_sec as int),
                    ValueModel::String(old(self)@.vehicle_name),
                ],
                waiter,
                out,
            ),
    {
        let params = vec![
            WireValue::from_u64(timeout_sec),
            WireValue::String(self.vehicle_name.clone()),
        ];
        assert(models_of(params@) =~= seq![
                ValueModel::Integer(timeout_sec as int),
                ValueModel::String(self@.vehicle_name),
            ]);
        self.airsim_client.unary_rpc("takeoff".to_owned(), Some(params), waiter)
    }
}

} // verus!
