//! The calls that a multirotor understands.
//!
//! A call is issued, not carried out: the method takes the next request id,
//! registers the caller's waiter under it and hands back the bytes of the
//! request. Writing the bytes to the socket and waiting for the response is
//! left to the caller; what a response means is told by
//! [`crate::clients::replies`] and by the readers of the typed results.

use crate::clients::airsim_client::{
    flag_or_false, issued, AirsimClient, AirsimModel, Outgoing,
};
use crate::error::{CloseReason, NetworkError};
use crate::message::Notification;
use crate::msgpack::{ClientModel, ConnectionState, Received};
use crate::types::drive_train::DrivetrainType;
use crate::types::gains::{
    angular_gains_params, linear_gains_params, AngularControllerGains, LinearControllerGains,
};
use crate::types::geopoint::GeoPoint;
use crate::types::image::ImageType;
use crate::types::number::{bits_or, negate, negated, F32Bits, MINUS_ONE, ONE};
use crate::types::path::{path_value, Path};
use crate::types::pose::{Orientation2, Orientation3, Position3, Velocity2, Velocity3};
use crate::types::pwm::{is_signal, PWM};
use crate::types::rc_data::{rc_data_value, RCData};
use crate::types::yaw_mode::{yaw_mode_value, YawMode};
use crate::value::{models_of, ValueModel, WireValue};
use vstd::prelude::*;

verus! {

/// The mathematical content of a [`MultiRotorClient`].
pub struct MultiRotorModel<W> {
    /// The connection and its id counter.
    pub airsim: AirsimModel<W>,
    /// The name of the vehicle that the calls are about.
    pub vehicle_name: Seq<char>,
}

/// A connection to the simulator that controls one multirotor.
pub struct MultiRotorClient<W> {
    airsim_client: AirsimClient<W>,
    vehicle_name: String,
}

impl<W> View for MultiRotorClient<W> {
    type V = MultiRotorModel<W>;

    closed spec fn view(&self) -> MultiRotorModel<W> {
        MultiRotorModel { airsim: self.airsim_client@, vehicle_name: self.vehicle_name@ }
    }
}

impl<W> MultiRotorClient<W> {
    /// What holds of every client: no request is in flight on a connection
    /// that has ended.
    pub open spec fn wf(&self) -> bool {
        self@.airsim.client.state is Terminated ==> self@.airsim.client.waiters == Map::<
            u32,
            W,
        >::empty()
    }

    /// A client for the vehicle of the given name, whose socket is not open
    /// yet and whose first id is zero.
    pub fn new(vehicle_name: String) -> (out: Self)
        ensures
            out.wf(),
            out@ == (MultiRotorModel {
                airsim: AirsimModel {
                    client: ClientModel {
                        state: ConnectionState::Connecting,
                        waiters: Map::<u32, W>::empty(),
                        pending: Seq::<u8>::empty(),
                    },
                    counter: 0,
                },
                vehicle_name: vehicle_name@,
            }),
    {
        MultiRotorClient { airsim_client: AirsimClient::new(), vehicle_name }
    }

    /// Where the connection stands.
    pub fn state(&self) -> (state: ConnectionState)
        ensures
            state == self@.airsim.client.state,
    {
        self.airsim_client.state()
    }

    /// The name of the vehicle that the calls are about.
    pub fn vehicle_name(&self) -> (out: &str)
        ensures
            out@ == self@.vehicle_name,
    {
        self.vehicle_name.as_str()
    }

    /// Records that the socket is open.
    pub fn connected(&mut self)
        requires
            old(self).wf(),
        ensures
            final(self).wf(),
            final(self)@.vehicle_name == old(self)@.vehicle_name,
            final(self)@.airsim.counter == old(self)@.airsim.counter,
            final(self)@.airsim.client == (ClientModel {
                state: if old(self)@.airsim.client.state is Connecting {
                    ConnectionState::Running
                } else {
                    old(self)@.airsim.client.state
                },
                ..old(self)@.airsim.client
            }),
    {
        self.airsim_client.connected();
    }

    /// Takes in the bytes of one read.
    pub fn receive(&mut self, chunk: &[u8]) -> (out: Received<W>)
        requires
            old(self).wf(),
        ensures
            final(self).wf(),
            final(self)@.vehicle_name == old(self)@.vehicle_name,
            final(self)@.airsim.counter == old(self)@.airsim.counter,
            crate::msgpack::received(
                old(self)@.airsim.client,
                final(self)@.airsim.client,
                chunk@,
                out,
            ),
    {
        self.airsim_client.receive(chunk)
    }

    /// Encodes a notification for sending. Nothing is registered: no response
    /// will come.
    pub fn notify(&self, notification: Notification) -> (out: Result<Vec<u8>, NetworkError>)
        ensures
            crate::msgpack::notified(self@.airsim.client.state, notification@, out),
    {
        self.airsim_client.notify(notification)
    }

    /// Withdraws the request with the given id: its waiter, if it is still in
    /// flight, leaves the table and comes back.
    pub fn cancel(&mut self, id: u32) -> (out: Option<W>)
        requires
            old(self).wf(),
        ensures
            final(self).wf(),
            final(self)@.vehicle_name == old(self)@.vehicle_name,
            final(self)@.airsim.counter == old(self)@.airsim.counter,
            final(self)@.airsim.client.state == old(self)@.airsim.client.state,
            final(self)@.airsim.client.pending == old(self)@.airsim.client.pending,
            final(self)@.airsim.client.waiters == old(self)@.airsim.client.waiters.remove(id),
            out == (if old(self)@.airsim.client.waiters.contains_key(id) {
                Some(old(self)@.airsim.client.waiters[id])
            } else {
                None::<W>
            }),
    {
        self.airsim_client.cancel(id)
    }

    /// Takes in the outcome of one read of the socket: the bytes read, or
    /// `None` for a read that failed. A read of no bytes, like a failed one,
    /// ends the connection.
    pub fn after_read(&mut self, read: Option<&[u8]>) -> (out: Received<W>)
        requires
            old(self).wf(),
        ensures
            final(self).wf(),
            final(self)@.vehicle_name == old(self)@.vehicle_name,
            final(self)@.airsim.counter == old(self)@.airsim.counter,
            crate::msgpack::read_taken(
                old(self)@.airsim.client,
                final(self)@.airsim.client,
                read,
                out,
            ),
    {
        self.airsim_client.after_read(read)
    }

    /// Takes in the outcome of one write to the socket. A write that failed
    /// ends the connection.
    pub fn after_write(&mut self, written: bool) -> (failed: Vec<(u32, W)>)
        requires
            old(self).wf(),
        ensures
            final(self).wf(),
            final(self)@.vehicle_name == old(self)@.vehicle_name,
            final(self)@.airsim.counter == old(self)@.airsim.counter,
            crate::msgpack::write_taken(
                old(self)@.airsim.client,
                final(self)@.airsim.client,
                written,
                failed,
            ),
    {
        self.airsim_client.after_write(written)
    }

    /// Ends the connection.
    pub fn close(&mut self, reason: CloseReason) -> (failed: Vec<(u32, W)>)
        ensures
            final(self).wf(),
            final(self)@.vehicle_name == old(self)@.vehicle_name,
            final(self)@.airsim.counter == old(self)@.airsim.counter,
            crate::msgpack::ended(
                old(self)@.airsim.client,
                final(self)@.airsim.client,
                reason,
                failed,
            ),
    {
        self.airsim_client.close(reason)
    }

    /// Asks for the server's version.
    pub fn get_server_version(&mut self, waiter: W) -> (out: Result<Outgoing, (NetworkError, W)>)
        requires
            old(self).wf(),
        ensures
            final(self).wf(),
            final(self)@.vehicle_name == old(self)@.vehicle_name,
            issued(
                old(self)@.airsim,
                final(self)@.airsim,
                "getServerVersion"@,
                Seq::<ValueModel>::empty(),
                waiter,
                out,
            ),
    {
        self.airsim_client.unary_rpc("getServerVersion".to_owned(), None, waiter)
    }

    /// Asks for the oldest client version that the server works with.
    pub fn get_min_required_client_version(
        &mut self,
        waiter: W,
    ) -> (out: Result<Outgoing, (NetworkError, W)>)
        requires
            old(self).wf(),
        ensures
            final(self).wf(),
            final(self)@.vehicle_name == old(self)@.vehicle_name,
            issued(
                old(self)@.airsim,
                final(self)@.airsim,
                "getMinRequiredClientVersion"@,
                Seq::<ValueModel>::empty(),
                waiter,
                out,
            ),
    {
        self.airsim_client.unary_rpc("getMinRequiredClientVersion".to_owned(), None, waiter)
    }

    /// Asks to put the vehicle back into its starting state.
    pub fn reset(&mut self, waiter: W) -> (out: Result<Outgoing, (NetworkError, W)>)
        requires
            old(self).wf(),
        ensures
            final(self).wf(),
            final(self)@.vehicle_name == old(self)@.vehicle_name,
            issued(
                old(self)@.airsim,
                final(self)@.airsim,
                "reset"@,
                Seq::<ValueModel>::empty(),
                waiter,
                out,
            ),
    {
        self.airsim_client.unary_rpc("reset".to_owned(), None, waiter)
    }

    /// Asks whether the server is there.
    pub fn ping(&mut self, waiter: W) -> (out: Result<Outgoing, (NetworkError, W)>)
        requires
            old(self).wf(),
        ensures
            final(self).wf(),
            final(self)@.vehicle_name == old(self)@.vehicle_name,
            issued(
                old(self)@.airsim,
                final(self)@.airsim,
                "ping"@,
                Seq::<ValueModel>::empty(),
                waiter,
                out,
            ),
    {
        self.airsim_client.unary_rpc("ping".to_owned(), None, waiter)
    }

    /// Asks to enable or disable API control for the vehicle.
    pub fn enable_api_control(
        &mut self,
        is_enabled: bool,
        waiter: W,
    ) -> (out: Result<Outgoing, (NetworkError, W)>)
        requires
            old(self).wf(),
        ensures
            final(self).wf(),
            final(self)@.vehicle_name == old(self)@.vehicle_name,
            issued(
                old(self)@.airsim,
                final(self)@.airsim,
                "enableApiControl"@,
                seq![
                    ValueModel::Boolean(is_enabled),
                    ValueModel::String(old(self)@.vehicle_name),
                ],
                waiter,
                out,
            ),
    {
        let params = vec![
            WireValue::Boolean(is_enabled),
            WireValue::String(self.vehicle_name.clone()),
        ];
        assert(models_of(params@) =~= seq![
                ValueModel::Boolean(is_enabled),
                ValueModel::String(self@.vehicle_name),
            ]);
        self.airsim_client.unary_rpc("enableApiControl".to_owned(), Some(params), waiter)
    }

    /// Asks whether API control is enabled for the vehicle.
    pub fn is_api_control_enabled(
        &mut self,
        is_enabled: bool,
        waiter: W,
    ) -> (out: Result<Outgoing, (NetworkError, W)>)
        requires
            old(self).wf(),
        ensures
            final(self).wf(),
            final(self)@.vehicle_name == old(self)@.vehicle_name,
            issued(
                old(self)@.airsim,
                final(self)@.airsim,
                "isApiControlEnabled"@,
                seq![
                    ValueModel::Boolean(is_enabled),
                    ValueModel::String(old(self)@.vehicle_name),
                ],
                waiter,
                out,
            ),
    {
        let params = vec![
            WireValue::Boolean(is_enabled),
            WireValue::String(self.vehicle_name.clone()),
        ];
        assert(models_of(params@) =~= seq![
                ValueModel::Boolean(is_enabled),
                ValueModel::String(self@.vehicle_name),
            ]);
        self.airsim_client.unary_rpc("isApiControlEnabled".to_owned(), Some(params), waiter)
    }

    /// Asks to arm or disarm the vehicle.
    pub fn arm_disarm(&mut self, arm: bool, waiter: W) -> (out: Result<Outgoing, (NetworkError, W)>)
        requires
            old(self).wf(),
        ensures
            final(self).wf(),
            final(self)@.vehicle_name == old(self)@.vehicle_name,
            issued(
                old(self)@.airsim,
                final(self)@.airsim,
                "armDisarm"@,
                seq![
                    ValueModel::Boolean(arm),
                    ValueModel::String(old(self)@.vehicle_name),
                ],
                waiter,
                out,
            ),
    {
        let params = vec![
            WireValue::Boolean(arm),
            WireValue::String(self.vehicle_name.clone()),
        ];
        assert(models_of(params@) =~= seq![
                ValueModel::Boolean(arm),
                ValueModel::String(self@.vehicle_name),
            ]);
        self.airsim_client.unary_rpc("armDisarm".to_owned(), Some(params), waiter)
    }

    /// Asks the vehicle to hover in place.
    pub fn hover_async(&mut self, waiter: W) -> (out: Result<Outgoing, (NetworkError, W)>)
        requires
            old(self).wf(),
        ensures
            final(self).wf(),
            final(self)@.vehicle_name == old(self)@.vehicle_name,
            issued(
                old(self)@.airsim,
                final(self)@.airsim,
                "hover"@,
                seq![
                    ValueModel::String(old(self)@.vehicle_name),
                ],
                waiter,
                out,
            ),
    {
        let params = vec![
            WireValue::String(self.vehicle_name.clone()),
        ];
        assert(models_of(params@) =~= seq![
                ValueModel::String(self@.vehicle_name),
            ]);
        self.airsim_client.unary_rpc("hover".to_owned(), Some(params), waiter)
    }

    /// Asks for the home location of the vehicle.
    pub fn get_home_geo_point(&mut self, waiter: W) -> (out: Result<Outgoing, (NetworkError, W)>)
        requires
            old(self).wf(),
        ensures
            final(self).wf(),
            final(self)@.vehicle_name == old(self)@.vehicle_name,
            issued(
                old(self)@.airsim,
                final(self)@.airsim,
                "getHomeGeoPoint"@,
                seq![
                    ValueModel::String(old(self)@.vehicle_name),
                ],
                waiter,
                out,
            ),
    {
        let params = vec![
            WireValue::String(self.vehicle_name.clone()),
        ];
        assert(models_of(params@) =~= seq![
                ValueModel::String(self@.vehicle_name),
            ]);
        self.airsim_client.unary_rpc("getHomeGeoPoint".to_owned(), Some(params), waiter)
    }

    /// Asks the vehicle to take off to three metres above the ground.
    pub fn take_off_async(
        &mut self,
        timeout_sec: F32Bits,
        waiter: W,
    ) -> (out: Result<Outgoing, (NetworkError, W)>)
        requires
            old(self).wf(),
        ensures
            final(self).wf(),
            final(self)@.vehicle_name == old(self)@.vehicle_name,
            issued(
                old(self)@.airsim,
                final(self)@.airsim,
                "takeoff"@,
                seq![
                    ValueModel::F32(timeout_sec),
                    ValueModel::String(old(self)@.vehicle_name),
                ],
                waiter,
                out,
            ),
    {
        let params = vec![
            WireValue::F32(timeout_sec),
            WireValue::String(self.vehicle_name.clone()),
        ];
        assert(models_of(params@) =~= seq![
                ValueModel::F32(timeout_sec),
                ValueModel::String(self@.vehicle_name),
            ]);
        self.airsim_client.unary_rpc("takeoff".to_owned(), Some(params), waiter)
    }

    /// Asks the vehicle to land.
    pub fn land_async(
        &mut self,
        timeout_sec: F32Bits,
        waiter: W,
    ) -> (out: Result<Outgoing, (NetworkError, W)>)
        requires
            old(self).wf(),
        ensures
            final(self).wf(),
            final(self)@.vehicle_name == old(self)@.vehicle_name,
            issued(
                old(self)@.airsim,
                final(self)@.airsim,
                "land"@,
                seq![
                    ValueModel::F32(timeout_sec),
                    ValueModel::String(old(self)@.vehicle_name),
                ],
                waiter,
                out,
            ),
    {
        let params = vec![
            WireValue::F32(timeout_sec),
            WireValue::String(self.vehicle_name.clone()),
        ];
        assert(models_of(params@) =~= seq![
                ValueModel::F32(timeout_sec),
                ValueModel::String(self@.vehicle_name),
            ]);
        self.airsim_client.unary_rpc("land".to_owned(), Some(params), waiter)
    }

    /// Asks the vehicle to return to where it was launched.
    pub fn go_home_async(
        &mut self,
        timeout_sec: F32Bits,
        waiter: W,
    ) -> (out: Result<Outgoing, (NetworkError, W)>)
        requires
            old(self).wf(),
        ensures
            final(self).wf(),
            final(self)@.vehicle_name == old(self)@.vehicle_name,
            issued(
                old(self)@.airsim,
                final(self)@.airsim,
                "goHome"@,
                seq![
                    ValueModel::F32(timeout_sec),
                    ValueModel::String(old(self)@.vehicle_name),
                ],
                waiter,
                out,
            ),
    {
        let params = vec![
            WireValue::F32(timeout_sec),
            WireValue::String(self.vehicle_name.clone()),
        ];
        assert(models_of(params@) =~= seq![
                ValueModel::F32(timeout_sec),
                ValueModel::String(self@.vehicle_name),
            ]);
        self.airsim_client.unary_rpc("goHome".to_owned(), Some(params), waiter)
    }

    /// Asks the vehicle to move at a velocity given in its own frame, for a
    /// duration.
    pub fn move_by_velocity_body_frame_async(
        &mut self,
        velocity: Velocity3<F32Bits>,
        duration: F32Bits,
        drivetrain: DrivetrainType,
        yaw_mode: YawMode<F32Bits>,
        waiter: W,
    ) -> (out: Result<Outgoing, (NetworkError, W)>)
        requires
            old(self).wf(),
        ensures
            final(self).wf(),
            final(self)@.vehicle_name == old(self)@.vehicle_name,
            issued(
                old(self)@.airsim,
                final(self)@.airsim,
                "moveByVelocityBodyFrame"@,
                seq![
                    ValueModel::F32(velocity.vx),
                    ValueModel::F32(velocity.vy),
                    ValueModel::F32(velocity.vz),
                    ValueModel::F32(duration),
                    ValueModel::Integer(drivetrain.code()),
                    yaw_mode_value(yaw_mode.spec_is_rate(), yaw_mode.spec_yaw_or_rate()),
                    ValueModel::String(old(self)@.vehicle_name),
                ],
                waiter,
                out,
            ),
    {
        let params = vec![
            WireValue::F32(velocity.vx),
            WireValue::F32(velocity.vy),
            WireValue::F32(velocity.vz),
            WireValue::F32(duration),
            drivetrain.as_msgpack(),
            yaw_mode.as_msgpack(),
            WireValue::String(self.vehicle_name.clone()),
        ];
        assert(models_of(params@) =~= seq![
                ValueModel::F32(velocity.vx),
                ValueModel::F32(velocity.vy),
                ValueModel::F32(velocity.vz),
                ValueModel::F32(duration),
                ValueModel::Integer(drivetrain.code()),
                yaw_mode_value(yaw_mode.spec_is_rate(), yaw_mode.spec_yaw_or_rate()),
                ValueModel::String(self@.vehicle_name),
            ]);
        self.airsim_client.unary_rpc("moveByVelocityBodyFrame".to_owned(), Some(params), waiter)
    }

    /// Asks the vehicle to move at a horizontal velocity given in its own frame
    /// and at a given height, for a duration.
    pub fn move_by_velocity_z_body_frame_async(
        &mut self,
        velocity: Velocity2<F32Bits>,
        z: F32Bits,
        duration: F32Bits,
        drivetrain: DrivetrainType,
        yaw_mode: YawMode<F32Bits>,
        waiter: W,
    ) -> (out: Result<Outgoing, (NetworkError, W)>)
        requires
            old(self).wf(),
        ensures
            final(self).wf(),
            final(self)@.vehicle_name == old(self)@.vehicle_name,
            issued(
                old(self)@.airsim,
                final(self)@.airsim,
                "moveByVelocityZBodyFrame"@,
                seq![
                    ValueModel::F32(velocity.vx),
                    ValueModel::F32(velocity.vy),
                    ValueModel::F32(z),
                    ValueModel::F32(duration),
                    ValueModel::Integer(drivetrain.code()),
                    yaw_mode_value(yaw_mode.spec_is_rate(), yaw_mode.spec_yaw_or_rate()),
                    ValueModel::String(old(self)@.vehicle_name),
                ],
                waiter,
                out,
            ),
    {
        let params = vec![
            WireValue::F32(velocity.vx),
            WireValue::F32(velocity.vy),
            WireValue::F32(z),
            WireValue::F32(duration),
            drivetrain.as_msgpack(),
            yaw_mode.as_msgpack(),
            WireValue::String(self.vehicle_name.clone()),
        ];
        assert(models_of(params@) =~= seq![
                ValueModel::F32(velocity.vx),
                ValueModel::F32(velocity.vy),
                ValueModel::F32(z),
                ValueModel::F32(duration),
                ValueModel::Integer(drivetrain.code()),
                yaw_mode_value(yaw_mode.spec_is_rate(), yaw_mode.spec_yaw_or_rate()),
                ValueModel::String(self@.vehicle_name),
            ]);
        self.airsim_client.unary_rpc("moveByVelocityZBodyFrame".to_owned(), Some(params), waiter)
    }

    /// Asks to set the gains of the velocity controller.
    pub fn set_velocity_controller_gains(
        &mut self,
        velocity_gains: LinearControllerGains<F32Bits>,
        waiter: W,
    ) -> (out: Result<Outgoing, (NetworkError, W)>)
        requires
            old(self).wf(),
        ensures
            final(self).wf(),
            final(self)@.vehicle_name == old(self)@.vehicle_name,
            issued(
                old(self)@.airsim,
                final(self)@.airsim,
                "setVelocityControllerGains"@,
                linear_gains_params(velocity_gains, old(self)@.vehicle_name),
                waiter,
                out,
            ),
    {
        let params = velocity_gains.as_msgpack(self.vehicle_name.as_str());
        self.airsim_client.unary_rpc("setVelocityControllerGains".to_owned(), Some(params), waiter)
    }

    /// Asks the vehicle to move at a velocity given in the world frame, for a
    /// duration.
    pub fn move_by_velocity_async(
        &mut self,
        velocity: Velocity3<F32Bits>,
        duration: F32Bits,
        drivetrain: DrivetrainType,
        yaw_mode: YawMode<F32Bits>,
        waiter: W,
    ) -> (out: Result<Outgoing, (NetworkError, W)>)
        requires
            old(self).wf(),
        ensures
            final(self).wf(),
            final(self)@.vehicle_name == old(self)@.vehicle_name,
            issued(
                old(self)@.airsim,
                final(self)@.airsim,
                "moveByVelocity"@,
                seq![
                    ValueModel::F32(velocity.vx),
                    ValueModel::F32(velocity.vy),
                    ValueModel::F32(velocity.vz),
                    ValueModel::F32(duration),
                    ValueModel::Integer(drivetrain.code()),
                    yaw_mode_value(yaw_mode.spec_is_rate(), yaw_mode.spec_yaw_or_rate()),
                    ValueModel::String(old(self)@.vehicle_name),
                ],
                waiter,
                out,
            ),
    {
        let params = vec![
            WireValue::F32(velocity.vx),
            WireValue::F32(velocity.vy),
            WireValue::F32(velocity.vz),
            WireValue::F32(duration),
            drivetrain.as_msgpack(),
            yaw_mode.as_msgpack(),
            WireValue::String(self.vehicle_name.clone()),
        ];
        assert(models_of(params@) =~= seq![
                ValueModel::F32(velocity.vx),
                ValueModel::F32(velocity.vy),
                ValueModel::F32(velocity.vz),
                ValueModel::F32(duration),
                ValueModel::Integer(drivetrain.code()),
                yaw_mode_value(yaw_mode.spec_is_rate(), yaw_mode.spec_yaw_or_rate()),
                ValueModel::String(self@.vehicle_name),
            ]);
        self.airsim_client.unary_rpc("moveByVelocity".to_owned(), Some(params), waiter)
    }

    /// Asks the vehicle to move at a horizontal velocity given in the world
    /// frame and at a given height, for a duration.
    pub fn move_by_velocity_z_async(
        &mut self,
        velocity: Velocity2<F32Bits>,
        z: F32Bits,
        duration: F32Bits,
        drivetrain: DrivetrainType,
        yaw_mode: YawMode<F32Bits>,
        waiter: W,
    ) -> (out: Result<Outgoing, (NetworkError, W)>)
        requires
            old(self).wf(),
        ensures
            final(self).wf(),
            final(self)@.vehicle_name == old(self)@.vehicle_name,
            issued(
                old(self)@.airsim,
                final(self)@.airsim,
                "moveByVelocityZ"@,
                seq![
                    ValueModel::F32(velocity.vx),
                    ValueModel::F32(velocity.vy),
                    ValueModel::F32(z),
                    ValueModel::F32(duration),
                    ValueModel::Integer(drivetrain.code()),
                    yaw_mode_value(yaw_mode.spec_is_rate(), yaw_mode.spec_yaw_or_rate()),
                    ValueModel::String(old(self)@.vehicle_name),
                ],
                waiter,
                out,
            ),
    {
        let params = vec![
            WireValue::F32(velocity.vx),
            WireValue::F32(velocity.vy),
            WireValue::F32(z),
            WireValue::F32(duration),
            drivetrain.as_msgpack(),
            yaw_mode.as_msgpack(),
            WireValue::String(self.vehicle_name.clone()),
        ];
        assert(models_of(params@) =~= seq![
                ValueModel::F32(velocity.vx),
                ValueModel::F32(velocity.vy),
                ValueModel::F32(z),
                ValueModel::F32(duration),
                ValueModel::Integer(drivetrain.code()),
                yaw_mode_value(yaw_mode.spec_is_rate(), yaw_mode.spec_yaw_or_rate()),
                ValueModel::String(self@.vehicle_name),
            ]);
        self.airsim_client.unary_rpc("moveByVelocityZ".to_owned(), Some(params), waiter)
    }

    /// Asks to set the gains of the position controller.
    pub fn set_position_controller_gains(
        &mut self,
        position_gains: LinearControllerGains<F32Bits>,
        waiter: W,
    ) -> (out: Result<Outgoing, (NetworkError, W)>)
        requires
            old(self).wf(),
        ensures
            final(self).wf(),
            final(self)@.vehicle_name == old(self)@.vehicle_name,
            issued(
                old(self)@.airsim,
                final(self)@.airsim,
                "setPositionControllerGains"@,
                linear_gains_params(position_gains, old(self)@.vehicle_name),
                waiter,
                out,
            ),
    {
        let params = position_gains.as_msgpack(self.vehicle_name.as_str());
        self.airsim_client.unary_rpc("setPositionControllerGains".to_owned(), Some(params), waiter)
    }

    /// Asks the vehicle to fly to a position. The lookahead is `-1.0` and the
    /// adaptive lookahead `1.0` where they are not given.
    pub fn move_to_position_async(
        &mut self,
        position: Position3<F32Bits>,
        velocity: F32Bits,
        timeout_sec: F32Bits,
        drivetrain: DrivetrainType,
        yaw_mode: YawMode<F32Bits>,
        lookahead: Option<F32Bits>,
        adaptive_lookahead: Option<F32Bits>,
        waiter: W,
    ) -> (out: Result<Outgoing, (NetworkError, W)>)
        requires
            old(self).wf(),
        ensures
            final(self).wf(),
            final(self)@.vehicle_name == old(self)@.vehicle_name,
            issued(
                old(self)@.airsim,
                final(self)@.airsim,
                "moveToPosition"@,
                seq![
                    ValueModel::F32(position.x),
                    ValueModel::F32(position.y),
                    ValueModel::F32(position.z),
                    ValueModel::F32(velocity),
                    ValueModel::F32(timeout_sec),
                    ValueModel::Integer(drivetrain.code()),
                    yaw_mode_value(yaw_mode.spec_is_rate(), yaw_mode.spec_yaw_or_rate()),
                    ValueModel::F32(bits_or(lookahead, MINUS_ONE)),
                    ValueModel::F32(bits_or(adaptive_lookahead, ONE)),
                    ValueModel::String(old(self)@.vehicle_name),
                ],
                waiter,
                out,
            ),
    {
        let lookahead_bits: F32Bits = match lookahead {
            Some(bits) => bits,
            None => MINUS_ONE,
        };
        let adaptive_lookahead_bits: F32Bits = match adaptive_lookahead {
            Some(bits) => bits,
            None => ONE,
        };
        let params = vec![
            WireValue::F32(position.x),
            WireValue::F32(position.y),
            WireValue::F32(position.z),
            WireValue::F32(velocity),
            WireValue::F32(timeout_sec),
            drivetrain.as_msgpack(),
            yaw_mode.as_msgpack(),
            WireValue::F32(lookahead_bits),
            WireValue::F32(adaptive_lookahead_bits),
            WireValue::String(self.vehicle_name.clone()),
        ];
        assert(models_of(params@) =~= seq![
                ValueModel::F32(position.x),
                ValueModel::F32(position.y),
                ValueModel::F32(position.z),
                ValueModel::F32(velocity),
                ValueModel::F32(timeout_sec),
                ValueModel::Integer(drivetrain.code()),
                yaw_mode_value(yaw_mode.spec_is_rate(), yaw_mode.spec_yaw_or_rate()),
                ValueModel::F32(bits_or(lookahead, MINUS_ONE)),
                ValueModel::F32(bits_or(adaptive_lookahead, ONE)),
                ValueModel::String(self@.vehicle_name),
            ]);
        self.airsim_client.unary_rpc("moveToPosition".to_owned(), Some(params), waiter)
    }

    /// Asks the vehicle to fly along a path. The lookahead is `-1.0` and the
    /// adaptive lookahead `1.0` where they are not given.
    pub fn move_on_path_async(
        &mut self,
        path: &Path<F32Bits>,
        velocity: F32Bits,
        timeout_sec: F32Bits,
        drivetrain: DrivetrainType,
        yaw_mode: YawMode<F32Bits>,
        lookahead: Option<F32Bits>,
        adaptive_lookahead: Option<F32Bits>,
        waiter: W,
    ) -> (out: Result<Outgoing, (NetworkError, W)>)
        requires
            old(self).wf(),
        ensures
            final(self).wf(),
            final(self)@.vehicle_name == old(self)@.vehicle_name,
            issued(
                old(self)@.airsim,
                final(self)@.airsim,
                "moveOnPath"@,
                seq![
                    path_value(path.0@),
                    ValueModel::F32(velocity),
                    ValueModel::F32(timeout_sec),
                    ValueModel::Integer(drivetrain.code()),
                    yaw_mode_value(yaw_mode.spec_is_rate(), yaw_mode.spec_yaw_or_rate()),
                    ValueModel::F32(bits_or(lookahead, MINUS_ONE)),
                    ValueModel::F32(bits_or(adaptive_lookahead, ONE)),
                    ValueModel::String(old(self)@.vehicle_name),
                ],
                waiter,
                out,
            ),
    {
        let lookahead_bits: F32Bits = match lookahead {
            Some(bits) => bits,
            None => MINUS_ONE,
        };
        let adaptive_lookahead_bits: F32Bits = match adaptive_lookahead {
            Some(bits) => bits,
            None => ONE,
        };
        let params = vec![
            path.as_msgpack(),
            WireValue::F32(velocity),
            WireValue::F32(timeout_sec),
            drivetrain.as_msgpack(),
            yaw_mode.as_msgpack(),
            WireValue::F32(lookahead_bits),
            WireValue::F32(adaptive_lookahead_bits),
            WireValue::String(self.vehicle_name.clone()),
        ];
        assert(models_of(params@) =~= seq![
                path_value(path.0@),
                ValueModel::F32(velocity),
                ValueModel::F32(timeout_sec),
                ValueModel::Integer(drivetrain.code()),
                yaw_mode_value(yaw_mode.spec_is_rate(), yaw_mode.spec_yaw_or_rate()),
                ValueModel::F32(bits_or(lookahead, MINUS_ONE)),
                ValueModel::F32(bits_or(adaptive_lookahead, ONE)),
                ValueModel::String(self@.vehicle_name),
            ]);
        self.airsim_client.unary_rpc("moveOnPath".to_owned(), Some(params), waiter)
    }

    /// Asks the vehicle to fly to a point on the globe. The lookahead is `-1.0`
    /// and the adaptive lookahead `1.0` where they are not given.
    pub fn move_to_gps_async(
        &mut self,
        geopoint: GeoPoint<F32Bits>,
        velocity: F32Bits,
        timeout_sec: F32Bits,
        drivetrain: DrivetrainType,
        yaw_mode: YawMode<F32Bits>,
        lookahead: Option<F32Bits>,
        adaptive_lookahead: Option<F32Bits>,
        waiter: W,
    ) -> (out: Result<Outgoing, (NetworkError, W)>)
        requires
            old(self).wf(),
        ensures
            final(self).wf(),
            final(self)@.vehicle_name == old(self)@.vehicle_name,
            issued(
                old(self)@.airsim,
                final(self)@.airsim,
                "moveToGPS"@,
                seq![
                    ValueModel::F32(geopoint.latitude),
                    ValueModel::F32(geopoint.longitude),
                    ValueModel::F32(geopoint.altitude),
                    ValueModel::F32(velocity),
                    ValueModel::F32(timeout_sec),
                    ValueModel::Integer(drivetrain.code()),
                    yaw_mode_value(yaw_mode.spec_is_rate(), yaw_mode.spec_yaw_or_rate()),
                    ValueModel::F32(bits_or(lookahead, MINUS_ONE)),
                    ValueModel::F32(bits_or(adaptive_lookahead, ONE)),
                    ValueModel::String(old(self)@.vehicle_name),
                ],
                waiter,
                out,
            ),
    {
        let lookahead_bits: F32Bits = match lookahead {
            Some(bits) => bits,
            None => MINUS_ONE,
        };
        let adaptive_lookahead_bits: F32Bits = match adaptive_lookahead {
            Some(bits) => bits,
            None => ONE,
        };
        let params = vec![
            WireValue::F32(geopoint.latitude),
            WireValue::F32(geopoint.longitude),
            WireValue::F32(geopoint.altitude),
            WireValue::F32(velocity),
            WireValue::F32(timeout_sec),
            drivetrain.as_msgpack(),
            yaw_mode.as_msgpack(),
            WireValue::F32(lookahead_bits),
            WireValue::F32(adaptive_lookahead_bits),
            WireValue::String(self.vehicle_name.clone()),
        ];
        assert(models_of(params@) =~= seq![
                ValueModel::F32(geopoint.latitude),
                ValueModel::F32(geopoint.longitude),
                ValueModel::F32(geopoint.altitude),
                ValueModel::F32(velocity),
                ValueModel::F32(timeout_sec),
                ValueModel::Integer(drivetrain.code()),
                yaw_mode_value(yaw_mode.spec_is_rate(), yaw_mode.spec_yaw_or_rate()),
                ValueModel::F32(bits_or(lookahead, MINUS_ONE)),
                ValueModel::F32(bits_or(adaptive_lookahead, ONE)),
                ValueModel::String(self@.vehicle_name),
            ]);
        self.airsim_client.unary_rpc("moveToGPS".to_owned(), Some(params), waiter)
    }

    /// Asks the vehicle to climb or sink to a height. The lookahead is `-1.0`
    /// and the adaptive lookahead `1.0` where they are not given.
    pub fn move_to_z_async(
        &mut self,
        z: F32Bits,
        velocity: F32Bits,
        timeout_sec: F32Bits,
        yaw_mode: YawMode<F32Bits>,
        lookahead: Option<F32Bits>,
        adaptive_lookahead: Option<F32Bits>,
        waiter: W,
    ) -> (out: Result<Outgoing, (NetworkError, W)>)
        requires
            old(self).wf(),
        ensures
            final(self).wf(),
            final(self)@.vehicle_name == old(self)@.vehicle_name,
            issued(
                old(self)@.airsim,
                final(self)@.airsim,
                "moveToZ"@,
                seq![
                    ValueModel::F32(z),
                    ValueModel::F32(velocity),
                    ValueModel::F32(timeout_sec),
                    yaw_mode_value(yaw_mode.spec_is_rate(), yaw_mode.spec_yaw_or_rate()),
                    ValueModel::F32(bits_or(lookahead, MINUS_ONE)),
                    ValueModel::F32(bits_or(adaptive_lookahead, ONE)),
                    ValueModel::String(old(self)@.vehicle_name),
                ],
                waiter,
                out,
            ),
    {
        let lookahead_bits: F32Bits = match lookahead {
            Some(bits) => bits,
            None => MINUS_ONE,
        };
        let adaptive_lookahead_bits: F32Bits = match adaptive_lookahead {
            Some(bits) => bits,
            None => ONE,
        };
        let params = vec![
            WireValue::F32(z),
            WireValue::F32(velocity),
            WireValue::F32(timeout_sec),
            yaw_mode.as_msgpack(),
            WireValue::F32(lookahead_bits),
            WireValue::F32(adaptive_lookahead_bits),
            WireValue::String(self.vehicle_name.clone()),
        ];
        assert(models_of(params@) =~= seq![
                ValueModel::F32(z),
                ValueModel::F32(velocity),
                ValueModel::F32(timeout_sec),
                yaw_mode_value(yaw_mode.spec_is_rate(), yaw_mode.spec_yaw_or_rate()),
                ValueModel::F32(bits_or(lookahead, MINUS_ONE)),
                ValueModel::F32(bits_or(adaptive_lookahead, ONE)),
                ValueModel::String(self@.vehicle_name),
            ]);
        self.airsim_client.unary_rpc("moveToZ".to_owned(), Some(params), waiter)
    }

    /// Asks to put the vehicle under manual control, within a largest
    /// horizontal velocity and above a lowest height, for a duration. The
    /// vertical component of the velocity is not sent.
    pub fn move_by_manual_async(
        &mut self,
        v_max: Velocity3<F32Bits>,
        z_min: F32Bits,
        duration: F32Bits,
        drivetrain: DrivetrainType,
        yaw_mode: YawMode<F32Bits>,
        waiter: W,
    ) -> (out: Result<Outgoing, (NetworkError, W)>)
        requires
            old(self).wf(),
        ensures
            final(self).wf(),
            final(self)@.vehicle_name == old(self)@.vehicle_name,
            issued(
                old(self)@.airsim,
                final(self)@.airsim,
                "moveByManual"@,
                seq![
                    ValueModel::F32(v_max.vx),
                    ValueModel::F32(v_max.vy),
                    ValueModel::F32(z_min),
                    ValueModel::F32(duration),
                    ValueModel::Integer(drivetrain.code()),
                    yaw_mode_value(yaw_mode.spec_is_rate(), yaw_mode.spec_yaw_or_rate()),
                    ValueModel::String(old(self)@.vehicle_name),
                ],
                waiter,
                out,
            ),
    {
        let params = vec![
            WireValue::F32(v_max.vx),
            WireValue::F32(v_max.vy),
            WireValue::F32(z_min),
            WireValue::F32(duration),
            drivetrain.as_msgpack(),
            yaw_mode.as_msgpack(),
            WireValue::String(self.vehicle_name.clone()),
        ];
        assert(models_of(params@) =~= seq![
                ValueModel::F32(v_max.vx),
                ValueModel::F32(v_max.vy),
                ValueModel::F32(z_min),
                ValueModel::F32(duration),
                ValueModel::Integer(drivetrain.code()),
                yaw_mode_value(yaw_mode.spec_is_rate(), yaw_mode.spec_yaw_or_rate()),
                ValueModel::String(self@.vehicle_name),
            ]);
        self.airsim_client.unary_rpc("moveByManual".to_owned(), Some(params), waiter)
    }

    /// Sends one remote-control command.
    pub fn move_by_rc(
        &mut self,
        rc_data: RCData<F32Bits>,
        waiter: W,
    ) -> (out: Result<Outgoing, (NetworkError, W)>)
        requires
            old(self).wf(),
        ensures
            final(self).wf(),
            final(self)@.vehicle_name == old(self)@.vehicle_name,
            issued(
                old(self)@.airsim,
                final(self)@.airsim,
                "moveByRC"@,
                seq![
                    rc_data_value(rc_data),
                    ValueModel::String(old(self)@.vehicle_name),
                ],
                waiter,
                out,
            ),
    {
        let params = vec![
            rc_data.as_msgpack(),
            WireValue::String(self.vehicle_name.clone()),
        ];
        assert(models_of(params@) =~= seq![
                rc_data_value(rc_data),
                ValueModel::String(self@.vehicle_name),
            ]);
        self.airsim_client.unary_rpc("moveByRC".to_owned(), Some(params), waiter)
    }

    /// Asks to drive the four motors directly, for a duration.
    pub fn move_by_motor_pwms_async(
        &mut self,
        pwm: PWM<F32Bits>,
        duration: F32Bits,
        waiter: W,
    ) -> (out: Result<Outgoing, (NetworkError, W)>)
        requires
            old(self).wf(),
        ensures
            final(self).wf(),
            final(self)@.vehicle_name == old(self)@.vehicle_name,
            issued(
                old(self)@.airsim,
                final(self)@.airsim,
                "moveByMotorPWMs"@,
                seq![
                    ValueModel::F32(pwm.front_right_pwm),
                    ValueModel::F32(pwm.rear_left_pwm),
                    ValueModel::F32(pwm.front_left_pwm),
                    ValueModel::F32(pwm.rear_right_pwm),
                    ValueModel::F32(duration),
                    ValueModel::String(old(self)@.vehicle_name),
                ],
                waiter,
                out,
            ),
    {
        let params = vec![
            WireValue::F32(pwm.front_right_pwm),
            WireValue::F32(pwm.rear_left_pwm),
            WireValue::F32(pwm.front_left_pwm),
            WireValue::F32(pwm.rear_right_pwm),
            WireValue::F32(duration),
            WireValue::String(self.vehicle_name.clone()),
        ];
        assert(models_of(params@) =~= seq![
                ValueModel::F32(pwm.front_right_pwm),
                ValueModel::F32(pwm.rear_left_pwm),
                ValueModel::F32(pwm.front_left_pwm),
                ValueModel::F32(pwm.rear_right_pwm),
                ValueModel::F32(duration),
                ValueModel::String(self@.vehicle_name),
            ]);
        self.airsim_client.unary_rpc("moveByMotorPWMs".to_owned(), Some(params), waiter)
    }

    /// Asks to set the gains of the angle rate controller.
    pub fn set_angle_rate_controller_gains(
        &mut self,
        angle_rate_gains: AngularControllerGains<F32Bits>,
        waiter: W,
    ) -> (out: Result<Outgoing, (NetworkError, W)>)
        requires
            old(self).wf(),
        ensures
            final(self).wf(),
            final(self)@.vehicle_name == old(self)@.vehicle_name,
            issued(
                old(self)@.airsim,
                final(self)@.airsim,
                "setAngleRateControllerGains"@,
                angular_gains_params(angle_rate_gains, old(self)@.vehicle_name),
                waiter,
                out,
            ),
    {
        let params = angle_rate_gains.as_msgpack(self.vehicle_name.as_str());
        self.airsim_client.unary_rpc("setAngleRateControllerGains".to_owned(), Some(params), waiter)
    }

    /// Asks to set the gains of the angle level controller.
    pub fn set_angle_level_controller_gains(
        &mut self,
        angle_level_gains: AngularControllerGains<F32Bits>,
        waiter: W,
    ) -> (out: Result<Outgoing, (NetworkError, W)>)
        requires
            old(self).wf(),
        ensures
            final(self).wf(),
            final(self)@.vehicle_name == old(self)@.vehicle_name,
            issued(
                old(self)@.airsim,
                final(self)@.airsim,
                "setAngleLevelControllerGains"@,
                angular_gains_params(angle_level_gains, old(self)@.vehicle_name),
                waiter,
                out,
            ),
    {
        let params = angle_level_gains.as_msgpack(self.vehicle_name.as_str());
        self.airsim_client.unary_rpc(
            "setAngleLevelControllerGains".to_owned(),
            Some(params),
            waiter,
        )
    }

    /// Asks the vehicle to hold an attitude and a height, for a duration.
    /// Pitch and yaw are sent with their signs reversed.
    pub fn move_by_roll_pitch_yaw_z_async(
        &mut self,
        rotation: Orientation3<F32Bits>,
        z: F32Bits,
        duration: F32Bits,
        waiter: W,
    ) -> (out: Result<Outgoing, (NetworkError, W)>)
        requires
            old(self).wf(),
        ensures
            final(self).wf(),
            final(self)@.vehicle_name == old(self)@.vehicle_name,
            issued(
                old(self)@.airsim,
                final(self)@.airsim,
                "moveByRollPitchYawZ"@,
                seq![
                    ValueModel::F32(rotation.roll),
                    ValueModel::F32(negated(rotation.pitch)),
                    ValueModel::F32(negated(rotation.yaw)),
                    ValueModel::F32(z),
                    ValueModel::F32(duration),
                    ValueModel::String(old(self)@.vehicle_name),
                ],
                waiter,
                out,
            ),
    {
        let params = vec![
            WireValue::F32(rotation.roll),
            WireValue::F32(negate(rotation.pitch)),
            WireValue::F32(negate(rotation.yaw)),
            WireValue::F32(z),
            WireValue::F32(duration),
            WireValue::String(self.vehicle_name.clone()),
        ];
        assert(models_of(params@) =~= seq![
                ValueModel::F32(rotation.roll),
                ValueModel::F32(negated(rotation.pitch)),
                ValueModel::F32(negated(rotation.yaw)),
                ValueModel::F32(z),
                ValueModel::F32(duration),
                ValueModel::String(self@.vehicle_name),
            ]);
        self.airsim_client.unary_rpc("moveByRollPitchYawZ".to_owned(), Some(params), waiter)
    }

    /// Asks the vehicle to hold an attitude and a throttle, for a duration.
    /// Pitch and yaw are sent with their signs reversed. The throttle must be a motor signal.
    pub fn move_by_roll_pitch_yaw_throttle_async(
        &mut self,
        rotation: Orientation3<F32Bits>,
        throttle_z: F32Bits,
        duration: F32Bits,
        waiter: W,
    ) -> (out: Result<Outgoing, (NetworkError, W)>)
        requires
            old(self).wf(),
            is_signal(throttle_z),
        ensures
            final(self).wf(),
            final(self)@.vehicle_name == old(self)@.vehicle_name,
            issued(
                old(self)@.airsim,
                final(self)@.airsim,
                "moveByRollPitchYawThrottle"@,
                seq![
                    ValueModel::F32(rotation.roll),
                    ValueModel::F32(negated(rotation.pitch)),
                    ValueModel::F32(negated(rotation.yaw)),
                    ValueModel::F32(throttle_z),
                    ValueModel::F32(duration),
                    ValueModel::String(old(self)@.vehicle_name),
                ],
                waiter,
                out,
            ),
    {
        let params = vec![
            WireValue::F32(rotation.roll),
            WireValue::F32(negate(rotation.pitch)),
            WireValue::F32(negate(rotation.yaw)),
            WireValue::F32(throttle_z),
            WireValue::F32(duration),
            WireValue::String(self.vehicle_name.clone()),
        ];
        assert(models_of(params@) =~= seq![
                ValueModel::F32(rotation.roll),
                ValueModel::F32(negated(rotation.pitch)),
                ValueModel::F32(negated(rotation.yaw)),
                ValueModel::F32(throttle_z),
                ValueModel::F32(duration),
                ValueModel::String(self@.vehicle_name),
            ]);
        self.airsim_client.unary_rpc("moveByRollPitchYawThrottle".to_owned(), Some(params), waiter)
    }

    /// Asks the vehicle to hold roll, pitch, a yaw rate and a throttle, for a
    /// duration. Pitch and yaw rate are sent with their signs reversed. The throttle must be a
    /// motor signal.
    pub fn move_by_roll_pitch_yawrate_throttle_async(
        &mut self,
        rotation: Orientation2<F32Bits>,
        yaw_rate: F32Bits,
        throttle_z: F32Bits,
        duration: F32Bits,
        waiter: W,
    ) -> (out: Result<Outgoing, (NetworkError, W)>)
        requires
            old(self).wf(),
            is_signal(throttle_z),
        ensures
            final(self).wf(),
            final(self)@.vehicle_name == old(self)@.vehicle_name,
            issued(
                old(self)@.airsim,
                final(self)@.airsim,
                "moveByRollPitchYawrateThrottle"@,
                seq![
                    ValueModel::F32(rotation.roll),
                    ValueModel::F32(negated(rotation.pitch)),
                    ValueModel::F32(negated(yaw_rate)),
                    ValueModel::F32(throttle_z),
                    ValueModel::F32(duration),
                    ValueModel::String(old(self)@.vehicle_name),
                ],
                waiter,
                out,
            ),
    {
        let params = vec![
            WireValue::F32(rotation.roll),
            WireValue::F32(negate(rotation.pitch)),
            WireValue::F32(negate(yaw_rate)),
            WireValue::F32(throttle_z),
            WireValue::F32(duration),
            WireValue::String(self.vehicle_name.clone()),
        ];
        assert(models_of(params@) =~= seq![
                ValueModel::F32(rotation.roll),
                ValueModel::F32(negated(rotation.pitch)),
                ValueModel::F32(negated(yaw_rate)),
                ValueModel::F32(throttle_z),
                ValueModel::F32(duration),
                ValueModel::String(self@.vehicle_name),
            ]);
        self.airsim_client.unary_rpc(
            "moveByRollPitchYawrateThrottle".to_owned(),
            Some(params),
            waiter,
        )
    }

    /// Asks the vehicle to hold roll, pitch, a yaw rate and a height, for a
    /// duration. Pitch and yaw rate are sent with their signs reversed.
    pub fn move_by_roll_pitch_yawrate_z_async(
        &mut self,
        rotation: Orientation2<F32Bits>,
        yaw_rate: F32Bits,
        z: F32Bits,
        duration: F32Bits,
        waiter: W,
    ) -> (out: Result<Outgoing, (NetworkError, W)>)
        requires
            old(self).wf(),
        ensures
            final(self).wf(),
            final(self)@.vehicle_name == old(self)@.vehicle_name,
            issued(
                old(self)@.airsim,
                final(self)@.airsim,
                "moveByRollPitchYawrateZ"@,
                seq![
                    ValueModel::F32(rotation.roll),
                    ValueModel::F32(negated(rotation.pitch)),
                    ValueModel::F32(negated(yaw_rate)),
                    ValueModel::F32(z),
                    ValueModel::F32(duration),
                    ValueModel::String(old(self)@.vehicle_name),
                ],
                waiter,
                out,
            ),
    {
        let params = vec![
            WireValue::F32(rotation.roll),
            WireValue::F32(negate(rotation.pitch)),
            WireValue::F32(negate(yaw_rate)),
            WireValue::F32(z),
            WireValue::F32(duration),
            WireValue::String(self.vehicle_name.clone()),
        ];
        assert(models_of(params@) =~= seq![
                ValueModel::F32(rotation.roll),
                ValueModel::F32(negated(rotation.pitch)),
                ValueModel::F32(negated(yaw_rate)),
                ValueModel::F32(z),
                ValueModel::F32(duration),
                ValueModel::String(self@.vehicle_name),
            ]);
        self.airsim_client.unary_rpc("moveByRollPitchYawrateZ".to_owned(), Some(params), waiter)
    }

    /// Asks the vehicle to hold angle rates and a height, for a duration.
    /// The pitch rate and the yaw rate are sent with their signs reversed.
    pub fn move_by_angle_rates_z_async(
        &mut self,
        rotation_rates: Orientation3<F32Bits>,
        z: F32Bits,
        duration: F32Bits,
        waiter: W,
    ) -> (out: Result<Outgoing, (NetworkError, W)>)
        requires
            old(self).wf(),
        ensures
            final(self).wf(),
            final(self)@.vehicle_name == old(self)@.vehicle_name,
            issued(
                old(self)@.airsim,
                final(self)@.airsim,
                "moveByAngleRatesZ"@,
                seq![
                    ValueModel::F32(rotation_rates.roll),
                    ValueModel::F32(negated(rotation_rates.pitch)),
                    ValueModel::F32(negated(rotation_rates.yaw)),
                    ValueModel::F32(z),
                    ValueModel::F32(duration),
                    ValueModel::String(old(self)@.vehicle_name),
                ],
                waiter,
                out,
            ),
    {
        let params = vec![
            WireValue::F32(rotation_rates.roll),
            WireValue::F32(negate(rotation_rates.pitch)),
            WireValue::F32(negate(rotation_rates.yaw)),
            WireValue::F32(z),
            WireValue::F32(duration),
            WireValue::String(self.vehicle_name.clone()),
        ];
        assert(models_of(params@) =~= seq![
                ValueModel::F32(rotation_rates.roll),
                ValueModel::F32(negated(rotation_rates.pitch)),
                ValueModel::F32(negated(rotation_rates.yaw)),
                ValueModel::F32(z),
                ValueModel::F32(duration),
                ValueModel::String(self@.vehicle_name),
            ]);
        self.airsim_client.unary_rpc("moveByAngleRatesZ".to_owned(), Some(params), waiter)
    }

    /// Asks the vehicle to hold angle rates and a throttle, for a duration.
    /// The pitch rate and the yaw rate are sent with their signs reversed. The
    /// throttle must be a motor signal.
    pub fn move_by_angle_rates_throttle_async(
        &mut self,
        rotation_rates: Orientation3<F32Bits>,
        throttle: F32Bits,
        duration: F32Bits,
        waiter: W,
    ) -> (out: Result<Outgoing, (NetworkError, W)>)
        requires
            old(self).wf(),
            is_signal(throttle),
        ensures
            final(self).wf(),
            final(self)@.vehicle_name == old(self)@.vehicle_name,
            issued(
                old(self)@.airsim,
                final(self)@.airsim,
                "moveByAngleRatesThrottle"@,
                seq![
                    ValueModel::F32(rotation_rates.roll),
                    ValueModel::F32(negated(rotation_rates.pitch)),
                    ValueModel::F32(negated(rotation_rates.yaw)),
                    ValueModel::F32(throttle),
                    ValueModel::F32(duration),
                    ValueModel::String(old(self)@.vehicle_name),
                ],
                waiter,
                out,
            ),
    {
        let params = vec![
            WireValue::F32(rotation_rates.roll),
            WireValue::F32(negate(rotation_rates.pitch)),
            WireValue::F32(negate(rotation_rates.yaw)),
            WireValue::F32(throttle),
            WireValue::F32(duration),
            WireValue::String(self.vehicle_name.clone()),
        ];
        assert(models_of(params@) =~= seq![
                ValueModel::F32(rotation_rates.roll),
                ValueModel::F32(negated(rotation_rates.pitch)),
                ValueModel::F32(negated(rotation_rates.yaw)),
                ValueModel::F32(throttle),
                ValueModel::F32(duration),
                ValueModel::String(self@.vehicle_name),
            ]);
        self.airsim_client.unary_rpc("moveByAngleRatesThrottle".to_owned(), Some(params), waiter)
    }

    /// Asks for the state of the vehicle.
    pub fn get_multirotor_state(&mut self, waiter: W) -> (out: Result<Outgoing, (NetworkError, W)>)
        requires
            old(self).wf(),
        ensures
            final(self).wf(),
            final(self)@.vehicle_name == old(self)@.vehicle_name,
            issued(
                old(self)@.airsim,
                final(self)@.airsim,
                "getMultirotorState"@,
                seq![
                    ValueModel::String(old(self)@.vehicle_name),
                ],
                waiter,
                out,
            ),
    {
        let params = vec![
            WireValue::String(self.vehicle_name.clone()),
        ];
        assert(models_of(params@) =~= seq![
                ValueModel::String(self@.vehicle_name),
            ]);
        self.airsim_client.unary_rpc("getMultirotorState".to_owned(), Some(params), waiter)
    }

    /// Asks for the state of the vehicle's rotors.
    pub fn get_rotor_states(&mut self, waiter: W) -> (out: Result<Outgoing, (NetworkError, W)>)
        requires
            old(self).wf(),
        ensures
            final(self).wf(),
            final(self)@.vehicle_name == old(self)@.vehicle_name,
            issued(
                old(self)@.airsim,
                final(self)@.airsim,
                "getRotorStates"@,
                seq![
                    ValueModel::String(old(self)@.vehicle_name),
                ],
                waiter,
                out,
            ),
    {
        let params = vec![
            WireValue::String(self.vehicle_name.clone()),
        ];
        assert(models_of(params@) =~= seq![
                ValueModel::String(self@.vehicle_name),
            ]);
        self.airsim_client.unary_rpc("getRotorStates".to_owned(), Some(params), waiter)
    }

    /// Asks for one compressed image of one of the vehicle's cameras. The
    /// camera is not external where that is not said.
    pub fn sim_get_image(
        &mut self,
        camera_name: &str,
        image_type: ImageType,
        external: Option<bool>,
        waiter: W,
    ) -> (out: Result<Outgoing, (NetworkError, W)>)
        requires
            old(self).wf(),
        ensures
            final(self).wf(),
            final(self)@.vehicle_name == old(self)@.vehicle_name,
            issued(
                old(self)@.airsim,
                final(self)@.airsim,
                "simGetImage"@,
                seq![
                    ValueModel::String(camera_name@),
                    ValueModel::Integer(image_type.code()),
                    ValueModel::String(old(self)@.vehicle_name),
                    ValueModel::Boolean(flag_or_false(external)),
                ],
                waiter,
                out,
            ),
    {
        let external_flag: bool = match external {
            Some(flag) => flag,
            None => false,
        };
        let params = vec![
            WireValue::from_str(camera_name),
            image_type.as_msgpack(),
            WireValue::String(self.vehicle_name.clone()),
            WireValue::Boolean(external_flag),
        ];
        assert(models_of(params@) =~= seq![
                ValueModel::String(camera_name@),
                ValueModel::Integer(image_type.code()),
                ValueModel::String(self@.vehicle_name),
                ValueModel::Boolean(flag_or_false(external)),
            ]);
        self.airsim_client.unary_rpc("simGetImage".to_owned(), Some(params), waiter)
    }
}

} // verus!
