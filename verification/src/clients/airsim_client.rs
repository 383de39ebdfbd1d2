//! The calls that every vehicle understands.
//!
//! A call is issued, not carried out: the method takes the next request id,
//! registers the caller's waiter under it and hands back the bytes of the
//! request. Writing the bytes to the socket and waiting for the response is
//! left to the caller; what a response means is told by
//! [`crate::clients::replies`] and by the readers of the typed results.

use crate::error::{CloseReason, NetworkError, NetworkErrorModel};
use crate::message::{encoded, MessageModel, Notification, Request, RequestModel};
use crate::msgpack::{
    id_in_use_text, refusal, ClientModel, ConnectionState, MsgPackClient, Received,
};
use crate::request_id::{issued_id, RequestIdCounter};
use crate::types::image::{image_requests_value, ImageRequests, ImageType};
use crate::types::number::{F32Bits, F64Bits};
use crate::types::pose::{pose_value, Pose3};
use crate::types::vector::{xyz_value, Vector3};
use crate::value::{models_of, ValueModel, WireValue};
use vstd::prelude::*;

verus! {

/// A request that has been registered and is ready to be written.
#[derive(Debug, PartialEq, Eq)]
pub struct Outgoing {
    /// The id under which the waiter was registered.
    pub id: u32,
    /// The bytes to write to the socket, in one piece.
    pub bytes: Vec<u8>,
}

/// The mathematical content of an [`AirsimClient`].
pub struct AirsimModel<W> {
    /// The connection.
    pub client: ClientModel<W>,
    /// The value of the id counter.
    pub counter: u32,
}

/// What issuing a call does. The next id is taken, whatever comes of the call.
/// The call is registered and encoded exactly when the connection is running
/// and the id is not in flight; otherwise the waiter comes back with the error
/// and the connection is as before.
pub open spec fn issued<W>(
    before: AirsimModel<W>,
    after: AirsimModel<W>,
    method: Seq<char>,
    params: Seq<ValueModel>,
    waiter: W,
    out: Result<Outgoing, (NetworkError, W)>,
) -> bool {
    let id = issued_id(before.counter);
    let request = MessageModel::Request(RequestModel { id, method, params });
    &&& after.counter == id + 1
    &&& after.client.state == before.client.state
    &&& after.client.pending == before.client.pending
    &&& match out {
        Ok(sent) => {
            &&& sent.id == id
            &&& before.client.state is Running
            &&& !before.client.waiters.contains_key(id)
            &&& sent.bytes@ == encoded(request)
            &&& after.client.waiters == before.client.waiters.insert(id, waiter)
        },
        Err((error, back)) => {
            &&& back == waiter
            &&& after.client.waiters == before.client.waiters
            &&& before.client.state is Running ==> before.client.waiters.contains_key(id)
            &&& error@ == match refusal(before.client.state) {
                Some(refused) => refused,
                None => NetworkErrorModel::Send { message: id_in_use_text() },
            }
        },
    }
}

/// The name given, or the empty name where none is given.
pub open spec fn name_or_empty(vehicle_name: Option<&str>) -> Seq<char> {
    match vehicle_name {
        Some(name) => name@,
        None => ""@,
    }
}

/// The flag given, or `false` where none is given.
pub open spec fn flag_or_false(flag: Option<bool>) -> bool {
    match flag {
        Some(flag) => flag,
        None => false,
    }
}

/// A connection to the simulator and the counter that its request ids come
/// from. `W` is whatever a caller waits with.
pub struct AirsimClient<W> {
    client: MsgPackClient<W>,
    last_request_id: RequestIdCounter,
}

impl<W> View for AirsimClient<W> {
    type V = AirsimModel<W>;

    closed spec fn view(&self) -> AirsimModel<W> {
        AirsimModel { client: self.client@, counter: self.last_request_id@ }
    }
}

impl<W> AirsimClient<W> {
    /// What holds of every client: no request is in flight on a connection
    /// that has ended.
    pub open spec fn wf(&self) -> bool {
        self@.client.state is Terminated ==> self@.client.waiters == Map::<u32, W>::empty()
    }

    /// A client whose socket is not open yet and whose first id is zero.
    pub fn new() -> (out: Self)
        ensures
            out.wf(),
            out@ == (AirsimModel {
                client: ClientModel {
                    state: ConnectionState::Connecting,
                    waiters: Map::<u32, W>::empty(),
                    pending: Seq::<u8>::empty(),
                },
                counter: 0,
            }),
    {
        AirsimClient { client: MsgPackClient::new(), last_request_id: RequestIdCounter::new() }
    }

    /// A client whose socket is not open yet and whose ids come from `ids`.
    pub fn with_ids(ids: RequestIdCounter) -> (out: Self)
        ensures
            out.wf(),
            out@ == (AirsimModel {
                client: ClientModel {
                    state: ConnectionState::Connecting,
                    waiters: Map::<u32, W>::empty(),
                    pending: Seq::<u8>::empty(),
                },
                counter: ids@,
            }),
    {
        AirsimClient { client: MsgPackClient::new(), last_request_id: ids }
    }

    /// Where the connection stands.
    pub fn state(&self) -> (state: ConnectionState)
        ensures
            state == self@.client.state,
    {
        self.client.state()
    }

    /// The number of requests in flight.
    pub fn in_flight(&self) -> (n: usize)
        ensures
            n == self@.client.waiters.len(),
    {
        self.client.in_flight()
    }

    /// Records that the socket is open.
    pub fn connected(&mut self)
        requires
            old(self).wf(),
        ensures
            final(self).wf(),
            final(self)@ == (AirsimModel {
                client: ClientModel {
                    state: if old(self)@.client.state is Connecting {
                        ConnectionState::Running
                    } else {
                        old(self)@.client.state
                    },
                    ..old(self)@.client
                },
                ..old(self)@
            }),
    {
        self.client.connected();
    }

    /// Takes in the bytes of one read, as [`MsgPackClient::receive`] does.
    pub fn receive(&mut self, chunk: &[u8]) -> (out: Received<W>)
        requires
            old(self).wf(),
        ensures
            final(self).wf(),
            final(self)@.counter == old(self)@.counter,
            crate::msgpack::received(old(self)@.client, final(self)@.client, chunk@, out),
    {
        self.client.receive(chunk)
    }

    /// Encodes a notification for sending, as [`MsgPackClient::notify`] does.
    pub fn notify(&self, notification: Notification) -> (out: Result<Vec<u8>, NetworkError>)
        ensures
            crate::msgpack::notified(self@.client.state, notification@, out),
    {
        self.client.notify(notification)
    }

    /// Withdraws the request with the given id, as [`MsgPackClient::cancel`]
    /// does.
    pub fn cancel(&mut self, id: u32) -> (out: Option<W>)
        requires
            old(self).wf(),
        ensures
            final(self).wf(),
            final(self)@.counter == old(self)@.counter,
            final(self)@.client.state == old(self)@.client.state,
            final(self)@.client.pending == old(self)@.client.pending,
            final(self)@.client.waiters == old(self)@.client.waiters.remove(id),
            out == (if old(self)@.client.waiters.contains_key(id) {
                Some(old(self)@.client.waiters[id])
            } else {
                None::<W>
            }),
    {
        self.client.cancel(id)
    }

    /// Takes in the outcome of one read of the socket, as
    /// [`MsgPackClient::after_read`] does.
    pub fn after_read(&mut self, read: Option<&[u8]>) -> (out: Received<W>)
        requires
            old(self).wf(),
        ensures
            final(self).wf(),
            final(self)@.counter == old(self)@.counter,
            crate::msgpack::read_taken(old(self)@.client, final(self)@.client, read, out),
    {
        self.client.after_read(read)
    }

    /// Takes in the outcome of one write to the socket, as
    /// [`MsgPackClient::after_write`] does.
    pub fn after_write(&mut self, written: bool) -> (failed: Vec<(u32, W)>)
        requires
            old(self).wf(),
        ensures
            final(self).wf(),
            final(self)@.counter == old(self)@.counter,
            crate::msgpack::write_taken(old(self)@.client, final(self)@.client, written, failed),
    {
        self.client.after_write(written)
    }

    /// Ends the connection, as [`MsgPackClient::close`] does.
    pub fn close(&mut self, reason: CloseReason) -> (failed: Vec<(u32, W)>)
        ensures
            final(self).wf(),
            final(self)@.counter == old(self)@.counter,
            crate::msgpack::ended(old(self)@.client, final(self)@.client, reason, failed),
    {
        self.client.close(reason)
    }

    /// Returns the next request id and advances the counter by one.
    pub fn new_request_id(&mut self) -> (id: u32)
        ensures
            id == issued_id(old(self)@.counter),
            final(self)@.counter == id + 1,
            final(self)@.client == old(self)@.client,
    {
        self.last_request_id.new_request_id()
    }

    /// Issues the call of `method` with `params`, or with no arguments where
    /// none are given: takes the next id, registers `waiter` under it and
    /// encodes the request.
    pub fn unary_rpc(&mut self, method: String, params: Option<Vec<WireValue>>, waiter: W) -> (out:
        Result<Outgoing, (NetworkError, W)>)
        requires
            old(self).wf(),
        ensures
            final(self).wf(),
            issued(
                old(self)@,
                final(self)@,
                method@,
                match params {
                    Some(given) => models_of(given@),
                    None => Seq::<ValueModel>::empty(),
                },
                waiter,
                out,
            ),
    {
        let id = self.last_request_id.new_request_id();
        let params = match params {
            Some(given) => given,
            None => {
                let none: Vec<WireValue> = Vec::new();
                assert(models_of(none@) =~= Seq::<ValueModel>::empty());
                none
            },
        };
        match self.client.request(Request { id, method, params }, waiter) {
            Ok(bytes) => Ok(Outgoing { id, bytes }),
            Err(refused) => Err(refused),
        }
    }

    /// The version of this client.
    pub fn get_client_version() -> (out: u64)
        ensures
            out == 1,
    {
        1
    }

    /// The oldest server version that this client works with.
    pub fn get_min_required_server_version() -> (out: u64)
        ensures
            out == 1,
    {
        Self::get_client_version()
    }

    /// Asks for the server's version.
    pub fn get_server_version(&mut self, waiter: W) -> (out: Result<Outgoing, (NetworkError, W)>)
        requires
            old(self).wf(),
        ensures
            final(self).wf(),
            issued(
                old(self)@,
                final(self)@,
                "getServerVersion"@,
                Seq::<ValueModel>::empty(),
                waiter,
                out,
            ),
    {
        self.unary_rpc("getServerVersion".to_owned(), None, waiter)
    }

    /// Asks for the oldest client version that the server works with.
    pub fn get_min_required_client_version(
        &mut self,
        waiter: W,
    ) -> (out: Result<Outgoing, (NetworkError, W)>)
        requires
            old(self).wf(),
        ensures
            final(self).wf(),
            issued(
                old(self)@,
                final(self)@,
                "getMinRequiredClientVersion"@,
                Seq::<ValueModel>::empty(),
                waiter,
                out,
            ),
    {
        self.unary_rpc("getMinRequiredClientVersion".to_owned(), None, waiter)
    }

    /// Asks to put the vehicle back into its starting state. API control has to
    /// be enabled, and the vehicle armed, anew afterwards.
    pub fn reset(&mut self, waiter: W) -> (out: Result<Outgoing, (NetworkError, W)>)
        requires
            old(self).wf(),
        ensures
            final(self).wf(),
            issued(old(self)@, final(self)@, "reset"@, Seq::<ValueModel>::empty(), waiter, out),
    {
        self.unary_rpc("reset".to_owned(), None, waiter)
    }

    /// Asks whether the server is there.
    pub fn ping(&mut self, waiter: W) -> (out: Result<Outgoing, (NetworkError, W)>)
        requires
            old(self).wf(),
        ensures
            final(self).wf(),
            issued(old(self)@, final(self)@, "ping"@, Seq::<ValueModel>::empty(), waiter, out),
    {
        self.unary_rpc("ping".to_owned(), None, waiter)
    }

    /// Asks to pause the simulation, or to let it go on.
    pub fn sim_pause(
        &mut self,
        is_paused: bool,
        waiter: W,
    ) -> (out: Result<Outgoing, (NetworkError, W)>)
        requires
            old(self).wf(),
        ensures
            final(self).wf(),
            issued(
                old(self)@,
                final(self)@,
                "simPause"@,
                seq![
                    ValueModel::Boolean(is_paused),
                ],
                waiter,
                out,
            ),
    {
        let params = vec![
            WireValue::Boolean(is_paused),
        ];
        assert(models_of(params@) =~= seq![
                ValueModel::Boolean(is_paused),
            ]);
        self.unary_rpc("simPause".to_owned(), Some(params), waiter)
    }

    /// Asks whether the simulation is paused.
    pub fn sim_is_pause(&mut self, waiter: W) -> (out: Result<Outgoing, (NetworkError, W)>)
        requires
            old(self).wf(),
        ensures
            final(self).wf(),
            issued(
                old(self)@,
                final(self)@,
                "simIsPause"@,
                Seq::<ValueModel>::empty(),
                waiter,
                out,
            ),
    {
        self.unary_rpc("simIsPause".to_owned(), None, waiter)
    }

    /// Asks to let the simulation go on for a number of seconds, given as a
    /// double-precision number.
    pub fn sim_continue_for_time(
        &mut self,
        seconds: F64Bits,
        waiter: W,
    ) -> (out: Result<Outgoing, (NetworkError, W)>)
        requires
            old(self).wf(),
        ensures
            final(self).wf(),
            issued(
                old(self)@,
                final(self)@,
                "simContinueFortime"@,
                seq![
                    ValueModel::F64(seconds),
                ],
                waiter,
                out,
            ),
    {
        let params = vec![
            WireValue::F64(seconds),
        ];
        assert(models_of(params@) =~= seq![
                ValueModel::F64(seconds),
            ]);
        self.unary_rpc("simContinueFortime".to_owned(), Some(params), waiter)
    }

    /// Asks to let the simulation go on for a number of frames and to pause it
    /// after them. The call goes under the method name `simContinueFortime`.
    pub fn sim_continue_for_frames(
        &mut self,
        frames: i64,
        waiter: W,
    ) -> (out: Result<Outgoing, (NetworkError, W)>)
        requires
            old(self).wf(),
        ensures
            final(self).wf(),
            issued(
                old(self)@,
                final(self)@,
                "simContinueFortime"@,
                seq![
                    ValueModel::Integer(frames as int),
                ],
                waiter,
                out,
            ),
    {
        let params = vec![
            WireValue::from_i64(frames),
        ];
        assert(models_of(params@) =~= seq![
                ValueModel::Integer(frames as int),
            ]);
        self.unary_rpc("simContinueFortime".to_owned(), Some(params), waiter)
    }

    /// Asks to change the intensity of the light of the given name.
    pub fn sim_set_light_intensity(
        &mut self,
        light_name: &str,
        intensity: F32Bits,
        waiter: W,
    ) -> (out: Result<Outgoing, (NetworkError, W)>)
        requires
            old(self).wf(),
        ensures
            final(self).wf(),
            issued(
                old(self)@,
                final(self)@,
                "simSetLightIntensity"@,
                seq![
                    ValueModel::String(light_name@),
                    ValueModel::F32(intensity),
                ],
                waiter,
                out,
            ),
    {
        let params = vec![
            WireValue::from_str(light_name),
            WireValue::F32(intensity),
        ];
        assert(models_of(params@) =~= seq![
                ValueModel::String(light_name@),
                ValueModel::F32(intensity),
            ]);
        self.unary_rpc("simSetLightIntensity".to_owned(), Some(params), waiter)
    }

    /// Asks for the names of the scene's objects that match an expression.
    pub fn sim_list_scene_objects(
        &mut self,
        name_regex: &str,
        waiter: W,
    ) -> (out: Result<Outgoing, (NetworkError, W)>)
        requires
            old(self).wf(),
        ensures
            final(self).wf(),
            issued(
                old(self)@,
                final(self)@,
                "simListSceneObjects"@,
                seq![
                    ValueModel::String(name_regex@),
                ],
                waiter,
                out,
            ),
    {
        let params = vec![
            WireValue::from_str(name_regex),
        ];
        assert(models_of(params@) =~= seq![
                ValueModel::String(name_regex@),
            ]);
        self.unary_rpc("simListSceneObjects".to_owned(), Some(params), waiter)
    }

    /// Asks for the pose of an object, in the world frame.
    pub fn sim_get_object_pose(
        &mut self,
        name_regex: &str,
        waiter: W,
    ) -> (out: Result<Outgoing, (NetworkError, W)>)
        requires
            old(self).wf(),
        ensures
            final(self).wf(),
            issued(
                old(self)@,
                final(self)@,
                "simGetObjectPose"@,
                seq![
                    ValueModel::String(name_regex@),
                ],
                waiter,
                out,
            ),
    {
        let params = vec![
            WireValue::from_str(name_regex),
        ];
        assert(models_of(params@) =~= seq![
                ValueModel::String(name_regex@),
            ]);
        self.unary_rpc("simGetObjectPose".to_owned(), Some(params), waiter)
    }

    /// Asks to remove an object from the world.
    pub fn sim_destroy_object(
        &mut self,
        name_regex: &str,
        waiter: W,
    ) -> (out: Result<Outgoing, (NetworkError, W)>)
        requires
            old(self).wf(),
        ensures
            final(self).wf(),
            issued(
                old(self)@,
                final(self)@,
                "simDestroyObject"@,
                seq![
                    ValueModel::String(name_regex@),
                ],
                waiter,
                out,
            ),
    {
        let params = vec![
            WireValue::from_str(name_regex),
        ];
        assert(models_of(params@) =~= seq![
                ValueModel::String(name_regex@),
            ]);
        self.unary_rpc("simDestroyObject".to_owned(), Some(params), waiter)
    }

    /// Asks to put a new object into the world. Physics and blueprint are off
    /// where they are not given.
    pub fn sim_spawn_object(
        &mut self,
        name_regex: &str,
        asset_name: &str,
        pose: Pose3<F32Bits>,
        scale: Vector3<F32Bits>,
        physics_enabled: Option<bool>,
        is_blueprint: Option<bool>,
        waiter: W,
    ) -> (out: Result<Outgoing, (NetworkError, W)>)
        requires
            old(self).wf(),
        ensures
            final(self).wf(),
            issued(
                old(self)@,
                final(self)@,
                "simSpawnObject"@,
                seq![
                    ValueModel::String(name_regex@),
                    ValueModel::String(asset_name@),
                    pose_value(pose),
                    xyz_value(scale.x, scale.y, scale.z),
                    ValueModel::Boolean(flag_or_false(physics_enabled)),
                    ValueModel::Boolean(flag_or_false(is_blueprint)),
                ],
                waiter,
                out,
            ),
    {
        let physics_enabled_flag: bool = match physics_enabled {
            Some(flag) => flag,
            None => false,
        };
        let is_blueprint_flag: bool = match is_blueprint {
            Some(flag) => flag,
            None => false,
        };
        let params = vec![
            WireValue::from_str(name_regex),
            WireValue::from_str(asset_name),
            pose.as_msgpack(),
            scale.as_msgpack(),
            WireValue::Boolean(physics_enabled_flag),
            WireValue::Boolean(is_blueprint_flag),
        ];
        assert(models_of(params@) =~= seq![
                ValueModel::String(name_regex@),
                ValueModel::String(asset_name@),
                pose_value(pose),
                xyz_value(scale.x, scale.y, scale.z),
                ValueModel::Boolean(flag_or_false(physics_enabled)),
                ValueModel::Boolean(flag_or_false(is_blueprint)),
            ]);
        self.unary_rpc("simSpawnObject".to_owned(), Some(params), waiter)
    }

    /// Asks to enable or disable API control for a vehicle; no name stands for
    /// the default vehicle.
    pub fn enable_api_control(
        &mut self,
        is_enabled: bool,
        vehicle_name: Option<&str>,
        waiter: W,
    ) -> (out: Result<Outgoing, (NetworkError, W)>)
        requires
            old(self).wf(),
        ensures
            final(self).wf(),
            issued(
                old(self)@,
                final(self)@,
                "enableApiControl"@,
                seq![
                    ValueModel::Boolean(is_enabled),
                    ValueModel::String(name_or_empty(vehicle_name)),
                ],
                waiter,
                out,
            ),
    {
        let vehicle_name_text: &str = match vehicle_name {
            Some(name) => name,
            None => "",
        };
        let params = vec![
            WireValue::Boolean(is_enabled),
            WireValue::from_str(vehicle_name_text),
        ];
        assert(models_of(params@) =~= seq![
                ValueModel::Boolean(is_enabled),
                ValueModel::String(name_or_empty(vehicle_name)),
            ]);
        self.unary_rpc("enableApiControl".to_owned(), Some(params), waiter)
    }

    /// Asks whether API control is enabled for a vehicle; no name stands for
    /// the default vehicle.
    pub fn is_api_control_enabled(
        &mut self,
        is_enabled: bool,
        vehicle_name: Option<&str>,
        waiter: W,
    ) -> (out: Result<Outgoing, (NetworkError, W)>)
        requires
            old(self).wf(),
        ensures
            final(self).wf(),
            issued(
                old(self)@,
                final(self)@,
                "isApiControlEnabled"@,
                seq![
                    ValueModel::Boolean(is_enabled),
                    ValueModel::String(name_or_empty(vehicle_name)),
                ],
                waiter,
                out,
            ),
    {
        let vehicle_name_text: &str = match vehicle_name {
            Some(name) => name,
            None => "",
        };
        let params = vec![
            WireValue::Boolean(is_enabled),
            WireValue::from_str(vehicle_name_text),
        ];
        assert(models_of(params@) =~= seq![
                ValueModel::Boolean(is_enabled),
                ValueModel::String(name_or_empty(vehicle_name)),
            ]);
        self.unary_rpc("isApiControlEnabled".to_owned(), Some(params), waiter)
    }

    /// Asks to arm or disarm a vehicle; no name stands for the default vehicle.
    pub fn arm_disarm(
        &mut self,
        arm: bool,
        vehicle_name: Option<&str>,
        waiter: W,
    ) -> (out: Result<Outgoing, (NetworkError, W)>)
        requires
            old(self).wf(),
        ensures
            final(self).wf(),
            issued(
                old(self)@,
                final(self)@,
                "armDisarm"@,
                seq![
                    ValueModel::Boolean(arm),
                    ValueModel::String(name_or_empty(vehicle_name)),
                ],
                waiter,
                out,
            ),
    {
        let vehicle_name_text: &str = match vehicle_name {
            Some(name) => name,
            None => "",
        };
        let params = vec![
            WireValue::Boolean(arm),
            WireValue::from_str(vehicle_name_text),
        ];
        assert(models_of(params@) =~= seq![
                ValueModel::Boolean(arm),
                ValueModel::String(name_or_empty(vehicle_name)),
            ]);
        self.unary_rpc("armDisarm".to_owned(), Some(params), waiter)
    }

    /// Asks for the home location of a vehicle; no name stands for the default
    /// vehicle.
    pub fn get_home_geo_point(
        &mut self,
        vehicle_name: Option<&str>,
        waiter: W,
    ) -> (out: Result<Outgoing, (NetworkError, W)>)
        requires
            old(self).wf(),
        ensures
            final(self).wf(),
            issued(
                old(self)@,
                final(self)@,
                "getHomeGeoPoint"@,
                seq![
                    ValueModel::String(name_or_empty(vehicle_name)),
                ],
                waiter,
                out,
            ),
    {
        let vehicle_name_text: &str = match vehicle_name {
            Some(name) => name,
            None => "",
        };
        let params = vec![
            WireValue::from_str(vehicle_name_text),
        ];
        assert(models_of(params@) =~= seq![
                ValueModel::String(name_or_empty(vehicle_name)),
            ]);
        self.unary_rpc("getHomeGeoPoint".to_owned(), Some(params), waiter)
    }

    /// Asks for one compressed image of a camera. The camera is not external
    /// where that is not said.
    pub fn sim_get_image(
        &mut self,
        vehicle_name: Option<&str>,
        camera_name: &str,
        image_type: ImageType,
        external: Option<bool>,
        waiter: W,
    ) -> (out: Result<Outgoing, (NetworkError, W)>)
        requires
            old(self).wf(),
        ensures
            final(self).wf(),
            issued(
                old(self)@,
                final(self)@,
                "simGetImage"@,
                seq![
                    ValueModel::String(camera_name@),
                    ValueModel::Integer(image_type.code()),
                    ValueModel::String(name_or_empty(vehicle_name)),
                    ValueModel::Boolean(flag_or_false(external)),
                ],
                waiter,
                out,
            ),
    {
        let vehicle_name_text: &str = match vehicle_name {
            Some(name) => name,
            None => "",
        };
        let external_flag: bool = match external {
            Some(flag) => flag,
            None => false,
        };
        let params = vec![
            WireValue::from_str(camera_name),
            image_type.as_msgpack(),
            WireValue::from_str(vehicle_name_text),
            WireValue::Boolean(external_flag),
        ];
        assert(models_of(params@) =~= seq![
                ValueModel::String(camera_name@),
                ValueModel::Integer(image_type.code()),
                ValueModel::String(name_or_empty(vehicle_name)),
                ValueModel::Boolean(flag_or_false(external)),
            ]);
        self.unary_rpc("simGetImage".to_owned(), Some(params), waiter)
    }

    /// Asks for several images at once. The cameras are not external where that
    /// is not said.
    pub fn sim_get_images(
        &mut self,
        requests: &ImageRequests,
        vehicle_name: Option<&str>,
        external: Option<bool>,
        waiter: W,
    ) -> (out: Result<Outgoing, (NetworkError, W)>)
        requires
            old(self).wf(),
        ensures
            final(self).wf(),
            issued(
                old(self)@,
                final(self)@,
                "simGetImages"@,
                seq![
                    image_requests_value(requests@),
                    ValueModel::String(name_or_empty(vehicle_name)),
                    ValueModel::Boolean(flag_or_false(external)),
                ],
                waiter,
                out,
            ),
    {
        let vehicle_name_text: &str = match vehicle_name {
            Some(name) => name,
            None => "",
        };
        let external_flag: bool = match external {
            Some(flag) => flag,
            None => false,
        };
        let params = vec![
            requests.as_msgpack(),
            WireValue::from_str(vehicle_name_text),
            WireValue::Boolean(external_flag),
        ];
        assert(models_of(params@) =~= seq![
                image_requests_value(requests@),
                ValueModel::String(name_or_empty(vehicle_name)),
                ValueModel::Boolean(flag_or_false(external)),
            ]);
        self.unary_rpc("simGetImages".to_owned(), Some(params), waiter)
    }

    /// Asks a vehicle to take off; the timeout is in whole seconds. No name
    /// stands for the default vehicle.
    pub fn take_off(
        &mut self,
        timeout_sec: u64,
        vehicle_name: Option<&str>,
        waiter: W,
    ) -> (out: Result<Outgoing, (NetworkError, W)>)
        requires
            old(self).wf(),
        ensures
            final(self).wf(),
            issued(
                old(self)@,
                final(self)@,
                "takeoff"@,
                seq![
                    ValueModel::Integer(timeout_sec as int),
                    ValueModel::String(name_or_empty(vehicle_name)),
                ],
                waiter,
                out,
            ),
    {
        let vehicle_name_text: &str = match vehicle_name {
            Some(name) => name,
            None => "",
        };
        let params = vec![
            WireValue::from_u64(timeout_sec),
            WireValue::from_str(vehicle_name_text),
        ];
        assert(models_of(params@) =~= seq![
                ValueModel::Integer(timeout_sec as int),
                ValueModel::String(name_or_empty(vehicle_name)),
            ]);
        self.unary_rpc("takeoff".to_owned(), Some(params), waiter)
    }
}

} // verus!
