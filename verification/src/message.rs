//! The three message shapes of the protocol and their form as a value.
//!
//! On the wire a message is one array value:
//! a request is `[0, id, method, params]`, a response is
//! `[1, id, error, result]` and a notification is `[2, method, params]`.

use crate::codec::{parsed, read_value, serialized, write_value, ReadFailure};
use crate::error::DecodeError;
use crate::value::{models_of, Integer, ValueModel, WireValue};
use vstd::prelude::*;

verus! {

/// The tag that opens a request array.
pub const REQUEST_MESSAGE: u64 = 0;

/// The tag that opens a response array.
pub const RESPONSE_MESSAGE: u64 = 1;

/// The tag that opens a notification array.
pub const NOTIFICATION_MESSAGE: u64 = 2;

/// A call that expects a reply.
#[derive(Debug, PartialEq, Eq)]
pub struct Request {
    /// Pairs the reply with this call.
    pub id: u32,
    /// The name of the method to call.
    pub method: String,
    /// The arguments, in order.
    pub params: Vec<WireValue>,
}

/// The reply to a request.
#[derive(Debug, PartialEq, Eq)]
pub struct Response {
    /// The id of the request that this answers.
    pub id: u32,
    /// The value returned, or the error value reported by the peer.
    pub result: Result<WireValue, WireValue>,
}

/// A call that expects no reply.
#[derive(Debug, PartialEq, Eq)]
pub struct Notification {
    /// The name of the method to call.
    pub method: String,
    /// The arguments, in order.
    pub params: Vec<WireValue>,
}

/// One unit of exchange over the connection.
#[derive(Debug, PartialEq, Eq)]
pub enum Message {
    Request(Request),
    Response(Response),
    Notification(Notification),
}

/// The mathematical content of a [`Request`].
pub struct RequestModel {
    pub id: u32,
    pub method: Seq<char>,
    pub params: Seq<ValueModel>,
}

/// The mathematical content of a [`Response`].
pub struct ResponseModel {
    pub id: u32,
    pub result: Result<ValueModel, ValueModel>,
}

/// The mathematical content of a [`Notification`].
pub struct NotificationModel {
    pub method: Seq<char>,
    pub params: Seq<ValueModel>,
}

/// The mathematical content of a [`Message`].
pub enum MessageModel {
    Request(RequestModel),
    Response(ResponseModel),
    Notification(NotificationModel),
}

impl View for Request {
    type V = RequestModel;

    open spec fn view(&self) -> RequestModel {
        RequestModel { id: self.id, method: self.method@, params: models_of(self.params@) }
    }
}

/// The model of a response's payload.
pub open spec fn result_model(result: Result<WireValue, WireValue>) -> Result<
    ValueModel,
    ValueModel,
> {
    match result {
        Ok(value) => Ok(value@),
        Err(error) => Err(error@),
    }
}

impl View for Response {
    type V = ResponseModel;

    open spec fn view(&self) -> ResponseModel {
        ResponseModel { id: self.id, result: result_model(self.result) }
    }
}

impl View for Notification {
    type V = NotificationModel;

    open spec fn view(&self) -> NotificationModel {
        NotificationModel { method: self.method@, params: models_of(self.params@) }
    }
}

impl View for Message {
    type V = MessageModel;

    open spec fn view(&self) -> MessageModel {
        match self {
            Message::Request(request) => MessageModel::Request(request@),
            Message::Response(response) => MessageModel::Response(response@),
            Message::Notification(notification) => MessageModel::Notification(notification@),
        }
    }
}

/// The array value that stands for a message on the wire.
pub open spec fn message_value(message: MessageModel) -> ValueModel {
    match message {
        MessageModel::Request(request) => ValueModel::Array(
            seq![
                ValueModel::Integer(REQUEST_MESSAGE as int),
                ValueModel::Integer(request.id as int),
                ValueModel::String(request.method),
                ValueModel::Array(request.params),
            ],
        ),
        MessageModel::Response(response) => ValueModel::Array(
            seq![
                ValueModel::Integer(RESPONSE_MESSAGE as int),
                ValueModel::Integer(response.id as int),
                match response.result {
                    Ok(_) => ValueModel::Nil,
                    Err(error) => error,
                },
                match response.result {
                    Ok(value) => value,
                    Err(_) => ValueModel::Nil,
                },
            ],
        ),
        MessageModel::Notification(notification) => ValueModel::Array(
            seq![
                ValueModel::Integer(NOTIFICATION_MESSAGE as int),
                ValueModel::String(notification.method),
                ValueModel::Array(notification.params),
            ],
        ),
    }
}

/// The request that an array of values stands for, if it has the shape of one:
/// at least four items, of which the second is an id that fits 32 bits, the
/// third a text string and the fourth an array.
pub open spec fn request_of(items: Seq<ValueModel>) -> Result<MessageModel, DecodeError> {
    if items.len() >= 4 && items[1] is Integer && 0 <= items[1]->Integer_0 <= u32::MAX
        && items[2] is String && items[3] is Array {
        Ok(
            MessageModel::Request(
                RequestModel {
                    id: items[1]->Integer_0 as u32,
                    method: items[2]->String_0,
                    params: items[3]->Array_0,
                },
            ),
        )
    } else {
        Err(DecodeError::Invalid)
    }
}

/// The response that an array of values stands for, if it has the shape of
/// one: at least four items, of which the second is an id that fits 32 bits.
/// A third item other than nil is the error; otherwise the fourth is the
/// result.
pub open spec fn response_of(items: Seq<ValueModel>) -> Result<MessageModel, DecodeError> {
    if items.len() >= 4 && items[1] is Integer && 0 <= items[1]->Integer_0 <= u32::MAX {
        Ok(
            MessageModel::Response(
                ResponseModel {
                    id: items[1]->Integer_0 as u32,
                    result: if items[2] is Nil {
                        Ok(items[3])
                    } else {
                        Err(items[2])
                    },
                },
            ),
        )
    } else {
        Err(DecodeError::Invalid)
    }
}

/// The notification that an array of values stands for, if it has the shape of
/// one: at least three items, of which the second is a text string and the
/// third an array.
pub open spec fn notification_of(items: Seq<ValueModel>) -> Result<MessageModel, DecodeError> {
    if items.len() >= 3 && items[1] is String && items[2] is Array {
        Ok(
            MessageModel::Notification(
                NotificationModel { method: items[1]->String_0, params: items[2]->Array_0 },
            ),
        )
    } else {
        Err(DecodeError::Invalid)
    }
}

/// The message that a value stands for: the value is an array of at least
/// three items whose first is the tag of one of the three shapes, and the rest
/// has that shape. Every other value is `Invalid`.
///
/// This is stricter than the decoder of the `msgpack-rpc` crate in two places.
/// A response of three items is `Invalid`, where that decoder takes a third
/// item other than nil for the error and does not return at all on nil. An id
/// that does not fit 32 bits is `Invalid`, where that decoder cuts it down to
/// its low 32 bits.
pub open spec fn value_message(value: ValueModel) -> Result<MessageModel, DecodeError> {
    match value {
        ValueModel::Array(items) => {
            if items.len() >= 3 && items[0] is Integer {
                let tag = items[0]->Integer_0;
                if tag == REQUEST_MESSAGE {
                    request_of(items)
                } else if tag == RESPONSE_MESSAGE {
                    response_of(items)
                } else if tag == NOTIFICATION_MESSAGE {
                    notification_of(items)
                } else {
                    Err(DecodeError::Invalid)
                }
            } else {
                Err(DecodeError::Invalid)
            }
        },
        _ => Err(DecodeError::Invalid),
    }
}

/// The model of what [`Message::from_value`] and [`Message::decode`] hand back.
pub open spec fn message_outcome(out: Result<Message, DecodeError>) -> Result<
    MessageModel,
    DecodeError,
> {
    match out {
        Ok(message) => Ok(message@),
        Err(error) => Err(error),
    }
}

/// What decoding makes of a buffer that starts with `bytes`: the message at
/// the front and the number of bytes it takes up, or the reason why there is
/// none. The value grammar is that of [`parsed`]; the shape of the value read
/// is that of [`value_message`]. A reader that claims to have taken no byte,
/// or more bytes than there are, has failed.
pub open spec fn decoded(bytes: Seq<u8>) -> Result<(MessageModel, nat), DecodeError> {
    match parsed(bytes) {
        Ok((value, taken)) => if 0 < taken <= bytes.len() {
            match value_message(value) {
                Ok(message) => Ok((message, taken)),
                Err(error) => Err(error),
            }
        } else {
            Err(DecodeError::UnknownIo)
        },
        Err(ReadFailure::Truncated) => Err(DecodeError::Truncated),
        Err(ReadFailure::DepthLimitExceeded) => Err(DecodeError::DepthLimitExceeded),
        Err(ReadFailure::Io) => Err(DecodeError::UnknownIo),
    }
}

/// The bytes of a message on the wire.
pub open spec fn encoded(message: MessageModel) -> Seq<u8> {
    serialized(message_value(message))
}

/// The model of what [`Message::decode`] hands back.
pub open spec fn decode_outcome(out: Result<(Message, usize), DecodeError>) -> Result<
    (MessageModel, nat),
    DecodeError,
> {
    match out {
        Ok((message, taken)) => Ok((message@, taken as nat)),
        Err(error) => Err(error),
    }
}

/// The id carried by an integer item, when it fits 32 bits.
fn id_of(item: &WireValue) -> (out: Option<u32>)
    ensures
        out == (if item@ is Integer && 0 <= item@->Integer_0 <= u32::MAX {
            Some(item@->Integer_0 as u32)
        } else {
            None::<u32>
        }),
{
    match item {
        WireValue::Integer(n) => match n.as_u64() {
            Some(wide) => if wide <= 0xffff_ffff {
                Some(wide as u32)
            } else {
                None
            },
            None => None,
        },
        _ => None,
    }
}

/// Builds the request that `items` stands for.
fn request_from(items: Vec<WireValue>) -> (out: Result<Message, DecodeError>)
    ensures
        message_outcome(out) == request_of(models_of(items@)),
{
    let mut items = items;
    let ghost all = items@;
    if items.len() < 4 {
        return Err(DecodeError::Invalid);
    }
    items.truncate(4);
    let params = items.pop().unwrap();
    let method = items.pop().unwrap();
    let id = id_of(&items[1]);
    assert(params == all[3] && method == all[2] && items@[1] == all[1]);
    match (id, method, params) {
        (Some(id), WireValue::String(method), WireValue::Array(params)) => Ok(
            Message::Request(Request { id, method, params }),
        ),
        _ => Err(DecodeError::Invalid),
    }
}

/// Builds the response that `items` stands for.
fn response_from(items: Vec<WireValue>) -> (out: Result<Message, DecodeError>)
    ensures
        message_outcome(out) == response_of(models_of(items@)),
{
    let mut items = items;
    let ghost all = items@;
    if items.len() < 4 {
        return Err(DecodeError::Invalid);
    }
    items.truncate(4);
    let value = items.pop().unwrap();
    let error = items.pop().unwrap();
    let id = id_of(&items[1]);
    assert(value == all[3] && error == all[2] && items@[1] == all[1]);
    match id {
        Some(id) => match error {
            WireValue::Nil => Ok(Message::Response(Response { id, result: Ok(value) })),
            error => Ok(Message::Response(Response { id, result: Err(error) })),
        },
        None => Err(DecodeError::Invalid),
    }
}

/// Builds the notification that `items` stands for.
fn notification_from(items: Vec<WireValue>) -> (out: Result<Message, DecodeError>)
    ensures
        message_outcome(out) == notification_of(models_of(items@)),
{
    let mut items = items;
    let ghost all = items@;
    if items.len() < 3 {
        return Err(DecodeError::Invalid);
    }
    items.truncate(3);
    let params = items.pop().unwrap();
    let method = items.pop().unwrap();
    assert(params == all[2] && method == all[1]);
    match (method, params) {
        (WireValue::String(method), WireValue::Array(params)) => Ok(
            Message::Notification(Notification { method, params }),
        ),
        _ => Err(DecodeError::Invalid),
    }
}

impl Message {
    /// The array value that stands for the message on the wire.
    pub fn into_value(self) -> (out: WireValue)
        ensures
            out@ == message_value(self@),
    {
        let items = match self {
            Message::Request(request) => {
                let items = vec![
                    WireValue::Integer(Integer::from_u64(REQUEST_MESSAGE)),
                    WireValue::Integer(Integer::from_u64(request.id as u64)),
                    WireValue::String(request.method),
                    WireValue::Array(request.params),
                ];
                assert(models_of(items@) =~= message_value(self@)->Array_0);
                items
            },
            Message::Response(response) => {
                let (error, value) = match response.result {
                    Ok(value) => (WireValue::Nil, value),
                    Err(error) => (error, WireValue::Nil),
                };
                let items = vec![
                    WireValue::Integer(Integer::from_u64(RESPONSE_MESSAGE)),
                    WireValue::Integer(Integer::from_u64(response.id as u64)),
                    error,
                    value,
                ];
                assert(models_of(items@) =~= message_value(self@)->Array_0);
                items
            },
            Message::Notification(notification) => {
                let items = vec![
                    WireValue::Integer(Integer::from_u64(NOTIFICATION_MESSAGE)),
                    WireValue::String(notification.method),
                    WireValue::Array(notification.params),
                ];
                assert(models_of(items@) =~= message_value(self@)->Array_0);
                items
            },
        };
        WireValue::Array(items)
    }

    /// Reads a message off a value: `Ok` exactly for the values that
    /// [`value_message`] accepts, `Invalid` for all others.
    pub fn from_value(value: WireValue) -> (out: Result<Message, DecodeError>)
        ensures
            message_outcome(out) == value_message(value@),
    {
        let items = match value {
            WireValue::Array(items) => items,
            _ => {
                return Err(DecodeError::Invalid);
            },
        };
        assert(value@ == ValueModel::Array(models_of(items@)));
        assert(models_of(items@).len() == items@.len());
        if items.len() < 3 {
            return Err(DecodeError::Invalid);
        }
        let tag = match &items[0] {
            WireValue::Integer(n) => n.as_u64(),
            _ => None,
        };
        match tag {
            Some(REQUEST_MESSAGE) => request_from(items),
            Some(RESPONSE_MESSAGE) => response_from(items),
            Some(NOTIFICATION_MESSAGE) => notification_from(items),
            _ => Err(DecodeError::Invalid),
        }
    }

    /// Attempts to decode one message from the front of `bytes`.
    ///
    /// On success the second component is the offset of the first byte that
    /// the message does not cover. `Truncated` means that `bytes` ends before
    /// the value at its front does.
    pub fn decode(bytes: &[u8]) -> (out: Result<(Message, usize), DecodeError>)
        ensures
            decode_outcome(out) == decoded(bytes@),
            out matches Ok((_, taken)) ==> 0 < taken <= bytes@.len(),
    {
        match read_value(bytes) {
            Ok((value, taken)) => if 0 < taken && taken <= bytes.len() {
                match Message::from_value(value) {
                    Ok(message) => Ok((message, taken)),
                    Err(error) => Err(error),
                }
            } else {
                Err(DecodeError::UnknownIo)
            },
            Err(ReadFailure::Truncated) => Err(DecodeError::Truncated),
            Err(ReadFailure::DepthLimitExceeded) => Err(DecodeError::DepthLimitExceeded),
            Err(ReadFailure::Io) => Err(DecodeError::UnknownIo),
        }
    }

    /// The bytes of the message on the wire.
    pub fn pack(self) -> (out: Vec<u8>)
        ensures
            out@ == encoded(self@),
    {
        let value = self.into_value();
        write_value(&value)
    }
}

/// Whether reading a message back from its value can give the same message.
/// The one message that cannot come back is a response whose error is nil: on
/// the wire a nil error means success.
pub open spec fn survives_round_trip(message: MessageModel) -> bool {
    message matches MessageModel::Response(response) ==> response.result != Err::<
        ValueModel,
        ValueModel,
    >(ValueModel::Nil)
}

/// Reading a message back from the value that stands for it gives the message
/// again: for every request, every notification, and every response but one
/// whose error is nil.
pub proof fn lemma_value_round_trip(message: MessageModel)
    requires
        survives_round_trip(message),
    ensures
        value_message(message_value(message)) == Ok::<MessageModel, DecodeError>(message),
{
}

/// Decoding the bytes of an encoded message gives the message again and takes
/// up all of the bytes, wherever the value reader reads back in full the value
/// that the value writer wrote.
pub proof fn lemma_decode_encode(message: MessageModel)
    requires
        survives_round_trip(message),
        encoded(message).len() > 0,
        parsed(encoded(message)) == Ok::<(ValueModel, nat), ReadFailure>(
            (message_value(message), encoded(message).len()),
        ),
    ensures
        decoded(encoded(message)) == Ok::<(MessageModel, nat), DecodeError>(
            (message, encoded(message).len()),
        ),
{
    lemma_value_round_trip(message);
}

} // verus!
