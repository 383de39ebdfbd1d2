//! Cutting a byte stream into messages.
//!
//! The stream carries no lengths: where one message ends is known only once
//! its value has been read in full. The decoder therefore keeps every byte it
//! was fed until a whole message stands at the front of them.

use crate::error::DecodeError;
use crate::message::{decoded, Message, MessageModel};
use vstd::prelude::*;

verus! {

/// What one attempt to take a message off the front of the pending bytes
/// yields, and the bytes that stay pending after it.
pub struct Step {
    /// The message taken, `None` where more bytes are needed, or the error
    /// that ends the stream.
    pub outcome: Result<Option<MessageModel>, DecodeError>,
    /// The bytes that are still pending.
    pub rest: Seq<u8>,
}

/// One attempt on `pending`. A message at the front is taken and its bytes
/// leave; where the bytes end too early nothing changes and nothing is wrong;
/// any other error is reported and the bytes stay.
pub open spec fn step(pending: Seq<u8>) -> Step {
    match decoded(pending) {
        Ok((message, taken)) => Step {
            outcome: Ok(Some(message)),
            rest: pending.skip(taken as int),
        },
        Err(DecodeError::Truncated) => Step { outcome: Ok(None), rest: pending },
        Err(error) => Step { outcome: Err(error), rest: pending },
    }
}

/// What repeated attempts on the pending bytes yield, up to the first attempt
/// that takes nothing.
pub struct Run {
    /// The messages taken, in stream order.
    pub messages: Seq<MessageModel>,
    /// The bytes that are still pending.
    pub rest: Seq<u8>,
    /// The error that ended the stream, if one did.
    pub failure: Option<DecodeError>,
}

/// Repeated attempts on `pending`: every whole message at the front is taken
/// in turn, until the bytes end too early or an error ends the stream.
pub open spec fn run(pending: Seq<u8>) -> Run
    decreases pending.len(),
{
    let now = step(pending);
    match now.outcome {
        Ok(Some(message)) => {
            if now.rest.len() < pending.len() {
                let later = run(now.rest);
                Run {
                    messages: seq![message] + later.messages,
                    rest: later.rest,
                    failure: later.failure,
                }
            } else {
                // Not reached: a message covers at least one byte.
                Run { messages: seq![message], rest: now.rest, failure: None }
            }
        },
        Ok(None) => Run { messages: Seq::empty(), rest: now.rest, failure: None },
        Err(error) => Run { messages: Seq::empty(), rest: now.rest, failure: Some(error) },
    }
}

/// Every message that decoding finds covers at least one byte and no more
/// bytes than there are, so that taking it leaves fewer bytes pending.
pub proof fn lemma_decoded_within(bytes: Seq<u8>)
    ensures
        decoded(bytes) matches Ok((_, taken)) ==> 0 < taken <= bytes.len(),
        step(bytes).outcome matches Ok(Some(_)) ==> step(bytes).rest.len() < bytes.len(),
{
}

/// The models of a sequence of messages, one by one.
pub open spec fn message_models(messages: Seq<Message>) -> Seq<MessageModel> {
    Seq::new(messages.len(), |i: int| messages[i]@)
}

/// The bytes received and not yet decoded.
pub struct FrameDecoder {
    buffer: Vec<u8>,
}

impl View for FrameDecoder {
    type V = Seq<u8>;

    /// The pending bytes, oldest first.
    closed spec fn view(&self) -> Seq<u8> {
        self.buffer@
    }
}

/// What [`FrameDecoder::drain`] hands back.
#[derive(Debug, PartialEq, Eq)]
pub struct Drained {
    /// The messages taken, in stream order.
    pub messages: Vec<Message>,
    /// The error that ended the stream, if one did.
    pub failure: Option<DecodeError>,
}

impl FrameDecoder {
    /// A decoder with no pending bytes.
    pub fn new() -> (decoder: FrameDecoder)
        ensures
            decoder@ == Seq::<u8>::empty(),
    {
        FrameDecoder { buffer: Vec::new() }
    }

    /// The number of pending bytes.
    pub fn pending(&self) -> (n: usize)
        ensures
            n == self@.len(),
    {
        self.buffer.len()
    }

    /// Appends the bytes of one read to the pending bytes.
    pub fn feed(&mut self, chunk: &[u8])
        ensures
            final(self)@ == old(self)@ + chunk@,
    {
        self.buffer.extend_from_slice(chunk);
        assert(self.buffer@ =~= old(self).buffer@ + chunk@);
    }

    /// Attempts to take one message off the front of the pending bytes.
    ///
    /// `Ok(None)` says that more bytes are needed and is no error. After
    /// `Ok(Some(..))` the message's bytes are no longer pending; in every other
    /// case the pending bytes are what they were.
    pub fn next_message(&mut self) -> (out: Result<Option<Message>, DecodeError>)
        ensures
            final(self)@ == step(old(self)@).rest,
            match out {
                Ok(Some(message)) => step(old(self)@).outcome == Ok::<
                    Option<MessageModel>,
                    DecodeError,
                >(Some(message@)),
                Ok(None) => step(old(self)@).outcome == Ok::<Option<MessageModel>, DecodeError>(
                    None,
                ),
                Err(error) => step(old(self)@).outcome == Err::<Option<MessageModel>, DecodeError>(
                    error,
                ),
            },
            out matches Ok(Some(_)) ==> final(self)@.len() < old(self)@.len(),
    {
        match Message::decode(self.buffer.as_slice()) {
            Ok((message, taken)) => {
                let rest = self.buffer.split_off(taken);
                self.buffer = rest;
                assert(self.buffer@ =~= old(self).buffer@.skip(taken as int));
                Ok(Some(message))
            },
            Err(DecodeError::Truncated) => Ok(None),
            Err(error) => Err(error),
        }
    }

    /// Takes every whole message off the front of the pending bytes.
    ///
    /// Stops where the bytes end too early, which is no error, or at the first
    /// error, which is handed back with the messages taken before it.
    pub fn drain(&mut self) -> (out: Drained)
        ensures
            message_models(out.messages@) == run(old(self)@).messages,
            out.failure == run(old(self)@).failure,
            final(self)@ == run(old(self)@).rest,
    {
        let mut messages: Vec<Message> = Vec::new();
        let mut failure: Option<DecodeError> = None;
        loop
            invariant_except_break
                failure.is_none(),
                run(old(self)@).messages == message_models(messages@) + run(self@).messages,
                run(old(self)@).rest == run(self@).rest,
                run(old(self)@).failure == run(self@).failure,
            ensures
                message_models(messages@) == run(old(self)@).messages,
                failure == run(old(self)@).failure,
                self@ == run(old(self)@).rest,
            decreases self@.len(),
        {
            let ghost before = self@;
            let ghost taken_so_far = message_models(messages@);
            match self.next_message() {
                Ok(Some(message)) => {
                    messages.push(message);
                    assert(message_models(messages@) =~= taken_so_far + seq![message@]);
                    assert(run(before).messages =~= seq![message@] + run(self@).messages);
                    assert(taken_so_far + (seq![message@] + run(self@).messages) =~= (taken_so_far
                        + seq![message@]) + run(self@).messages);
                },
                Ok(None) => {
                    assert(taken_so_far + Seq::<MessageModel>::empty() =~= taken_so_far);
                    break ;
                },
                Err(error) => {
                    assert(taken_so_far + Seq::<MessageModel>::empty() =~= taken_so_far);
                    failure = Some(error);
                    break ;
                },
            }
        }
        Drained { messages, failure }
    }
}

/// Whether `bytes` is the frame of `message`: decoding the bytes gives the
/// message and covers them all, and decoding any shorter beginning of them
/// asks for more bytes.
pub open spec fn is_frame(bytes: Seq<u8>, message: MessageModel) -> bool {
    &&& decoded(bytes) == Ok::<(MessageModel, nat), DecodeError>((message, bytes.len()))
    &&& forall|k: int|
        0 <= k < bytes.len() ==> decoded(#[trigger] bytes.take(k)) == Err::<
            (MessageModel, nat),
            DecodeError,
        >(DecodeError::Truncated)
}

/// What a decoder that holds `pending` delivers when `chunks` arrive one read
/// at a time and the decoder is drained after each read. An error ends the
/// delivery; the chunks after it are not looked at.
pub open spec fn deliver(pending: Seq<u8>, chunks: Seq<Seq<u8>>) -> Run
    decreases chunks.len(),
{
    if chunks.len() == 0 {
        Run { messages: Seq::empty(), rest: pending, failure: None }
    } else {
        let now = run(pending + chunks.first());
        if now.failure.is_some() {
            now
        } else {
            let later = deliver(now.rest, chunks.drop_first());
            Run {
                messages: now.messages + later.messages,
                rest: later.rest,
                failure: later.failure,
            }
        }
    }
}

/// While the bytes that have arrived are a shorter beginning of a frame,
/// nothing is delivered, nothing is wrong, and every byte stays pending.
proof fn lemma_deliver_incomplete(
    bytes: Seq<u8>,
    message: MessageModel,
    pending: Seq<u8>,
    chunks: Seq<Seq<u8>>,
)
    requires
        is_frame(bytes, message),
        (pending + chunks.flatten()).len() < bytes.len(),
        pending + chunks.flatten() == bytes.take((pending + chunks.flatten()).len() as int),
    ensures
        deliver(pending, chunks) == (Run {
            messages: Seq::empty(),
            rest: pending + chunks.flatten(),
            failure: None,
        }),
    decreases chunks.len(),
{
    if chunks.len() == 0 {
        assert(pending + chunks.flatten() =~= pending);
    } else {
        let grown = pending + chunks.first();
        let after = chunks.drop_first();
        assert(grown + after.flatten() =~= pending + chunks.flatten());
        assert(grown =~= bytes.take(grown.len() as int));
        lemma_deliver_incomplete(bytes, message, grown, after);
        assert(Seq::<MessageModel>::empty() + Seq::<MessageModel>::empty() =~= Seq::<
            MessageModel,
        >::empty());
    }
}

/// Once the bytes that have arrived make up a whole frame, its message is
/// delivered, and nothing stays pending.
proof fn lemma_deliver_complete(
    bytes: Seq<u8>,
    message: MessageModel,
    pending: Seq<u8>,
    chunks: Seq<Seq<u8>>,
)
    requires
        is_frame(bytes, message),
        pending.len() < bytes.len(),
        pending + chunks.flatten() == bytes,
    ensures
        deliver(pending, chunks) == (Run {
            messages: seq![message],
            rest: Seq::empty(),
            failure: None,
        }),
    decreases chunks.len(),
{
    if chunks.len() == 0 {
        assert(pending + chunks.flatten() =~= pending);
    } else {
        let grown = pending + chunks.first();
        let after = chunks.drop_first();
        let none = Seq::<MessageModel>::empty();
        assert(grown + after.flatten() =~= pending + chunks.flatten());
        if grown.len() < bytes.len() {
            assert(grown =~= bytes.take(grown.len() as int));
            lemma_deliver_complete(bytes, message, grown, after);
            assert(none + seq![message] =~= seq![message]);
        } else {
            assert(grown =~= bytes);
            assert(after.flatten() =~= Seq::<u8>::empty());
            assert(bytes.skip(bytes.len() as int) =~= Seq::<u8>::empty());
            assert(bytes.take(0) =~= Seq::<u8>::empty());
            assert(run(Seq::<u8>::empty()) == (Run {
                messages: none,
                rest: Seq::empty(),
                failure: None,
            }));
            assert(seq![message] + none =~= seq![message]);
            assert(run(grown) == (Run {
                messages: seq![message],
                rest: Seq::empty(),
                failure: None,
            }));
            assert(Seq::<u8>::empty() + after.flatten() =~= bytes.take(0));
            lemma_deliver_incomplete(bytes, message, Seq::empty(), after);
        }
    }
}

/// A message arrives whole however its frame is cut into reads: the decoder
/// delivers nothing, and reports nothing wrong, for as long as bytes of the
/// frame are missing, and it delivers exactly the message, with nothing left
/// pending, once the last of them is in.
pub proof fn lemma_partial_reads(message: MessageModel, bytes: Seq<u8>, chunks: Seq<Seq<u8>>)
    requires
        is_frame(bytes, message),
        chunks.flatten() == bytes,
    ensures
        deliver(Seq::empty(), chunks) == (Run {
            messages: seq![message],
            rest: Seq::empty(),
            failure: None,
        }),
        forall|k: int|
            #![trigger chunks.take(k)]
            0 <= k <= chunks.len() && chunks.take(k).flatten().len() < bytes.len() ==> deliver(
                Seq::empty(),
                chunks.take(k),
            ) == (Run {
                messages: Seq::empty(),
                rest: chunks.take(k).flatten(),
                failure: None,
            }),
{
    lemma_decoded_within(bytes);
    assert(Seq::<u8>::empty() + chunks.flatten() =~= bytes);
    lemma_deliver_complete(bytes, message, Seq::empty(), chunks);
    assert forall|k: int|
        #![trigger chunks.take(k)]
        0 <= k <= chunks.len() && chunks.take(k).flatten().len() < bytes.len() implies deliver(
        Seq::empty(),
        chunks.take(k),
    ) == (Run { messages: Seq::empty(), rest: chunks.take(k).flatten(), failure: None }) by {
        let head = chunks.take(k);
        vstd::seq_lib::lemma_flatten_concat(head, chunks.skip(k));
        assert(head + chunks.skip(k) =~= chunks);
        assert(head.flatten() =~= bytes.take(head.flatten().len() as int));
        assert(Seq::<u8>::empty() + head.flatten() =~= head.flatten());
        lemma_deliver_incomplete(bytes, message, Seq::empty(), head);
    }
}

} // verus!
