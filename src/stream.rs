//! Decisions of a streaming subscription: which streams need a signature,
//! the signature array of the subscription frame, and what the receive loop
//! does with each inbound frame.

use crate::client::{now_millis, BpxClient, DEFAULT_WINDOW};
use crate::error::Error;
use crate::keys::{base64_text, ed25519_public_key, ed25519_signature};
use crate::signee::{build_signee_suffix, signee_suffix};
use crate::text::{decimal_of, decimal_text, starts_with};
use vstd::prelude::*;

verus! {

/// A stream is private when its name is in the `account.` namespace.
pub open spec fn is_private(stream: Seq<char>) -> bool {
    "account."@.is_prefix_of(stream)
}

/// Some stream of the list is private.
pub open spec fn any_private(streams: Seq<String>) -> bool {
    exists|i: int| 0 <= i < streams.len() && is_private(#[trigger] streams[i]@)
}

/// The names of the private streams of the list, in order.
pub open spec fn private_streams(streams: Seq<String>) -> Seq<Seq<char>>
    decreases streams.len(),
{
    if streams.len() == 0 {
        Seq::empty()
    } else if is_private(streams.last()@) {
        private_streams(streams.drop_last()).push(streams.last()@)
    } else {
        private_streams(streams.drop_last())
    }
}

/// The fixed signee of a subscription.
pub open spec fn subscribe_signee(timestamp: nat, window: nat) -> Seq<char> {
    "instruction=subscribe"@ + signee_suffix(timestamp, window)
}

/// Whether `sig` is the signature array of a frame subscribed at
/// `timestamp` with `seed`: verifying key, signature, timestamp, window.
pub open spec fn signature_array_for(sig: Seq<String>, seed: Seq<u8>, timestamp: u64) -> bool {
    &&& sig.len() == 4
    &&& sig[0]@ == base64_text(ed25519_public_key(seed))
    &&& sig[1]@ == base64_text(
        ed25519_signature(seed, vstd::utf8::encode_utf8(subscribe_signee(timestamp as nat, DEFAULT_WINDOW as nat))),
    )
    &&& sig[2]@ == decimal_text(timestamp as nat)
    &&& sig[3]@ == decimal_text(DEFAULT_WINDOW as nat)
}

/// What a subscription to `streams` at `timestamp` must give: with no private
/// stream, no signature array; with one, where there is no key, an error
/// that names the private streams; else the signature array.
pub open spec fn subscription_for(
    seed: Option<Seq<u8>>,
    streams: Seq<String>,
    timestamp: u64,
    r: Result<Option<Vec<String>>, Error>,
) -> bool {
    if !any_private(streams) {
        r matches Ok(None)
    } else {
        match seed {
            None => r matches Err(Error::StreamsNotAuthenticated(names)) && names@.map_values(|n: String| n@)
                == private_streams(streams),
            Some(sd) => r matches Ok(Some(sig)) && signature_array_for(sig@, sd, timestamp),
        }
    }
}

/// Whether a stream name is in the private `account.` namespace.
pub fn is_private_stream(stream: &str) -> (r: bool)
    ensures
        r == is_private(stream@),
{
    starts_with(stream, "account.")
}

/// The private streams of the list, in order.
pub fn private_streams_of(streams: &Vec<String>) -> (r: Vec<String>)
    ensures
        r@.map_values(|n: String| n@) == private_streams(streams@),
{
    let mut r: Vec<String> = Vec::new();
    let mut i: usize = 0;
    while i < streams.len()
        invariant
            i <= streams@.len(),
            r@.map_values(|n: String| n@) == private_streams(streams@.subrange(0, i as int)),
        decreases streams@.len() - i,
    {
        assert(streams@.subrange(0, i + 1).drop_last() =~= streams@.subrange(0, i as int));
        if is_private_stream(streams[i].as_str()) {
            r.push(streams[i].clone());
        }
        assert(r@.map_values(|n: String| n@) =~= private_streams(streams@.subrange(0, i + 1)));
        i = i + 1;
    }
    assert(streams@.subrange(0, streams@.len() as int) =~= streams@);
    r
}

/// Whether any of the streams is private.
pub fn has_private_stream(streams: &Vec<String>) -> (r: bool)
    ensures
        r == any_private(streams@),
{
    let mut i: usize = 0;
    while i < streams.len()
        invariant
            i <= streams@.len(),
            forall|j: int| 0 <= j < i ==> !is_private(#[trigger] streams@[j]@),
        decreases streams@.len() - i,
    {
        if is_private_stream(streams[i].as_str()) {
            return true;
        }
        i = i + 1;
    }
    false
}

impl BpxClient {
    /// The signature array for a subscription to `streams` at `timestamp`:
    /// `None` where every stream is public, so the frame carries none.
    pub fn subscription_signature_at(&self, streams: &Vec<String>, timestamp: u64) -> (r: Result<Option<Vec<String>>, Error>)
        ensures
            subscription_for(self.key_seed(), streams@, timestamp, r),
    {
        if !has_private_stream(streams) {
            return Ok(None);
        }
        let key = match self.key_pair() {
            Some(k) => k,
            None => return Err(Error::StreamsNotAuthenticated(private_streams_of(streams))),
        };
        let mut message = String::from_str("instruction=subscribe");
        let suffix = build_signee_suffix(timestamp, DEFAULT_WINDOW);
        message.append(suffix.as_str());
        let mut sig: Vec<String> = Vec::new();
        sig.push(key.verifying_key_base64());
        sig.push(key.sign_base64(message.as_str()));
        sig.push(decimal_of(timestamp));
        sig.push(decimal_of(DEFAULT_WINDOW as u64));
        Ok(Some(sig))
    }

    /// The signature array for a subscription, signed with the current time.
    pub fn subscription_signature(&self, streams: &Vec<String>) -> (r: Result<Option<Vec<String>>, Error>)
        ensures
            exists|t: u64| subscription_for(self.key_seed(), streams@, t, r),
    {
        let timestamp = now_millis();
        self.subscription_signature_at(streams, timestamp)
    }
}

/// An inbound frame, as the receive loop sees it.
pub enum InboundFrame {
    /// A text frame with a `data` field that decoded to the payload type.
    Data,
    /// A text frame with a `data` field that did not decode.
    UndecodableData,
    /// A text frame with an `error` field.
    ErrorReport,
    /// A text frame that is not JSON, or has neither field.
    OtherText,
    /// The server closed the connection.
    Close,
    /// Any other frame (ping, pong, binary).
    Other,
    /// The connection reported an error.
    Failed,
}

/// What the receive loop does next.
#[derive(Clone, Copy, Debug, PartialEq, Eq, Structural)]
pub enum LoopStep {
    /// Hand the decoded payload to the consumer.
    Forward,
    /// Log the frame and read the next one.
    Log,
    /// Read the next frame.
    Continue,
    /// End the loop.
    Stop,
}

/// The step for an inbound frame: payloads are forwarded, malformed frames
/// and error reports are logged and skipped, a close frame ends the loop.
pub fn step_for(frame: &InboundFrame) -> (r: LoopStep)
    ensures
        r == match frame {
            InboundFrame::Data => LoopStep::Forward,
            InboundFrame::UndecodableData | InboundFrame::ErrorReport | InboundFrame::Failed => LoopStep::Log,
            InboundFrame::OtherText | InboundFrame::Other => LoopStep::Continue,
            InboundFrame::Close => LoopStep::Stop,
        },
{
    match frame {
        InboundFrame::Data => LoopStep::Forward,
        InboundFrame::UndecodableData => LoopStep::Log,
        InboundFrame::ErrorReport => LoopStep::Log,
        InboundFrame::Failed => LoopStep::Log,
        InboundFrame::OtherText => LoopStep::Continue,
        InboundFrame::Other => LoopStep::Continue,
        InboundFrame::Close => LoopStep::Stop,
    }
}

/// The step after handing a payload to the consumer: the loop ends once the
/// consumer is gone.
pub fn step_after_send(delivered: bool) -> (r: LoopStep)
    ensures
        r == if delivered {
            LoopStep::Continue
        } else {
            LoopStep::Stop
        },
{
    if delivered {
        LoopStep::Continue
    } else {
        LoopStep::Stop
    }
}

} // verus!
