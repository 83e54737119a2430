//! What the inbound transport hands to a session.

use vstd::prelude::*;

verus! {

/// One item from the transport's event source.
///
/// The source yields messages in the order of their arrival and ends after a
/// close or an error; `End` stands for a source that has nothing more.
#[derive(Debug, PartialEq, Eq)]
pub enum TransportEvent {
    /// A framed message with its payload.
    Message(Vec<u8>),
    /// The peer closed the transport.
    Close,
    /// The transport failed.
    Error(String),
    /// The event source is exhausted.
    End,
}

/// A failure of the session's byte stream, with the transport's own words.
#[derive(Debug, PartialEq, Eq)]
pub struct StreamError {
    pub message: String,
}

/// The outcome of handing one message to the transport's send primitive.
pub type Delivery = Result<(), String>;

/// What a buffer holds once an event has been taken in: the payload of a
/// message goes to the tail, and nothing else changes it.
pub open spec fn absorbed(held: Seq<u8>, arrived: Option<TransportEvent>) -> Seq<u8> {
    match arrived {
        Some(TransportEvent::Message(payload)) => held + payload@,
        _ => held,
    }
}

/// The event leaves draining under way: there was none, or it was a message.
pub open spec fn carries_on(arrived: Option<TransportEvent>) -> bool {
    arrived is None || arrived matches Some(TransportEvent::Message(_))
}

/// The event ends the source without a failure.
pub open spec fn is_last(arrived: Option<TransportEvent>) -> bool {
    arrived matches Some(TransportEvent::Close) || arrived matches Some(TransportEvent::End)
}

/// Draining to `n` bytes is over without a failure: the source has ended, or
/// `held`, the buffer after the event, has the `n` bytes.
pub open spec fn drained(held: Seq<u8>, n: usize, arrived: Option<TransportEvent>) -> bool {
    is_last(arrived) || (carries_on(arrived) && held.len() >= n)
}

/// The payload of a message has room in a buffer that holds `held`.
pub open spec fn has_room(held: Seq<u8>, arrived: Option<TransportEvent>) -> bool {
    arrived matches Some(TransportEvent::Message(payload)) ==> held.len() + payload@.len()
        <= isize::MAX
}

} // verus!
