//! A session: the inbound transport seen as a byte stream with look-ahead.

use vstd::prelude::*;
use vstd::slice::{slice_subrange, slice_to_vec};
use crate::buffer::{buffer_bytes, buffer_len, buffer_put_slice, buffer_split_to, contents, new_buffer};
use crate::classifier::{classification, classify, Protocol, PREFIX_LEN};
use crate::config::Config;
use crate::transport::{
    absorbed, carries_on, drained, has_room, is_last, Delivery, StreamError, TransportEvent,
};

verus! {

/// What draining asks of the driver.
#[derive(Clone, Copy, Debug, PartialEq, Eq, Structural)]
pub enum FillStep {
    /// Take the next event from the source and come back with it.
    Pull,
    /// Draining is over: the buffer holds enough, or the source has ended.
    Done,
}

/// What a read asks of the driver.
#[derive(Debug, PartialEq, Eq)]
pub enum ReadStep {
    /// Take the next event from the source and come back with it.
    Pull,
    /// The read is over with these bytes; none of them means end of stream.
    Ready(Vec<u8>),
}

/// What classifying a session asks of the driver.
#[derive(Clone, Copy, Debug, PartialEq, Eq, Structural)]
pub enum ProcessStep {
    /// Take the next event from the source and come back with it.
    Pull,
    /// Hand the stream, with nothing consumed, to the decoder of this
    /// protocol.
    Dispatch(Protocol),
}

/// Why a session ends before any decoder has seen it.
#[derive(Debug, PartialEq, Eq)]
pub enum ProcessError {
    /// The transport failed while the prefix was being gathered.
    Transport(StreamError),
    /// The source ended with a prefix too short to tell the protocol.
    InsufficientData,
}

/// What a write asks of the driver.
#[derive(Debug, PartialEq, Eq)]
pub enum WriteStep {
    /// Send these bytes as one transport message and come back with the
    /// outcome.
    Send(Vec<u8>),
    /// The write is over: this many bytes were written.
    Ready(usize),
}

/// What the keep-alive task does next.
#[derive(Debug, PartialEq, Eq)]
pub enum KeepAliveStep {
    /// Wait, then send the probe and come back with the outcome.
    Probe { after_secs: u64, payload: Vec<u8> },
    /// The task is over.
    Stop,
}

/// The pause before each liveness probe, in seconds.
pub const KEEP_ALIVE_SECS: u64 = 30;

/// The liveness probe's payload, the ASCII bytes of `ping`.
pub open spec fn probe_payload() -> Seq<u8> {
    seq![0x70u8, 0x69u8, 0x6eu8, 0x67u8]
}

/// The up to `n` oldest bytes of a buffer.
pub open spec fn prefix_of(held: Seq<u8>, n: usize) -> Seq<u8> {
    if held.len() <= n {
        held
    } else {
        held.take(n as int)
    }
}

/// What is left of a buffer when its up to `n` oldest bytes are gone.
pub open spec fn rest_of(held: Seq<u8>, n: usize) -> Seq<u8> {
    if held.len() <= n {
        Seq::empty()
    } else {
        held.skip(n as int)
    }
}

/// What a read of up to `max` bytes hands out, for the event that came with
/// the call: the oldest bytes of the buffer with the event taken in, and
/// nothing where the event ends the source or fails.
pub open spec fn served_by_read(held: Seq<u8>, max: usize, arrived: Option<TransportEvent>) -> Seq<
    u8,
> {
    if carries_on(arrived) {
        prefix_of(absorbed(held, arrived), max)
    } else {
        Seq::empty()
    }
}

/// What such a read leaves buffered.
pub open spec fn left_by_read(held: Seq<u8>, max: usize, arrived: Option<TransportEvent>) -> Seq<
    u8,
> {
    if carries_on(arrived) {
        rest_of(absorbed(held, arrived), max)
    } else {
        held
    }
}

/// One inbound connection: its settings and the bytes received from the
/// transport that no read has taken yet.
pub struct ProxyStream {
    config: Config,
    buffer: bytes::BytesMut,
}

impl View for ProxyStream {
    type V = Seq<u8>;

    /// The buffered bytes, the oldest first.
    closed spec fn view(&self) -> Seq<u8> {
        contents(self.buffer)
    }
}

impl ProxyStream {
    /// A session with nothing buffered.
    pub fn new(config: Config) -> (stream: Self)
        ensures
            stream@ == Seq::<u8>::empty(),
            stream.config() == config,
    {
        ProxyStream { config, buffer: new_buffer() }
    }

    /// The settings that the session was made with.
    pub closed spec fn spec_config(&self) -> Config {
        self.config
    }

    /// The settings that the session was made with.
    #[verifier::when_used_as_spec(spec_config)]
    pub fn config(&self) -> (config: Config)
        ensures
            config == self.spec_config(),
    {
        self.config
    }

    /// The number of bytes buffered.
    pub fn buffered(&self) -> (len: usize)
        ensures
            len == self@.len(),
    {
        buffer_len(&self.buffer)
    }

    /// Tells whether the buffer has room for what an event carries. Only a
    /// message can be too much: one whose payload would take the buffer
    /// beyond `isize::MAX` bytes.
    pub fn admits(&self, event: &TransportEvent) -> (ok: bool)
        ensures
            ok == has_room(self@, Some(*event)),
    {
        match event {
            TransportEvent::Message(payload) => {
                let held: usize = buffer_len(&self.buffer);
                let limit: usize = isize::MAX as usize;
                held <= limit && payload.len() <= limit - held
            },
            _ => true,
        }
    }

    /// One turn of draining the event source until `n` bytes are buffered.
    ///
    /// The first call of a drain passes no event; each later call passes the
    /// event that the driver pulled on the step before. A message's payload is
    /// appended as it is. A close, or the end of the source, stops the drain
    /// without an error and leaves what has been buffered. A transport error
    /// fails it. Otherwise the drain goes on for as long as fewer than `n`
    /// bytes are held.
    pub fn fill_buffer_until(&mut self, n: usize, arrived: Option<TransportEvent>) -> (r: Result<
        FillStep,
        StreamError,
    >)
        requires
            has_room(old(self)@, arrived),
        ensures
            final(self)@ == absorbed(old(self)@, arrived),
            final(self).config() == old(self).config(),
            match r {
                Err(e) => arrived matches Some(TransportEvent::Error(cause)) && e.message@
                    == cause@,
                Ok(FillStep::Done) => drained(final(self)@, n, arrived),
                Ok(FillStep::Pull) => carries_on(arrived) && final(self)@.len() < n,
            },
    {
        match arrived {
            Some(TransportEvent::Message(payload)) => {
                buffer_put_slice(&mut self.buffer, payload.as_slice());
            },
            Some(TransportEvent::Close) => {
                return Ok(FillStep::Done);
            },
            Some(TransportEvent::End) => {
                return Ok(FillStep::Done);
            },
            Some(TransportEvent::Error(cause)) => {
                return Err(StreamError { message: cause });
            },
            None => {},
        }
        if buffer_len(&self.buffer) < n {
            Ok(FillStep::Pull)
        } else {
            Ok(FillStep::Done)
        }
    }

    /// The up to `n` oldest buffered bytes, which stay buffered.
    pub fn peek_buffer(&self, n: usize) -> (bytes: &[u8])
        ensures
            bytes@ == prefix_of(self@, n),
    {
        let held: usize = buffer_len(&self.buffer);
        let len: usize = if held < n {
            held
        } else {
            n
        };
        slice_subrange(buffer_bytes(&self.buffer), 0, len)
    }

    /// One turn of a read of up to `max` bytes.
    ///
    /// The first call of a read passes no event; each later call passes the
    /// event that the driver pulled on the step before. A message's payload is
    /// appended to the buffer. The read is served from the buffer where it
    /// holds anything: the oldest bytes leave it, `max` of them at most, and
    /// the others keep their order. With an empty buffer the driver is asked
    /// for one more event. A close, or the end of the source, ends the read
    /// with no bytes, which is end of stream and not an error. A transport
    /// error fails the read.
    pub fn poll_read(&mut self, max: usize, arrived: Option<TransportEvent>) -> (r: Result<
        ReadStep,
        StreamError,
    >)
        requires
            has_room(old(self)@, arrived),
        ensures
            final(self)@ == left_by_read(old(self)@, max, arrived),
            final(self).config() == old(self).config(),
            match r {
                Err(e) => arrived matches Some(TransportEvent::Error(cause)) && e.message@
                    == cause@,
                Ok(ReadStep::Pull) => carries_on(arrived) && absorbed(old(self)@, arrived).len()
                    == 0,
                Ok(ReadStep::Ready(bytes)) => {
                    &&& is_last(arrived) || (carries_on(arrived) && absorbed(
                        old(self)@,
                        arrived,
                    ).len() > 0)
                    &&& bytes@ == served_by_read(old(self)@, max, arrived)
                },
            },
    {
        match arrived {
            Some(TransportEvent::Message(payload)) => {
                buffer_put_slice(&mut self.buffer, payload.as_slice());
            },
            Some(TransportEvent::Close) => {
                return Ok(ReadStep::Ready(Vec::new()));
            },
            Some(TransportEvent::End) => {
                return Ok(ReadStep::Ready(Vec::new()));
            },
            Some(TransportEvent::Error(cause)) => {
                return Err(StreamError { message: cause });
            },
            None => {},
        }
        let held: usize = buffer_len(&self.buffer);
        if held == 0 {
            return Ok(ReadStep::Pull);
        }
        let size: usize = if held < max {
            held
        } else {
            max
        };
        let head = buffer_split_to(&mut self.buffer, size);
        let bytes = slice_to_vec(buffer_bytes(&head));
        Ok(ReadStep::Ready(bytes))
    }

    /// One turn of classifying the session by its first bytes.
    ///
    /// Events are drained as by [`ProxyStream::fill_buffer_until`] until the
    /// buffer holds the whole look-ahead or the source has ended. Then the
    /// prefix is classified where it lies: nothing is consumed. A prefix that
    /// is too short to decide rejects the session.
    pub fn process(&mut self, arrived: Option<TransportEvent>) -> (r: Result<
        ProcessStep,
        ProcessError,
    >)
        requires
            has_room(old(self)@, arrived),
        ensures
            final(self)@ == absorbed(old(self)@, arrived),
            final(self).config() == old(self).config(),
            match r {
                Err(ProcessError::Transport(e)) => arrived matches Some(
                    TransportEvent::Error(cause),
                ) && e.message@ == cause@,
                Err(ProcessError::InsufficientData) => {
                    &&& drained(final(self)@, PREFIX_LEN, arrived)
                    &&& classification(prefix_of(final(self)@, PREFIX_LEN)) is None
                },
                Ok(ProcessStep::Pull) => carries_on(arrived) && final(self)@.len() < PREFIX_LEN,
                Ok(ProcessStep::Dispatch(protocol)) => {
                    &&& drained(final(self)@, PREFIX_LEN, arrived)
                    &&& classification(prefix_of(final(self)@, PREFIX_LEN)) == Some(protocol)
                },
            },
    {
        match self.fill_buffer_until(PREFIX_LEN, arrived) {
            Err(e) => Err(ProcessError::Transport(e)),
            Ok(FillStep::Pull) => Ok(ProcessStep::Pull),
            Ok(FillStep::Done) => match classify(self.peek_buffer(PREFIX_LEN)) {
                Some(protocol) => Ok(ProcessStep::Dispatch(protocol)),
                None => Err(ProcessError::InsufficientData),
            },
        }
    }

    /// One turn of a write of `buf`.
    ///
    /// The first call passes no outcome and asks for `buf` to be sent, whole
    /// and as it is, as one transport message. The second call passes what
    /// became of that: a delivered message means that all of `buf` was
    /// written, and a failed one fails the write.
    pub fn poll_write(&self, buf: &[u8], sent: Option<Delivery>) -> (r: Result<
        WriteStep,
        StreamError,
    >)
        ensures
            match r {
                Ok(WriteStep::Send(message)) => sent is None && message@ == buf@,
                Ok(WriteStep::Ready(written)) => sent matches Some(Ok(_)) && written == buf@.len(),
                Err(e) => sent matches Some(Err(cause)) && e.message@ == cause@,
            },
    {
        match sent {
            None => Ok(WriteStep::Send(slice_to_vec(buf))),
            Some(Ok(_)) => Ok(WriteStep::Ready(buf.len())),
            Some(Err(cause)) => Err(StreamError { message: cause }),
        }
    }

    /// Flushing does nothing: a write leaves nothing behind in the session.
    pub fn poll_flush(&self) -> (r: Result<(), StreamError>)
        ensures
            r is Ok,
    {
        Ok(())
    }

    /// One turn of the keep-alive task.
    ///
    /// The first call passes no outcome; each later call passes what became
    /// of the probe before. The task waits out the interval and sends the
    /// probe, again and again, and stops at the first probe that fails.
    pub fn keep_alive(&self, last: Option<Delivery>) -> (step: KeepAliveStep)
        ensures
            match step {
                KeepAliveStep::Probe { after_secs, payload } => {
                    &&& !(last matches Some(Err(_)))
                    &&& after_secs == KEEP_ALIVE_SECS
                    &&& payload@ == probe_payload()
                },
                KeepAliveStep::Stop => last matches Some(Err(_)),
            },
    {
        match last {
            Some(Err(_)) => KeepAliveStep::Stop,
            _ => {
                let payload = vec![0x70u8, 0x69u8, 0x6eu8, 0x67u8];
                KeepAliveStep::Probe { after_secs: KEEP_ALIVE_SECS, payload }
            },
        }
    }
}

} // verus!
