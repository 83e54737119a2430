//! The outbound side of a session: reaching the destination that a decoder
//! has named, over TCP, or answering one DNS datagram.

use vstd::prelude::*;
use crate::dns::{HostKind, ResolveError};
use crate::stream::ProxyStream;
use crate::transport::StreamError;

verus! {

/// The most that is read from the session as one datagram, in bytes.
pub const DATAGRAM_MAX: usize = 65535;

/// The length of a DNS message header, in bytes.
pub const DNS_HEADER_LEN: usize = 12;

/// Why the outbound side gave up.
#[derive(Debug, PartialEq, Eq)]
pub enum ConnectorError {
    /// The host name did not resolve, or the DNS exchange failed.
    Resolve(ResolveError),
    /// The upstream socket could not be set up.
    Connect(String),
    /// The upstream socket did not open.
    Open(String),
    /// The copy between the session and the upstream socket failed.
    Relay(String),
    /// Reading from the session, or writing to it, failed.
    Session(StreamError),
}

/// What the driver reports to the TCP path: nothing yet, or the outcome of
/// the action that it was given last.
#[derive(Debug, PartialEq, Eq)]
pub enum TcpProgress {
    Start,
    Resolved(Result<String, ResolveError>),
    Connected(Result<(), String>),
    Opened(Result<(), String>),
    Relayed(Result<(), String>),
}

/// What the TCP path asks of the driver.
#[derive(Debug, PartialEq, Eq)]
pub enum TcpAction {
    /// Look this name up.
    Resolve(String),
    /// Set up a TCP socket to this address and port.
    Connect { addr: String, port: u16 },
    /// Wait until the socket is open.
    AwaitOpen,
    /// Copy bytes both ways between the session and the socket until either
    /// side closes or fails.
    Relay,
    /// The path is over.
    Finish(Result<(), ConnectorError>),
}

/// What the driver reports to the datagram path: nothing yet, or the outcome
/// of the action that it was given last.
#[derive(Debug, PartialEq, Eq)]
pub enum UdpProgress {
    Start,
    Chunk(Result<Vec<u8>, StreamError>),
    Answered(Result<Vec<u8>, ResolveError>),
    Written(Result<usize, StreamError>),
}

/// What the datagram path asks of the driver.
#[derive(Debug, PartialEq, Eq)]
pub enum UdpAction {
    /// Read one chunk of at most this many bytes from the session.
    Read { max: usize },
    /// Exchange this query over DNS-over-HTTPS.
    Doh(Vec<u8>),
    /// Write these bytes to the session.
    Write(Vec<u8>),
    /// The path is over.
    Finish(Result<(), ConnectorError>),
}

/// A chunk is taken for a DNS query where it holds a whole header whose QR
/// flag, the top bit of the byte at offset 2, is clear.
pub open spec fn dns_query(data: Seq<u8>) -> bool {
    data.len() >= DNS_HEADER_LEN && data[2] & 0x80 == 0
}

/// Tells whether a chunk is taken for a DNS query.
pub fn is_dns_query(data: &[u8]) -> (r: bool)
    ensures
        r == dns_query(data@),
{
    data.len() >= DNS_HEADER_LEN && data[2] & 0x80 == 0
}

impl ProxyStream {
    /// One turn of the TCP path to `addr`, which reads as `kind`, and `port`.
    ///
    /// A literal address is connected to as it is; a name is looked up first,
    /// and the address found is connected to. Once the socket is set up the
    /// path waits for it to open and then relays. The first failure ends the
    /// path; nothing is tried again.
    pub fn handle_tcp_outbound(
        &self,
        addr: &str,
        kind: HostKind,
        port: u16,
        progress: TcpProgress,
    ) -> (action: TcpAction)
        ensures
            match action {
                TcpAction::Resolve(name) => {
                    &&& progress is Start
                    &&& kind == HostKind::Name
                    &&& name@ == addr@
                },
                TcpAction::Connect { addr: target, port: target_port } => {
                    &&& target_port == port
                    &&& if progress is Start {
                        kind != HostKind::Name && target@ == addr@
                    } else {
                        progress matches TcpProgress::Resolved(Ok(found)) && target@ == found@
                    }
                },
                TcpAction::AwaitOpen => progress matches TcpProgress::Connected(Ok(_)),
                TcpAction::Relay => progress matches TcpProgress::Opened(Ok(_)),
                TcpAction::Finish(Ok(_)) => progress matches TcpProgress::Relayed(Ok(_)),
                TcpAction::Finish(Err(ConnectorError::Resolve(e))) => progress
                    == TcpProgress::Resolved(Err(e)),
                TcpAction::Finish(Err(ConnectorError::Connect(why))) => progress
                    matches TcpProgress::Connected(Err(cause)) && why@ == cause@,
                TcpAction::Finish(Err(ConnectorError::Open(why))) => progress
                    matches TcpProgress::Opened(Err(cause)) && why@ == cause@,
                TcpAction::Finish(Err(ConnectorError::Relay(why))) => progress
                    matches TcpProgress::Relayed(Err(cause)) && why@ == cause@,
                TcpAction::Finish(Err(ConnectorError::Session(_))) => false,
            },
    {
        match progress {
            TcpProgress::Start => match kind {
                HostKind::Name => TcpAction::Resolve(String::from_str(addr)),
                _ => TcpAction::Connect { addr: String::from_str(addr), port },
            },
            TcpProgress::Resolved(Ok(found)) => TcpAction::Connect { addr: found, port },
            TcpProgress::Resolved(Err(e)) => TcpAction::Finish(Err(ConnectorError::Resolve(e))),
            TcpProgress::Connected(Ok(_)) => TcpAction::AwaitOpen,
            TcpProgress::Connected(Err(cause)) => TcpAction::Finish(
                Err(ConnectorError::Connect(cause)),
            ),
            TcpProgress::Opened(Ok(_)) => TcpAction::Relay,
            TcpProgress::Opened(Err(cause)) => TcpAction::Finish(Err(ConnectorError::Open(cause))),
            TcpProgress::Relayed(Ok(_)) => TcpAction::Finish(Ok(())),
            TcpProgress::Relayed(Err(cause)) => TcpAction::Finish(
                Err(ConnectorError::Relay(cause)),
            ),
        }
    }

    /// One turn of the datagram path.
    ///
    /// One chunk is read from the session. A chunk that is a DNS query goes,
    /// byte for byte, to the DNS-over-HTTPS exchange, and the reply is written
    /// back to the session, byte for byte; that one exchange is all. Any other
    /// chunk is passed over and the path ends in peace. A failed read, a
    /// failed exchange and a failed write each end the path with their error.
    pub fn handle_udp_outbound(&self, progress: UdpProgress) -> (action: UdpAction)
        ensures
            match action {
                UdpAction::Read { max } => progress is Start && max == DATAGRAM_MAX,
                UdpAction::Doh(query) => {
                    &&& progress matches UdpProgress::Chunk(Ok(data))
                    &&& dns_query(data@)
                    &&& query@ == data@
                },
                UdpAction::Write(bytes) => progress matches UdpProgress::Answered(Ok(reply))
                    && bytes@ == reply@,
                UdpAction::Finish(Ok(_)) => {
                    ||| progress matches UdpProgress::Chunk(Ok(data)) && !dns_query(data@)
                    ||| progress matches UdpProgress::Written(Ok(_))
                },
                UdpAction::Finish(Err(ConnectorError::Session(e))) => {
                    ||| progress == UdpProgress::Chunk(Err(e))
                    ||| progress == UdpProgress::Written(Err(e))
                },
                UdpAction::Finish(Err(ConnectorError::Resolve(e))) => progress
                    == UdpProgress::Answered(Err(e)),
                UdpAction::Finish(Err(_)) => false,
            },
    {
        match progress {
            UdpProgress::Start => UdpAction::Read { max: DATAGRAM_MAX },
            UdpProgress::Chunk(Ok(data)) => {
                if is_dns_query(data.as_slice()) {
                    UdpAction::Doh(data)
                } else {
                    UdpAction::Finish(Ok(()))
                }
            },
            UdpProgress::Chunk(Err(e)) => UdpAction::Finish(Err(ConnectorError::Session(e))),
            UdpProgress::Answered(Ok(reply)) => UdpAction::Write(reply),
            UdpProgress::Answered(Err(e)) => UdpAction::Finish(Err(ConnectorError::Resolve(e))),
            UdpProgress::Written(Ok(_)) => UdpAction::Finish(Ok(())),
            UdpProgress::Written(Err(e)) => UdpAction::Finish(Err(ConnectorError::Session(e))),
        }
    }
}

} // verus!
