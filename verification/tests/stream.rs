use tunnel_core::classifier::Protocol;
use tunnel_core::config::Config;
use tunnel_core::stream::{
    FillStep, KeepAliveStep, ProcessError, ProcessStep, ProxyStream, ReadStep, WriteStep,
    KEEP_ALIVE_SECS,
};
use tunnel_core::transport::{StreamError, TransportEvent};

fn config() -> Config {
    Config { doh_retries: 3, doh_backoff_ms: 250 }
}

fn message(bytes: &[u8]) -> Option<TransportEvent> {
    Some(TransportEvent::Message(bytes.to_vec()))
}

fn failure(text: &str) -> Option<TransportEvent> {
    Some(TransportEvent::Error(text.to_string()))
}

/// Reads with the given sizes until each has been served, and returns what
/// the reads handed out, call by call.
fn read_all(stream: &mut ProxyStream, sizes: &[usize]) -> Vec<Vec<u8>> {
    let mut out = Vec::new();
    for &size in sizes {
        match stream.poll_read(size, None) {
            Ok(ReadStep::Ready(bytes)) => out.push(bytes),
            other => panic!("the read was not served: {:?}", other),
        }
    }
    out
}

#[test]
fn a_new_stream_holds_nothing() {
    let stream = ProxyStream::new(config());
    assert_eq!(stream.buffered(), 0);
    assert_eq!(stream.peek_buffer(62), &[] as &[u8]);
    assert_eq!(stream.config(), config());
}

#[test]
fn fill_asks_for_events_until_it_has_n_bytes() {
    let mut stream = ProxyStream::new(config());
    assert_eq!(stream.fill_buffer_until(5, None), Ok(FillStep::Pull));
    assert_eq!(stream.fill_buffer_until(5, message(b"ab")), Ok(FillStep::Pull));
    assert_eq!(stream.buffered(), 2);
    assert_eq!(stream.fill_buffer_until(5, message(b"cd")), Ok(FillStep::Pull));
    assert_eq!(stream.fill_buffer_until(5, message(b"e")), Ok(FillStep::Done));
    assert_eq!(stream.peek_buffer(10), b"abcde");
}

#[test]
fn fill_keeps_what_comes_beyond_n() {
    let mut stream = ProxyStream::new(config());
    assert_eq!(stream.fill_buffer_until(2, message(b"abcdef")), Ok(FillStep::Done));
    assert_eq!(stream.buffered(), 6);
    assert_eq!(stream.peek_buffer(6), b"abcdef");
}

#[test]
fn fill_is_done_at_once_when_enough_is_buffered() {
    let mut stream = ProxyStream::new(config());
    assert_eq!(stream.fill_buffer_until(0, None), Ok(FillStep::Done));
    assert_eq!(stream.fill_buffer_until(3, message(b"xyz")), Ok(FillStep::Done));
    assert_eq!(stream.fill_buffer_until(3, None), Ok(FillStep::Done));
    assert_eq!(stream.fill_buffer_until(2, None), Ok(FillStep::Done));
    assert_eq!(stream.fill_buffer_until(4, None), Ok(FillStep::Pull));
}

#[test]
fn an_empty_message_leaves_the_buffer_as_it_was() {
    let mut stream = ProxyStream::new(config());
    assert_eq!(stream.fill_buffer_until(1, message(b"")), Ok(FillStep::Pull));
    assert_eq!(stream.buffered(), 0);
}

#[test]
fn a_close_stops_the_fill_and_keeps_the_partial_data() {
    let mut stream = ProxyStream::new(config());
    assert_eq!(stream.fill_buffer_until(62, message(b"part")), Ok(FillStep::Pull));
    assert_eq!(stream.fill_buffer_until(62, Some(TransportEvent::Close)), Ok(FillStep::Done));
    assert_eq!(stream.peek_buffer(62), b"part");
}

#[test]
fn the_end_of_the_source_stops_the_fill() {
    let mut stream = ProxyStream::new(config());
    assert_eq!(stream.fill_buffer_until(62, Some(TransportEvent::End)), Ok(FillStep::Done));
    assert_eq!(stream.buffered(), 0);
}

#[test]
fn a_transport_error_fails_the_fill_with_its_message() {
    let mut stream = ProxyStream::new(config());
    assert_eq!(stream.fill_buffer_until(62, message(b"part")), Ok(FillStep::Pull));
    assert_eq!(
        stream.fill_buffer_until(62, failure("socket reset")),
        Err(StreamError { message: "socket reset".to_string() })
    );
    assert_eq!(stream.peek_buffer(62), b"part");
}

#[test]
fn peek_hands_out_at_most_n_bytes_and_consumes_none() {
    let mut stream = ProxyStream::new(config());
    assert_eq!(stream.fill_buffer_until(1, message(b"hello")), Ok(FillStep::Done));
    assert_eq!(stream.peek_buffer(0), b"");
    assert_eq!(stream.peek_buffer(2), b"he");
    assert_eq!(stream.peek_buffer(5), b"hello");
    assert_eq!(stream.peek_buffer(9), b"hello");
    assert_eq!(stream.peek_buffer(2), b"he");
    assert_eq!(stream.buffered(), 5);
}

#[test]
fn a_read_is_served_from_the_buffer_oldest_bytes_first() {
    let mut stream = ProxyStream::new(config());
    assert_eq!(stream.fill_buffer_until(1, message(b"abcdef")), Ok(FillStep::Done));
    assert_eq!(stream.poll_read(4, None), Ok(ReadStep::Ready(b"abcd".to_vec())));
    assert_eq!(stream.peek_buffer(9), b"ef");
    assert_eq!(stream.poll_read(4, None), Ok(ReadStep::Ready(b"ef".to_vec())));
    assert_eq!(stream.buffered(), 0);
}

#[test]
fn a_read_on_an_empty_buffer_asks_for_one_event() {
    let mut stream = ProxyStream::new(config());
    assert_eq!(stream.poll_read(8, None), Ok(ReadStep::Pull));
    assert_eq!(stream.poll_read(8, message(b"")), Ok(ReadStep::Pull));
    assert_eq!(stream.poll_read(8, message(b"xyz")), Ok(ReadStep::Ready(b"xyz".to_vec())));
    assert_eq!(stream.buffered(), 0);
}

#[test]
fn a_read_takes_the_arriving_message_behind_what_is_buffered() {
    let mut stream = ProxyStream::new(config());
    assert_eq!(stream.fill_buffer_until(1, message(b"ab")), Ok(FillStep::Done));
    assert_eq!(stream.poll_read(3, message(b"cd")), Ok(ReadStep::Ready(b"abc".to_vec())));
    assert_eq!(stream.peek_buffer(9), b"d");
}

#[test]
fn a_read_of_no_bytes_takes_nothing() {
    let mut stream = ProxyStream::new(config());
    assert_eq!(stream.fill_buffer_until(1, message(b"ab")), Ok(FillStep::Done));
    assert_eq!(stream.poll_read(0, None), Ok(ReadStep::Ready(Vec::new())));
    assert_eq!(stream.peek_buffer(9), b"ab");
}

#[test]
fn a_close_ends_the_read_with_no_bytes_and_no_error() {
    let mut stream = ProxyStream::new(config());
    assert_eq!(stream.poll_read(8, None), Ok(ReadStep::Pull));
    assert_eq!(stream.poll_read(8, Some(TransportEvent::Close)), Ok(ReadStep::Ready(Vec::new())));
    assert_eq!(stream.poll_read(8, Some(TransportEvent::End)), Ok(ReadStep::Ready(Vec::new())));
}

#[test]
fn a_transport_error_fails_the_read_with_its_message() {
    let mut stream = ProxyStream::new(config());
    assert_eq!(stream.poll_read(8, None), Ok(ReadStep::Pull));
    assert_eq!(
        stream.poll_read(8, failure("broken pipe")),
        Err(StreamError { message: "broken pipe".to_string() })
    );
}

#[test]
fn bytes_come_out_as_they_went_in_however_they_are_cut() {
    let arrived: Vec<u8> = (0u8..=99).collect();
    let cuts: [&[usize]; 4] = [&[100], &[1, 99], &[10, 20, 30, 40], &[33, 33, 34]];
    let reads: [&[usize]; 4] = [&[100], &[7, 7, 7, 7, 7, 7, 7, 7, 7, 7, 7, 7, 7, 7, 7], &[99, 1], &[1, 2, 3, 94]];
    for cut in cuts {
        for sizes in reads {
            let mut stream = ProxyStream::new(config());
            let mut at = 0;
            for &len in cut {
                let step = stream.fill_buffer_until(0, message(&arrived[at..at + len]));
                assert_eq!(step, Ok(FillStep::Done));
                at += len;
            }
            let read: Vec<u8> = read_all(&mut stream, sizes).concat();
            assert_eq!(read, arrived);
            assert_eq!(stream.buffered(), 0);
        }
    }
}

#[test]
fn reads_that_ask_for_less_than_all_get_the_first_bytes() {
    let mut stream = ProxyStream::new(config());
    assert_eq!(stream.fill_buffer_until(0, message(b"0123")), Ok(FillStep::Done));
    assert_eq!(stream.fill_buffer_until(0, message(b"456789")), Ok(FillStep::Done));
    let read = read_all(&mut stream, &[3, 4]);
    assert_eq!(read, vec![b"012".to_vec(), b"3456".to_vec()]);
    assert_eq!(stream.peek_buffer(9), b"789");
}

#[test]
fn messages_and_reads_may_alternate() {
    let mut stream = ProxyStream::new(config());
    let mut read: Vec<u8> = Vec::new();
    assert_eq!(stream.fill_buffer_until(0, message(b"abc")), Ok(FillStep::Done));
    read.extend(read_all(&mut stream, &[2]).concat());
    assert_eq!(stream.fill_buffer_until(0, message(b"defg")), Ok(FillStep::Done));
    read.extend(read_all(&mut stream, &[1, 3]).concat());
    assert_eq!(stream.fill_buffer_until(0, message(b"h")), Ok(FillStep::Done));
    read.extend(read_all(&mut stream, &[5]).concat());
    assert_eq!(read, b"abcdefgh");
    assert_eq!(stream.buffered(), 0);
}

#[test]
fn a_write_is_sent_whole_as_one_message() {
    let stream = ProxyStream::new(config());
    assert_eq!(stream.poll_write(b"payload", None), Ok(WriteStep::Send(b"payload".to_vec())));
    assert_eq!(stream.poll_write(b"payload", Some(Ok(()))), Ok(WriteStep::Ready(7)));
    assert_eq!(stream.buffered(), 0);
}

#[test]
fn an_empty_write_is_sent_too() {
    let stream = ProxyStream::new(config());
    assert_eq!(stream.poll_write(b"", None), Ok(WriteStep::Send(Vec::new())));
    assert_eq!(stream.poll_write(b"", Some(Ok(()))), Ok(WriteStep::Ready(0)));
}

#[test]
fn a_failed_send_fails_the_write_with_its_message() {
    let stream = ProxyStream::new(config());
    assert_eq!(
        stream.poll_write(b"payload", Some(Err("peer gone".to_string()))),
        Err(StreamError { message: "peer gone".to_string() })
    );
}

#[test]
fn flush_always_succeeds() {
    let mut stream = ProxyStream::new(config());
    assert_eq!(stream.poll_flush(), Ok(()));
    assert_eq!(stream.fill_buffer_until(0, message(b"abc")), Ok(FillStep::Done));
    assert_eq!(stream.poll_flush(), Ok(()));
    assert_eq!(stream.peek_buffer(9), b"abc");
}

#[test]
fn keep_alive_probes_every_thirty_seconds_with_ping() {
    assert_eq!(KEEP_ALIVE_SECS, 30);
    let stream = ProxyStream::new(config());
    let probe = KeepAliveStep::Probe { after_secs: 30, payload: b"ping".to_vec() };
    assert_eq!(stream.keep_alive(None), probe);
    assert_eq!(stream.keep_alive(Some(Ok(()))), probe);
    assert_eq!(stream.keep_alive(Some(Ok(()))), probe);
}

#[test]
fn keep_alive_stops_at_the_first_failed_probe() {
    let stream = ProxyStream::new(config());
    assert_eq!(stream.keep_alive(Some(Err("closed".to_string()))), KeepAliveStep::Stop);
}

#[test]
fn process_gathers_62_bytes_before_it_decides() {
    let mut stream = ProxyStream::new(config());
    assert_eq!(stream.process(None), Ok(ProcessStep::Pull));
    assert_eq!(stream.process(message(&[0x00; 30])), Ok(ProcessStep::Pull));
    assert_eq!(stream.process(message(&[0x00; 31])), Ok(ProcessStep::Pull));
    assert_eq!(stream.process(message(&[0x00; 1])), Ok(ProcessStep::Dispatch(Protocol::Vless)));
    assert_eq!(stream.buffered(), 62);
}

#[test]
fn process_consumes_nothing() {
    let mut bytes = vec![0x61u8; 80];
    bytes[56] = 0x0D;
    bytes[57] = 0x0A;
    let mut stream = ProxyStream::new(config());
    assert_eq!(stream.process(message(&bytes)), Ok(ProcessStep::Dispatch(Protocol::Trojan)));
    assert_eq!(stream.buffered(), 80);
    assert_eq!(stream.poll_read(80, None), Ok(ReadStep::Ready(bytes)));
}

#[test]
fn process_tells_each_protocol() {
    let mut trojan = vec![0x10u8; 62];
    trojan[56] = 0x0D;
    trojan[57] = 0x0A;
    let cases: [(Vec<u8>, Protocol); 5] = [
        (vec![0x00u8; 62], Protocol::Vless),
        (vec![0x01u8; 62], Protocol::Shadowsocks),
        (vec![0x03u8; 62], Protocol::Shadowsocks),
        (trojan, Protocol::Trojan),
        (vec![0x10u8; 62], Protocol::Vmess),
    ];
    for (bytes, protocol) in cases {
        let mut stream = ProxyStream::new(config());
        assert_eq!(stream.process(message(&bytes)), Ok(ProcessStep::Dispatch(protocol)));
    }
}

#[test]
fn process_decides_on_a_short_prefix_where_it_can() {
    let mut stream = ProxyStream::new(config());
    assert_eq!(stream.process(message(&[0x00, 0x01, 0x02])), Ok(ProcessStep::Pull));
    assert_eq!(
        stream.process(Some(TransportEvent::Close)),
        Ok(ProcessStep::Dispatch(Protocol::Vless))
    );
}

#[test]
fn process_rejects_a_session_that_closes_at_once() {
    let mut stream = ProxyStream::new(config());
    assert_eq!(stream.process(None), Ok(ProcessStep::Pull));
    assert_eq!(stream.process(Some(TransportEvent::Close)), Err(ProcessError::InsufficientData));
}

#[test]
fn process_rejects_a_short_prefix_that_it_cannot_decide() {
    let mut stream = ProxyStream::new(config());
    assert_eq!(stream.process(message(&[0x10; 57])), Ok(ProcessStep::Pull));
    assert_eq!(stream.process(Some(TransportEvent::End)), Err(ProcessError::InsufficientData));
    assert_eq!(stream.buffered(), 57);
}

#[test]
fn process_fails_on_a_transport_error() {
    let mut stream = ProxyStream::new(config());
    assert_eq!(
        stream.process(failure("handshake lost")),
        Err(ProcessError::Transport(StreamError { message: "handshake lost".to_string() }))
    );
}

#[test]
fn a_stream_admits_what_its_buffer_has_room_for() {
    let mut stream = ProxyStream::new(config());
    assert!(stream.admits(&TransportEvent::Message(vec![0u8; 4096])));
    assert!(stream.admits(&TransportEvent::Message(Vec::new())));
    assert!(stream.admits(&TransportEvent::Close));
    assert!(stream.admits(&TransportEvent::End));
    assert!(stream.admits(&TransportEvent::Error("lost".to_string())));
    assert_eq!(stream.fill_buffer_until(1, message(b"abc")), Ok(FillStep::Done));
    assert!(stream.admits(&TransportEvent::Message(vec![0u8; 16])));
}
