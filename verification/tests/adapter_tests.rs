//! Scenario tests driving the adapter with a scripted in-memory engine and
//! transport: a transparent engine (records are the plaintext itself) over
//! a byte-queue transport that can fragment, block, reset or close.

use tls_adapter::client::{MidHandshake, TlsStream};
use tls_adapter::common::{Stream, WriteTls};
use tls_adapter::engine::{EngineModel, ProtocolEngine, Transport, TransportModel};
use tls_adapter::{IoError, Poll, TlsState};

/// A scripted in-memory transport.
struct Pipe {
    /// Bytes the peer has put on the wire for us.
    incoming: Vec<u8>,
    /// Read cursor into `incoming`.
    pos: usize,
    /// Deliver at most this many bytes per read.
    chunk: usize,
    /// Report `WouldBlock` on every other read attempt.
    block_every_other: bool,
    toggle: bool,
    /// Refuse all writes with `WouldBlock`.
    block_writes: bool,
    /// Report an abrupt peer reset on the next read.
    reset: bool,
    /// Report this error on the next read, once.
    read_error: Option<IoError>,
    /// Everything the engine wrote to the wire.
    sent: Vec<u8>,
    /// How many times shutdown was requested.
    shutdowns: usize,
}

impl Pipe {
    fn new(incoming: &[u8]) -> Pipe {
        Pipe {
            incoming: incoming.to_vec(),
            pos: 0,
            chunk: usize::MAX,
            block_every_other: false,
            toggle: false,
            block_writes: false,
            reset: false,
            read_error: None,
            sent: Vec::new(),
            shutdowns: 0,
        }
    }

    fn read_wire(&mut self, buf: &mut Vec<u8>) -> Result<usize, IoError> {
        if self.reset {
            return Err(IoError::ConnectionAborted);
        }
        if let Some(e) = self.read_error.take() {
            return Err(e);
        }
        if self.block_every_other {
            self.toggle = !self.toggle;
            if self.toggle {
                return Err(IoError::WouldBlock);
            }
        }
        let left = self.incoming.len() - self.pos;
        let n = left.min(self.chunk);
        buf.extend_from_slice(&self.incoming[self.pos..self.pos + n]);
        self.pos += n;
        Ok(n)
    }

    fn write_wire(&mut self, buf: &[u8]) -> Result<usize, IoError> {
        if self.block_writes {
            return Err(IoError::WouldBlock);
        }
        self.sent.extend_from_slice(buf);
        Ok(buf.len())
    }
}

impl Transport for Pipe {
    // The ghost model is specification-only; it is never evaluated at run
    // time.
    fn model(&self) -> TransportModel {
        unreachable!()
    }

    fn shutdown(&mut self) -> Result<(), IoError> {
        self.shutdowns += 1;
        Ok(())
    }
}

/// A transparent engine: no cryptography, records are the plaintext bytes
/// themselves.  The handshake is a scripted exchange of one flight each
/// way per round.
struct Null {
    /// Plaintext accepted for transmission but not yet framed to the wire.
    outbuf: Vec<u8>,
    /// Wire bytes read but not yet processed.
    raw: Vec<u8>,
    /// Decrypted plaintext not yet handed to the reader.
    avail: Vec<u8>,
    /// Everything ever accepted from the local writer, for assertions.
    taken_log: Vec<u8>,
    handshaking: bool,
    /// Handshake flights still expected from the peer.
    hs_rounds: usize,
    /// Fail every processing step with this error.
    process_error: Option<IoError>,
    close_notifies: usize,
    early_open: bool,
    early_accepted: bool,
    /// Everything accepted on the speculative channel, for assertions.
    early_log: Vec<u8>,
    /// Speculative writes accepted before the channel closes.
    early_capacity: usize,
}

impl Null {
    fn open() -> Null {
        Null {
            outbuf: Vec::new(),
            raw: Vec::new(),
            avail: Vec::new(),
            taken_log: Vec::new(),
            handshaking: false,
            hs_rounds: 0,
            process_error: None,
            close_notifies: 0,
            early_open: false,
            early_accepted: false,
            early_log: Vec::new(),
            early_capacity: 0,
        }
    }

    fn handshaking_rounds(rounds: usize) -> Null {
        let mut e = Null::open();
        e.handshaking = true;
        e.hs_rounds = rounds;
        e.outbuf = vec![0x16];
        e
    }
}

impl ProtocolEngine<Pipe> for Null {
    // The ghost model is specification-only; it is never evaluated at run
    // time.
    fn model(&self) -> EngineModel {
        unreachable!()
    }

    fn wants_read(&self) -> bool {
        if self.handshaking {
            self.outbuf.is_empty()
        } else {
            self.avail.is_empty()
        }
    }

    fn wants_write(&self) -> bool {
        !self.outbuf.is_empty()
    }

    fn is_handshaking(&self) -> bool {
        self.handshaking
    }

    fn read_transport(&mut self, io: &mut Pipe) -> Result<usize, IoError> {
        let mut buf = Vec::new();
        let n = io.read_wire(&mut buf)?;
        self.raw.extend_from_slice(&buf);
        Ok(n)
    }

    fn write_transport(&mut self, io: &mut Pipe) -> Result<usize, IoError> {
        let n = io.write_wire(&self.outbuf)?;
        self.outbuf.drain(..n);
        Ok(n)
    }

    fn process_incoming(&mut self) -> Result<(), IoError> {
        if let Some(e) = self.process_error {
            return Err(e);
        }
        if self.handshaking {
            if !self.raw.is_empty() {
                self.raw.clear();
                self.hs_rounds -= 1;
                if self.hs_rounds == 0 {
                    self.handshaking = false;
                    self.early_open = false;
                } else {
                    self.outbuf.push(0x16);
                }
            }
        } else {
            self.avail.append(&mut self.raw);
        }
        Ok(())
    }

    fn read_plaintext(&mut self, want: usize) -> Vec<u8> {
        let n = want.min(self.avail.len());
        let rest = self.avail.split_off(n);
        let out = std::mem::replace(&mut self.avail, rest);
        out
    }

    fn write_plaintext(&mut self, buf: &[u8]) -> usize {
        self.outbuf.extend_from_slice(buf);
        self.taken_log.extend_from_slice(buf);
        buf.len()
    }

    fn flush_plaintext(&mut self) -> Result<(), IoError> {
        Ok(())
    }

    fn send_close_notify(&mut self) {
        self.close_notifies += 1;
        self.outbuf.push(0x15);
    }

    fn early_data_open(&self) -> bool {
        self.early_open
    }

    fn write_early_data(&mut self, buf: &[u8]) -> Result<usize, IoError> {
        let n = buf.len().min(self.early_capacity);
        self.early_capacity -= n;
        if self.early_capacity == 0 {
            self.early_open = false;
        }
        self.early_log.extend_from_slice(&buf[..n]);
        Ok(n)
    }

    fn is_early_data_accepted(&self) -> bool {
        self.early_accepted
    }
}

fn open_stream(incoming: &[u8]) -> TlsStream<Null, Pipe> {
    TlsStream::new(Null::open(), Pipe::new(incoming))
}

/// Blocking-style read of exactly `n` bytes, accumulating partial results.
fn read_exact(s: &mut TlsStream<Null, Pipe>, n: usize) -> Vec<u8> {
    let mut got = Vec::new();
    while got.len() < n {
        match s.read_until_ready(n - got.len(), 1000) {
            Ok(d) => {
                assert!(!d.is_empty(), "unexpected end of stream");
                got.extend_from_slice(&d);
            }
            Err(IoError::WouldBlock) => continue,
            Err(e) => panic!("read failed: {:?}", e),
        }
    }
    got
}

/// Bytes written then flushed appear on the wire exactly, in order, even
/// when every transport read is fragmented and interleaved with blocks;
/// reading them back on the peer side yields them byte-for-byte.
#[test]
fn round_trip_fragmented() {
    let payload: Vec<u8> = (0u8..=255).cycle().take(1000).collect();

    let mut client = open_stream(b"");
    let n = client.write_until_ready(&payload, 1000).unwrap();
    assert_eq!(n, payload.len());
    client.flush_until_ready(1000).unwrap();
    let wire = client.get_ref().0.sent.clone();
    assert_eq!(wire, payload);

    let mut server = open_stream(&wire);
    {
        let (io, _) = server.get_mut();
        io.chunk = 1;
        io.block_every_other = true;
    }
    let got = read_exact(&mut server, payload.len());
    assert_eq!(got, payload);
}

/// The concrete echo scenario: one-byte chunks, `WouldBlock` every other
/// read; "hello" is written, flushed, echoed, and read back exactly.
#[test]
fn echo_hello_one_byte_chunks() {
    let mut client = open_stream(b"");
    let n = client.write_until_ready(b"hello", 1000).unwrap();
    assert_eq!(n, 5);
    client.flush_until_ready(1000).unwrap();

    let echoed = client.get_ref().0.sent.clone();
    assert_eq!(echoed, b"hello");
    {
        let (io, _) = client.get_mut();
        io.incoming = echoed;
        io.chunk = 1;
        io.block_every_other = true;
    }

    let got = read_exact(&mut client, 5);
    assert_eq!(got, b"hello");
}

/// A write is tolerated as success even when the transport refuses the
/// drain, as long as the engine accepted bytes; flush then reports the
/// suspension instead.
#[test]
fn write_tolerates_blocked_drain() {
    let mut s = open_stream(b"");
    s.get_mut().0.block_writes = true;
    match s.poll_write(b"abc") {
        Poll::Ready(Ok(3)) => {}
        other => panic!("unexpected: {:?}", fmt(&other)),
    }
    assert!(matches!(s.poll_flush(), Poll::Pending));
    s.get_mut().0.block_writes = false;
    assert!(matches!(s.poll_flush(), Poll::Ready(Ok(()))));
    assert_eq!(s.get_ref().0.sent, b"abc");
}

fn fmt(p: &Poll<Result<usize, IoError>>) -> String {
    match p {
        Poll::Ready(Ok(n)) => format!("Ready(Ok({}))", n),
        Poll::Ready(Err(e)) => format!("Ready(Err({:?}))", e),
        Poll::Pending => "Pending".to_string(),
    }
}

/// Shutdown is idempotent: a second call produces no error and requests no
/// further close-notify of the engine.
#[test]
fn shutdown_twice_one_close_notify() {
    let mut s = open_stream(b"");
    s.shutdown_until_ready(1000).unwrap();
    assert_eq!(s.get_ref().1.close_notifies, 1);
    assert!(matches!(s.state, TlsState::WriteShutdown));

    s.shutdown_until_ready(1000).unwrap();
    assert_eq!(s.get_ref().1.close_notifies, 1);
    assert!(matches!(s.state, TlsState::WriteShutdown));
    assert_eq!(s.get_ref().0.shutdowns, 2);
    // The close-notify record itself went out exactly once.
    assert_eq!(s.get_ref().0.sent, vec![0x15]);
}

/// After a peer clean close, every subsequent read returns a zero-length
/// success: never a suspension, never an error.
#[test]
fn reads_after_clean_close_stay_empty() {
    let mut s = open_stream(b"");
    // The transport reports end of stream at once: a clean close.
    match s.poll_read(16) {
        Poll::Ready(Ok(d)) => assert!(d.is_empty()),
        _ => panic!("expected a zero-length success"),
    }
    assert!(matches!(s.state, TlsState::ReadShutdown));
    for _ in 0..3 {
        match s.poll_read(16) {
            Poll::Ready(Ok(d)) => assert!(d.is_empty()),
            _ => panic!("expected a zero-length success"),
        }
    }
}

/// An engine whose processing step always fails surfaces a protocol
/// violation — not a suspension — and the adapter returns rather than
/// looping forever.
#[test]
fn failing_engine_surfaces_protocol_violation() {
    let mut s = open_stream(b"\x01\x02");
    s.get_mut().1.process_error = Some(IoError::Other(7));
    match s.poll_read(16) {
        Poll::Ready(Err(IoError::ProtocolViolation)) => {}
        Poll::Ready(Err(e)) => panic!("wrong error: {:?}", e),
        Poll::Ready(Ok(_)) => panic!("expected an error"),
        Poll::Pending => panic!("expected a protocol violation, not a suspension"),
    }
}

/// An abrupt reset during an open read produces a zero-length result, and
/// the still-writable stream records one close-notify attempt.
#[test]
fn abrupt_reset_reads_as_clean_close() {
    let mut s = open_stream(b"");
    s.get_mut().0.reset = true;
    match s.poll_read(16) {
        Poll::Ready(Ok(d)) => assert!(d.is_empty()),
        _ => panic!("expected a zero-length success"),
    }
    assert_eq!(s.get_ref().1.close_notifies, 1);
    assert!(matches!(s.state, TlsState::FullyShutdown));
}

/// An abrupt reset on an already write-closed stream sends no further
/// close-notify.
#[test]
fn abrupt_reset_when_write_closed() {
    let mut s = open_stream(b"");
    s.shutdown_until_ready(1000).unwrap();
    assert_eq!(s.get_ref().1.close_notifies, 1);
    s.get_mut().0.reset = true;
    match s.poll_read(16) {
        Poll::Ready(Ok(d)) => assert!(d.is_empty()),
        _ => panic!("expected a zero-length success"),
    }
    assert_eq!(s.get_ref().1.close_notifies, 1);
    assert!(matches!(s.state, TlsState::FullyShutdown));
}

/// Rejected early data is re-sent over the confirmed session, in its
/// original order, strictly before any later bytes.
#[test]
fn rejected_early_data_replays_in_order() {
    let mut engine = Null::open();
    engine.early_open = true;
    engine.early_capacity = 3;
    engine.early_accepted = false;
    let mut s = TlsStream::new_early(engine, Pipe::new(b""));

    // The channel takes the speculative bytes; nothing is on the session.
    match s.poll_write(b"abc") {
        Poll::Ready(Ok(3)) => {}
        other => panic!("unexpected: {}", fmt(&other)),
    }
    assert!(matches!(s.state, TlsState::EarlyData));
    assert_eq!(s.get_ref().1.early_log, b"abc");
    assert_eq!(s.get_ref().1.taken_log, b"");

    // The channel is now closed: the buffered bytes are replayed over the
    // session before the new ones, and the stream opens.
    match s.poll_write(b"def") {
        Poll::Ready(Ok(3)) => {}
        other => panic!("unexpected: {}", fmt(&other)),
    }
    assert!(matches!(s.state, TlsState::Stream));
    assert_eq!(s.get_ref().1.taken_log, b"abcdef");
    assert!(s.early_data.1.is_empty());
}

/// Accepted early data is not replayed: only the later bytes reach the
/// session channel.
#[test]
fn accepted_early_data_is_not_replayed() {
    let mut engine = Null::open();
    engine.early_open = true;
    engine.early_capacity = 3;
    engine.early_accepted = true;
    let mut s = TlsStream::new_early(engine, Pipe::new(b""));

    match s.poll_write(b"abc") {
        Poll::Ready(Ok(3)) => {}
        other => panic!("unexpected: {}", fmt(&other)),
    }
    match s.poll_write(b"def") {
        Poll::Ready(Ok(3)) => {}
        other => panic!("unexpected: {}", fmt(&other)),
    }
    assert!(matches!(s.state, TlsState::Stream));
    assert_eq!(s.get_ref().1.taken_log, b"def");
}

/// The handshake driver completes a scripted two-flight handshake and
/// yields the stream exactly once; its write queue is drained.
#[test]
fn handshake_driver_completes_once() {
    let engine = Null::handshaking_rounds(2);
    let mut pipe = Pipe::new(b"\x16\x16");
    pipe.chunk = 1;
    let stream = TlsStream::new(engine, pipe);
    let mut unit = MidHandshake::Handshaking(stream);

    let s = loop {
        assert!(!unit.is_end());
        match unit.poll() {
            Poll::Ready(Ok(s)) => break s,
            Poll::Ready(Err(e)) => panic!("handshake failed: {:?}", e),
            Poll::Pending => continue,
        }
    };
    assert!(unit.is_end());
    assert!(!s.get_ref().1.handshaking);
    assert!(s.get_ref().1.outbuf.is_empty());
}

/// End of stream while the handshake is still in progress is fatal.
#[test]
fn eof_during_handshake_is_fatal() {
    let engine = Null::handshaking_rounds(2);
    let stream = TlsStream::new(engine, Pipe::new(b""));
    let mut unit = MidHandshake::Handshaking(stream);
    match unit.poll() {
        Poll::Ready(Err(IoError::UnexpectedEof)) => {}
        Poll::Ready(Err(e)) => panic!("wrong error: {:?}", e),
        Poll::Ready(Ok(_)) => panic!("expected failure"),
        Poll::Pending => panic!("expected failure, not suspension"),
    }
}

/// Transport errors other than a reset pass through the read path
/// unmodified.
#[test]
fn other_transport_errors_pass_through() {
    let mut s = open_stream(b"");
    s.get_mut().0.read_error = Some(IoError::Other(42));
    match s.poll_read(16) {
        Poll::Ready(Err(IoError::Other(42))) => {}
        _ => panic!("expected the transport error unmodified"),
    }
}

/// In the early-data state the stream is not yet readable.
#[test]
fn early_data_stream_is_not_readable() {
    let mut engine = Null::open();
    engine.early_open = true;
    engine.early_capacity = 8;
    let mut s = TlsStream::new_early(engine, Pipe::new(b""));
    assert!(matches!(s.poll_read(16), Poll::Pending));
    assert!(matches!(s.state, TlsState::EarlyData));
}

/// The accessor pair and extraction expose the engine and transport.
#[test]
fn accessors_expose_parts() {
    let mut s = open_stream(b"xyz");
    assert_eq!(s.get_ref().0.incoming, b"xyz");
    s.get_mut().0.chunk = 2;
    let (io, engine) = s.into_inner();
    assert_eq!(io.chunk, 2);
    assert!(engine.taken_log.is_empty());
}

/// The bare session adapter accepts plaintext, drains it to the wire on
/// flush, and reports an idle connection as zero moved bytes.
#[test]
fn session_adapter_write_and_drain() {
    let mut st = Stream::new(Null::open(), Pipe::new(b""));
    let n = st.write(b"abc").unwrap();
    assert_eq!(n, 3);
    st.flush().unwrap();
    assert_eq!(st.io.sent, b"abc");
    assert_eq!(st.complete_io().unwrap(), (0, 0));
}

/// The write-side interface pushes exactly the records the engine queued.
#[test]
fn write_tls_flushes_queued_records() {
    let mut engine = Null::open();
    engine.outbuf = b"rec".to_vec();
    let mut st = Stream::new(engine, Pipe::new(b""));
    let n = st.write_tls().unwrap();
    assert_eq!(n, 3);
    assert_eq!(st.io.sent, b"rec");
}

/// A blocked transport suspends the read; the bounded blocking form
/// reports `WouldBlock` instead of spinning, and succeeds once the
/// transport is ready again.
#[test]
fn blocked_read_suspends_then_succeeds() {
    let mut s = open_stream(b"zz");
    s.get_mut().0.read_error = Some(IoError::WouldBlock);
    match s.read_until_ready(4, 1) {
        Err(IoError::WouldBlock) => {}
        _ => panic!("expected a suspension"),
    }
    let got = s.read_until_ready(4, 10).unwrap();
    assert_eq!(got, b"zz");
}

/// The half-close state machine: directions close independently, never
/// reopen, and both together reach the fully shut state.
#[test]
fn state_machine_transitions() {
    let mut st = TlsState::Stream;
    assert!(st.readable() && st.writeable());
    st.shutdown_read();
    assert!(matches!(st, TlsState::ReadShutdown));
    assert!(!st.readable() && st.writeable());
    st.shutdown_write();
    assert!(matches!(st, TlsState::FullyShutdown));
    assert!(!st.readable() && !st.writeable());

    let mut st = TlsState::WriteShutdown;
    st.shutdown_read();
    assert!(matches!(st, TlsState::FullyShutdown));
}
