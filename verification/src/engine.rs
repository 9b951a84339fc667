//! Abstract contracts for the two external collaborators: the protocol
//! engine (handshake, record protection, close-notify) and the underlying
//! non-blocking transport.
//!
//! The adapter in this crate is verified against these contracts alone; any
//! concrete engine or transport satisfying them is usable interchangeably.
//! Implementations live outside the verified core (a real TLS engine, or an
//! in-memory stub in the test suite) and are responsible for meeting the
//! stated postconditions.

use vstd::prelude::*;
use crate::IoError;

verus! {

/// Ghost model of a protocol engine's externally observable state.
///
/// `taken` and `early_taken` are histories: every byte of plaintext the
/// engine has ever accepted for transmission over the session proper and
/// over the speculative early-data channel, in order.  `avail` is the
/// decrypted plaintext that has arrived from the peer and has not yet been
/// handed to the local reader.  `close_notify` counts how many times the
/// engine has been asked to queue a close-notify signal.  `wire_read` and
/// `wire_written` count the ciphertext bytes ever moved from and to the
/// transport.
pub ghost struct EngineModel {
    /// The engine wants more ciphertext from the transport.
    pub wants_read: bool,
    /// The engine has ciphertext queued for the transport.
    pub wants_write: bool,
    /// The handshake has not completed yet.
    pub handshaking: bool,
    /// All plaintext accepted from the local writer so far, in order.
    pub taken: Seq<u8>,
    /// Decrypted plaintext from the peer, not yet read locally.
    pub avail: Seq<u8>,
    /// How many close-notify signals were requested of the engine.
    pub close_notify: nat,
    /// Total ciphertext bytes ever read from the transport.
    pub wire_read: nat,
    /// Total ciphertext bytes ever written to the transport.
    pub wire_written: nat,
    /// The speculative early-data channel is still open.
    pub early_open: bool,
    /// All plaintext accepted into the early-data channel so far, in order.
    pub early_taken: Seq<u8>,
    /// Whether the peer accepted the speculative early data.
    pub early_accepted: bool,
}

/// Ghost model of a transport's observable state.
pub ghost struct TransportModel {
    /// How many shutdown requests have completed.
    pub shutdowns: nat,
}

/// The underlying non-blocking duplex byte channel.  The engine reads and
/// writes ciphertext through it; the adapter itself only ever asks it to
/// shut down, once the protocol-level close is queued.
pub trait Transport: Sized {
    /// The transport's observable state.
    spec fn model(&self) -> TransportModel;

    /// Shut the transport down.  `Err(WouldBlock)` reports that shutdown
    /// could not complete yet and must be retried; only a success completes
    /// a shutdown.
    fn shutdown(&mut self) -> (r: Result<(), IoError>)
        ensures
            r is Ok ==> final(self).model().shutdowns == old(self).model().shutdowns + 1,
            r is Err ==> final(self).model().shutdowns == old(self).model().shutdowns,
    ;
}

/// A protocol engine: performs the handshake and record protection against
/// opaque byte buffers, pulling ciphertext from and pushing ciphertext to a
/// transport of type `IO`.  Mirrors the session side of a TLS library.
///
/// The postconditions are the whole interface: the adapter never looks
/// inside an engine, and everything proved about the adapter holds for any
/// implementation that honours them.
pub trait ProtocolEngine<IO: Transport>: Sized {
    /// The engine's observable state.
    spec fn model(&self) -> EngineModel;

    /// The engine needs more ciphertext from the transport to make progress.
    fn wants_read(&self) -> (r: bool)
        ensures
            r == self.model().wants_read,
    ;

    /// The engine has ciphertext queued for the transport.
    fn wants_write(&self) -> (r: bool)
        ensures
            r == self.model().wants_write,
    ;

    /// The handshake is still in progress.
    fn is_handshaking(&self) -> (r: bool)
        ensures
            r == self.model().handshaking,
    ;

    /// Pull ciphertext from the transport into the engine.  `Ok(0)` reports
    /// end of stream on the transport.  Reading ciphertext buffers it only:
    /// no plaintext is decrypted, accepted or dropped by this call, the
    /// count of bytes read grows by exactly the reported count, and the
    /// transport is not shut down.
    fn read_transport(&mut self, io: &mut IO) -> (r: Result<usize, IoError>)
        ensures
            final(self).model().taken == old(self).model().taken,
            final(self).model().early_taken == old(self).model().early_taken,
            final(self).model().avail == old(self).model().avail,
            final(self).model().close_notify == old(self).model().close_notify,
            final(self).model().wire_written == old(self).model().wire_written,
            r matches Ok(n) ==> final(self).model().wire_read
                == old(self).model().wire_read + n,
            r is Err ==> final(self).model().wire_read == old(self).model().wire_read,
            final(io).model().shutdowns == old(io).model().shutdowns,
    ;

    /// Push queued ciphertext from the engine to the transport.  Writing
    /// ciphertext transmits what was already queued: it accepts no new
    /// plaintext, requests no close-notify, does not advance the handshake
    /// state machine (only processing inbound data does), does not change
    /// whether the peer accepted early data, moves exactly the reported
    /// count of bytes to the wire, and does not shut the transport down.
    fn write_transport(&mut self, io: &mut IO) -> (r: Result<usize, IoError>)
        ensures
            final(self).model().taken == old(self).model().taken,
            final(self).model().early_taken == old(self).model().early_taken,
            final(self).model().avail == old(self).model().avail,
            final(self).model().close_notify == old(self).model().close_notify,
            final(self).model().handshaking == old(self).model().handshaking,
            final(self).model().early_accepted == old(self).model().early_accepted,
            final(self).model().wire_read == old(self).model().wire_read,
            r matches Ok(n) ==> final(self).model().wire_written
                == old(self).model().wire_written + n,
            r is Err ==> final(self).model().wire_written == old(self).model().wire_written,
            final(io).model().shutdowns == old(io).model().shutdowns,
    ;

    /// Decode and validate buffered ciphertext.  On success newly decrypted
    /// plaintext is appended, in order, to what was already available; an
    /// error reports a protocol violation (the engine may queue an alert for
    /// sending, but accepts no plaintext and requests no close-notify).
    /// No transport IO happens.
    fn process_incoming(&mut self) -> (r: Result<(), IoError>)
        ensures
            final(self).model().taken == old(self).model().taken,
            final(self).model().early_taken == old(self).model().early_taken,
            final(self).model().close_notify == old(self).model().close_notify,
            final(self).model().wire_read == old(self).model().wire_read,
            final(self).model().wire_written == old(self).model().wire_written,
            r is Ok ==> old(self).model().avail.is_prefix_of(final(self).model().avail),
            r is Err ==> final(self).model().avail == old(self).model().avail,
    ;

    /// Hand at most `want` bytes of decrypted plaintext to the local reader,
    /// from the front of what is available, consuming them.  Everything
    /// available is delivered, up to `want`.
    fn read_plaintext(&mut self, want: usize) -> (r: Vec<u8>)
        ensures
            r@.len() == if want <= old(self).model().avail.len() {
                want as int
            } else {
                old(self).model().avail.len() as int
            },
            r@ == old(self).model().avail.take(r@.len() as int),
            final(self).model().avail == old(self).model().avail.skip(r@.len() as int),
            final(self).model().taken == old(self).model().taken,
            final(self).model().early_taken == old(self).model().early_taken,
            final(self).model().close_notify == old(self).model().close_notify,
            final(self).model().wire_read == old(self).model().wire_read,
            final(self).model().wire_written == old(self).model().wire_written,
    ;

    /// Accept plaintext from the local writer for transmission, up to
    /// engine-internal limits; the accepted prefix is appended to the
    /// history of taken bytes.  Acceptance itself never fails, performs no
    /// transport IO, and does not change whether the peer accepted early
    /// data.
    fn write_plaintext(&mut self, buf: &[u8]) -> (r: usize)
        ensures
            r <= buf@.len(),
            final(self).model().taken == old(self).model().taken + buf@.take(r as int),
            final(self).model().early_taken == old(self).model().early_taken,
            final(self).model().avail == old(self).model().avail,
            final(self).model().close_notify == old(self).model().close_notify,
            final(self).model().early_accepted == old(self).model().early_accepted,
            final(self).model().wire_read == old(self).model().wire_read,
            final(self).model().wire_written == old(self).model().wire_written,
    ;

    /// Finalize pending plaintext into records, so that draining the write
    /// side will transmit everything accepted so far.  Finalizing performs
    /// no transport IO and does not advance the handshake state machine.
    fn flush_plaintext(&mut self) -> (r: Result<(), IoError>)
        ensures
            final(self).model().taken == old(self).model().taken,
            final(self).model().early_taken == old(self).model().early_taken,
            final(self).model().avail == old(self).model().avail,
            final(self).model().close_notify == old(self).model().close_notify,
            final(self).model().handshaking == old(self).model().handshaking,
            final(self).model().wire_read == old(self).model().wire_read,
            final(self).model().wire_written == old(self).model().wire_written,
    ;

    /// Ask the engine to queue a close-notify signal for the peer.  Queuing
    /// performs no transport IO.
    fn send_close_notify(&mut self)
        ensures
            final(self).model().close_notify == old(self).model().close_notify + 1,
            final(self).model().taken == old(self).model().taken,
            final(self).model().early_taken == old(self).model().early_taken,
            final(self).model().avail == old(self).model().avail,
            final(self).model().wire_read == old(self).model().wire_read,
            final(self).model().wire_written == old(self).model().wire_written,
    ;

    /// Whether the speculative early-data channel is still open.
    fn early_data_open(&self) -> (r: bool)
        ensures
            r == self.model().early_open,
    ;

    /// Queue speculative plaintext on the early-data channel.  The accepted
    /// prefix is appended to the early-data history; `Err(WouldBlock)`
    /// reports that the channel cannot take more right now, with nothing
    /// accepted.  No transport IO happens.
    fn write_early_data(&mut self, buf: &[u8]) -> (r: Result<usize, IoError>)
        requires
            old(self).model().early_open,
        ensures
            final(self).model().taken == old(self).model().taken,
            final(self).model().avail == old(self).model().avail,
            final(self).model().close_notify == old(self).model().close_notify,
            final(self).model().wire_read == old(self).model().wire_read,
            final(self).model().wire_written == old(self).model().wire_written,
            r matches Ok(n) ==> n <= buf@.len()
                && final(self).model().early_taken
                    == old(self).model().early_taken + buf@.take(n as int),
            r is Err ==> final(self).model().early_taken == old(self).model().early_taken,
    ;

    /// Whether the peer accepted the speculative early data; meaningful once
    /// the handshake has completed.
    fn is_early_data_accepted(&self) -> (r: bool)
        ensures
            r == self.model().early_accepted,
    ;
}

} // verus!
