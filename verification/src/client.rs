//! The externally visible duplex stream: composes the session adapter and
//! the half-close state machine into pollable read, write, flush and
//! shutdown operations, with an optional speculative early-data path, and a
//! one-shot handshake driver that hands the ready stream off exactly once.

use vstd::prelude::*;
use vstd::slice::slice_subrange;
use crate::common::{keeps_output, grows_input, lemma_prefix_trans, Focus,
    Stream};
use crate::engine::{ProtocolEngine, Transport};
use crate::{IoError, Poll, TlsState};

verus! {

/// A pollable duplex stream wrapping an underlying transport with a
/// secure-transport session engine.
///
/// Owns the engine and the transport exclusively (through the inner
/// adapter), carries the half-close state, and — while in the early-data
/// state — an ordered buffer of the bytes tentatively sent before
/// confirmation, with a replay cursor into it.
pub struct TlsStream<S, IO> {
    /// The session adapter around the engine and the transport.
    pub stream: Stream<S, IO>,
    /// Half-close state, layered on top of the engine's own bookkeeping.
    pub state: TlsState,
    /// Replay cursor and buffer of speculative bytes sent before the
    /// handshake was confirmed; meaningful only in the early-data state.
    pub early_data: (usize, Vec<u8>),
}

/// A one-shot resumable unit that drives the handshake to completion and
/// yields the ready stream exactly once.  Transitions only forward: once
/// the stream has been handed out the unit is [`MidHandshake::End`], and
/// resuming it again is a caller fault, excluded by precondition.
pub enum MidHandshake<S, IO> {
    /// The handshake is being driven to completion.
    Handshaking(TlsStream<S, IO>),
    /// The stream is in the early-data state; it is handed out at once and
    /// completes its handshake lazily on write or flush.
    EarlyData(TlsStream<S, IO>),
    /// The stream has been handed out; resuming is a fault.
    End,
}

impl<S, IO> TlsStream<S, IO> {
    /// The replay cursor never passes the end of the early-data buffer.
    pub open spec fn wf(&self) -> bool {
        self.early_data.0 <= self.early_data.1@.len()
    }

    /// Borrow the transport and the engine.
    pub fn get_ref(&self) -> (r: (&IO, &S))
        ensures
            *(r.0) == self.stream.io,
            *(r.1) == self.stream.session,
    {
        (&self.stream.io, &self.stream.session)
    }

    /// Borrow the transport and the engine mutably.
    pub fn get_mut(&mut self) -> ((io, session): (&mut IO, &mut S))
        ensures
            *io == old(self).stream.io,
            *session == old(self).stream.session,
            final(self).stream.io == *final(io),
            final(self).stream.session == *final(session),
            final(self).stream.eof == old(self).stream.eof,
            final(self).state == old(self).state,
            final(self).early_data == old(self).early_data,
    {
        (&mut self.stream.io, &mut self.stream.session)
    }

    /// Extract the transport and the engine, consuming the stream.
    pub fn into_inner(self) -> (r: (IO, S))
        ensures
            r.0 == self.stream.io,
            r.1 == self.stream.session,
    {
        (self.stream.io, self.stream.session)
    }
}

impl<S: ProtocolEngine<IO>, IO: Transport> TlsStream<S, IO> {
    /// A stream in the open state: the handshake is (being) driven by
    /// [`MidHandshake`] and no speculative data will be sent.
    pub fn new(session: S, io: IO) -> (r: Self)
        ensures
            r.stream.session == session,
            r.stream.io == io,
            !r.stream.eof,
            r.state is Stream,
            r.early_data.0 == 0,
            r.early_data.1@.len() == 0,
            r.wf(),
    {
        TlsStream { stream: Stream::new(session, io), state: TlsState::Stream, early_data: (
            0,
            Vec::new(),
        ) }
    }

    /// A stream in the early-data state: speculative plaintext may be sent
    /// before the handshake is confirmed, buffered for replay in case the
    /// peer rejects it.
    pub fn new_early(session: S, io: IO) -> (r: Self)
        ensures
            r.stream.session == session,
            r.stream.io == io,
            !r.stream.eof,
            r.state is EarlyData,
            r.early_data.0 == 0,
            r.early_data.1@.len() == 0,
            r.wf(),
    {
        TlsStream { stream: Stream::new(session, io), state: TlsState::EarlyData, early_data: (
            0,
            Vec::new(),
        ) }
    }

    /// Poll for inbound plaintext: up to `want` bytes.
    ///
    /// In the early-data state the stream is not yet readable.  While
    /// readable, delegates to the session adapter; a zero-length result
    /// closes the read side and is returned as-is, and an abrupt peer reset
    /// is converted into a graceful zero-length result plus an opportunistic
    /// close-notify if the write side was still open.  Once the read side is
    /// closed, every call returns an empty result immediately: it never
    /// suspends and never errors.
    pub fn poll_read(&mut self, want: usize) -> (r: Poll<Result<Vec<u8>, IoError>>)
        requires
            old(self).wf(),
        ensures
            final(self).wf(),
            final(self).stream.session.model().taken
                == old(self).stream.session.model().taken,
            final(self).stream.session.model().early_taken
                == old(self).stream.session.model().early_taken,
            final(self).early_data == old(self).early_data,
            old(self).state is EarlyData ==> r is Pending && *final(self) == *old(self),
            !old(self).state.readable_spec() ==> (r matches Poll::Ready(Ok(d)) && d@.len() == 0)
                && *final(self) == *old(self),
            (r matches Poll::Ready(Ok(d)) && d@.len() == 0)
                ==> !final(self).state.readable_spec(),
            r matches Poll::Ready(Ok(d)) ==> (d@.len() > 0
                ==> old(self).stream.session.model().avail.is_prefix_of(
                    d@ + final(self).stream.session.model().avail)),
            r is Pending ==> final(self).state == old(self).state
                && grows_input(old(self).stream.session.model(),
                    final(self).stream.session.model()),
            r matches Poll::Ready(Err(e)) ==> !(e is ConnectionAborted) && !(e is WouldBlock),
            (old(self).state is Stream || old(self).state is WriteShutdown)
                && !old(self).stream.session.model().wants_read
                ==> (r matches Poll::Ready(Ok(d))
                && d@.len() == (if want <= old(self).stream.session.model().avail.len() {
                    want as int
                } else {
                    old(self).stream.session.model().avail.len() as int
                })
                && d@ == old(self).stream.session.model().avail.take(d@.len() as int)),
            !old(self).state.writeable_spec() ==> !final(self).state.writeable_spec(),
            !old(self).state.readable_spec() ==> !final(self).state.readable_spec(),
            final(self).stream.session.model().close_notify
                == old(self).stream.session.model().close_notify
                || (final(self).stream.session.model().close_notify
                    == old(self).stream.session.model().close_notify + 1
                    && old(self).state.writeable_spec()
                    && !final(self).state.writeable_spec()
                    && !final(self).state.readable_spec()
                    && (r matches Poll::Ready(Ok(d)) && d@.len() == 0)),
    {
        match self.state {
            TlsState::EarlyData => Poll::Pending,
            TlsState::Stream | TlsState::WriteShutdown => {
                let eofv = !self.state.readable();
                self.stream.eof = eofv;
                match self.stream.read(want) {
                    Ok(data) => {
                        if data.len() == 0 {
                            self.state.shutdown_read();
                        }
                        Poll::Ready(Ok(data))
                    }
                    Err(e) => {
                        if matches!(e, IoError::ConnectionAborted) {
                            self.state.shutdown_read();
                            if self.state.writeable() {
                                self.stream.session.send_close_notify();
                                self.state.shutdown_write();
                            }
                            Poll::Ready(Ok(Vec::new()))
                        } else if matches!(e, IoError::WouldBlock) {
                            Poll::Pending
                        } else {
                            Poll::Ready(Err(e))
                        }
                    }
                }
            }
            TlsState::ReadShutdown | TlsState::FullyShutdown => Poll::Ready(Ok(Vec::new())),
        }
    }

    /// Poll to flush: drive the handshake to completion if necessary, then
    /// finalize pending plaintext and fully drain outbound.  Success means
    /// the engine has nothing left to write.
    pub fn poll_flush(&mut self) -> (r: Poll<Result<(), IoError>>)
        requires
            old(self).wf(),
        ensures
            final(self).wf(),
            keeps_output(old(self).stream.session.model(),
                final(self).stream.session.model()),
            final(self).state == old(self).state,
            final(self).early_data == old(self).early_data,
            r matches Poll::Ready(Ok(u)) ==> !final(self).stream.session.model().wants_write
                && !final(self).stream.session.model().handshaking,
    {
        let eofv = !self.state.readable();
        self.stream.eof = eofv;

        loop
            invariant
                self.wf(),
                keeps_output(old(self).stream.session.model(), self.stream.session.model()),
                self.state == old(self).state,
                self.early_data == old(self).early_data,
            ensures
                !self.stream.session.model().handshaking,
            decreases (if self.stream.session.model().handshaking {
                1int
            } else {
                0int
            }),
        {
            if !self.stream.session.is_handshaking() {
                break;
            }
            match self.stream.complete_io() {
                Ok(_) => {}
                Err(e) => {
                    if matches!(e, IoError::WouldBlock) {
                        return Poll::Pending;
                    }
                    return Poll::Ready(Err(e));
                }
            }
        }

        match self.stream.flush() {
            Ok(()) => Poll::Ready(Ok(())),
            Err(e) => {
                if matches!(e, IoError::WouldBlock) {
                    return Poll::Pending;
                }
                Poll::Ready(Err(e))
            }
        }
    }

    /// Poll to write `buf`.
    ///
    /// Outside the early-data state this passes straight through to the
    /// session adapter: on success exactly the first `n` bytes of `buf`
    /// were accepted for transmission, in order.
    ///
    /// In the early-data state, `buf` is first offered to the engine's
    /// speculative channel; bytes it accepts are also recorded in the
    /// replay buffer.  Once the channel has closed, the handshake is driven
    /// to completion and — only if the peer did not accept the speculative
    /// data — the buffered bytes still unreplayed are re-sent over the
    /// confirmed session, in their original order, strictly before any byte
    /// of `buf`; the stream then moves permanently to the open state and
    /// the replay buffer is discarded.  A suspension mid-replay loses no
    /// progress: the cursor records exactly what has been re-sent.
    ///
    /// Success is not a delivery guarantee: call flush to force the
    /// accepted bytes out.
    pub fn poll_write(&mut self, buf: &[u8]) -> (r: Poll<Result<usize, IoError>>)
        requires
            old(self).wf(),
        ensures
            final(self).wf(),
            final(self).stream.session.model().close_notify
                == old(self).stream.session.model().close_notify,
            !(old(self).state is EarlyData) ==> final(self).state == old(self).state
                && final(self).early_data == old(self).early_data
                && final(self).stream.session.model().early_taken
                    == old(self).stream.session.model().early_taken
                && final(self).stream.session.model().early_accepted
                    == old(self).stream.session.model().early_accepted,
            !(old(self).state is EarlyData) ==> (r matches Poll::Ready(Ok(n)) ==> n <= buf@.len()
                && final(self).stream.session.model().taken
                    == old(self).stream.session.model().taken + buf@.take(n as int)),
            !(old(self).state is EarlyData) && r is Pending
                ==> final(self).stream.session.model().taken
                    == old(self).stream.session.model().taken,
            old(self).state is EarlyData && old(self).stream.session.model().early_open
                ==> final(self).state is EarlyData
                && final(self).stream.session.model().taken
                    == old(self).stream.session.model().taken
                && (r matches Poll::Ready(Ok(n)) ==> n <= buf@.len()
                    && final(self).stream.session.model().early_taken
                        == old(self).stream.session.model().early_taken + buf@.take(n as int)
                    && final(self).early_data.1@ == old(self).early_data.1@ + buf@.take(n as int)
                    && final(self).early_data.0 == old(self).early_data.0),
            old(self).state is EarlyData ==> (final(self).state is EarlyData
                || final(self).state is Stream),
            old(self).state is EarlyData && final(self).state is EarlyData
                ==> (r matches Poll::Ready(Ok(n)) ==> n <= buf@.len()
                && final(self).stream.session.model().early_taken
                    == old(self).stream.session.model().early_taken + buf@.take(n as int)
                && final(self).early_data.1@ == old(self).early_data.1@ + buf@.take(n as int)
                && final(self).early_data.0 == old(self).early_data.0
                && final(self).stream.session.model().taken
                    == old(self).stream.session.model().taken),
            old(self).state is EarlyData && r is Pending
                ==> final(self).stream.session.model().early_taken
                    == old(self).stream.session.model().early_taken,
            old(self).state is EarlyData ==> (r matches Poll::Ready(Err(e))
                ==> final(self).stream.session.model().early_taken
                    == old(self).stream.session.model().early_taken),
            old(self).state is EarlyData && !old(self).stream.session.model().early_open
                ==> (r matches Poll::Ready(Ok(n)) ==> n <= buf@.len()
                    && final(self).state is Stream
                    && final(self).early_data.1@.len() == 0
                    && (final(self).stream.session.model().early_accepted
                        ==> final(self).stream.session.model().taken
                            == old(self).stream.session.model().taken + buf@.take(n as int))
                    && (!final(self).stream.session.model().early_accepted
                        ==> final(self).stream.session.model().taken
                            == old(self).stream.session.model().taken
                                + old(self).early_data.1@.skip(old(self).early_data.0 as int)
                                + buf@.take(n as int))),
            r is Pending && old(self).state is EarlyData && final(self).state is EarlyData
                ==> final(self).early_data.1 == old(self).early_data.1
                && old(self).early_data.0 <= final(self).early_data.0
                && final(self).stream.session.model().taken
                    == old(self).stream.session.model().taken
                        + old(self).early_data.1@.subrange(old(self).early_data.0 as int,
                        final(self).early_data.0 as int),
            r is Pending && old(self).state is EarlyData && final(self).state is Stream
                ==> final(self).early_data.1@.len() == 0
                && (final(self).stream.session.model().early_accepted
                    ==> final(self).stream.session.model().taken
                        == old(self).stream.session.model().taken)
                && (!final(self).stream.session.model().early_accepted
                    ==> final(self).stream.session.model().taken
                        == old(self).stream.session.model().taken
                            + old(self).early_data.1@.skip(old(self).early_data.0 as int)),
    {
        let eofv = !self.state.readable();
        self.stream.eof = eofv;

        if !(matches!(self.state, TlsState::EarlyData)) {
            return match self.stream.write(buf) {
                Ok(n) => Poll::Ready(Ok(n)),
                Err(e) => {
                    if matches!(e, IoError::WouldBlock) {
                        Poll::Pending
                    } else {
                        Poll::Ready(Err(e))
                    }
                }
            };
        }

        proof {
            assert(old(self).early_data.1@.subrange(old(self).early_data.0 as int,
                old(self).early_data.0 as int) =~= Seq::<u8>::empty());
            assert(old(self).stream.session.model().taken + Seq::<u8>::empty()
                =~= old(self).stream.session.model().taken);
        }

        // Speculative path: the channel is still open.
        if self.stream.session.early_data_open() {
            return match self.stream.session.write_early_data(buf) {
                Ok(n) => {
                    let part_slice = slice_subrange(buf, 0, n);
                    let mut part = vstd::slice::slice_to_vec(part_slice);
                    self.early_data.1.append(&mut part);
                    proof {
                        assert(buf@.take(n as int) =~= buf@.subrange(0, n as int));
                    }
                    Poll::Ready(Ok(n))
                }
                Err(e) => {
                    if matches!(e, IoError::WouldBlock) {
                        Poll::Pending
                    } else {
                        Poll::Ready(Err(e))
                    }
                }
            };
        }

        // The channel has closed: complete the handshake.
        loop
            invariant
                self.wf(),
                old(self).state is EarlyData,
                !old(self).stream.session.model().early_open,
                self.state == old(self).state,
                self.early_data == old(self).early_data,
                keeps_output(old(self).stream.session.model(), self.stream.session.model()),
            ensures
                !self.stream.session.model().handshaking,
            decreases (if self.stream.session.model().handshaking {
                1int
            } else {
                0int
            }),
        {
            if !self.stream.session.is_handshaking() {
                break;
            }
            match self.stream.complete_io() {
                Ok(_) => {}
                Err(e) => {
                    if matches!(e, IoError::WouldBlock) {
                        proof {
                            assert(old(self).early_data.1@.subrange(
                                old(self).early_data.0 as int,
                                old(self).early_data.0 as int) =~= Seq::<u8>::empty());
                            assert(old(self).stream.session.model().taken + Seq::<u8>::empty()
                                =~= old(self).stream.session.model().taken);
                        }
                        return Poll::Pending;
                    }
                    return Poll::Ready(Err(e));
                }
            }
        }

        // Replay the buffered speculative bytes if the peer rejected them.
        if !self.stream.session.is_early_data_accepted() {
            loop
                invariant
                    old(self).state is EarlyData,
                    !old(self).stream.session.model().early_open,
                    self.state == old(self).state,
                    self.early_data.1 == old(self).early_data.1,
                    old(self).early_data.0 <= self.early_data.0,
                    self.early_data.0 <= self.early_data.1@.len(),
                    self.stream.session.model().taken
                        == old(self).stream.session.model().taken
                            + old(self).early_data.1@.subrange(old(self).early_data.0 as int,
                            self.early_data.0 as int),
                    self.stream.session.model().early_taken
                        == old(self).stream.session.model().early_taken,
                    self.stream.session.model().close_notify
                        == old(self).stream.session.model().close_notify,
                    !self.stream.session.model().early_accepted,
                ensures
                    self.early_data.0 == self.early_data.1@.len(),
                    !self.stream.session.model().early_accepted,
                decreases self.early_data.1@.len() - self.early_data.0,
            {
                let pos = self.early_data.0;
                let total = self.early_data.1.len();
                if pos >= total {
                    break;
                }
                let chunk = slice_subrange(self.early_data.1.as_slice(), pos, total);
                let ghost data = old(self).early_data.1@;
                let ghost pos0 = old(self).early_data.0 as int;
                match self.stream.write(chunk) {
                    Ok(n) => {
                        if n == 0 {
                            return Poll::Pending;
                        }
                        proof {
                            assert(chunk@.take(n as int)
                                =~= data.subrange(pos as int, pos + n as int));
                            assert((old(self).stream.session.model().taken
                                + data.subrange(pos0, pos as int))
                                + data.subrange(pos as int, pos + n as int)
                                =~= old(self).stream.session.model().taken
                                    + data.subrange(pos0, pos + n as int));
                        }
                        self.early_data.0 = pos + n;
                    }
                    Err(e) => {
                        if matches!(e, IoError::WouldBlock) {
                            return Poll::Pending;
                        }
                        return Poll::Ready(Err(e));
                    }
                }
            }
        }

        // Confirmed: discard the replay buffer and move to the open state.
        proof {
            assert(old(self).early_data.1@.subrange(old(self).early_data.0 as int,
                old(self).early_data.1@.len() as int)
                =~= old(self).early_data.1@.skip(old(self).early_data.0 as int));
        }
        self.state = TlsState::Stream;
        self.early_data.0 = 0;
        self.early_data.1 = Vec::new();
        match self.stream.write(buf) {
            Ok(n) => Poll::Ready(Ok(n)),
            Err(e) => {
                if matches!(e, IoError::WouldBlock) {
                    Poll::Pending
                } else {
                    Poll::Ready(Err(e))
                }
            }
        }
    }

    /// Re-invoke [`Self::poll_read`] until it completes, at most `tries`
    /// times; reports `WouldBlock` if still suspended after that.  The
    /// blocking-style form of the read operation, for callers without a
    /// scheduler of their own.
    pub fn read_until_ready(&mut self, want: usize, tries: usize) -> (r: Result<Vec<u8>, IoError>)
        requires
            old(self).wf(),
        ensures
            final(self).wf(),
            final(self).stream.session.model().taken
                == old(self).stream.session.model().taken,
            final(self).stream.session.model().early_taken
                == old(self).stream.session.model().early_taken,
            r matches Ok(d) ==> (d@.len() > 0
                ==> old(self).stream.session.model().avail.is_prefix_of(
                    d@ + final(self).stream.session.model().avail)),
            r matches Ok(d) ==> (d@.len() == 0 ==> !final(self).state.readable_spec()),
            tries > 0 && !old(self).state.readable_spec()
                ==> (r matches Ok(d) && d@.len() == 0),
            tries > 0 && (old(self).state is Stream || old(self).state is WriteShutdown)
                && !old(self).stream.session.model().wants_read ==> r is Ok,
    {
        if tries == 0 {
            return Err(IoError::WouldBlock);
        }
        match self.poll_read(want) {
            Poll::Ready(res) => {
                return res;
            }
            Poll::Pending => {}
        }
        let mut left = tries - 1;
        loop
            invariant
                self.wf(),
                old(self).state.readable_spec(),
                (old(self).state is Stream || old(self).state is WriteShutdown)
                    ==> old(self).stream.session.model().wants_read,
                self.stream.session.model().taken
                    == old(self).stream.session.model().taken,
                self.stream.session.model().early_taken
                    == old(self).stream.session.model().early_taken,
                grows_input(old(self).stream.session.model(), self.stream.session.model()),
            decreases left,
        {
            if left == 0 {
                return Err(IoError::WouldBlock);
            }
            left = left - 1;
            let ghost pre = self.stream.session.model();
            match self.poll_read(want) {
                Poll::Ready(res) => {
                    proof {
                        if res is Ok && res->Ok_0@.len() > 0 {
                            lemma_prefix_trans(
                                old(self).stream.session.model().avail,
                                pre.avail,
                                res->Ok_0@ + self.stream.session.model().avail,
                            );
                        }
                    }
                    return res;
                }
                Poll::Pending => {
                    proof {
                        lemma_prefix_trans(
                            old(self).stream.session.model().avail,
                            pre.avail,
                            self.stream.session.model().avail,
                        );
                    }
                }
            }
        }
    }

    /// Re-invoke [`Self::poll_write`] until it completes, at most `tries`
    /// times; reports `WouldBlock` if still suspended after that.
    ///
    /// In the early-data state the composed accounting holds across the
    /// retries: a success that leaves the stream speculative put exactly
    /// `buf[..n]` on the early channel (and recorded it for replay), on top
    /// of whatever replay the suspended attempts already performed; a
    /// success that leaves the stream open wrote the unreplayed buffered
    /// bytes — when the peer rejected them — in order, strictly before
    /// `buf[..n]`, and discarded the replay buffer.
    pub fn write_until_ready(&mut self, buf: &[u8], tries: usize) -> (r: Result<usize, IoError>)
        requires
            old(self).wf(),
        ensures
            final(self).wf(),
            final(self).stream.session.model().close_notify
                == old(self).stream.session.model().close_notify,
            !(old(self).state is EarlyData) ==> final(self).state == old(self).state
                && (r matches Ok(n) ==> n <= buf@.len()
                    && final(self).stream.session.model().taken
                        == old(self).stream.session.model().taken + buf@.take(n as int)),
            old(self).state is EarlyData ==> (final(self).state is EarlyData
                || final(self).state is Stream),
            old(self).state is EarlyData && r is Err
                ==> final(self).stream.session.model().early_taken
                    == old(self).stream.session.model().early_taken,
            old(self).state is EarlyData && final(self).state is EarlyData
                ==> (r matches Ok(n) ==> n <= buf@.len()
                && final(self).stream.session.model().early_taken
                    == old(self).stream.session.model().early_taken + buf@.take(n as int)
                && final(self).early_data.1@ == old(self).early_data.1@ + buf@.take(n as int)
                && final(self).stream.session.model().taken
                    == old(self).stream.session.model().taken
                        + old(self).early_data.1@.subrange(old(self).early_data.0 as int,
                        final(self).early_data.0 as int)),
            old(self).state is EarlyData && final(self).state is Stream
                ==> (r matches Ok(n) ==> n <= buf@.len()
                && final(self).early_data.1@.len() == 0
                && (!final(self).stream.session.model().early_accepted
                    ==> final(self).stream.session.model().taken
                        == old(self).stream.session.model().taken
                            + old(self).early_data.1@.skip(old(self).early_data.0 as int)
                            + buf@.take(n as int))
                && (final(self).stream.session.model().early_accepted
                    ==> exists|k: int|
                        old(self).early_data.0 <= k <= old(self).early_data.1@.len()
                        && final(self).stream.session.model().taken
                            == old(self).stream.session.model().taken
                                + old(self).early_data.1@.subrange(
                                old(self).early_data.0 as int,
                                k,
                            ) + buf@.take(n as int))),
    {
        let mut left = tries;
        loop
            invariant
                self.wf(),
                self.stream.session.model().close_notify
                    == old(self).stream.session.model().close_notify,
                !(old(self).state is EarlyData) ==> self.state == old(self).state
                    && self.stream.session.model().taken
                        == old(self).stream.session.model().taken,
                old(self).state is EarlyData ==> (self.state is EarlyData
                    || self.state is Stream),
                old(self).state is EarlyData ==> self.stream.session.model().early_taken
                    == old(self).stream.session.model().early_taken,
                old(self).state is EarlyData && self.state is EarlyData
                    ==> self.early_data.1 == old(self).early_data.1
                    && old(self).early_data.0 <= self.early_data.0
                    && self.stream.session.model().taken
                        == old(self).stream.session.model().taken
                            + old(self).early_data.1@.subrange(old(self).early_data.0 as int,
                            self.early_data.0 as int),
                old(self).state is EarlyData && self.state is Stream
                    ==> self.early_data.1@.len() == 0
                    && (!self.stream.session.model().early_accepted
                        ==> self.stream.session.model().taken
                            == old(self).stream.session.model().taken
                                + old(self).early_data.1@.skip(old(self).early_data.0 as int))
                    && (self.stream.session.model().early_accepted
                        ==> exists|k: int|
                            old(self).early_data.0 <= k <= old(self).early_data.1@.len()
                            && self.stream.session.model().taken
                                == old(self).stream.session.model().taken
                                    + old(self).early_data.1@.subrange(
                                    old(self).early_data.0 as int,
                                    k,
                                )),
            decreases left,
        {
            if left == 0 {
                return Err(IoError::WouldBlock);
            }
            left = left - 1;
            let ghost pre = *self;
            match self.poll_write(buf) {
                Poll::Ready(res) => {
                    proof {
                        if (*old(self)).state is EarlyData {
                            let data = old(self).early_data.1@;
                            let p0 = old(self).early_data.0 as int;
                            if pre.state is EarlyData {
                                let pk = pre.early_data.0 as int;
                                if !(self.state is EarlyData) && res is Ok {
                                    if !self.stream.session.model().early_accepted {
                                        assert((old(self).stream.session.model().taken
                                            + data.subrange(p0, pk)) + data.skip(pk)
                                            =~= old(self).stream.session.model().taken
                                                + data.skip(p0));
                                    } else {
                                        assert(p0 <= pk <= data.len()
                                            && self.stream.session.model().taken
                                                == old(self).stream.session.model().taken
                                                    + data.subrange(p0, pk)
                                                    + buf@.take(res->Ok_0 as int));
                                    }
                                }
                            } else {
                                if res is Ok && self.stream.session.model().early_accepted {
                                    let k = choose|k: int|
                                        old(self).early_data.0 <= k
                                            <= old(self).early_data.1@.len()
                                            && pre.stream.session.model().taken
                                            == old(self).stream.session.model().taken
                                                + old(self).early_data.1@.subrange(
                                                old(self).early_data.0 as int,
                                                k,
                                            );
                                    assert(old(self).early_data.0 <= k
                                        <= old(self).early_data.1@.len()
                                        && self.stream.session.model().taken
                                            == old(self).stream.session.model().taken
                                                + old(self).early_data.1@.subrange(
                                                old(self).early_data.0 as int,
                                                k,
                                            ) + buf@.take(res->Ok_0 as int));
                                }
                            }
                        }
                    }
                    return res;
                }
                Poll::Pending => {
                    proof {
                        if (*old(self)).state is EarlyData && pre.state is EarlyData {
                            let data = old(self).early_data.1@;
                            let p0 = old(self).early_data.0 as int;
                            let pk = pre.early_data.0 as int;
                            if self.state is EarlyData {
                                assert((old(self).stream.session.model().taken
                                    + data.subrange(p0, pk))
                                    + data.subrange(pk, self.early_data.0 as int)
                                    =~= old(self).stream.session.model().taken
                                        + data.subrange(p0, self.early_data.0 as int));
                            } else {
                                if !self.stream.session.model().early_accepted {
                                    assert((old(self).stream.session.model().taken
                                        + data.subrange(p0, pk)) + data.skip(pk)
                                        =~= old(self).stream.session.model().taken
                                            + data.skip(p0));
                                } else {
                                    assert(p0 <= pk <= data.len()
                                        && self.stream.session.model().taken
                                            == old(self).stream.session.model().taken
                                                + data.subrange(p0, pk));
                                }
                            }
                        }
                    }
                }
            }
        }
    }

    /// Re-invoke [`Self::poll_flush`] until it completes, at most `tries`
    /// times; reports `WouldBlock` if still suspended after that.  Success
    /// means the engine has nothing left to write.
    pub fn flush_until_ready(&mut self, tries: usize) -> (r: Result<(), IoError>)
        requires
            old(self).wf(),
        ensures
            final(self).wf(),
            keeps_output(old(self).stream.session.model(),
                final(self).stream.session.model()),
            final(self).state == old(self).state,
            r is Ok ==> !final(self).stream.session.model().wants_write
                && !final(self).stream.session.model().handshaking,
    {
        let mut left = tries;
        loop
            invariant
                self.wf(),
                keeps_output(old(self).stream.session.model(), self.stream.session.model()),
                self.state == old(self).state,
            decreases left,
        {
            if left == 0 {
                return Err(IoError::WouldBlock);
            }
            left = left - 1;
            match self.poll_flush() {
                Poll::Ready(res) => {
                    return res;
                }
                Poll::Pending => {}
            }
        }
    }
}

impl<S: ProtocolEngine<IO>, IO: Transport> TlsStream<S, IO> {
    /// Poll to shut down: if the write side is still open, queue a
    /// close-notify and close it; then drain outbound and pass through to
    /// the transport's own shutdown.
    ///
    /// Idempotent in its effects: exactly one close-notify is requested
    /// over any number of calls, because the request happens only on the
    /// transition out of the writable state, and that transition is
    /// permanent.  The read side is untouched.
    pub fn poll_shutdown(&mut self) -> (r: Poll<Result<(), IoError>>)
        requires
            old(self).wf(),
        ensures
            final(self).wf(),
            !final(self).state.writeable_spec(),
            final(self).state.readable_spec() == old(self).state.readable_spec(),
            final(self).state == old(self).state.after_shutdown(),
            final(self).stream.session.model().taken
                == old(self).stream.session.model().taken,
            final(self).stream.session.model().early_taken
                == old(self).stream.session.model().early_taken,
            final(self).stream.session.model().close_notify
                == old(self).stream.session.model().close_notify + (
            if old(self).state.writeable_spec() {
                1nat
            } else {
                0nat
            }),
            final(self).early_data == old(self).early_data,
            r matches Poll::Ready(Ok(u)) ==> final(self).stream.io.model().shutdowns
                == old(self).stream.io.model().shutdowns + 1,
            r is Pending ==> final(self).stream.io.model().shutdowns
                == old(self).stream.io.model().shutdowns,
            r matches Poll::Ready(Err(e)) ==> !(e is WouldBlock)
                && final(self).stream.io.model().shutdowns
                    == old(self).stream.io.model().shutdowns,
    {
        if self.state.writeable() {
            self.stream.session.send_close_notify();
            self.state.shutdown_write();
        }
        let eofv = !self.state.readable();
        self.stream.eof = eofv;

        loop
            invariant
                self.wf(),
                self.stream.session.model().taken
                    == old(self).stream.session.model().taken,
                self.stream.session.model().early_taken
                    == old(self).stream.session.model().early_taken,
                self.stream.session.model().close_notify
                    == old(self).stream.session.model().close_notify + (
                if old(self).state.writeable_spec() {
                    1nat
                } else {
                    0nat
                }),
                self.state == old(self).state.after_shutdown(),
                self.early_data == old(self).early_data,
                self.stream.io.model().shutdowns == old(self).stream.io.model().shutdowns,
            decreases (if self.stream.session.model().wants_write {
                1int
            } else {
                0int
            }),
        {
            if !self.stream.session.wants_write() {
                break;
            }
            match self.stream.complete_inner_io(Focus::Writable) {
                Ok(_) => {}
                Err(e) => {
                    if matches!(e, IoError::WouldBlock) {
                        return Poll::Pending;
                    }
                    return Poll::Ready(Err(e));
                }
            }
        }

        match self.stream.io.shutdown() {
            Ok(()) => Poll::Ready(Ok(())),
            Err(e) => {
                if matches!(e, IoError::WouldBlock) {
                    return Poll::Pending;
                }
                Poll::Ready(Err(e))
            }
        }
    }

    /// Re-invoke [`Self::poll_shutdown`] until it completes, at most
    /// `tries` times; reports `WouldBlock` if still suspended after that.
    /// However often it is called, at most one close-notify is ever
    /// requested of the engine, on the transition out of the writable
    /// state.
    pub fn shutdown_until_ready(&mut self, tries: usize) -> (r: Result<(), IoError>)
        requires
            old(self).wf(),
        ensures
            final(self).wf(),
            final(self).stream.session.model().taken
                == old(self).stream.session.model().taken,
            final(self).stream.session.model().early_taken
                == old(self).stream.session.model().early_taken,
            final(self).state.readable_spec() == old(self).state.readable_spec(),
            final(self).stream.session.model().close_notify
                == old(self).stream.session.model().close_notify + (
            if old(self).state.writeable_spec() && !final(self).state.writeable_spec() {
                1nat
            } else {
                0nat
            }),
            r is Ok ==> !final(self).state.writeable_spec()
                && final(self).stream.io.model().shutdowns
                    == old(self).stream.io.model().shutdowns + 1,
            r is Err ==> final(self).stream.io.model().shutdowns
                == old(self).stream.io.model().shutdowns,
            tries > 0 ==> final(self).state == old(self).state.after_shutdown()
                && final(self).stream.session.model().close_notify
                    == old(self).stream.session.model().close_notify + (
            if old(self).state.writeable_spec() {
                1nat
            } else {
                0nat
            }),
    {
        if tries == 0 {
            return Err(IoError::WouldBlock);
        }
        match self.poll_shutdown() {
            Poll::Ready(res) => {
                return res;
            }
            Poll::Pending => {}
        }
        let mut left = tries - 1;
        loop
            invariant
                self.wf(),
                self.stream.session.model().taken
                    == old(self).stream.session.model().taken,
                self.stream.session.model().early_taken
                    == old(self).stream.session.model().early_taken,
                self.state.readable_spec() == old(self).state.readable_spec(),
                self.state == old(self).state.after_shutdown(),
                self.stream.session.model().close_notify
                    == old(self).stream.session.model().close_notify + (
                if old(self).state.writeable_spec() {
                    1nat
                } else {
                    0nat
                }),
                self.stream.io.model().shutdowns == old(self).stream.io.model().shutdowns,
            decreases left,
        {
            if left == 0 {
                return Err(IoError::WouldBlock);
            }
            left = left - 1;
            match self.poll_shutdown() {
                Poll::Ready(res) => {
                    return res;
                }
                Poll::Pending => {}
            }
        }
    }
}

impl<S: ProtocolEngine<IO>, IO: Transport> MidHandshake<S, IO> {
    /// The wrapped stream, if any, is well-formed.
    pub open spec fn wf(&self) -> bool {
        match *self {
            MidHandshake::Handshaking(s) => s.wf(),
            MidHandshake::EarlyData(s) => s.wf(),
            MidHandshake::End => true,
        }
    }

    /// One resumption step of the handshake driver.
    ///
    /// For a handshaking unit: repeatedly drain IO while the engine still
    /// reports the handshake in progress, then drain the remaining outbound
    /// handshake bytes; a `WouldBlock` anywhere suspends the whole
    /// operation without losing progress.  When both are done, the unit
    /// becomes [`MidHandshake::End`] and ownership of the stream — its
    /// handshake complete and its write queue empty — passes to the caller,
    /// exactly once.  An early-data unit hands its stream out at once.
    ///
    /// Resuming a consumed unit is a fault, excluded by precondition; the
    /// companion check [`MidHandshake::is_end`] lets a caller test for it.
    pub fn poll(&mut self) -> (r: Poll<Result<TlsStream<S, IO>, IoError>>)
        requires
            old(self).wf(),
            !(*old(self) is End),
        ensures
            final(self).wf(),
            r matches Poll::Ready(Ok(s)) ==> (*final(self) is End && s.wf()
                && ((*old(self)) matches MidHandshake::Handshaking(t) ==> s.state == t.state
                    && s.early_data == t.early_data
                    && !s.stream.session.model().handshaking
                    && !s.stream.session.model().wants_write
                    && keeps_output(t.stream.session.model(), s.stream.session.model()))
                && ((*old(self)) matches MidHandshake::EarlyData(t) ==> s == t)),
            r is Pending ==> ((*old(self)) matches MidHandshake::Handshaking(t)
                && (*final(self)) matches MidHandshake::Handshaking(u)
                && u.state == t.state
                && u.early_data == t.early_data
                && keeps_output(t.stream.session.model(), u.stream.session.model())),
            r matches Poll::Ready(Err(e)) ==> ((*old(self)) matches MidHandshake::Handshaking(t)
                && (*final(self)) matches MidHandshake::Handshaking(u)
                && u.state == t.state
                && u.early_data == t.early_data
                && keeps_output(t.stream.session.model(), u.stream.session.model())),
            ((*old(self)) matches MidHandshake::Handshaking(t)
                && !t.stream.session.model().handshaking
                && !t.stream.session.model().wants_write)
                ==> (r matches Poll::Ready(Ok(s))),
    {
        let mut unit = MidHandshake::End;
        core::mem::swap(self, &mut unit);

        match unit {
            MidHandshake::Handshaking(mut stream) => {
                let eofv = !stream.state.readable();
                stream.stream.eof = eofv;

                loop
                    invariant
                        stream.wf(),
                        *self is End,
                        (*old(self)) is Handshaking,
                        (*old(self)) matches MidHandshake::Handshaking(t)
                            ==> ((!t.stream.session.model().handshaking
                                ==> !stream.stream.session.model().handshaking)
                            && (!t.stream.session.model().handshaking
                                && !t.stream.session.model().wants_write
                                ==> !stream.stream.session.model().wants_write)),
                        (*old(self)) matches MidHandshake::Handshaking(t) ==> stream.state
                            == t.state && stream.early_data == t.early_data && keeps_output(
                            t.stream.session.model(),
                            stream.stream.session.model(),
                        ),
                    ensures
                        !stream.stream.session.model().handshaking,
                    decreases (if stream.stream.session.model().handshaking {
                        1int
                    } else {
                        0int
                    }),
                {
                    if !stream.stream.session.is_handshaking() {
                        break;
                    }
                    match stream.stream.complete_io() {
                        Ok(_) => {}
                        Err(e) => {
                            let suspended = matches!(e, IoError::WouldBlock);
                            *self = MidHandshake::Handshaking(stream);
                            if suspended {
                                return Poll::Pending;
                            }
                            return Poll::Ready(Err(e));
                        }
                    }
                }

                loop
                    invariant
                        stream.wf(),
                        *self is End,
                        (*old(self)) is Handshaking,
                        !stream.stream.session.model().handshaking,
                        (*old(self)) matches MidHandshake::Handshaking(t)
                            ==> ((!t.stream.session.model().handshaking
                                ==> !stream.stream.session.model().handshaking)
                            && (!t.stream.session.model().handshaking
                                && !t.stream.session.model().wants_write
                                ==> !stream.stream.session.model().wants_write)),
                        (*old(self)) matches MidHandshake::Handshaking(t) ==> stream.state
                            == t.state && stream.early_data == t.early_data && keeps_output(
                            t.stream.session.model(),
                            stream.stream.session.model(),
                        ),
                    ensures
                        !stream.stream.session.model().wants_write,
                    decreases (if stream.stream.session.model().wants_write {
                        1int
                    } else {
                        0int
                    }),
                {
                    if !stream.stream.session.wants_write() {
                        break;
                    }
                    match stream.stream.complete_inner_io(Focus::Writable) {
                        Ok(_) => {}
                        Err(e) => {
                            let suspended = matches!(e, IoError::WouldBlock);
                            *self = MidHandshake::Handshaking(stream);
                            if suspended {
                                return Poll::Pending;
                            }
                            return Poll::Ready(Err(e));
                        }
                    }
                }

                Poll::Ready(Ok(stream))
            }
            MidHandshake::EarlyData(stream) => Poll::Ready(Ok(stream)),
            MidHandshake::End => vstd::pervasive::unreached(),
        }
    }

    /// Whether the unit has already handed its stream out.
    pub fn is_end(&self) -> (r: bool)
        ensures
            r == (*self is End),
    {
        matches!(self, MidHandshake::End)
    }
}

} // verus!
