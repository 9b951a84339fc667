//! The session adapter: drains a protocol engine against a non-blocking
//! transport and exposes synchronous-style read, write and flush on top of
//! that drain loop.  Every operation either completes, fails, or reports
//! `WouldBlock` — it never blocks the caller.

use vstd::prelude::*;
use crate::engine::{EngineModel, ProtocolEngine, Transport};
use crate::IoError;

verus! {

/// Upper bound on iterations of any single drain loop.  A drain that is
/// still progressing when the bound is reached suspends with `WouldBlock`
/// instead of looping on, so every call of the adapter does a finite amount
/// of work and the caller's scheduler regains control.
pub const DRAIN_LIMIT: usize = 65536;

/// Which direction a single drain call services, and when it returns.
/// Transient: passed into one call, never persisted.
#[derive(Clone, Copy, Debug)]
pub(crate) enum Focus {
    /// Service both directions.
    Empty,
    /// Service reads; ignore whether the write side is blocked.
    Readable,
    /// Service writes only; never touch the read side.
    Writable,
}

/// The engine's output-side history and close-notify count are untouched:
/// no plaintext was accepted for transmission on either channel and no
/// close-notify was requested between the two model states.
pub open spec fn keeps_output(pre: EngineModel, post: EngineModel) -> bool {
    &&& post.taken == pre.taken
    &&& post.early_taken == pre.early_taken
    &&& post.close_notify == pre.close_notify
}

/// The inbound plaintext only grew: everything that was available is still
/// available, in the same order, possibly followed by newly decrypted bytes.
pub open spec fn grows_input(pre: EngineModel, post: EngineModel) -> bool {
    pre.avail.is_prefix_of(post.avail)
}

/// `n` reports the growth of a wire-byte counter from `pre` to `post`:
/// exact where it fits in a `usize`, saturated otherwise.  In particular
/// `n == 0` exactly when no byte moved.
pub open spec fn saturated_count(pre: nat, post: nat, n: usize) -> bool {
    &&& pre <= post
    &&& (post - pre <= usize::MAX ==> n == post - pre)
    &&& (post - pre > usize::MAX ==> n == usize::MAX)
}

/// Saturated counts compose: accumulating the count of a second leg gives
/// the count of the whole.
pub proof fn lemma_saturated_compose(a: nat, b: nat, c: nat, n1: usize, n2: usize)
    requires
        saturated_count(a, b, n1),
        saturated_count(b, c, n2),
    ensures
        n1 + n2 <= usize::MAX ==> saturated_count(a, c, (n1 + n2) as usize),
        n1 + n2 > usize::MAX ==> saturated_count(a, c, usize::MAX),
{
}

/// Prefix-extension of the inbound plaintext composes across calls.
pub proof fn lemma_prefix_trans(a: Seq<u8>, b: Seq<u8>, c: Seq<u8>)
    requires
        a.is_prefix_of(b),
        b.is_prefix_of(c),
    ensures
        a.is_prefix_of(c),
{
    assert(a =~= c.subrange(0, a.len() as int));
}

/// Every sequence is a prefix of itself.
pub proof fn lemma_prefix_refl(a: Seq<u8>)
    ensures
        a.is_prefix_of(a),
{
    assert(a =~= a.subrange(0, a.len() as int));
}

/// Accumulate a byte count without overflowing: the exact sum where it
/// fits, saturated otherwise.  Zero exactly when both counts are zero, so
/// "no progress" is never misreported.
fn accumulate(a: usize, b: usize) -> (r: usize)
    ensures
        a + b <= usize::MAX ==> r == a + b,
        a + b > usize::MAX ==> r == usize::MAX,
{
    if a <= usize::MAX - b {
        a + b
    } else {
        usize::MAX
    }
}

/// The session adapter: owns the protocol engine, the transport it is
/// drained against, and the end-of-stream mark for the transport's read
/// side.
pub struct Stream<S, IO> {
    /// The protocol engine being drained.
    pub session: S,
    /// The transport the engine reads from and writes to.
    pub io: IO,
    /// Whether the transport reported end of stream on its read side.
    pub eof: bool,
}

/// Writing the engine's queued ciphertext out to the transport.
pub trait WriteTls<S: ProtocolEngine<IO>, IO: Transport> {
    /// The engine's observable state, for the contract below.
    spec fn engine_model(&self) -> EngineModel;

    /// Push queued ciphertext to the transport.  Transmission accepts no
    /// new plaintext, drops none, requests no close-notify, and moves
    /// exactly the reported count of record bytes to the wire.
    fn write_tls(&mut self) -> (r: Result<usize, IoError>)
        ensures
            keeps_output(old(self).engine_model(), final(self).engine_model()),
            final(self).engine_model().avail == old(self).engine_model().avail,
            r matches Ok(n) ==> final(self).engine_model().wire_written
                == old(self).engine_model().wire_written + n,
            r is Err ==> final(self).engine_model().wire_written
                == old(self).engine_model().wire_written,
    ;
}

impl<S: ProtocolEngine<IO>, IO: Transport> WriteTls<S, IO> for Stream<S, IO> {
    open spec fn engine_model(&self) -> EngineModel {
        self.session.model()
    }

    fn write_tls(&mut self) -> (r: Result<usize, IoError>) {
        self.session.write_transport(&mut self.io)
    }
}

impl<S: ProtocolEngine<IO>, IO: Transport> Stream<S, IO> {
    /// A fresh adapter around an engine and a transport, with no end of
    /// stream observed yet.
    pub fn new(session: S, io: IO) -> (r: Self)
        ensures
            r.session == session,
            r.io == io,
            !r.eof,
    {
        Stream { session, io, eof: false }
    }

    /// The same adapter with the end-of-stream mark forced; used by callers
    /// that already know the read direction is closed.
    pub fn set_eof(self, eof: bool) -> (r: Self)
        ensures
            r.session == self.session,
            r.io == self.io,
            r.eof == eof,
    {
        Stream { eof, ..self }
    }

    /// Drain both directions until neither can progress; see
    /// [`Self::complete_inner_io`] for the contract.
    pub fn complete_io(&mut self) -> (r: Result<(usize, usize), IoError>)
        ensures
            keeps_output(old(self).session.model(), final(self).session.model()),
            grows_input(old(self).session.model(), final(self).session.model()),
            old(self).eof ==> final(self).eof,
            final(self).io.model().shutdowns == old(self).io.model().shutdowns,
            r is Ok ==> !final(self).session.model().handshaking,
            r matches Ok(p) ==> saturated_count(old(self).session.model().wire_read,
                final(self).session.model().wire_read, p.0)
                && saturated_count(old(self).session.model().wire_written,
                final(self).session.model().wire_written, p.1),
            final(self).eof && final(self).session.model().handshaking
                ==> (r matches Err(e) && !(e is WouldBlock)),
            !old(self).eof && final(self).eof && final(self).session.model().handshaking
                ==> (r matches Err(e) && e is UnexpectedEof),
            (r matches Err(e) && e is WouldBlock && !final(self).session.model().handshaking)
                ==> final(self).session.model().wire_read
                    == old(self).session.model().wire_read
                && final(self).session.model().wire_written
                    == old(self).session.model().wire_written,
            !old(self).session.model().wants_write && !old(self).session.model().wants_read
                && !old(self).session.model().handshaking
                ==> (r matches Ok(p) && p.0 == 0 && p.1 == 0),
    {
        self.complete_inner_io(Focus::Empty)
    }

    /// One transport read followed by decoding.  Transport errors pass
    /// through unmodified; a decode or validation failure becomes
    /// `ProtocolViolation`, after one best-effort attempt to transmit any
    /// alert the engine queued in response (whose own failure never masks
    /// the violation).
    fn complete_read_io(&mut self) -> (r: Result<usize, IoError>)
        ensures
            keeps_output(old(self).session.model(), final(self).session.model()),
            grows_input(old(self).session.model(), final(self).session.model()),
            final(self).eof == old(self).eof,
            final(self).io.model().shutdowns == old(self).io.model().shutdowns,
            r matches Ok(n) ==> final(self).session.model().wire_read
                == old(self).session.model().wire_read + n
                && final(self).session.model().wire_written
                    == old(self).session.model().wire_written,
            (r matches Err(e) && e is WouldBlock) ==> final(self).session.model().wire_read
                == old(self).session.model().wire_read
                && final(self).session.model().wire_written
                    == old(self).session.model().wire_written,
    {
        let n = match self.session.read_transport(&mut self.io) {
            Ok(n) => n,
            Err(e) => {
                proof {
                    lemma_prefix_refl(self.session.model().avail);
                }
                return Err(e);
            }
        };
        match self.session.process_incoming() {
            Ok(()) => Ok(n),
            Err(_) => {
                proof {
                    lemma_prefix_refl(self.session.model().avail);
                }
                let _ = self.session.write_transport(&mut self.io);
                Err(IoError::ProtocolViolation)
            }
        }
    }

    /// One transport write of queued ciphertext.
    fn complete_write_io(&mut self) -> (r: Result<usize, IoError>)
        ensures
            keeps_output(old(self).session.model(), final(self).session.model()),
            final(self).session.model().avail == old(self).session.model().avail,
            final(self).session.model().handshaking == old(self).session.model().handshaking,
            final(self).session.model().early_accepted
                == old(self).session.model().early_accepted,
            final(self).session.model().wire_read == old(self).session.model().wire_read,
            final(self).eof == old(self).eof,
            final(self).io.model().shutdowns == old(self).io.model().shutdowns,
            r matches Ok(n) ==> final(self).session.model().wire_written
                == old(self).session.model().wire_written + n,
            r is Err ==> final(self).session.model().wire_written
                == old(self).session.model().wire_written,
    {
        self.session.write_transport(&mut self.io)
    }

    /// Write queued ciphertext out until the engine has none left, the
    /// transport blocks, or the drain bound is reached.  Returns the bytes
    /// written and whether the write side is blocked; when it is not
    /// blocked, the engine has nothing left to write.
    fn drain_writes(&mut self) -> (r: Result<(usize, bool), IoError>)
        ensures
            keeps_output(old(self).session.model(), final(self).session.model()),
            final(self).session.model().avail == old(self).session.model().avail,
            final(self).session.model().handshaking == old(self).session.model().handshaking,
            final(self).session.model().early_accepted
                == old(self).session.model().early_accepted,
            final(self).session.model().wire_read == old(self).session.model().wire_read,
            final(self).eof == old(self).eof,
            final(self).io.model().shutdowns == old(self).io.model().shutdowns,
            (r matches Ok(p) && !p.1) ==> !final(self).session.model().wants_write,
            r matches Ok(p) ==> saturated_count(old(self).session.model().wire_written,
                final(self).session.model().wire_written, p.0),
            r matches Err(e) ==> !(e is WouldBlock),
            !old(self).session.model().wants_write ==> (r matches Ok(p) && p.0 == 0 && !p.1
                && *final(self) == *old(self)),
    {
        let mut wrlen: usize = 0;
        let mut fuel: usize = DRAIN_LIMIT;

        loop
            invariant
                keeps_output(old(self).session.model(), self.session.model()),
                self.session.model().avail == old(self).session.model().avail,
                self.session.model().handshaking == old(self).session.model().handshaking,
                self.session.model().early_accepted
                    == old(self).session.model().early_accepted,
                self.session.model().wire_read == old(self).session.model().wire_read,
                self.eof == old(self).eof,
                self.io.model().shutdowns == old(self).io.model().shutdowns,
                saturated_count(old(self).session.model().wire_written,
                    self.session.model().wire_written, wrlen),
                !old(self).session.model().wants_write ==> *self == *old(self) && wrlen == 0,
            decreases fuel,
        {
            if !self.session.wants_write() {
                return Ok((wrlen, false));
            }
            if fuel == 0 {
                return Ok((wrlen, true));
            }
            fuel = fuel - 1;
            let ghost pre_written = self.session.model().wire_written;
            match self.complete_write_io() {
                Ok(n) => {
                    proof {
                        lemma_saturated_compose(
                            old(self).session.model().wire_written,
                            pre_written,
                            self.session.model().wire_written,
                            wrlen,
                            n,
                        );
                    }
                    wrlen = accumulate(wrlen, n);
                }
                Err(e) => {
                    if matches!(e, IoError::WouldBlock) {
                        return Ok((wrlen, true));
                    }
                    return Err(e);
                }
            }
        }
    }

    /// The drain loop.  Writes everything the engine has queued, then
    /// (unless write-biased) feeds it one transport read, and decides from
    /// (end of stream, handshaking, blocked) whether to return counts,
    /// suspend with `WouldBlock`, fail, or go around again.
    ///
    /// Whatever the outcome: no plaintext is accepted or dropped on either
    /// output channel, no close-notify is requested, the transport is not
    /// shut down, and inbound plaintext only grows.  The returned counts
    /// report the wire bytes moved in each direction during this call
    /// (saturated only past `usize::MAX`).  A write-biased call never
    /// touches the read side — its read count is zero — and returns success
    /// only with the engine's write queue empty.  End of stream during the
    /// handshake is fatal, never a suspension.
    pub(crate) fn complete_inner_io(&mut self, focus: Focus) -> (r: Result<(usize, usize), IoError>)
        ensures
            keeps_output(old(self).session.model(), final(self).session.model()),
            grows_input(old(self).session.model(), final(self).session.model()),
            old(self).eof ==> final(self).eof,
            final(self).io.model().shutdowns == old(self).io.model().shutdowns,
            focus is Writable ==> final(self).session.model().avail
                == old(self).session.model().avail && final(self).eof == old(self).eof
                && final(self).session.model().handshaking
                    == old(self).session.model().handshaking
                && final(self).session.model().early_accepted
                    == old(self).session.model().early_accepted
                && final(self).session.model().wire_read
                    == old(self).session.model().wire_read,
            focus is Writable && r is Ok ==> !final(self).session.model().wants_write,
            focus is Writable ==> (r matches Ok(p) ==> p.0 == 0),
            r is Ok && !(focus is Writable) ==> !final(self).session.model().handshaking,
            r matches Ok(p) ==> saturated_count(old(self).session.model().wire_read,
                final(self).session.model().wire_read, p.0)
                && saturated_count(old(self).session.model().wire_written,
                final(self).session.model().wire_written, p.1),
            !(focus is Writable) && final(self).eof && final(self).session.model().handshaking
                ==> (r matches Err(e) && !(e is WouldBlock)),
            !old(self).eof && final(self).eof && final(self).session.model().handshaking
                ==> (r matches Err(e) && e is UnexpectedEof),
            (focus is Empty && (r matches Err(e) && e is WouldBlock)
                && !final(self).session.model().handshaking)
                ==> final(self).session.model().wire_read
                    == old(self).session.model().wire_read
                && final(self).session.model().wire_written
                    == old(self).session.model().wire_written,
            (focus is Readable && (r matches Err(e) && e is WouldBlock)
                && !final(self).session.model().handshaking)
                ==> final(self).session.model().wire_read
                    == old(self).session.model().wire_read,
            !(focus is Writable) && !old(self).session.model().wants_write
                && !old(self).session.model().wants_read
                && !old(self).session.model().handshaking
                ==> (r matches Ok(p) && p.0 == 0 && p.1 == 0),
            focus is Writable && !old(self).session.model().wants_write
                ==> (r matches Ok(p) && p.0 == 0 && p.1 == 0),
    {
        let mut rdlen: usize = 0;
        let mut wrlen: usize = 0;
        let mut fuel: usize = DRAIN_LIMIT;

        proof {
            lemma_prefix_refl(self.session.model().avail);
        }

        loop
            invariant
                keeps_output(old(self).session.model(), self.session.model()),
                grows_input(old(self).session.model(), self.session.model()),
                old(self).eof ==> self.eof,
                self.io.model().shutdowns == old(self).io.model().shutdowns,
                saturated_count(old(self).session.model().wire_read,
                    self.session.model().wire_read, rdlen),
                saturated_count(old(self).session.model().wire_written,
                    self.session.model().wire_written, wrlen),
                !old(self).eof ==> !self.eof,
                !(focus is Writable) && !old(self).session.model().wants_write
                    && !old(self).session.model().wants_read
                    && !old(self).session.model().handshaking
                    ==> *self == *old(self) && rdlen == 0 && wrlen == 0,
                focus is Writable && !old(self).session.model().wants_write
                    ==> *self == *old(self) && wrlen == 0,
                focus is Writable ==> self.session.model().avail
                    == old(self).session.model().avail && self.eof == old(self).eof
                    && self.session.model().handshaking
                        == old(self).session.model().handshaking
                    && self.session.model().early_accepted
                        == old(self).session.model().early_accepted
                    && self.session.model().wire_read
                        == old(self).session.model().wire_read
                    && rdlen == 0,
            decreases fuel,
        {
            let ghost pre_written = self.session.model().wire_written;
            let write_would_block = match self.drain_writes() {
                Ok((w, blocked)) => {
                    proof {
                        lemma_saturated_compose(
                            old(self).session.model().wire_written,
                            pre_written,
                            self.session.model().wire_written,
                            wrlen,
                            w,
                        );
                    }
                    wrlen = accumulate(wrlen, w);
                    blocked
                }
                Err(e) => {
                    return Err(e);
                }
            };

            if matches!(focus, Focus::Writable) {
                if !write_would_block {
                    return Ok((rdlen, wrlen));
                }
                return Err(IoError::WouldBlock);
            }

            let mut read_would_block = false;
            if !self.eof && self.session.wants_read() {
                let ghost pre = self.session.model();
                match self.complete_read_io() {
                    Ok(n) => {
                        proof {
                            lemma_prefix_trans(
                                old(self).session.model().avail,
                                pre.avail,
                                self.session.model().avail,
                            );
                            lemma_saturated_compose(
                                old(self).session.model().wire_read,
                                pre.wire_read,
                                self.session.model().wire_read,
                                rdlen,
                                n,
                            );
                        }
                        if n == 0 {
                            self.eof = true;
                        } else {
                            rdlen = accumulate(rdlen, n);
                        }
                    }
                    Err(e) => {
                        proof {
                            lemma_prefix_trans(
                                old(self).session.model().avail,
                                pre.avail,
                                self.session.model().avail,
                            );
                        }
                        if matches!(e, IoError::WouldBlock) {
                            read_would_block = true;
                        } else {
                            return Err(e);
                        }
                    }
                }
            }

            let would_block = match focus {
                Focus::Empty => write_would_block || read_would_block,
                Focus::Readable => read_would_block,
                Focus::Writable => write_would_block,
            };

            let handshaking = self.session.is_handshaking();
            if self.eof && handshaking {
                return Err(IoError::UnexpectedEof);
            }
            if !handshaking {
                if would_block {
                    let starved = match focus {
                        Focus::Empty => rdlen == 0 && wrlen == 0,
                        Focus::Readable => rdlen == 0,
                        Focus::Writable => wrlen == 0,
                    };
                    if starved {
                        return Err(IoError::WouldBlock);
                    }
                    return Ok((rdlen, wrlen));
                }
                return Ok((rdlen, wrlen));
            }
            if would_block {
                return Err(IoError::WouldBlock);
            }
            if fuel == 0 {
                return Err(IoError::WouldBlock);
            }
            fuel = fuel - 1;
        }
    }

    /// Pump inbound IO while the engine wants it and progress is being
    /// made, then deliver up to `want` bytes of the plaintext now buffered.
    ///
    /// On success the bytes handed out are exactly the front of what the
    /// engine had available, in order: the old available plaintext is a
    /// prefix of the delivered bytes followed by what remains.  An empty
    /// result with `want > 0` means no plaintext is buffered — end of
    /// stream, if the engine no longer expects inbound data.  When the
    /// engine wants no inbound IO, the call succeeds outright with the
    /// buffered plaintext: it cannot block.
    pub fn read(&mut self, want: usize) -> (r: Result<Vec<u8>, IoError>)
        ensures
            keeps_output(old(self).session.model(), final(self).session.model()),
            old(self).eof ==> final(self).eof,
            r matches Ok(data) ==> data@.len() <= want
                && old(self).session.model().avail.is_prefix_of(
                    data@ + final(self).session.model().avail)
                && (data@.len() < want ==> final(self).session.model().avail.len() == 0),
            r is Err ==> grows_input(old(self).session.model(), final(self).session.model()),
            !old(self).session.model().wants_read ==> (r matches Ok(data)
                && data@.len() == (if want <= old(self).session.model().avail.len() {
                    want as int
                } else {
                    old(self).session.model().avail.len() as int
                })
                && data@ == old(self).session.model().avail.take(data@.len() as int)
                && final(self).session.model().avail
                    == old(self).session.model().avail.skip(data@.len() as int)),
    {
        if self.session.wants_read() {
            let mut fuel: usize = DRAIN_LIMIT;

            proof {
                lemma_prefix_refl(self.session.model().avail);
            }

            loop
                invariant
                    old(self).session.model().wants_read,
                    keeps_output(old(self).session.model(), self.session.model()),
                    grows_input(old(self).session.model(), self.session.model()),
                    old(self).eof ==> self.eof,
                decreases fuel,
            {
                if !self.session.wants_read() {
                    break;
                }
                if fuel == 0 {
                    break;
                }
                fuel = fuel - 1;
                let ghost pre = self.session.model();
                match self.complete_inner_io(Focus::Readable) {
                    Ok((rd, wr)) => {
                        proof {
                            lemma_prefix_trans(
                                old(self).session.model().avail,
                                pre.avail,
                                self.session.model().avail,
                            );
                        }
                        if rd == 0 && wr == 0 {
                            break;
                        }
                    }
                    Err(e) => {
                        proof {
                            lemma_prefix_trans(
                                old(self).session.model().avail,
                                pre.avail,
                                self.session.model().avail,
                            );
                        }
                        return Err(e);
                    }
                }
            }
        } else {
            proof {
                lemma_prefix_refl(self.session.model().avail);
            }
        }

        let ghost avail1 = self.session.model().avail;
        let data = self.session.read_plaintext(want);
        proof {
            assert(data@ + self.session.model().avail =~= avail1);
        }
        Ok(data)
    }

    /// Hand `buf` to the engine's plaintext channel, then drain outbound.
    /// A blocked transport is tolerated as success when the engine accepted
    /// a nonzero amount (the caller can flush later), and reported as
    /// `WouldBlock` when it accepted nothing.
    ///
    /// On success exactly the first `n` bytes of `buf` were accepted for
    /// transmission, appended in order to everything accepted before; a
    /// `WouldBlock` outcome accepted nothing.
    pub fn write(&mut self, buf: &[u8]) -> (r: Result<usize, IoError>)
        ensures
            grows_input(old(self).session.model(), final(self).session.model()),
            old(self).eof ==> final(self).eof,
            final(self).session.model().early_taken == old(self).session.model().early_taken,
            final(self).session.model().close_notify == old(self).session.model().close_notify,
            final(self).session.model().early_accepted
                == old(self).session.model().early_accepted,
            r matches Ok(n) ==> n <= buf@.len()
                && final(self).session.model().taken
                    == old(self).session.model().taken + buf@.take(n as int),
            (r matches Err(e) && e is WouldBlock)
                ==> final(self).session.model().taken == old(self).session.model().taken,
            r is Err ==> exists|k: int|
                0 <= k <= buf@.len() && final(self).session.model().taken
                    == old(self).session.model().taken + buf@.take(k),
    {
        proof {
            lemma_prefix_refl(self.session.model().avail);
        }
        let len = self.session.write_plaintext(buf);

        loop
            invariant
                self.session.model().taken
                    == old(self).session.model().taken + buf@.take(len as int),
                self.session.model().early_taken == old(self).session.model().early_taken,
                self.session.model().close_notify == old(self).session.model().close_notify,
                self.session.model().early_accepted
                    == old(self).session.model().early_accepted,
                grows_input(old(self).session.model(), self.session.model()),
                old(self).eof ==> self.eof,
                len <= buf@.len(),
            decreases (if self.session.model().wants_write { 1int } else { 0int }),
        {
            if !self.session.wants_write() {
                break;
            }
            match self.complete_inner_io(Focus::Writable) {
                Ok(_) => {}
                Err(e) => {
                    if matches!(e, IoError::WouldBlock) && len != 0 {
                        break;
                    }
                    proof {
                        if e is WouldBlock {
                            assert(buf@.take(0) =~= Seq::<u8>::empty());
                            assert(old(self).session.model().taken + buf@.take(0)
                                =~= old(self).session.model().taken);
                        }
                    }
                    return Err(e);
                }
            }
        }
        Ok(len)
    }

    /// Force the engine to finalize pending plaintext, then fully drain
    /// outbound.  Unlike [`Self::write`], a partial drain is not tolerated:
    /// success means the engine has nothing left to write.  The handshake
    /// state is untouched.
    pub fn flush(&mut self) -> (r: Result<(), IoError>)
        ensures
            keeps_output(old(self).session.model(), final(self).session.model()),
            grows_input(old(self).session.model(), final(self).session.model()),
            old(self).eof ==> final(self).eof,
            final(self).session.model().handshaking == old(self).session.model().handshaking,
            r is Ok ==> !final(self).session.model().wants_write,
    {
        proof {
            lemma_prefix_refl(self.session.model().avail);
        }
        match self.session.flush_plaintext() {
            Ok(()) => {}
            Err(e) => {
                return Err(e);
            }
        }

        loop
            invariant
                keeps_output(old(self).session.model(), self.session.model()),
                grows_input(old(self).session.model(), self.session.model()),
                old(self).eof ==> self.eof,
                self.session.model().handshaking == old(self).session.model().handshaking,
            ensures
                !self.session.model().wants_write,
            decreases (if self.session.model().wants_write { 1int } else { 0int }),
        {
            if !self.session.wants_write() {
                break;
            }
            match self.complete_inner_io(Focus::Writable) {
                Ok(_) => {}
                Err(e) => {
                    return Err(e);
                }
            }
        }
        Ok(())
    }
}

} // verus!
