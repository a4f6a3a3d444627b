//! Per-connection state machine of the TCP echo service.
//!
//! The service accepts connections and, for each one, repeatedly reads up
//! to a bounded chunk of bytes and writes exactly those bytes back, until a
//! read returns zero bytes (the peer closed its write side, the graceful
//! end) or a read or write fails. Each connection is handled by its own
//! independent session; no state is shared between sessions.
//!
//! The I/O itself happens outside this crate. The caller owns the socket,
//! performs each read and write, and reports the outcome to an
//! [`EchoSession`], which decides the next action. The session tracks, in
//! ghost state, every byte received from the peer and every byte confirmed
//! written back, and its contracts prove that the connection echoes its
//! input byte for byte, in order.

use vstd::prelude::*;

verus! {

/// Upper bound on the number of bytes a single read may hand to the
/// session: the size of the read buffer.
pub const ECHO_CHUNK_SIZE: usize = 1024;

/// What the caller must do next with the connection.
pub enum EchoAction {
    /// Write these bytes back to the peer, then report the outcome.
    Write(Vec<u8>),
    /// Close the connection; the session is finished.
    Close,
}

enum SessionState {
    /// Waiting for the outcome of a read.
    Reading,
    /// Waiting for the outcome of a write.
    Writing,
    /// The connection is finished.
    Closed,
}

/// One connection's echo session.
///
/// The session alternates between reading and writing: every non-empty
/// chunk read is written back before the next read. `received` records all
/// bytes the peer sent, `echoed` all bytes confirmed written back, and
/// `pending` the bytes handed to a write whose outcome is not yet known.
pub struct EchoSession {
    state: SessionState,
    received: Ghost<Seq<u8>>,
    echoed: Ghost<Seq<u8>>,
    pending: Ghost<Seq<u8>>,
}

impl EchoSession {
    /// All bytes received from the peer so far, in order.
    pub closed spec fn received(self) -> Seq<u8> {
        self.received@
    }

    /// All bytes confirmed written back to the peer so far, in order.
    pub closed spec fn echoed(self) -> Seq<u8> {
        self.echoed@
    }

    /// The session awaits the outcome of a read.
    pub closed spec fn is_reading(self) -> bool {
        self.state is Reading
    }

    /// The session awaits the outcome of a write.
    pub closed spec fn is_writing(self) -> bool {
        self.state is Writing
    }

    /// The session is finished and the connection is to be closed.
    pub closed spec fn is_closed(self) -> bool {
        self.state is Closed
    }

    /// Session invariant: the bytes echoed back are exactly the bytes
    /// received, except that while a write is in flight its bytes are
    /// still pending, and after a failure the echo stops at a prefix.
    pub closed spec fn wf(self) -> bool {
        match self.state {
            SessionState::Reading => self.echoed@ == self.received@ && self.pending@.len() == 0,
            SessionState::Writing => self.echoed@ + self.pending@ == self.received@,
            SessionState::Closed => self.echoed@ == self.received@.take(
                self.echoed@.len() as int,
            ),
        }
    }

    /// A fresh session for a newly accepted connection: nothing received,
    /// nothing echoed, ready for the first read.
    pub fn new() -> (s: Self)
        ensures
            s.wf(),
            s.is_reading(),
            s.received() == Seq::<u8>::empty(),
            s.echoed() == Seq::<u8>::empty(),
    {
        EchoSession {
            state: SessionState::Reading,
            received: Ghost(Seq::empty()),
            echoed: Ghost(Seq::empty()),
            pending: Ghost(Seq::empty()),
        }
    }

    /// Report a successful read of `data` (empty when the peer closed its
    /// write side). A non-empty chunk must be written back exactly as
    /// read; an empty read ends the session cleanly without writing
    /// anything.
    pub fn on_read(&mut self, data: Vec<u8>) -> (a: EchoAction)
        requires
            old(self).wf(),
            old(self).is_reading(),
            data@.len() <= ECHO_CHUNK_SIZE,
        ensures
            final(self).wf(),
            final(self).received() == old(self).received() + data@,
            final(self).echoed() == old(self).echoed(),
            data@.len() == 0 ==> {
                &&& a is Close
                &&& final(self).is_closed()
                &&& final(self).echoed() == final(self).received()
            },
            data@.len() > 0 ==> {
                &&& a matches EchoAction::Write(w) && w@ == data@
                &&& final(self).is_writing()
            },
    {
        if data.len() == 0 {
            proof {
                assert(self.received@ + data@ =~= self.received@);
            }
            self.state = SessionState::Closed;
            proof {
                assert(self.echoed@ == self.received@.take(self.echoed@.len() as int)) by {
                    assert(self.received@.take(self.received@.len() as int) =~= self.received@);
                }
            }
            EchoAction::Close
        } else {
            self.received = Ghost(self.received@ + data@);
            self.pending = Ghost(data@);
            self.state = SessionState::Writing;
            EchoAction::Write(data)
        }
    }

    /// Report that the write of the pending chunk succeeded: the session
    /// is caught up (everything received has been echoed) and reads again.
    pub fn on_write_ok(&mut self)
        requires
            old(self).wf(),
            old(self).is_writing(),
        ensures
            final(self).wf(),
            final(self).is_reading(),
            final(self).received() == old(self).received(),
            final(self).echoed() == final(self).received(),
    {
        self.echoed = Ghost(self.echoed@ + self.pending@);
        self.pending = Ghost(Seq::empty());
        self.state = SessionState::Reading;
    }

    /// Report that the write of the pending chunk failed. Only this
    /// session ends; the bytes confirmed echoed stay a prefix of the bytes
    /// received.
    pub fn on_write_error(&mut self)
        requires
            old(self).wf(),
            old(self).is_writing(),
        ensures
            final(self).wf(),
            final(self).is_closed(),
            final(self).received() == old(self).received(),
            final(self).echoed() == old(self).echoed(),
    {
        self.state = SessionState::Closed;
        proof {
            assert(self.echoed@ == self.received@.take(self.echoed@.len() as int)) by {
                assert((self.echoed@ + self.pending@).take(self.echoed@.len() as int)
                    =~= self.echoed@);
            }
        }
    }

    /// Report that a read failed. Only this session ends; nothing more is
    /// written, and everything received so far was already echoed.
    pub fn on_read_error(&mut self)
        requires
            old(self).wf(),
            old(self).is_reading(),
        ensures
            final(self).wf(),
            final(self).is_closed(),
            final(self).received() == old(self).received(),
            final(self).echoed() == old(self).echoed(),
            final(self).echoed() == final(self).received(),
    {
        self.state = SessionState::Closed;
        proof {
            assert(self.received@.take(self.received@.len() as int) =~= self.received@);
        }
    }
}

/// Law: echo is a byte-identity round trip. Whenever a session is between
/// writes (no write in flight), the bytes written back to the peer,
/// concatenated in order, are exactly the bytes received from the peer,
/// concatenated in order — whatever the number and sizes of the chunks.
pub proof fn lemma_echo_round_trip(s: EchoSession)
    requires
        s.wf(),
        s.is_reading(),
    ensures
        s.echoed() == s.received(),
{
}

/// Law: connections are isolated. Any two sessions hold no shared state,
/// and each echoes exactly its own received bytes: neither session's
/// output contains anything but its own input.
pub proof fn lemma_connections_independent(a: EchoSession, b: EchoSession)
    requires
        a.wf(),
        a.is_reading(),
        b.wf(),
        b.is_reading(),
    ensures
        a.echoed() == a.received(),
        b.echoed() == b.received(),
{
}

} // verus!
