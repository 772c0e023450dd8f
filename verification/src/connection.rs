//! One connection: what was read from it, and what is written back.
//!
//! The connection does no input or output itself. Whoever owns the socket
//! tells it what a read returned and asks it for the next line to write; the
//! connection decides what the bytes mean.

use vstd::prelude::*;
use crate::frame::{first_newline, has_newline, skip_blank, FrameReader, NEWLINE};
use crate::json::is_line;
use crate::server::{Server, ServerState};
use crate::types::error::{plain_error, Error, ErrorKind};
use crate::types::params::Params;
use crate::types::response::Response;

verus! {

/// Whether `frame` is the next request among the pending bytes and `rest`
/// what is left after it. Empty lines carry no request and are passed over;
/// the request is the first line that holds a byte.
pub open spec fn next_request(pending: Seq<u8>, frame: Seq<u8>, rest: Seq<u8>) -> bool {
    let lines = skip_blank(pending);
    &&& frame.len() > 0
    &&& first_newline(lines, frame.len() as int)
    &&& frame == lines.subrange(0, frame.len() as int)
    &&& rest == lines.subrange(frame.len() as int + 1, lines.len() as int)
}

/// One connection of a client.
pub struct Connection {
    reader: FrameReader,
    open: bool,
}

impl Connection {
    /// The bytes that were read and not yet answered.
    pub closed spec fn pending(&self) -> Seq<u8> {
        self.reader@
    }

    /// Whether the connection is still served.
    pub closed spec fn open(&self) -> bool {
        self.open
    }

    /// A connection that has just been accepted.
    pub fn new() -> (c: Self)
        ensures
            c.open(),
            c.pending() == Seq::<u8>::empty(),
    {
        Self { reader: FrameReader::new(), open: true }
    }

    /// Whether the connection is still served.
    pub fn is_open(&self) -> (b: bool)
        ensures
            b == self.open(),
    {
        self.open
    }

    /// Takes in what a read returned. A read of no bytes means that the peer
    /// has closed: the connection ends, and that is no error.
    pub fn receive(&mut self, bytes: &[u8])
        ensures
            if old(self).open() && bytes@.len() > 0 {
                final(self).open() && final(self).pending() == old(self).pending() + bytes@
            } else {
                !final(self).open() && final(self).pending() == old(self).pending()
            },
    {
        if self.open && bytes.len() > 0 {
            self.reader.push(bytes);
        } else {
            self.open = false;
        }
    }

    /// A read has failed: the connection ends. The error says what happened
    /// to whoever owns the socket; nothing is written to the peer.
    pub fn fail(&mut self) -> (e: Error)
        ensures
            !final(self).open(),
            final(self).pending() == old(self).pending(),
            e@ == plain_error(ErrorKind::RemoteDisconnect),
    {
        self.open = false;
        Error::of_kind(ErrorKind::RemoteDisconnect)
    }

    /// The next line to write back, if there is one.
    ///
    /// A connection that has ended, or whose server no longer listens, writes
    /// nothing more and ends. Otherwise the next request among the pending
    /// bytes is taken out and answered by the server, and the line is its
    /// answer: one line for each request, in the order in which the requests
    /// were read. Where no request is complete yet, nothing is written and
    /// the connection waits for more bytes.
    pub fn respond<M: FnMut(Params) -> Response, P: Fn(Params) -> Response>(
        &mut self,
        server: &mut Server<M, P>,
    ) -> (r: Option<String>)
        requires
            old(server).wf(),
        ensures
            final(server).wf(),
            match r {
                Some(line) => {
                    &&& is_line(line@)
                    &&& old(self).open()
                    &&& old(server).state() == ServerState::Listening
                    &&& final(self).open()
                    &&& exists|frame: Seq<u8>| #[trigger]
                        next_request(old(self).pending(), frame, final(self).pending()) && old(
                            server,
                        ).handled(frame, *final(server), line@)
                },
                None => {
                    &&& *final(server) == *old(server)
                    &&& if old(self).open() && old(server).state() == ServerState::Listening {
                        &&& final(self).open()
                        &&& !has_newline(final(self).pending())
                        &&& final(self).pending() == skip_blank(old(self).pending())
                    } else {
                        &&& !final(self).open()
                        &&& final(self).pending() == old(self).pending()
                    }
                },
            },
    {
        if !self.open {
            return None;
        }
        if !server.is_listening() {
            self.open = false;
            return None;
        }
        loop
            invariant
                self.open,
                old(self).open(),
                skip_blank(self.reader@) == skip_blank(old(self).pending()),
                *server == *old(server),
                server.wf(),
                server.state() == ServerState::Listening,
            decreases self.reader@.len(),
        {
            let ghost before = self.reader@;
            match self.reader.next_frame() {
                None => {
                    proof {
                        no_newline_no_blank(before);
                    }
                    return None;
                },
                Some(frame) => {
                    if frame.len() > 0 {
                        let line = server.handle(frame.as_slice());
                        proof {
                            assert(before[0] != NEWLINE);
                            assert(next_request(old(self).pending(), frame@, self.pending()));
                        }
                        return Some(line);
                    }
                    proof {
                        assert(before[0] == NEWLINE);
                        assert(self.reader@ =~= before.drop_first());
                    }
                },
            }
        }
    }
}

/// Bytes without a newline begin with none.
pub proof fn no_newline_no_blank(bytes: Seq<u8>)
    requires
        !has_newline(bytes),
    ensures
        skip_blank(bytes) == bytes,
{
    if bytes.len() > 0 {
        assert(bytes[0] != NEWLINE);
    }
}

} // verus!
