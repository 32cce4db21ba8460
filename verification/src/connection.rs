//! One connection's record and the stage machine that drives it.
//!
//! The record holds everything the server decides with: the stage, the
//! request buffer with its high-water mark, the response header buffer with
//! its progress counter, and the byte accounting for the file body.  The
//! socket and the open file handle themselves stay with the caller, keyed by
//! the descriptor; each stage method takes the outcome of the caller's I/O
//! as a plain event and performs the exact transition of the stage machine.

use vstd::prelude::*;

use crate::byte_scan::{contains_double_newline, copy_range, spec_contains_double_newline};

verus! {

/// Capacity of the inbound request buffer.
pub const REQUEST_BUFFER_SIZE: usize = 8192;

/// The stages a connection passes through, in this order.
#[derive(Debug, Clone, Copy, PartialEq, Eq, Structural)]
pub enum ConnectionStage {
    Recv,
    Parse,
    SendHeaders,
    SendFile,
    Close,
}

/// Position of a stage in the fixed progression.
pub open spec fn stage_rank(s: ConnectionStage) -> int {
    match s {
        ConnectionStage::Recv => 0,
        ConnectionStage::Parse => 1,
        ConnectionStage::SendHeaders => 2,
        ConnectionStage::SendFile => 3,
        ConnectionStage::Close => 4,
    }
}

/// `b` is the same stage as `a` or a later one: a connection never regresses.
pub open spec fn stage_le(a: ConnectionStage, b: ConnectionStage) -> bool {
    stage_rank(a) <= stage_rank(b)
}

/// Outcome of one socket read while receiving the request.
pub enum RecvEvent {
    /// The peer closed: the read returned zero bytes.
    Closed,
    /// The bytes one read produced; at most the buffer space that was free.
    Data(Vec<u8>),
    /// The read would block; nothing changes until the next readiness event.
    WouldBlock,
    /// The read failed.
    Failed,
}

/// Outcome of one socket write of pending header bytes.
pub enum WriteEvent {
    /// The peer closed: the write returned zero bytes.
    Closed,
    /// The write delivered this many bytes; always at least one.
    Wrote(usize),
    /// The write would block.
    WouldBlock,
    /// The write failed.
    Failed,
}

/// Outcome of one file-read-then-socket-write cycle while sending the body.
pub enum SendFileEvent {
    /// The file read returned zero bytes: the transfer is complete.
    ReadEof,
    /// The file read failed.
    ReadFailed,
    /// `read` bytes came from the file and `written` of them (at least one)
    /// reached the socket.
    Wrote { read: usize, written: usize },
    /// The socket accepted zero bytes after a successful read.
    WriteClosed { read: usize },
    /// The socket write would block after a successful read of `read` bytes.
    WriteWouldBlock { read: usize },
    /// The socket write failed.
    WriteFailed,
}

/// Per-connection state, owned by the connection manager and keyed by the
/// descriptor.  `has_file` says whether the caller holds an open file handle
/// for this descriptor.
pub struct Connection {
    pub fd: i32,
    pub stage: ConnectionStage,
    pub request_buffer: Vec<u8>,
    pub request_len: usize,
    pub has_file: bool,
    pub file_size: u64,
    pub file_sent: u64,
    pub headers: Vec<u8>,
    pub headers_sent: usize,
    pub is_head: bool,
}

/// Everything but the stage agrees between `a` and `b`.
pub open spec fn same_but_stage(a: Connection, b: Connection) -> bool {
    &&& a.fd == b.fd
    &&& a.request_buffer == b.request_buffer
    &&& a.request_len == b.request_len
    &&& a.has_file == b.has_file
    &&& a.file_size == b.file_size
    &&& a.file_sent == b.file_sent
    &&& a.headers == b.headers
    &&& a.headers_sent == b.headers_sent
    &&& a.is_head == b.is_head
}


/// The exact recv-stage transition for one socket-read outcome.
pub open spec fn recv_transition(
    pre: Connection,
    post: Connection,
    event: RecvEvent,
    complete: Option<Vec<u8>>,
) -> bool {
    match event {
        RecvEvent::Closed => complete is None && same_but_stage(pre, post) && post.stage
            == ConnectionStage::Close,
        RecvEvent::Failed => complete is None && same_but_stage(pre, post) && post.stage
            == ConnectionStage::Close,
        RecvEvent::WouldBlock => complete is None && post == pre,
        RecvEvent::Data(d) => ({
            let prefix = pre.request_buffer@.subrange(0, pre.request_len as int) + d@;
            &&& post.request_buffer@ == prefix + pre.request_buffer@.skip(
                pre.request_len + d@.len(),
            )
            &&& post.fd == pre.fd
            &&& post.has_file == pre.has_file
            &&& post.file_size == pre.file_size
            &&& post.file_sent == pre.file_sent
            &&& post.headers == pre.headers
            &&& post.headers_sent == pre.headers_sent
            &&& post.is_head == pre.is_head
            &&& if spec_contains_double_newline(prefix) {
                &&& complete matches Some(v) && v@ == prefix
                &&& post.request_len == 0
                &&& post.stage == ConnectionStage::Parse
            } else {
                &&& complete is None
                &&& post.request_len == pre.request_len + d@.len()
                &&& post.stage == ConnectionStage::Recv
            }
        }),
    }
}

/// The exact send-headers transition for one socket-write outcome.
pub open spec fn send_headers_transition(pre: Connection, post: Connection, event: WriteEvent) -> bool {
    match event {
        WriteEvent::Closed => same_but_stage(pre, post) && post.stage == ConnectionStage::Close,
        WriteEvent::Failed => same_but_stage(pre, post) && post.stage == ConnectionStage::Close,
        WriteEvent::WouldBlock => post == pre,
        WriteEvent::Wrote(n) => ({
            &&& post.headers_sent == pre.headers_sent + n
            &&& post.fd == pre.fd
            &&& post.request_buffer == pre.request_buffer
            &&& post.request_len == pre.request_len
            &&& post.has_file == pre.has_file
            &&& post.file_size == pre.file_size
            &&& post.file_sent == pre.file_sent
            &&& post.headers == pre.headers
            &&& post.is_head == pre.is_head
            &&& post.stage == (if pre.headers_sent + n == pre.headers@.len() {
                if pre.is_head || !pre.has_file {
                    ConnectionStage::Close
                } else {
                    ConnectionStage::SendFile
                }
            } else {
                ConnectionStage::SendHeaders
            })
            // a completed response without a body has emitted exactly the
            // header bytes
            &&& (pre.headers_sent + n == pre.headers@.len() && (pre.is_head || !pre.has_file)
                ==> post.emitted() == pre.headers@.len())
        }),
    }
}

/// The exact send-file transition for one read-then-write outcome, with the
/// seek distance the caller owes the file.
pub open spec fn send_file_transition(
    pre: Connection,
    post: Connection,
    event: SendFileEvent,
    seek_back: Option<usize>,
) -> bool {
    match event {
        SendFileEvent::ReadEof => same_but_stage(pre, post) && post.stage
            == ConnectionStage::Close && seek_back is None,
        SendFileEvent::ReadFailed => same_but_stage(pre, post) && post.stage
            == ConnectionStage::Close && seek_back is None,
        SendFileEvent::WriteFailed => same_but_stage(pre, post) && post.stage
            == ConnectionStage::Close && seek_back is None,
        SendFileEvent::WriteClosed { read } => same_but_stage(pre, post) && post.stage
            == ConnectionStage::Close && seek_back is None,
        SendFileEvent::WriteWouldBlock { read } => post == pre && seek_back == Some(read),
        SendFileEvent::Wrote { read, written } => ({
            let done = pre.file_sent + written >= pre.file_size;
            &&& post.fd == pre.fd
            &&& post.request_buffer == pre.request_buffer
            &&& post.request_len == pre.request_len
            &&& post.has_file == pre.has_file
            &&& post.file_size == pre.file_size
            &&& post.headers == pre.headers
            &&& post.headers_sent == pre.headers_sent
            &&& post.is_head == pre.is_head
            &&& post.file_sent == (if done {
                pre.file_size
            } else {
                (pre.file_sent + written) as u64
            })
            &&& post.stage == (if done {
                ConnectionStage::Close
            } else {
                ConnectionStage::SendFile
            })
            &&& seek_back == (if done {
                None::<usize>
            } else if written < read {
                Some((read - written) as usize)
            } else {
                None::<usize>
            })
            // a completed transfer has emitted exactly the headers plus the
            // file
            &&& (done ==> post.emitted() == pre.headers@.len() + pre.file_size)
        }),
    }
}

impl Connection {
    /// Well-formedness: buffer capacity, progress counters within bounds, and
    /// what each stage guarantees.
    pub open spec fn inv(self) -> bool {
        &&& self.request_buffer@.len() == REQUEST_BUFFER_SIZE
        &&& self.request_len <= REQUEST_BUFFER_SIZE
        &&& self.headers_sent <= self.headers@.len()
        &&& self.file_sent <= self.file_size
        &&& (self.stage == ConnectionStage::SendFile ==> self.has_file && !self.is_head
            && self.headers_sent == self.headers@.len())
        &&& (stage_rank(self.stage) < 3 ==> self.file_sent == 0)
    }

    /// Bytes this connection has put on the wire so far.
    pub open spec fn emitted(self) -> int {
        self.headers_sent + self.file_sent
    }

    /// A fresh record in stage `Recv` with a zeroed request buffer.
    pub fn new(fd: i32) -> (c: Connection)
        ensures
            c.inv(),
            c.fd == fd,
            c.stage == ConnectionStage::Recv,
            c.request_buffer@ =~= Seq::new(REQUEST_BUFFER_SIZE as nat, |i: int| 0u8),
            c.request_len == 0,
            !c.has_file,
            c.file_size == 0,
            c.file_sent == 0,
            c.headers@.len() == 0,
            c.headers_sent == 0,
            !c.is_head,
    {
        Connection {
            fd,
            stage: ConnectionStage::Recv,
            request_buffer: vec![0u8; REQUEST_BUFFER_SIZE],
            request_len: 0,
            has_file: false,
            file_size: 0,
            file_sent: 0,
            headers: Vec::new(),
            headers_sent: 0,
            is_head: false,
        }
    }

    /// Marks the connection closed; reachable from every stage.
    pub fn close(&mut self)
        requires
            old(self).inv(),
        ensures
            final(self).inv(),
            stage_le(old(self).stage, final(self).stage),
            same_but_stage(*old(self), *final(self)),
            final(self).stage == ConnectionStage::Close,
    {
        self.stage = ConnectionStage::Close;
    }

    /// Applies the outcome of one socket read.  Returns the snapshot of the
    /// complete request once the end-of-headers marker has arrived; the
    /// buffer's high-water mark then resets and parsing begins.
    pub fn on_recv_event(&mut self, event: RecvEvent) -> (complete: Option<Vec<u8>>)
        requires
            old(self).inv(),
            old(self).stage == ConnectionStage::Recv,
            event matches RecvEvent::Data(d) ==> d@.len() <= REQUEST_BUFFER_SIZE
                - old(self).request_len,
        ensures
            final(self).inv(),
            stage_le(old(self).stage, final(self).stage),
            recv_transition(*old(self), *final(self), event, complete),
    {
        match event {
            RecvEvent::Closed => {
                self.stage = ConnectionStage::Close;
                None
            },
            RecvEvent::Failed => {
                self.stage = ConnectionStage::Close;
                None
            },
            RecvEvent::WouldBlock => None,
            RecvEvent::Data(d) => {
                let dlen = d.len();
                let base = self.request_len;
                let mut i: usize = 0;
                while i < dlen
                    invariant
                        i <= dlen,
                        dlen == d@.len(),
                        base == old(self).request_len,
                        base + dlen <= REQUEST_BUFFER_SIZE,
                        old(self).request_buffer@.len() == REQUEST_BUFFER_SIZE,
                        self.request_buffer@.len() == REQUEST_BUFFER_SIZE,
                        self.request_len == old(self).request_len,
                        self.fd == old(self).fd,
                        self.stage == old(self).stage,
                        self.has_file == old(self).has_file,
                        self.file_size == old(self).file_size,
                        self.file_sent == old(self).file_sent,
                        self.headers == old(self).headers,
                        self.headers_sent == old(self).headers_sent,
                        self.is_head == old(self).is_head,
                        self.request_buffer@ =~= old(self).request_buffer@.subrange(
                            0,
                            base as int,
                        ) + d@.subrange(0, i as int) + old(self).request_buffer@.skip(
                            base + i,
                        ),
                    decreases dlen - i,
                {
                    self.request_buffer[base + i] = d[i];
                    proof {
                        assert(self.request_buffer@ =~= old(self).request_buffer@.subrange(
                            0,
                            base as int,
                        ) + d@.subrange(0, i + 1 as int) + old(self).request_buffer@.skip(
                            base + i + 1,
                        ));
                    }
                    i += 1;
                }
                self.request_len = base + dlen;
                let ghost prefix = old(self).request_buffer@.subrange(0, base as int) + d@;
                proof {
                    assert(d@.subrange(0, dlen as int) =~= d@);
                    assert(self.request_buffer@.subrange(0, self.request_len as int) =~= prefix);
                }
                let snapshot = copy_range(self.request_buffer.as_slice(), 0, self.request_len);
                if contains_double_newline(snapshot.as_slice()) {
                    self.request_len = 0;
                    self.stage = ConnectionStage::Parse;
                    Some(snapshot)
                } else {
                    None
                }
            },
        }
    }

    /// Installs the response headers produced by parsing and moves on to
    /// sending them.
    pub fn install_headers(&mut self, headers: Vec<u8>)
        requires
            old(self).inv(),
            old(self).stage == ConnectionStage::Parse,
        ensures
            final(self).inv(),
            stage_le(old(self).stage, final(self).stage),
            final(self).stage == ConnectionStage::SendHeaders,
            final(self).headers == headers,
            final(self).headers_sent == 0,
            final(self).fd == old(self).fd,
            final(self).request_buffer == old(self).request_buffer,
            final(self).request_len == old(self).request_len,
            final(self).has_file == old(self).has_file,
            final(self).file_size == old(self).file_size,
            final(self).file_sent == old(self).file_sent,
            final(self).is_head == old(self).is_head,
    {
        self.headers = headers;
        self.headers_sent = 0;
        self.stage = ConnectionStage::SendHeaders;
    }

    /// Records that the caller holds an open file of the given size for this
    /// connection, and whether the request suppresses the body.
    pub fn attach_file(&mut self, file_size: u64, is_head: bool)
        requires
            old(self).inv(),
            old(self).stage == ConnectionStage::Parse,
        ensures
            final(self).inv(),
            stage_le(old(self).stage, final(self).stage),
            final(self).stage == old(self).stage,
            final(self).has_file,
            final(self).file_size == file_size,
            final(self).is_head == is_head,
            final(self).fd == old(self).fd,
            final(self).request_buffer == old(self).request_buffer,
            final(self).request_len == old(self).request_len,
            final(self).file_sent == old(self).file_sent,
            final(self).headers == old(self).headers,
            final(self).headers_sent == old(self).headers_sent,
    {
        self.has_file = true;
        self.file_size = file_size;
        self.is_head = is_head;
    }

    /// Applies the outcome of one write of pending header bytes.  When the
    /// headers finish, a HEAD response (or one without a body) closes, and a
    /// GET with a body moves on to sending the file.
    pub fn on_send_headers_event(&mut self, event: WriteEvent)
        requires
            old(self).inv(),
            old(self).stage == ConnectionStage::SendHeaders,
            old(self).headers_sent < old(self).headers@.len(),
            event matches WriteEvent::Wrote(n) ==> 1 <= n <= old(self).headers@.len() - old(self).headers_sent,
        ensures
            final(self).inv(),
            stage_le(old(self).stage, final(self).stage),
            send_headers_transition(*old(self), *final(self), event),
    {
        match event {
            WriteEvent::Closed => {
                self.stage = ConnectionStage::Close;
            },
            WriteEvent::Failed => {
                self.stage = ConnectionStage::Close;
            },
            WriteEvent::WouldBlock => {},
            WriteEvent::Wrote(n) => {
                let total = self.headers.len();
                self.headers_sent = self.headers_sent + n;
                if self.headers_sent == total {
                    if self.is_head || !self.has_file {
                        self.stage = ConnectionStage::Close;
                    } else {
                        self.stage = ConnectionStage::SendFile;
                    }
                }
            },
        }
    }

    /// Applies the outcome of one file-read-then-write cycle.  Returns how
    /// many bytes the caller must seek the file back so that unsent bytes are
    /// re-read on the next cycle.
    pub fn on_send_file_event(&mut self, event: SendFileEvent) -> (seek_back: Option<usize>)
        requires
            old(self).inv(),
            old(self).stage == ConnectionStage::SendFile,
            event matches SendFileEvent::Wrote { read, written } ==> 1 <= written <= read,
        ensures
            final(self).inv(),
            stage_le(old(self).stage, final(self).stage),
            send_file_transition(*old(self), *final(self), event, seek_back),
    {
        match event {
            SendFileEvent::ReadEof => {
                self.stage = ConnectionStage::Close;
                None
            },
            SendFileEvent::ReadFailed => {
                self.stage = ConnectionStage::Close;
                None
            },
            SendFileEvent::WriteFailed => {
                self.stage = ConnectionStage::Close;
                None
            },
            SendFileEvent::WriteClosed { read: _ } => {
                self.stage = ConnectionStage::Close;
                None
            },
            SendFileEvent::WriteWouldBlock { read } => Some(read),
            SendFileEvent::Wrote { read, written } => {
                let remaining = self.file_size - self.file_sent;
                if written as u64 >= remaining {
                    self.file_sent = self.file_size;
                    self.stage = ConnectionStage::Close;
                    None
                } else {
                    self.file_sent = self.file_sent + written as u64;
                    if written < read {
                        Some(read - written)
                    } else {
                        None
                    }
                }
            },
        }
    }
}

/// For a completed response the bytes on the wire are exactly the headers
/// plus, unless the request was HEAD, the file's size.
pub proof fn lemma_emitted_on_completion(c: Connection)
    requires
        c.inv(),
        c.headers_sent == c.headers@.len(),
        c.file_sent == (if c.is_head {
            0u64
        } else {
            c.file_size
        }),
    ensures
        c.emitted() == c.headers@.len() + (if c.is_head {
            0int
        } else {
            c.file_size as int
        }),
{
}

} // verus!
