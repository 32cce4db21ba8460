//! The connection manager: owns every live record keyed by descriptor,
//! enforces the admission cap, and dispatches I/O outcomes to each record's
//! stage machine.

use vstd::prelude::*;

use crate::config::ServerConfig;
use crate::connection::{
    recv_transition, send_file_transition, send_headers_transition, Connection,
    ConnectionStage, RecvEvent, SendFileEvent, WriteEvent, REQUEST_BUFFER_SIZE,
};

verus! {

/// Stages whose descriptors are watched for readability.
pub open spec fn spec_readable(s: ConnectionStage) -> bool {
    s == ConnectionStage::Recv || s == ConnectionStage::Parse
}

/// Stages whose descriptors are watched for writability.
pub open spec fn spec_writable(s: ConnectionStage) -> bool {
    s == ConnectionStage::SendHeaders || s == ConnectionStage::SendFile
}

/// Descriptors of the records whose stage satisfies `pred`, in index order.
pub open spec fn fds_where(conns: Seq<Connection>, pred: spec_fn(ConnectionStage) -> bool) -> Seq<
    i32,
>
    decreases conns.len(),
{
    if conns.len() == 0 {
        Seq::empty()
    } else {
        let rest = fds_where(conns.drop_last(), pred);
        if pred(conns.last().stage) {
            rest.push(conns.last().fd)
        } else {
            rest
        }
    }
}

/// Owns all live connection records, keyed by their descriptor.
pub struct ConnectionManager {
    pub connections: Vec<Connection>,
    pub max_connections: usize,
}

impl ConnectionManager {
    /// Every record well formed, every descriptor unique, and never more
    /// records than the admission cap.
    pub open spec fn wf(self) -> bool {
        &&& self.connections@.len() <= self.max_connections
        &&& forall|i: int|
            0 <= i < self.connections@.len() ==> (#[trigger] self.connections@[i]).inv()
        &&& forall|i: int, j: int|
            0 <= i < j < self.connections@.len() ==> self.connections@[i].fd
                != self.connections@[j].fd
    }

    /// A record with this descriptor is present.
    pub open spec fn contains_fd(self, fd: i32) -> bool {
        exists|i: int|
            0 <= i < self.connections@.len() && (#[trigger] self.connections@[i]).fd == fd
    }

    /// Index of the record with this descriptor.
    pub open spec fn index_of_fd(self, fd: i32) -> int {
        choose|i: int| 0 <= i < self.connections@.len() && self.connections@[i].fd == fd
    }

    /// The record with this descriptor.
    pub open spec fn conn_of(self, fd: i32) -> Connection {
        self.connections@[self.index_of_fd(fd)]
    }

    /// Number of live records.
    pub open spec fn count(self) -> int {
        self.connections@.len() as int
    }

    proof fn lemma_index_of_fd(self, i: int, fd: i32)
        requires
            self.wf(),
            0 <= i < self.connections@.len(),
            self.connections@[i].fd == fd,
        ensures
            self.index_of_fd(fd) == i,
            self.contains_fd(fd),
            self.conn_of(fd) == self.connections@[i],
    {
        let k = self.index_of_fd(fd);
        if k != i {
            if k < i {
                assert(self.connections@[k].fd != self.connections@[i].fd);
            } else {
                assert(self.connections@[i].fd != self.connections@[k].fd);
            }
        }
    }

    /// An empty manager with the default cap of a thousand connections.
    pub fn new() -> (m: ConnectionManager)
        ensures
            m.wf(),
            m.count() == 0,
            m.max_connections == 1000,
    {
        ConnectionManager { connections: Vec::new(), max_connections: 1000 }
    }

    /// An empty manager with the configured admission cap.
    pub fn with_config(config: &ServerConfig) -> (m: ConnectionManager)
        ensures
            m.wf(),
            m.count() == 0,
            m.max_connections == config.max_connections,
    {
        ConnectionManager { connections: Vec::new(), max_connections: config.max_connections }
    }

    /// Index of the record with descriptor `fd`, if one exists.
    fn find_index(&self, fd: i32) -> (r: Option<usize>)
        requires
            self.wf(),
        ensures
            match r {
                Some(i) => i < self.connections@.len() && self.connections@[i as int].fd == fd
                    && self.index_of_fd(fd) == i && self.contains_fd(fd),
                None => !self.contains_fd(fd),
            },
    {
        let len = self.connections.len();
        let mut i: usize = 0;
        while i < len
            invariant
                self.wf(),
                len == self.connections@.len(),
                i <= len,
                forall|k: int| 0 <= k < i ==> (#[trigger] self.connections@[k]).fd != fd,
            decreases len - i,
        {
            if self.connections[i].fd == fd {
                proof {
                    self.lemma_index_of_fd(i as int, fd);
                }
                return Some(i);
            }
            i += 1;
        }
        None
    }

    /// Admits a new connection in stage `Recv`, provided the cap leaves room
    /// and the descriptor is not already tracked; reports whether it did.
    pub fn add_connection(&mut self, fd: i32) -> (admitted: bool)
        requires
            old(self).wf(),
        ensures
            final(self).wf(),
            final(self).max_connections == old(self).max_connections,
            admitted == (old(self).count() < old(self).max_connections && !old(self).contains_fd(
                fd,
            )),
            !admitted ==> *final(self) == *old(self),
            admitted ==> ({
                &&& final(self).connections@.len() == old(self).connections@.len() + 1
                &&& final(self).connections@.subrange(0, old(self).count())
                    == old(self).connections@
                &&& final(self).connections@.last().fd == fd
                &&& final(self).connections@.last().stage == ConnectionStage::Recv
                &&& final(self).contains_fd(fd)
            }),
    {
        if self.connections.len() >= self.max_connections {
            return false;
        }
        if let Some(_i) = self.find_index(fd) {
            return false;
        }
        let conn = Connection::new(fd);
        self.connections.push(conn);
        proof {
            let n = old(self).connections@.len() as int;
            assert(final(self).connections@.subrange(0, n) =~= old(self).connections@);
            assert(final(self).connections@[n].fd == fd);
            assert(final(self).contains_fd(fd));
            assert forall|i: int, j: int|
                0 <= i < j < final(self).connections@.len() implies final(self).connections@[i].fd != final(self).connections@[j].fd by {
                if j < n {
                    assert(old(self).connections@[i].fd != old(self).connections@[j].fd);
                } else {
                    assert(!old(self).contains_fd(fd));
                    assert(old(self).connections@[i].fd != fd);
                }
            }
        }
        true
    }

    /// Extracts the record with this descriptor for final cleanup.  After the
    /// call the descriptor is unknown to the manager.
    pub fn remove_connection(&mut self, fd: i32) -> (removed: Option<Connection>)
        requires
            old(self).wf(),
        ensures
            final(self).wf(),
            final(self).max_connections == old(self).max_connections,
            !final(self).contains_fd(fd),
            match removed {
                Some(c) => old(self).contains_fd(fd) && c == old(self).conn_of(fd) && c.fd == fd
                    && c.inv() && final(self).connections@ == old(self).connections@.remove(
                    old(self).index_of_fd(fd),
                ),
                None => !old(self).contains_fd(fd) && *final(self) == *old(self),
            },
    {
        match self.find_index(fd) {
            None => None,
            Some(i) => {
                let c = self.connections.remove(i);
                proof {
                    let n = final(self).connections@.len() as int;
                    assert forall|j: int| 0 <= j < n implies (#[trigger] final(self).connections@[j]).fd != fd by {
                        if j < i {
                            assert(old(self).connections@[j].fd != old(self).connections@[i as int].fd);
                        } else {
                            assert(old(self).connections@[j + 1].fd != old(self).connections@[i as int].fd);
                        }
                    }
                }
                Some(c)
            },
        }
    }

    /// Shared access to the record with this descriptor.
    pub fn get_connection(&self, fd: i32) -> (r: Option<&Connection>)
        requires
            self.wf(),
        ensures
            match r {
                Some(c) => self.contains_fd(fd) && *c == self.conn_of(fd) && c.fd == fd
                    && c.inv(),
                None => !self.contains_fd(fd),
            },
    {
        match self.find_index(fd) {
            None => None,
            Some(i) => Some(&self.connections[i]),
        }
    }

    /// Number of live records.
    pub fn get_connections_count(&self) -> (n: usize)
        ensures
            n == self.count(),
    {
        self.connections.len()
    }

    /// Snapshot of the tracked descriptors partitioned for the readiness
    /// call: stages `Recv` and `Parse` are watched for readability, stages
    /// `SendHeaders` and `SendFile` for writability, and `Close` for neither.
    pub fn get_connections_for_select(&self) -> (r: (Vec<i32>, Vec<i32>))
        ensures
            r.0@ == fds_where(self.connections@, |s: ConnectionStage| spec_readable(s)),
            r.1@ == fds_where(self.connections@, |s: ConnectionStage| spec_writable(s)),
    {
        let mut read_fds: Vec<i32> = Vec::new();
        let mut write_fds: Vec<i32> = Vec::new();
        let len = self.connections.len();
        let mut i: usize = 0;
        while i < len
            invariant
                len == self.connections@.len(),
                i <= len,
                read_fds@ == fds_where(
                    self.connections@.take(i as int),
                    |s: ConnectionStage| spec_readable(s),
                ),
                write_fds@ == fds_where(
                    self.connections@.take(i as int),
                    |s: ConnectionStage| spec_writable(s),
                ),
            decreases len - i,
        {
            let stage = self.connections[i].stage;
            let fd = self.connections[i].fd;
            if stage == ConnectionStage::Recv || stage == ConnectionStage::Parse {
                read_fds.push(fd);
            } else if stage == ConnectionStage::SendHeaders || stage == ConnectionStage::SendFile {
                write_fds.push(fd);
            }
            proof {
                let taken = self.connections@.take(i + 1 as int);
                assert(taken.drop_last() =~= self.connections@.take(i as int));
                assert(taken.last() == self.connections@[i as int]);
            }
            i += 1;
        }
        proof {
            assert(self.connections@.take(len as int) =~= self.connections@);
        }
        (read_fds, write_fds)
    }

    /// Descriptors whose record is in stage `Close`, ready to be reaped.
    pub fn get_closed_connections(&self) -> (r: Vec<i32>)
        ensures
            r@ == fds_where(self.connections@, |s: ConnectionStage| s == ConnectionStage::Close),
    {
        let mut closed: Vec<i32> = Vec::new();
        let len = self.connections.len();
        let mut i: usize = 0;
        while i < len
            invariant
                len == self.connections@.len(),
                i <= len,
                closed@ == fds_where(
                    self.connections@.take(i as int),
                    |s: ConnectionStage| s == ConnectionStage::Close,
                ),
            decreases len - i,
        {
            if self.connections[i].stage == ConnectionStage::Close {
                closed.push(self.connections[i].fd);
            }
            proof {
                let taken = self.connections@.take(i + 1 as int);
                assert(taken.drop_last() =~= self.connections@.take(i as int));
                assert(taken.last() == self.connections@[i as int]);
            }
            i += 1;
        }
        proof {
            assert(self.connections@.take(len as int) =~= self.connections@);
        }
        closed
    }

    /// Records that the caller holds an open file of `file_size` bytes for
    /// this connection; applies only while the record is being parsed.
    pub fn set_file_for_connection(&mut self, fd: i32, file_size: u64, is_head: bool) -> (applied:
        bool)
        requires
            old(self).wf(),
        ensures
            final(self).wf(),
            final(self).max_connections == old(self).max_connections,
            applied == (old(self).contains_fd(fd) && old(self).conn_of(fd).stage
                == ConnectionStage::Parse),
            !applied ==> *final(self) == *old(self),
            applied ==> ({
                let pre = old(self).conn_of(fd);
                let post = final(self).conn_of(fd);
                &&& final(self).connections@ == old(self).connections@.update(
                    old(self).index_of_fd(fd),
                    post,
                )
                &&& post.has_file
                &&& post.file_size == file_size
                &&& post.is_head == is_head
                &&& post.stage == pre.stage
                &&& post.fd == pre.fd
                &&& post.headers == pre.headers
                &&& post.headers_sent == pre.headers_sent
                &&& post.request_buffer == pre.request_buffer
                &&& post.request_len == pre.request_len
                &&& post.file_sent == pre.file_sent
            }),
    {
        match self.find_index(fd) {
            None => false,
            Some(i) => {
                if self.connections[i].stage == ConnectionStage::Parse {
                    let c = &mut self.connections[i];
                    c.attach_file(file_size, is_head);
                    proof {
                        final(self).lemma_index_of_fd(i as int, fd);
                    }
                    true
                } else {
                    false
                }
            },
        }
    }

    /// Installs parsed response headers and advances to `SendHeaders`,
    /// provided the record is still in stage `Parse`; reports whether it did.
    pub fn install_headers(&mut self, fd: i32, headers: Vec<u8>) -> (applied: bool)
        requires
            old(self).wf(),
        ensures
            final(self).wf(),
            final(self).max_connections == old(self).max_connections,
            applied == (old(self).contains_fd(fd) && old(self).conn_of(fd).stage
                == ConnectionStage::Parse),
            !applied ==> *final(self) == *old(self),
            applied ==> ({
                let pre = old(self).conn_of(fd);
                let post = final(self).conn_of(fd);
                &&& final(self).connections@ == old(self).connections@.update(
                    old(self).index_of_fd(fd),
                    post,
                )
                &&& post.stage == ConnectionStage::SendHeaders
                &&& post.headers == headers
                &&& post.headers_sent == 0
                &&& post.fd == pre.fd
                &&& post.has_file == pre.has_file
                &&& post.file_size == pre.file_size
                &&& post.file_sent == pre.file_sent
                &&& post.is_head == pre.is_head
            }),
    {
        match self.find_index(fd) {
            None => false,
            Some(i) => {
                if self.connections[i].stage == ConnectionStage::Parse {
                    let c = &mut self.connections[i];
                    c.install_headers(headers);
                    proof {
                        final(self).lemma_index_of_fd(i as int, fd);
                    }
                    true
                } else {
                    false
                }
            },
        }
    }

    /// Marks the record closed, whatever its stage; reports whether the
    /// descriptor was known.
    pub fn close_connection(&mut self, fd: i32) -> (known: bool)
        requires
            old(self).wf(),
        ensures
            final(self).wf(),
            final(self).max_connections == old(self).max_connections,
            known == old(self).contains_fd(fd),
            !known ==> *final(self) == *old(self),
            known ==> ({
                let post = final(self).conn_of(fd);
                &&& final(self).connections@ == old(self).connections@.update(
                    old(self).index_of_fd(fd),
                    post,
                )
                &&& post.stage == ConnectionStage::Close
                &&& crate::connection::same_but_stage(old(self).conn_of(fd), post)
            }),
    {
        match self.find_index(fd) {
            None => false,
            Some(i) => {
                let c = &mut self.connections[i];
                c.close();
                proof {
                    final(self).lemma_index_of_fd(i as int, fd);
                }
                true
            },
        }
    }

    /// Dispatches one readable event, acting only when the record exists and
    /// is still receiving; hands back the snapshot of a completed request.
    pub fn handle_recv_event(&mut self, fd: i32, event: RecvEvent) -> (complete: Option<Vec<u8>>)
        requires
            old(self).wf(),
            match event {
                RecvEvent::Data(d) => (old(self).contains_fd(fd) && old(self).conn_of(fd).stage
                    == ConnectionStage::Recv) ==> d@.len() <= REQUEST_BUFFER_SIZE - old(self).conn_of(fd).request_len,
                _ => true,
            },
        ensures
            final(self).wf(),
            final(self).max_connections == old(self).max_connections,
            if old(self).contains_fd(fd) && old(self).conn_of(fd).stage == ConnectionStage::Recv {
                &&& recv_transition(
                    old(self).conn_of(fd),
                    final(self).conn_of(fd),
                    event,
                    complete,
                )
                &&& final(self).connections@ == old(self).connections@.update(
                    old(self).index_of_fd(fd),
                    final(self).conn_of(fd),
                )
            } else {
                *final(self) == *old(self) && complete is None
            },
    {
        match self.find_index(fd) {
            None => None,
            Some(i) => {
                if self.connections[i].stage == ConnectionStage::Recv {
                    let c = &mut self.connections[i];
                    let complete = c.on_recv_event(event);
                    proof {
                        final(self).lemma_index_of_fd(i as int, fd);
                    }
                    complete
                } else {
                    None
                }
            },
        }
    }

    /// Dispatches one writable event while headers are pending, acting only
    /// when the record exists, is in `SendHeaders`, and has header bytes
    /// left to send.
    pub fn handle_send_headers_event(&mut self, fd: i32, event: WriteEvent)
        requires
            old(self).wf(),
            match event {
                WriteEvent::Wrote(n) => (old(self).contains_fd(fd) && old(self).conn_of(fd).stage
                    == ConnectionStage::SendHeaders && old(self).conn_of(fd).headers_sent < old(self).conn_of(fd).headers@.len()) ==> 1 <= n <= old(self).conn_of(fd).headers@.len()
                    - old(self).conn_of(fd).headers_sent,
                _ => true,
            },
        ensures
            final(self).wf(),
            final(self).max_connections == old(self).max_connections,
            if old(self).contains_fd(fd) && old(self).conn_of(fd).stage
                == ConnectionStage::SendHeaders && old(self).conn_of(fd).headers_sent < old(self).conn_of(fd).headers@.len() {
                &&& send_headers_transition(old(self).conn_of(fd), final(self).conn_of(fd), event)
                &&& final(self).connections@ == old(self).connections@.update(
                    old(self).index_of_fd(fd),
                    final(self).conn_of(fd),
                )
            } else {
                *final(self) == *old(self)
            },
    {
        match self.find_index(fd) {
            None => {},
            Some(i) => {
                if self.connections[i].stage == ConnectionStage::SendHeaders
                    && self.connections[i].headers_sent < self.connections[i].headers.len() {
                    let c = &mut self.connections[i];
                    c.on_send_headers_event(event);
                    proof {
                        final(self).lemma_index_of_fd(i as int, fd);
                    }
                }
            },
        }
    }

    /// Dispatches one writable event while the body is being sent, acting
    /// only when the record exists and is in `SendFile`.  Returns how far the
    /// caller must seek the file back.
    pub fn handle_send_file_event(&mut self, fd: i32, event: SendFileEvent) -> (seek_back: Option<
        usize,
    >)
        requires
            old(self).wf(),
            match event {
                SendFileEvent::Wrote { read, written } => (old(self).contains_fd(fd) && old(self).conn_of(fd).stage == ConnectionStage::SendFile) ==> 1 <= written <= read,
                _ => true,
            },
        ensures
            final(self).wf(),
            final(self).max_connections == old(self).max_connections,
            if old(self).contains_fd(fd) && old(self).conn_of(fd).stage
                == ConnectionStage::SendFile {
                &&& send_file_transition(
                    old(self).conn_of(fd),
                    final(self).conn_of(fd),
                    event,
                    seek_back,
                )
                &&& final(self).connections@ == old(self).connections@.update(
                    old(self).index_of_fd(fd),
                    final(self).conn_of(fd),
                )
            } else {
                *final(self) == *old(self) && seek_back is None
            },
    {
        match self.find_index(fd) {
            None => None,
            Some(i) => {
                if self.connections[i].stage == ConnectionStage::SendFile {
                    let c = &mut self.connections[i];
                    let seek_back = c.on_send_file_event(event);
                    proof {
                        final(self).lemma_index_of_fd(i as int, fd);
                    }
                    seek_back
                } else {
                    None
                }
            },
        }
    }
}

/// The manager never holds more records than the admission cap.
pub proof fn lemma_admission_cap(m: ConnectionManager)
    requires
        m.wf(),
    ensures
        m.connections@.len() <= m.max_connections,
{
}

/// The largest descriptor among the listener's and every tracked one, as the
/// readiness call's argument needs it.
pub fn max_fd(listener_fd: i32, read_fds: &Vec<i32>, write_fds: &Vec<i32>) -> (m: i32)
    ensures
        m >= listener_fd,
        forall|i: int| 0 <= i < read_fds@.len() ==> #[trigger] read_fds@[i] <= m,
        forall|i: int| 0 <= i < write_fds@.len() ==> #[trigger] write_fds@[i] <= m,
        m == listener_fd || read_fds@.contains(m) || write_fds@.contains(m),
{
    let mut m = listener_fd;
    let rlen = read_fds.len();
    let mut i: usize = 0;
    while i < rlen
        invariant
            rlen == read_fds@.len(),
            i <= rlen,
            m >= listener_fd,
            forall|k: int| 0 <= k < i ==> #[trigger] read_fds@[k] <= m,
            m == listener_fd || read_fds@.contains(m),
        decreases rlen - i,
    {
        if read_fds[i] > m {
            m = read_fds[i];
        }
        i += 1;
    }
    let wlen = write_fds.len();
    let mut j: usize = 0;
    while j < wlen
        invariant
            wlen == write_fds@.len(),
            j <= wlen,
            m >= listener_fd,
            forall|k: int| 0 <= k < read_fds@.len() ==> #[trigger] read_fds@[k] <= m,
            forall|k: int| 0 <= k < j ==> #[trigger] write_fds@[k] <= m,
            m == listener_fd || read_fds@.contains(m) || write_fds@.contains(m),
        decreases wlen - j,
    {
        if write_fds[j] > m {
            m = write_fds[j];
        }
        j += 1;
    }
    m
}

} // verus!
