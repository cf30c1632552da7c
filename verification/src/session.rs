//! Connections and the session that dispatches requests over them.
//!
//! The session decides; the caller does the transport. It learns of every
//! event (a connection made or lost, an answer) from the caller, and tells the
//! caller what to send where.

use vstd::prelude::*;
use crate::future::ExecError;
use crate::future::Outcome;
use crate::future::QueryError;
use crate::future::QueryFuture;
use crate::result::QueryResult;
use crate::statement::frame_of;
use crate::statement::Statement;

verus! {

/// The state of one link to the data store.
#[derive(Clone, Copy, Debug, PartialEq, Eq, Structural)]
pub enum ConnectionState {
    Connecting,
    Ready,
    Closed,
    Failed,
}

/// Why a connection was not made.
#[derive(Clone, Copy, Debug, PartialEq, Eq, Structural)]
pub enum ConnectError {
    Timeout,
    Refused,
    ProtocolMismatch,
}

/// What the transport reports of one attempt to connect.
#[derive(Clone, Copy, Debug, PartialEq, Eq, Structural)]
pub enum ConnectEvent {
    Established,
    Refused,
    ProtocolMismatch,
}

/// How an attempt ends that took `elapsed_ms` under a limit of `timeout_ms`:
/// an attempt that took longer than the limit has timed out, whatever it reported.
pub open spec fn connect_failure(timeout_ms: u64, elapsed_ms: u64, event: ConnectEvent) -> Option<
    ConnectError,
> {
    if elapsed_ms > timeout_ms {
        Some(ConnectError::Timeout)
    } else {
        match event {
            ConnectEvent::Established => None,
            ConnectEvent::Refused => Some(ConnectError::Refused),
            ConnectEvent::ProtocolMismatch => Some(ConnectError::ProtocolMismatch),
        }
    }
}

/// The state of a connection after its attempt ended: only a connection that
/// is connecting changes, to ready or to failed.
pub open spec fn state_after(
    state: ConnectionState,
    timeout_ms: u64,
    elapsed_ms: u64,
    event: ConnectEvent,
) -> ConnectionState {
    if state == ConnectionState::Connecting {
        if connect_failure(timeout_ms, elapsed_ms, event) is None {
            ConnectionState::Ready
        } else {
            ConnectionState::Failed
        }
    } else {
        state
    }
}

/// One logical link to a node of the data store.
#[derive(Debug)]
pub struct Connection {
    address: String,
    state: ConnectionState,
}

impl Connection {
    /// The address of the node.
    pub closed spec fn address(&self) -> Seq<char> {
        self.address@
    }

    /// The state of the link.
    pub closed spec fn state(&self) -> ConnectionState {
        self.state
    }

    /// A ready connection to `address`, or the error that the attempt ended in.
    /// Nothing is tried again here: the caller may call once more.
    pub fn connect(address: &str, timeout_ms: u64, elapsed_ms: u64, event: ConnectEvent) -> (r: Result<
        Connection,
        ConnectError,
    >)
        ensures
            match r {
                Ok(c) => connect_failure(timeout_ms, elapsed_ms, event) is None && c.address()
                    == address@ && c.state() == ConnectionState::Ready,
                Err(e) => connect_failure(timeout_ms, elapsed_ms, event) == Some(e),
            },
    {
        if elapsed_ms > timeout_ms {
            return Err(ConnectError::Timeout);
        }
        match event {
            ConnectEvent::Established => Ok(
                Connection { address: address.to_owned(), state: ConnectionState::Ready },
            ),
            ConnectEvent::Refused => Err(ConnectError::Refused),
            ConnectEvent::ProtocolMismatch => Err(ConnectError::ProtocolMismatch),
        }
    }

    /// A connection to `address` whose attempt is still under way.
    pub fn connecting(address: &str) -> (c: Connection)
        ensures
            c.address() == address@,
            c.state() == ConnectionState::Connecting,
    {
        Connection { address: address.to_owned(), state: ConnectionState::Connecting }
    }

    /// Ends the attempt of a connection that is connecting: it becomes ready,
    /// or failed with the error returned. A connection in another state stays
    /// as it is, and `None` is returned.
    pub fn settle(&mut self, timeout_ms: u64, elapsed_ms: u64, event: ConnectEvent) -> (r: Option<
        ConnectError,
    >)
        ensures
            final(self).address() == old(self).address(),
            final(self).state() == state_after(old(self).state(), timeout_ms, elapsed_ms, event),
            r == (if old(self).state() == ConnectionState::Connecting {
                connect_failure(timeout_ms, elapsed_ms, event)
            } else {
                None
            }),
    {
        match self.state {
            ConnectionState::Connecting => {},
            _ => {
                return None;
            },
        }
        let failure: Option<ConnectError> = if elapsed_ms > timeout_ms {
            Some(ConnectError::Timeout)
        } else {
            match event {
                ConnectEvent::Established => None,
                ConnectEvent::Refused => Some(ConnectError::Refused),
                ConnectEvent::ProtocolMismatch => Some(ConnectError::ProtocolMismatch),
            }
        };
        self.state = match failure {
            None => ConnectionState::Ready,
            Some(_) => ConnectionState::Failed,
        };
        failure
    }

    /// Whether the connection can take requests.
    pub fn is_ready(&self) -> (b: bool)
        ensures
            b == (self.state() == ConnectionState::Ready),
    {
        match self.state {
            ConnectionState::Ready => true,
            _ => false,
        }
    }

    /// The state of the link.
    pub fn current_state(&self) -> (s: ConnectionState)
        ensures
            s == self.state(),
    {
        self.state
    }

    /// Closes the connection.
    pub fn close(&mut self)
        ensures
            final(self).state() == ConnectionState::Closed,
            final(self).address() == old(self).address(),
    {
        self.state = ConnectionState::Closed;
    }
}

/// A request that has been sent and not yet answered.
#[derive(Clone, Copy, Debug, PartialEq, Eq, Structural)]
pub struct PendingRequest {
    pub id: u64,
    pub connection: usize,
}

/// What the caller is to send: the request's id, the connection to send it
/// on, and a copy of the statement as it was when the request was made.
#[derive(Debug, PartialEq)]
pub struct Dispatch {
    pub request_id: u64,
    pub connection: usize,
    pub statement: Statement,
}

/// What the future of one request is to be settled with.
#[derive(Debug, PartialEq)]
pub struct Settlement {
    pub request_id: u64,
    pub outcome: Outcome,
}

/// What `execute` hands back: the future of the request, and what to send if
/// the request was taken.
#[derive(Debug)]
pub struct Submission {
    pub future: QueryFuture,
    pub dispatch: Option<Dispatch>,
}

/// No connection of `pool` is ready.
pub open spec fn none_ready(pool: Seq<Connection>) -> bool {
    forall|k: int| 0 <= k < pool.len() ==> (#[trigger] pool[k]).state() != ConnectionState::Ready
}

/// Every connection of `pool` is closed.
pub open spec fn all_closed(pool: Seq<Connection>) -> bool {
    forall|k: int| 0 <= k < pool.len() ==> (#[trigger] pool[k]).state() == ConnectionState::Closed
}

/// `c` is the round-robin choice: the first ready connection at or after
/// `cursor`, or, where there is none, the first ready one from the start.
pub open spec fn is_pick(pool: Seq<Connection>, cursor: int, c: int) -> bool {
    &&& 0 <= c < pool.len()
    &&& pool[c].state() == ConnectionState::Ready
    &&& forall|k: int|
        (if cursor <= c {
            cursor <= k < c
        } else {
            cursor <= k < pool.len() || 0 <= k < c
        }) ==> (#[trigger] pool[k]).state() != ConnectionState::Ready
}

/// Where the cursor stands after connection `c` of `len` was chosen.
pub open spec fn cursor_after(c: int, len: int) -> int {
    if c + 1 < len {
        c + 1
    } else {
        0
    }
}

/// What the future of a request is settled with when `answer` comes.
pub open spec fn outcome_of(answer: Result<QueryResult, i32>) -> Outcome {
    match answer {
        Ok(rows) => Outcome::Completed(rows),
        Err(code) => Outcome::Failed(QueryError::Exec(ExecError::RemoteFailure(code))),
    }
}

/// What to settle the futures of `requests` with when the session shuts
/// down: each fails with `SessionClosed`, oldest first.
pub open spec fn closing_settlements(requests: Seq<PendingRequest>) -> Seq<Settlement> {
    Seq::new(
        requests.len(),
        |i: int|
            Settlement {
                request_id: requests[i].id,
                outcome: Outcome::Failed(QueryError::Exec(ExecError::SessionClosed)),
            },
    )
}

/// Some request in `requests` has the id `id`.
pub open spec fn in_flight_has(requests: Seq<PendingRequest>, id: u64) -> bool {
    exists|i: int| 0 <= i < requests.len() && (#[trigger] requests[i]).id == id
}

/// The round-robin choice among `pool` from `cursor`, or `None` where no
/// connection is ready.
pub fn pick_ready(pool: &Vec<Connection>, cursor: usize) -> (r: Option<usize>)
    ensures
        match r {
            Some(c) => is_pick(pool@, cursor as int, c as int),
            None => none_ready(pool@),
        },
{
    let start: usize = if cursor <= pool.len() {
        cursor
    } else {
        pool.len()
    };
    let mut i: usize = start;
    while i < pool.len()
        invariant
            start <= i <= pool@.len(),
            start == cursor || start == pool@.len(),
            forall|k: int| cursor <= k < i ==> (#[trigger] pool@[k]).state() != ConnectionState::Ready,
        decreases pool.len() - i,
    {
        if pool[i].is_ready() {
            return Some(i);
        }
        i += 1;
    }
    let mut j: usize = 0;
    while j < start
        invariant
            j <= start <= pool@.len(),
            start <= cursor,
            forall|k: int|
                cursor <= k < pool@.len() ==> (#[trigger] pool@[k]).state() != ConnectionState::Ready,
            forall|k: int| 0 <= k < j ==> (#[trigger] pool@[k]).state() != ConnectionState::Ready,
        decreases start - j,
    {
        if pool[j].is_ready() {
            return Some(j);
        }
        j += 1;
    }
    None
}

/// A pool of connections and the table of requests in flight.
#[derive(Debug)]
pub struct Session {
    connections: Vec<Connection>,
    cursor: usize,
    next_id: u64,
    pending: Vec<PendingRequest>,
    shut_down: bool,
}

impl Session {
    /// The connections, in pool order.
    pub closed spec fn pool(&self) -> Seq<Connection> {
        self.connections@
    }

    /// Where the next round-robin choice starts.
    pub closed spec fn cursor(&self) -> int {
        self.cursor as int
    }

    /// The id that the next request gets.
    pub closed spec fn next_id(&self) -> u64 {
        self.next_id
    }

    /// The requests sent and not yet answered, oldest first.
    pub closed spec fn in_flight(&self) -> Seq<PendingRequest> {
        self.pending@
    }

    /// Whether the session has been shut down.
    pub closed spec fn is_shut_down(&self) -> bool {
        self.shut_down
    }

    /// The session's invariant: the cursor lies in the pool; the requests in
    /// flight have ids that were handed out, in rising order, on connections
    /// of the pool; and a session that was shut down has nothing in flight and
    /// only closed connections.
    pub open spec fn wf(&self) -> bool {
        &&& 0 <= self.cursor() <= self.pool().len()
        &&& forall|i: int|
            0 <= i < self.in_flight().len() ==> (#[trigger] self.in_flight()[i]).id < self.next_id()
                && self.in_flight()[i].connection < self.pool().len()
        &&& forall|i: int, j: int|
            0 <= i < j < self.in_flight().len() ==> (#[trigger] self.in_flight()[i]).id < (
            #[trigger] self.in_flight()[j]).id
        &&& self.is_shut_down() ==> self.in_flight().len() == 0 && all_closed(self.pool())
    }

    /// The session takes no more requests: it was shut down, it has
    /// connections and all of them are closed, or it has used up its ids.
    pub open spec fn closed_for_requests(&self) -> bool {
        ||| self.is_shut_down()
        ||| self.pool().len() > 0 && all_closed(self.pool())
        ||| self.next_id() == u64::MAX
    }

    /// A session over `connections`, with nothing in flight.
    pub fn new(connections: Vec<Connection>) -> (s: Session)
        ensures
            s.wf(),
            s.pool() == connections@,
            s.cursor() == 0,
            s.next_id() == 0,
            s.in_flight() == Seq::<PendingRequest>::empty(),
            !s.is_shut_down(),
    {
        Session { connections, cursor: 0, next_id: 0, pending: Vec::new(), shut_down: false }
    }

    /// The number of connections in the pool.
    pub fn connection_count(&self) -> (n: usize)
        ensures
            n == self.pool().len(),
    {
        self.connections.len()
    }

    /// The number of requests in flight.
    pub fn pending_count(&self) -> (n: usize)
        ensures
            n == self.in_flight().len(),
    {
        self.pending.len()
    }

    /// The state of connection `index`, if the pool has one there.
    pub fn connection_state(&self, index: usize) -> (r: Option<ConnectionState>)
        ensures
            r == (if index < self.pool().len() {
                Some(self.pool()[index as int].state())
            } else {
                None
            }),
    {
        if index < self.connections.len() {
            Some(self.connections[index].current_state())
        } else {
            None
        }
    }

    /// Whether every connection of the pool is closed.
    fn every_connection_closed(&self) -> (b: bool)
        ensures
            b == all_closed(self.pool()),
    {
        let mut i: usize = 0;
        while i < self.connections.len()
            invariant
                i <= self.connections@.len(),
                forall|k: int|
                    0 <= k < i ==> (#[trigger] self.connections@[k]).state() == ConnectionState::Closed,
            decreases self.connections.len() - i,
        {
            match self.connections[i].current_state() {
                ConnectionState::Closed => {},
                _ => {
                    return false;
                },
            }
            i += 1;
        }
        true
    }

    /// Whether the session takes no more requests.
    pub fn is_closed(&self) -> (b: bool)
        ensures
            b == self.closed_for_requests(),
    {
        if self.shut_down || self.next_id == u64::MAX {
            return true;
        }
        self.connections.len() > 0 && self.every_connection_closed()
    }

    /// Submits a statement and returns at once.
    ///
    /// A closed session answers with a future that has failed with
    /// `SessionClosed`; a session without a ready connection with one that has
    /// failed with `NoConnectionAvailable`. Neither changes the session.
    /// Otherwise the request gets the next id, goes to the round-robin choice
    /// among the ready connections and is entered as in flight; the future
    /// handed back is pending. What is to be sent is a copy of the statement,
    /// so binding the statement anew does not touch a request under way.
    pub fn execute(&mut self, statement: &Statement) -> (s: Submission)
        requires
            old(self).wf(),
        ensures
            final(self).wf(),
            final(self).pool() == old(self).pool(),
            final(self).is_shut_down() == old(self).is_shut_down(),
            old(self).closed_for_requests() ==> {
                &&& s.future.state() == Some(Outcome::Failed(QueryError::Exec(ExecError::SessionClosed)))
                &&& s.dispatch is None
            },
            !old(self).closed_for_requests() && none_ready(old(self).pool()) ==> {
                &&& s.future.state() == Some(
                    Outcome::Failed(QueryError::Exec(ExecError::NoConnectionAvailable)),
                )
                &&& s.dispatch is None
            },
            !old(self).closed_for_requests() && !none_ready(old(self).pool()) ==> {
                &&& s.future.state() is None
                &&& s.future.deadline() is None
                &&& s.future.waiting() == Seq::<u64>::empty()
                &&& s.dispatch is Some
            },
            match s.dispatch {
                Some(d) => {
                    &&& d.request_id == old(self).next_id()
                    &&& d.statement.text() == statement.text()
                    &&& frame_of(d.statement.params()) == frame_of(statement.params())
                    &&& is_pick(old(self).pool(), old(self).cursor(), d.connection as int)
                    &&& final(self).next_id() == old(self).next_id() + 1
                    &&& final(self).cursor() == cursor_after(
                        d.connection as int,
                        old(self).pool().len() as int,
                    )
                    &&& final(self).in_flight() == old(self).in_flight().push(
                        PendingRequest { id: d.request_id, connection: d.connection },
                    )
                },
                None => {
                    &&& final(self).next_id() == old(self).next_id()
                    &&& final(self).cursor() == old(self).cursor()
                    &&& final(self).in_flight() == old(self).in_flight()
                },
            },
    {
        if self.is_closed() {
            return Submission {
                future: QueryFuture::settled(
                    Outcome::Failed(QueryError::Exec(ExecError::SessionClosed)),
                ),
                dispatch: None,
            };
        }
        match pick_ready(&self.connections, self.cursor) {
            None => Submission {
                future: QueryFuture::settled(
                    Outcome::Failed(QueryError::Exec(ExecError::NoConnectionAvailable)),
                ),
                dispatch: None,
            },
            Some(c) => {
                let id: u64 = self.next_id;
                self.next_id = id + 1;
                let len: usize = self.connections.len();
                self.cursor = if c + 1 < len {
                    c + 1
                } else {
                    0
                };
                self.pending.push(PendingRequest { id, connection: c });
                proof {
                    assert(self.in_flight() == old(self).in_flight().push(
                        PendingRequest { id, connection: c },
                    ));
                }
                Submission {
                    future: QueryFuture::pending(None),
                    dispatch: Some(
                        Dispatch { request_id: id, connection: c, statement: statement.duplicate() },
                    ),
                }
            },
        }
    }

    /// The place in the table of the request `request_id`, if it is in flight.
    fn find_pending(&self, request_id: u64) -> (r: Option<usize>)
        ensures
            match r {
                Some(i) => i < self.in_flight().len() && self.in_flight()[i as int].id == request_id,
                None => !in_flight_has(self.in_flight(), request_id),
            },
    {
        let mut i: usize = 0;
        while i < self.pending.len()
            invariant
                i <= self.pending@.len(),
                forall|k: int| 0 <= k < i ==> (#[trigger] self.pending@[k]).id != request_id,
            decreases self.pending.len() - i,
        {
            if self.pending[i].id == request_id {
                return Some(i);
            }
            i += 1;
        }
        None
    }

    /// Takes the request `request_id` out of the table once its answer has
    /// come, and returns the connection it was on; `None` for an id that is not
    /// in flight. Afterwards the id is not in flight, so a second answer to the
    /// same request finds nothing.
    pub fn complete(&mut self, request_id: u64) -> (r: Option<usize>)
        requires
            old(self).wf(),
        ensures
            final(self).wf(),
            final(self).pool() == old(self).pool(),
            final(self).cursor() == old(self).cursor(),
            final(self).next_id() == old(self).next_id(),
            final(self).is_shut_down() == old(self).is_shut_down(),
            !in_flight_has(final(self).in_flight(), request_id),
            match r {
                Some(c) => exists|i: int|
                    0 <= i < old(self).in_flight().len() && (#[trigger] old(self).in_flight()[i])
                        == (PendingRequest { id: request_id, connection: c }) && final(self).in_flight()
                        == old(self).in_flight().remove(i),
                None => !in_flight_has(old(self).in_flight(), request_id) && final(self).in_flight()
                    == old(self).in_flight(),
            },
    {
        match self.find_pending(request_id) {
            None => None,
            Some(i) => {
                let taken: PendingRequest = self.pending.remove(i);
                proof {
                    let before = old(self).pending@;
                    let after = self.pending@;
                    assert(before[i as int] == taken);
                    assert forall|k: int| 0 <= k < after.len() implies (#[trigger] after[k]).id
                        != request_id by {
                        if k < i {
                            assert(after[k] == before[k]);
                            assert(before[k].id < before[i as int].id);
                        } else {
                            assert(after[k] == before[k + 1]);
                            assert(before[i as int].id < before[k + 1].id);
                        }
                    }
                    assert forall|a: int, b: int| 0 <= a < b < after.len() implies (#[trigger] after[a]).id
                        < (#[trigger] after[b]).id by {
                        let a0 = if a < i { a } else { a + 1 };
                        let b0 = if b < i { b } else { b + 1 };
                        assert(after[a] == before[a0]);
                        assert(after[b] == before[b0]);
                        assert(before[a0].id < before[b0].id);
                    }
                    assert forall|k: int| 0 <= k < after.len() implies (#[trigger] after[k]).id
                        < self.next_id && after[k].connection < self.connections@.len() by {
                        let k0 = if k < i { k } else { k + 1 };
                        assert(after[k] == before[k0]);
                        assert(before[k0].id < old(self).next_id);
                    }
                }
                Some(taken.connection)
            },
        }
    }

    /// Takes the answer to request `request_id` and says what its future is
    /// to be settled with: the rows, or `RemoteFailure` with the store's error
    /// code. An answer to a request that is not in flight is dropped: `None`.
    pub fn on_answer(&mut self, request_id: u64, answer: Result<QueryResult, i32>) -> (r: Option<
        Outcome,
    >)
        requires
            old(self).wf(),
        ensures
            final(self).wf(),
            final(self).pool() == old(self).pool(),
            final(self).cursor() == old(self).cursor(),
            final(self).next_id() == old(self).next_id(),
            final(self).is_shut_down() == old(self).is_shut_down(),
            !in_flight_has(final(self).in_flight(), request_id),
            r == (if in_flight_has(old(self).in_flight(), request_id) {
                Some(outcome_of(answer))
            } else {
                None
            }),
            r is Some ==> exists|i: int|
                0 <= i < old(self).in_flight().len() && (#[trigger] old(self).in_flight()[i]).id
                    == request_id && final(self).in_flight() == old(self).in_flight().remove(i),
            r is None ==> final(self).in_flight() == old(self).in_flight(),
    {
        match self.complete(request_id) {
            None => None,
            Some(_) => Some(
                match answer {
                    Ok(rows) => Outcome::Completed(rows),
                    Err(code) => Outcome::Failed(QueryError::Exec(ExecError::RemoteFailure(code))),
                },
            ),
        }
    }

    /// Ends the attempt of connection `index`, as `Connection::settle` does,
    /// and returns what it returns; `None` too where the pool has no
    /// connection there.
    pub fn connection_settled(
        &mut self,
        index: usize,
        timeout_ms: u64,
        elapsed_ms: u64,
        event: ConnectEvent,
    ) -> (r: Option<ConnectError>)
        requires
            old(self).wf(),
        ensures
            final(self).wf(),
            final(self).cursor() == old(self).cursor(),
            final(self).next_id() == old(self).next_id(),
            final(self).in_flight() == old(self).in_flight(),
            final(self).is_shut_down() == old(self).is_shut_down(),
            final(self).pool().len() == old(self).pool().len(),
            forall|k: int|
                0 <= k < old(self).pool().len() ==> (#[trigger] final(self).pool()[k]).address() == old(
                    self,
                ).pool()[k].address() && final(self).pool()[k].state() == (if k == index {
                    state_after(old(self).pool()[k].state(), timeout_ms, elapsed_ms, event)
                } else {
                    old(self).pool()[k].state()
                }),
            r == (if index < old(self).pool().len() && old(self).pool()[index as int].state()
                == ConnectionState::Connecting {
                connect_failure(timeout_ms, elapsed_ms, event)
            } else {
                None
            }),
    {
        if index >= self.connections.len() {
            return None;
        }
        let r = self.connections[index].settle(timeout_ms, elapsed_ms, event);
        proof {
            assert(self.in_flight() == old(self).in_flight());
        }
        r
    }

    /// Closes connection `index`. Returns whether the pool has a connection there.
    pub fn close_connection(&mut self, index: usize) -> (known: bool)
        requires
            old(self).wf(),
        ensures
            final(self).wf(),
            final(self).cursor() == old(self).cursor(),
            final(self).next_id() == old(self).next_id(),
            final(self).in_flight() == old(self).in_flight(),
            final(self).is_shut_down() == old(self).is_shut_down(),
            known == (index < old(self).pool().len()),
            final(self).pool().len() == old(self).pool().len(),
            forall|k: int|
                0 <= k < old(self).pool().len() ==> (#[trigger] final(self).pool()[k]).address() == old(
                    self,
                ).pool()[k].address() && final(self).pool()[k].state() == (if k == index {
                    ConnectionState::Closed
                } else {
                    old(self).pool()[k].state()
                }),
    {
        if index >= self.connections.len() {
            return false;
        }
        self.connections[index].close();
        proof {
            assert(self.in_flight() == old(self).in_flight());
        }
        true
    }

    /// Records that connection `index` was lost: unless it is closed, it is
    /// marked as failed, and `execute` passes it over from now on. Returns
    /// whether the pool has a connection there.
    pub fn mark_failed(&mut self, index: usize) -> (known: bool)
        requires
            old(self).wf(),
        ensures
            final(self).wf(),
            final(self).cursor() == old(self).cursor(),
            final(self).next_id() == old(self).next_id(),
            final(self).in_flight() == old(self).in_flight(),
            final(self).is_shut_down() == old(self).is_shut_down(),
            known == (index < old(self).pool().len()),
            final(self).pool().len() == old(self).pool().len(),
            forall|k: int|
                0 <= k < old(self).pool().len() ==> (#[trigger] final(self).pool()[k]).address() == old(
                    self,
                ).pool()[k].address() && final(self).pool()[k].state() == (if k == index && old(
                    self,
                ).pool()[k].state() != ConnectionState::Closed {
                    ConnectionState::Failed
                } else {
                    old(self).pool()[k].state()
                }),
    {
        if index >= self.connections.len() {
            return false;
        }
        let closed: bool = match self.connections[index].current_state() {
            ConnectionState::Closed => true,
            _ => false,
        };
        if !closed {
            self.connections[index].state = ConnectionState::Failed;
        }
        proof {
            assert(self.in_flight() == old(self).in_flight());
        }
        true
    }

    /// Shuts the session down: every connection is closed, nothing stays in
    /// flight, and the future of each request that was in flight is to fail
    /// with `SessionClosed`, as the settlements returned say, oldest first.
    pub fn shutdown(&mut self) -> (failed: Vec<Settlement>)
        requires
            old(self).wf(),
        ensures
            final(self).wf(),
            final(self).is_shut_down(),
            final(self).closed_for_requests(),
            final(self).in_flight() == Seq::<PendingRequest>::empty(),
            failed@ == closing_settlements(old(self).in_flight()),
            final(self).next_id() == old(self).next_id(),
            final(self).cursor() == old(self).cursor(),
            final(self).pool().len() == old(self).pool().len(),
            all_closed(final(self).pool()),
            forall|k: int|
                0 <= k < old(self).pool().len() ==> (#[trigger] final(self).pool()[k]).address() == old(
                    self,
                ).pool()[k].address(),
    {
        let mut failed: Vec<Settlement> = Vec::new();
        let mut i: usize = 0;
        while i < self.pending.len()
            invariant
                *self == *old(self),
                i <= self.pending@.len(),
                failed@ == closing_settlements(self.pending@.subrange(0, i as int)),
            decreases self.pending.len() - i,
        {
            failed.push(
                Settlement {
                    request_id: self.pending[i].id,
                    outcome: Outcome::Failed(QueryError::Exec(ExecError::SessionClosed)),
                },
            );
            proof {
                assert(failed@ =~= closing_settlements(self.pending@.subrange(0, i + 1)));
            }
            i += 1;
        }
        proof {
            assert(self.pending@.subrange(0, i as int) =~= self.pending@);
        }
        self.pending = Vec::new();
        let mut j: usize = 0;
        while j < self.connections.len()
            invariant
                j <= self.connections@.len(),
                self.connections@.len() == old(self).connections@.len(),
                self.cursor == old(self).cursor,
                self.next_id == old(self).next_id,
                self.pending@ == Seq::<PendingRequest>::empty(),
                forall|k: int|
                    0 <= k < j ==> (#[trigger] self.connections@[k]).state() == ConnectionState::Closed,
                forall|k: int|
                    0 <= k < self.connections@.len() ==> (#[trigger] self.connections@[k]).address()
                        == old(self).connections@[k].address(),
            decreases self.connections.len() - j,
        {
            self.connections[j].state = ConnectionState::Closed;
            j += 1;
        }
        self.shut_down = true;
        failed
    }
}

/// The id that the next request gets is not in flight: no two requests in
/// flight ever share an id.
pub proof fn lemma_next_id_is_fresh(session: Session)
    requires
        session.wf(),
    ensures
        !in_flight_has(session.in_flight(), session.next_id()),
        forall|i: int, j: int|
            0 <= i < session.in_flight().len() && 0 <= j < session.in_flight().len() && i != j ==> (
            #[trigger] session.in_flight()[i]).id != (#[trigger] session.in_flight()[j]).id,
{
    assert forall|i: int, j: int|
        0 <= i < session.in_flight().len() && 0 <= j < session.in_flight().len() && i
            != j implies (#[trigger] session.in_flight()[i]).id != (
    #[trigger] session.in_flight()[j]).id by {
        if i < j {
            assert(session.in_flight()[i].id < session.in_flight()[j].id);
        } else {
            assert(session.in_flight()[j].id < session.in_flight()[i].id);
        }
    }
}

} // verus!
