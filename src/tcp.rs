use vstd::prelude::*;

use crate::addr::SockAddr;
use crate::text::{decode_lossy, lossy_text};

verus! {

/// A client connection was accepted and its remote connection established.
#[derive(Clone, Copy, Debug, PartialEq, Eq, Structural)]
pub struct Connection {
    pub client_addr: SockAddr,
    pub local_addr: SockAddr,
    pub remote_addr: SockAddr,
}

/// Accepting a client, or connecting to the remote set, failed.
#[derive(Clone, Debug, PartialEq, Eq)]
pub struct ConnectionError {
    pub local_addr: SockAddr,
    pub error: String,
}

/// Both directions of a connection have finished.
#[derive(Clone, Copy, Debug, PartialEq, Eq, Structural)]
pub struct Disconnection {
    pub client_addr: SockAddr,
    pub local_addr: SockAddr,
    pub remote_addr: SockAddr,
}

/// A chunk of bytes was relayed; `message` is its text, decoded permissively.
#[derive(Clone, Debug, PartialEq, Eq)]
pub struct Message {
    pub from_addr: SockAddr,
    pub local_addr: SockAddr,
    pub to_addr: SockAddr,
    pub message: String,
}

/// Reading from one side, or writing to the other, failed.
#[derive(Clone, Debug, PartialEq, Eq)]
pub struct MessageError {
    pub from_addr: SockAddr,
    pub local_addr: SockAddr,
    pub to_addr: SockAddr,
    pub error: String,
}

/// What the TCP engine reports.
#[derive(Clone, Debug, PartialEq, Eq)]
pub enum Event {
    Connection(Connection),
    ConnectionError(ConnectionError),
    Disconnection(Disconnection),
    Message(Message),
    MessageError(MessageError),
}

impl From<Connection> for Event {
    fn from(value: Connection) -> (r: Event) {
        Event::Connection(value)
    }
}

impl vstd::std_specs::convert::FromSpecImpl<Connection> for Event {
    open spec fn obeys_from_spec() -> bool {
        true
    }

    open spec fn from_spec(value: Connection) -> Event {
        Event::Connection(value)
    }
}

impl From<ConnectionError> for Event {
    fn from(value: ConnectionError) -> (r: Event) {
        Event::ConnectionError(value)
    }
}

impl vstd::std_specs::convert::FromSpecImpl<ConnectionError> for Event {
    open spec fn obeys_from_spec() -> bool {
        true
    }

    open spec fn from_spec(value: ConnectionError) -> Event {
        Event::ConnectionError(value)
    }
}

impl From<Disconnection> for Event {
    fn from(value: Disconnection) -> (r: Event) {
        Event::Disconnection(value)
    }
}

impl vstd::std_specs::convert::FromSpecImpl<Disconnection> for Event {
    open spec fn obeys_from_spec() -> bool {
        true
    }

    open spec fn from_spec(value: Disconnection) -> Event {
        Event::Disconnection(value)
    }
}

impl From<Message> for Event {
    fn from(value: Message) -> (r: Event) {
        Event::Message(value)
    }
}

impl vstd::std_specs::convert::FromSpecImpl<Message> for Event {
    open spec fn obeys_from_spec() -> bool {
        true
    }

    open spec fn from_spec(value: Message) -> Event {
        Event::Message(value)
    }
}

impl From<MessageError> for Event {
    fn from(value: MessageError) -> (r: Event) {
        Event::MessageError(value)
    }
}

impl vstd::std_specs::convert::FromSpecImpl<MessageError> for Event {
    open spec fn obeys_from_spec() -> bool {
        true
    }

    open spec fn from_spec(value: MessageError) -> Event {
        Event::MessageError(value)
    }
}

/// `e` reports `bytes` relayed from `from` to `to` through `local`.
pub open spec fn is_message(e: Option<Event>, from: SockAddr, local: SockAddr, to: SockAddr, bytes: Seq<u8>) -> bool {
    match e {
        Some(Event::Message(m)) => m.from_addr == from && m.local_addr == local && m.to_addr == to
            && m.message@ == lossy_text(bytes),
        _ => false,
    }
}

/// `e` reports the failure `err` on the way from `from` to `to` through `local`.
pub open spec fn is_message_error(e: Option<Event>, from: SockAddr, local: SockAddr, to: SockAddr, err: Seq<char>) -> bool {
    match e {
        Some(Event::MessageError(m)) => m.from_addr == from && m.local_addr == local && m.to_addr == to
            && m.error@ == err,
        _ => false,
    }
}

/// `e` reports the connection failure `err` at `local`.
pub open spec fn is_connection_error(e: Event, local: SockAddr, err: Seq<char>) -> bool {
    match e {
        Event::ConnectionError(c) => c.local_addr == local && c.error@ == err,
        _ => false,
    }
}

/// What one side of a connection did since the pipe last asked for something.
pub enum PipeInput {
    /// A read returned these bytes; none means the peer closed its side.
    Read(Vec<u8>),
    ReadFailed(String),
    /// The bytes last handed out for writing were all written.
    Written,
    WriteFailed(String),
    /// The other direction of the connection has finished.
    Cancelled,
}

/// What a pipe asks its driver to do next.
pub enum PipeAction {
    /// Read from the source side into a buffer of the pipe's buffer size.
    Read,
    /// Write all of these bytes to the destination side.
    Write(Vec<u8>),
    /// This direction is over: signal cancellation to the other one.
    Stop,
}

pub struct PipeStep {
    pub action: PipeAction,
    pub event: Option<Event>,
}

/// One direction of a TCP connection: reads from `from_addr` and writes the
/// same bytes to `to_addr`, until either side closes or fails, or it is
/// cancelled.
pub struct Pipe {
    pub from_addr: SockAddr,
    pub local_addr: SockAddr,
    pub to_addr: SockAddr,
    pub buffer_size: usize,
    pub in_flight: Option<Vec<u8>>,
    pub done: bool,
    pub received: Ghost<Seq<u8>>,
    pub delivered: Ghost<Seq<u8>>,
}

impl Pipe {
    /// Every byte read from the source so far.
    pub open spec fn received(&self) -> Seq<u8> {
        self.received@
    }

    /// Every byte written to the destination so far.
    pub open spec fn delivered(&self) -> Seq<u8> {
        self.delivered@
    }

    /// A write is outstanding.
    pub open spec fn is_writing(&self) -> bool {
        self.in_flight is Some
    }

    /// The bytes of the outstanding write; none when reading.
    pub open spec fn in_flight(&self) -> Seq<u8> {
        match self.in_flight {
            Some(b) => b@,
            None => Seq::empty(),
        }
    }

    /// This direction has stopped for good.
    pub open spec fn is_done(&self) -> bool {
        self.done
    }

    pub open spec fn buffer_len(&self) -> nat {
        self.buffer_size as nat
    }

    pub open spec fn wf(&self) -> bool {
        self.delivered@ + self.in_flight() == self.received@
    }

    /// The pipe's state apart from its addresses.
    pub open spec fn same_state(&self, other: &Pipe) -> bool {
        &&& self.received() == other.received()
        &&& self.delivered() == other.delivered()
        &&& self.is_writing() == other.is_writing()
        &&& self.in_flight() == other.in_flight()
        &&& self.is_done() == other.is_done()
        &&& self.buffer_len() == other.buffer_len()
    }

    /// A pipe that is about to read; nothing has passed through it yet.
    pub fn new(from_addr: SockAddr, local_addr: SockAddr, to_addr: SockAddr, buffer_size: usize) -> (r: Pipe)
        ensures
            r.wf(),
            r.from_addr == from_addr,
            r.local_addr == local_addr,
            r.to_addr == to_addr,
            r.buffer_len() == buffer_size,
            r.received() == Seq::<u8>::empty(),
            r.delivered() == Seq::<u8>::empty(),
            !r.is_writing(),
            !r.is_done(),
    {
        Pipe {
            from_addr,
            local_addr,
            to_addr,
            buffer_size,
            in_flight: None,
            done: false,
            received: Ghost(Seq::empty()),
            delivered: Ghost(Seq::empty()),
        }
    }

    /// The size of the buffer that each read fills.
    pub fn buffer_size(&self) -> (r: usize)
        ensures
            r == self.buffer_len(),
    {
        self.buffer_size
    }

    fn current_action(&self) -> (r: PipeAction)
        requires
            self.wf(),
        ensures
            self.is_done() ==> r is Stop,
            !self.is_done() && !self.is_writing() ==> r is Read,
            !self.is_done() && self.is_writing() ==> (match r {
                PipeAction::Write(b) => b@ == self.in_flight(),
                _ => false,
            }),
    {
        if self.done {
            PipeAction::Stop
        } else {
            match &self.in_flight {
                Some(b) => PipeAction::Write(b.clone()),
                None => PipeAction::Read,
            }
        }
    }

    /// Takes what the driver observed and says what to do next.
    ///
    /// A non-empty read is handed out to be written verbatim; once written, it
    /// is reported as a message and the next read is asked for. An empty read,
    /// a failure or a cancellation ends the pipe, and a failure is reported.
    /// An ended pipe stays ended. An input that does not answer the pending
    /// request changes nothing.
    pub fn handle(&mut self, input: PipeInput) -> (r: PipeStep)
        requires
            old(self).wf(),
        ensures
            final(self).wf(),
            final(self).from_addr == old(self).from_addr,
            final(self).local_addr == old(self).local_addr,
            final(self).to_addr == old(self).to_addr,
            final(self).buffer_len() == old(self).buffer_len(),
            old(self).is_done() ==> r.action is Stop && r.event is None && final(self).same_state(old(self)),
            !old(self).is_done() ==> match input {
                PipeInput::Cancelled => {
                    &&& r.action is Stop
                    &&& r.event is None
                    &&& final(self).is_done()
                    &&& final(self).same_state_but_done(old(self))
                },
                PipeInput::Read(b) => if old(self).is_writing() {
                    r.event is None && final(self).same_state(old(self))
                        && (match r.action { PipeAction::Write(w) => w@ == old(self).in_flight(), _ => false })
                } else if b@.len() == 0 {
                    r.action is Stop && r.event is None && final(self).is_done()
                        && final(self).same_state_but_done(old(self))
                } else {
                    &&& (match r.action { PipeAction::Write(w) => w@ == b@, _ => false })
                    &&& r.event is None
                    &&& !final(self).is_done()
                    &&& final(self).is_writing()
                    &&& final(self).in_flight() == b@
                    &&& final(self).received() == old(self).received() + b@
                    &&& final(self).delivered() == old(self).delivered()
                },
                PipeInput::ReadFailed(e) => if old(self).is_writing() {
                    r.event is None && final(self).same_state(old(self))
                        && (match r.action { PipeAction::Write(w) => w@ == old(self).in_flight(), _ => false })
                } else {
                    &&& r.action is Stop
                    &&& is_message_error(r.event, old(self).from_addr, old(self).local_addr, old(self).to_addr, e@)
                    &&& final(self).is_done()
                    &&& final(self).same_state_but_done(old(self))
                },
                PipeInput::Written => if old(self).is_writing() {
                    &&& r.action is Read
                    &&& is_message(r.event, old(self).from_addr, old(self).local_addr, old(self).to_addr, old(self).in_flight())
                    &&& !final(self).is_done()
                    &&& !final(self).is_writing()
                    &&& final(self).received() == old(self).received()
                    &&& final(self).delivered() == old(self).delivered() + old(self).in_flight()
                } else {
                    r.action is Read && r.event is None && final(self).same_state(old(self))
                },
                PipeInput::WriteFailed(e) => if old(self).is_writing() {
                    &&& r.action is Stop
                    &&& is_message_error(r.event, old(self).from_addr, old(self).local_addr, old(self).to_addr, e@)
                    &&& final(self).is_done()
                    &&& final(self).same_state_but_done(old(self))
                } else {
                    r.action is Read && r.event is None && final(self).same_state(old(self))
                },
            },
    {
        if self.done {
            return PipeStep { action: PipeAction::Stop, event: None };
        }
        match input {
            PipeInput::Cancelled => {
                self.done = true;
                PipeStep { action: PipeAction::Stop, event: None }
            },
            PipeInput::Read(b) => {
                if self.in_flight.is_some() {
                    return PipeStep { action: self.current_action(), event: None };
                }
                if b.len() == 0 {
                    self.done = true;
                    return PipeStep { action: PipeAction::Stop, event: None };
                }
                proof {
                    self.received@ = self.received@ + b@;
                }
                let w = b.clone();
                self.in_flight = Some(b);
                PipeStep { action: PipeAction::Write(w), event: None }
            },
            PipeInput::ReadFailed(e) => {
                if self.in_flight.is_some() {
                    return PipeStep { action: self.current_action(), event: None };
                }
                self.done = true;
                let ev = MessageError {
                    from_addr: self.from_addr,
                    local_addr: self.local_addr,
                    to_addr: self.to_addr,
                    error: e,
                };
                PipeStep { action: PipeAction::Stop, event: Some(Event::MessageError(ev)) }
            },
            PipeInput::Written => {
                match self.in_flight.take() {
                    Some(b) => {
                        proof {
                            self.delivered@ = self.delivered@ + b@;
                        }
                        let message = decode_lossy(b.as_slice());
                        let ev = Message {
                            from_addr: self.from_addr,
                            local_addr: self.local_addr,
                            to_addr: self.to_addr,
                            message,
                        };
                        PipeStep { action: PipeAction::Read, event: Some(Event::Message(ev)) }
                    },
                    None => PipeStep { action: PipeAction::Read, event: None },
                }
            },
            PipeInput::WriteFailed(e) => {
                if self.in_flight.is_none() {
                    return PipeStep { action: PipeAction::Read, event: None };
                }
                self.done = true;
                let ev = MessageError {
                    from_addr: self.from_addr,
                    local_addr: self.local_addr,
                    to_addr: self.to_addr,
                    error: e,
                };
                PipeStep { action: PipeAction::Stop, event: Some(Event::MessageError(ev)) }
            },
        }
    }

    pub open spec fn same_state_but_done(&self, other: &Pipe) -> bool {
        &&& self.received() == other.received()
        &&& self.delivered() == other.delivered()
        &&& self.is_writing() == other.is_writing()
        &&& self.in_flight() == other.in_flight()
        &&& self.buffer_len() == other.buffer_len()
    }
}

/// Byte fidelity: the bytes a pipe has written to its destination, followed
/// by those of its outstanding write, are exactly the bytes it has read from
/// its source, in order; whenever no write is outstanding the two are equal.
pub proof fn lemma_bytes_forwarded_verbatim(p: Pipe)
    requires
        p.wf(),
    ensures
        p.delivered() + p.in_flight() == p.received(),
        !p.is_writing() ==> p.delivered() == p.received(),
{
    if !p.is_writing() {
        assert(p.delivered() + p.in_flight() =~= p.delivered());
    }
}

/// The bytes of the chunks, one after another.
pub open spec fn concat(chunks: Seq<Seq<u8>>) -> Seq<u8>
    decreases chunks.len(),
{
    if chunks.len() == 0 {
        Seq::empty()
    } else {
        concat(chunks.drop_last()) + chunks.last()
    }
}

/// `post` is `pre` after one more chunk `c` was read and its write
/// completed: what `handle` gives for a non-empty `Read(c)` followed by
/// `Written`.
pub open spec fn relayed_chunk(pre: Pipe, c: Seq<u8>, post: Pipe) -> bool {
    &&& post.received() == pre.received() + c
    &&& post.delivered() == pre.delivered() + c
}

/// Byte fidelity over a whole run: when a pipe reads chunks one after
/// another and completes the write of each, its destination has received
/// exactly the chunks concatenated, in read order and unmodified.
pub proof fn lemma_chunks_delivered_in_order(states: Seq<Pipe>, chunks: Seq<Seq<u8>>)
    requires
        states.len() == chunks.len() + 1,
        states[0].delivered() == Seq::<u8>::empty(),
        forall|i: int| 0 <= i < chunks.len() ==> #[trigger] relayed_chunk(states[i], chunks[i], states[i + 1]),
    ensures
        states.last().delivered() == concat(chunks),
    decreases chunks.len(),
{
    if chunks.len() == 0 {
        assert(states.last() == states[0]);
    } else {
        let n = chunks.len() - 1;
        let s2 = states.drop_last();
        let c2 = chunks.drop_last();
        assert forall|i: int| 0 <= i < c2.len() implies #[trigger] relayed_chunk(s2[i], c2[i], s2[i + 1]) by {
            assert(relayed_chunk(states[i], chunks[i], states[i + 1]));
        }
        lemma_chunks_delivered_in_order(s2, c2);
        assert(relayed_chunk(states[n], chunks[n], states[n + 1]));
        assert(s2.last() == states[n]);
    }
}

/// Cancellation is final: once a pipe has stopped (its source closed or
/// failed, a write failed, or the other direction cancelled it), `handle`
/// leaves its state as it is, so over any run of later inputs it stays
/// stopped and delivers no further byte.
pub proof fn lemma_stopped_pipe_stays_stopped(states: Seq<Pipe>)
    requires
        states.len() > 0,
        states[0].is_done(),
        forall|i: int| 0 <= i < states.len() - 1 && states[i].is_done() ==> (#[trigger] states[i + 1]).same_state(&states[i]),
    ensures
        forall|i: int| 0 <= i < states.len() ==> (#[trigger] states[i]).is_done() && states[i].delivered() == states[0].delivered(),
    decreases states.len(),
{
    if states.len() > 1 {
        let s2 = states.drop_last();
        assert forall|i: int| 0 <= i < s2.len() - 1 && s2[i].is_done() implies (#[trigger] s2[i + 1]).same_state(&s2[i]) by {
            assert(states[i + 1].same_state(&states[i]));
        }
        lemma_stopped_pipe_stays_stopped(s2);
        let n = states.len() - 1;
        assert(states[n - 1] == s2[n - 1]);
        assert(states[(n - 1) + 1].same_state(&states[n - 1]));
        assert forall|i: int| 0 <= i < states.len() implies (#[trigger] states[i]).is_done() && states[i].delivered() == states[0].delivered() by {
            if i < n {
                assert(states[i] == s2[i]);
            }
        }
    }
}

/// The two directions of a connection.
#[derive(Clone, Copy, Debug, PartialEq, Eq, Structural)]
pub enum Direction {
    ClientToRemote,
    RemoteToClient,
}

/// What a connection does when one of its directions has finished.
pub struct SessionStep {
    /// The other direction is still running and must be cancelled.
    pub cancel_other: bool,
    /// The connection is over; this reports it.
    pub event: Option<Event>,
}

/// An established connection between a client and a remote peer, which
/// lasts until both of its directions have finished.
pub struct Session {
    pub client_addr: SockAddr,
    pub local_addr: SockAddr,
    pub remote_addr: SockAddr,
    pub client_to_remote_done: bool,
    pub remote_to_client_done: bool,
}

impl Session {
    pub open spec fn is_done(&self, dir: Direction) -> bool {
        match dir {
            Direction::ClientToRemote => self.client_to_remote_done,
            Direction::RemoteToClient => self.remote_to_client_done,
        }
    }

    pub open spec fn other(dir: Direction) -> Direction {
        match dir {
            Direction::ClientToRemote => Direction::RemoteToClient,
            Direction::RemoteToClient => Direction::ClientToRemote,
        }
    }

    pub open spec fn is_closed(&self) -> bool {
        self.client_to_remote_done && self.remote_to_client_done
    }

    pub fn new(client_addr: SockAddr, local_addr: SockAddr, remote_addr: SockAddr) -> (r: Session)
        ensures
            r.client_addr == client_addr,
            r.local_addr == local_addr,
            r.remote_addr == remote_addr,
            !r.client_to_remote_done,
            !r.remote_to_client_done,
    {
        Session { client_addr, local_addr, remote_addr, client_to_remote_done: false, remote_to_client_done: false }
    }

    /// The report that the connection was established.
    pub fn connection_event(&self) -> (r: Event)
        ensures
            r == Event::Connection(
                Connection { client_addr: self.client_addr, local_addr: self.local_addr, remote_addr: self.remote_addr },
            ),
    {
        Event::Connection(
            Connection { client_addr: self.client_addr, local_addr: self.local_addr, remote_addr: self.remote_addr },
        )
    }

    /// The pipe of one direction, with a fresh buffer size.
    pub fn pipe(&self, dir: Direction, buffer_size: usize) -> (r: Pipe)
        ensures
            r.wf(),
            dir == Direction::ClientToRemote ==> r.from_addr == self.client_addr && r.to_addr == self.remote_addr,
            dir == Direction::RemoteToClient ==> r.from_addr == self.remote_addr && r.to_addr == self.client_addr,
            r.local_addr == self.local_addr,
            r.buffer_len() == buffer_size,
            r.received().len() == 0,
            r.delivered().len() == 0,
            !r.is_writing(),
            !r.is_done(),
    {
        match dir {
            Direction::ClientToRemote => Pipe::new(self.client_addr, self.local_addr, self.remote_addr, buffer_size),
            Direction::RemoteToClient => Pipe::new(self.remote_addr, self.local_addr, self.client_addr, buffer_size),
        }
    }

    /// Records that one direction has finished. The other is cancelled if it
    /// still runs; once both have finished, the disconnection is reported,
    /// exactly once.
    pub fn finish(&mut self, dir: Direction) -> (r: SessionStep)
        ensures
            final(self).client_addr == old(self).client_addr,
            final(self).local_addr == old(self).local_addr,
            final(self).remote_addr == old(self).remote_addr,
            final(self).is_done(dir),
            final(self).is_done(Self::other(dir)) == old(self).is_done(Self::other(dir)),
            r.cancel_other == !old(self).is_done(Self::other(dir)),
            r.event == (if final(self).is_closed() && !old(self).is_closed() {
                Some(Event::Disconnection(
                    Disconnection {
                        client_addr: old(self).client_addr,
                        local_addr: old(self).local_addr,
                        remote_addr: old(self).remote_addr,
                    },
                ))
            } else {
                None
            }),
    {
        let was_closed = self.client_to_remote_done && self.remote_to_client_done;
        let other_done = match dir {
            Direction::ClientToRemote => {
                self.client_to_remote_done = true;
                self.remote_to_client_done
            },
            Direction::RemoteToClient => {
                self.remote_to_client_done = true;
                self.client_to_remote_done
            },
        };
        let event = if other_done && !was_closed {
            Some(Event::Disconnection(
                Disconnection { client_addr: self.client_addr, local_addr: self.local_addr, remote_addr: self.remote_addr },
            ))
        } else {
            None
        };
        SessionStep { cancel_other: !other_done, event }
    }
}

/// A failed accept: its description, and whether the listener itself has
/// become unusable.
#[derive(Clone, Debug, PartialEq, Eq)]
pub struct AcceptFailure {
    pub error: String,
    pub fatal: bool,
}

/// What the accept loop does with the outcome of one accept.
pub enum AcceptDecision {
    /// Connect to the remote set on behalf of this client.
    Connect(SockAddr),
    /// This accept failed but the listener still works: report it and
    /// accept the next client.
    Continue(Event),
    /// The listener failed: report it and stop accepting.
    Stop(Event),
}

/// What a client connection becomes once the remote set has been tried.
pub enum ConnectDecision {
    /// The remote peer answered: run the connection, reporting it first.
    Start(Session, Event),
    /// No remote candidate answered: report it and drop the client.
    Abandon(Event),
}

/// The TCP engine's own state: where it listens, where it connects, and how
/// much each read may take.
#[derive(Debug)]
pub struct Proxy {
    pub local_addr: SockAddr,
    pub remote_addrs: Vec<SockAddr>,
    pub buffer_size: usize,
}

impl Proxy {
    pub fn new(local_addr: SockAddr, remote_addrs: Vec<SockAddr>, buffer_size: usize) -> (r: Proxy)
        ensures
            r.local_addr == local_addr,
            r.remote_addrs@ == remote_addrs@,
            r.buffer_size == buffer_size,
    {
        Proxy { local_addr, remote_addrs, buffer_size }
    }

    /// A successful accept leads to a connection attempt. A failed one is
    /// reported; accepting goes on unless the listener itself is unusable.
    pub fn on_accept(&self, accepted: Result<SockAddr, AcceptFailure>) -> (r: AcceptDecision)
        ensures
            match accepted {
                Ok(client) => r == AcceptDecision::Connect(client),
                Err(f) => if f.fatal {
                    match r {
                        AcceptDecision::Stop(ev) => is_connection_error(ev, self.local_addr, f.error@),
                        _ => false,
                    }
                } else {
                    match r {
                        AcceptDecision::Continue(ev) => is_connection_error(ev, self.local_addr, f.error@),
                        _ => false,
                    }
                },
            },
    {
        match accepted {
            Ok(client) => AcceptDecision::Connect(client),
            Err(failure) => {
                let event = Event::ConnectionError(ConnectionError { local_addr: self.local_addr, error: failure.error });
                if failure.fatal {
                    AcceptDecision::Stop(event)
                } else {
                    AcceptDecision::Continue(event)
                }
            },
        }
    }

    /// The first remote candidate that answered starts a session, reported as
    /// a connection; when none answered the failure is reported and no
    /// session exists.
    pub fn on_connect(&self, client_addr: SockAddr, connected: Result<SockAddr, String>) -> (r: ConnectDecision)
        ensures
            match connected {
                Ok(remote) => match r {
                    ConnectDecision::Start(s, ev) => {
                        &&& s.client_addr == client_addr
                        &&& s.local_addr == self.local_addr
                        &&& s.remote_addr == remote
                        &&& !s.client_to_remote_done
                        &&& !s.remote_to_client_done
                        &&& ev == Event::Connection(
                            Connection { client_addr, local_addr: self.local_addr, remote_addr: remote },
                        )
                    },
                    _ => false,
                },
                Err(e) => match r {
                    ConnectDecision::Abandon(ev) => is_connection_error(ev, self.local_addr, e@),
                    _ => false,
                },
            },
    {
        match connected {
            Ok(remote_addr) => {
                let s = Session::new(client_addr, self.local_addr, remote_addr);
                let ev = s.connection_event();
                ConnectDecision::Start(s, ev)
            },
            Err(error) => ConnectDecision::Abandon(
                Event::ConnectionError(ConnectionError { local_addr: self.local_addr, error }),
            ),
        }
    }
}

} // verus!
