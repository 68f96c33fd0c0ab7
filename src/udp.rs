use vstd::prelude::*;

use crate::addr::{contains_addr, in_addr_set, SockAddr};
use crate::text::{decode_lossy, lossy_text};

verus! {

/// A datagram was relayed; `message` is its text, decoded permissively.
#[derive(Clone, Debug, PartialEq, Eq)]
pub struct Message {
    pub from_addr: SockAddr,
    pub local_addr: SockAddr,
    pub to_addr: SockAddr,
    pub message: String,
}

/// A receive failed (`from_addr` is then unknown), or a send to `to_addr` failed.
#[derive(Clone, Debug, PartialEq, Eq)]
pub struct MessageError {
    pub from_addr: Option<SockAddr>,
    pub local_addr: SockAddr,
    pub to_addr: SockAddr,
    pub error: String,
}

/// What the UDP engine reports.
#[derive(Clone, Debug, PartialEq, Eq)]
pub enum Event {
    Message(Message),
    MessageError(MessageError),
}

impl From<Message> for Event {
    fn from(value: Message) -> (r: Event) {
        Event::Message(value)
    }
}

impl vstd::std_specs::convert::FromSpecImpl<Message> for Event {
    open spec fn obeys_from_spec() -> bool {
        true
    }

    open spec fn from_spec(value: Message) -> Event {
        Event::Message(value)
    }
}

impl From<MessageError> for Event {
    fn from(value: MessageError) -> (r: Event) {
        Event::MessageError(value)
    }
}

impl vstd::std_specs::convert::FromSpecImpl<MessageError> for Event {
    open spec fn obeys_from_spec() -> bool {
        true
    }

    open spec fn from_spec(value: MessageError) -> Event {
        Event::MessageError(value)
    }
}

/// `e` reports `bytes` relayed from `from` to `to` through `local`.
pub open spec fn is_message(e: Event, from: SockAddr, local: SockAddr, to: SockAddr, bytes: Seq<u8>) -> bool {
    match e {
        Event::Message(m) => m.from_addr == from && m.local_addr == local && m.to_addr == to
            && m.message@ == lossy_text(bytes),
        _ => false,
    }
}

/// `e` reports the failure `err` on the way from `from` to `to` through `local`.
pub open spec fn is_message_error(e: Event, from: Option<SockAddr>, local: SockAddr, to: SockAddr, err: Seq<char>) -> bool {
    match e {
        Event::MessageError(m) => m.from_addr == from && m.local_addr == local && m.to_addr == to
            && m.error@ == err,
        _ => false,
    }
}

/// A received datagram: its payload and the address it came from.
#[derive(Debug)]
pub struct Datagram {
    pub payload: Vec<u8>,
    pub addr: SockAddr,
}

impl View for Datagram {
    type V = (Seq<u8>, SockAddr);

    open spec fn view(&self) -> (Seq<u8>, SockAddr) {
        (self.payload@, self.addr)
    }
}

/// Where the engine stands in the current exchange.
#[derive(Clone, Copy, Debug, PartialEq, Eq, Structural)]
pub enum Phase {
    /// A receive for the next client message is outstanding.
    AwaitingClientMessage,
    /// The client's message is being sent to the remote set.
    ForwardedToRemote { client: SockAddr },
    /// A receive for the remote's reply is outstanding.
    AwaitingReply { client: SockAddr },
    /// The reply, which came from `from`, is being sent to the client.
    RelayingReply { client: SockAddr, from: SockAddr },
}

/// What the socket did since the engine last asked for something.
pub enum UdpInput {
    Received(Datagram),
    RecvFailed(String),
    Sent,
    SendFailed(String),
}

/// What the engine asks its driver to do next.
pub enum UdpAction {
    /// Receive one datagram into a buffer of the engine's buffer size.
    Receive,
    /// Send these bytes to the whole remote set in one operation.
    SendToRemotes(Vec<u8>),
    /// Send these bytes to this client.
    SendToClient(Vec<u8>, SockAddr),
}

pub struct UdpStep {
    pub action: UdpAction,
    /// What to report, in order.
    pub events: Vec<Event>,
}

/// The held datagrams after `d` arrived while a reply was awaited: a reply
/// is taken up, anything else is held behind the rest.
pub open spec fn held_after(remotes: Seq<SockAddr>, q: Seq<(Seq<u8>, SockAddr)>, d: (Seq<u8>, SockAddr)) -> Seq<(Seq<u8>, SockAddr)> {
    if in_addr_set(remotes, d.1) {
        q
    } else {
        q.push(d)
    }
}

/// The held datagrams after each of `arrivals` in turn came in while a reply
/// was awaited.
pub open spec fn held_after_all(
    remotes: Seq<SockAddr>,
    q: Seq<(Seq<u8>, SockAddr)>,
    arrivals: Seq<(Seq<u8>, SockAddr)>,
) -> Seq<(Seq<u8>, SockAddr)>
    decreases arrivals.len(),
{
    if arrivals.len() == 0 {
        q
    } else {
        held_after_all(remotes, held_after(remotes, q, arrivals[0]), arrivals.drop_first())
    }
}

/// The UDP engine: one local socket, relaying one client exchange at a time
/// to the remote set, and holding datagrams that arrive out of turn.
///
/// Exchanges are not keyed by client: a second client's request that arrives
/// while a reply is awaited is held, and served only once the current
/// exchange is over.
#[derive(Debug)]
pub struct Proxy {
    pub local_addr: SockAddr,
    pub remote_addrs: Vec<SockAddr>,
    pub buffer_size: usize,
    /// Datagrams received while awaiting a reply that were not replies,
    /// oldest first.
    pub queue: std::collections::VecDeque<Datagram>,
    pub phase: Phase,
    /// The bytes of the outstanding send.
    pub payload: Vec<u8>,
}

impl Proxy {
    pub open spec fn wf(&self) -> bool {
        self.remote_addrs@.len() > 0
    }

    pub open spec fn queue_view(&self) -> Seq<(Seq<u8>, SockAddr)> {
        self.queue@.map_values(|d: Datagram| d@)
    }

    /// The remote address that events name for the remote set.
    pub open spec fn remote_addr_spec(&self) -> SockAddr {
        self.remote_addrs@[0]
    }

    /// `a` is what the current phase waits on.
    pub open spec fn asks(&self, a: UdpAction) -> bool {
        match self.phase {
            Phase::AwaitingClientMessage | Phase::AwaitingReply { .. } => a is Receive,
            Phase::ForwardedToRemote { .. } => match a {
                UdpAction::SendToRemotes(p) => p@ == self.payload@,
                _ => false,
            },
            Phase::RelayingReply { client, .. } => match a {
                UdpAction::SendToClient(p, c) => p@ == self.payload@ && c == client,
                _ => false,
            },
        }
    }

    /// The engine has started the next exchange from the held datagrams `q`:
    /// the oldest one, if any, is the client message and leaves the queue;
    /// otherwise a fresh receive is awaited.
    pub open spec fn begun_from(&self, q: Seq<(Seq<u8>, SockAddr)>) -> bool {
        if q.len() > 0 {
            &&& self.phase == Phase::ForwardedToRemote { client: q[0].1 }
            &&& self.payload@ == q[0].0
            &&& self.queue_view() == q.drop_first()
        } else {
            &&& self.phase == Phase::AwaitingClientMessage
            &&& self.queue_view() == q
        }
    }

    pub open spec fn same_config(&self, other: &Proxy) -> bool {
        &&& self.local_addr == other.local_addr
        &&& self.remote_addrs@ == other.remote_addrs@
        &&& self.buffer_size == other.buffer_size
    }

    /// A new engine, which awaits its first client message.
    pub fn new(local_addr: SockAddr, remote_addrs: Vec<SockAddr>, buffer_size: usize) -> (r: Proxy)
        requires
            remote_addrs@.len() > 0,
        ensures
            r.wf(),
            r.local_addr == local_addr,
            r.remote_addrs@ == remote_addrs@,
            r.buffer_size == buffer_size,
            r.queue_view().len() == 0,
            r.phase == Phase::AwaitingClientMessage,
            r.asks(UdpAction::Receive),
    {
        let r = Proxy {
            local_addr,
            remote_addrs,
            buffer_size,
            queue: std::collections::VecDeque::new(),
            phase: Phase::AwaitingClientMessage,
            payload: Vec::new(),
        };
        assert(r.queue_view() =~= Seq::empty());
        r
    }

    /// The remote address that events name for the remote set: its first.
    pub fn remote_addr(&self) -> (r: SockAddr)
        requires
            self.wf(),
        ensures
            r == self.remote_addr_spec(),
    {
        self.remote_addrs[0]
    }

    /// What the current phase waits on.
    pub fn pending_action(&self) -> (r: UdpAction)
        ensures
            self.asks(r),
    {
        match self.phase {
            Phase::AwaitingClientMessage | Phase::AwaitingReply { .. } => UdpAction::Receive,
            Phase::ForwardedToRemote { .. } => UdpAction::SendToRemotes(self.payload.clone()),
            Phase::RelayingReply { client, .. } => UdpAction::SendToClient(self.payload.clone(), client),
        }
    }

    /// Starts the next exchange: the oldest held datagram, if there is one,
    /// is the client message and is forwarded; otherwise a receive is asked for.
    pub fn next_exchange(&mut self) -> (r: UdpAction)
        ensures
            final(self).same_config(old(self)),
            final(self).begun_from(old(self).queue_view()),
            final(self).asks(r),
    {
        let ghost q = self.queue_view();
        match self.queue.pop_front() {
            Some(d) => {
                assert(self.queue_view() =~= q.drop_first());
                self.phase = Phase::ForwardedToRemote { client: d.addr };
                self.payload = d.payload;
                UdpAction::SendToRemotes(self.payload.clone())
            },
            None => {
                self.phase = Phase::AwaitingClientMessage;
                UdpAction::Receive
            },
        }
    }

    fn hold(&mut self, d: Datagram)
        ensures
            final(self).same_config(old(self)),
            final(self).phase == old(self).phase,
            final(self).payload@ == old(self).payload@,
            final(self).queue_view() == old(self).queue_view().push(d@),
    {
        let ghost q = self.queue_view();
        self.queue.push_back(d);
        assert(self.queue_view() =~= q.push(d@));
    }
    fn message_event(&self, from: SockAddr, to: SockAddr, bytes: &Vec<u8>) -> (r: Event)
        ensures
            is_message(r, from, self.local_addr, to, bytes@),
    {
        Event::Message(Message { from_addr: from, local_addr: self.local_addr, to_addr: to, message: decode_lossy(bytes.as_slice()) })
    }

    fn error_event(&self, from: Option<SockAddr>, to: SockAddr, error: String) -> (r: Event)
        ensures
            is_message_error(r, from, self.local_addr, to, error@),
    {
        Event::MessageError(MessageError { from_addr: from, local_addr: self.local_addr, to_addr: to, error })
    }

    /// Takes what the socket did and says what to do next.
    ///
    /// A client message is forwarded to the remote set, and the forward leg is
    /// reported once sent. While a reply is awaited, a datagram from the remote
    /// set is the reply and goes to the client; any other is held for a later
    /// exchange. Once the reply is sent, the reply leg is reported and the
    /// next exchange begins. A failed receive is reported and ends the
    /// exchange; a failed send is reported and the exchange goes on. An input
    /// that does not answer the pending request changes nothing.
    pub fn handle(&mut self, input: UdpInput) -> (r: UdpStep)
        requires
            old(self).wf(),
        ensures
            final(self).wf(),
            final(self).same_config(old(self)),
            final(self).asks(r.action),
            match (old(self).phase, input) {
                (Phase::AwaitingClientMessage, UdpInput::Received(d)) => {
                    &&& r.events@.len() == 0
                    &&& final(self).phase == Phase::ForwardedToRemote { client: d.addr }
                    &&& final(self).payload@ == d.payload@
                    &&& final(self).queue_view() == old(self).queue_view()
                },
                (Phase::AwaitingClientMessage, UdpInput::RecvFailed(e))
                | (Phase::AwaitingReply { .. }, UdpInput::RecvFailed(e)) => {
                    &&& r.events@.len() == 1
                    &&& is_message_error(r.events@[0], None, old(self).local_addr, old(self).remote_addr_spec(), e@)
                    &&& final(self).begun_from(old(self).queue_view())
                },
                (Phase::ForwardedToRemote { client }, UdpInput::Sent) => {
                    &&& r.events@.len() == 1
                    &&& is_message(r.events@[0], client, old(self).local_addr, old(self).remote_addr_spec(), old(self).payload@)
                    &&& final(self).phase == Phase::AwaitingReply { client }
                    &&& final(self).queue_view() == old(self).queue_view()
                },
                (Phase::ForwardedToRemote { client }, UdpInput::SendFailed(e)) => {
                    &&& r.events@.len() == 2
                    &&& is_message_error(r.events@[0], Some(client), old(self).local_addr, old(self).remote_addr_spec(), e@)
                    &&& is_message(r.events@[1], client, old(self).local_addr, old(self).remote_addr_spec(), old(self).payload@)
                    &&& final(self).phase == Phase::AwaitingReply { client }
                    &&& final(self).queue_view() == old(self).queue_view()
                },
                (Phase::AwaitingReply { client }, UdpInput::Received(d)) => {
                    &&& r.events@.len() == 0
                    &&& final(self).queue_view() == held_after(old(self).remote_addrs@, old(self).queue_view(), d@)
                    &&& if in_addr_set(old(self).remote_addrs@, d.addr) {
                        final(self).phase == Phase::RelayingReply { client, from: d.addr }
                            && final(self).payload@ == d.payload@
                    } else {
                        final(self).phase == old(self).phase
                    }
                },
                (Phase::RelayingReply { client, from }, UdpInput::Sent) => {
                    &&& r.events@.len() == 1
                    &&& is_message(r.events@[0], from, old(self).local_addr, client, old(self).payload@)
                    &&& final(self).begun_from(old(self).queue_view())
                },
                (Phase::RelayingReply { client, from }, UdpInput::SendFailed(e)) => {
                    &&& r.events@.len() == 2
                    &&& is_message_error(r.events@[0], Some(old(self).remote_addr_spec()), old(self).local_addr, client, e@)
                    &&& is_message(r.events@[1], from, old(self).local_addr, client, old(self).payload@)
                    &&& final(self).begun_from(old(self).queue_view())
                },
                _ => {
                    &&& r.events@.len() == 0
                    &&& final(self).phase == old(self).phase
                    &&& final(self).payload@ == old(self).payload@
                    &&& final(self).queue_view() == old(self).queue_view()
                },
            },
    {
        let remote = self.remote_addr();
        match (self.phase, input) {
            (Phase::AwaitingClientMessage, UdpInput::Received(d)) => {
                self.phase = Phase::ForwardedToRemote { client: d.addr };
                self.payload = d.payload;
                UdpStep { action: self.pending_action(), events: Vec::new() }
            },
            (Phase::AwaitingClientMessage, UdpInput::RecvFailed(e))
            | (Phase::AwaitingReply { .. }, UdpInput::RecvFailed(e)) => {
                let ev = self.error_event(None, remote, e);
                let action = self.next_exchange();
                UdpStep { action, events: vec![ev] }
            },
            (Phase::ForwardedToRemote { client }, UdpInput::Sent) => {
                let ev = self.message_event(client, remote, &self.payload);
                self.phase = Phase::AwaitingReply { client };
                UdpStep { action: UdpAction::Receive, events: vec![ev] }
            },
            (Phase::ForwardedToRemote { client }, UdpInput::SendFailed(e)) => {
                let err = self.error_event(Some(client), remote, e);
                let ev = self.message_event(client, remote, &self.payload);
                self.phase = Phase::AwaitingReply { client };
                UdpStep { action: UdpAction::Receive, events: vec![err, ev] }
            },
            (Phase::AwaitingReply { client }, UdpInput::Received(d)) => {
                if contains_addr(&self.remote_addrs, &d.addr) {
                    self.phase = Phase::RelayingReply { client, from: d.addr };
                    self.payload = d.payload;
                } else {
                    self.hold(d);
                }
                UdpStep { action: self.pending_action(), events: Vec::new() }
            },
            (Phase::RelayingReply { client, from }, UdpInput::Sent) => {
                let ev = self.message_event(from, client, &self.payload);
                let action = self.next_exchange();
                UdpStep { action, events: vec![ev] }
            },
            (Phase::RelayingReply { client, from }, UdpInput::SendFailed(e)) => {
                let err = self.error_event(Some(remote), client, e);
                let ev = self.message_event(from, client, &self.payload);
                let action = self.next_exchange();
                UdpStep { action, events: vec![err, ev] }
            },
            _ => UdpStep { action: self.pending_action(), events: Vec::new() },
        }
    }
}

/// Datagrams that arrive from outside the remote set while a reply is awaited
/// are all held, behind those held already and in the order they arrived,
/// and none is dropped; the next exchange takes up the oldest of them as its
/// client message.
pub proof fn lemma_unmatched_traffic_held_in_order(
    remotes: Seq<SockAddr>,
    q: Seq<(Seq<u8>, SockAddr)>,
    arrivals: Seq<(Seq<u8>, SockAddr)>,
)
    requires
        forall|i: int| 0 <= i < arrivals.len() ==> !in_addr_set(remotes, #[trigger] arrivals[i].1),
    ensures
        held_after_all(remotes, q, arrivals) == q + arrivals,
        q.len() == 0 && arrivals.len() > 0 ==> held_after_all(remotes, q, arrivals)[0] == arrivals[0],
    decreases arrivals.len(),
{
    if arrivals.len() > 0 {
        let rest = arrivals.drop_first();
        assert forall|i: int| 0 <= i < rest.len() implies !in_addr_set(remotes, #[trigger] rest[i].1) by {
            assert(rest[i] == arrivals[i + 1]);
        }
        assert(!in_addr_set(remotes, arrivals[0].1));
        lemma_unmatched_traffic_held_in_order(remotes, q.push(arrivals[0]), rest);
        assert(q.push(arrivals[0]) + rest =~= q + arrivals);
    } else {
        assert(q + arrivals =~= q);
    }
}

/// `a` is `b` up to some datagrams appended behind it.
pub open spec fn is_front_of(a: Seq<(Seq<u8>, SockAddr)>, b: Seq<(Seq<u8>, SockAddr)>) -> bool {
    a.len() <= b.len() && b.take(a.len() as int) == a
}

/// Held datagrams are taken up one per exchange, oldest first, and none is
/// skipped or taken twice: when the engine starts exchanges from `q`, and
/// between two starts the queue only grows at its back, the exchange started
/// `i`-th forwards the `i`-th datagram of `q`, from its own sender.
pub proof fn lemma_held_datagrams_taken_in_order(
    q: Seq<(Seq<u8>, SockAddr)>,
    queues: Seq<Seq<(Seq<u8>, SockAddr)>>,
    started: Seq<Proxy>,
)
    requires
        started.len() == queues.len(),
        started.len() <= q.len(),
        queues.len() > 0 ==> queues[0] == q,
        forall|i: int| 0 <= i < started.len() ==> (#[trigger] started[i]).begun_from(queues[i]),
        forall|i: int| 0 <= i < started.len() - 1 ==> is_front_of(started[i].queue_view(), #[trigger] queues[i + 1]),
    ensures
        forall|i: int| 0 <= i < started.len() ==> {
            &&& (#[trigger] started[i]).phase == Phase::ForwardedToRemote { client: q[i].1 }
            &&& started[i].payload@ == q[i].0
        },
    decreases started.len(),
{
    if started.len() > 0 {
        let n = started.len() - 1;
        lemma_held_datagrams_taken_in_order(q, queues.drop_last(), started.drop_last());
        assert forall|i: int| 0 <= i <= n implies is_front_of(q.skip(i), #[trigger] queues[i]) by {
            lemma_queue_front_kept(q, queues, started, i);
        }
        assert forall|i: int| 0 <= i < started.len() implies {
            &&& (#[trigger] started[i]).phase == Phase::ForwardedToRemote { client: q[i].1 }
            &&& started[i].payload@ == q[i].0
        } by {
            if i < n {
                assert(started[i] == started.drop_last()[i]);
            } else {
                assert(is_front_of(q.skip(i), queues[i]));
                assert(started[i].begun_from(queues[i]));
                assert(queues[i][0] == q.skip(i)[0]);
            }
        }
    }
}

proof fn lemma_queue_front_kept(
    q: Seq<(Seq<u8>, SockAddr)>,
    queues: Seq<Seq<(Seq<u8>, SockAddr)>>,
    started: Seq<Proxy>,
    i: int,
)
    requires
        started.len() == queues.len(),
        started.len() <= q.len(),
        queues.len() > 0 ==> queues[0] == q,
        forall|j: int| 0 <= j < started.len() ==> (#[trigger] started[j]).begun_from(queues[j]),
        forall|j: int| 0 <= j < started.len() - 1 ==> is_front_of(started[j].queue_view(), #[trigger] queues[j + 1]),
        0 <= i < started.len(),
    ensures
        is_front_of(q.skip(i), queues[i]),
    decreases i,
{
    if i == 0 {
        assert(q.skip(0) =~= q);
        assert(queues[0].take(q.len() as int) =~= q);
    } else {
        lemma_queue_front_kept(q, queues, started, i - 1);
        let prev = queues[i - 1];
        let front = q.skip(i - 1);
        assert(front.len() > 0);
        assert(prev.len() > 0);
        assert(started[i - 1].begun_from(prev));
        let rest = started[i - 1].queue_view();
        assert(rest == prev.drop_first());
        assert(is_front_of(started[i - 1].queue_view(), queues[(i - 1) + 1]));
        assert(is_front_of(rest, queues[i]));
        assert(q.skip(i) =~= front.drop_first());
        assert forall|k: int| 0 <= k < q.skip(i).len() implies queues[i][k] == q.skip(i)[k] by {
            assert(queues[i][k] == queues[i].take(rest.len() as int)[k]);
            assert(rest[k] == prev[k + 1]);
            assert(prev[k + 1] == prev.take(front.len() as int)[k + 1]);
        }
        assert(queues[i].take(q.skip(i).len() as int) =~= q.skip(i));
    }
}

} // verus!
