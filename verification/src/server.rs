use vstd::prelude::*;

use crate::addr::{IpAddr, SocketAddr};
use crate::message::{Message, MessageView};
use crate::session::ascii_bytes;
use crate::time::{is_timeout, Duration};

verus! {

#[verifier::external_type_specification]
#[verifier::external_body]
#[verifier::reject_recursive_types(T)]
pub struct ExReceiver<T>(async_channel::Receiver<T>);

/// Calls `async_channel::Receiver::receiver_count`: how many receivers of the
/// channel are alive. The count depends on other tasks, so only this is
/// claimed: the receiver it is asked through is alive, so the count is at
/// least one.
#[verifier::external_body]
fn receiver_count<T>(rx: &async_channel::Receiver<T>) -> (n: usize)
    ensures
        n >= 1,
{
    rx.receiver_count()
}

/// The server keeps one receiver of its master queue; a connected master's
/// writer holds a second. More than two means a master is already being
/// served, and a new one is turned away.
pub fn master_slot_taken(receivers: usize) -> (taken: bool)
    ensures
        taken == (receivers > 2),
{
    receivers > 2
}

/// `master_slot_taken` for the server's master queue, as it stands now:
/// gives the receiver count that was read and the decision on it.
pub fn master_slot_taken_on(master_rx: &async_channel::Receiver<Message>) -> (r: (usize, bool))
    ensures
        r.0 >= 1,
        r.1 == (r.0 > 2),
{
    let n: usize = receiver_count(master_rx);
    (n, master_slot_taken(n))
}

/// Whether the first message of a would-be master opens a session: it must
/// have parsed, be a `Master` message, and carry the server's secret.
pub open spec fn admits(first: Option<MessageView>, secret: Seq<char>) -> bool {
    match first {
        Some(MessageView::Master(s)) => s == secret,
        _ => false,
    }
}

/// A would-be master is admitted exactly when its first message is a
/// `Master` message whose text equals the server's secret: a text that
/// differs in any character, or has another length, is refused, and so is
/// any other message or bytes that did not parse.
pub proof fn lemma_admits_exactly_the_secret(text: Seq<char>, secret: Seq<char>, other: MessageView)
    ensures
        admits(Some(MessageView::Master(text)), secret) <==> text == secret,
        admits(Some(MessageView::Master(secret)), secret),
        text.len() != secret.len() ==> !admits(Some(MessageView::Master(text)), secret),
        (exists|i: int| 0 <= i < text.len() && i < secret.len() && text[i] != secret[i]) ==> !admits(
            Some(MessageView::Master(text)),
            secret,
        ),
        !(other is Master) ==> !admits(Some(other), secret),
        !admits(None, secret),
{
}

/// Checks the first message of a would-be master against the server's
/// secret; `None` stands for bytes that did not parse as a message.
pub fn admit_master(first: Option<&Message>, secret: &String) -> (ok: bool)
    ensures
        ok == admits(
            match first {
                Some(m) => Some(m@),
                None => None,
            },
            secret@,
        ),
{
    match first {
        Some(Message::Master(s)) => *s == *secret,
        _ => false,
    }
}

/// The reply to a master that arrives while another is served.
pub fn duplicate_master_reply() -> (msg: Message)
    ensures
        msg@ == MessageView::Error("Master already exists"@),
{
    Message::Error(String::from_str("Master already exists"))
}

/// The reply to a master whose first message was refused.
pub fn refused_master_reply() -> (msg: Message)
    ensures
        msg@ == MessageView::Error("Master Secret Error"@),
{
    Message::Error(String::from_str("Master Secret Error"))
}

/// Where a visitor goes.
#[derive(Clone, Copy, Debug, PartialEq, Eq)]
pub enum VisitorRoute {
    /// No master is connected: answer with `no_master_reply` and close.
    NoMaster,
    /// Ask the master for a worker (`Message::New`) and queue the visitor.
    ToMaster,
}

/// Routes a visitor by the number of live receivers of the master queue:
/// one (the server's own) means no master, two means one master. Any other
/// count is a broken server state, for which there is no route.
pub fn route_visitor(receivers: usize) -> (route: Option<VisitorRoute>)
    ensures
        receivers == 1 ==> route == Some(VisitorRoute::NoMaster),
        receivers == 2 ==> route == Some(VisitorRoute::ToMaster),
        receivers != 1 && receivers != 2 ==> route is None,
{
    if receivers == 1 {
        Some(VisitorRoute::NoMaster)
    } else if receivers == 2 {
        Some(VisitorRoute::ToMaster)
    } else {
        None
    }
}

/// `route_visitor` for the server's master queue, as it stands now: gives
/// the receiver count that was read and the route for it.
pub fn route_visitor_on(master_rx: &async_channel::Receiver<Message>) -> (r: (usize, Option<VisitorRoute>))
    ensures
        r.0 >= 1,
        r.0 == 1 ==> r.1 == Some(VisitorRoute::NoMaster),
        r.0 == 2 ==> r.1 == Some(VisitorRoute::ToMaster),
        r.0 != 1 && r.0 != 2 ==> r.1 is None,
{
    let n: usize = receiver_count(master_rx);
    (n, route_visitor(n))
}

/// The reply a visitor gets when no master is connected.
pub fn no_master_reply() -> (reply: &'static [u8])
    ensures
        reply@ == ascii_bytes("HTTP/1.1 555 No Master Connect"@),
{
    let text = "HTTP/1.1 555 No Master Connect";
    proof {
        reveal_strlit("HTTP/1.1 555 No Master Connect");
        broadcast use vstd::string::is_ascii_spec_bytes;
        assert(vstd::string::is_ascii(text));
    }
    let reply = text.as_bytes();
    assert(reply@ =~= ascii_bytes(text@));
    reply
}

/// First port tried for a master's worker listener.
pub const FIRST_WORKER_PORT: u16 = 0xAAAA;

/// Ports below this one are tried; it is not.
pub const WORKER_PORT_END: u16 = 0xFFFF;

/// The addresses tried, in order, for a master's worker listener: the
/// server's IP with each port from `FIRST_WORKER_PORT` up to, not including,
/// `WORKER_PORT_END`. The first that binds is used; if none does, listening
/// fails.
pub fn worker_candidates(server_addr: &SocketAddr) -> (addrs: Vec<SocketAddr>)
    ensures
        addrs.len() == WORKER_PORT_END - FIRST_WORKER_PORT,
        forall|i: int|
            0 <= i < addrs.len() ==> #[trigger] addrs[i] == SocketAddr::spec_new(
                server_addr.spec_ip(),
                (FIRST_WORKER_PORT + i) as u16,
            ),
{
    let ip = server_addr.ip();
    let mut addrs: Vec<SocketAddr> = Vec::new();
    let mut port: u16 = FIRST_WORKER_PORT;
    while port < WORKER_PORT_END
        invariant
            FIRST_WORKER_PORT <= port <= WORKER_PORT_END,
            addrs.len() == port - FIRST_WORKER_PORT,
            ip == server_addr.spec_ip(),
            forall|i: int|
                0 <= i < addrs.len() ==> #[trigger] addrs[i] == SocketAddr::spec_new(
                    ip,
                    (FIRST_WORKER_PORT + i) as u16,
                ),
        decreases WORKER_PORT_END - port,
    {
        addrs.push(SocketAddr::new(ip, port));
        port = port + 1;
    }
    addrs
}

/// The worker candidates are tried in strictly increasing port order, all
/// on the server's IP, from `FIRST_WORKER_PORT` through the port just below
/// `WORKER_PORT_END`; so no port is tried twice and `WORKER_PORT_END` never.
pub proof fn lemma_worker_candidates_ordered(server_addr: SocketAddr, addrs: Seq<SocketAddr>)
    requires
        addrs.len() == WORKER_PORT_END - FIRST_WORKER_PORT,
        forall|i: int|
            0 <= i < addrs.len() ==> #[trigger] addrs[i] == SocketAddr::spec_new(
                server_addr.spec_ip(),
                (FIRST_WORKER_PORT + i) as u16,
            ),
    ensures
        addrs[0].spec_port() == FIRST_WORKER_PORT,
        addrs.last().spec_port() == WORKER_PORT_END - 1,
        forall|i: int, j: int|
            0 <= i < j < addrs.len() ==> #[trigger] addrs[i].spec_port() < #[trigger] addrs[j].spec_port(),
        forall|i: int|
            0 <= i < addrs.len() ==> (#[trigger] addrs[i]).spec_ip() == server_addr.spec_ip()
                && FIRST_WORKER_PORT <= addrs[i].spec_port() < WORKER_PORT_END,
{
    assert forall|i: int| 0 <= i < addrs.len() implies (#[trigger] addrs[i]).spec_port() == FIRST_WORKER_PORT + i
        && addrs[i].spec_ip() == server_addr.spec_ip() by {
        assert(addrs[i] == SocketAddr::spec_new(server_addr.spec_ip(), (FIRST_WORKER_PORT + i) as u16));
    }
    assert(addrs[0].spec_port() == FIRST_WORKER_PORT);
    assert(addrs[addrs.len() - 1].spec_port() == WORKER_PORT_END - 1);
}

/// Where a master connection stands.
#[derive(Clone, Copy, Debug, PartialEq, Eq)]
pub enum MasterPhase {
    /// Waiting for the would-be master's first message.
    AwaitingHello,
    /// Admitted; its worker listener is being opened.
    Announcing,
    /// The worker address has been sent; queued messages and heartbeats follow.
    Serving,
    /// Refused; the refusal has been sent and the connection is dropped.
    Closed,
}

/// What the server's writer to a served master sends next: a queued message
/// as it is, or a `Ping` when the heartbeat period has passed first.
pub enum MasterOutbound {
    Queued(Message),
    HeartbeatDue,
}

/// The messages written so far on a master connection, as the phase allows
/// them: none before the master is answered; one refusal when refused; and
/// once served, the worker address first.
pub open spec fn link_wf(phase: MasterPhase, sent: Seq<MessageView>) -> bool {
    match phase {
        MasterPhase::AwaitingHello => sent.len() == 0,
        MasterPhase::Announcing => sent.len() == 0,
        MasterPhase::Serving => sent.len() >= 1 && sent[0] is Worker,
        MasterPhase::Closed => sent.len() == 1 && sent[0] is Error,
    }
}

/// The server's side of one master connection: it refuses a second master,
/// checks the secret, announces the worker address, then relays queued
/// messages and heartbeats. It gives each message to write, and keeps the
/// list of messages given so far.
pub struct MasterLink {
    phase: MasterPhase,
    sent: Ghost<Seq<MessageView>>,
}

impl View for MasterLink {
    type V = (MasterPhase, Seq<MessageView>);

    /// The phase, and the messages given to write so far, in order.
    closed spec fn view(&self) -> (MasterPhase, Seq<MessageView>) {
        (self.phase, self.sent@)
    }
}

impl MasterLink {
    #[verifier::type_invariant]
    closed spec fn well_formed(self) -> bool {
        link_wf(self.phase, self.sent@)
    }

    /// A new master connection, given whether a master is already served
    /// (`master_slot_taken`): if so, it is refused at once with
    /// `duplicate_master_reply`; otherwise it waits for the first message.
    pub fn open(slot_taken: bool) -> (r: (MasterLink, Option<Message>))
        ensures
            link_wf(r.0@.0, r.0@.1),
            slot_taken ==> (r.0@.0 == MasterPhase::Closed && (r.1 matches Some(m)
                && m@ == MessageView::Error("Master already exists"@) && r.0@.1 == seq![m@])),
            !slot_taken ==> r.0@.0 == MasterPhase::AwaitingHello && r.1 is None,
    {
        if slot_taken {
            let reply = duplicate_master_reply();
            let ghost sent = seq![reply@];
            (MasterLink { phase: MasterPhase::Closed, sent: Ghost(sent) }, Some(reply))
        } else {
            (MasterLink { phase: MasterPhase::AwaitingHello, sent: Ghost(Seq::empty()) }, None)
        }
    }

    /// The phase of the connection.
    pub fn phase(&self) -> (p: MasterPhase)
        ensures
            p == self@.0,
    {
        self.phase
    }

    /// Takes the first message of the would-be master (`None` when it did not
    /// parse): with the right secret it is admitted and nothing is written
    /// yet; otherwise it is refused with `refused_master_reply`.
    pub fn on_hello(&mut self, first: Option<&Message>, secret: &String) -> (reply: Option<Message>)
        requires
            old(self)@.0 == MasterPhase::AwaitingHello,
        ensures
            link_wf(final(self)@.0, final(self)@.1),
            admits(
                match first {
                    Some(m) => Some(m@),
                    None => None,
                },
                secret@,
            ) ==> final(self)@.0 == MasterPhase::Announcing && reply is None && final(self)@.1 == old(self)@.1,
            !admits(
                match first {
                    Some(m) => Some(m@),
                    None => None,
                },
                secret@,
            ) ==> (final(self)@.0 == MasterPhase::Closed && (reply matches Some(m)
                && m@ == MessageView::Error("Master Secret Error"@) && final(self)@.1 == old(self)@.1.push(m@))),
    {
        proof { use_type_invariant(&*self); }
        if admit_master(first, secret) {
            *self = MasterLink { phase: MasterPhase::Announcing, sent: self.sent };
            None
        } else {
            let reply = refused_master_reply();
            let ghost sent = self.sent@.push(reply@);
            *self = MasterLink { phase: MasterPhase::Closed, sent: Ghost(sent) };
            Some(reply)
        }
    }

    /// Announces the worker listener, bound on the server's IP at `port`, one
    /// of the worker ports: the first message an admitted master gets.
    pub fn announce(&mut self, server_addr: &SocketAddr, port: u16) -> (msg: Message)
        requires
            old(self)@.0 == MasterPhase::Announcing,
            FIRST_WORKER_PORT <= port < WORKER_PORT_END,
        ensures
            link_wf(final(self)@.0, final(self)@.1),
            final(self)@.0 == MasterPhase::Serving,
            msg@ == MessageView::Worker(SocketAddr::spec_new(server_addr.spec_ip(), port)),
            final(self)@.1 == old(self)@.1.push(msg@),
            final(self)@.1 == seq![msg@],
    {
        proof { use_type_invariant(&*self); }
        let msg = Message::Worker(SocketAddr::new(server_addr.ip(), port));
        let ghost sent = self.sent@.push(msg@);
        *self = MasterLink { phase: MasterPhase::Serving, sent: Ghost(sent) };
        msg
    }

    /// The next message for a served master: a queued one as it is, or a
    /// `Ping` when the heartbeat period has passed first.
    pub fn outbound(&mut self, event: MasterOutbound) -> (msg: Message)
        requires
            old(self)@.0 == MasterPhase::Serving,
        ensures
            link_wf(final(self)@.0, final(self)@.1),
            final(self)@.0 == MasterPhase::Serving,
            msg@ == match event {
                MasterOutbound::Queued(m) => m@,
                MasterOutbound::HeartbeatDue => MessageView::Ping,
            },
            final(self)@.1 == old(self)@.1.push(msg@),
    {
        let msg = match event {
            MasterOutbound::Queued(m) => m,
            MasterOutbound::HeartbeatDue => Message::Ping,
        };
        proof { use_type_invariant(&*self); }
        let ghost sent = self.sent@.push(msg@);
        *self = MasterLink { phase: MasterPhase::Serving, sent: Ghost(sent) };
        msg
    }
}

/// On a master connection, every `New` and every `Ping` comes after the
/// worker address: the first message an admitted master gets is `Worker`,
/// and a refused one gets only its refusal.
pub proof fn lemma_worker_announced_first(phase: MasterPhase, sent: Seq<MessageView>)
    requires
        link_wf(phase, sent),
    ensures
        forall|i: int|
            0 <= i < sent.len() && (#[trigger] sent[i] is New || sent[i] is Ping) ==> 0 < i && sent[0] is Worker,
        phase == MasterPhase::Closed ==> sent.len() == 1 && sent[0] is Error,
{
}

/// What the worker connection does with the visitor at the head of the queue.
#[derive(Clone, Copy, Debug, PartialEq, Eq)]
pub enum Pairing {
    /// The visitor has waited longer than the timeout: drop it and look at
    /// the next one.
    DropVisitor,
    /// Relay between this visitor and the worker connection.
    Pair,
}

/// The pairing for a visitor that has waited `elapsed`, with the server's
/// `timeout`: dropped when it has waited strictly longer.
pub fn next_pairing(elapsed: &Duration, timeout: &Duration) -> (p: Pairing)
    ensures
        p == if elapsed@ > timeout@ {
            Pairing::DropVisitor
        } else {
            Pairing::Pair
        },
{
    if is_timeout(elapsed, timeout) {
        Pairing::DropVisitor
    } else {
        Pairing::Pair
    }
}

/// Draining the visitor queue for a new worker connection, where `expired`
/// says of each waiting visitor, in queue order, whether it has outlived the
/// timeout: the index of the visitor paired, if any.
pub open spec fn drain_queue(expired: Seq<bool>) -> Option<int>
    decreases expired.len(),
{
    if expired.len() == 0 {
        None
    } else if !expired[0] {
        Some(0)
    } else {
        match drain_queue(expired.drop_first()) {
            Some(k) => Some(k + 1),
            None => None,
        }
    }
}

/// A worker connection is paired with the first visitor in queue order that
/// has not outlived the timeout; the visitors before it are dropped and
/// those after it stay queued. When every waiting visitor has expired, all
/// are dropped and the worker connection is left unpaired.
pub proof fn lemma_first_fresh_visitor_paired(expired: Seq<bool>)
    ensures
        match drain_queue(expired) {
            Some(k) => 0 <= k < expired.len() && !expired[k] && forall|j: int| 0 <= j < k ==> expired[j],
            None => forall|j: int| 0 <= j < expired.len() ==> expired[j],
        },
    decreases expired.len(),
{
    if expired.len() > 0 && expired[0] {
        let rest = expired.drop_first();
        lemma_first_fresh_visitor_paired(rest);
        assert forall|j: int| 1 <= j < expired.len() implies expired[j] == rest[j - 1] by {}
    }
}

} // verus!
