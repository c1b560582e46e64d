use vstd::prelude::*;

use crate::addr::{placeholder_worker, spec_placeholder_worker, SocketAddr};
use crate::message::{Message, MessageView};

verus! {

/// What a master client does in answer to one message from the server.
#[derive(Debug)]
pub enum SessionAction {
    /// Open a worker connection to this address and bridge it to the local
    /// service.
    OpenWorker(SocketAddr),
    /// Print this text.
    Print(String),
    /// The server has named a new worker address; later workers go there.
    WorkerMoved(SocketAddr),
    /// The server refused the session: print this text and stop.
    Stop(String),
    /// Nothing to do.
    Ignore,
}

/// A session action as the contracts see it.
pub enum SessionActionView {
    OpenWorker(SocketAddr),
    Print(Seq<char>),
    WorkerMoved(SocketAddr),
    Stop(Seq<char>),
    Ignore,
}

impl View for SessionAction {
    type V = SessionActionView;

    open spec fn view(&self) -> SessionActionView {
        match self {
            SessionAction::OpenWorker(a) => SessionActionView::OpenWorker(*a),
            SessionAction::Print(s) => SessionActionView::Print(s@),
            SessionAction::WorkerMoved(a) => SessionActionView::WorkerMoved(*a),
            SessionAction::Stop(s) => SessionActionView::Stop(s@),
            SessionAction::Ignore => SessionActionView::Ignore,
        }
    }
}

/// The worker address a session dials after a message, given the one it
/// dialled before.
pub open spec fn next_worker(worker: SocketAddr, msg: MessageView) -> SocketAddr {
    match msg {
        MessageView::Worker(a) => a,
        _ => worker,
    }
}

/// The action a session takes on a message while its worker address is
/// `worker`.
pub open spec fn session_action(worker: SocketAddr, msg: MessageView) -> SessionActionView {
    match msg {
        MessageView::New => SessionActionView::OpenWorker(worker),
        MessageView::Msg(s) => SessionActionView::Print(s),
        MessageView::Worker(a) => SessionActionView::WorkerMoved(a),
        MessageView::Error(s) => SessionActionView::Stop(s),
        _ => SessionActionView::Ignore,
    }
}

/// What a session does with each message: `New` opens a worker to the
/// current address, `Msg` prints its text, `Worker` moves the address to the
/// one it names, `Error` stops the session with its own text, whatever that
/// text is; `Ping`, `Pong` and `Master` are ignored. Only `Worker` moves the
/// address.
pub proof fn lemma_session_rules(worker: SocketAddr, text: Seq<char>, named: SocketAddr, msg: MessageView)
    ensures
        session_action(worker, MessageView::New) == SessionActionView::OpenWorker(worker),
        session_action(worker, MessageView::Msg(text)) == SessionActionView::Print(text),
        session_action(worker, MessageView::Worker(named)) == SessionActionView::WorkerMoved(named),
        session_action(worker, MessageView::Error(text)) == SessionActionView::Stop(text),
        session_action(worker, MessageView::Ping) == SessionActionView::Ignore,
        session_action(worker, MessageView::Pong) == SessionActionView::Ignore,
        session_action(worker, MessageView::Master(text)) == SessionActionView::Ignore,
        next_worker(worker, MessageView::Worker(named)) == named,
        !(msg is Worker) ==> next_worker(worker, msg) == worker,
        (session_action(worker, msg) is Stop) <==> (msg is Error),
{
}

/// The client side of the control connection: the worker address that the
/// server named last.
pub struct Session {
    worker: SocketAddr,
}

impl View for Session {
    type V = SocketAddr;

    closed spec fn view(&self) -> SocketAddr {
        self.worker
    }
}

impl Session {
    /// A session before any message: workers go to `0.0.0.0:65535`.
    pub fn new() -> (s: Session)
        ensures
            s@ == spec_placeholder_worker(),
            s@ == (SocketAddr::V4 { octets: [0u8, 0u8, 0u8, 0u8], port: 65535 }),
    {
        Session { worker: placeholder_worker() }
    }

    /// The address the next worker connection goes to.
    pub fn worker(&self) -> (a: SocketAddr)
        ensures
            a == self@,
    {
        self.worker
    }

    /// Handles one message from the server.
    pub fn on_message(&mut self, msg: Message) -> (action: SessionAction)
        ensures
            final(self)@ == next_worker(old(self)@, msg@),
            action@ == session_action(old(self)@, msg@),
    {
        match msg {
            Message::New => SessionAction::OpenWorker(self.worker),
            Message::Msg(text) => SessionAction::Print(text),
            Message::Worker(a) => {
                self.worker = a;
                SessionAction::WorkerMoved(a)
            },
            Message::Error(text) => SessionAction::Stop(text),
            _ => SessionAction::Ignore,
        }
    }
}

/// The worker address after a run of messages, one step at a time.
pub open spec fn worker_after(init: SocketAddr, msgs: Seq<MessageView>) -> SocketAddr
    decreases msgs.len(),
{
    if msgs.len() == 0 {
        init
    } else {
        next_worker(worker_after(init, msgs.drop_last()), msgs.last())
    }
}

/// The index of the last `Worker` message of a run, if there is one.
pub open spec fn last_worker_index(msgs: Seq<MessageView>) -> Option<int>
    decreases msgs.len(),
{
    if msgs.len() == 0 {
        None
    } else if msgs.last() is Worker {
        Some(msgs.len() - 1)
    } else {
        last_worker_index(msgs.drop_last())
    }
}

/// After any run of messages, a session dials the address of the last
/// `Worker` message; before any, the placeholder it started with. No other
/// message moves it.
pub proof fn lemma_worker_is_last_named(init: SocketAddr, msgs: Seq<MessageView>)
    ensures
        match last_worker_index(msgs) {
            Some(i) => 0 <= i < msgs.len() && msgs[i] is Worker
                && (forall|j: int| i < j < msgs.len() ==> !(msgs[j] is Worker))
                && worker_after(init, msgs) == msgs[i]->Worker_0,
            None => (forall|j: int| 0 <= j < msgs.len() ==> !(msgs[j] is Worker))
                && worker_after(init, msgs) == init,
        },
    decreases msgs.len(),
{
    if msgs.len() > 0 {
        let prefix = msgs.drop_last();
        lemma_worker_is_last_named(init, prefix);
        assert forall|j: int| 0 <= j < prefix.len() implies prefix[j] == msgs[j] by {}
    }
}

/// How a master client handles a worker request, once it knows whether the
/// worker connection to the server and then the connection to the local
/// service could be opened.
#[derive(Clone, Copy, Debug, PartialEq, Eq)]
pub enum BridgePlan {
    /// The worker connection failed: report it; the local service is not
    /// dialled.
    Abandon,
    /// Both connections are open: relay between them.
    Relay,
    /// The local service is unreachable: answer the visitor with
    /// `client_unreachable_reply` over the worker connection.
    TurnAway,
}

/// The plan for a worker request. The local service is only dialled when the
/// worker connection succeeded, so `service_connected` matters only then.
pub fn bridge_plan(worker_connected: bool, service_connected: bool) -> (plan: BridgePlan)
    ensures
        !worker_connected ==> plan == BridgePlan::Abandon,
        worker_connected && service_connected ==> plan == BridgePlan::Relay,
        worker_connected && !service_connected ==> plan == BridgePlan::TurnAway,
{
    if !worker_connected {
        BridgePlan::Abandon
    } else if service_connected {
        BridgePlan::Relay
    } else {
        BridgePlan::TurnAway
    }
}

/// The bytes of an ASCII text.
pub open spec fn ascii_bytes(text: Seq<char>) -> Seq<u8> {
    text.map_values(|c: char| c as u8)
}

/// The bytes of an ASCII text are its characters' codes, one byte each.
pub proof fn lemma_ascii_bytes(text: Seq<char>)
    ensures
        ascii_bytes(text).len() == text.len(),
        forall|i: int| 0 <= i < text.len() ==> #[trigger] ascii_bytes(text)[i] == text[i] as u8,
{
}

/// The reply a visitor gets when the client cannot reach its local service.
pub fn client_unreachable_reply() -> (reply: &'static [u8])
    ensures
        reply@ == ascii_bytes("HTTP/1.1 555 Client Connect Failed"@),
{
    let text = "HTTP/1.1 555 Client Connect Failed";
    proof {
        reveal_strlit("HTTP/1.1 555 Client Connect Failed");
        broadcast use vstd::string::is_ascii_spec_bytes;
        assert(vstd::string::is_ascii(text));
    }
    let reply = text.as_bytes();
    assert(reply@ =~= ascii_bytes(text@));
    reply
}

} // verus!
