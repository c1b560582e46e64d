use vstd::prelude::*;

use crate::addr::SocketAddr;

verus! {

/// A message of the control protocol between server and master client.
///
/// On the wire each message is one line of JSON, `{"type":..,"value":..}`,
/// ended by a newline.
#[derive(Debug)]
pub enum Message {
    /// The server has a visitor waiting: open a worker connection.
    New,
    /// Heartbeat from the server.
    Ping,
    /// Heartbeat from the client.
    Pong,
    /// Text for the client to print.
    Msg(String),
    /// The peer refuses the session; the text says why.
    Error(String),
    /// First message of a master client, carrying the shared secret.
    Master(String),
    /// The address where the server listens for worker connections.
    Worker(SocketAddr),
}

/// A message as the contracts see it: texts as character sequences.
pub enum MessageView {
    New,
    Ping,
    Pong,
    Msg(Seq<char>),
    Error(Seq<char>),
    Master(Seq<char>),
    Worker(SocketAddr),
}

impl View for Message {
    type V = MessageView;

    open spec fn view(&self) -> MessageView {
        match self {
            Message::New => MessageView::New,
            Message::Ping => MessageView::Ping,
            Message::Pong => MessageView::Pong,
            Message::Msg(s) => MessageView::Msg(s@),
            Message::Error(s) => MessageView::Error(s@),
            Message::Master(s) => MessageView::Master(s@),
            Message::Worker(a) => MessageView::Worker(*a),
        }
    }
}

/// The byte that ends every message on the wire.
pub const LINE_END: u8 = 10u8;

/// The bytes sent for one message: its encoding followed by a newline.
pub open spec fn framed(payload: Seq<u8>) -> Seq<u8> {
    payload.push(LINE_END)
}

/// Ends an encoded message with the newline that delimits it on the wire.
pub fn frame_line(payload: Vec<u8>) -> (line: Vec<u8>)
    ensures
        line@ == framed(payload@),
{
    let mut line = payload;
    line.push(LINE_END);
    line
}

/// Whether a reader keeps going after a read of `n` bytes: only a read of
/// more than one byte does; end of stream (0) and a lone byte, such as an
/// empty line, end the session.
pub fn keeps_reading(n: usize) -> (more: bool)
    ensures
        more == (n > 1),
{
    n > 1
}

/// What a client's reader does with one line from the server.
#[derive(Debug)]
pub enum LineStep {
    /// The read failed, hit end of stream or gave a single byte: stop
    /// reading; the connection is over.
    Stop,
    /// The line did not parse as a message: report it and read on.
    Skip,
    /// Hand this message to the session and read on.
    Deliver(Message),
}

/// The step for one line read from the server: `read` is the byte count of
/// the line (`None` for a failed read), `parsed` the message it holds, or
/// `None` when it did not parse (only looked at when reading goes on).
pub fn on_line(read: Option<usize>, parsed: Option<Message>) -> (step: LineStep)
    ensures
        !(read matches Some(n) && n > 1) ==> step is Stop,
        (read matches Some(n) && n > 1) && parsed is None ==> step is Skip,
        (read matches Some(n) && n > 1) && parsed is Some ==> (step matches LineStep::Deliver(m) && m@ == parsed->0@),
{
    match read {
        Some(n) => if keeps_reading(n) {
            match parsed {
                Some(m) => LineStep::Deliver(m),
                None => LineStep::Skip,
            }
        } else {
            LineStep::Stop
        },
        None => LineStep::Stop,
    }
}

/// A frame is the payload, byte for byte, followed by one newline (byte 10).
pub proof fn lemma_frame_appends_newline(payload: Seq<u8>)
    ensures
        framed(payload).len() == payload.len() + 1,
        framed(payload)[payload.len() as int] == 10u8,
        forall|i: int| 0 <= i < payload.len() ==> #[trigger] framed(payload)[i] == payload[i],
        framed(payload) == payload + seq![10u8],
{
    assert(framed(payload) =~= payload + seq![10u8]);
}

/// A frame of a payload without newlines holds exactly one newline, at its
/// end, so a line reader gives back the frame whole; and it is longer than
/// one byte, so the reader goes on, unless the payload is empty.
pub proof fn lemma_frame_is_one_line(payload: Seq<u8>)
    requires
        forall|i: int| 0 <= i < payload.len() ==> payload[i] != LINE_END,
    ensures
        framed(payload).len() == payload.len() + 1,
        framed(payload).last() == LINE_END,
        forall|i: int| 0 <= i < payload.len() ==> framed(payload)[i] != LINE_END,
        framed(payload).drop_last() == payload,
        (framed(payload).len() > 1) == (payload.len() > 0),
{
    assert(framed(payload).drop_last() =~= payload);
}

/// The message a client writes to the server each heartbeat period.
pub fn client_heartbeat() -> (msg: Message)
    ensures
        msg@ == MessageView::Pong,
{
    Message::Pong
}

} // verus!
