//! The echo protocol of the Agora WebSocket server: what the server answers
//! to each frame a client sends. The socket itself is the caller's.

use vstd::prelude::*;

verus! {

/// What the server received from the socket.
#[derive(Debug)]
pub enum Incoming {
    /// A text frame.
    Text(String),
    /// A binary frame.
    Binary(Vec<u8>),
    /// A ping carrying `data`.
    Ping(Vec<u8>),
    /// A pong.
    Pong(Vec<u8>),
    /// The client closed the connection.
    Close,
    /// Reading from the socket failed.
    Error,
}

/// A frame the server sends back.
#[derive(Debug)]
pub enum Outgoing {
    /// A text frame.
    Text(String),
    /// A pong carrying the ping's data.
    Pong(Vec<u8>),
}

/// What the server does next.
#[derive(Debug)]
pub enum EchoAction {
    /// Send this frame, then read on (stop if sending fails).
    Send(Outgoing),
    /// Read on.
    Ignore,
    /// End the connection.
    Stop,
}

/// The server's answer to one frame: a text frame is echoed back prefixed
/// with `Echo: `; a ping is answered with a pong carrying the same data; a
/// close or a read error ends the connection; anything else is ignored.
pub fn echo_step(msg: Incoming) -> (r: EchoAction)
    ensures
        match msg {
            Incoming::Text(t) => r matches EchoAction::Send(Outgoing::Text(s)) && s@ == "Echo: "@ + t@,
            Incoming::Ping(d) => r matches EchoAction::Send(Outgoing::Pong(p)) && p@ == d@,
            Incoming::Close => r is Stop,
            Incoming::Error => r is Stop,
            _ => r is Ignore,
        },
{
    match msg {
        Incoming::Text(t) => {
            let mut s = String::from_str("Echo: ");
            s.append(t.as_str());
            EchoAction::Send(Outgoing::Text(s))
        },
        Incoming::Ping(d) => EchoAction::Send(Outgoing::Pong(d)),
        Incoming::Close => EchoAction::Stop,
        Incoming::Error => EchoAction::Stop,
        _ => EchoAction::Ignore,
    }
}

} // verus!
