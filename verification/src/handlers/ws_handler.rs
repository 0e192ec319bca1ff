//! What a live WebSocket connection does with each incoming frame.

use vstd::prelude::*;

verus! {

/// An incoming frame, reduced to what the connection acts on.
#[derive(Debug)]
pub enum WsEvent {
    /// A ping with its payload.
    Ping(Vec<u8>),
    /// The peer closes the connection.
    Close,
    /// Text, binary or any other frame.
    Other,
}

/// What the connection does in response.
#[derive(Debug)]
pub enum WsAction {
    /// Answer with a pong carrying the same payload.
    Pong(Vec<u8>),
    /// Close the session (with the peer's reason) and stop reading.
    CloseAndStop,
    /// Nothing; keep reading.
    Ignore,
}

/// The response to an incoming frame.
pub fn ws_action(event: WsEvent) -> (r: WsAction)
    ensures
        match event {
            WsEvent::Ping(p) => r matches WsAction::Pong(q) && q@ == p@,
            WsEvent::Close => r is CloseAndStop,
            WsEvent::Other => r is Ignore,
        },
{
    match event {
        WsEvent::Ping(p) => WsAction::Pong(p),
        WsEvent::Close => WsAction::CloseAndStop,
        WsEvent::Other => WsAction::Ignore,
    }
}

/// The user a WebSocket upgrade belongs to; an unauthenticated request is
/// refused with 401 and this message.
pub fn ws_user(user_id: Option<u128>) -> (r: Result<u128, &'static str>)
    ensures
        match user_id {
            Some(id) => r == Ok::<u128, &'static str>(id),
            None => r matches Err(m) && m@ == "Unauthorized access"@,
        },
{
    match user_id {
        Some(id) => Ok(id),
        None => Err("Unauthorized access"),
    }
}

} // verus!
