//! The per-socket connection actor: owns one socket's `Open -> Closing ->
//! Terminated` lifecycle, answers keepalives, discards inbound text, asks for
//! deregistration on close or transport error, and renders outbound log
//! notifications into the single human-readable text frame the dashboard
//! parses. The socket itself lives with the runtime; the actor records every
//! frame it has written in its outbox, in order.

use vstd::prelude::*;
use vstd::string::StringExecFns;

use crate::scope::TenantScope;
use crate::text::{oid_hex, push_hex_digits};

verus! {

/// The push message telling a connection that log `log_id` for application
/// `app_id` now exists; carries no log content.
#[derive(Clone, Copy, PartialEq, Eq, Structural, Debug)]
pub struct SendLogId {
    pub log_id: u128,
    pub app_id: u128,
}

/// The lifecycle of one connection.
#[derive(Clone, Copy, PartialEq, Eq, Structural, Debug)]
pub enum ConnectionState {
    /// The socket is up; the handle is addressable.
    Open,
    /// A close frame or transport error arrived; deregistration is under way.
    Closing,
    /// The socket is torn down; the handle is no longer addressable.
    Terminated,
}

/// One inbound event on the socket, as the transport hands it over.
#[derive(PartialEq, Eq, Debug)]
pub enum InboundFrame {
    /// A keepalive ping with its payload.
    Ping(Vec<u8>),
    /// A pong answering one of ours.
    Pong,
    /// A text frame from the client; there is no client-to-server protocol
    /// beyond keepalive, so it is accepted and discarded.
    Text(String),
    /// The client closed the connection.
    Close,
    /// A protocol violation or abrupt disconnect on this socket.
    Error,
}

/// What the runtime must do after the actor has handled an inbound frame.
#[derive(PartialEq, Eq, Debug)]
pub enum FrameAction {
    /// Answer the keepalive with a pong carrying the same payload.
    Pong(Vec<u8>),
    /// Nothing: the frame was accepted and discarded.
    Ignore,
    /// Deregister this connection id from the shared registry the actor was
    /// registered with, then stop the socket.
    Deregister,
}

/// The text frame pushed for a notification: the log id and application id
/// in the store's 24-digit hex form, in one fixed sentence.
pub open spec fn notification_text(log_id: u128, app_id: u128) -> Seq<char> {
    "New log ID: "@ + oid_hex(log_id) + " and App ID: "@ + oid_hex(app_id)
}

/// One live dashboard connection, bound at construction to the tenant scope
/// the credential check resolved, and named by a caller-generated id that
/// the registry compares by value.
#[derive(Debug)]
pub struct WebSocketActor {
    pub scope: TenantScope,
    pub conn_id: u64,
    pub state: ConnectionState,
    /// Every frame written to the socket, oldest first.
    pub outbox: Vec<String>,
}

impl WebSocketActor {
    /// A fresh actor for one accepted socket; the caller registers
    /// `conn_id` under `scope` with the shared registry it will later hand
    /// every `Deregister` action to.
    pub fn new(scope: TenantScope, conn_id: u64) -> (actor: WebSocketActor)
        ensures
            actor.scope == scope,
            actor.conn_id == conn_id,
            actor.state == ConnectionState::Open,
            actor.outbox@ == Seq::<String>::empty(),
    {
        WebSocketActor { scope, conn_id, state: ConnectionState::Open, outbox: Vec::new() }
    }

    /// Pushes one notification: renders the fixed text frame and writes it to
    /// the socket. Fire and forget: nothing is awaited and no acknowledgement
    /// is solicited.
    pub fn handle(&mut self, msg: SendLogId)
        ensures
            final (self).outbox@.len() == old(self).outbox@.len() + 1,
            final (self).outbox@.drop_last() == old(self).outbox@,
            final (self).outbox@.last()@ == notification_text(msg.log_id, msg.app_id),
            final (self).scope == old(self).scope,
            final (self).conn_id == old(self).conn_id,
            final (self).state == old(self).state,
    {
        let frame = render_notification(msg);
        self.outbox.push(frame);
    }

    /// Reacts to one inbound frame: a ping is answered with a pong, a pong or
    /// text frame is discarded, and a close frame or transport error moves the
    /// connection to `Closing` and asks the runtime to deregister it from the
    /// same registry instance it was registered with.
    pub fn handle_frame(&mut self, msg: InboundFrame) -> (action: FrameAction)
        ensures
            final (self).scope == old(self).scope,
            final (self).conn_id == old(self).conn_id,
            final (self).outbox == old(self).outbox,
            match msg {
                InboundFrame::Ping(p) => action == FrameAction::Pong(p) && final (self).state
                    == old(self).state,
                InboundFrame::Pong => action == FrameAction::Ignore && final (self).state == old(
                    self,
                ).state,
                InboundFrame::Text(_) => action == FrameAction::Ignore && final (self).state
                    == old(self).state,
                InboundFrame::Close => action == FrameAction::Deregister && final (self).state
                    == ConnectionState::Closing,
                InboundFrame::Error => action == FrameAction::Deregister && final (self).state
                    == ConnectionState::Closing,
            },
    {
        match msg {
            InboundFrame::Ping(p) => FrameAction::Pong(p),
            InboundFrame::Pong => FrameAction::Ignore,
            InboundFrame::Text(_) => FrameAction::Ignore,
            InboundFrame::Close => {
                self.state = ConnectionState::Closing;
                FrameAction::Deregister
            },
            InboundFrame::Error => {
                self.state = ConnectionState::Closing;
                FrameAction::Deregister
            },
        }
    }

    /// The socket is torn down; the handle is no longer addressable.
    pub fn terminate(&mut self)
        ensures
            final (self).scope == old(self).scope,
            final (self).conn_id == old(self).conn_id,
            final (self).outbox == old(self).outbox,
            final (self).state == ConnectionState::Terminated,
    {
        self.state = ConnectionState::Terminated;
    }
}

/// Renders the fixed notification frame for a push message.
pub fn render_notification(msg: SendLogId) -> (r: String)
    ensures
        r@ == notification_text(msg.log_id, msg.app_id),
{
    let mut s = String::new();
    s.append("New log ID: ");
    push_hex_digits(&mut s, msg.log_id, 24);
    s.append(" and App ID: ");
    push_hex_digits(&mut s, msg.app_id, 24);
    proof {
        assert(s@ =~= notification_text(msg.log_id, msg.app_id));
    }
    s
}

} // verus!
