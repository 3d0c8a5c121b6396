use vstd::prelude::*;

use crate::errors::CliError;
use crate::reply::{decode_reply, reply_decodes, reply_text};

verus! {

/// The phases of one request/reply exchange.  The two terminal phases carry
/// the outcome: the daemon's reply text, or the error to report.
#[derive(Debug)]
pub enum SessionState {
    Disconnected,
    Connecting,
    Connected,
    AwaitingReply,
    Replied(String),
    Failed(CliError),
}

/// A completion event handed back by the transport that performs the actual
/// socket work.  Failure events carry the transport's own description.
#[derive(Debug)]
pub enum TransportEvent {
    ConnectSucceeded,
    ConnectFailed(String),
    SendSucceeded,
    SendFailed(String),
    ReplyArrived(Vec<Vec<u8>>),
    ReceiveFailed(String),
    ReceiveTimedOut(String),
}

/// Which completion events can reach which phases: connect outcomes while
/// connecting, send outcomes while connected, receive outcomes while a reply
/// is awaited, and nothing once a terminal phase is reached.
pub open spec fn event_fits(state: SessionState, event: TransportEvent) -> bool {
    match (state, event) {
        (SessionState::Connecting, TransportEvent::ConnectSucceeded) => true,
        (SessionState::Connecting, TransportEvent::ConnectFailed(_)) => true,
        (SessionState::Connected, TransportEvent::SendSucceeded) => true,
        (SessionState::Connected, TransportEvent::SendFailed(_)) => true,
        (SessionState::AwaitingReply, TransportEvent::ReplyArrived(_)) => true,
        (SessionState::AwaitingReply, TransportEvent::ReceiveFailed(_)) => true,
        (SessionState::AwaitingReply, TransportEvent::ReceiveTimedOut(_)) => true,
        _ => false,
    }
}

/// The phases in which the exchange is over and only reporting remains.
pub open spec fn is_terminal(state: SessionState) -> bool {
    state is Replied || state is Failed
}

/// One request/reply session.  It owns its request line and the daemon's
/// address for its entire lifetime and walks the machine Disconnected,
/// Connecting, Connected, AwaitingReply, then Replied or Failed: exactly one
/// connect attempt, one send and one receive, with no retry transition.
/// The address is explicit configuration handed over at construction, not a
/// hidden global of the library.
pub struct Session {
    pub state: SessionState,
    pub request: String,
    pub address: String,
}

impl Session {
    /// A fresh session for one request line and one daemon address, not yet
    /// connected.
    pub fn new(request: String, address: String) -> (s: Session)
        ensures
            s.state is Disconnected,
            s.request == request,
            s.address == address,
    {
        Session { state: SessionState::Disconnected, request, address }
    }

    /// Begins the exchange: the single connect attempt is now in flight.
    pub fn begin(&mut self)
        requires
            old(self).state is Disconnected,
        ensures
            final(self).state is Connecting,
            final(self).request == old(self).request,
            final(self).address == old(self).address,
    {
        self.state = SessionState::Connecting;
    }

    /// Advances the machine on a transport completion event.  A connect or
    /// send failure fails the session immediately as a `Transport` error
    /// rather than deferring to the blocking receive; expiry of the receive
    /// time bound fails it as a distinct `Timeout` error; a reply envelope
    /// is decoded on the spot, ending in `Replied` with its text or in
    /// `Failed` with a `Decoding` error.
    pub fn step(&mut self, event: TransportEvent)
        requires
            event_fits(old(self).state, event),
        ensures
            final(self).request == old(self).request,
            final(self).address == old(self).address,
            match (old(self).state, event) {
                (SessionState::Connecting, TransportEvent::ConnectSucceeded) => final(
                    self
                ).state is Connected,
                (SessionState::Connecting, TransportEvent::ConnectFailed(d)) => final(self).state
                    == SessionState::Failed(CliError::Transport(d)),
                (SessionState::Connected, TransportEvent::SendSucceeded) => final(
                    self
                ).state is AwaitingReply,
                (SessionState::Connected, TransportEvent::SendFailed(d)) => final(self).state
                    == SessionState::Failed(CliError::Transport(d)),
                (SessionState::AwaitingReply, TransportEvent::ReceiveFailed(d)) => final(self).state
                    == SessionState::Failed(CliError::Transport(d)),
                (SessionState::AwaitingReply, TransportEvent::ReceiveTimedOut(d)) => final(
                    self
                ).state == SessionState::Failed(CliError::Timeout(d)),
                (SessionState::AwaitingReply, TransportEvent::ReplyArrived(frames)) => {
                    if reply_decodes(frames.deep_view()) {
                        final(self).state matches SessionState::Replied(s) && s@ == reply_text(
                            frames.deep_view(),
                        )
                    } else {
                        final(self).state matches SessionState::Failed(e) && (
                        e matches CliError::Decoding(d) && d@ == "reply frame is not valid UTF-8"@)
                    }
                },
                _ => false,
            },
    {
        match event {
            TransportEvent::ConnectSucceeded => {
                self.state = SessionState::Connected;
            },
            TransportEvent::ConnectFailed(d) => {
                self.state = SessionState::Failed(CliError::Transport(d));
            },
            TransportEvent::SendSucceeded => {
                self.state = SessionState::AwaitingReply;
            },
            TransportEvent::SendFailed(d) => {
                self.state = SessionState::Failed(CliError::Transport(d));
            },
            TransportEvent::ReplyArrived(frames) => {
                match decode_reply(&frames) {
                    Ok(s) => {
                        self.state = SessionState::Replied(s);
                    },
                    Err(e) => {
                        self.state = SessionState::Failed(e);
                    },
                }
            },
            TransportEvent::ReceiveFailed(d) => {
                self.state = SessionState::Failed(CliError::Transport(d));
            },
            TransportEvent::ReceiveTimedOut(d) => {
                self.state = SessionState::Failed(CliError::Timeout(d));
            },
        }
    }
}

/// Law: there is no retry transition.  Once the session has replied or
/// failed, no transport event fits it any more, so the machine can never
/// leave a terminal phase.
pub proof fn lemma_no_retry_from_terminal(state: SessionState, event: TransportEvent)
    requires
        is_terminal(state),
    ensures
        !event_fits(state, event),
{
}

} // verus!
