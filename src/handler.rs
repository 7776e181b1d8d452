//! The decisions of the connection handler: one inbound frame per connection,
//! answered by an echo when it carries a broadcast proposal.
//!
//! The handler is a state machine. The caller performs each action on the
//! socket or the codec and hands the outcome back as the next event.
use vstd::prelude::*;
use crate::digest::{blake3_of, digest};
use crate::frame::{be_value, body_length, HEADER_LEN, MAX_FRAME_LEN};
use crate::network::Msg;

verus! {

/// Why a connection was abandoned.
#[derive(Debug, Clone, Copy, PartialEq, Eq, Structural)]
pub enum ConnectionError {
    /// The peer closed before the frame was complete.
    ShortRead,
    /// The frame announced a body longer than `MAX_FRAME_LEN`.
    FrameTooLarge,
    /// The body is no message.
    MalformedMessage,
    /// Writing the reply failed.
    WriteFailed,
}

/// Where a connection stands.
#[derive(Debug, Clone, Copy, PartialEq, Eq, Structural)]
pub enum HandlerState {
    /// Waiting for the four header bytes.
    AwaitHeader,
    /// Waiting for the body that the header announced.
    AwaitBody,
    /// Waiting for the body to be decoded.
    AwaitMessage,
    /// Waiting for the echo to be written.
    AwaitReplyWritten,
    /// Done with the connection.
    Closed,
}

/// What the caller observed after the last action.
#[derive(Debug, Clone)]
pub enum HandlerEvent {
    /// The four header bytes were read.
    HeaderRead { header: [u8; 4] },
    /// The body was read in full.
    BodyRead { body: Vec<u8> },
    /// The body decoded to a message.
    Decoded { msg: Msg },
    /// The peer closed, or the read failed, before the bytes asked for came.
    ReadFailed,
    /// The body decoded to no message.
    DecodeFailed,
    /// The reply frame was written in full.
    ReplyWritten,
    /// Writing the reply frame failed.
    WriteFailed,
}

/// What the caller is to do next.
#[derive(Debug)]
pub enum HandlerAction {
    /// Read exactly `len` bytes from the socket.
    ReadExact { len: usize },
    /// Decode `body` as a message.
    Decode { body: Vec<u8> },
    /// Encode `msg`, frame it and write the frame back on the same socket.
    Reply { msg: Msg },
    /// Stop handling the connection, with this result.
    Close { result: Result<(), ConnectionError> },
}

/// `r` is the reply that `m` calls for: an echo of the round and the payload's
/// digest for a broadcast proposal, and nothing for every other message.
pub open spec fn answers(m: Msg, r: Option<Msg>) -> bool {
    match m {
        Msg::RbcSend { round, payload } => r matches Some(Msg::RbcEcho { round: er, hash })
            && er == round && hash@ == blake3_of(payload@),
        _ => r is None,
    }
}

/// The events that the caller can observe in a state.
pub open spec fn expects(s: HandlerState, e: HandlerEvent) -> bool {
    match s {
        HandlerState::AwaitHeader => e is HeaderRead || e is ReadFailed,
        HandlerState::AwaitBody => e is BodyRead || e is ReadFailed,
        HandlerState::AwaitMessage => e is Decoded || e is DecodeFailed,
        HandlerState::AwaitReplyWritten => e is ReplyWritten || e is WriteFailed,
        HandlerState::Closed => false,
    }
}

/// The step from `s` on `e` leads to `s2` with the action `a`.
pub open spec fn handler_transition(
    s: HandlerState,
    e: HandlerEvent,
    s2: HandlerState,
    a: HandlerAction,
) -> bool {
    match e {
        HandlerEvent::HeaderRead { header } => if be_value(header@) as int > MAX_FRAME_LEN {
            s2 == HandlerState::Closed && a == (HandlerAction::Close {
                result: Err(ConnectionError::FrameTooLarge),
            })
        } else {
            s2 == HandlerState::AwaitBody && a == (HandlerAction::ReadExact {
                len: be_value(header@) as usize,
            })
        },
        HandlerEvent::BodyRead { body } => s2 == HandlerState::AwaitMessage && a == (
        HandlerAction::Decode { body }),
        HandlerEvent::Decoded { msg } => match a {
            HandlerAction::Reply { msg: reply } => s2 == HandlerState::AwaitReplyWritten
                && answers(msg, Some(reply)),
            HandlerAction::Close { result } => s2 == HandlerState::Closed && result == Ok::<
                (),
                ConnectionError,
            >(()) && answers(msg, None),
            _ => false,
        },
        HandlerEvent::ReadFailed => s2 == HandlerState::Closed && a == (HandlerAction::Close {
            result: Err(ConnectionError::ShortRead),
        }),
        HandlerEvent::DecodeFailed => s2 == HandlerState::Closed && a == (HandlerAction::Close {
            result: Err(ConnectionError::MalformedMessage),
        }),
        HandlerEvent::ReplyWritten => s2 == HandlerState::Closed && a == (HandlerAction::Close {
            result: Ok(()),
        }),
        HandlerEvent::WriteFailed => s2 == HandlerState::Closed && a == (HandlerAction::Close {
            result: Err(ConnectionError::WriteFailed),
        }),
    }
}

/// The reply that a message calls for.
pub fn reply_to(msg: &Msg) -> (r: Option<Msg>)
    ensures
        answers(*msg, r),
{
    match msg {
        Msg::RbcSend { round, payload } => {
            let hash = digest(payload);
            Some(Msg::RbcEcho { round: *round, hash })
        },
        _ => None,
    }
}

/// A new connection: read the header first.
pub fn handler_start() -> (r: (HandlerState, HandlerAction))
    ensures
        r.0 == HandlerState::AwaitHeader,
        r.1 == (HandlerAction::ReadExact { len: HEADER_LEN }),
{
    (HandlerState::AwaitHeader, HandlerAction::ReadExact { len: HEADER_LEN })
}

/// One step of the handler: from the state and what the caller observed, the
/// next state and what the caller is to do.
pub fn handler_step(state: HandlerState, event: HandlerEvent) -> (r: (HandlerState, HandlerAction))
    requires
        expects(state, event),
    ensures
        handler_transition(state, event, r.0, r.1),
{
    match event {
        HandlerEvent::HeaderRead { header } => match body_length(header) {
            Ok(len) => (HandlerState::AwaitBody, HandlerAction::ReadExact { len }),
            Err(_) => (
                HandlerState::Closed,
                HandlerAction::Close { result: Err(ConnectionError::FrameTooLarge) },
            ),
        },
        HandlerEvent::BodyRead { body } => (HandlerState::AwaitMessage, HandlerAction::Decode { body }),
        HandlerEvent::Decoded { msg } => match reply_to(&msg) {
            Some(reply) => (HandlerState::AwaitReplyWritten, HandlerAction::Reply { msg: reply }),
            None => (HandlerState::Closed, HandlerAction::Close { result: Ok(()) }),
        },
        HandlerEvent::ReadFailed => (
            HandlerState::Closed,
            HandlerAction::Close { result: Err(ConnectionError::ShortRead) },
        ),
        HandlerEvent::DecodeFailed => (
            HandlerState::Closed,
            HandlerAction::Close { result: Err(ConnectionError::MalformedMessage) },
        ),
        HandlerEvent::ReplyWritten => (HandlerState::Closed, HandlerAction::Close { result: Ok(()) }),
        HandlerEvent::WriteFailed => (
            HandlerState::Closed,
            HandlerAction::Close { result: Err(ConnectionError::WriteFailed) },
        ),
    }
}

} // verus!
