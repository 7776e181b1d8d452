//! The decisions of the sender: one fresh connection per message, one framed
//! request, and at most one reply read back.
//!
//! The sender is a state machine. The caller performs each action on the
//! socket or the codec and hands the outcome back as the next event.
use vstd::prelude::*;
use crate::frame::{be_value, body_length, frame, framed, HEADER_LEN, MAX_FRAME_LEN};
use crate::network::Msg;

verus! {

/// Why a send failed.
#[derive(Debug, Clone, Copy, PartialEq, Eq, Structural)]
pub enum SendError {
    /// The peer could not be reached.
    ConnectFailed,
    /// The request, or the reply's header, is over `MAX_FRAME_LEN`.
    FrameTooLarge,
    /// Writing the request failed.
    WriteFailed,
    /// The peer closed in the middle of its reply.
    ShortRead,
    /// The reply's body is no message.
    MalformedMessage,
}

/// What came back from the peer.
#[derive(Debug)]
pub enum Reply {
    /// The peer closed without replying: a success.
    NoReply,
    /// The peer echoed a round and a digest.
    Echo { round: u64, hash: [u8; 32] },
    /// The peer replied with some other message.
    Unexpected { msg: Msg },
}

/// Where a send stands.
#[derive(Debug)]
pub enum SenderState {
    /// Connecting, with the encoded request still to send.
    Connecting { request: Vec<u8> },
    /// Waiting for the request frame to be written.
    AwaitWritten,
    /// Waiting for the four header bytes of a reply, if one comes.
    AwaitReplyHeader,
    /// Waiting for the body that the reply's header announced.
    AwaitReplyBody,
    /// Waiting for the reply's body to be decoded.
    AwaitReplyMessage,
    /// The send is over.
    Done,
}

/// What the caller observed after the last action.
#[derive(Debug)]
pub enum SenderEvent {
    /// The connection to the peer is open.
    Connected,
    /// The peer could not be reached.
    ConnectFailed,
    /// The request frame was written in full.
    Written,
    /// Writing the request frame failed.
    WriteFailed,
    /// The four header bytes of a reply were read.
    HeaderRead { header: [u8; 4] },
    /// The peer closed, or the read failed, before the bytes asked for came.
    ReadFailed,
    /// The reply's body was read in full.
    BodyRead { body: Vec<u8> },
    /// The reply's body decoded to a message.
    Decoded { msg: Msg },
    /// The reply's body decoded to no message.
    DecodeFailed,
}

/// What the caller is to do next.
#[derive(Debug)]
pub enum SenderAction {
    /// Open a new connection to the peer.
    Connect,
    /// Write all of `bytes` to the connection.
    WriteAll { bytes: Vec<u8> },
    /// Read exactly `len` bytes from the connection.
    ReadExact { len: usize },
    /// Decode `body` as a message.
    Decode { body: Vec<u8> },
    /// Close the connection: the send is over, with this result.
    Finish { result: Result<Reply, SendError> },
}

/// What a decoded reply tells the sender.
pub open spec fn reply_of(m: Msg) -> Reply {
    match m {
        Msg::RbcEcho { round, hash } => Reply::Echo { round, hash },
        _ => Reply::Unexpected { msg: m },
    }
}

/// The events that the caller can observe in a state.
pub open spec fn sender_expects(s: SenderState, e: SenderEvent) -> bool {
    match s {
        SenderState::Connecting { .. } => e is Connected || e is ConnectFailed,
        SenderState::AwaitWritten => e is Written || e is WriteFailed,
        SenderState::AwaitReplyHeader => e is HeaderRead || e is ReadFailed,
        SenderState::AwaitReplyBody => e is BodyRead || e is ReadFailed,
        SenderState::AwaitReplyMessage => e is Decoded || e is DecodeFailed,
        SenderState::Done => false,
    }
}

/// The step from `s` on `e` leads to `s2` with the action `a`.
pub open spec fn sender_transition(
    s: SenderState,
    e: SenderEvent,
    s2: SenderState,
    a: SenderAction,
) -> bool {
    match (s, e) {
        (SenderState::Connecting { request }, SenderEvent::Connected) => if request.len()
            <= MAX_FRAME_LEN {
            s2 == SenderState::AwaitWritten && (a matches SenderAction::WriteAll { bytes }
                && bytes@ == framed(request@))
        } else {
            s2 == SenderState::Done && a == (SenderAction::Finish {
                result: Err(SendError::FrameTooLarge),
            })
        },
        (_, SenderEvent::ConnectFailed) => s2 == SenderState::Done && a == (SenderAction::Finish {
            result: Err(SendError::ConnectFailed),
        }),
        (_, SenderEvent::Written) => s2 == SenderState::AwaitReplyHeader && a == (
        SenderAction::ReadExact { len: HEADER_LEN }),
        (_, SenderEvent::WriteFailed) => s2 == SenderState::Done && a == (SenderAction::Finish {
            result: Err(SendError::WriteFailed),
        }),
        (_, SenderEvent::HeaderRead { header }) => if be_value(header@) as int > MAX_FRAME_LEN {
            s2 == SenderState::Done && a == (SenderAction::Finish {
                result: Err(SendError::FrameTooLarge),
            })
        } else {
            s2 == SenderState::AwaitReplyBody && a == (SenderAction::ReadExact {
                len: be_value(header@) as usize,
            })
        },
        (SenderState::AwaitReplyHeader, SenderEvent::ReadFailed) => s2 == SenderState::Done && a
            == (SenderAction::Finish { result: Ok(Reply::NoReply) }),
        (_, SenderEvent::ReadFailed) => s2 == SenderState::Done && a == (SenderAction::Finish {
            result: Err(SendError::ShortRead),
        }),
        (_, SenderEvent::BodyRead { body }) => s2 == SenderState::AwaitReplyMessage && a == (
        SenderAction::Decode { body }),
        (_, SenderEvent::Decoded { msg }) => s2 == SenderState::Done && a == (
        SenderAction::Finish { result: Ok(reply_of(msg)) }),
        (_, SenderEvent::DecodeFailed) => s2 == SenderState::Done && a == (SenderAction::Finish {
            result: Err(SendError::MalformedMessage),
        }),
        _ => false,
    }
}

/// A new send of the encoded message `request`: connect first.
pub fn sender_start(request: Vec<u8>) -> (r: (SenderState, SenderAction))
    ensures
        r.0 == (SenderState::Connecting { request }),
        r.1 == SenderAction::Connect,
{
    (SenderState::Connecting { request }, SenderAction::Connect)
}

/// What a decoded reply tells the sender.
pub fn classify_reply(msg: Msg) -> (r: Reply)
    ensures
        r == reply_of(msg),
{
    match msg {
        Msg::RbcEcho { round, hash } => Reply::Echo { round, hash },
        _ => Reply::Unexpected { msg },
    }
}

/// One step of the sender: from the state and what the caller observed, the
/// next state and what the caller is to do.
pub fn sender_step(state: SenderState, event: SenderEvent) -> (r: (SenderState, SenderAction))
    requires
        sender_expects(state, event),
    ensures
        sender_transition(state, event, r.0, r.1),
{
    match event {
        SenderEvent::Connected => match state {
            SenderState::Connecting { request } => match frame(&request) {
                Ok(bytes) => (SenderState::AwaitWritten, SenderAction::WriteAll { bytes }),
                Err(_) => (
                    SenderState::Done,
                    SenderAction::Finish { result: Err(SendError::FrameTooLarge) },
                ),
            },
            _ => (SenderState::Done, SenderAction::Finish { result: Err(SendError::ConnectFailed) }),
        },
        SenderEvent::ConnectFailed => (
            SenderState::Done,
            SenderAction::Finish { result: Err(SendError::ConnectFailed) },
        ),
        SenderEvent::Written => (
            SenderState::AwaitReplyHeader,
            SenderAction::ReadExact { len: HEADER_LEN },
        ),
        SenderEvent::WriteFailed => (
            SenderState::Done,
            SenderAction::Finish { result: Err(SendError::WriteFailed) },
        ),
        SenderEvent::HeaderRead { header } => match body_length(header) {
            Ok(len) => (SenderState::AwaitReplyBody, SenderAction::ReadExact { len }),
            Err(_) => (
                SenderState::Done,
                SenderAction::Finish { result: Err(SendError::FrameTooLarge) },
            ),
        },
        SenderEvent::ReadFailed => match state {
            SenderState::AwaitReplyHeader => (
                SenderState::Done,
                SenderAction::Finish { result: Ok(Reply::NoReply) },
            ),
            _ => (SenderState::Done, SenderAction::Finish { result: Err(SendError::ShortRead) }),
        },
        SenderEvent::BodyRead { body } => (
            SenderState::AwaitReplyMessage,
            SenderAction::Decode { body },
        ),
        SenderEvent::Decoded { msg } => (
            SenderState::Done,
            SenderAction::Finish { result: Ok(classify_reply(msg)) },
        ),
        SenderEvent::DecodeFailed => (
            SenderState::Done,
            SenderAction::Finish { result: Err(SendError::MalformedMessage) },
        ),
    }
}

} // verus!
