//! Laws of the send/echo handshake, stated over the handler's and the
//! sender's transitions.
use vstd::prelude::*;
use crate::digest::blake3_of;
use crate::frame::{be_value, framed, lemma_be_bytes_value, MAX_FRAME_LEN};
use crate::handler::{answers, handler_transition, ConnectionError, HandlerAction, HandlerEvent, HandlerState};
use crate::network::Msg;
use crate::sender::{sender_transition, Reply, SenderAction, SenderEvent, SenderState};

verus! {

/// A proposal for round `round` with payload `payload` is answered by the
/// handler with an echo of that round and the payload's digest, and the sender
/// that decodes this reply finishes with exactly that echo.
pub proof fn lemma_echo_correct(
    round: u64,
    payload: Vec<u8>,
    hs: HandlerState,
    ha: HandlerAction,
    ss: SenderState,
    sa: SenderAction,
)
    requires
        handler_transition(
            HandlerState::AwaitMessage,
            HandlerEvent::Decoded { msg: Msg::RbcSend { round, payload } },
            hs,
            ha,
        ),
        ha matches HandlerAction::Reply { msg } ==> sender_transition(
            SenderState::AwaitReplyMessage,
            SenderEvent::Decoded { msg },
            ss,
            sa,
        ),
    ensures
        hs == HandlerState::AwaitReplyWritten,
        ha matches HandlerAction::Reply { msg: Msg::RbcEcho { round: r, hash } } && r == round
            && hash@ == blake3_of(payload@),
        ss matches SenderState::Done,
        sa matches SenderAction::Finish { result: Ok(Reply::Echo { round: r, hash }) } && r == round
            && hash@ == blake3_of(payload@),
{
}

/// A message other than a proposal gets no reply: the handler closes with
/// success, and the sender, finding the connection closed where it waits for a
/// reply, finishes with success and no reply.
pub proof fn lemma_no_reply_tolerated(
    m: Msg,
    hs: HandlerState,
    ha: HandlerAction,
    ss: SenderState,
    sa: SenderAction,
)
    requires
        !(m is RbcSend),
        handler_transition(HandlerState::AwaitMessage, HandlerEvent::Decoded { msg: m }, hs, ha),
        sender_transition(SenderState::AwaitReplyHeader, SenderEvent::ReadFailed, ss, sa),
    ensures
        hs == HandlerState::Closed,
        ha == (HandlerAction::Close { result: Ok(()) }),
        ss matches SenderState::Done,
        sa matches SenderAction::Finish { result: Ok(Reply::NoReply) },
{
}

/// A frame cut short, a body that decodes to no message, or a header over the
/// bound abandons the connection with an error and without a reply, whatever
/// the state it came in.
pub proof fn lemma_malformed_abandoned(s: HandlerState, e: HandlerEvent, s2: HandlerState, a: HandlerAction)
    requires
        e is ReadFailed || e is DecodeFailed || (e matches HandlerEvent::HeaderRead { header }
            && be_value(header@) as int > MAX_FRAME_LEN),
        handler_transition(s, e, s2, a),
    ensures
        s2 == HandlerState::Closed,
        a matches HandlerAction::Close { result: Err(err) },
        e is ReadFailed ==> a == (HandlerAction::Close { result: Err(ConnectionError::ShortRead) }),
        e is DecodeFailed ==> a == (HandlerAction::Close {
            result: Err(ConnectionError::MalformedMessage),
        }),
{
}

/// Connections are handled apart: when each of several handlers answers the
/// proposal that came in on its own connection, each reply carries the round
/// and the digest of that connection's proposal, and of no other.
pub proof fn lemma_replies_correlate(requests: Seq<Msg>, replies: Seq<Option<Msg>>)
    requires
        requests.len() == replies.len(),
        forall|i: int| 0 <= i < requests.len() ==> (#[trigger] requests[i]) is RbcSend,
        forall|i: int| 0 <= i < requests.len() ==> answers(requests[i], #[trigger] replies[i]),
    ensures
        forall|i: int|
            0 <= i < requests.len() ==> (#[trigger] replies[i] matches Some(
                Msg::RbcEcho { round, hash },
            ) && round == requests[i]->RbcSend_round && hash@ == blake3_of(
                requests[i]->RbcSend_payload@,
            )),
{
    assert forall|i: int| 0 <= i < requests.len() implies (#[trigger] replies[i] matches Some(
        Msg::RbcEcho { round, hash },
    ) && round == requests[i]->RbcSend_round && hash@ == blake3_of(
        requests[i]->RbcSend_payload@,
    )) by {
        assert(requests[i] is RbcSend);
        assert(answers(requests[i], replies[i]));
    }
}

/// The frame that the sender writes for a request is read back whole by the
/// handler: its header makes the handler ask for exactly the request's length,
/// and the bytes that follow the header are the request.
pub proof fn lemma_request_read_back(
    request: Seq<u8>,
    header: [u8; 4],
    s2: HandlerState,
    a: HandlerAction,
)
    requires
        request.len() <= MAX_FRAME_LEN,
        header@ == framed(request).subrange(0, 4),
        handler_transition(HandlerState::AwaitHeader, HandlerEvent::HeaderRead { header }, s2, a),
    ensures
        s2 == HandlerState::AwaitBody,
        a == (HandlerAction::ReadExact { len: request.len() as usize }),
        framed(request).subrange(4, 4 + request.len() as int) == request,
{
    lemma_be_bytes_value(request.len());
    assert(header@ =~= crate::frame::be_bytes(request.len()));
    assert(framed(request).subrange(4, 4 + request.len() as int) =~= request);
}

} // verus!
