//! The ping/pong handshake and the ping responder, as decisions on received
//! bytes; the caller owns the socket and the clock.
use vstd::prelude::*;

use crate::packet::{decode_message, Message, SYNC_PACKET_MAGIC};
use crate::packet_sync::{encode_sync, spec_decode_sync, sync_frame, SyncMessage};

verus! {

/// How many pings the sender tries before giving up the handshake.
pub const HANDSHAKE_MAX_ATTEMPTS: u32 = 20;

/// How long the sender waits for a pong after each ping, in milliseconds.
pub const HANDSHAKE_WAIT_MS: u64 = 500;

/// The pong that answers a ping carrying `t0_ms`, handled at `now_ms`: both
/// peer timestamps are the handling time.
pub open spec fn pong_for(t0_ms: u64, now_ms: u64) -> SyncMessage {
    SyncMessage::Pong { t0_ms, t1_ms: now_ms, t2_ms: now_ms }
}

/// The reply to a received datagram: the encoded pong for a ping, nothing
/// for anything else.
pub fn pong_reply(data: &[u8], now_ms: u64) -> (r: Option<Vec<u8>>)
    ensures
        (data@.len() > 0 && data@[0] == SYNC_PACKET_MAGIC && spec_decode_sync(data@) is Ok
            && spec_decode_sync(data@)->Ok_0 is Ping) ==> (r matches Some(v) && v@ == sync_frame(
            pong_for(spec_decode_sync(data@)->Ok_0->Ping_t0_ms, now_ms),
        )),
        !(data@.len() > 0 && data@[0] == SYNC_PACKET_MAGIC && spec_decode_sync(data@) is Ok
            && spec_decode_sync(data@)->Ok_0 is Ping) ==> r is None,
{
    match decode_message(data) {
        Ok(Message::Sync(SyncMessage::Ping { t0_ms })) => {
            let pong = SyncMessage::Pong { t0_ms, t1_ms: now_ms, t2_ms: now_ms };
            Some(encode_sync(&pong))
        },
        _ => None,
    }
}

/// Whether a received datagram is the pong that answers the ping carrying
/// `sent_t0_ms`.
pub fn is_handshake_reply(data: &[u8], sent_t0_ms: u64) -> (r: bool)
    ensures
        r == (data@.len() > 0 && data@[0] == SYNC_PACKET_MAGIC && spec_decode_sync(data@) is Ok
            && spec_decode_sync(data@)->Ok_0 is Pong && spec_decode_sync(data@)->Ok_0->Pong_t0_ms
            == sent_t0_ms),
{
    match decode_message(data) {
        Ok(Message::Sync(SyncMessage::Pong { t0_ms, .. })) => t0_ms == sent_t0_ms,
        _ => false,
    }
}

/// What the sender does after a handshake attempt.
#[derive(Debug, Clone, Copy, PartialEq, Eq, Structural)]
pub enum HandshakeStep {
    /// The matching pong came: start sending.
    Done,
    /// Ping again.
    Retry,
    /// Every attempt is spent: fail.
    GiveUp,
}

/// The next move after attempt number `attempt` (counted from 1), given
/// whether the pong matching its ping came back within the wait.
pub fn handshake_step(attempt: u32, matched: bool) -> (r: HandshakeStep)
    ensures
        matched ==> r == HandshakeStep::Done,
        !matched && attempt < HANDSHAKE_MAX_ATTEMPTS ==> r == HandshakeStep::Retry,
        !matched && attempt >= HANDSHAKE_MAX_ATTEMPTS ==> r == HandshakeStep::GiveUp,
{
    if matched {
        HandshakeStep::Done
    } else if attempt < HANDSHAKE_MAX_ATTEMPTS {
        HandshakeStep::Retry
    } else {
        HandshakeStep::GiveUp
    }
}

} // verus!
