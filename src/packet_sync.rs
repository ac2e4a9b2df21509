//! Sync frames: ping and pong messages of the time-sync exchange.
//!
//! Layout: magic (`0x54`), version, type (1 = ping, 2 = pong), then one
//! (`t0`) or three (`t0`, `t1`, `t2`) big-endian 64-bit millisecond timestamps.
use vstd::prelude::*;

use crate::packet::SYNC_PACKET_MAGIC;
use crate::packet_data::{be64, lemma_be64_round_trip, push_be64, read_be64};

verus! {

/// Must change whenever the sync layout changes.
pub const SYNC_VERSION: u8 = 1;

/// Type byte of a ping.
pub const TYPE_PING: u8 = 1;

/// Type byte of a pong.
pub const TYPE_PONG: u8 = 2;

/// A message of the ping/pong time-sync exchange; timestamps are
/// milliseconds since the Unix epoch.
#[derive(Debug, Clone, Copy, PartialEq, Eq, Structural)]
pub enum SyncMessage {
    Ping { t0_ms: u64 },
    Pong { t0_ms: u64, t1_ms: u64, t2_ms: u64 },
}

/// Why a buffer is not a sync frame.
#[derive(Debug, Clone, Copy, PartialEq, Eq, Structural)]
pub enum SyncDecodeError {
    TooShort,
    BadMagic,
    BadVersion,
    UnknownType,
}

impl SyncDecodeError {
    /// A short human-readable description.
    pub fn as_str(&self) -> (r: &'static str) {
        match self {
            SyncDecodeError::TooShort => "sync packet too short",
            SyncDecodeError::BadMagic => "bad sync packet magic",
            SyncDecodeError::BadVersion => "unsupported sync packet version",
            SyncDecodeError::UnknownType => "unknown sync packet type",
        }
    }
}

/// The bytes of the sync frame for a message.
pub open spec fn sync_frame(m: SyncMessage) -> Seq<u8> {
    match m {
        SyncMessage::Ping { t0_ms } => seq![SYNC_PACKET_MAGIC, SYNC_VERSION, TYPE_PING] + be64(t0_ms),
        SyncMessage::Pong { t0_ms, t1_ms, t2_ms } => seq![SYNC_PACKET_MAGIC, SYNC_VERSION, TYPE_PONG]
            + be64(t0_ms) + be64(t1_ms) + be64(t2_ms),
    }
}

/// What a buffer decodes to as a sync frame, checked byte by byte; bytes
/// after the last timestamp are ignored.
pub open spec fn spec_decode_sync(s: Seq<u8>) -> Result<SyncMessage, SyncDecodeError> {
    if s.len() < 1 {
        Err(SyncDecodeError::TooShort)
    } else if s[0] != SYNC_PACKET_MAGIC {
        Err(SyncDecodeError::BadMagic)
    } else if s.len() < 2 {
        Err(SyncDecodeError::TooShort)
    } else if s[1] != SYNC_VERSION {
        Err(SyncDecodeError::BadVersion)
    } else if s.len() < 3 {
        Err(SyncDecodeError::TooShort)
    } else if s[2] == TYPE_PING {
        if s.len() < 11 {
            Err(SyncDecodeError::TooShort)
        } else {
            Ok(SyncMessage::Ping { t0_ms: read_be64(s, 3) })
        }
    } else if s[2] == TYPE_PONG {
        if s.len() < 27 {
            Err(SyncDecodeError::TooShort)
        } else {
            Ok(
                SyncMessage::Pong {
                    t0_ms: read_be64(s, 3),
                    t1_ms: read_be64(s, 11),
                    t2_ms: read_be64(s, 19),
                },
            )
        }
    } else {
        Err(SyncDecodeError::UnknownType)
    }
}

/// Encodes a sync message.
pub fn encode_sync(msg: &SyncMessage) -> (r: Vec<u8>)
    ensures
        r@ == sync_frame(*msg),
        r@[0] == SYNC_PACKET_MAGIC,
{
    let mut v: Vec<u8> = Vec::new();
    v.push(SYNC_PACKET_MAGIC);
    v.push(SYNC_VERSION);
    match *msg {
        SyncMessage::Ping { t0_ms } => {
            v.push(TYPE_PING);
            push_be64(&mut v, t0_ms);
            assert(v@ =~= sync_frame(*msg));
        },
        SyncMessage::Pong { t0_ms, t1_ms, t2_ms } => {
            v.push(TYPE_PONG);
            push_be64(&mut v, t0_ms);
            push_be64(&mut v, t1_ms);
            push_be64(&mut v, t2_ms);
            assert(v@ =~= sync_frame(*msg));
        },
    }
    v
}

fn read_u64_at(data: &[u8], at: usize) -> (r: u64)
    requires
        at + 8 <= data@.len(),
    ensures
        r == read_be64(data@, at as int),
{
    ((data[at] as u64) << 56u64) | ((data[at + 1] as u64) << 48u64) | ((data[at + 2] as u64)
        << 40u64) | ((data[at + 3] as u64) << 32u64) | ((data[at + 4] as u64) << 24u64) | ((
    data[at + 5] as u64) << 16u64) | ((data[at + 6] as u64) << 8u64) | (data[at + 7] as u64)
}

/// Decodes a sync frame; data frames are handled by the multiplexer.
pub fn decode_sync(data: &[u8]) -> (r: Result<SyncMessage, SyncDecodeError>)
    ensures
        r == spec_decode_sync(data@),
{
    if data.len() < 1 {
        return Err(SyncDecodeError::TooShort);
    }
    if data[0] != SYNC_PACKET_MAGIC {
        return Err(SyncDecodeError::BadMagic);
    }
    if data.len() < 2 {
        return Err(SyncDecodeError::TooShort);
    }
    if data[1] != SYNC_VERSION {
        return Err(SyncDecodeError::BadVersion);
    }
    if data.len() < 3 {
        return Err(SyncDecodeError::TooShort);
    }
    if data[2] == TYPE_PING {
        if data.len() < 11 {
            return Err(SyncDecodeError::TooShort);
        }
        Ok(SyncMessage::Ping { t0_ms: read_u64_at(data, 3) })
    } else if data[2] == TYPE_PONG {
        if data.len() < 27 {
            return Err(SyncDecodeError::TooShort);
        }
        Ok(
            SyncMessage::Pong {
                t0_ms: read_u64_at(data, 3),
                t1_ms: read_u64_at(data, 11),
                t2_ms: read_u64_at(data, 19),
            },
        )
    } else {
        Err(SyncDecodeError::UnknownType)
    }
}

/// Decoding an encoded sync message gives back the same message.
pub proof fn lemma_sync_round_trip(m: SyncMessage)
    ensures
        spec_decode_sync(sync_frame(m)) == Ok::<SyncMessage, SyncDecodeError>(m),
{
    let f = sync_frame(m);
    match m {
        SyncMessage::Ping { t0_ms } => {
            lemma_be64_round_trip(t0_ms);
            assert(read_be64(f, 3) == read_be64(be64(t0_ms), 0));
        },
        SyncMessage::Pong { t0_ms, t1_ms, t2_ms } => {
            lemma_be64_round_trip(t0_ms);
            lemma_be64_round_trip(t1_ms);
            lemma_be64_round_trip(t2_ms);
            assert(read_be64(f, 3) == read_be64(be64(t0_ms), 0));
            assert(read_be64(f, 11) == read_be64(be64(t1_ms), 0));
            assert(read_be64(f, 19) == read_be64(be64(t2_ms), 0));
        },
    }
}

/// In an encoded sync message, another first byte gives `BadMagic` and another
/// version byte gives `BadVersion`.
pub proof fn lemma_sync_frame_damage(m: SyncMessage, magic: u8, version: u8)
    requires
        magic != SYNC_PACKET_MAGIC,
        version != SYNC_VERSION,
    ensures
        spec_decode_sync(sync_frame(m).update(0, magic)) == Err::<SyncMessage, SyncDecodeError>(
            SyncDecodeError::BadMagic,
        ),
        spec_decode_sync(sync_frame(m).update(1, version)) == Err::<SyncMessage, SyncDecodeError>(
            SyncDecodeError::BadVersion,
        ),
{
}

} // verus!
