//! Frame multiplexer: data and sync frames share one UDP port and are told
//! apart by their first byte.
use vstd::prelude::*;

use crate::packet_data::{data_frame_error, header_meta, header_payload, read_be64};
use crate::packet_sync::spec_decode_sync;

pub use crate::packet_data::{
    decode_packet, encode_packet, DataPacketError, Decoded, Meta, SampleRateCode,
};
pub use crate::packet_sync::{decode_sync, encode_sync, SyncDecodeError, SyncMessage};

verus! {

/// First byte of every data frame (`'S'`).
pub const DATA_PACKET_MAGIC: u8 = 0x53;

/// First byte of every sync frame (`'T'`).
pub const SYNC_PACKET_MAGIC: u8 = 0x54;

/// How the samples of a payload are laid out.
#[derive(Debug, Clone, Copy, PartialEq, Eq, Structural)]
pub enum SampleFormat {
    F32,
    I16,
    U16,
    U32,
    Unknown,
}

/// A sample rate in hertz.
#[derive(Debug, Clone, Copy, PartialEq, Eq, Structural)]
pub struct SampleRate(pub u32);


/// A decoded frame of either family.
#[derive(Debug, Clone, Copy, PartialEq, Eq)]
pub enum Message<'a> {
    /// A time-sync control message.
    Sync(SyncMessage),
    /// An audio frame, borrowing its payload from the input buffer.
    Data(Decoded<'a>),
}

/// Why a buffer is not a frame of either family.
#[derive(Debug, Clone, Copy, PartialEq, Eq, Structural)]
pub enum DecodeError {
    UnknownMagic,
    Sync(SyncDecodeError),
    Data(DataPacketError),
}

impl DecodeError {
    /// A short human-readable description.
    pub fn as_str(&self) -> (r: &'static str) {
        match self {
            DecodeError::UnknownMagic => "unknown packet magic",
            DecodeError::Sync(e) => e.as_str(),
            DecodeError::Data(e) => e.as_str(),
        }
    }
}

/// Decodes a frame of either family, chosen by its first byte.
pub fn decode_message(data: &[u8]) -> (r: Result<Message<'_>, DecodeError>)
    ensures
        data@.len() == 0 ==> r == Err::<Message<'_>, DecodeError>(DecodeError::UnknownMagic),
        data@.len() > 0 && data@[0] != SYNC_PACKET_MAGIC && data@[0] != DATA_PACKET_MAGIC ==> r
            == Err::<Message<'_>, DecodeError>(DecodeError::UnknownMagic),
        data@.len() > 0 && data@[0] == SYNC_PACKET_MAGIC ==> match spec_decode_sync(data@) {
            Ok(m) => r == Ok::<Message<'_>, DecodeError>(Message::Sync(m)),
            Err(e) => r == Err::<Message<'_>, DecodeError>(DecodeError::Sync(e)),
        },
        data@.len() > 0 && data@[0] == DATA_PACKET_MAGIC ==> match data_frame_error(data@) {
            Some(e) => r == Err::<Message<'_>, DecodeError>(DecodeError::Data(e)),
            None => r matches Ok(Message::Data(d)) && {
                &&& d.seq == read_be64(data@, 8)
                &&& d.timestamp_ms == read_be64(data@, 16)
                &&& d.meta == header_meta(data@)
                &&& d.payload@ == header_payload(data@)
            },
        },
{
    if data.len() == 0 {
        return Err(DecodeError::UnknownMagic);
    }
    if data[0] == SYNC_PACKET_MAGIC {
        match decode_sync(data) {
            Ok(m) => Ok(Message::Sync(m)),
            Err(e) => Err(DecodeError::Sync(e)),
        }
    } else if data[0] == DATA_PACKET_MAGIC {
        match decode_packet(data) {
            Ok(d) => Ok(Message::Data(d)),
            Err(e) => Err(DecodeError::Data(e)),
        }
    } else {
        Err(DecodeError::UnknownMagic)
    }
}

} // verus!
