//! Sync messages with a plain `Option` decoder, for callers that do not care
//! why a buffer was rejected.
use vstd::prelude::*;

use crate::packet_sync::{decode_sync, encode_sync, spec_decode_sync, sync_frame};

pub use crate::packet_sync::SyncMessage;

verus! {

/// Encodes a sync message.
pub fn encode(msg: SyncMessage) -> (r: Vec<u8>)
    ensures
        r@ == sync_frame(msg),
{
    encode_sync(&msg)
}

/// Decodes a sync frame, or `None` where it is not a valid one.
pub fn decode(data: &[u8]) -> (r: Option<SyncMessage>)
    ensures
        r == match spec_decode_sync(data@) {
            Ok(m) => Some(m),
            Err(_) => None,
        },
{
    match decode_sync(data) {
        Ok(m) => Some(m),
        Err(_) => None,
    }
}

} // verus!
