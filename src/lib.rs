//! Wire codec, rolling telemetry and the per-peer bookkeeping of a
//! low-latency UDP audio streaming pipeline.
pub mod packet;
pub mod packet_data;
pub mod packet_sync;
pub mod sync;
pub mod rate;
pub mod sender;
pub mod recv_stats;
pub mod receive;
pub mod timesync;
pub mod sync_controller;
pub mod input;
pub mod handshake;
pub mod sink;
