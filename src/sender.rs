//! The decisions of the send path: silence detection, silence collapsing,
//! sequencing, framing and send telemetry. The caller owns the socket and
//! sends the frames that come out.
use vstd::prelude::*;

use crate::packet::SampleFormat;
use crate::packet_data::{data_frame, encode_packet, Meta};
use crate::rate::{lemma_pruned_idempotent, pruned, sat_add, spec_rate, Ratio, RollingRate};

verus! {

/// Size in bytes of one sample of a format; 1 where the format is unknown.
pub open spec fn spec_bytes_per_sample(fmt: SampleFormat) -> nat {
    match fmt {
        SampleFormat::F32 => 4,
        SampleFormat::I16 => 2,
        SampleFormat::U16 => 2,
        SampleFormat::U32 => 4,
        SampleFormat::Unknown => 1,
    }
}

/// Size in bytes of one sample of a format; 1 where the format is unknown.
pub fn bytes_per_sample(fmt: SampleFormat) -> (r: usize)
    ensures
        r == spec_bytes_per_sample(fmt),
{
    match fmt {
        SampleFormat::F32 => 4,
        SampleFormat::I16 => 2,
        SampleFormat::U16 => 2,
        SampleFormat::U32 => 4,
        SampleFormat::Unknown => 1,
    }
}

/// The `i`-th 16-bit sample of `s` in the given byte order.
pub open spec fn u16_at(s: Seq<u8>, i: int, little_endian: bool) -> u16 {
    if little_endian {
        (s[2 * i] as u16) | ((s[2 * i + 1] as u16) << 8u16)
    } else {
        ((s[2 * i] as u16) << 8u16) | (s[2 * i + 1] as u16)
    }
}

/// The `i`-th 32-bit sample of `s` in the given byte order.
pub open spec fn u32_at(s: Seq<u8>, i: int, little_endian: bool) -> u32 {
    if little_endian {
        (s[4 * i] as u32) | ((s[4 * i + 1] as u32) << 8u32) | ((s[4 * i + 2] as u32) << 16u32) | ((
        s[4 * i + 3] as u32) << 24u32)
    } else {
        ((s[4 * i] as u32) << 24u32) | ((s[4 * i + 1] as u32) << 16u32) | ((s[4 * i + 2] as u32)
            << 8u32) | (s[4 * i + 3] as u32)
    }
}

/// Whether the `i`-th sample of `s` is the zero-amplitude value of its format:
/// an f32 equal to zero (either sign), i16 0, u16 0x8000, u32 0x80000000.
pub open spec fn is_neutral(fmt: SampleFormat, s: Seq<u8>, i: int, little_endian: bool) -> bool {
    match fmt {
        SampleFormat::F32 => u32_at(s, i, little_endian) & 0x7fff_ffffu32 == 0,
        SampleFormat::I16 => u16_at(s, i, little_endian) == 0,
        SampleFormat::U16 => u16_at(s, i, little_endian) == 0x8000,
        SampleFormat::U32 => u32_at(s, i, little_endian) == 0x8000_0000,
        SampleFormat::Unknown => false,
    }
}

/// Whether a chunk is whole samples of a known format, each of them neutral.
pub open spec fn spec_is_silent(fmt: SampleFormat, s: Seq<u8>, little_endian: bool) -> bool {
    &&& fmt != SampleFormat::Unknown
    &&& s.len() % spec_bytes_per_sample(fmt) == 0
    &&& forall|i: int|
        0 <= i < s.len() / spec_bytes_per_sample(fmt) ==> #[trigger] is_neutral(
            fmt,
            s,
            i,
            little_endian,
        )
}

/// Whether `data` holds only neutral samples of `fmt`, read in the given byte
/// order. A chunk that is not whole samples, or of an unknown format, is not silent.
pub fn is_silent_chunk(fmt: SampleFormat, data: &[u8], little_endian: bool) -> (r: bool)
    ensures
        r == spec_is_silent(fmt, data@, little_endian),
{
    let bps = bytes_per_sample(fmt);
    if let SampleFormat::Unknown = fmt {
        return false;
    }
    if data.len() % bps != 0 {
        return false;
    }
    let n = data.len() / bps;
    let mut i: usize = 0;
    while i < n
        invariant
            fmt != SampleFormat::Unknown,
            data@.len() <= usize::MAX,
            bps == spec_bytes_per_sample(fmt),
            n == data@.len() / (bps as nat),
            data@.len() % (bps as nat) == 0,
            i <= n,
            forall|k: int| 0 <= k < i ==> #[trigger] is_neutral(fmt, data@, k, little_endian),
        decreases n - i,
    {
        proof {
            assert(i * bps + bps <= data@.len()) by (nonlinear_arith)
                requires
                    i < n,
                    n == data@.len() / (bps as nat),
                    bps > 0,
            ;
        }
        let neutral = match fmt {
            SampleFormat::I16 | SampleFormat::U16 => {
                assert(bps == 2);
                assert(2 * i + 2 <= data@.len());
                let j = 2 * i;
                let v: u16 = if little_endian {
                    (data[j] as u16) | ((data[j + 1] as u16) << 8u16)
                } else {
                    ((data[j] as u16) << 8u16) | (data[j + 1] as u16)
                };
                if let SampleFormat::I16 = fmt {
                    v == 0
                } else {
                    v == 0x8000
                }
            },
            _ => {
                assert(bps == 4);
                assert(4 * i + 4 <= data@.len());
                let j = 4 * i;
                let v: u32 = if little_endian {
                    (data[j] as u32) | ((data[j + 1] as u32) << 8u32) | ((data[j + 2] as u32)
                        << 16u32) | ((data[j + 3] as u32) << 24u32)
                } else {
                    ((data[j] as u32) << 24u32) | ((data[j + 1] as u32) << 16u32) | ((data[j
                        + 2] as u32) << 8u32) | (data[j + 3] as u32)
                };
                if let SampleFormat::F32 = fmt {
                    v & 0x7fff_ffffu32 == 0
                } else {
                    v == 0x8000_0000
                }
            },
        };
        assert(neutral == is_neutral(fmt, data@, i as int, little_endian));
        if !neutral {
            return false;
        }
        i = i + 1;
    }
    true
}


/// What the send path reports to the stats channel.
#[derive(Debug, Clone, Copy, PartialEq, Eq, Structural)]
pub struct SendStats {
    /// Bytes of every frame handed out so far, capped at `u64::MAX`.
    pub total_bytes_sent: u64,
    /// Frame bytes per second over the telemetry window.
    pub bytes_per_sec: Ratio,
    /// Frames per second over the telemetry window.
    pub packets_per_sec: Ratio,
}

/// What one chunk turns into.
#[derive(Debug)]
pub struct ChunkOutcome {
    /// The encoded data frame, to be sent to the destination.
    pub frame: Vec<u8>,
    /// Whether the chunk is whole samples, so that it may feed a volume meter.
    pub aligned: bool,
    /// Telemetry, when an update interval has passed since the last one.
    pub stats: Option<SendStats>,
}

/// The payload a chunk is sent with: empty for a silent chunk that follows
/// another silent chunk, the whole chunk otherwise.
pub open spec fn sent_payload(chunk: Seq<u8>, silent: bool, prev_silent: bool) -> Seq<u8> {
    if silent && prev_silent {
        Seq::empty()
    } else {
        chunk
    }
}

/// Of two silent chunks in a row after a chunk that was not silent (or at the
/// start of the stream), the first is sent whole and the second with an empty
/// payload, under consecutive sequence numbers.
pub proof fn lemma_silence_collapse(
    fmt: SampleFormat,
    little_endian: bool,
    first: Seq<u8>,
    second: Seq<u8>,
    meta: Meta,
    seq: u64,
    ts_first: u64,
    ts_second: u64,
)
    requires
        spec_is_silent(fmt, first, little_endian),
        spec_is_silent(fmt, second, little_endian),
        seq < u64::MAX,
    ensures
        data_frame(seq, sent_payload(first, spec_is_silent(fmt, first, little_endian), false), meta, ts_first)
            == data_frame(seq, first, meta, ts_first),
        data_frame(
            (seq + 1) as u64,
            sent_payload(second, spec_is_silent(fmt, second, little_endian), spec_is_silent(fmt, first, little_endian)),
            meta,
            ts_second,
        ) == data_frame((seq + 1) as u64, Seq::<u8>::empty(), meta, ts_second),
        seq < (seq + 1) as u64,
{
}

/// Sequencing, silence collapsing and telemetry of one outgoing stream.
/// Instants are milliseconds on a monotonic clock.
pub struct SendWorker {
    meta: Meta,
    little_endian: bool,
    sequence_number: u64,
    prev_silent: bool,
    total_bytes_sent: u64,
    byte_rate: RollingRate,
    packet_rate: RollingRate,
    last_update_ms: u64,
    update_interval_ms: u64,
}

impl SendWorker {
    pub closed spec fn spec_meta(&self) -> Meta {
        self.meta
    }

    /// Whether samples are read least significant byte first.
    pub closed spec fn spec_little_endian(&self) -> bool {
        self.little_endian
    }

    /// The sequence number of the next frame.
    pub closed spec fn spec_sequence(&self) -> u64 {
        self.sequence_number
    }

    /// Whether the last chunk was silent.
    pub closed spec fn spec_prev_silent(&self) -> bool {
        self.prev_silent
    }

    pub closed spec fn spec_total_bytes_sent(&self) -> u64 {
        self.total_bytes_sent
    }

    pub closed spec fn spec_last_update(&self) -> u64 {
        self.last_update_ms
    }

    pub closed spec fn spec_update_interval(&self) -> u64 {
        self.update_interval_ms
    }

    /// `(instant, frame bytes)` of the frames within the telemetry window.
    pub closed spec fn spec_byte_entries(&self) -> Seq<(u64, u64)> {
        self.byte_rate.entries()
    }

    /// `(instant, 1)` for each frame within the telemetry window.
    pub closed spec fn spec_packet_entries(&self) -> Seq<(u64, u64)> {
        self.packet_rate.entries()
    }

    pub closed spec fn spec_window(&self) -> u64 {
        self.byte_rate.window()
    }

    pub closed spec fn wf(&self) -> bool {
        &&& self.byte_rate.wf()
        &&& self.packet_rate.wf()
        &&& self.packet_rate.window() == self.byte_rate.window()
    }

    /// A stream of format `meta` starting at sequence number 0, with telemetry
    /// over `window_ms` and an update at most every `update_interval_ms`.
    pub fn new(
        meta: Meta,
        little_endian: bool,
        window_ms: u64,
        update_interval_ms: u64,
        now_ms: u64,
    ) -> (r: Self)
        ensures
            r.wf(),
            r.spec_meta() == meta,
            r.spec_little_endian() == little_endian,
            r.spec_sequence() == 0,
            !r.spec_prev_silent(),
            r.spec_total_bytes_sent() == 0,
            r.spec_last_update() == now_ms,
            r.spec_update_interval() == update_interval_ms,
            r.spec_window() == window_ms,
            r.spec_byte_entries() == Seq::<(u64, u64)>::empty(),
            r.spec_packet_entries() == Seq::<(u64, u64)>::empty(),
    {
        SendWorker {
            meta,
            little_endian,
            sequence_number: 0,
            prev_silent: false,
            total_bytes_sent: 0,
            byte_rate: RollingRate::new(window_ms),
            packet_rate: RollingRate::new(window_ms),
            last_update_ms: now_ms,
            update_interval_ms,
        }
    }

    /// The sequence number of the next frame.
    pub fn sequence_number(&self) -> (r: u64)
        ensures
            r == self.spec_sequence(),
    {
        self.sequence_number
    }

    /// The format of the stream.
    pub fn meta(&self) -> (r: Meta)
        ensures
            r == self.spec_meta(),
    {
        self.meta
    }

    /// Turns one captured chunk into the frame to send, stamped `timestamp_ms`
    /// (wall clock) and accounted at `now_ms` (monotonic clock).
    ///
    /// A silent chunk right after a silent chunk is sent with an empty payload,
    /// so that the sequence still advances. The sequence number wraps.
    pub fn process_chunk(&mut self, chunk: &[u8], timestamp_ms: u64, now_ms: u64) -> (r:
        ChunkOutcome)
        requires
            old(self).wf(),
        ensures
            final(self).wf(),
            ({
                let fmt = old(self).spec_meta().sample_format;
                let silent = spec_is_silent(fmt, chunk@, old(self).spec_little_endian());
                let payload = sent_payload(chunk@, silent, old(self).spec_prev_silent());
                let frame_len = r.frame@.len();
                let w = old(self).spec_window();
                let due = now_ms >= old(self).spec_last_update() && now_ms - old(self).spec_last_update()
                    >= old(self).spec_update_interval();
                &&& r.frame@ == data_frame(
                    old(self).spec_sequence(),
                    payload,
                    old(self).spec_meta(),
                    timestamp_ms,
                )
                &&& r.aligned == (spec_bytes_per_sample(fmt) == 1 || chunk@.len()
                    % spec_bytes_per_sample(fmt) == 0)
                &&& final(self).spec_prev_silent() == silent
                &&& final(self).spec_sequence() == (if old(self).spec_sequence() == u64::MAX {
                    0
                } else {
                    (old(self).spec_sequence() + 1) as u64
                })
                &&& final(self).spec_total_bytes_sent() == sat_add(
                    old(self).spec_total_bytes_sent(),
                    frame_len,
                )
                &&& final(self).spec_byte_entries() == pruned(
                    old(self).spec_byte_entries().push((now_ms, frame_len as u64)),
                    now_ms,
                    w,
                )
                &&& final(self).spec_packet_entries() == pruned(
                    old(self).spec_packet_entries().push((now_ms, 1u64)),
                    now_ms,
                    w,
                )
                &&& due ==> r.stats == Some(
                    SendStats {
                        total_bytes_sent: final(self).spec_total_bytes_sent(),
                        bytes_per_sec: spec_rate(final(self).spec_byte_entries(), w),
                        packets_per_sec: spec_rate(final(self).spec_packet_entries(), w),
                    },
                ) && final(self).spec_last_update() == now_ms
                &&& !due ==> r.stats is None && final(self).spec_last_update()
                    == old(self).spec_last_update()
            }),
            final(self).spec_meta() == old(self).spec_meta(),
            final(self).spec_little_endian() == old(self).spec_little_endian(),
            final(self).spec_update_interval() == old(self).spec_update_interval(),
            final(self).spec_window() == old(self).spec_window(),
    {
        let fmt = self.meta.sample_format;
        let bps = bytes_per_sample(fmt);
        let aligned = bps == 1 || chunk.len() % bps == 0;
        let silent = aligned && is_silent_chunk(fmt, chunk, self.little_endian);
        let empty: [u8; 0] = [];
        let frame = if silent && self.prev_silent {
            let f = encode_packet(self.sequence_number, &empty, self.meta, timestamp_ms);
            assert(empty@ =~= Seq::<u8>::empty());
            f
        } else {
            encode_packet(self.sequence_number, chunk, self.meta, timestamp_ms)
        };
        self.prev_silent = silent;
        let frame_len = frame.len();
        self.total_bytes_sent = if frame_len as u128 + self.total_bytes_sent as u128
            <= u64::MAX as u128 {
            self.total_bytes_sent + frame_len as u64
        } else {
            u64::MAX
        };
        self.byte_rate.record(now_ms, frame_len as u64);
        self.packet_rate.record(now_ms, 1);
        let due = now_ms >= self.last_update_ms && now_ms - self.last_update_ms
            >= self.update_interval_ms;
        let stats = if due {
            let bytes_per_sec = self.byte_rate.rate_per_sec(now_ms);
            let packets_per_sec = self.packet_rate.rate_per_sec(now_ms);
            self.last_update_ms = now_ms;
            proof {
                lemma_pruned_idempotent(
                    old(self).byte_rate.entries().push((now_ms, frame_len as u64)),
                    now_ms,
                    self.byte_rate.window(),
                );
                lemma_pruned_idempotent(
                    old(self).packet_rate.entries().push((now_ms, 1u64)),
                    now_ms,
                    self.packet_rate.window(),
                );
            }
            Some(
                SendStats {
                    total_bytes_sent: self.total_bytes_sent,
                    bytes_per_sec,
                    packets_per_sec,
                },
            )
        } else {
            None
        };
        self.sequence_number = self.sequence_number.wrapping_add(1);
        ChunkOutcome { frame, aligned, stats }
    }
}

} // verus!
