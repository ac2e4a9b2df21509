//! Data frames: a 24-byte big-endian header followed by raw PCM bytes.
//!
//! Layout:
//! - 1 byte : magic (`0x53`)
//! - 1 byte : version
//! - 2 bytes: payload length
//! - 1 byte : channels
//! - 1 byte : sample-rate code (see [`SampleRateCode`])
//! - 1 byte : sample-format code (1=f32, 2=i16, 3=u16, 4=u32, 0=unknown)
//! - 1 byte : reserved, zero
//! - 8 bytes: sequence number
//! - 8 bytes: timestamp, milliseconds since the Unix epoch
//! - N bytes: payload
use vstd::prelude::*;

use crate::packet::{SampleFormat, SampleRate, DATA_PACKET_MAGIC};

verus! {

/// Must change whenever the header layout changes.
pub const PACKET_VERSION: u8 = 2;

/// Size of the fixed header in front of the payload.
pub const HEADER_LEN: usize = 24;

/// Largest payload length that the header can declare.
pub const MAX_DECLARED_LEN: usize = 65535;

/// Big-endian bytes of a 16-bit value.
pub open spec fn be16(x: u16) -> Seq<u8> {
    seq![(x >> 8u16) as u8, x as u8]
}

/// Big-endian bytes of a 64-bit value.
pub open spec fn be64(x: u64) -> Seq<u8> {
    seq![
        (x >> 56u64) as u8,
        (x >> 48u64) as u8,
        (x >> 40u64) as u8,
        (x >> 32u64) as u8,
        (x >> 24u64) as u8,
        (x >> 16u64) as u8,
        (x >> 8u64) as u8,
        x as u8,
    ]
}

/// The 16-bit value whose big-endian bytes start at `s[at]`.
pub open spec fn read_be16(s: Seq<u8>, at: int) -> u16 {
    ((s[at] as u16) << 8u16) | (s[at + 1] as u16)
}

/// The 64-bit value whose big-endian bytes start at `s[at]`.
pub open spec fn read_be64(s: Seq<u8>, at: int) -> u64 {
    ((s[at] as u64) << 56u64) | ((s[at + 1] as u64) << 48u64) | ((s[at + 2] as u64) << 40u64)
        | ((s[at + 3] as u64) << 32u64) | ((s[at + 4] as u64) << 24u64) | ((s[at + 5] as u64)
        << 16u64) | ((s[at + 6] as u64) << 8u64) | (s[at + 7] as u64)
}

pub proof fn lemma_be16_round_trip(x: u16)
    ensures
        read_be16(be16(x), 0) == x,
{
    assert(((((x >> 8u16) as u8) as u16) << 8u16) | ((x as u8) as u16) == x) by (bit_vector);
}

pub proof fn lemma_be64_round_trip(x: u64)
    ensures
        read_be64(be64(x), 0) == x,
{
    assert(((((x >> 56u64) as u8) as u64) << 56u64) | ((((x >> 48u64) as u8) as u64) << 48u64)
        | ((((x >> 40u64) as u8) as u64) << 40u64) | ((((x >> 32u64) as u8) as u64) << 32u64)
        | ((((x >> 24u64) as u8) as u64) << 24u64) | ((((x >> 16u64) as u8) as u64) << 16u64)
        | ((((x >> 8u64) as u8) as u64) << 8u64) | ((x as u8) as u64) == x) by (bit_vector);
}


/// Why a buffer is not a data frame.
#[derive(Debug, Clone, Copy, PartialEq, Eq, Structural)]
pub enum DataPacketError {
    TooShort,
    BadMagic,
    BadVersion,
    LengthMismatch,
}

impl DataPacketError {
    /// A short human-readable description.
    pub fn as_str(&self) -> (r: &'static str) {
        match self {
            DataPacketError::TooShort => "packet too short",
            DataPacketError::BadMagic => "bad data packet magic",
            DataPacketError::BadVersion => "unsupported data packet version",
            DataPacketError::LengthMismatch => "declared length differs from payload length",
        }
    }
}

/// Sample rates that the header can carry, each with its one-byte code.
#[derive(Debug, Clone, Copy, PartialEq, Eq, Structural)]
pub enum SampleRateCode {
    Unknown,
    Hz8000,
    Hz16000,
    Hz22050,
    Hz24000,
    Hz32000,
    Hz44100,
    Hz48000,
    Hz88200,
    Hz96000,
    Hz176400,
    Hz192000,
}

/// The rate in hertz of each code, `Unknown` being zero.
pub open spec fn spec_code_hz(c: SampleRateCode) -> u32 {
    match c {
        SampleRateCode::Unknown => 0,
        SampleRateCode::Hz8000 => 8_000,
        SampleRateCode::Hz16000 => 16_000,
        SampleRateCode::Hz22050 => 22_050,
        SampleRateCode::Hz24000 => 24_000,
        SampleRateCode::Hz32000 => 32_000,
        SampleRateCode::Hz44100 => 44_100,
        SampleRateCode::Hz48000 => 48_000,
        SampleRateCode::Hz88200 => 88_200,
        SampleRateCode::Hz96000 => 96_000,
        SampleRateCode::Hz176400 => 176_400,
        SampleRateCode::Hz192000 => 192_000,
    }
}

/// The wire byte of each code: `Unknown` is 0, the rates count up from 1.
pub open spec fn spec_code_byte(c: SampleRateCode) -> u8 {
    match c {
        SampleRateCode::Unknown => 0,
        SampleRateCode::Hz8000 => 1,
        SampleRateCode::Hz16000 => 2,
        SampleRateCode::Hz22050 => 3,
        SampleRateCode::Hz24000 => 4,
        SampleRateCode::Hz32000 => 5,
        SampleRateCode::Hz44100 => 6,
        SampleRateCode::Hz48000 => 7,
        SampleRateCode::Hz88200 => 8,
        SampleRateCode::Hz96000 => 9,
        SampleRateCode::Hz176400 => 10,
        SampleRateCode::Hz192000 => 11,
    }
}

/// The code for a rate in hertz: the one listed rate equal to it, else `Unknown`.
pub open spec fn spec_from_hz(hz: u32) -> SampleRateCode {
    if exists|c: SampleRateCode| c != SampleRateCode::Unknown && spec_code_hz(c) == hz {
        choose|c: SampleRateCode| c != SampleRateCode::Unknown && spec_code_hz(c) == hz
    } else {
        SampleRateCode::Unknown
    }
}

/// The code for a wire byte: the code with that byte, else `Unknown`.
pub open spec fn spec_from_code(b: u8) -> SampleRateCode {
    if exists|c: SampleRateCode| spec_code_byte(c) == b {
        choose|c: SampleRateCode| spec_code_byte(c) == b
    } else {
        SampleRateCode::Unknown
    }
}

/// Whether a rate in hertz has a code of its own.
pub open spec fn is_listed_rate(hz: u32) -> bool {
    exists|c: SampleRateCode| c != SampleRateCode::Unknown && spec_code_hz(c) == hz
}

impl SampleRateCode {
    /// The code of a rate; rates outside the list map to `Unknown`.
    pub fn from_hz(hz: u32) -> (r: Self)
        ensures
            r == spec_from_hz(hz),
            is_listed_rate(hz) ==> spec_code_hz(r) == hz,
            !is_listed_rate(hz) ==> r == SampleRateCode::Unknown,
    {
        let r = match hz {
            8_000 => Self::Hz8000,
            16_000 => Self::Hz16000,
            22_050 => Self::Hz22050,
            24_000 => Self::Hz24000,
            32_000 => Self::Hz32000,
            44_100 => Self::Hz44100,
            48_000 => Self::Hz48000,
            88_200 => Self::Hz88200,
            96_000 => Self::Hz96000,
            176_400 => Self::Hz176400,
            192_000 => Self::Hz192000,
            _ => Self::Unknown,
        };
        proof {
            if r != SampleRateCode::Unknown {
                assert(spec_code_hz(r) == hz);
                let c = choose|c: SampleRateCode| c != SampleRateCode::Unknown && spec_code_hz(c) == hz;
                assert(c == r);
            } else {
                assert forall|c: SampleRateCode| c != SampleRateCode::Unknown implies spec_code_hz(c) != hz by {
                    match c { _ => {} }
                }
            }
        }
        r
    }

    /// The rate in hertz; zero for `Unknown`.
    pub fn to_hz(self) -> (r: u32)
        ensures
            r == spec_code_hz(self),
    {
        match self {
            Self::Unknown => 0,
            Self::Hz8000 => 8_000,
            Self::Hz16000 => 16_000,
            Self::Hz22050 => 22_050,
            Self::Hz24000 => 24_000,
            Self::Hz32000 => 32_000,
            Self::Hz44100 => 44_100,
            Self::Hz48000 => 48_000,
            Self::Hz88200 => 88_200,
            Self::Hz96000 => 96_000,
            Self::Hz176400 => 176_400,
            Self::Hz192000 => 192_000,
        }
    }

    /// The code carried by a wire byte; bytes above 11 map to `Unknown`.
    pub fn from_code(code: u8) -> (r: Self)
        ensures
            r == spec_from_code(code),
            code <= 11 ==> spec_code_byte(r) == code,
            code > 11 ==> r == SampleRateCode::Unknown,
    {
        let r = match code {
            1 => Self::Hz8000,
            2 => Self::Hz16000,
            3 => Self::Hz22050,
            4 => Self::Hz24000,
            5 => Self::Hz32000,
            6 => Self::Hz44100,
            7 => Self::Hz48000,
            8 => Self::Hz88200,
            9 => Self::Hz96000,
            10 => Self::Hz176400,
            11 => Self::Hz192000,
            _ => Self::Unknown,
        };
        proof {
            if code <= 11 {
                assert(spec_code_byte(r) == code);
                let c = choose|c: SampleRateCode| spec_code_byte(c) == code;
                assert(c == r);
            } else {
                assert forall|c: SampleRateCode| spec_code_byte(c) != code by {
                    match c { _ => {} }
                }
            }
        }
        r
    }

    /// The wire byte of this code.
    pub fn code(self) -> (r: u8)
        ensures
            r == spec_code_byte(self),
    {
        match self {
            Self::Unknown => 0,
            Self::Hz8000 => 1,
            Self::Hz16000 => 2,
            Self::Hz22050 => 3,
            Self::Hz24000 => 4,
            Self::Hz32000 => 5,
            Self::Hz44100 => 6,
            Self::Hz48000 => 7,
            Self::Hz88200 => 8,
            Self::Hz96000 => 9,
            Self::Hz176400 => 10,
            Self::Hz192000 => 11,
        }
    }
}


/// Audio format carried by every data frame.
#[derive(Debug, Clone, Copy, PartialEq, Eq, Structural)]
pub struct Meta {
    pub channels: u8,
    pub sample_rate: SampleRate,
    pub sample_format: SampleFormat,
}

/// A decoded data frame; the payload borrows from the decoded buffer.
#[derive(Debug, Clone, Copy, PartialEq, Eq)]
pub struct Decoded<'a> {
    pub seq: u64,
    pub timestamp_ms: u64,
    pub meta: Meta,
    pub payload: &'a [u8],
}

/// The wire byte of a sample format.
pub open spec fn spec_format_byte(f: SampleFormat) -> u8 {
    match f {
        SampleFormat::F32 => 1,
        SampleFormat::I16 => 2,
        SampleFormat::U16 => 3,
        SampleFormat::U32 => 4,
        SampleFormat::Unknown => 0,
    }
}

/// The sample format of a wire byte; bytes without a format read as f32.
pub open spec fn spec_format_from_byte(b: u8) -> SampleFormat {
    if b == 2 {
        SampleFormat::I16
    } else if b == 3 {
        SampleFormat::U16
    } else if b == 4 {
        SampleFormat::U32
    } else {
        SampleFormat::F32
    }
}

/// The payload length that the header declares: the real one, capped at 65535.
pub open spec fn declared_len(n: nat) -> u16 {
    if n <= MAX_DECLARED_LEN {
        n as u16
    } else {
        MAX_DECLARED_LEN as u16
    }
}

/// The payload bytes a frame carries: the first 65535 bytes at most.
pub open spec fn carried_payload(payload: Seq<u8>) -> Seq<u8> {
    payload.subrange(0, declared_len(payload.len()) as int)
}

/// The bytes of the data frame for a sequence number, payload, format and
/// timestamp; a payload over 65535 bytes is cut to its first 65535.
pub open spec fn data_frame(seq: u64, payload: Seq<u8>, meta: Meta, timestamp_ms: u64) -> Seq<u8> {
    seq![DATA_PACKET_MAGIC, PACKET_VERSION] + be16(declared_len(payload.len())) + seq![
        meta.channels,
        spec_code_byte(spec_from_hz(meta.sample_rate.0)),
        spec_format_byte(meta.sample_format),
        0u8,
    ] + be64(seq) + be64(timestamp_ms) + carried_payload(payload)
}

/// Why `s` is not a data frame, checked in header order; `None` when it is one.
pub open spec fn data_frame_error(s: Seq<u8>) -> Option<DataPacketError> {
    if s.len() < HEADER_LEN {
        Some(DataPacketError::TooShort)
    } else if s[0] != DATA_PACKET_MAGIC {
        Some(DataPacketError::BadMagic)
    } else if s[1] != PACKET_VERSION {
        Some(DataPacketError::BadVersion)
    } else if s.len() != HEADER_LEN + read_be16(s, 2) {
        Some(DataPacketError::LengthMismatch)
    } else {
        None
    }
}

/// The format that the header of `s` describes.
pub open spec fn header_meta(s: Seq<u8>) -> Meta {
    Meta {
        channels: s[4],
        sample_rate: SampleRate(spec_code_hz(spec_from_code(s[5]))),
        sample_format: spec_format_from_byte(s[6]),
    }
}

/// The payload bytes that the header of `s` declares.
pub open spec fn header_payload(s: Seq<u8>) -> Seq<u8> {
    s.subrange(HEADER_LEN as int, HEADER_LEN + read_be16(s, 2))
}

/// Whether a format survives the trip through the header unchanged: its rate
/// is zero or listed, and its sample format is a known one.
pub open spec fn meta_is_exact_on_wire(meta: Meta) -> bool {
    &&& (meta.sample_rate.0 == 0 || is_listed_rate(meta.sample_rate.0))
    &&& meta.sample_format != SampleFormat::Unknown
}

fn push_be16(buf: &mut Vec<u8>, x: u16)
    ensures
        final(buf)@ == old(buf)@ + be16(x),
{
    buf.push((x >> 8u16) as u8);
    buf.push(x as u8);
    assert(final(buf)@ =~= old(buf)@ + be16(x));
}

pub(crate) fn push_be64(buf: &mut Vec<u8>, x: u64)
    ensures
        final(buf)@ == old(buf)@ + be64(x),
{
    buf.push((x >> 56u64) as u8);
    buf.push((x >> 48u64) as u8);
    buf.push((x >> 40u64) as u8);
    buf.push((x >> 32u64) as u8);
    buf.push((x >> 24u64) as u8);
    buf.push((x >> 16u64) as u8);
    buf.push((x >> 8u64) as u8);
    buf.push(x as u8);
    assert(final(buf)@ =~= old(buf)@ + be64(x));
}

/// Appends every byte of `src` to `buf`.
pub fn push_all(buf: &mut Vec<u8>, src: &[u8])
    ensures
        final(buf)@ == old(buf)@ + src@,
{
    let mut i: usize = 0;
    while i < src.len()
        invariant
            i <= src@.len(),
            buf@ == old(buf)@ + src@.subrange(0, i as int),
        decreases src@.len() - i,
    {
        buf.push(src[i]);
        i = i + 1;
        assert(buf@ =~= old(buf)@ + src@.subrange(0, i as int));
    }
    assert(src@.subrange(0, i as int) =~= src@);
}

fn format_byte(f: SampleFormat) -> (r: u8)
    ensures
        r == spec_format_byte(f),
{
    match f {
        SampleFormat::F32 => 1,
        SampleFormat::I16 => 2,
        SampleFormat::U16 => 3,
        SampleFormat::U32 => 4,
        SampleFormat::Unknown => 0,
    }
}

fn format_from_byte(b: u8) -> (r: SampleFormat)
    ensures
        r == spec_format_from_byte(b),
{
    match b {
        2 => SampleFormat::I16,
        3 => SampleFormat::U16,
        4 => SampleFormat::U32,
        _ => SampleFormat::F32,
    }
}

/// Encodes a sequence number, payload, format and timestamp as a data frame.
/// A payload over 65535 bytes is cut to its first 65535, so that the declared
/// length always equals the length carried.
pub fn encode_packet(seq: u64, payload: &[u8], meta: Meta, timestamp_ms: u64) -> (r: Vec<u8>)
    ensures
        r@ == data_frame(seq, payload@, meta, timestamp_ms),
        r@[0] == DATA_PACKET_MAGIC,
        r@.len() == HEADER_LEN + declared_len(payload@.len()),
{
    let len: u16 = if payload.len() <= MAX_DECLARED_LEN {
        payload.len() as u16
    } else {
        MAX_DECLARED_LEN as u16
    };
    let mut buf: Vec<u8> = Vec::new();
    buf.push(DATA_PACKET_MAGIC);
    buf.push(PACKET_VERSION);
    push_be16(&mut buf, len);
    buf.push(meta.channels);
    let sr_code = SampleRateCode::from_hz(meta.sample_rate.0).code();
    buf.push(sr_code);
    buf.push(format_byte(meta.sample_format));
    buf.push(0);
    push_be64(&mut buf, seq);
    push_be64(&mut buf, timestamp_ms);
    push_all(&mut buf, &payload[0..len as usize]);
    assert(buf@ =~= data_frame(seq, payload@, meta, timestamp_ms));
    buf
}

/// Decodes a data frame. The payload is a slice of `data`, not a copy.
pub fn decode_packet<'a>(data: &'a [u8]) -> (r: Result<Decoded<'a>, DataPacketError>)
    ensures
        r is Ok <==> data_frame_error(data@) is None,
        r matches Err(e) ==> data_frame_error(data@) == Some(e),
        r matches Ok(d) ==> {
            &&& d.seq == read_be64(data@, 8)
            &&& d.timestamp_ms == read_be64(data@, 16)
            &&& d.meta == header_meta(data@)
            &&& d.payload@ == header_payload(data@)
        },
{
    if data.len() < HEADER_LEN {
        return Err(DataPacketError::TooShort);
    }
    if data[0] != DATA_PACKET_MAGIC {
        return Err(DataPacketError::BadMagic);
    }
    if data[1] != PACKET_VERSION {
        return Err(DataPacketError::BadVersion);
    }
    let payload_len: u16 = ((data[2] as u16) << 8u16) | (data[3] as u16);
    let channels = data[4];
    let sample_rate_code = data[5];
    let sample_format_code = data[6];
    let seq: u64 = ((data[8] as u64) << 56u64) | ((data[9] as u64) << 48u64) | ((data[10] as u64)
        << 40u64) | ((data[11] as u64) << 32u64) | ((data[12] as u64) << 24u64) | ((
    data[13] as u64) << 16u64) | ((data[14] as u64) << 8u64) | (data[15] as u64);
    let timestamp_ms: u64 = ((data[16] as u64) << 56u64) | ((data[17] as u64) << 48u64) | ((
    data[18] as u64) << 40u64) | ((data[19] as u64) << 32u64) | ((data[20] as u64) << 24u64)
        | ((data[21] as u64) << 16u64) | ((data[22] as u64) << 8u64) | (data[23] as u64);
    if data.len() - HEADER_LEN != payload_len as usize {
        return Err(DataPacketError::LengthMismatch);
    }
    let payload = &data[HEADER_LEN..HEADER_LEN + payload_len as usize];
    let sample_rate = SampleRate(SampleRateCode::from_code(sample_rate_code).to_hz());
    let sample_format = format_from_byte(sample_format_code);
    Ok(Decoded { seq, timestamp_ms, meta: Meta { channels, sample_rate, sample_format }, payload })
}


proof fn lemma_rate_code_round_trip(hz: u32)
    requires
        hz == 0 || is_listed_rate(hz),
    ensures
        spec_code_hz(spec_from_code(spec_code_byte(spec_from_hz(hz)))) == hz,
{
    let c = spec_from_hz(hz);
    if hz == 0 {
        assert forall|k: SampleRateCode| k != SampleRateCode::Unknown implies spec_code_hz(k) != 0 by {
            match k { _ => {} }
        }
        assert(c == SampleRateCode::Unknown);
    } else {
        assert(spec_code_hz(c) == hz);
    }
    assert(spec_code_byte(c) == spec_code_byte(c));
    let d = spec_from_code(spec_code_byte(c));
    assert(spec_code_byte(d) == spec_code_byte(c));
    match c { _ => { match d { _ => {} } } }
}

proof fn lemma_frame_bytes(seq: u64, payload: Seq<u8>, meta: Meta, timestamp_ms: u64)
    ensures
        ({
            let f = data_frame(seq, payload, meta, timestamp_ms);
            &&& f.len() == HEADER_LEN + declared_len(payload.len())
            &&& f[0] == DATA_PACKET_MAGIC
            &&& f[1] == PACKET_VERSION
            &&& read_be16(f, 2) == declared_len(payload.len())
            &&& read_be64(f, 8) == seq
            &&& read_be64(f, 16) == timestamp_ms
            &&& f[4] == meta.channels
            &&& f[5] == spec_code_byte(spec_from_hz(meta.sample_rate.0))
            &&& f[6] == spec_format_byte(meta.sample_format)
            &&& f.subrange(HEADER_LEN as int, f.len() as int) == carried_payload(payload)
        }),
{
    let f = data_frame(seq, payload, meta, timestamp_ms);
    let l = declared_len(payload.len());
    lemma_be16_round_trip(l);
    lemma_be64_round_trip(seq);
    lemma_be64_round_trip(timestamp_ms);
    assert(read_be16(f, 2) == read_be16(be16(l), 0));
    assert(read_be64(f, 8) == read_be64(be64(seq), 0));
    assert(read_be64(f, 16) == read_be64(be64(timestamp_ms), 0));
    assert(f.subrange(HEADER_LEN as int, f.len() as int) =~= carried_payload(payload));
}

/// Decoding an encoded data frame gives back its sequence number, timestamp,
/// format and payload, for every payload of at most 65535 bytes and every
/// format whose rate is zero or listed and whose sample format is known.
/// A longer payload comes back cut to its first 65535 bytes.
pub proof fn lemma_data_round_trip(seq: u64, payload: Seq<u8>, meta: Meta, timestamp_ms: u64)
    requires
        meta_is_exact_on_wire(meta),
    ensures
        ({
            let f = data_frame(seq, payload, meta, timestamp_ms);
            &&& data_frame_error(f) is None
            &&& read_be64(f, 8) == seq
            &&& read_be64(f, 16) == timestamp_ms
            &&& header_meta(f) == meta
            &&& header_payload(f) == carried_payload(payload)
            &&& payload.len() <= MAX_DECLARED_LEN ==> header_payload(f) == payload
        }),
{
    let f = data_frame(seq, payload, meta, timestamp_ms);
    lemma_frame_bytes(seq, payload, meta, timestamp_ms);
    lemma_rate_code_round_trip(meta.sample_rate.0);
    assert(spec_format_from_byte(spec_format_byte(meta.sample_format)) == meta.sample_format);
    assert(header_payload(f) == f.subrange(HEADER_LEN as int, f.len() as int));
    assert(payload.len() <= MAX_DECLARED_LEN ==> carried_payload(payload) =~= payload);
}

/// In an encoded data frame, another first byte gives `BadMagic`, another
/// version byte gives `BadVersion`, and cutting the frame anywhere between the
/// end of the header and the end of the declared payload gives `LengthMismatch`.
pub proof fn lemma_data_frame_damage(
    seq: u64,
    payload: Seq<u8>,
    meta: Meta,
    timestamp_ms: u64,
    magic: u8,
    version: u8,
    keep: int,
)
    requires
        payload.len() <= MAX_DECLARED_LEN,
        magic != DATA_PACKET_MAGIC,
        version != PACKET_VERSION,
        HEADER_LEN <= keep < HEADER_LEN + payload.len(),
    ensures
        ({
            let f = data_frame(seq, payload, meta, timestamp_ms);
            &&& data_frame_error(f.update(0, magic)) == Some(DataPacketError::BadMagic)
            &&& data_frame_error(f.update(1, version)) == Some(DataPacketError::BadVersion)
            &&& data_frame_error(f.subrange(0, keep)) == Some(DataPacketError::LengthMismatch)
        }),
{
    let f = data_frame(seq, payload, meta, timestamp_ms);
    lemma_frame_bytes(seq, payload, meta, timestamp_ms);
    let t = f.subrange(0, keep);
    assert(read_be16(t, 2) == read_be16(f, 2));
}

} // verus!
