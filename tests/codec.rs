use sound_send::packet::{
    decode_message, decode_packet, decode_sync, encode_packet, encode_sync, DataPacketError,
    DecodeError, Message, Meta, SampleFormat, SampleRate, SampleRateCode, SyncDecodeError,
    SyncMessage,
};
use sound_send::packet_data::{HEADER_LEN, PACKET_VERSION};
use sound_send::sync;

fn stereo_f32() -> Meta {
    Meta { channels: 2, sample_rate: SampleRate(48_000), sample_format: SampleFormat::F32 }
}

#[test]
fn encode_then_decode_roundtrip() {
    let seq = 1234567890123456789u64;
    let payload = b"hello world";
    let meta = stereo_f32();
    let pkt = encode_packet(seq, payload, meta, 42);
    let d = decode_packet(&pkt).expect("decode ok");
    assert_eq!(d.seq, seq);
    assert_eq!(d.timestamp_ms, 42);
    assert_eq!(d.meta, meta);
    assert_eq!(d.payload, payload);
}

#[test]
fn enforces_length_and_magic_version() {
    let meta = Meta { channels: 1, sample_rate: SampleRate(44_000), sample_format: SampleFormat::I16 };
    let pkt = encode_packet(1, b"abc", meta, 0);
    let mut bad_magic = pkt.clone();
    bad_magic[0] = 0;
    assert_eq!(decode_packet(&bad_magic), Err(DataPacketError::BadMagic));

    let mut bad_version = pkt.clone();
    bad_version[1] = PACKET_VERSION.wrapping_add(1);
    assert_eq!(decode_packet(&bad_version), Err(DataPacketError::BadVersion));

    let mut short = pkt.clone();
    short.truncate(HEADER_LEN + 1);
    assert_eq!(decode_packet(&short), Err(DataPacketError::LengthMismatch));
}

#[test]
fn packet_sync_roundtrip_ping() {
    let m = SyncMessage::Ping { t0_ms: 123 };
    let v = encode_sync(&m);
    let d = decode_sync(&v).unwrap();
    assert_eq!(m, d);
}

#[test]
fn packet_sync_roundtrip_pong() {
    let m = SyncMessage::Pong { t0_ms: 1, t1_ms: 2, t2_ms: 3 };
    let v = encode_sync(&m);
    let d = decode_sync(&v).unwrap();
    assert_eq!(m, d);
}

#[test]
fn decode_data_message_via_packet() {
    let meta = stereo_f32();
    let pkt = encode_packet(1, b"xyz", meta, 42);
    let m = decode_message(&pkt).unwrap();
    match m {
        Message::Data(dm) => {
            assert_eq!(dm.seq, 1);
            assert_eq!(dm.timestamp_ms, 42);
            assert_eq!(dm.payload, b"xyz");
        }
        _ => panic!("expected data message"),
    }
}

#[test]
fn sync_roundtrip_ping() {
    let m = SyncMessage::Ping { t0_ms: 123 };
    let v = sync::encode(m);
    let d = sync::decode(&v).unwrap();
    assert_eq!(m, d);
}

#[test]
fn sync_roundtrip_pong() {
    let m = SyncMessage::Pong { t0_ms: 1, t1_ms: 2, t2_ms: 3 };
    let v = sync::encode(m);
    let d = sync::decode(&v).unwrap();
    assert_eq!(m, d);
}

#[test]
fn data_header_is_byte_exact() {
    let meta = Meta { channels: 2, sample_rate: SampleRate(44_100), sample_format: SampleFormat::U16 };
    let pkt = encode_packet(0x0102030405060708, &[0xaa, 0xbb], meta, 0x1112131415161718);
    assert_eq!(
        pkt,
        vec![
            0x53, 2, 0, 2, 2, 6, 3, 0, 1, 2, 3, 4, 5, 6, 7, 8, 0x11, 0x12, 0x13, 0x14, 0x15,
            0x16, 0x17, 0x18, 0xaa, 0xbb
        ]
    );
}

#[test]
fn sync_frames_are_byte_exact() {
    let ping = encode_sync(&SyncMessage::Ping { t0_ms: 0x0102 });
    assert_eq!(ping, vec![0x54, 1, 1, 0, 0, 0, 0, 0, 0, 1, 2]);
    let pong = encode_sync(&SyncMessage::Pong { t0_ms: 1, t1_ms: 2, t2_ms: 3 });
    assert_eq!(pong.len(), 27);
    assert_eq!(&pong[..3], &[0x54, 1, 2]);
    assert_eq!(pong[10], 1);
    assert_eq!(pong[18], 2);
    assert_eq!(pong[26], 3);
}

#[test]
fn frames_start_with_their_magic_and_empty_is_unknown() {
    let pkt = encode_packet(7, b"", stereo_f32(), 1);
    assert_eq!(pkt[0], 0x53);
    assert_eq!(encode_sync(&SyncMessage::Ping { t0_ms: 5 })[0], 0x54);
    assert_eq!(decode_message(&[]), Err(DecodeError::UnknownMagic));
    assert_eq!(decode_message(&[0x00, 1, 2]), Err(DecodeError::UnknownMagic));
}

#[test]
fn round_trip_keeps_every_field_for_listed_formats() {
    let formats = [SampleFormat::F32, SampleFormat::I16, SampleFormat::U16, SampleFormat::U32];
    let rates = [0u32, 8_000, 22_050, 44_100, 96_000, 192_000];
    let payload: Vec<u8> = (0..300u32).map(|i| (i * 7) as u8).collect();
    for f in formats {
        for r in rates {
            let meta = Meta { channels: 6, sample_rate: SampleRate(r), sample_format: f };
            let pkt = encode_packet(u64::MAX, &payload, meta, 99);
            let d = decode_packet(&pkt).unwrap();
            assert_eq!(d.seq, u64::MAX);
            assert_eq!(d.timestamp_ms, 99);
            assert_eq!(d.meta, meta);
            assert_eq!(d.payload, &payload[..]);
        }
    }
}

#[test]
fn unlisted_rate_and_unknown_format_lose_detail() {
    let meta = Meta { channels: 1, sample_rate: SampleRate(44_000), sample_format: SampleFormat::Unknown };
    let pkt = encode_packet(3, b"ab", meta, 4);
    assert_eq!(pkt[5], 0);
    assert_eq!(pkt[6], 0);
    let d = decode_packet(&pkt).unwrap();
    assert_eq!(d.meta.sample_rate, SampleRate(0));
    assert_eq!(d.meta.sample_format, SampleFormat::F32);
}

#[test]
fn largest_payload_round_trips() {
    let payload = vec![0x5au8; 65_535];
    let pkt = encode_packet(1, &payload, stereo_f32(), 2);
    assert_eq!(&pkt[2..4], &[0xff, 0xff]);
    let d = decode_packet(&pkt).unwrap();
    assert_eq!(d.payload.len(), 65_535);
}

#[test]
fn oversized_payload_header_is_capped() {
    let payload = vec![1u8; 70_000];
    let pkt = encode_packet(1, &payload, stereo_f32(), 2);
    assert_eq!(&pkt[2..4], &[0xff, 0xff]);
    assert_eq!(pkt.len(), HEADER_LEN + 65_535);
    let d = decode_packet(&pkt).unwrap();
    assert_eq!(d.payload, &payload[..65_535]);
}

#[test]
fn trailing_bytes_are_a_length_mismatch() {
    let mut pkt = encode_packet(1, b"abcd", stereo_f32(), 2);
    pkt.push(0);
    assert_eq!(decode_packet(&pkt), Err(DataPacketError::LengthMismatch));
}

#[test]
fn data_decode_errors() {
    assert_eq!(decode_packet(&[0x53, 2, 0]), Err(DataPacketError::TooShort));
    let mut pkt = encode_packet(1, b"abcd", stereo_f32(), 2);
    pkt.pop();
    assert_eq!(decode_packet(&pkt), Err(DataPacketError::LengthMismatch));
    assert_eq!(decode_message(&pkt), Err(DecodeError::Data(DataPacketError::LengthMismatch)));
    let mut bad = encode_packet(1, b"", stereo_f32(), 2);
    bad[1] = 3;
    assert_eq!(decode_message(&bad), Err(DecodeError::Data(DataPacketError::BadVersion)));
}

#[test]
fn sync_decode_errors() {
    assert_eq!(decode_sync(&[]), Err(SyncDecodeError::TooShort));
    assert_eq!(decode_sync(&[0x53]), Err(SyncDecodeError::BadMagic));
    assert_eq!(decode_sync(&[0x54]), Err(SyncDecodeError::TooShort));
    assert_eq!(decode_sync(&[0x54, 2, 1]), Err(SyncDecodeError::BadVersion));
    assert_eq!(decode_sync(&[0x54, 1]), Err(SyncDecodeError::TooShort));
    assert_eq!(decode_sync(&[0x54, 1, 9]), Err(SyncDecodeError::UnknownType));
    assert_eq!(decode_sync(&[0x54, 1, 1, 0, 0]), Err(SyncDecodeError::TooShort));
    let mut pong = encode_sync(&SyncMessage::Pong { t0_ms: 1, t1_ms: 2, t2_ms: 3 });
    pong.truncate(26);
    assert_eq!(decode_sync(&pong), Err(SyncDecodeError::TooShort));
    assert_eq!(sync::decode(&pong), None);
    assert_eq!(decode_message(&[0x54, 1, 7]), Err(DecodeError::Sync(SyncDecodeError::UnknownType)));
    let mut ping = encode_sync(&SyncMessage::Ping { t0_ms: 1 });
    ping[1] = 0;
    assert_eq!(decode_sync(&ping), Err(SyncDecodeError::BadVersion));
}

#[test]
fn sample_rate_codes() {
    assert_eq!(SampleRateCode::from_hz(48_000), SampleRateCode::Hz48000);
    assert_eq!(SampleRateCode::from_hz(48_001), SampleRateCode::Unknown);
    assert_eq!(SampleRateCode::Hz48000.code(), 7);
    assert_eq!(SampleRateCode::Hz192000.code(), 11);
    assert_eq!(SampleRateCode::from_code(1).to_hz(), 8_000);
    assert_eq!(SampleRateCode::from_code(12), SampleRateCode::Unknown);
    assert_eq!(SampleRateCode::Unknown.to_hz(), 0);
    assert_eq!(SampleRateCode::from_code(10).to_hz(), 176_400);
}

#[test]
fn error_descriptions() {
    assert_eq!(DecodeError::UnknownMagic.as_str(), "unknown packet magic");
    assert_eq!(DataPacketError::TooShort.as_str(), "packet too short");
    assert_eq!(SyncDecodeError::UnknownType.as_str(), "unknown sync packet type");
}
