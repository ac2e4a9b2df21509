use sound_send::handshake::{handshake_step, is_handshake_reply, pong_reply, HandshakeStep};
use sound_send::packet::{
    decode_message, decode_packet, encode_sync, Message, Meta, SampleFormat, SampleRate,
    SyncMessage,
};
use sound_send::rate::Ratio;
use sound_send::receive::{is_idle, PeerReceiver, PEER_IDLE_TIMEOUT_MS};
use sound_send::sender::{bytes_per_sample, is_silent_chunk, SendWorker};
use sound_send::sync_controller::DefaultSyncController;
use sound_send::timesync::{TimeSync, TimeSyncEstimator};

fn new_peer() -> PeerReceiver<u32> {
    PeerReceiver::new(10_000, DefaultSyncController::with_default_estimator(200, 200, 1_000))
}

/// Feeds the sequence numbers in order and returns which were emitted.
fn feed(peer: &mut PeerReceiver<u32>, seqs: &[u64]) -> Vec<u64> {
    let mut emitted = Vec::new();
    for (i, &s) in seqs.iter().enumerate() {
        if peer.on_data(s, 30, 6, 0, i as u64) {
            emitted.push(s);
        }
    }
    emitted
}

#[test]
fn in_order_arrivals_all_reach_the_sink() {
    let mut p = new_peer();
    assert_eq!(feed(&mut p, &[0, 1, 2, 3]), vec![0, 1, 2, 3]);
    assert_eq!(p.stats().lost_packets(), 0);
    assert_eq!(p.stats().out_of_order_packets(), 0);
    assert_eq!(p.expected_sequence(), 4);
}

#[test]
fn gap_counts_one_lost() {
    let mut p = new_peer();
    assert_eq!(feed(&mut p, &[0, 2, 3]), vec![0, 2, 3]);
    assert_eq!(p.stats().lost_packets(), 1);
    assert_eq!(p.stats().out_of_order_packets(), 0);
    assert_eq!(p.expected_sequence(), 4);
}

#[test]
fn late_packet_is_dropped_and_counted() {
    let mut p = new_peer();
    assert_eq!(feed(&mut p, &[0, 2, 1, 3]), vec![0, 2, 3]);
    assert_eq!(p.stats().lost_packets(), 1);
    assert_eq!(p.stats().out_of_order_packets(), 1);
    assert_eq!(p.stats().total_packets_received(), 4);
    assert_eq!(p.stats().total_bytes_received(), 120);
}

#[test]
fn first_packet_gap_is_not_loss() {
    let mut p = new_peer();
    assert_eq!(feed(&mut p, &[5]), vec![5]);
    assert_eq!(p.stats().lost_packets(), 0);
    assert_eq!(p.expected_sequence(), 6);
}

#[test]
fn gap_after_first_zero_counts_loss() {
    let mut p = new_peer();
    assert_eq!(feed(&mut p, &[0, 4]), vec![0, 4]);
    assert_eq!(p.stats().lost_packets(), 3);
}

#[test]
fn sequence_wraps_at_the_top() {
    let mut p = new_peer();
    assert_eq!(feed(&mut p, &[u64::MAX]), vec![u64::MAX]);
    assert_eq!(p.expected_sequence(), 0);
}

#[test]
fn receive_telemetry() {
    let mut p = new_peer();
    p.on_data(0, 1048, 1024, 10, 0);
    p.on_data(1, 1048, 1024, 20, 1_000);
    let s = p.stats_mut();
    assert_eq!(s.bytes_per_sec(1_000), Ratio { num: 2048 * 1000, den: 10_000 });
    assert_eq!(s.average_latency_ms(1_000), Ratio { num: 30, den: 2 });
    assert_eq!(s.loss_ratio(0), Ratio { num: 0, den: 1 });
    s.mark_lost(1);
    assert_eq!(s.loss_ratio(4), Ratio { num: 1, den: 4 });
    assert_eq!(s.maybe_ping(0), None);
    s.register_sender(9);
    assert_eq!(s.maybe_ping(2_000), Some((9, SyncMessage::Ping { t0_ms: 2_000 })));
    s.on_pong(1000, 1010, 1010, 1020);
    assert_eq!(s.offset_us(), 0);
    assert_eq!(s.drift_milli_ppm(), 0);
    assert_eq!(s.compute_latency_ms(1_000, 1_250), 250);
}

#[test]
fn idle_peers_expire_after_timeout() {
    assert!(!is_idle(59_999, 0, PEER_IDLE_TIMEOUT_MS));
    assert!(is_idle(60_000, 0, PEER_IDLE_TIMEOUT_MS));
    assert!(!is_idle(0, 5, PEER_IDLE_TIMEOUT_MS));
}

fn u16_stereo() -> Meta {
    Meta { channels: 2, sample_rate: SampleRate(48_000), sample_format: SampleFormat::U16 }
}

#[test]
fn repeated_silence_is_sent_empty() {
    let mut w = SendWorker::new(u16_stereo(), true, 10_000, 200, 0);
    let silent = [0x00u8, 0x80, 0x00, 0x80];
    let a = w.process_chunk(&silent, 100, 0);
    let b = w.process_chunk(&silent, 101, 1);
    let da = decode_packet(&a.frame).unwrap();
    let db = decode_packet(&b.frame).unwrap();
    assert_eq!(da.payload, &silent[..]);
    assert_eq!(db.payload.len(), 0);
    assert!(db.seq > da.seq);
    assert_eq!((da.seq, db.seq), (0, 1));
    assert_eq!(w.sequence_number(), 2);
}

#[test]
fn sound_after_silence_is_sent_whole() {
    let mut w = SendWorker::new(u16_stereo(), true, 10_000, 200, 0);
    let silent = [0x00u8, 0x80];
    let loud = [0x10u8, 0x90];
    w.process_chunk(&silent, 1, 0);
    w.process_chunk(&silent, 2, 0);
    let c = w.process_chunk(&loud, 3, 0);
    assert_eq!(decode_packet(&c.frame).unwrap().payload, &loud[..]);
    let d = w.process_chunk(&silent, 4, 0);
    assert_eq!(decode_packet(&d.frame).unwrap().payload, &silent[..]);
}

#[test]
fn send_stats_come_once_per_interval() {
    let mut w = SendWorker::new(u16_stereo(), true, 10_000, 200, 0);
    let chunk = [1u8, 2, 3, 4];
    let first = w.process_chunk(&chunk, 0, 100);
    assert!(first.stats.is_none());
    assert!(first.aligned);
    let second = w.process_chunk(&chunk, 0, 200);
    let stats = second.stats.expect("interval passed");
    assert_eq!(stats.total_bytes_sent, 56);
    assert_eq!(stats.bytes_per_sec, Ratio { num: 56_000, den: 10_000 });
    assert_eq!(stats.packets_per_sec, Ratio { num: 2_000, den: 10_000 });
    assert!(w.process_chunk(&chunk, 0, 300).stats.is_none());
    let odd = w.process_chunk(&[1u8, 2, 3], 0, 300);
    assert!(!odd.aligned);
}

#[test]
fn neutral_samples_per_format() {
    assert_eq!(bytes_per_sample(SampleFormat::F32), 4);
    assert_eq!(bytes_per_sample(SampleFormat::I16), 2);
    assert_eq!(bytes_per_sample(SampleFormat::Unknown), 1);
    assert!(is_silent_chunk(SampleFormat::F32, &[0, 0, 0, 0x80, 0, 0, 0, 0], true));
    assert!(is_silent_chunk(SampleFormat::F32, &[0x80, 0, 0, 0], false));
    assert!(!is_silent_chunk(SampleFormat::F32, &[0, 0, 0x80, 0x3f], true));
    assert!(is_silent_chunk(SampleFormat::I16, &[0, 0, 0, 0], true));
    assert!(!is_silent_chunk(SampleFormat::I16, &[0, 0, 0], true));
    assert!(is_silent_chunk(SampleFormat::U16, &[0x80, 0x00], false));
    assert!(!is_silent_chunk(SampleFormat::U16, &[0x80, 0x00], true));
    assert!(is_silent_chunk(SampleFormat::U32, &[0, 0, 0, 0x80], true));
    assert!(!is_silent_chunk(SampleFormat::U32, &[0, 0, 0, 0x80], false));
    assert!(!is_silent_chunk(SampleFormat::Unknown, &[0, 0], true));
    assert!(is_silent_chunk(SampleFormat::I16, &[], true));
}

#[test]
fn ping_schedule_and_latency() {
    let mut c: DefaultSyncController<u32, TimeSyncEstimator> =
        DefaultSyncController::with_default_estimator(200, 200, 1_000);
    assert_eq!(c.maybe_send_ping(5_000), None);
    c.register_sender(7);
    assert_eq!(c.maybe_send_ping(5_000), Some((7, SyncMessage::Ping { t0_ms: 5_000 })));
    assert_eq!(c.maybe_send_ping(5_999), None);
    assert_eq!(c.maybe_send_ping(6_000), Some((7, SyncMessage::Ping { t0_ms: 6_000 })));
    assert_eq!(c.compute_latency_ms(900, 1_000), 100);
    assert_eq!(c.compute_latency_ms(1_100, 1_000), 0);
    // peer clock 5 ms ahead
    c.on_pong(1000, 1015, 1015, 1020);
    assert_eq!(c.offset_us(), 5_000);
    assert_eq!(c.compute_latency_ms(990, 1_000), 5);
    assert_eq!(c.drift_milli_ppm(), 0);
}

#[test]
fn handshake_then_one_frame_reaches_the_sink() {
    // sender pings
    let t0 = 1_700_000_000_000u64;
    let ping = encode_sync(&SyncMessage::Ping { t0_ms: t0 });
    // the receiver answers
    let pong = pong_reply(&ping, t0 + 3).expect("a ping gets a pong");
    assert_eq!(
        decode_message(&pong),
        Ok(Message::Sync(SyncMessage::Pong { t0_ms: t0, t1_ms: t0 + 3, t2_ms: t0 + 3 }))
    );
    assert!(is_handshake_reply(&pong, t0));
    assert!(!is_handshake_reply(&pong, t0 + 1));
    assert!(!is_handshake_reply(&ping, t0));
    assert_eq!(pong_reply(&pong, 0), None);
    // the sender sends one data frame
    let mut w = SendWorker::new(u16_stereo(), true, 10_000, 200, 0);
    let out = w.process_chunk(&[1, 2, 3, 4], t0 + 10, 10);
    // the receiver accounts it and emits its payload
    let mut peer = new_peer();
    let mut sink: Vec<u8> = Vec::new();
    match decode_message(&out.frame) {
        Ok(Message::Data(d)) => {
            if peer.on_data(d.seq, out.frame.len(), d.payload.len(), 0, 20) {
                sink.extend_from_slice(d.payload);
            }
        }
        other => panic!("unexpected {other:?}"),
    }
    assert_eq!(sink, vec![1, 2, 3, 4]);
    assert_eq!(peer.stats().total_packets_received(), 1);
    assert_eq!(peer.stats().lost_packets(), 0);
}

#[test]
fn handshake_gives_up_after_twenty_attempts() {
    assert_eq!(handshake_step(1, true), HandshakeStep::Done);
    assert_eq!(handshake_step(1, false), HandshakeStep::Retry);
    assert_eq!(handshake_step(19, false), HandshakeStep::Retry);
    assert_eq!(handshake_step(20, false), HandshakeStep::GiveUp);
    assert_eq!(handshake_step(20, true), HandshakeStep::Done);
}

#[test]
fn pong_moves_the_estimate_through_the_controller() {
    let mut c: DefaultSyncController<u32, TimeSyncEstimator> =
        DefaultSyncController::new(TimeSyncEstimator::new(500, 500), 1_000);
    c.on_pong(1000, 1015, 1015, 1020);
    assert_eq!(c.offset_us(), 5_000);
    c.on_pong(2000, 2025, 2025, 2020);
    // 0.5 * 5000 + 0.5 * 15000
    assert_eq!(c.offset_us(), 10_000);
    // 10000 us over 1000 ms = 10000 ppm, halved
    assert_eq!(c.drift_milli_ppm(), 5_000_000);
}

#[test]
fn estimator_through_its_trait() {
    let mut e = TimeSyncEstimator::new(200, 200);
    let s = TimeSync::update(&mut e, 1000, 1010, 1010, 1020);
    assert_eq!(TimeSync::state(&e), s);
    assert_eq!(s.delay_us, 20_000);
}
