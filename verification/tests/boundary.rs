use jetstream_sessions::boundary::encode_all_step;
use jetstream_sessions::boundary::encode_result;
use jetstream_sessions::boundary::encoder_config;
use jetstream_sessions::boundary::get_decoded;
use jetstream_sessions::boundary::get_decoded_index;
use jetstream_sessions::boundary::has_decoder;
use jetstream_sessions::boundary::new_decoder;
use jetstream_sessions::boundary::new_encoder;
use jetstream_sessions::boundary::remove_decoder;
use jetstream_sessions::boundary::remove_encoder;
use jetstream_sessions::boundary::store_decoded;
use jetstream_sessions::boundary::EncodeStep;
use jetstream_sessions::registry::SessionRegistry;
use jetstream_sessions::sample::DecoderSession;
use jetstream_sessions::sample::EncoderSession;
use jetstream_sessions::sample::JetstreamDatasetWithQuality;

fn sample(t: u64, i32s: &[i32], q: &[u32]) -> JetstreamDatasetWithQuality {
    JetstreamDatasetWithQuality { t, i32s: i32s.to_vec(), q: q.to_vec() }
}

#[test]
fn create_then_remove_reports_not_found() {
    let mut enc: SessionRegistry<EncoderSession> = SessionRegistry::new();
    new_encoder(&mut enc, 7, 2, 4000, 1);
    assert!(encoder_config(&enc, 7).is_some());
    remove_encoder(&mut enc, 7);
    assert!(encoder_config(&enc, 7).is_none());

    let mut dec: SessionRegistry<DecoderSession> = SessionRegistry::new();
    new_decoder(&mut dec, 7, 2, 4000, 1);
    assert!(has_decoder(&dec, 7));
    remove_decoder(&mut dec, 7);
    assert!(!has_decoder(&dec, 7));
    assert!(!store_decoded(&mut dec, 7, vec![sample(1, &[1, 2], &[0, 0])]));
    assert!(!get_decoded_index(&dec, 7, 0, 0).ok);
    assert!(get_decoded(&dec, 7).is_none());
}

#[test]
fn replace_on_duplicate_keeps_second_configuration() {
    let mut enc: SessionRegistry<EncoderSession> = SessionRegistry::new();
    new_encoder(&mut enc, 9, 2, 4000, 1);
    new_encoder(&mut enc, 9, 8, 14400, 6);
    let cfg = encoder_config(&enc, 9).unwrap();
    assert_eq!(cfg.channel_count, 8);
    assert_eq!(cfg.sampling_rate, 14400);
    assert_eq!(cfg.samples_per_message, 6);

    let mut dec: SessionRegistry<DecoderSession> = SessionRegistry::new();
    new_decoder(&mut dec, 9, 2, 4000, 1);
    assert!(store_decoded(&mut dec, 9, vec![sample(5, &[1, 2], &[0, 0])]));
    new_decoder(&mut dec, 9, 3, 4800, 2);
    // The replacement starts with an empty output set.
    assert_eq!(get_decoded(&dec, 9).unwrap().len(), 0);
    assert!(!get_decoded_index(&dec, 9, 0, 0).ok);
}

#[test]
fn operations_on_one_identifier_leave_others_alone() {
    let mut enc: SessionRegistry<EncoderSession> = SessionRegistry::new();
    new_encoder(&mut enc, 1, 2, 4000, 1);
    new_encoder(&mut enc, 2, 4, 4800, 2);
    remove_encoder(&mut enc, 1);
    let kept = encoder_config(&enc, 2).unwrap();
    assert_eq!(kept.channel_count, 4);

    let mut dec: SessionRegistry<DecoderSession> = SessionRegistry::new();
    new_decoder(&mut dec, 1, 1, 4000, 1);
    new_decoder(&mut dec, 2, 1, 4000, 1);
    assert!(store_decoded(&mut dec, 1, vec![sample(11, &[3], &[1])]));
    assert!(store_decoded(&mut dec, 2, vec![sample(22, &[4], &[2])]));
    remove_decoder(&mut dec, 1);
    let p = get_decoded_index(&dec, 2, 0, 0);
    assert!(p.ok);
    assert_eq!(p.t, 22);
    assert_eq!(p.value, 4);
    assert_eq!(p.q, 2);
}

#[test]
fn second_decode_overwrites_first() {
    let mut dec: SessionRegistry<DecoderSession> = SessionRegistry::new();
    new_decoder(&mut dec, 3, 1, 4000, 2);
    assert!(store_decoded(
        &mut dec,
        3,
        vec![sample(1, &[10], &[0]), sample(2, &[20], &[0])]
    ));
    assert!(store_decoded(&mut dec, 3, vec![sample(9, &[90], &[7])]));
    let out = get_decoded(&dec, 3).unwrap();
    assert_eq!(out.len(), 1);
    assert_eq!(out[0].t, 9);
    assert_eq!(out[0].i32s, vec![90]);
    assert_eq!(out[0].q, vec![7]);
    // Nothing of the first call's output is still reachable.
    assert!(!get_decoded_index(&dec, 3, 1, 0).ok);
}

#[test]
fn bulk_retrieval_returns_all_samples_in_order() {
    let mut dec: SessionRegistry<DecoderSession> = SessionRegistry::new();
    new_decoder(&mut dec, 6, 1, 4000, 3);
    assert!(store_decoded(
        &mut dec,
        6,
        vec![
            sample(1, &[10], &[0]),
            sample(2, &[20], &[1]),
            sample(3, &[30], &[2]),
        ]
    ));
    let out = get_decoded(&dec, 6).unwrap();
    assert_eq!(out.len(), 3);
    let stamps: Vec<u64> = out.iter().map(|s| s.t).collect();
    assert_eq!(stamps, vec![1, 2, 3]);
    let values: Vec<i32> = out.iter().map(|s| s.i32s[0]).collect();
    assert_eq!(values, vec![10, 20, 30]);
    let quality: Vec<u32> = out.iter().map(|s| s.q[0]).collect();
    assert_eq!(quality, vec![0, 1, 2]);
}

#[test]
fn retrieval_is_bounds_checked() {
    let mut dec: SessionRegistry<DecoderSession> = SessionRegistry::new();
    new_decoder(&mut dec, 4, 2, 4000, 1);
    // Before any decode the output set is empty.
    let r = get_decoded_index(&dec, 4, 0, 0);
    assert!(!r.ok);
    assert_eq!((r.t, r.value, r.q), (0, 0, 0));
    assert!(store_decoded(&mut dec, 4, vec![sample(100, &[10, -5], &[0, 0])]));
    assert!(get_decoded_index(&dec, 4, 0, 1).ok);
    assert!(!get_decoded_index(&dec, 4, 0, 2).ok);
    assert!(!get_decoded_index(&dec, 4, 1, 0).ok);
    assert!(!get_decoded_index(&dec, 4, usize::MAX, 0).ok);
}

#[test]
fn unknown_identifier_returns_sentinels_and_mutates_nothing() {
    let mut enc: SessionRegistry<EncoderSession> = SessionRegistry::new();
    assert!(encoder_config(&enc, 42).is_none());
    remove_encoder(&mut enc, 42);

    let mut dec: SessionRegistry<DecoderSession> = SessionRegistry::new();
    new_decoder(&mut dec, 1, 1, 4000, 1);
    assert!(store_decoded(&mut dec, 1, vec![sample(7, &[70], &[0])]));
    assert!(!store_decoded(&mut dec, 42, vec![sample(8, &[80], &[0])]));
    remove_decoder(&mut dec, 42);
    let r = get_decoded_index(&dec, 42, 0, 0);
    assert!(!r.ok);
    assert_eq!((r.t, r.value, r.q), (0, 0, 0));
    // The only live session is untouched.
    let p = get_decoded_index(&dec, 1, 0, 0);
    assert!(p.ok);
    assert_eq!(p.t, 7);
}

#[test]
fn scenario_two_channels_one_sample_per_message() {
    // Session shape: two channels, 4000 Hz, one sample per message.
    let mut enc: SessionRegistry<EncoderSession> = SessionRegistry::new();
    new_encoder(&mut enc, 0xA, 2, 4000, 1);
    let cfg = encoder_config(&enc, 0xA).unwrap();
    assert_eq!(cfg.channel_count, 2);
    // A completed message hands its buffer across the boundary.
    let message = encode_result(Some((vec![0xDE, 0xAD, 0xBE], 3)));
    assert_eq!(message.len, 3);
    let bytes = message.data.unwrap();
    assert_eq!(bytes, vec![0xDE, 0xAD, 0xBE]);

    // The decoded counterpart: one sample, t=100, values [10, -5], quality [0, 0].
    let mut dec: SessionRegistry<DecoderSession> = SessionRegistry::new();
    new_decoder(&mut dec, 0xB, 2, 4000, 1);
    assert!(store_decoded(&mut dec, 0xB, vec![sample(100, &[10, -5], &[0, 0])]));
    let p0 = get_decoded_index(&dec, 0xB, 0, 0);
    assert!(p0.ok);
    assert_eq!((p0.t, p0.value, p0.q), (100, 10, 0));
    let p1 = get_decoded_index(&dec, 0xB, 0, 1);
    assert!(p1.ok);
    assert_eq!((p1.t, p1.value, p1.q), (100, -5, 0));
    assert!(!get_decoded_index(&dec, 0xB, 1, 0).ok);
}

#[test]
fn encode_result_sentinels() {
    // Codec failure: the null sentinel.
    let failed = encode_result(None);
    assert_eq!(failed.len, 0);
    assert!(failed.data.is_none());
    // No completed message yet: the null sentinel.
    let pending = encode_result(Some((vec![1, 2, 3], 0)));
    assert_eq!(pending.len, 0);
    assert!(pending.data.is_none());
    // A length the buffer does not cover: the null sentinel.
    let inconsistent = encode_result(Some((vec![1], 5)));
    assert_eq!(inconsistent.len, 0);
    assert!(inconsistent.data.is_none());
    // A completed message: exactly its first `len` bytes cross over.
    let done = encode_result(Some((vec![1, 2, 3], 2)));
    assert_eq!(done.len, 2);
    assert_eq!(done.data.unwrap(), vec![1, 2]);
}

#[test]
fn batch_encode_stops_at_first_completed_message() {
    match encode_all_step(Some((Vec::new(), 0))) {
        EncodeStep::NeedMore => {}
        EncodeStep::Done(_) => panic!("an incomplete message must not end the batch"),
    }
    match encode_all_step(Some((vec![5, 6], 2))) {
        EncodeStep::Done(res) => {
            assert_eq!(res.len, 2);
            assert_eq!(res.data.unwrap(), vec![5, 6]);
        }
        EncodeStep::NeedMore => panic!("a completed message must end the batch"),
    }
    match encode_all_step(None) {
        EncodeStep::Done(res) => {
            assert_eq!(res.len, 0);
            assert!(res.data.is_none());
        }
        EncodeStep::NeedMore => panic!("a codec failure must abort the batch"),
    }
}
