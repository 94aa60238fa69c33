use audio_player::probe::{
    choose_stream, length_of_frames, plan_probe, FrameTally, ProbePlan, StreamInfo,
};

fn stream(id: u32, sample_rate: Option<u32>, frame_count: Option<u64>) -> StreamInfo {
    StreamInfo { id, sample_rate, frame_count }
}

#[test]
fn metadata_gives_ten_seconds_without_decoding() {
    let plan = plan_probe(stream(0, Some(44100), Some(441000)));
    assert_eq!(plan, ProbePlan::Answer(Some(10_000_000_000)));
}

#[test]
fn length_of_frames_rounds_down_to_a_nanosecond() {
    assert_eq!(length_of_frames(1, 3), Some(333_333_333));
    assert_eq!(length_of_frames(2, 3), Some(666_666_666));
    assert_eq!(length_of_frames(48_000, 48_000), Some(1_000_000_000));
    assert_eq!(length_of_frames(0, 44100), Some(0));
    assert_eq!(length_of_frames(1, 44100), Some(22_675));
}

#[test]
fn length_of_frames_without_a_rate_is_unknown() {
    assert_eq!(length_of_frames(441000, 0), None);
}

#[test]
fn length_of_frames_holds_any_count_of_frames() {
    assert_eq!(length_of_frames(u64::MAX, 1), Some(18_446_744_073_709_551_615_000_000_000));
    assert_eq!(length_of_frames(18_446_744_074, 1), Some(18_446_744_074_000_000_000));
    assert_eq!(length_of_frames(18_446_744_073, 1), Some(18_446_744_073_000_000_000));
    assert_eq!(length_of_frames(u64::MAX, 1_000_000_000), Some(u128::from(u64::MAX)));
    assert_eq!(length_of_frames(u64::MAX, u32::MAX), Some(4_294_967_297_000_000_000));
}

#[test]
fn metadata_answers_for_any_rate_and_frame_count() {
    for (rate, frames) in [(1u32, 0u64), (1, u64::MAX), (44100, 1), (u32::MAX, u64::MAX), (8000, 12_345)] {
        let expected = u128::from(frames) * 1_000_000_000 / u128::from(rate);
        assert_eq!(
            plan_probe(stream(0, Some(rate), Some(frames))),
            ProbePlan::Answer(Some(expected))
        );
    }
}

#[test]
fn plan_counts_frames_where_metadata_is_incomplete() {
    assert_eq!(
        plan_probe(stream(7, Some(48000), None)),
        ProbePlan::CountFrames(FrameTally {
            stream_id: 7,
            total_frames: 0,
            sample_rate: Some(48000)
        })
    );
    assert_eq!(
        plan_probe(stream(3, None, Some(5000))),
        ProbePlan::CountFrames(FrameTally { stream_id: 3, total_frames: 0, sample_rate: None })
    );
    assert_eq!(
        plan_probe(stream(3, None, None)),
        ProbePlan::CountFrames(FrameTally { stream_id: 3, total_frames: 0, sample_rate: None })
    );
}

#[test]
fn plan_answers_unknown_for_a_zero_rate_in_the_header() {
    assert_eq!(plan_probe(stream(0, Some(0), Some(100))), ProbePlan::Answer(None));
}

#[test]
fn tally_sums_frames_and_takes_the_first_rate() {
    let mut tally = FrameTally { stream_id: 2, total_frames: 0, sample_rate: None };
    assert_eq!(tally.finish(), None);
    tally.add_packet(1152, 44100);
    tally.add_packet(1152, 48000);
    tally.add_packet(2106, 48000);
    assert_eq!(tally.total_frames, 4410);
    assert_eq!(tally.sample_rate, Some(44100));
    assert_eq!(tally.finish(), Some(100_000_000));
}

#[test]
fn tally_keeps_the_rate_of_the_header() {
    let mut tally = FrameTally { stream_id: 2, total_frames: 0, sample_rate: Some(8000) };
    tally.add_packet(4000, 44100);
    assert_eq!(tally.sample_rate, Some(8000));
    assert_eq!(tally.finish(), Some(500_000_000));
}

#[test]
fn tally_without_frames_has_length_zero() {
    let tally = FrameTally { stream_id: 2, total_frames: 0, sample_rate: Some(8000) };
    assert_eq!(tally.finish(), Some(0));
}

#[test]
fn fresh_tally_with_a_header_rate_has_length_zero() {
    let ProbePlan::CountFrames(tally) = plan_probe(stream(4, Some(44100), None)) else {
        panic!("the header gave no frame count");
    };
    assert_eq!(tally.finish(), Some(0));
}

#[test]
fn tally_with_a_zero_rate_is_unknown() {
    let mut tally = FrameTally { stream_id: 2, total_frames: 0, sample_rate: Some(0) };
    assert_eq!(tally.finish(), None);
    tally.add_packet(100, 44100);
    assert_eq!(tally.finish(), None);
}

#[test]
fn tally_without_rate_is_unknown() {
    let tally = FrameTally { stream_id: 2, total_frames: 900, sample_rate: None };
    assert_eq!(tally.finish(), None);
}

#[test]
fn tally_counts_only_packets_of_its_stream() {
    let tally = FrameTally { stream_id: 2, total_frames: 0, sample_rate: None };
    assert!(tally.counts(2));
    assert!(!tally.counts(0));
    assert!(!tally.counts(3));
}

#[test]
fn decoding_fallback_from_start_to_finish() {
    let plan = plan_probe(stream(1, None, None));
    let ProbePlan::CountFrames(mut tally) = plan else {
        panic!("metadata was incomplete");
    };
    let packets: [(u32, u64, u32); 4] =
        [(1, 1000, 22050), (9, 5000, 96000), (1, 1000, 22050), (1, 205, 22050)];
    for (packet_stream, frames, rate) in packets {
        if tally.counts(packet_stream) {
            tally.add_packet(frames, rate);
        }
    }
    assert_eq!(tally.total_frames, 2205);
    assert_eq!(tally.finish(), Some(100_000_000));
}

#[test]
fn choose_stream_prefers_the_default() {
    let streams = vec![stream(0, Some(44100), None), stream(1, None, None)];
    assert_eq!(choose_stream(Some(stream(1, None, None)), &streams), Some(stream(1, None, None)));
}

#[test]
fn choose_stream_falls_back_to_first_with_a_rate() {
    let streams =
        vec![stream(0, None, Some(10)), stream(1, Some(48000), None), stream(2, Some(8000), None)];
    assert_eq!(choose_stream(None, &streams), Some(stream(1, Some(48000), None)));
}

#[test]
fn choose_stream_finds_none_without_rates() {
    let streams = vec![stream(0, None, Some(10)), stream(1, None, None)];
    assert_eq!(choose_stream(None, &streams), None);
    assert_eq!(choose_stream(None, &Vec::new()), None);
}
