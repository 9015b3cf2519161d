use librarian::negotiate::{
    candidate_usable, choose_output_config, get_config_score, CandidateOutputConfig, SampleFormat,
};
use librarian::playback::AudioMetadata;

fn meta_2ch_16bit() -> AudioMetadata {
    AudioMetadata { channels: 2, bit_depth: 16, sample_rate: 44100 }
}

fn cand(channels: u16, lo: u32, hi: u32, f: SampleFormat) -> CandidateOutputConfig {
    CandidateOutputConfig {
        channels,
        min_sample_rate: lo,
        max_sample_rate: hi,
        sample_format: f,
    }
}

#[test]
fn scoring_matches_the_design() {
    let meta = meta_2ch_16bit();
    // exact channel match + exact format: 2 + 2
    assert_eq!(get_config_score(&meta, &cand(2, 0, 96000, SampleFormat::I16)), 4);
    // more channels + lossless upcast to float: 1 + 1
    assert_eq!(get_config_score(&meta, &cand(6, 0, 96000, SampleFormat::F32)), 2);
    // fewer channels + lossy format: 0 + 0
    assert_eq!(get_config_score(&meta, &cand(1, 0, 96000, SampleFormat::U16)), 0);
    // exact channels, upcast format: 2 + 1
    assert_eq!(get_config_score(&meta, &cand(2, 0, 96000, SampleFormat::I32)), 3);
    let meta24 = AudioMetadata { channels: 2, bit_depth: 24, sample_rate: 96000 };
    assert_eq!(get_config_score(&meta24, &cand(2, 0, 96000, SampleFormat::I24)), 4);
    assert_eq!(get_config_score(&meta24, &cand(2, 0, 96000, SampleFormat::I32)), 3);
    assert_eq!(get_config_score(&meta24, &cand(2, 0, 96000, SampleFormat::F32)), 2);
}

#[test]
fn exact_match_beats_superset_either_order() {
    let meta = meta_2ch_16bit();
    let exact = cand(2, 8000, 48000, SampleFormat::I16);
    let superset = cand(6, 8000, 192000, SampleFormat::F32);

    let r = choose_output_config(&meta, &vec![exact, superset]);
    assert_eq!(r, Some(0));
    let r = choose_output_config(&meta, &vec![superset, exact]);
    assert_eq!(r, Some(1));
}

#[test]
fn negotiation_fails_when_no_range_covers_the_rate() {
    let meta = meta_2ch_16bit();
    let low = cand(2, 8000, 22050, SampleFormat::I16);
    let high = cand(2, 48000, 192000, SampleFormat::I16);
    assert_eq!(choose_output_config(&meta, &vec![low, high]), None);
    assert_eq!(choose_output_config(&meta, &Vec::new()), None);
}

#[test]
fn zero_channel_candidates_are_filtered() {
    let meta = meta_2ch_16bit();
    let broken = cand(0, 0, 96000, SampleFormat::I16);
    assert!(!candidate_usable(&meta, &broken));
    assert_eq!(choose_output_config(&meta, &vec![broken]), None);
    let ok = cand(2, 0, 96000, SampleFormat::U16);
    assert_eq!(choose_output_config(&meta, &vec![broken, ok]), Some(1));
}

#[test]
fn ties_pick_the_later_candidate() {
    let meta = meta_2ch_16bit();
    let a = cand(2, 0, 96000, SampleFormat::I16);
    let b = cand(2, 0, 48000, SampleFormat::I16);
    assert_eq!(choose_output_config(&meta, &vec![a, b]), Some(1));
}
