use std::io::Write;

use librarian::codecs::TagUnit;
use librarian::parse::{build_mp3_result, parse_track, UNKNOWN_ENTRY};

/// A few silent MPEG-1 layer III frames: 128 kbit/s at 44100 Hz, stereo,
/// so each frame is 417 bytes long.
fn mp3_bytes() -> Vec<u8> {
    let mut v = Vec::new();
    for _ in 0..4 {
        v.extend_from_slice(&[0xff, 0xfb, 0x90, 0x00]);
        v.extend_from_slice(&[0u8; 413]);
    }
    v
}

#[test]
fn mp3_file_reports_first_frame_parameters() {
    let bytes = mp3_bytes();
    let mut f = tempfile::Builder::new().suffix(".mp3").tempfile().unwrap();
    f.as_file_mut().write_all(&bytes).unwrap();
    let path = f.path().to_str().unwrap().to_string();

    let r = parse_track(path, &bytes).unwrap();
    assert_eq!(r.channels, 2);
    assert_eq!(r.sample_rate, 44100);
    // the codec has no bit depth; the frame bitrate stands in for it
    assert_eq!(r.bit_depth, 128);
    // no tags in the file: the sentinel artist and the stem as title
    assert_eq!(r.artists, vec![String::from(UNKNOWN_ENTRY)]);
    assert!(r.track.len() > 0);
}

#[test]
fn mp3_garbage_yields_no_record() {
    let mut f = tempfile::Builder::new().suffix(".mp3").tempfile().unwrap();
    f.as_file_mut().write_all(b"not an mp3").unwrap();
    let path = f.path().to_str().unwrap().to_string();
    assert!(parse_track(path, b"not an mp3").is_none());
}

#[test]
fn mp3_record_from_frame_and_tag_frames() {
    let units = vec![
        TagUnit::Artist(String::from("Queen")),
        TagUnit::Album(String::from("Jazz")),
        TagUnit::Title(String::from("Don't Stop Me Now")),
        TagUnit::Year(String::from("1978")),
        TagUnit::TrackNum(String::from("12")),
        TagUnit::Skipped,
    ];
    let r = build_mp3_result(String::from("m/dsmn.mp3"), (2, 44100, 320), units).unwrap();
    assert_eq!(r.channels, 2);
    assert_eq!(r.sample_rate, 44100);
    assert_eq!(r.bit_depth, 320);
    assert_eq!(r.artists, vec![String::from("Queen")]);
    assert_eq!(r.album, "Jazz");
    assert_eq!(r.track, "Don't Stop Me Now");
    assert_eq!(r.date, Some(String::from("1978")));
    assert_eq!(r.track_pos, Some(12));
}

#[test]
fn legacy_v1_frame_sets_every_field_at_once() {
    let units = vec![TagUnit::FrameV1 {
        title: String::from("T"),
        artist: String::from("A"),
        album: String::from("Al"),
        year: String::from("1999"),
        track: String::from("9"),
    }];
    let r = build_mp3_result(String::from("m/t.mp3"), (2, 48000, 192), units).unwrap();
    assert_eq!(r.track, "T");
    assert_eq!(r.artists, vec![String::from("A")]);
    assert_eq!(r.album, "Al");
    assert_eq!(r.date, Some(String::from("1999")));
    assert_eq!(r.track_pos, Some(9));
}

#[test]
fn unparsable_track_positions_are_ignored() {
    let units = vec![TagUnit::TrackNum(String::from("1/9"))];
    let r = build_mp3_result(String::from("m/t.mp3"), (2, 44100, 128), units).unwrap();
    assert_eq!(r.track_pos, None);
}

#[test]
fn later_frames_overwrite_earlier_ones() {
    let units = vec![
        TagUnit::Album(String::from("First")),
        TagUnit::Album(String::from("Second")),
    ];
    let r = build_mp3_result(String::from("m/t.mp3"), (2, 44100, 128), units).unwrap();
    assert_eq!(r.album, "Second");
}

#[test]
fn no_tag_frames_fall_back_to_sentinels_and_stem() {
    let r = build_mp3_result(String::from("m/my track.mp3"), (2, 44100, 128), Vec::new()).unwrap();
    assert_eq!(r.artists, vec![String::from(UNKNOWN_ENTRY)]);
    assert_eq!(r.album, UNKNOWN_ENTRY);
    assert_eq!(r.track, "my track");
}
