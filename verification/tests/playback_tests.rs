use librarian::playback::{
    apply_command, sample_kind_for_depth, sample_to_i16, unpack_24_in_32, DeviceAction,
    PlaybackState, SampleKind, SampleReceiver, StreamCommand,
};

#[test]
fn pause_then_play_leaves_the_stream_playing() {
    // the controller starts its stream immediately, so it begins playing
    let s0 = PlaybackState::Playing;
    let (s1, a1, go1) = apply_command(s0, &StreamCommand::Pause);
    assert_eq!(s1, PlaybackState::Paused);
    assert_eq!(a1, DeviceAction::Suspend);
    assert!(go1);
    let (s2, a2, go2) = apply_command(s1, &StreamCommand::Play);
    assert_eq!(s2, PlaybackState::Playing);
    assert_eq!(a2, DeviceAction::Resume);
    assert!(go2);
}

#[test]
fn stop_suspends_and_ends_the_loop() {
    let (s, a, go) = apply_command(PlaybackState::Playing, &StreamCommand::Stop);
    assert_eq!(s, PlaybackState::Stopped);
    assert_eq!(a, DeviceAction::Suspend);
    assert!(!go);
    let (s, _, go) = apply_command(PlaybackState::Paused, &StreamCommand::Stop);
    assert_eq!(s, PlaybackState::Stopped);
    assert!(!go);
}

#[test]
fn bit_depth_selects_payload_width_once() {
    assert_eq!(sample_kind_for_depth(16), Some(SampleKind::I16));
    assert_eq!(sample_kind_for_depth(24), Some(SampleKind::I32));
    assert_eq!(sample_kind_for_depth(32), Some(SampleKind::I32));
    assert_eq!(sample_kind_for_depth(8), None);
    assert_eq!(sample_kind_for_depth(0), None);
}

#[test]
fn sample_conversions_are_exact() {
    assert_eq!(sample_to_i16(0), 0);
    assert_eq!(sample_to_i16(-32768), -32768);
    assert_eq!(sample_to_i16(32767), 32767);
    assert_eq!(unpack_24_in_32(0), 0);
    assert_eq!(unpack_24_in_32(1), 256);
    assert_eq!(unpack_24_in_32(-1), -256);
    assert_eq!(unpack_24_in_32(0x7f_ffff), 0x7fff_ff00);
    assert_eq!(unpack_24_in_32(-0x80_0000), -0x8000_0000);
}

#[test]
fn receivers_tag_their_payload_width() {
    let (_tx16, rx16) = std::sync::mpsc::channel::<i16>();
    match SampleReceiver::from(rx16) {
        SampleReceiver::I16(_) => (),
        SampleReceiver::I32(_) => panic!("16-bit receiver mislabelled"),
    }
    let (_tx32, rx32) = std::sync::mpsc::channel::<i32>();
    match SampleReceiver::from(rx32) {
        SampleReceiver::I32(_) => (),
        SampleReceiver::I16(_) => panic!("32-bit receiver mislabelled"),
    }
}
