use librarian::parse::{parse_aiff, parse_flac, parse_track, parse_wav, AIF, AIFF, FLAC, MP3, UNKNOWN_ENTRY, WAV};

#[test]
fn extension_constants_spell_the_recognized_extensions() {
    assert_eq!(FLAC, "flac");
    assert_eq!(WAV, "wav");
    assert_eq!(MP3, "mp3");
    assert_eq!(AIF, "aif");
    assert_eq!(AIFF, "aiff");
}

/// A minimal FLAC stream: the `fLaC` magic, a STREAMINFO block declaring
/// 2 channels, 16 bits per sample and 44100 Hz, and a Vorbis comment
/// block holding the given tags.
fn flac_bytes(tags: &[(&str, &str)]) -> Vec<u8> {
    let mut v = Vec::new();
    v.extend_from_slice(b"fLaC");
    // STREAMINFO block header: not last, type 0, length 34
    v.extend_from_slice(&[0x00, 0x00, 0x00, 0x22]);
    v.extend_from_slice(&4096u16.to_be_bytes());
    v.extend_from_slice(&4096u16.to_be_bytes());
    v.extend_from_slice(&[0, 0, 0]);
    v.extend_from_slice(&[0, 0, 0]);
    // 44100 Hz (20 bits), channels-1 = 1 (3 bits), bps-1 = 15 (5 bits),
    // total samples = 0 (36 bits)
    v.extend_from_slice(&[0x0A, 0xC4, 0x42, 0xF0, 0, 0, 0, 0]);
    v.extend_from_slice(&[0u8; 16]);
    // VORBIS_COMMENT block header: last, type 4
    let mut vc = Vec::new();
    let vendor = b"testenc";
    vc.extend_from_slice(&(vendor.len() as u32).to_le_bytes());
    vc.extend_from_slice(vendor);
    vc.extend_from_slice(&(tags.len() as u32).to_le_bytes());
    for (k, val) in tags {
        let c = format!("{}={}", k, val);
        vc.extend_from_slice(&(c.len() as u32).to_le_bytes());
        vc.extend_from_slice(c.as_bytes());
    }
    v.push(0x84);
    v.push(((vc.len() >> 16) & 0xff) as u8);
    v.push(((vc.len() >> 8) & 0xff) as u8);
    v.push((vc.len() & 0xff) as u8);
    v.extend_from_slice(&vc);
    v
}

/// A small WAV file written through hound with the given stream
/// parameters.
fn wav_bytes(channels: u16, bits: u16, rate: u32) -> Vec<u8> {
    let spec = hound::WavSpec {
        channels,
        sample_rate: rate,
        bits_per_sample: bits,
        sample_format: hound::SampleFormat::Int,
    };
    let mut cur = std::io::Cursor::new(Vec::new());
    {
        let mut w = hound::WavWriter::new(&mut cur, spec).unwrap();
        for _ in 0..4 {
            w.write_sample(0i16).unwrap();
        }
        w.finalize().unwrap();
    }
    cur.into_inner()
}

#[test]
fn flac_reports_declared_stream_parameters() {
    let bytes = flac_bytes(&[("ARTIST", "Queen"), ("TITLE", "Song"), ("ALBUM", "Opera")]);
    let r = parse_flac(String::from("m/track.flac"), &bytes).unwrap();
    assert_eq!(r.channels, 2);
    assert_eq!(r.bit_depth, 16);
    assert_eq!(r.sample_rate, 44100);
}

#[test]
fn flac_reads_tags_case_insensitively() {
    let bytes = flac_bytes(&[
        ("ARTIST", "Queen"),
        ("artist", "Bowie"),
        ("Title", "Under Pressure"),
        ("ALBUM", "Hot Space"),
        ("DATE", "1981"),
        ("TRACKNUMBER", "4"),
    ]);
    let r = parse_flac(String::from("m/track.flac"), &bytes).unwrap();
    assert_eq!(r.artists, vec![String::from("Queen"), String::from("Bowie")]);
    assert_eq!(r.track, "Under Pressure");
    assert_eq!(r.album, "Hot Space");
    assert_eq!(r.date, Some(String::from("1981")));
    assert_eq!(r.track_pos, Some(4));
}

#[test]
fn flac_ignores_unparsable_track_number() {
    let bytes = flac_bytes(&[("ARTIST", "X"), ("TRACKNUMBER", "1/9")]);
    let r = parse_flac(String::from("m/track.flac"), &bytes).unwrap();
    assert_eq!(r.track_pos, None);
    // the title fell back to the file stem
    assert_eq!(r.track, "track");
}

#[test]
fn flac_with_no_tags_uses_fallbacks() {
    let bytes = flac_bytes(&[]);
    let r = parse_flac(String::from("m/My Tune.flac"), &bytes).unwrap();
    assert_eq!(r.artists, vec![String::from(UNKNOWN_ENTRY)]);
    assert_eq!(r.album, UNKNOWN_ENTRY);
    assert_eq!(r.track, "My Tune");
}

#[test]
fn flac_rejects_garbage() {
    assert!(parse_flac(String::from("m/x.flac"), b"not a flac stream").is_none());
}

#[test]
fn wav_reports_declared_stream_parameters() {
    let bytes = wav_bytes(2, 16, 44100);
    let r = parse_wav(String::from("m/take.wav"), &bytes).unwrap();
    assert_eq!(r.channels, 2);
    assert_eq!(r.bit_depth, 16);
    assert_eq!(r.sample_rate, 44100);
    assert_eq!(r.artists, vec![String::from(UNKNOWN_ENTRY)]);
    assert_eq!(r.album, UNKNOWN_ENTRY);
    assert_eq!(r.track, UNKNOWN_ENTRY);
    assert_eq!(r.date, None);
    assert_eq!(r.track_pos, None);
}

#[test]
fn wav_rejects_garbage() {
    assert!(parse_wav(String::from("m/x.wav"), b"RIFFnope").is_none());
}

#[test]
fn dispatch_by_extension() {
    let wav = wav_bytes(1, 16, 8000);
    let r = parse_track(String::from("d/one.wav"), &wav).unwrap();
    assert_eq!(r.channels, 1);
    assert_eq!(r.sample_rate, 8000);

    let flac = flac_bytes(&[("ARTIST", "A")]);
    let r = parse_track(String::from("d/two.flac"), &flac).unwrap();
    assert_eq!(r.channels, 2);

    // unsupported or missing extensions yield no record and no failure
    assert!(parse_track(String::from("d/none"), &wav).is_none());
    assert!(parse_track(String::from("d/skip.ogg"), &wav).is_none());
    assert!(parse_track(String::from("d/skip.aif"), &wav).is_none());
    assert!(parse_track(String::from("d/skip.aiff"), &wav).is_none());
    // an unreadable file of a supported kind is skipped, not fatal
    assert!(parse_track(String::from("d/broken.wav"), b"junk").is_none());
    // extension matching is exact, as before
    assert!(parse_track(String::from("d/upper.WAV"), &wav).is_none());
}

#[test]
fn aiff_is_recognized_but_unsupported() {
    assert!(parse_aiff(String::from("d/x.aiff")).is_none());
}
