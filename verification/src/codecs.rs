//! Trusted boundary to the codec crates.
//!
//! Each function here makes one call into an outside codec library and hands
//! its result back as plain values. What a call computes from its input alone
//! is given a name (an uninterpreted spec function over the input bytes);
//! what depends on the file system carries no promise, and the verified
//! extraction logic takes such results as arguments instead.

use vstd::prelude::*;

use rtag::frame::FrameBody;
use rtag::metadata::Unit;

verus! {

/// The stream parameters a FLAC stream declares: channel count, bits per
/// sample and sample rate, as claxon reads them from the byte stream, or
/// nothing if the bytes are not a readable FLAC stream.
pub uninterp spec fn flac_stream_info(b: Seq<u8>) -> Option<(u32, u32, u32)>;

/// The Vorbis comment name/value pairs of a FLAC stream, in stream order,
/// as claxon reads them from the byte stream.
pub uninterp spec fn flac_tags(b: Seq<u8>) -> Seq<(String, String)>;

/// Relies on claxon's `FlacReader` opened over the raw bytes with metadata
/// only: `streaminfo` reports the stream's declared channel count (three
/// bits plus one, so 1 to 8), bits per sample (five bits plus one, so 1 to
/// 32) and sample rate (twenty bits), and `tags` yields the Vorbis comment
/// pairs; all of it is a function of the bytes alone.
#[verifier::external_body]
pub(crate) fn read_flac_meta(bytes: &[u8]) -> (r: Option<(u32, u32, u32, Vec<(String, String)>)>)
    ensures
        r is Some <==> flac_stream_info(bytes@) is Some,
        r is Some ==> (r->Some_0.0, r->Some_0.1, r->Some_0.2) == flac_stream_info(
            bytes@,
        )->Some_0,
        r is Some ==> r->Some_0.3@ == flac_tags(bytes@),
        r is Some ==> 1 <= r->Some_0.0 <= 8 && 1 <= r->Some_0.1 <= 32 && r->Some_0.2
            < 0x100000,
{
    let opts = claxon::FlacReaderOptions { metadata_only: true, read_vorbis_comment: true };
    claxon::FlacReader::new_ext(std::io::Cursor::new(bytes), opts).ok().map(|r| {
        let si = r.streaminfo();
        let tags = r.tags().map(|(k, v)| (k.to_string(), v.to_string())).collect();
        (si.channels, si.bits_per_sample, si.sample_rate, tags)
    })
}

/// The header fields a WAV file declares: channel count, bits per sample
/// and sample rate, as hound reads them, or nothing if the bytes are not a
/// readable WAV file.
pub uninterp spec fn wav_stream_info(b: Seq<u8>) -> Option<(u16, u16, u32)>;

/// Relies on hound's `WavReader` opened over the raw bytes: `spec` reports
/// the header's channel count, bits per sample and sample rate, a function
/// of the bytes alone.
#[verifier::external_body]
pub(crate) fn read_wav_spec(bytes: &[u8]) -> (r: Option<(u16, u16, u32)>)
    ensures
        r == wav_stream_info(bytes@),
{
    hound::WavReader::new(std::io::Cursor::new(bytes)).ok().map(|w| {
        let s = w.spec();
        (s.channels, s.bits_per_sample, s.sample_rate)
    })
}

/// What the first decodable MP3 frame declares: channel count, sample rate
/// and bitrate, as minimp3 decodes them, or nothing if no frame decodes.
pub uninterp spec fn mp3_first_frame_info(b: Seq<u8>) -> Option<(usize, i32, i32)>;

/// Relies on minimp3's `Decoder` over the raw bytes: the first decoded
/// frame's channel count, sample rate and bitrate are a function of the
/// bytes alone.
#[verifier::external_body]
pub(crate) fn read_mp3_first_frame(bytes: &[u8]) -> (r: Option<(usize, i32, i32)>)
    ensures
        r == mp3_first_frame_info(bytes@),
{
    let mut dec = minimp3::Decoder::new(std::io::Cursor::new(bytes));
    dec.next_frame().ok().map(|f| (f.channels, f.sample_rate, f.bitrate))
}

/// One tag frame read from an MP3 file, reduced to the fields this library
/// reads. Binary frames (pictures, private data) and every other frame kind
/// are reported as [`TagUnit::Skipped`].
pub enum TagUnit {
    /// A legacy fixed-format tag frame carrying all its fields at once.
    FrameV1 { title: String, artist: String, album: String, year: String, track: String },
    /// An album name frame.
    Album(String),
    /// A track title frame.
    Title(String),
    /// A lead performer frame.
    Artist(String),
    /// A year frame.
    Year(String),
    /// A track position frame.
    TrackNum(String),
    /// Any other frame kind, ignored by the extractor.
    Skipped,
}

#[verifier::external_type_specification]
#[verifier::external_body]
pub struct ExMetadataReader(rtag::metadata::MetadataReader);

/// Relies on rtag's `MetadataReader::new`, which opens and reads the file
/// at `path`; what it finds depends on the file system, so nothing is
/// promised of the result.
#[verifier::external_body]
pub(crate) fn id3_open(path: &str) -> (r: Option<rtag::metadata::MetadataReader>) {
    rtag::metadata::MetadataReader::new(path).ok()
}

/// Relies on rtag's iterator over tag units; each outside variant this
/// library reads is mapped to the matching [`TagUnit`], moving its text
/// fields, and every other variant becomes [`TagUnit::Skipped`].
#[verifier::external_body]
pub(crate) fn id3_next_unit(r: &mut rtag::metadata::MetadataReader) -> (u: Option<TagUnit>) {
    r.next().map(|m| match m {
        Unit::FrameV1(f) => TagUnit::FrameV1 {
            title: f.title, artist: f.artist, album: f.album, year: f.year, track: f.track,
        },
        Unit::FrameV2(_, FrameBody::TALB(t)) => TagUnit::Album(t.text),
        Unit::FrameV2(_, FrameBody::TIT2(t)) => TagUnit::Title(t.text),
        Unit::FrameV2(_, FrameBody::TPE1(t)) => TagUnit::Artist(t.text),
        Unit::FrameV2(_, FrameBody::TYER(t)) => TagUnit::Year(t.text),
        Unit::FrameV2(_, FrameBody::TRCK(t)) => TagUnit::TrackNum(t.text),
        _ => TagUnit::Skipped,
    })
}

} // verus!
