//! Track metadata drafts and their completion policy.
//!
//! A [`ParseResultBuilder`] accumulates partially known metadata for one
//! audio file. [`ParseResultBuilder::complete`] applies the unknown-value
//! fallback policy, removes consecutive duplicate artists, and yields a
//! [`ParseResult`] only when every required field is present.

use vstd::prelude::*;

use crate::codecs;
use crate::codecs::TagUnit;
use crate::text;

verus! {

broadcast use vstd::string::group_string_axioms;

/// Extension handled by the FLAC reader.
pub const FLAC: &'static str = "flac";

/// Extension handled by the WAV reader.
pub const WAV: &'static str = "wav";

/// Extension handled by the MP3 reader.
pub const MP3: &'static str = "mp3";

/// An AIFF extension; the format is recognized but not supported.
pub const AIF: &'static str = "aif";

/// An AIFF extension; the format is recognized but not supported.
pub const AIFF: &'static str = "aiff";

/// Upper bound on the number of tag frames read from one file, far above
/// what any real tag holds; it keeps the reading loop finite even on a
/// malformed frame stream.
pub const MAX_TAG_FRAMES: usize = 65536;

/// Sentinel stored for a missing artist, album or title.
pub const UNKNOWN_ENTRY: &'static str = "";

/// Directory name used in place of a missing artist.
pub const UNKNOWN_ARTIST_DIR: &'static str = "Unknown Artist";

/// Directory name used in place of a missing album.
pub const UNKNOWN_ALBUM_DIR: &'static str = "Unknown Album";

/// The sentinel value of [`UNKNOWN_ENTRY`], as a character sequence.
pub open spec fn unknown_entry_seq() -> Seq<char> {
    Seq::<char>::empty()
}

/// Mathematical model of a [`ParseResultBuilder`].
pub ghost struct BuilderView {
    pub path: Seq<char>,
    pub artists: Seq<Seq<char>>,
    pub album: Option<Seq<char>>,
    pub date: Option<Seq<char>>,
    pub track: Option<Seq<char>>,
    pub track_pos: Option<i32>,
    pub channels: Option<u16>,
    pub bit_depth: Option<u16>,
    pub sample_rate: Option<u32>,
}

/// Mathematical model of a [`ParseResult`].
pub ghost struct ResultView {
    pub path: Seq<char>,
    pub artists: Seq<Seq<char>>,
    pub album: Seq<char>,
    pub date: Option<Seq<char>>,
    pub track: Seq<char>,
    pub track_pos: Option<i32>,
    pub channels: u16,
    pub bit_depth: u16,
    pub sample_rate: u32,
}

/// Mutable accumulator for the metadata of one file.
#[derive(Debug)]
pub struct ParseResultBuilder {
    path: String,
    artists: Vec<String>,
    album: Option<String>,
    date: Option<String>,
    track: Option<String>,
    track_pos: Option<i32>,
    channels: Option<u16>,
    bit_depth: Option<u16>,
    sample_rate: Option<u32>,
}

impl View for ParseResultBuilder {
    type V = BuilderView;

    closed spec fn view(&self) -> BuilderView {
        BuilderView {
            path: self.path@,
            artists: self.artists.deep_view(),
            album: self.album.deep_view(),
            date: self.date.deep_view(),
            track: self.track.deep_view(),
            track_pos: self.track_pos,
            channels: self.channels,
            bit_depth: self.bit_depth,
            sample_rate: self.sample_rate,
        }
    }
}

/// Completed metadata for one file: every required field is present.
#[derive(Debug)]
pub struct ParseResult {
    pub path: String,
    pub artists: Vec<String>,
    pub album: String,
    pub date: Option<String>,
    pub track: String,
    pub track_pos: Option<i32>,
    pub channels: u16,
    pub bit_depth: u16,
    pub sample_rate: u32,
}

impl View for ParseResult {
    type V = ResultView;

    open spec fn view(&self) -> ResultView {
        ResultView {
            path: self.path@,
            artists: self.artists.deep_view(),
            album: self.album@,
            date: self.date.deep_view(),
            track: self.track@,
            track_pos: self.track_pos,
            channels: self.channels,
            bit_depth: self.bit_depth,
            sample_rate: self.sample_rate,
        }
    }
}

/// The unknown-value fallback policy: a missing artist list gains the
/// sentinel entry, a missing album becomes the sentinel, and a missing
/// title becomes the file's stem when one exists.
pub open spec fn populate_spec(b: BuilderView) -> BuilderView {
    BuilderView {
        artists: if b.artists.len() == 0 {
            seq![unknown_entry_seq()]
        } else {
            b.artists
        },
        album: if b.album is None {
            Some(unknown_entry_seq())
        } else {
            b.album
        },
        track: if b.track is None {
            text::file_stem_spec(b.path)
        } else {
            b.track
        },
        ..b
    }
}

/// The completion policy: optionally apply the fallback, remove consecutive
/// duplicate artists, and complete only when at least one artist, the album,
/// the title and all three numeric audio properties are present.
pub open spec fn complete_spec(b: BuilderView, populate: bool) -> Option<ResultView> {
    let p = if populate {
        populate_spec(b)
    } else {
        b
    };
    let artists = if p.artists.len() > 1 {
        text::dedup_spec(p.artists)
    } else {
        p.artists
    };
    if artists.len() > 0 && p.album is Some && p.track is Some && p.channels is Some
        && p.bit_depth is Some && p.sample_rate is Some {
        Some(
            ResultView {
                path: p.path,
                artists,
                album: p.album->Some_0,
                date: p.date,
                track: p.track->Some_0,
                track_pos: p.track_pos,
                channels: p.channels->Some_0,
                bit_depth: p.bit_depth->Some_0,
                sample_rate: p.sample_rate->Some_0,
            },
        )
    } else {
        None
    }
}

impl ParseResultBuilder {
    /// An empty draft for the file at `path`.
    pub fn new(path: String) -> (r: ParseResultBuilder)
        ensures
            r@ == (BuilderView {
                path: path@,
                artists: Seq::<Seq<char>>::empty(),
                album: None,
                date: None,
                track: None,
                track_pos: None,
                channels: None,
                bit_depth: None,
                sample_rate: None,
            }),
    {
        let r = ParseResultBuilder {
            path,
            artists: Vec::new(),
            album: None,
            date: None,
            track: None,
            track_pos: None,
            channels: None,
            bit_depth: None,
            sample_rate: None,
        };
        proof {
            assert(r@.artists =~= Seq::<Seq<char>>::empty());
        }
        r
    }

    /// The path of the file this draft describes.
    pub fn path(&self) -> (r: &String)
        ensures
            r@ == self@.path,
    {
        &self.path
    }

    /// Appends one artist name.
    pub fn artist(&mut self, a: String)
        ensures
            final(self)@ == (BuilderView { artists: old(self)@.artists.push(a@), ..old(self)@ }),
    {
        self.artists.push(a);
        proof {
            assert(self@.artists =~= old(self)@.artists.push(a@));
        }
    }

    /// Sets the album name.
    pub fn album(&mut self, a: String)
        ensures
            final(self)@ == (BuilderView { album: Some(a@), ..old(self)@ }),
    {
        self.album = Some(a)
    }

    /// Sets the release date.
    pub fn date(&mut self, d: String)
        ensures
            final(self)@ == (BuilderView { date: Some(d@), ..old(self)@ }),
    {
        self.date = Some(d)
    }

    /// Sets the track title.
    pub fn track(&mut self, t: String)
        ensures
            final(self)@ == (BuilderView { track: Some(t@), ..old(self)@ }),
    {
        self.track = Some(t)
    }

    /// Sets the track position.
    pub fn track_pos(&mut self, t: i32)
        ensures
            final(self)@ == (BuilderView { track_pos: Some(t), ..old(self)@ }),
    {
        self.track_pos = Some(t)
    }

    /// Sets the channel count.
    pub fn channels(&mut self, c: u16)
        ensures
            final(self)@ == (BuilderView { channels: Some(c), ..old(self)@ }),
    {
        self.channels = Some(c)
    }

    /// Sets the bit depth.
    pub fn bit_depth(&mut self, b: u16)
        ensures
            final(self)@ == (BuilderView { bit_depth: Some(b), ..old(self)@ }),
    {
        self.bit_depth = Some(b)
    }

    /// Sets the sample rate.
    pub fn sample_rate(&mut self, s: u32)
        ensures
            final(self)@ == (BuilderView { sample_rate: Some(s), ..old(self)@ }),
    {
        self.sample_rate = Some(s)
    }

    /// Whether all three numeric audio properties are present.
    pub fn has_bare_minimum(&self) -> (r: bool)
        ensures
            r == (self@.channels is Some && self@.bit_depth is Some
                && self@.sample_rate is Some),
    {
        match (self.channels, self.bit_depth, self.sample_rate) {
            (Some(_), Some(_), Some(_)) => true,
            _ => false,
        }
    }

    /// Whether every field required for completion is present.
    pub fn has_required(&self) -> (r: bool)
        ensures
            r == (self@.artists.len() > 0 && self@.album is Some && self@.track is Some
                && self@.channels is Some && self@.bit_depth is Some
                && self@.sample_rate is Some),
    {
        match (
            self.artists.len() > 0,
            &self.album,
            &self.track,
            self.channels,
            self.bit_depth,
            self.sample_rate,
        ) {
            (true, Some(_), Some(_), Some(_), Some(_), Some(_)) => true,
            _ => false,
        }
    }

    /// Whether every field, optional ones included, is present.
    pub fn has_all(&self) -> (r: bool)
        ensures
            r == (self@.artists.len() > 0 && self@.album is Some && self@.date is Some
                && self@.track is Some && self@.track_pos is Some && self@.channels is Some
                && self@.bit_depth is Some && self@.sample_rate is Some),
    {
        match (
            self.artists.len() > 0,
            &self.album,
            &self.date,
            &self.track,
            self.track_pos,
            self.channels,
            self.bit_depth,
            self.sample_rate,
        ) {
            (true, Some(_), Some(_), Some(_), Some(_), Some(_), Some(_), Some(_)) => true,
            _ => false,
        }
    }

    /// Finalizes the draft under the completion policy.
    pub fn complete(self, populate_unknown_fields: bool) -> (r: Option<ParseResult>)
        ensures
            match r {
                Some(pr) => complete_spec(self@, populate_unknown_fields) == Some(pr@),
                None => complete_spec(self@, populate_unknown_fields) is None,
            },
    {
        let ghost b0 = self@;
        let ParseResultBuilder {
            path,
            artists,
            album,
            date,
            track,
            track_pos,
            channels,
            bit_depth,
            sample_rate,
        } = self;
        let mut artists = artists;
        let mut album = album;
        let mut track = track;

        if populate_unknown_fields {
            if artists.len() == 0 {
                artists.push(String::new());
                proof {
                    assert(artists.deep_view() =~= seq![unknown_entry_seq()]);
                }
            }
            if album.is_none() {
                album = Some(String::new());
            }
            if track.is_none() {
                match text::file_stem_of(path.as_str()) {
                    Some(stem) => {
                        track = Some(stem);
                    },
                    None => {},
                }
            }
        }
        let ghost p = if populate_unknown_fields {
            populate_spec(b0)
        } else {
            b0
        };
        proof {
            assert(artists.deep_view() == p.artists);
            assert(album.deep_view() == p.album);
            assert(track.deep_view() == p.track);
        }

        if artists.len() > 1 {
            artists = text::dedup_consecutive(artists);
        }

        if artists.len() > 0 && album.is_some() && track.is_some() && channels.is_some()
            && bit_depth.is_some() && sample_rate.is_some() {
            Some(
                ParseResult {
                    path,
                    artists,
                    album: album.unwrap(),
                    date,
                    track: track.unwrap(),
                    track_pos,
                    channels: channels.unwrap(),
                    bit_depth: bit_depth.unwrap(),
                    sample_rate: sample_rate.unwrap(),
                },
            )
        } else {
            None
        }
    }
}

/// A completed record always carries at least one artist and all three
/// numeric audio properties of the draft it came from.
pub proof fn lemma_complete_is_validated(b: BuilderView, populate: bool)
    ensures
        complete_spec(b, populate) is Some ==> complete_spec(b, populate)->Some_0.artists.len()
            >= 1,
        complete_spec(b, populate) is Some ==> b.channels is Some && b.bit_depth is Some
            && b.sample_rate is Some,
        complete_spec(b, populate) is Some ==> complete_spec(b, populate)->Some_0.channels
            == b.channels->Some_0 && complete_spec(b, populate)->Some_0.bit_depth
            == b.bit_depth->Some_0 && complete_spec(b, populate)->Some_0.sample_rate
            == b.sample_rate->Some_0,
{
}

/// With the unknown fallback enabled, a draft carrying no tag data at all
/// completes to a record whose artist list is exactly the unknown sentinel,
/// whose album is the sentinel, and whose title is the file's stem.
pub proof fn lemma_unknown_fallback(b: BuilderView)
    requires
        b.artists.len() == 0,
        b.album is None,
        b.track is None,
        b.channels is Some,
        b.bit_depth is Some,
        b.sample_rate is Some,
        text::file_stem_spec(b.path) is Some,
    ensures
        complete_spec(b, true) is Some,
        complete_spec(b, true)->Some_0.artists =~= seq![unknown_entry_seq()],
        complete_spec(b, true)->Some_0.album == unknown_entry_seq(),
        complete_spec(b, true)->Some_0.track == text::file_stem_spec(b.path)->Some_0,
{
}

/// The values of every tag whose name equals `name` up to ASCII case, in
/// stream order.
pub open spec fn tag_values(tags: Seq<(String, String)>, name: Seq<char>) -> Seq<Seq<char>>
    decreases tags.len(),
{
    if tags.len() == 0 {
        Seq::<Seq<char>>::empty()
    } else {
        let rest = tag_values(tags.drop_last(), name);
        if text::eq_ignore_ascii_case_spec(tags.last().0@, name) {
            rest.push(tags.last().1@)
        } else {
            rest
        }
    }
}

/// The value of the first tag whose name equals `name` up to ASCII case.
pub open spec fn first_tag_value(tags: Seq<(String, String)>, name: Seq<char>) -> Option<
    Seq<char>,
> {
    let vs = tag_values(tags, name);
    if vs.len() > 0 {
        Some(vs[0])
    } else {
        None
    }
}

/// Collects the values of every tag named `name`, up to ASCII case.
fn collect_tag_values(tags: &Vec<(String, String)>, name: &str) -> (r: Vec<String>)
    ensures
        r.deep_view() == tag_values(tags@, name@),
{
    let mut out: Vec<String> = Vec::new();
    let mut i: usize = 0;
    while i < tags.len()
        invariant
            i <= tags.len(),
            out.deep_view() == tag_values(tags@.subrange(0, i as int), name@),
        decreases tags.len() - i,
    {
        proof {
            assert(tags@.subrange(0, i + 1).drop_last() =~= tags@.subrange(0, i as int));
            assert(tags@.subrange(0, i + 1).last() == tags@[i as int]);
        }
        let ghost prev = out.deep_view();
        if text::eq_ignore_ascii_case(tags[i].0.as_str(), name) {
            out.push(tags[i].1.clone());
            proof {
                assert(out.deep_view() =~= prev.push(tags@[i as int].1@));
            }
        }
        i = i + 1;
    }
    proof {
        assert(tags@.subrange(0, tags.len() as int) =~= tags@);
    }
    out
}

/// Finds the value of the first tag named `name`, up to ASCII case.
fn first_tag_value_of(tags: &Vec<(String, String)>, name: &str) -> (r: Option<String>)
    ensures
        match r {
            Some(s) => first_tag_value(tags@, name@) == Some(s@),
            None => first_tag_value(tags@, name@) is None,
        },
{
    let vs = collect_tag_values(tags, name);
    if vs.len() > 0 {
        Some(vs[0].clone())
    } else {
        None
    }
}

/// The draft a FLAC stream's declared parameters and comments populate.
pub open spec fn flac_builder_view(
    path: Seq<char>,
    info: (u32, u32, u32),
    tags: Seq<(String, String)>,
) -> BuilderView {
    BuilderView {
        path,
        artists: tag_values(tags, "artist"@),
        album: first_tag_value(tags, "album"@),
        date: first_tag_value(tags, "date"@),
        track: first_tag_value(tags, "title"@),
        track_pos: match first_tag_value(tags, "tracknumber"@) {
            Some(t) => text::parse_i32_spec(t),
            None => None,
        },
        channels: Some(info.0 as u16),
        bit_depth: Some(info.1 as u16),
        sample_rate: Some(info.2),
    }
}

/// What FLAC extraction yields for a file at `path` holding `bytes`.
pub open spec fn flac_extraction_spec(path: Seq<char>, bytes: Seq<u8>) -> Option<ResultView> {
    match codecs::flac_stream_info(bytes) {
        None => None,
        Some(info) => complete_spec(
            flac_builder_view(path, info, codecs::flac_tags(bytes)),
            true,
        ),
    }
}

/// Extracts the metadata of the FLAC stream `bytes` for the file at `path`:
/// the declared stream parameters become the numeric audio properties, the
/// Vorbis comments populate the text fields, and the completion policy
/// with unknown fallback decides the record.
pub fn parse_flac(path: String, bytes: &[u8]) -> (r: Option<ParseResult>)
    ensures
        match r {
            Some(pr) => flac_extraction_spec(path@, bytes@) == Some(pr@),
            None => flac_extraction_spec(path@, bytes@) is None,
        },
        match r {
            Some(pr) => codecs::flac_stream_info(bytes@) is Some && {
                let info = codecs::flac_stream_info(bytes@)->Some_0;
                pr@.channels == info.0 as u16 && pr@.bit_depth == info.1 as u16
                    && pr@.sample_rate == info.2 && pr@.path == path@
            },
            None => true,
        },
{
    let mut builder = ParseResultBuilder::new(path);
    let meta = match codecs::read_flac_meta(bytes) {
        Some(m) => m,
        None => {
            return None;
        },
    };
    let (ch, bits, rate, tags) = meta;
    builder.channels(ch as u16);
    builder.bit_depth(bits as u16);
    builder.sample_rate(rate);

    let artist_vals = collect_tag_values(&tags, "artist");
    let ghost base = builder@;
    let mut j: usize = 0;
    while j < artist_vals.len()
        invariant
            j <= artist_vals.len(),
            builder@ == (BuilderView {
                artists: base.artists + artist_vals.deep_view().subrange(0, j as int),
                ..base
            }),
        decreases artist_vals.len() - j,
    {
        builder.artist(artist_vals[j].clone());
        proof {
            assert(base.artists + artist_vals.deep_view().subrange(0, j as int + 1)
                =~= (base.artists + artist_vals.deep_view().subrange(0, j as int)).push(
                artist_vals.deep_view()[j as int],
            ));
        }
        j = j + 1;
    }
    proof {
        assert(artist_vals.deep_view().subrange(0, artist_vals.len() as int)
            =~= artist_vals.deep_view());
        assert(base.artists + artist_vals.deep_view() =~= artist_vals.deep_view());
    }

    match first_tag_value_of(&tags, "title") {
        Some(t) => builder.track(t),
        None => (),
    }
    match first_tag_value_of(&tags, "album") {
        Some(a) => builder.album(a),
        None => (),
    }
    match first_tag_value_of(&tags, "date") {
        Some(d) => builder.date(d),
        None => (),
    }
    match first_tag_value_of(&tags, "tracknumber") {
        Some(tn) => {
            match text::parse_i32(tn.as_str()) {
                Some(x) => builder.track_pos(x),
                None => (),
            }
        },
        None => (),
    }

    builder.complete(true)
}

/// What WAV extraction yields: header fields only, with the unknown
/// sentinel for every text field.
pub open spec fn wav_extraction_spec(path: Seq<char>, bytes: Seq<u8>) -> Option<ResultView> {
    match codecs::wav_stream_info(bytes) {
        None => None,
        Some(info) => Some(
            ResultView {
                path,
                artists: seq![unknown_entry_seq()],
                album: unknown_entry_seq(),
                date: None,
                track: unknown_entry_seq(),
                track_pos: None,
                channels: info.0,
                bit_depth: info.1,
                sample_rate: info.2,
            },
        ),
    }
}

/// Extracts the metadata of the WAV file `bytes` at `path`: only the header
/// fields are read; artist, album and title are the unknown sentinel.
pub fn parse_wav(path: String, bytes: &[u8]) -> (r: Option<ParseResult>)
    ensures
        match r {
            Some(pr) => wav_extraction_spec(path@, bytes@) == Some(pr@),
            None => wav_extraction_spec(path@, bytes@) is None,
        },
{
    let (ch, bits, rate) = match codecs::read_wav_spec(bytes) {
        Some(s) => s,
        None => {
            return None;
        },
    };
    let r = ParseResult {
        path,
        artists: vec![String::new()],
        album: String::new(),
        date: None,
        track: String::new(),
        track_pos: None,
        channels: ch,
        bit_depth: bits,
        sample_rate: rate,
    };
    proof {
        assert(r@.artists =~= seq![unknown_entry_seq()]);
    }
    Some(r)
}

/// How one tag frame updates a draft: text frames set their field, a legacy
/// fixed-format frame sets all of its fields at once, and a track position
/// that does not parse as a number is ignored.
pub open spec fn apply_tag_unit(b: BuilderView, u: TagUnit) -> BuilderView {
    match u {
        TagUnit::FrameV1 { title, artist, album, year, track } => {
            let b1 = BuilderView {
                album: Some(album@),
                track: Some(title@),
                date: Some(year@),
                artists: b.artists.push(artist@),
                ..b
            };
            match text::parse_i32_spec(track@) {
                Some(x) => BuilderView { track_pos: Some(x), ..b1 },
                None => b1,
            }
        },
        TagUnit::Album(t) => BuilderView { album: Some(t@), ..b },
        TagUnit::Title(t) => BuilderView { track: Some(t@), ..b },
        TagUnit::Artist(t) => BuilderView { artists: b.artists.push(t@), ..b },
        TagUnit::Year(t) => BuilderView { date: Some(t@), ..b },
        TagUnit::TrackNum(t) => match text::parse_i32_spec(t@) {
            Some(x) => BuilderView { track_pos: Some(x), ..b },
            None => b,
        },
        TagUnit::Skipped => b,
    }
}

/// The draft after applying every tag frame in order.
pub open spec fn apply_tag_units(b: BuilderView, us: Seq<TagUnit>) -> BuilderView
    decreases us.len(),
{
    if us.len() == 0 {
        b
    } else {
        apply_tag_unit(apply_tag_units(b, us.drop_last()), us.last())
    }
}

/// Applying tag frames never touches the numeric audio properties.
pub proof fn lemma_tag_units_keep_stream_params(b: BuilderView, us: Seq<TagUnit>)
    ensures
        apply_tag_units(b, us).channels == b.channels,
        apply_tag_units(b, us).bit_depth == b.bit_depth,
        apply_tag_units(b, us).sample_rate == b.sample_rate,
        apply_tag_units(b, us).path == b.path,
    decreases us.len(),
{
    if us.len() > 0 {
        lemma_tag_units_keep_stream_params(b, us.drop_last());
    }
}

/// The draft an MP3 file's first frame populates: channel count and sample
/// rate from the frame, and the frame bitrate standing in for a bit depth,
/// since the codec has none.
pub open spec fn mp3_builder_view(path: Seq<char>, frame: (usize, i32, i32)) -> BuilderView {
    BuilderView {
        path,
        artists: Seq::<Seq<char>>::empty(),
        album: None,
        date: None,
        track: None,
        track_pos: None,
        channels: Some(frame.0 as u16),
        bit_depth: Some(frame.2 as u16),
        sample_rate: Some(frame.1 as u32),
    }
}

/// What MP3 extraction yields for frame parameters `frame` and the tag
/// frames `units` read from the file.
pub open spec fn mp3_extraction_spec(
    path: Seq<char>,
    frame: (usize, i32, i32),
    units: Seq<TagUnit>,
) -> Option<ResultView> {
    complete_spec(apply_tag_units(mp3_builder_view(path, frame), units), true)
}

/// Builds the record of an MP3 file from its first frame's parameters and
/// the tag frames read from it, under the completion policy.
pub fn build_mp3_result(path: String, frame: (usize, i32, i32), units: Vec<TagUnit>) -> (r:
    Option<ParseResult>)
    ensures
        match r {
            Some(pr) => mp3_extraction_spec(path@, frame, units@) == Some(pr@),
            None => mp3_extraction_spec(path@, frame, units@) is None,
        },
        match r {
            Some(pr) => pr@.channels == frame.0 as u16 && pr@.bit_depth == frame.2 as u16
                && pr@.sample_rate == frame.1 as u32,
            None => true,
        },
{
    let mut builder = ParseResultBuilder::new(path);
    #[verifier::truncate]
    let ch: u16 = frame.0 as u16;
    #[verifier::truncate]
    let depth: u16 = frame.2 as u16;
    #[verifier::truncate]
    let rate: u32 = frame.1 as u32;
    builder.channels(ch);
    builder.bit_depth(depth);
    builder.sample_rate(rate);

    let ghost base = builder@;
    let mut i: usize = 0;
    while i < units.len()
        invariant
            i <= units.len(),
            builder@ == apply_tag_units(base, units@.subrange(0, i as int)),
        decreases units.len() - i,
    {
        proof {
            assert(units@.subrange(0, i + 1).drop_last() =~= units@.subrange(0, i as int));
            assert(units@.subrange(0, i + 1).last() == units@[i as int]);
        }
        match &units[i] {
            TagUnit::FrameV1 { title, artist, album, year, track } => {
                builder.album(album.clone());
                builder.track(title.clone());
                builder.date(year.clone());
                builder.artist(artist.clone());
                match text::parse_i32(track.as_str()) {
                    Some(x) => builder.track_pos(x),
                    None => (),
                }
            },
            TagUnit::Album(t) => builder.album(t.clone()),
            TagUnit::Title(t) => builder.track(t.clone()),
            TagUnit::Artist(t) => builder.artist(t.clone()),
            TagUnit::Year(t) => builder.date(t.clone()),
            TagUnit::TrackNum(t) => {
                match text::parse_i32(t.as_str()) {
                    Some(x) => builder.track_pos(x),
                    None => (),
                }
            },
            TagUnit::Skipped => (),
        }
        i = i + 1;
    }
    proof {
        assert(units@.subrange(0, units.len() as int) =~= units@);
        lemma_tag_units_keep_stream_params(base, units@);
    }
    builder.complete(true)
}

/// Extracts the metadata of the MP3 file at `path` holding `bytes`: the
/// first decoded frame supplies channel count and sample rate (with the
/// bitrate standing in for a bit depth), and the file's tag frames, legacy
/// or extensible, populate the text fields. Which tag frames the file
/// yields depends on the file system, so the exact record is pinned down by
/// [`build_mp3_result`]; nothing is promised here beyond the frame-derived
/// fields.
pub fn parse_mp3(path: String, bytes: &[u8]) -> (r: Option<ParseResult>)
    ensures
        codecs::mp3_first_frame_info(bytes@) is None ==> r is None,
        match r {
            Some(pr) => codecs::mp3_first_frame_info(bytes@) is Some && {
                let f = codecs::mp3_first_frame_info(bytes@)->Some_0;
                pr@.channels == f.0 as u16 && pr@.bit_depth == f.2 as u16 && pr@.sample_rate
                    == f.1 as u32 && pr@.path == path@
            },
            None => true,
        },
{
    let frame = match codecs::read_mp3_first_frame(bytes) {
        Some(f) => f,
        None => {
            return None;
        },
    };
    let mut reader = match codecs::id3_open(path.as_str()) {
        Some(rd) => rd,
        None => {
            return None;
        },
    };
    let mut units: Vec<TagUnit> = Vec::new();
    let mut remaining: usize = MAX_TAG_FRAMES;
    while remaining > 0
        decreases remaining,
    {
        match codecs::id3_next_unit(&mut reader) {
            Some(u) => units.push(u),
            None => {
                break ;
            },
        }
        remaining = remaining - 1;
    }
    let ghost gpath = path@;
    let ghost gunits = units@;
    let r = build_mp3_result(path, frame, units);
    proof {
        lemma_tag_units_keep_stream_params(mp3_builder_view(gpath, frame), gunits);
    }
    r
}

/// AIFF files are recognized and skipped: the format is out of scope.
pub fn parse_aiff(p: String) -> (r: Option<ParseResult>)
    ensures
        r is None,
{
    None
}

/// The five recognized extensions are pairwise distinct strings.
proof fn lemma_extensions_distinct()
    ensures
        "flac"@ != "wav"@,
        "flac"@ != "mp3"@,
        "flac"@ != "aif"@,
        "flac"@ != "aiff"@,
        "wav"@ != "mp3"@,
        "wav"@ != "aif"@,
        "wav"@ != "aiff"@,
        "mp3"@ != "aif"@,
        "mp3"@ != "aiff"@,
        "aif"@ != "aiff"@,
{
    reveal_strlit("flac");
    reveal_strlit("wav");
    reveal_strlit("mp3");
    reveal_strlit("aif");
    reveal_strlit("aiff");
    assert("flac"@.len() == 4);
    assert("wav"@.len() == 3);
    assert("mp3"@.len() == 3);
    assert("aif"@.len() == 3);
    assert("aiff"@.len() == 4);
    assert("flac"@[0] == 'f');
    assert("wav"@[0] == 'w');
    assert("mp3"@[0] == 'm');
    assert("aif"@[0] == 'a');
    assert("aiff"@[0] == 'a');
    assert("aiff"@[1] == 'i');
    assert("flac"@[1] == 'l');
}

/// Dispatches a file to the reader for its extension. Unsupported or
/// missing extensions, AIFF files, and unreadable files yield no record.
#[verifier::rlimit(80)]
pub fn parse_track(path: String, bytes: &[u8]) -> (r: Option<ParseResult>)
    ensures
        text::extension_spec(path@) is None ==> r is None,
        text::extension_spec(path@) == Some("flac"@) ==> match r {
            Some(pr) => flac_extraction_spec(path@, bytes@) == Some(pr@),
            None => flac_extraction_spec(path@, bytes@) is None,
        },
        text::extension_spec(path@) == Some("wav"@) ==> match r {
            Some(pr) => wav_extraction_spec(path@, bytes@) == Some(pr@),
            None => wav_extraction_spec(path@, bytes@) is None,
        },
        text::extension_spec(path@) == Some("mp3"@) ==> match r {
            Some(pr) => codecs::mp3_first_frame_info(bytes@) is Some && {
                let f = codecs::mp3_first_frame_info(bytes@)->Some_0;
                pr@.channels == f.0 as u16 && pr@.bit_depth == f.2 as u16 && pr@.sample_rate
                    == f.1 as u32
            },
            None => true,
        },
        (match text::extension_spec(path@) {
            Some(e) => e != "flac"@ && e != "wav"@ && e != "mp3"@,
            None => true,
        }) ==> r is None,
{
    proof {
        lemma_extensions_distinct();
    }
    // the comparisons spell the extension constants out as literals: the
    // verifier reasons about revealed string literals, not about consts
    match text::extension_of(path.as_str()) {
        Some(e) => {
            if text::str_eq(e.as_str(), "flac") {
                parse_flac(path, bytes)
            } else if text::str_eq(e.as_str(), "wav") {
                parse_wav(path, bytes)
            } else if text::str_eq(e.as_str(), "mp3") {
                parse_mp3(path, bytes)
            } else if text::str_eq(e.as_str(), "aif") || text::str_eq(e.as_str(), "aiff") {
                parse_aiff(path)
            } else {
                None
            }
        },
        None => None,
    }
}

} // verus!
