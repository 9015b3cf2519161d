//! The collection's entities and the verified decisions of the import
//! orchestration.
//!
//! The relational store itself is an external collaborator: an unverified
//! shell performs the queries and feeds every row back into the functions
//! here, which decide what to create, what to reuse, and how the final
//! detailed track is assembled.

use vstd::prelude::*;

use crate::parse::ParseResult;
use crate::text;

verus! {

/// A row identifier in the store.
pub type RowId = i64;

/// The code the store reports for a unique-key violation.
const SQLITE_UNIQUE_VIOLATION: &'static str = "2067";

/// Whether a store error code is the unique-key violation: such a failure
/// on artist or release creation is resolved by a lookup, never fatal.
pub fn is_unique_violation(code: Option<&str>) -> (r: bool)
    ensures
        r == match code {
            Some(c) => c@ == "2067"@,
            None => false,
        },
{
    match code {
        Some(c) => text::str_eq(c, "2067"),
        None => false,
    }
}

/// A named collection of tracks, as stored.
#[derive(Debug)]
pub struct CollectionBase {
    pub id: RowId,
    pub name: String,
    pub created: String,
}

/// A loaded collection: every artist and release in memory, with tracks
/// borrowing them. Loading it belongs to the store shell; the type is the
/// shape the shell fills in.
pub struct Collection<'c> {
    pub id: RowId,
    pub name: String,
    pub created: String,
    pub artists: std::collections::HashMap<RowId, Artist>,
    pub releases: std::collections::HashMap<RowId, Release<'c>>,
    pub tracks: Vec<Track<'c>>,
}

/// A performing artist, as stored.
#[derive(Debug)]
pub struct Artist {
    pub id: RowId,
    pub name: String,
    pub created: String,
}

impl Clone for Artist {
    fn clone(&self) -> (res: Self)
        ensures
            res == *self,
    {
        Artist { id: self.id, name: self.name.clone(), created: self.created.clone() }
    }
}

/// A release, as stored, before its artists are attached.
#[derive(Debug)]
pub struct ReleaseBase {
    pub id: RowId,
    pub name: String,
    pub date: Option<String>,
    pub created: String,
}

impl Clone for ReleaseBase {
    fn clone(&self) -> (res: Self)
        ensures
            res == *self,
    {
        ReleaseBase {
            id: self.id,
            name: self.name.clone(),
            date: match &self.date {
                Some(d) => Some(d.clone()),
                None => None,
            },
            created: self.created.clone(),
        }
    }
}

/// A release with its artists borrowed from a loaded collection.
#[derive(Debug)]
pub struct Release<'c> {
    pub id: RowId,
    pub name: String,
    pub artists: Vec<&'c Artist>,
    pub date: Option<String>,
    pub created: String,
}

/// A release owning its artist records.
#[derive(Debug)]
pub struct OwnedRelease {
    pub id: RowId,
    pub name: String,
    pub artists: Vec<Artist>,
    pub date: Option<String>,
    pub created: String,
}

/// The link row attaching an artist to a release.
#[derive(Clone, Debug)]
pub struct ArtistRelease {
    pub artist_id: RowId,
    pub release_id: RowId,
}

/// A user-defined tag, as stored.
#[derive(Debug)]
pub struct Tag {
    pub id: RowId,
    pub name: String,
}

impl Clone for Tag {
    fn clone(&self) -> (res: Self)
        ensures
            res == *self,
    {
        Tag { id: self.id, name: self.name.clone() }
    }
}

/// The link row attaching a tag to a track.
#[derive(Debug)]
pub struct TrackTag {
    pub track_id: RowId,
    pub tag_id: RowId,
}

/// A track row, as stored.
#[derive(Debug)]
pub struct TrackBase {
    pub id: RowId,
    pub name: String,
    pub release_id: RowId,
    pub file_path: String,
    pub channels: i64,
    pub sample_rate: i64,
    pub bit_depth: i64,
    pub track_num: Option<i64>,
    pub created: String,
    pub modified: String,
}

impl Clone for TrackBase {
    fn clone(&self) -> (res: Self)
        ensures
            res == *self,
    {
        TrackBase {
            id: self.id,
            name: self.name.clone(),
            release_id: self.release_id,
            file_path: self.file_path.clone(),
            channels: self.channels,
            sample_rate: self.sample_rate,
            bit_depth: self.bit_depth,
            track_num: self.track_num,
            created: self.created.clone(),
            modified: self.modified.clone(),
        }
    }
}

/// A track with its release and tags borrowed from a loaded collection.
#[derive(Debug)]
pub struct Track<'c> {
    pub id: RowId,
    pub name: String,
    pub release: &'c Release<'c>,
    pub tags: Vec<&'c Tag>,
    pub file_path: String,
    pub channels: i64,
    pub sample_rate: i64,
    pub bit_depth: i64,
    pub track_num: Option<i64>,
    pub created: String,
    pub modified: String,
}

/// A fully detailed track owning its release and tags.
#[derive(Debug)]
pub struct OwnedTrack {
    pub id: RowId,
    pub name: String,
    pub release: OwnedRelease,
    pub tags: Vec<Tag>,
    pub file_path: String,
    pub channels: i64,
    pub sample_rate: i64,
    pub bit_depth: i64,
    pub track_num: Option<i64>,
    pub created: String,
    pub modified: String,
}

impl ReleaseBase {
    /// Attaches borrowed artists to this release row.
    pub fn complete<'c>(self, artists: Vec<&'c Artist>) -> (r: Release<'c>)
        ensures
            r.id == self.id,
            r.name == self.name,
            r.artists == artists,
            r.date == self.date,
            r.created == self.created,
    {
        Release {
            id: self.id,
            name: self.name,
            artists,
            date: self.date,
            created: self.created,
        }
    }

    /// Attaches owned artists to this release row.
    pub fn complete_owned(self, artists: Vec<Artist>) -> (r: OwnedRelease)
        ensures
            r.id == self.id,
            r.name == self.name,
            r.artists == artists,
            r.date == self.date,
            r.created == self.created,
    {
        OwnedRelease {
            id: self.id,
            name: self.name,
            artists,
            date: self.date,
            created: self.created,
        }
    }
}

/// Finds the release to reuse for an album: the first of the artist's
/// releases whose name equals the album, if any; otherwise a new release
/// must be created.
pub fn choose_release(releases: &Vec<ReleaseBase>, album: &String) -> (r: Option<usize>)
    ensures
        match r {
            Some(k) => k < releases@.len() && releases@[k as int].name@ == album@ && forall|
                j: int,
            | 0 <= j < k ==> (#[trigger] releases@[j]).name@ != album@,
            None => forall|j: int|
                0 <= j < releases@.len() ==> (#[trigger] releases@[j]).name@ != album@,
        },
{
    let mut i: usize = 0;
    while i < releases.len()
        invariant
            i <= releases.len(),
            forall|j: int| 0 <= j < i ==> (#[trigger] releases@[j]).name@ != album@,
        decreases releases.len() - i,
    {
        if text::str_eq(releases[i].name.as_str(), album.as_str()) {
            return Some(i);
        }
        i = i + 1;
    }
    None
}

/// The values inserted for one track row.
#[derive(Debug)]
pub struct TrackInsert {
    pub name: String,
    pub release_id: RowId,
    pub collection_id: RowId,
    pub file_path: String,
    pub channels: i64,
    pub sample_rate: i64,
    pub bit_depth: i64,
    pub track_num: Option<i64>,
}

/// Prepares the row inserted for an extracted record: the title, the
/// (possibly rewritten) path, and the three numeric audio properties are
/// carried over unchanged.
pub fn track_insert_values(metadata: &ParseResult, release_id: RowId, collection_id: RowId) -> (t:
    TrackInsert)
    ensures
        t.name@ == metadata@.track,
        t.release_id == release_id,
        t.collection_id == collection_id,
        t.file_path@ == metadata@.path,
        t.channels == metadata@.channels as i64,
        t.sample_rate == metadata@.sample_rate as i64,
        t.bit_depth == metadata@.bit_depth as i64,
        t.track_num == match metadata@.track_pos {
            Some(p) => Some(p as i64),
            None => None::<i64>,
        },
{
    TrackInsert {
        name: metadata.track.clone(),
        release_id,
        collection_id,
        file_path: metadata.path.clone(),
        channels: metadata.channels as i64,
        sample_rate: metadata.sample_rate as i64,
        bit_depth: metadata.bit_depth as i64,
        track_num: match metadata.track_pos {
            Some(p) => Some(p as i64),
            None => None,
        },
    }
}

/// Assembles the detailed track handed back after an import: every field
/// comes from the row the store returned, the release from the resolved
/// artists, and a fresh import carries no tags.
pub fn owned_track_from_row(t: TrackBase, release: OwnedRelease) -> (r: OwnedTrack)
    ensures
        r.id == t.id,
        r.name == t.name,
        r.release == release,
        r.tags@ == Seq::<Tag>::empty(),
        r.file_path == t.file_path,
        r.channels == t.channels,
        r.sample_rate == t.sample_rate,
        r.bit_depth == t.bit_depth,
        r.track_num == t.track_num,
        r.created == t.created,
        r.modified == t.modified,
{
    let r = OwnedTrack {
        id: t.id,
        name: t.name,
        release,
        tags: Vec::new(),
        file_path: t.file_path,
        channels: t.channels,
        sample_rate: t.sample_rate,
        bit_depth: t.bit_depth,
        track_num: t.track_num,
        created: t.created,
        modified: t.modified,
    };
    proof {
        assert(r.tags@ =~= Seq::<Tag>::empty());
    }
    r
}

/// The values of the entries of `pairs` keyed by `key`, in order.
pub open spec fn grouped<T>(pairs: Seq<(RowId, T)>, key: RowId) -> Seq<T>
    decreases pairs.len(),
{
    if pairs.len() == 0 {
        Seq::<T>::empty()
    } else {
        let rest = grouped(pairs.drop_last(), key);
        if pairs.last().0 == key {
            rest.push(pairs.last().1)
        } else {
            rest
        }
    }
}

/// Collects the artists attached to one release from the joined
/// artist/release rows.
fn artists_for_release(pairs: &Vec<(RowId, Artist)>, key: RowId) -> (r: Vec<Artist>)
    ensures
        r@ == grouped(pairs@, key),
{
    let mut out: Vec<Artist> = Vec::new();
    let mut i: usize = 0;
    while i < pairs.len()
        invariant
            i <= pairs.len(),
            out@ == grouped(pairs@.subrange(0, i as int), key),
        decreases pairs.len() - i,
    {
        proof {
            assert(pairs@.subrange(0, i + 1).drop_last() =~= pairs@.subrange(0, i as int));
            assert(pairs@.subrange(0, i + 1).last() == pairs@[i as int]);
        }
        if pairs[i].0 == key {
            out.push(pairs[i].1.clone());
        }
        i = i + 1;
    }
    proof {
        assert(pairs@.subrange(0, pairs.len() as int) =~= pairs@);
    }
    out
}

/// Collects the tags attached to one track from the joined tag/track
/// rows.
fn tags_for_track(pairs: &Vec<(RowId, Tag)>, key: RowId) -> (r: Vec<Tag>)
    ensures
        r@ == grouped(pairs@, key),
{
    let mut out: Vec<Tag> = Vec::new();
    let mut i: usize = 0;
    while i < pairs.len()
        invariant
            i <= pairs.len(),
            out@ == grouped(pairs@.subrange(0, i as int), key),
        decreases pairs.len() - i,
    {
        proof {
            assert(pairs@.subrange(0, i + 1).drop_last() =~= pairs@.subrange(0, i as int));
            assert(pairs@.subrange(0, i + 1).last() == pairs@[i as int]);
        }
        if pairs[i].0 == key {
            out.push(pairs[i].1.clone());
        }
        i = i + 1;
    }
    proof {
        assert(pairs@.subrange(0, pairs.len() as int) =~= pairs@);
    }
    out
}

/// One assembled detailed track is faithful to its joined rows: every
/// track and release field is carried over, the release holds exactly the
/// artists keyed by its id, and the track holds exactly the tags keyed by
/// its id.
pub open spec fn detailed_row_ok(
    t: TrackBase,
    rel: ReleaseBase,
    release_artists: Seq<(RowId, Artist)>,
    track_tags: Seq<(RowId, Tag)>,
    out: OwnedTrack,
) -> bool {
    &&& out.id == t.id
    &&& out.name == t.name
    &&& out.file_path == t.file_path
    &&& out.channels == t.channels
    &&& out.sample_rate == t.sample_rate
    &&& out.bit_depth == t.bit_depth
    &&& out.track_num == t.track_num
    &&& out.created == t.created
    &&& out.modified == t.modified
    &&& out.release.id == rel.id
    &&& out.release.name == rel.name
    &&& out.release.date == rel.date
    &&& out.release.created == rel.created
    &&& out.release.artists@ == grouped(release_artists, t.release_id)
    &&& out.tags@ == grouped(track_tags, t.id)
}

/// Assembles the full detailed track list from three bulk reads: the
/// track rows joined with their release rows, the artist rows joined by
/// release, and the tag rows joined by track — one detailed record per
/// track row, in order, none dropped.
pub fn assemble_detailed_tracks(
    rows: &Vec<(TrackBase, ReleaseBase)>,
    release_artists: &Vec<(RowId, Artist)>,
    track_tags: &Vec<(RowId, Tag)>,
) -> (r: Vec<OwnedTrack>)
    ensures
        r@.len() == rows@.len(),
        forall|i: int|
            0 <= i < rows@.len() ==> detailed_row_ok(
                rows@[i].0,
                rows@[i].1,
                release_artists@,
                track_tags@,
                #[trigger] r@[i],
            ),
{
    let mut out: Vec<OwnedTrack> = Vec::new();
    let mut i: usize = 0;
    while i < rows.len()
        invariant
            i <= rows.len(),
            out@.len() == i,
            forall|j: int|
                0 <= j < i ==> detailed_row_ok(
                    rows@[j].0,
                    rows@[j].1,
                    release_artists@,
                    track_tags@,
                    #[trigger] out@[j],
                ),
        decreases rows.len() - i,
    {
        let t = rows[i].0.clone();
        let rel = rows[i].1.clone();
        let artists = artists_for_release(release_artists, t.release_id);
        let tags = tags_for_track(track_tags, t.id);
        let release = rel.complete_owned(artists);
        out.push(
            OwnedTrack {
                id: t.id,
                name: t.name,
                release,
                tags,
                file_path: t.file_path,
                channels: t.channels,
                sample_rate: t.sample_rate,
                bit_depth: t.bit_depth,
                track_num: t.track_num,
                created: t.created,
                modified: t.modified,
            },
        );
        i = i + 1;
    }
    out
}

/// Importing a record and reading it back preserves the audio properties:
/// when the store echoes the inserted row — as its contract in the import
/// pipeline requires — the assembled track reports the same channels, bit
/// depth and sample rate that extraction reported.
pub proof fn lemma_import_round_trip(
    metadata: ParseResult,
    ins: TrackInsert,
    row: TrackBase,
    out: OwnedTrack,
)
    requires
        ins.channels == metadata@.channels as i64,
        ins.sample_rate == metadata@.sample_rate as i64,
        ins.bit_depth == metadata@.bit_depth as i64,
        row.channels == ins.channels,
        row.sample_rate == ins.sample_rate,
        row.bit_depth == ins.bit_depth,
        out.channels == row.channels,
        out.sample_rate == row.sample_rate,
        out.bit_depth == row.bit_depth,
    ensures
        out.channels == metadata@.channels as i64,
        out.sample_rate == metadata@.sample_rate as i64,
        out.bit_depth == metadata@.bit_depth as i64,
{
}

} // verus!
