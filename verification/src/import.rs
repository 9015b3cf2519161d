//! Import coordinator decisions: where an imported file lands, whether it
//! is copied at all, and how many copy-and-insert operations may be in
//! flight at once.
//!
//! The walking, copying and inserting are I/O and run in the unverified
//! shell; every decision it takes comes from here. The in-flight limit
//! bounds open file handles: the shell admits one operation per record and
//! drains the whole batch whenever the limit is reached, so there are
//! never more than [`FS_HANDLE_LIMIT`] operations in flight.

use vstd::prelude::*;

verus! {

/// The most copy-and-insert operations allowed in flight at once, a
/// comfortable margin under a typical open-file-descriptor limit.
pub const FS_HANDLE_LIMIT: usize = 20;

/// The directory an imported release's files land in:
/// `<library_root>/<primary_artist>/<album>`.
pub fn release_dir_path(library_dir: &str, artist: &str, album: &str) -> (r: String)
    ensures
        r@ == library_dir@ + "/"@ + artist@ + "/"@ + album@,
{
    let mut out = library_dir.to_owned();
    out.append("/");
    out.append(artist);
    out.append("/");
    out.append(album);
    out
}

/// The destination of one imported file: its original file name inside
/// the release directory.
pub fn track_dest_path(release_dir: &str, file_name: &str) -> (r: String)
    ensures
        r@ == release_dir@ + "/"@ + file_name@,
{
    let mut out = release_dir.to_owned();
    out.append("/");
    out.append(file_name);
    out
}

/// What the coordinator does with one record's file.
pub enum ImportPlacement {
    /// Copying is disabled: the record keeps its source path.
    KeepInPlace,
    /// The computed destination already exists: the record is skipped.
    SkipExisting,
    /// Copy the source file to this destination and import the record
    /// under it.
    CopyTo(String),
}

/// The existing-target policy: with copying disabled the file stays where
/// it is; with copying enabled an already existing destination skips the
/// record, and otherwise the file is copied to the destination.
pub fn plan_placement(copy_on_import: bool, dest: String, dest_exists: bool) -> (r:
    ImportPlacement)
    ensures
        !copy_on_import ==> r == ImportPlacement::KeepInPlace,
        copy_on_import && dest_exists ==> r == ImportPlacement::SkipExisting,
        copy_on_import && !dest_exists ==> r == ImportPlacement::CopyTo(dest),
{
    if !copy_on_import {
        ImportPlacement::KeepInPlace
    } else if dest_exists {
        ImportPlacement::SkipExisting
    } else {
        ImportPlacement::CopyTo(dest)
    }
}

/// Tracks how many copy-and-insert operations are in flight, never more
/// than the limit it was built with.
pub struct ImportBatcher {
    limit: usize,
    in_flight: usize,
}

impl ImportBatcher {
    /// The fixed in-flight limit.
    pub closed spec fn limit(&self) -> nat {
        self.limit as nat
    }

    /// How many operations are in flight.
    pub closed spec fn in_flight(&self) -> nat {
        self.in_flight as nat
    }

    /// The batcher's invariant: the in-flight count never exceeds the
    /// limit.
    pub open spec fn wf(&self) -> bool {
        self.in_flight() <= self.limit() && self.limit() >= 1
    }

    /// A batcher with nothing in flight.
    pub fn new(limit: usize) -> (r: ImportBatcher)
        requires
            limit >= 1,
        ensures
            r.wf(),
            r.limit() == limit,
            r.in_flight() == 0,
    {
        ImportBatcher { limit, in_flight: 0 }
    }

    /// Records that one operation was started. The shell may only start
    /// one while the batch is not full.
    pub fn note_started(&mut self)
        requires
            old(self).wf(),
            old(self).in_flight() < old(self).limit(),
        ensures
            final(self).wf(),
            final(self).limit() == old(self).limit(),
            final(self).in_flight() == old(self).in_flight() + 1,
    {
        self.in_flight = self.in_flight + 1;
    }

    /// Whether the batch is full and must be drained before more work is
    /// admitted.
    pub fn must_drain(&self) -> (r: bool)
        requires
            self.wf(),
        ensures
            r == (self.in_flight() == self.limit()),
    {
        self.in_flight == self.limit
    }

    /// Records that the whole in-flight batch was awaited.
    pub fn drain(&mut self)
        ensures
            final(self).wf() == (old(self).limit() >= 1),
            final(self).limit() == old(self).limit(),
            final(self).in_flight() == 0,
    {
        self.in_flight = 0;
    }
}

} // verus!
