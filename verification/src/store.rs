//! The catalog store: a table of tracks with identity, path, metadata and a
//! bounded rating, plus the singleton configuration record that carries the
//! schema version marker.
//!
//! This module models the persistent store as plain data so that every
//! operation on it — upsert by path, soft deletion, rating writes, the play
//! counter, the eligible-population scan — carries an exact contract. The
//! surrounding service mirrors each operation onto its storage engine.

use vstd::prelude::*;

verus! {

/// Rating given to a track when it is first inserted.
pub const DEFAULT_RATING: u32 = 2;

/// Largest track id the store hands out; keeps ids convertible to `i32`,
/// the id type of the selection engine.
pub const MAX_TRACK_ID: u32 = 0x7fff_ffff;

/// One row of the track table.
#[derive(Debug, Clone, PartialEq, Eq)]
pub struct TrackRow {
    pub id: u32,
    pub path: String,
    pub filename: String,
    pub songname: String,
    pub artist: String,
    pub album: String,
    pub length: String,
    pub seconds: u32,
    pub rating: u32,
    pub vote: u32,
    pub deleted: bool,
    pub times_played: u32,
}

/// Mathematical model of one track row.
pub ghost struct TrackModel {
    pub id: u32,
    pub path: Seq<char>,
    pub filename: Seq<char>,
    pub songname: Seq<char>,
    pub artist: Seq<char>,
    pub album: Seq<char>,
    pub length: Seq<char>,
    pub seconds: u32,
    pub rating: u32,
    pub vote: u32,
    pub deleted: bool,
    pub times_played: u32,
}

impl View for TrackRow {
    type V = TrackModel;

    open spec fn view(&self) -> TrackModel {
        TrackModel {
            id: self.id,
            path: self.path@,
            filename: self.filename@,
            songname: self.songname@,
            artist: self.artist@,
            album: self.album@,
            length: self.length@,
            seconds: self.seconds,
            rating: self.rating,
            vote: self.vote,
            deleted: self.deleted,
            times_played: self.times_played,
        }
    }
}

/// The catalog store: the track table, the configuration record, and which
/// parts of the current layout (the table itself, the soft-delete column,
/// the play counter column) exist yet.
#[derive(Debug, Clone, PartialEq, Eq)]
pub struct CatalogStore {
    pub has_songs: bool,
    pub has_config: bool,
    pub version: u32,
    pub has_deleted: bool,
    pub has_times_played: bool,
    pub rows: Vec<TrackRow>,
    pub next_id: u32,
}

/// Mathematical model of the whole store.
pub ghost struct StoreModel {
    pub has_songs: bool,
    pub has_config: bool,
    pub version: u32,
    pub has_deleted: bool,
    pub has_times_played: bool,
    pub rows: Seq<TrackModel>,
    pub next_id: u32,
}

impl View for CatalogStore {
    type V = StoreModel;

    open spec fn view(&self) -> StoreModel {
        StoreModel {
            has_songs: self.has_songs,
            has_config: self.has_config,
            version: self.version,
            has_deleted: self.has_deleted,
            has_times_played: self.has_times_played,
            rows: self.rows@.map_values(|r: TrackRow| r@),
            next_id: self.next_id,
        }
    }
}

impl StoreModel {
    /// Structural soundness of a store: the id counter stays in range, ids
    /// are unique and below the counter, and `path` is globally unique (it
    /// is the upsert conflict key, across deleted and live rows alike).
    pub open spec fn wf(self) -> bool {
        &&& 1 <= self.next_id <= MAX_TRACK_ID
        &&& (!self.has_songs ==> self.rows.len() == 0)
        &&& (forall|i: int| 0 <= i < self.rows.len() ==> #[trigger] self.rows[i].id < self.next_id)
        &&& (forall|i: int, j: int|
            0 <= i < j < self.rows.len() ==> self.rows[i].id != self.rows[j].id)
        &&& (forall|i: int, j: int|
            0 <= i < j < self.rows.len() ==> self.rows[i].path != self.rows[j].path)
    }

    /// Every rating lies in the valid domain of the current schema
    /// generation.
    pub open spec fn ratings_in_domain(self) -> bool {
        forall|i: int|
            0 <= i < self.rows.len() ==> #[trigger] self.rows[i].rating
                <= crate::vote::RATING_MAX
    }

    /// The index of the row holding `path`, if one does.
    pub open spec fn path_index(self, path: Seq<char>) -> Option<int> {
        if exists|i: int| 0 <= i < self.rows.len() && self.rows[i].path == path {
            Some(choose|i: int| 0 <= i < self.rows.len() && self.rows[i].path == path)
        } else {
            None
        }
    }

    /// The index of the row with identity `id`, if one exists.
    pub open spec fn id_index(self, id: u32) -> Option<int> {
        if exists|i: int| 0 <= i < self.rows.len() && self.rows[i].id == id {
            Some(choose|i: int| 0 <= i < self.rows.len() && self.rows[i].id == id)
        } else {
            None
        }
    }
}

/// The model of a store that holds nothing at all yet: no track table, no
/// configuration record.
pub open spec fn spec_empty_store() -> StoreModel {
    StoreModel {
        has_songs: false,
        has_config: false,
        version: 0,
        has_deleted: false,
        has_times_played: false,
        rows: Seq::empty(),
        next_id: 1,
    }
}

/// The row that `upsert_track` writes when `path` is already present: the
/// metadata fields are replaced and the soft-delete flag cleared, while
/// identity, path, filename, rating, vote and play counter are preserved.
pub open spec fn spec_meta_updated(
    row: TrackModel,
    songname: Seq<char>,
    artist: Seq<char>,
    album: Seq<char>,
    length: Seq<char>,
    seconds: u32,
) -> TrackModel {
    TrackModel { songname, artist, album, length, seconds, deleted: false, ..row }
}

/// The row that `upsert_track` inserts when `path` is new: a fresh identity,
/// the default rating, and zeroed vote and play counters.
pub open spec fn spec_new_track(
    id: u32,
    path: Seq<char>,
    filename: Seq<char>,
    songname: Seq<char>,
    artist: Seq<char>,
    album: Seq<char>,
    length: Seq<char>,
    seconds: u32,
) -> TrackModel {
    TrackModel {
        id,
        path,
        filename,
        songname,
        artist,
        album,
        length,
        seconds,
        rating: DEFAULT_RATING,
        vote: 0,
        deleted: false,
        times_played: 0,
    }
}

/// What `upsert_track` does to the store: update in place when the path is
/// already present, append a fresh row otherwise.
pub open spec fn spec_upsert(
    m: StoreModel,
    path: Seq<char>,
    filename: Seq<char>,
    songname: Seq<char>,
    artist: Seq<char>,
    album: Seq<char>,
    length: Seq<char>,
    seconds: u32,
) -> StoreModel {
    match m.path_index(path) {
        Some(i) => StoreModel {
            rows: m.rows.update(
                i,
                spec_meta_updated(m.rows[i], songname, artist, album, length, seconds),
            ),
            ..m
        },
        None => StoreModel {
            rows: m.rows.push(
                spec_new_track(
                    m.next_id,
                    path,
                    filename,
                    songname,
                    artist,
                    album,
                    length,
                    seconds,
                ),
            ),
            next_id: (m.next_id + 1) as u32,
            ..m
        },
    }
}

/// The eligible population of the selection engine: the `(rating, id)` pairs
/// of rows that are not soft-deleted and have a positive rating, in row
/// order.
pub open spec fn spec_eligible_pairs(rows: Seq<TrackModel>) -> Seq<(u32, i32)>
    decreases rows.len(),
{
    if rows.len() == 0 {
        Seq::empty()
    } else {
        let rest = spec_eligible_pairs(rows.drop_last());
        let r = rows.last();
        if !r.deleted && r.rating > 0 {
            rest.push((r.rating, r.id as i32))
        } else {
            rest
        }
    }
}

impl CatalogStore {
    /// A store with nothing in it: the state of a storage file that was
    /// never touched.
    pub fn new_empty() -> (s: CatalogStore)
        ensures
            s@ == spec_empty_store(),
            s@.wf(),
    {
        let s = CatalogStore {
            has_songs: false,
            has_config: false,
            version: 0,
            has_deleted: false,
            has_times_played: false,
            rows: Vec::new(),
            next_id: 1,
        };
        proof {
            assert(s@.rows =~= Seq::<TrackModel>::empty());
        }
        s
    }

    /// Index of the row holding `path`, if any.
    pub fn find_path_index(&self, path: &String) -> (r: Option<usize>)
        ensures
            match r {
                Some(i) => i < self@.rows.len() && self@.rows[i as int].path == path@,
                None => forall|j: int| 0 <= j < self@.rows.len() ==> self@.rows[j].path != path@,
            },
    {
        let mut i: usize = 0;
        while i < self.rows.len()
            invariant
                i <= self@.rows.len(),
                forall|j: int| 0 <= j < i ==> self@.rows[j].path != path@,
            decreases self@.rows.len() - i,
        {
            if self.rows[i].path == *path {
                return Some(i);
            }
            i += 1;
        }
        None
    }

    /// Index of the row with identity `id`, if any.
    pub fn find_id_index(&self, id: u32) -> (r: Option<usize>)
        ensures
            match r {
                Some(i) => i < self@.rows.len() && self@.rows[i as int].id == id,
                None => forall|j: int| 0 <= j < self@.rows.len() ==> self@.rows[j].id != id,
            },
    {
        let mut i: usize = 0;
        while i < self.rows.len()
            invariant
                i <= self@.rows.len(),
                forall|j: int| 0 <= j < i ==> self@.rows[j].id != id,
            decreases self@.rows.len() - i,
        {
            if self.rows[i].id == id {
                return Some(i);
            }
            i += 1;
        }
        None
    }

    /// Insert a track at `path`, or — when a row with that path already
    /// exists, deleted or not — update its metadata in place, preserving its
    /// identity, rating, vote and play counter: upsert on the path conflict
    /// key.
    pub fn upsert_track(
        &mut self,
        path: String,
        filename: String,
        songname: String,
        artist: String,
        album: String,
        length: String,
        seconds: u32,
    )
        requires
            old(self)@.wf(),
            old(self)@.has_songs,
            old(self)@.next_id < MAX_TRACK_ID,
        ensures
            final(self)@ == spec_upsert(
                old(self)@,
                path@,
                filename@,
                songname@,
                artist@,
                album@,
                length@,
                seconds,
            ),
            final(self)@.wf(),
    {
        let ghost m = old(self)@;
        match self.find_path_index(&path) {
            Some(i) => {
                proof {
                    let c = m.path_index(path@)->Some_0;
                    if c != i as int {
                        assert(m.rows[c].path == m.rows[i as int].path);
                        assert(false);
                    }
                }
                self.rows[i].songname = songname;
                self.rows[i].artist = artist;
                self.rows[i].album = album;
                self.rows[i].length = length;
                self.rows[i].seconds = seconds;
                self.rows[i].deleted = false;
                proof {
                    let updated = spec_meta_updated(
                        m.rows[i as int],
                        songname@,
                        artist@,
                        album@,
                        length@,
                        seconds,
                    );
                    assert(self@.rows =~= m.rows.update(i as int, updated));
                    assert(forall|k: int|
                        0 <= k < self@.rows.len() ==> #[trigger] self@.rows[k].id == m.rows[k].id
                            && self@.rows[k].path == m.rows[k].path);
                }
            },
            None => {
                let id = self.next_id;
                self.next_id = self.next_id + 1;
                self.rows.push(
                    TrackRow {
                        id,
                        path,
                        filename,
                        songname,
                        artist,
                        album,
                        length,
                        seconds,
                        rating: DEFAULT_RATING,
                        vote: 0,
                        deleted: false,
                        times_played: 0,
                    },
                );
                proof {
                    assert(self@.rows =~= m.rows.push(
                        spec_new_track(
                            m.next_id,
                            path@,
                            filename@,
                            songname@,
                            artist@,
                            album@,
                            length@,
                            seconds,
                        ),
                    ));
                    assert(forall|k: int|
                        0 <= k < m.rows.len() ==> #[trigger] self@.rows[k] == m.rows[k]);
                }
            },
        }
    }

    /// Soft-delete every row: the first half of a catalog refresh; the scan
    /// that follows re-activates the files still present on disk.
    pub fn mark_all_deleted(&mut self)
        requires
            old(self)@.wf(),
            old(self)@.has_songs,
            old(self)@.has_deleted,
        ensures
            final(self)@ == (StoreModel { rows: spec_all_deleted(old(self)@.rows), ..old(self)@ }),
            final(self)@.wf(),
    {
        let ghost m = old(self)@;
        let ghost rows0 = old(self).rows@;
        let n = self.rows.len();
        let mut i: usize = 0;
        while i < n
            invariant
                i <= n,
                n == self.rows@.len(),
                rows0.len() == n,
                forall|k: int|
                    0 <= k < i ==> #[trigger] self.rows@[k]@ == (TrackModel {
                        deleted: true,
                        ..rows0[k]@
                    }),
                forall|k: int| i <= k < n ==> #[trigger] self.rows@[k] == rows0[k],
                self.has_songs == m.has_songs,
                self.has_config == m.has_config,
                self.version == m.version,
                self.has_deleted == m.has_deleted,
                self.has_times_played == m.has_times_played,
                self.next_id == m.next_id,
            decreases n - i,
        {
            self.rows[i].deleted = true;
            i += 1;
        }
        proof {
            assert(self@.rows =~= spec_all_deleted(m.rows));
        }
    }

    /// Count one more play of the track `id`; a missing id changes nothing
    /// (mirroring an update statement that matches no row).
    pub fn increase_times_played(&mut self, id: u32)
        requires
            old(self)@.wf(),
            old(self)@.has_songs,
            old(self)@.has_times_played,
        ensures
            final(self)@ == spec_play_counted(old(self)@, id),
            final(self)@.wf(),
    {
        let ghost m = old(self)@;
        match self.find_id_index(id) {
            Some(i) => {
                proof {
                    let c = m.id_index(id)->Some_0;
                    if c != i as int {
                        assert(m.rows[c].id == m.rows[i as int].id);
                        assert(false);
                    }
                }
                if self.rows[i].times_played < u32::MAX {
                    self.rows[i].times_played = self.rows[i].times_played + 1;
                }
                proof {
                    let counted = TrackModel {
                        times_played: spec_saturating_inc(m.rows[i as int].times_played),
                        ..m.rows[i as int]
                    };
                    assert(self@.rows =~= m.rows.update(i as int, counted));
                    assert(forall|k: int|
                        0 <= k < self@.rows.len() ==> #[trigger] self@.rows[k].id == m.rows[k].id
                            && self@.rows[k].path == m.rows[k].path);
                }
            },
            None => {
                proof {
                    assert(self@.rows =~= m.rows);
                }
            },
        }
    }

    /// The filesystem locator of the track `id`, if the store knows it.
    pub fn get_path_by_id(&self, id: u32) -> (r: Option<String>)
        requires
            self@.wf(),
        ensures
            match r {
                Some(p) => self@.id_index(id) matches Some(i) && p@ == self@.rows[i].path,
                None => self@.id_index(id) is None,
            },
    {
        match self.find_id_index(id) {
            Some(i) => {
                let p = self.rows[i].path.clone();
                proof {
                    let c = self@.id_index(id)->Some_0;
                    assert(0 <= c < self@.rows.len() && self@.rows[c].id == id);
                    if c != i as int {
                        assert(self@.rows[c].id == self@.rows[i as int].id);
                        assert(false);
                    }
                }
                Some(p)
            },
            None => None,
        }
    }

    /// The `(rating, id)` population that the selection engine samples from:
    /// live rows with a positive rating.
    pub fn eligible_pairs(&self) -> (pairs: Vec<(u32, i32)>)
        requires
            self@.wf(),
            self@.ratings_in_domain(),
        ensures
            pairs@ == spec_eligible_pairs(self@.rows),
            forall|k: int|
                0 <= k < pairs@.len() ==> 1 <= (#[trigger] pairs@[k]).0
                    <= crate::vote::RATING_MAX,
    {
        let mut pairs: Vec<(u32, i32)> = Vec::new();
        let mut i: usize = 0;
        while i < self.rows.len()
            invariant
                i <= self@.rows.len(),
                self@.wf(),
                self@.ratings_in_domain(),
                pairs@ == spec_eligible_pairs(self@.rows.subrange(0, i as int)),
                forall|k: int|
                    0 <= k < pairs@.len() ==> 1 <= (#[trigger] pairs@[k]).0
                        <= crate::vote::RATING_MAX,
            decreases self@.rows.len() - i,
        {
            let r = &self.rows[i];
            if !r.deleted && r.rating > 0 {
                pairs.push((r.rating, r.id as i32));
            }
            i += 1;
            proof {
                let prefix = self@.rows.subrange(0, i as int);
                assert(prefix.drop_last() =~= self@.rows.subrange(0, i - 1));
                assert(prefix.last() == self@.rows[i - 1]);
            }
        }
        proof {
            assert(self@.rows.subrange(0, self@.rows.len() as int) =~= self@.rows);
        }
        pairs
    }
}

/// Upsert round-trip law: a track inserted at a fresh `path` and then
/// upserted again under the same `path` with changed metadata keeps its
/// identity, its rating and its original filename, while the metadata fields
/// take the new values — the upsert conflict key is the path alone.
pub proof fn lemma_upsert_round_trip(
    m: StoreModel,
    path: Seq<char>,
    filename1: Seq<char>,
    songname1: Seq<char>,
    artist1: Seq<char>,
    album1: Seq<char>,
    length1: Seq<char>,
    seconds1: u32,
    filename2: Seq<char>,
    songname2: Seq<char>,
    artist2: Seq<char>,
    album2: Seq<char>,
    length2: Seq<char>,
    seconds2: u32,
)
    requires
        m.wf(),
        m.next_id < MAX_TRACK_ID,
        m.path_index(path) is None,
    ensures
        ({
            let m1 = spec_upsert(m, path, filename1, songname1, artist1, album1, length1, seconds1);
            let m2 = spec_upsert(
                m1,
                path,
                filename2,
                songname2,
                artist2,
                album2,
                length2,
                seconds2,
            );
            let inserted = m1.rows[m.rows.len() as int];
            let rescanned = m2.rows[m.rows.len() as int];
            &&& m1.rows.len() == m.rows.len() + 1
            &&& m2.rows.len() == m1.rows.len()
            &&& inserted.id == m.next_id
            &&& inserted.rating == DEFAULT_RATING
            &&& rescanned.id == inserted.id
            &&& rescanned.rating == inserted.rating
            &&& rescanned.times_played == inserted.times_played
            &&& rescanned.path == path
            &&& rescanned.filename == filename1
            &&& rescanned.songname == songname2
            &&& rescanned.artist == artist2
            &&& rescanned.album == album2
            &&& rescanned.length == length2
            &&& rescanned.seconds == seconds2
            &&& !rescanned.deleted
        }),
{
    let m1 = spec_upsert(m, path, filename1, songname1, artist1, album1, length1, seconds1);
    let t = spec_new_track(m.next_id, path, filename1, songname1, artist1, album1, length1, seconds1);
    assert(m1.rows == m.rows.push(t));
    let n = m.rows.len() as int;
    assert(m1.rows[n] == t);
    // The freshly inserted row is the only one holding `path`, so the second
    // upsert resolves to it.
    assert(forall|j: int| 0 <= j < n ==> #[trigger] m1.rows[j].path != path);
    assert(m1.path_index(path) is Some);
    let c = m1.path_index(path)->Some_0;
    assert(0 <= c < m1.rows.len() && m1.rows[c].path == path);
    assert(c == n);
    let m2 = spec_upsert(m1, path, filename2, songname2, artist2, album2, length2, seconds2);
    assert(m2.rows == m1.rows.update(
        n,
        spec_meta_updated(m1.rows[n], songname2, artist2, album2, length2, seconds2),
    ));
}

/// One file found by a catalog scan: its locator and the metadata read from
/// its tags.
pub struct TrackScan {
    pub path: String,
    pub filename: String,
    pub songname: String,
    pub artist: String,
    pub album: String,
    pub length: String,
    pub seconds: u32,
}

/// Mathematical model of one scanned file.
pub ghost struct TrackScanModel {
    pub path: Seq<char>,
    pub filename: Seq<char>,
    pub songname: Seq<char>,
    pub artist: Seq<char>,
    pub album: Seq<char>,
    pub length: Seq<char>,
    pub seconds: u32,
}

impl View for TrackScan {
    type V = TrackScanModel;

    open spec fn view(&self) -> TrackScanModel {
        TrackScanModel {
            path: self.path@,
            filename: self.filename@,
            songname: self.songname@,
            artist: self.artist@,
            album: self.album@,
            length: self.length@,
            seconds: self.seconds,
        }
    }
}

/// The store after upserting every scanned file in order.
pub open spec fn spec_upserted_all(m: StoreModel, scans: Seq<TrackScanModel>) -> StoreModel
    decreases scans.len(),
{
    if scans.len() == 0 {
        m
    } else {
        let s = scans.last();
        spec_upsert(
            spec_upserted_all(m, scans.drop_last()),
            s.path,
            s.filename,
            s.songname,
            s.artist,
            s.album,
            s.length,
            s.seconds,
        )
    }
}

/// What a whole catalog refresh does to the store: every row is
/// soft-deleted first, then every scanned file is upserted in scan order —
/// so afterwards exactly the files the scan saw are live, and a track
/// rescanned under a known path keeps its identity and rating.
pub open spec fn spec_refresh(m: StoreModel, scans: Seq<TrackScanModel>) -> StoreModel {
    spec_upserted_all(StoreModel { rows: spec_all_deleted(m.rows), ..m }, scans)
}

impl CatalogStore {
    /// Refresh the catalog from a scan of the music directory: soft-delete
    /// every row, then upsert each found file, which revives it. Files that
    /// vanished from disk stay soft-deleted, keeping their ids valid.
    pub fn refresh_catalog(&mut self, scans: &Vec<TrackScan>)
        requires
            old(self)@.wf(),
            old(self)@.has_songs,
            old(self)@.has_deleted,
            old(self)@.next_id + scans@.len() <= MAX_TRACK_ID,
        ensures
            final(self)@ == spec_refresh(old(self)@, scans@.map_values(|s: TrackScan| s@)),
            final(self)@.wf(),
    {
        let ghost m = old(self)@;
        let ghost scan_models = scans@.map_values(|s: TrackScan| s@);
        self.mark_all_deleted();
        let ghost marked = self@;
        let mut i: usize = 0;
        while i < scans.len()
            invariant
                i <= scans@.len(),
                scan_models == scans@.map_values(|s: TrackScan| s@),
                marked.next_id + scans@.len() <= MAX_TRACK_ID,
                self@ == spec_upserted_all(marked, scan_models.subrange(0, i as int)),
                self@.wf(),
                self@.has_songs == marked.has_songs,
                marked.has_songs,
                self@.next_id <= marked.next_id + i,
            decreases scans@.len() - i,
        {
            let ghost prev = scan_models.subrange(0, i as int);
            let s = &scans[i];
            self.upsert_track(
                s.path.clone(),
                s.filename.clone(),
                s.songname.clone(),
                s.artist.clone(),
                s.album.clone(),
                s.length.clone(),
                s.seconds,
            );
            i += 1;
            proof {
                let cur = scan_models.subrange(0, i as int);
                assert(cur.drop_last() =~= prev);
                assert(cur.last() == scan_models[i - 1]);
            }
        }
        proof {
            assert(scan_models.subrange(0, scan_models.len() as int) =~= scan_models);
        }
    }
}

/// Every row soft-deleted.
pub open spec fn spec_all_deleted(rows: Seq<TrackModel>) -> Seq<TrackModel> {
    rows.map_values(|r: TrackModel| TrackModel { deleted: true, ..r })
}

/// One more play, saturating at the counter's top so the count never moves
/// backwards.
pub open spec fn spec_saturating_inc(n: u32) -> u32 {
    if n < u32::MAX {
        (n + 1) as u32
    } else {
        n
    }
}

/// What of a row survives any rescan untouched: its identity, its location,
/// its original filename, and everything the listeners control — rating,
/// vote and play counter.
pub open spec fn spec_track_identity_kept(before: TrackModel, after: TrackModel) -> bool {
    &&& after.id == before.id
    &&& after.path == before.path
    &&& after.filename == before.filename
    &&& after.rating == before.rating
    &&& after.vote == before.vote
    &&& after.times_played == before.times_played
}

/// Any sequence of upserts never moves, removes or re-identifies an
/// existing row: each upsert either rewrites one row's metadata in place or
/// appends a fresh row at the end.
proof fn lemma_upserted_all_preserves(m: StoreModel, scans: Seq<TrackScanModel>)
    ensures
        spec_upserted_all(m, scans).rows.len() >= m.rows.len(),
        forall|k: int|
            0 <= k < m.rows.len() ==> #[trigger] spec_track_identity_kept(
                m.rows[k],
                spec_upserted_all(m, scans).rows[k],
            ),
    decreases scans.len(),
{
    if scans.len() > 0 {
        lemma_upserted_all_preserves(m, scans.drop_last());
        let prev = spec_upserted_all(m, scans.drop_last());
        let fin = spec_upserted_all(m, scans);
        let s = scans.last();
        assert(fin == spec_upsert(
            prev,
            s.path,
            s.filename,
            s.songname,
            s.artist,
            s.album,
            s.length,
            s.seconds,
        ));
        assert forall|k: int| 0 <= k < m.rows.len() implies #[trigger] spec_track_identity_kept(
            m.rows[k],
            fin.rows[k],
        ) by {
            assert(spec_track_identity_kept(m.rows[k], prev.rows[k]));
            match prev.path_index(s.path) {
                Some(i) => {
                    assert(0 <= i < prev.rows.len() && prev.rows[i].path == s.path);
                    assert(spec_track_identity_kept(prev.rows[k], fin.rows[k]));
                },
                None => {
                    assert(fin.rows[k] == prev.rows[k]);
                },
            }
        }
    }
}

/// Catalog-refresh preservation law, the upsert round trip over the whole
/// catalog: a refresh never moves, removes or re-identifies an existing
/// row. At every prior index the row keeps its id, path, filename, rating,
/// vote and play counter, whatever the scan contained; only the metadata
/// fields and the soft-delete flag can change.
pub proof fn lemma_refresh_preserves_identity(m: StoreModel, scans: Seq<TrackScanModel>)
    ensures
        spec_refresh(m, scans).rows.len() >= m.rows.len(),
        forall|k: int|
            0 <= k < m.rows.len() ==> #[trigger] spec_track_identity_kept(
                m.rows[k],
                spec_refresh(m, scans).rows[k],
            ),
{
    let marked = StoreModel { rows: spec_all_deleted(m.rows), ..m };
    lemma_upserted_all_preserves(marked, scans);
    assert(spec_refresh(m, scans) == spec_upserted_all(marked, scans));
    assert forall|k: int| 0 <= k < m.rows.len() implies #[trigger] spec_track_identity_kept(
        m.rows[k],
        spec_refresh(m, scans).rows[k],
    ) by {
        assert(spec_track_identity_kept(m.rows[k], marked.rows[k]));
        assert(spec_track_identity_kept(marked.rows[k], spec_upserted_all(marked, scans).rows[k]));
    }
}

/// What `increase_times_played` does to the store: the matching row's play
/// counter grows by one (saturating), everything else stays.
pub open spec fn spec_play_counted(m: StoreModel, id: u32) -> StoreModel {
    match m.id_index(id) {
        Some(i) => StoreModel {
            rows: m.rows.update(
                i,
                TrackModel { times_played: spec_saturating_inc(m.rows[i].times_played), ..m.rows[i] },
            ),
            ..m
        },
        None => m,
    }
}

} // verus!
