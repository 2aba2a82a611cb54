//! Schema migration engine: brings the catalog store from any earlier layout
//! to the current one through an ordered chain of idempotent steps.
//!
//! The engine re-reads the store's observable state on every iteration — the
//! presence of the configuration record, the presence of the track table,
//! and the version marker — applies exactly one step for the generation it
//! sees, and loops until it observes the terminal marker. It runs before
//! every catalog-touching operation, so a store of unknown provenance heals
//! itself on first contact. A marker the engine does not recognize is a
//! fatal configuration error, not retried.

use vstd::prelude::*;
use crate::store::{CatalogStore, StoreModel, TrackModel, spec_empty_store};

verus! {

/// The version marker of the current schema generation.
pub const CURRENT_VERSION: u32 = 4;

/// The schema generations the engine recognizes, ordered oldest first.
#[derive(Clone, Copy, PartialEq, Eq, Structural, Debug)]
pub enum SchemaGeneration {
    /// No version marker and no track table: a store never touched.
    UnversionedEmpty,
    /// No version marker, but a track table exists: data from before
    /// versioning was introduced.
    UnversionedPopulated,
    /// Versioned layout, marker 2: has the soft-delete column.
    V2,
    /// Versioned layout, marker 3: has the play counter column.
    V3,
    /// Versioned layout, marker 4: the current generation; terminal.
    V4,
}

/// The one fatal migration failure: a version marker the engine does not
/// recognize.
#[derive(Clone, Copy, PartialEq, Eq, Structural, Debug)]
pub enum MigrationError {
    UnknownSchemaVersion,
}

/// The generation a store presents, or `None` for an unrecognized marker.
pub open spec fn spec_observe(m: StoreModel) -> Option<SchemaGeneration> {
    if !m.has_config {
        if !m.has_songs {
            Some(SchemaGeneration::UnversionedEmpty)
        } else {
            Some(SchemaGeneration::UnversionedPopulated)
        }
    } else if m.version == 2 {
        Some(SchemaGeneration::V2)
    } else if m.version == 3 {
        Some(SchemaGeneration::V3)
    } else if m.version == CURRENT_VERSION {
        Some(SchemaGeneration::V4)
    } else {
        None
    }
}

/// How many steps separate a generation from the terminal one.
pub open spec fn spec_generation_rank(g: SchemaGeneration) -> nat {
    match g {
        SchemaGeneration::UnversionedEmpty => 4,
        SchemaGeneration::UnversionedPopulated => 3,
        SchemaGeneration::V2 => 2,
        SchemaGeneration::V3 => 1,
        SchemaGeneration::V4 => 0,
    }
}

/// How many migration steps the engine will apply to a store before it
/// observes the terminal marker (zero for a store it cannot recognize, which
/// fails instead).
pub open spec fn spec_steps_needed(m: StoreModel) -> nat {
    match spec_observe(m) {
        Some(g) => spec_generation_rank(g),
        None => 0,
    }
}

/// Step one, from `UnversionedEmpty`: create the base track table (dropping
/// any leftover), with nothing in it yet.
pub open spec fn spec_apply_create_base(m: StoreModel) -> StoreModel {
    StoreModel {
        has_songs: true,
        has_deleted: false,
        has_times_played: false,
        rows: Seq::empty(),
        next_id: 1,
        ..m
    }
}

/// Step two, from `UnversionedPopulated`: introduce the configuration record
/// with marker 2 and add the soft-delete column, which starts cleared on
/// every row.
pub open spec fn spec_apply_introduce_versioning(m: StoreModel) -> StoreModel {
    StoreModel {
        has_config: true,
        version: 2,
        has_deleted: true,
        rows: m.rows.map_values(|r: TrackModel| TrackModel { deleted: false, ..r }),
        ..m
    }
}

/// Step three, from marker 2: add the play counter column, which starts at
/// zero on every row, and advance the marker to 3.
pub open spec fn spec_apply_add_play_counter(m: StoreModel) -> StoreModel {
    StoreModel {
        version: 3,
        has_times_played: true,
        rows: m.rows.map_values(|r: TrackModel| TrackModel { times_played: 0, ..r }),
        ..m
    }
}

/// Renormalization of one legacy rating: the pre-versioning generations kept
/// ratings on a wide geometric ladder (100, 200, 400, ..., with 6400 and
/// above as the top bucket); each band maps onto one step of the compact
/// rating scale. Values already on the compact scale are fixed points, so
/// renormalizing is idempotent and the step is safe to re-run after a
/// partial failure (see `lemma_renormalize_idempotent`).
pub open spec fn spec_renormalized_rating(r: u32) -> u32 {
    if r <= crate::vote::RATING_MAX {
        r
    } else if r < 100 {
        0
    } else if r < 200 {
        1
    } else if r < 400 {
        2
    } else if r < 800 {
        3
    } else if r < 1600 {
        4
    } else if r < 3200 {
        5
    } else if r < 6400 {
        6
    } else {
        7
    }
}

/// Renormalizing a rating twice gives the same value as once: every value
/// the map produces lies on the compact scale, where the map is the
/// identity. This is what makes re-running a partially applied
/// renormalization step harmless.
pub proof fn lemma_renormalize_idempotent(r: u32)
    ensures
        spec_renormalized_rating(spec_renormalized_rating(r)) == spec_renormalized_rating(r),
{
}

/// Step four, from marker 3: renormalize every rating from the legacy wide
/// scale onto the compact scale and advance the marker to the terminal
/// value.
pub open spec fn spec_apply_renormalize(m: StoreModel) -> StoreModel {
    StoreModel {
        version: CURRENT_VERSION,
        rows: m.rows.map_values(
            |r: TrackModel| TrackModel { rating: spec_renormalized_rating(r.rating), ..r },
        ),
        ..m
    }
}

/// The one step the engine applies when it observes generation `g`; the
/// terminal generation maps to no change.
pub open spec fn spec_apply_step(m: StoreModel, g: SchemaGeneration) -> StoreModel {
    match g {
        SchemaGeneration::UnversionedEmpty => spec_apply_create_base(m),
        SchemaGeneration::UnversionedPopulated => spec_apply_introduce_versioning(m),
        SchemaGeneration::V2 => spec_apply_add_play_counter(m),
        SchemaGeneration::V3 => spec_apply_renormalize(m),
        SchemaGeneration::V4 => m,
    }
}

/// What the whole engine does to a recognized store: apply one step per
/// observed generation until the terminal marker is observed. `None` for a
/// store whose marker is not recognized.
pub open spec fn spec_migrate(m: StoreModel) -> Option<StoreModel>
    decreases spec_steps_needed(m),
{
    match spec_observe(m) {
        None => None,
        Some(g) => {
            if g is V4 {
                Some(m)
            } else {
                spec_migrate(spec_apply_step(m, g))
            }
        },
    }
}

/// Read the generation a store presents: the presence of the configuration
/// record, the presence of the track table, and the version marker. A
/// marker that is none of the recognized values is a fatal configuration
/// error.
pub fn observe_generation(store: &CatalogStore) -> (r: Result<SchemaGeneration, MigrationError>)
    ensures
        r is Ok <==> spec_observe(store@) is Some,
        r is Ok ==> Some(r->Ok_0) == spec_observe(store@),
        r is Err ==> r->Err_0 == MigrationError::UnknownSchemaVersion,
{
    if !store.has_config {
        if !store.has_songs {
            Ok(SchemaGeneration::UnversionedEmpty)
        } else {
            Ok(SchemaGeneration::UnversionedPopulated)
        }
    } else if store.version == 2 {
        Ok(SchemaGeneration::V2)
    } else if store.version == 3 {
        Ok(SchemaGeneration::V3)
    } else if store.version == CURRENT_VERSION {
        Ok(SchemaGeneration::V4)
    } else {
        Err(MigrationError::UnknownSchemaVersion)
    }
}

/// Handler for `UnversionedEmpty`: create the base track table.
pub fn apply_create_base(store: &mut CatalogStore)
    ensures
        final(store)@ == spec_apply_create_base(old(store)@),
        final(store)@.wf(),
{
    store.has_songs = true;
    store.has_deleted = false;
    store.has_times_played = false;
    store.rows = Vec::new();
    store.next_id = 1;
    proof {
        assert(store@.rows =~= Seq::<TrackModel>::empty());
    }
}

/// Handler for `UnversionedPopulated`: introduce the configuration record
/// with marker 2 and the soft-delete column, cleared on every row.
pub fn apply_introduce_versioning(store: &mut CatalogStore)
    requires
        old(store)@.wf(),
    ensures
        final(store)@ == spec_apply_introduce_versioning(old(store)@),
        final(store)@.wf(),
{
    let ghost m = old(store)@;
    let ghost rows0 = old(store).rows@;
    store.has_config = true;
    store.version = 2;
    store.has_deleted = true;
    let ghost after_scalar = *store;
    let n = store.rows.len();
    let mut i: usize = 0;
    while i < n
        invariant
            i <= n,
            n == store.rows@.len(),
            rows0.len() == n,
            forall|k: int|
                0 <= k < i ==> #[trigger] store.rows@[k]@ == (TrackModel {
                    deleted: false,
                    ..rows0[k]@
                }),
            forall|k: int| i <= k < n ==> #[trigger] store.rows@[k] == rows0[k],
            store.has_songs == old(store).has_songs,
            store.has_config == after_scalar.has_config,
            store.version == after_scalar.version,
            store.has_deleted == after_scalar.has_deleted,
            store.has_times_played == after_scalar.has_times_played,
            store.next_id == old(store).next_id,
        decreases n - i,
    {
        store.rows[i].deleted = false;
        i += 1;
    }
    proof {
        assert(store@.rows =~= m.rows.map_values(
            |r: TrackModel| TrackModel { deleted: false, ..r },
        ));
        assert(forall|k: int|
            0 <= k < store@.rows.len() ==> #[trigger] store@.rows[k].id == m.rows[k].id
                && store@.rows[k].path == m.rows[k].path);
    }
}

/// Handler for marker 2: add the play counter column, zero on every row,
/// and advance the marker to 3.
pub fn apply_add_play_counter(store: &mut CatalogStore)
    requires
        old(store)@.wf(),
    ensures
        final(store)@ == spec_apply_add_play_counter(old(store)@),
        final(store)@.wf(),
{
    let ghost m = old(store)@;
    let ghost rows0 = old(store).rows@;
    store.version = 3;
    store.has_times_played = true;
    let ghost after_scalar = *store;
    let n = store.rows.len();
    let mut i: usize = 0;
    while i < n
        invariant
            i <= n,
            n == store.rows@.len(),
            rows0.len() == n,
            forall|k: int|
                0 <= k < i ==> #[trigger] store.rows@[k]@ == (TrackModel {
                    times_played: 0,
                    ..rows0[k]@
                }),
            forall|k: int| i <= k < n ==> #[trigger] store.rows@[k] == rows0[k],
            store.has_songs == old(store).has_songs,
            store.has_config == after_scalar.has_config,
            store.version == after_scalar.version,
            store.has_deleted == after_scalar.has_deleted,
            store.has_times_played == after_scalar.has_times_played,
            store.next_id == old(store).next_id,
        decreases n - i,
    {
        store.rows[i].times_played = 0;
        i += 1;
    }
    proof {
        assert(store@.rows =~= m.rows.map_values(
            |r: TrackModel| TrackModel { times_played: 0, ..r },
        ));
        assert(forall|k: int|
            0 <= k < store@.rows.len() ==> #[trigger] store@.rows[k].id == m.rows[k].id
                && store@.rows[k].path == m.rows[k].path);
    }
}

/// Renormalize one legacy rating onto the compact scale.
pub fn renormalized_rating(r: u32) -> (out: u32)
    ensures
        out == spec_renormalized_rating(r),
        out <= crate::vote::RATING_MAX,
{
    if r <= crate::vote::RATING_MAX {
        r
    } else if r < 100 {
        0
    } else if r < 200 {
        1
    } else if r < 400 {
        2
    } else if r < 800 {
        3
    } else if r < 1600 {
        4
    } else if r < 3200 {
        5
    } else if r < 6400 {
        6
    } else {
        7
    }
}

/// Handler for marker 3: renormalize every rating and advance the marker to
/// the terminal value.
pub fn apply_renormalize_ratings(store: &mut CatalogStore)
    requires
        old(store)@.wf(),
    ensures
        final(store)@ == spec_apply_renormalize(old(store)@),
        final(store)@.wf(),
        final(store)@.ratings_in_domain(),
{
    let ghost m = old(store)@;
    let ghost rows0 = old(store).rows@;
    store.version = CURRENT_VERSION;
    let ghost after_scalar = *store;
    let n = store.rows.len();
    let mut i: usize = 0;
    while i < n
        invariant
            i <= n,
            n == store.rows@.len(),
            rows0.len() == n,
            forall|k: int|
                0 <= k < i ==> #[trigger] store.rows@[k]@ == (TrackModel {
                    rating: spec_renormalized_rating(rows0[k]@.rating),
                    ..rows0[k]@
                }),
            forall|k: int| i <= k < n ==> #[trigger] store.rows@[k] == rows0[k],
            store.has_songs == old(store).has_songs,
            store.has_config == after_scalar.has_config,
            store.version == after_scalar.version,
            store.has_deleted == after_scalar.has_deleted,
            store.has_times_played == after_scalar.has_times_played,
            store.next_id == old(store).next_id,
        decreases n - i,
    {
        let nr = renormalized_rating(store.rows[i].rating);
        store.rows[i].rating = nr;
        i += 1;
    }
    proof {
        assert(store@.rows =~= m.rows.map_values(
            |r: TrackModel| TrackModel { rating: spec_renormalized_rating(r.rating), ..r },
        ));
        assert(forall|k: int|
            0 <= k < store@.rows.len() ==> #[trigger] store@.rows[k].id == m.rows[k].id
                && store@.rows[k].path == m.rows[k].path);
        assert(forall|k: int|
            0 <= k < store@.rows.len() ==> #[trigger] store@.rows[k].rating
                <= crate::vote::RATING_MAX);
    }
}

/// Apply the one step that handles generation `g` (nothing for the terminal
/// generation).
pub fn apply_step(store: &mut CatalogStore, g: SchemaGeneration)
    requires
        old(store)@.wf(),
    ensures
        final(store)@ == spec_apply_step(old(store)@, g),
        final(store)@.wf(),
{
    match g {
        SchemaGeneration::UnversionedEmpty => apply_create_base(store),
        SchemaGeneration::UnversionedPopulated => apply_introduce_versioning(store),
        SchemaGeneration::V2 => apply_add_play_counter(store),
        SchemaGeneration::V3 => apply_renormalize_ratings(store),
        SchemaGeneration::V4 => {},
    }
}

/// Bring the store to the current schema generation: observe the generation
/// afresh on every iteration, apply exactly one step for it, and stop when
/// the terminal marker is observed. Idempotent and safe to call before
/// every request; a store already current is left untouched. An
/// unrecognized version marker fails the call and changes nothing.
pub fn ensure_schema_current(store: &mut CatalogStore) -> (r: Result<(), MigrationError>)
    requires
        old(store)@.wf(),
    ensures
        final(store)@.wf(),
        r is Ok <==> spec_migrate(old(store)@) is Some,
        r is Ok ==> Some(final(store)@) == spec_migrate(old(store)@),
        r is Ok ==> spec_observe(final(store)@) == Some(SchemaGeneration::V4),
        r is Ok && spec_observe(old(store)@) != Some(SchemaGeneration::V4)
            ==> final(store)@.ratings_in_domain(),
        spec_observe(old(store)@) == Some(SchemaGeneration::V4) ==> final(store)@ == old(store)@,
        r is Err ==> final(store)@ == old(store)@ && r->Err_0
            == MigrationError::UnknownSchemaVersion,
{
    loop
        invariant
            store@.wf(),
            spec_migrate(store@) == spec_migrate(old(store)@),
            spec_observe(store@) is Some || store@ == old(store)@,
            spec_observe(old(store)@) == Some(SchemaGeneration::V4) ==> store@ == old(store)@,
        decreases spec_steps_needed(store@),
    {
        match observe_generation(store) {
            Ok(g) => {
                match g {
                    SchemaGeneration::V4 => {
                        proof {
                            if spec_observe(old(store)@) != Some(SchemaGeneration::V4) {
                                lemma_migration_restores_rating_domain(old(store)@);
                            }
                        }
                        return Ok(());
                    },
                    _ => {
                        proof {
                            lemma_step_progress(store@, g);
                        }
                        apply_step(store, g);
                    },
                }
            },
            Err(e) => {
                return Err(e);
            },
        }
    }
}

/// A migrated store always presents the terminal generation.
pub proof fn lemma_migrate_terminal(m: StoreModel)
    requires
        spec_migrate(m) is Some,
    ensures
        spec_observe(spec_migrate(m)->Some_0) == Some(SchemaGeneration::V4),
    decreases spec_steps_needed(m),
{
    let g = spec_observe(m)->Some_0;
    if !(g is V4) {
        lemma_migrate_terminal(spec_apply_step(m, g));
    }
}

/// Migration idempotence: a store the engine has brought to the current
/// generation is a fixed point. Running the engine on it again applies no
/// step and leaves the store — its version marker included — untouched.
pub proof fn lemma_migration_idempotent(m: StoreModel)
    requires
        spec_migrate(m) is Some,
    ensures
        spec_migrate(spec_migrate(m)->Some_0) == Some(spec_migrate(m)->Some_0),
{
    lemma_migrate_terminal(m);
}

/// Migration completeness: starting from a store holding nothing, the
/// engine reaches the terminal generation, and the number of steps it
/// applies equals the number of defined migration steps — one per earlier
/// generation, four in all.
pub proof fn lemma_migration_completes_from_empty()
    ensures
        spec_migrate(spec_empty_store()) is Some,
        spec_observe(spec_migrate(spec_empty_store())->Some_0) == Some(SchemaGeneration::V4),
        spec_steps_needed(spec_empty_store()) == 4,
{
    let m0 = spec_empty_store();
    let m1 = spec_apply_step(m0, SchemaGeneration::UnversionedEmpty);
    let m2 = spec_apply_step(m1, SchemaGeneration::UnversionedPopulated);
    let m3 = spec_apply_step(m2, SchemaGeneration::V2);
    let m4 = spec_apply_step(m3, SchemaGeneration::V3);
    assert(spec_migrate(m4) == Some(m4));
    assert(spec_migrate(m3) == Some(m4));
    assert(spec_migrate(m2) == Some(m4));
    assert(spec_migrate(m1) == Some(m4));
    assert(spec_migrate(m0) == Some(m4));
}

/// A store that enters the engine at any generation before the terminal one
/// leaves it with every rating inside the valid domain of the current
/// scale: the renormalization step is always the last one applied.
pub proof fn lemma_migration_restores_rating_domain(m: StoreModel)
    requires
        spec_observe(m) is Some,
        spec_observe(m) != Some(SchemaGeneration::V4),
    ensures
        spec_migrate(m) is Some,
        spec_migrate(m)->Some_0.ratings_in_domain(),
    decreases spec_steps_needed(m),
{
    let g = spec_observe(m)->Some_0;
    if g is V3 {
        let mf = spec_apply_renormalize(m);
        assert(spec_observe(mf) == Some(SchemaGeneration::V4));
        assert(spec_migrate(mf) == Some(mf));
        assert(spec_migrate(m) == Some(mf));
        assert(forall|k: int|
            0 <= k < mf.rows.len() ==> (#[trigger] mf.rows[k]).rating <= crate::vote::RATING_MAX);
    } else {
        lemma_migration_restores_rating_domain(spec_apply_step(m, g));
    }
}

/// How many storage statements realize the step for generation `g`.
pub open spec fn spec_statement_count(g: SchemaGeneration) -> nat {
    match g {
        SchemaGeneration::UnversionedEmpty => 2,
        SchemaGeneration::UnversionedPopulated => 3,
        SchemaGeneration::V2 => 2,
        SchemaGeneration::V3 => 9,
        SchemaGeneration::V4 => 0,
    }
}

/// The statements that realize each migration step on a SQL store, named so
/// that `migration_statements` can promise their exact text.
///
/// Table creation and the version-row insert are existence-guarded
/// (`IF [NOT] EXISTS`, `OR IGNORE`); the rating updates touch only values
/// above the compact scale, which the renormalization map leaves fixed
/// (`lemma_renormalize_idempotent`); the two column additions cannot be
/// guarded in this dialect, so the executor must treat an already-present
/// column as success. Under that, re-running any step after a partial
/// failure, or concurrently, is safe.
pub const SQL_DROP_SONGS: &'static str = "DROP TABLE IF EXISTS songs;";

pub const SQL_CREATE_SONGS: &'static str = "CREATE TABLE IF NOT EXISTS songs (
        id INTEGER not null primary key autoincrement,
        path TEXT unique,
        filename TEXT,
        songname TEXT,
        artist TEXT,
        album TEXT,
        length TEXT,
        seconds INTEGER,
        rating INTEGER,
        vote INTEGER
    );";

pub const SQL_CREATE_CONFIG: &'static str = "CREATE TABLE IF NOT EXISTS config (
        key TEXT unique primary key,
        value TEXT
    );";

pub const SQL_INSERT_VERSION_2: &'static str =
    "INSERT OR IGNORE INTO config (key, value) values ('version', '2')";

pub const SQL_ADD_DELETED_COLUMN: &'static str =
    "ALTER TABLE songs ADD COLUMN deleted INTEGER DEFAULT 0 NOT NULL";

pub const SQL_ADD_PLAY_COUNTER_COLUMN: &'static str =
    "ALTER TABLE songs ADD COLUMN times_played INTEGER DEFAULT 0 NOT NULL";

pub const SQL_SET_VERSION_3: &'static str =
    "UPDATE config SET value = '3' WHERE key LIKE 'version'";

pub const SQL_RENORMALIZE_BAND_0: &'static str =
    "UPDATE songs SET rating = 0 WHERE rating >= 8 AND rating < 100";

pub const SQL_RENORMALIZE_BAND_1: &'static str =
    "UPDATE songs SET rating = 1 WHERE rating >= 100 AND rating < 200";

pub const SQL_RENORMALIZE_BAND_2: &'static str =
    "UPDATE songs SET rating = 2 WHERE rating >= 200 AND rating < 400";

pub const SQL_RENORMALIZE_BAND_3: &'static str =
    "UPDATE songs SET rating = 3 WHERE rating >= 400 AND rating < 800";

pub const SQL_RENORMALIZE_BAND_4: &'static str =
    "UPDATE songs SET rating = 4 WHERE rating >= 800 AND rating < 1600";

pub const SQL_RENORMALIZE_BAND_5: &'static str =
    "UPDATE songs SET rating = 5 WHERE rating >= 1600 AND rating < 3200";

pub const SQL_RENORMALIZE_BAND_6: &'static str =
    "UPDATE songs SET rating = 6 WHERE rating >= 3200 AND rating < 6400";

pub const SQL_RENORMALIZE_BAND_7: &'static str =
    "UPDATE songs SET rating = 7 WHERE rating >= 6400";

pub const SQL_SET_VERSION_4: &'static str =
    "UPDATE config SET value = '4' WHERE key LIKE 'version'";

/// The storage statements that realize the step for generation `g`, in
/// execution order, for a collaborator that mirrors the engine onto a SQL
/// store; the contract pins the text of every statement. The terminal
/// generation needs none. See the statement constants above for why each
/// step is safe to re-run after a partial failure.
pub fn migration_statements(g: SchemaGeneration) -> (stmts: Vec<&'static str>)
    ensures
        stmts@.len() == spec_statement_count(g),
        g is V4 <==> stmts@.len() == 0,
        g is UnversionedEmpty ==> stmts@[0]@ == SQL_DROP_SONGS@ && stmts@[1]@
            == SQL_CREATE_SONGS@,
        g is UnversionedPopulated ==> stmts@[0]@ == SQL_CREATE_CONFIG@ && stmts@[1]@
            == SQL_INSERT_VERSION_2@ && stmts@[2]@ == SQL_ADD_DELETED_COLUMN@,
        g is V2 ==> stmts@[0]@ == SQL_ADD_PLAY_COUNTER_COLUMN@ && stmts@[1]@
            == SQL_SET_VERSION_3@,
        g is V3 ==> stmts@[0]@ == SQL_RENORMALIZE_BAND_0@ && stmts@[1]@
            == SQL_RENORMALIZE_BAND_1@ && stmts@[2]@ == SQL_RENORMALIZE_BAND_2@ && stmts@[3]@
            == SQL_RENORMALIZE_BAND_3@ && stmts@[4]@ == SQL_RENORMALIZE_BAND_4@ && stmts@[5]@
            == SQL_RENORMALIZE_BAND_5@ && stmts@[6]@ == SQL_RENORMALIZE_BAND_6@ && stmts@[7]@
            == SQL_RENORMALIZE_BAND_7@ && stmts@[8]@ == SQL_SET_VERSION_4@,
{
    let mut stmts: Vec<&'static str> = Vec::new();
    match g {
        SchemaGeneration::UnversionedEmpty => {
            stmts.push(SQL_DROP_SONGS);
            stmts.push(SQL_CREATE_SONGS);
        },
        SchemaGeneration::UnversionedPopulated => {
            stmts.push(SQL_CREATE_CONFIG);
            stmts.push(SQL_INSERT_VERSION_2);
            stmts.push(SQL_ADD_DELETED_COLUMN);
        },
        SchemaGeneration::V2 => {
            stmts.push(SQL_ADD_PLAY_COUNTER_COLUMN);
            stmts.push(SQL_SET_VERSION_3);
        },
        SchemaGeneration::V3 => {
            stmts.push(SQL_RENORMALIZE_BAND_0);
            stmts.push(SQL_RENORMALIZE_BAND_1);
            stmts.push(SQL_RENORMALIZE_BAND_2);
            stmts.push(SQL_RENORMALIZE_BAND_3);
            stmts.push(SQL_RENORMALIZE_BAND_4);
            stmts.push(SQL_RENORMALIZE_BAND_5);
            stmts.push(SQL_RENORMALIZE_BAND_6);
            stmts.push(SQL_RENORMALIZE_BAND_7);
            stmts.push(SQL_SET_VERSION_4);
        },
        SchemaGeneration::V4 => {},
    }
    stmts
}

/// Each non-terminal step moves the observed generation exactly one rank
/// closer to the terminal one.
pub proof fn lemma_step_progress(m: StoreModel, g: SchemaGeneration)
    requires
        spec_observe(m) == Some(g),
        !(g is V4),
    ensures
        spec_observe(spec_apply_step(m, g)) is Some,
        spec_generation_rank(spec_observe(spec_apply_step(m, g))->Some_0) == spec_generation_rank(
            g,
        ) - 1,
        spec_steps_needed(spec_apply_step(m, g)) == spec_steps_needed(m) - 1,
{
}

} // verus!
