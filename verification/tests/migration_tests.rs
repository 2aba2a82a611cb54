use jukebox::migration::{
    ensure_schema_current, migration_statements, observe_generation, MigrationError,
    SchemaGeneration, CURRENT_VERSION,
};
use jukebox::store::{CatalogStore, TrackRow};

fn legacy_row(id: u32, path: &str, rating: u32) -> TrackRow {
    TrackRow {
        id,
        path: path.to_string(),
        filename: format!("f{id}"),
        songname: String::new(),
        artist: String::new(),
        album: String::new(),
        length: String::new(),
        seconds: 0,
        rating,
        vote: 0,
        deleted: false,
        times_played: 0,
    }
}

fn legacy_store_at_version(version: u32, rows: Vec<TrackRow>) -> CatalogStore {
    let next_id = rows.iter().map(|r| r.id).max().unwrap_or(0) + 1;
    CatalogStore {
        has_songs: true,
        has_config: true,
        version,
        has_deleted: version >= 2,
        has_times_played: version >= 3,
        rows,
        next_id,
    }
}

#[test]
fn empty_store_migrates_to_current_in_four_steps() {
    let mut store = CatalogStore::new_empty();
    assert_eq!(
        observe_generation(&store),
        Ok(SchemaGeneration::UnversionedEmpty)
    );
    assert_eq!(ensure_schema_current(&mut store), Ok(()));
    assert_eq!(store.version, CURRENT_VERSION);
    assert!(store.has_songs);
    assert!(store.has_config);
    assert!(store.has_deleted);
    assert!(store.has_times_played);
    assert_eq!(observe_generation(&store), Ok(SchemaGeneration::V4));
}

#[test]
fn migration_is_idempotent_at_the_terminal_version() {
    let mut store = CatalogStore::new_empty();
    assert_eq!(ensure_schema_current(&mut store), Ok(()));
    let snapshot = store.clone();
    assert_eq!(ensure_schema_current(&mut store), Ok(()));
    assert_eq!(store, snapshot);
    assert_eq!(store.version, CURRENT_VERSION);
}

#[test]
fn unversioned_populated_store_keeps_its_rows() {
    let mut store = CatalogStore {
        has_songs: true,
        has_config: false,
        version: 0,
        has_deleted: false,
        has_times_played: false,
        rows: vec![legacy_row(1, "a.mp3", 100), legacy_row(2, "b.mp3", 3200)],
        next_id: 3,
    };
    assert_eq!(
        observe_generation(&store),
        Ok(SchemaGeneration::UnversionedPopulated)
    );
    assert_eq!(ensure_schema_current(&mut store), Ok(()));
    assert_eq!(store.version, CURRENT_VERSION);
    assert_eq!(store.rows.len(), 2);
    assert_eq!(store.rows[0].id, 1);
    assert_eq!(store.rows[1].id, 2);
}

#[test]
fn renormalization_maps_the_legacy_ladder_onto_the_compact_scale() {
    let rows = vec![
        legacy_row(1, "a", 0),
        legacy_row(2, "b", 5),
        legacy_row(3, "c", 7),
        legacy_row(4, "d", 8),
        legacy_row(5, "e", 99),
        legacy_row(6, "f", 100),
        legacy_row(7, "g", 150),
        legacy_row(8, "h", 200),
        legacy_row(9, "i", 400),
        legacy_row(10, "j", 800),
        legacy_row(11, "k", 1600),
        legacy_row(12, "l", 3200),
        legacy_row(13, "m", 6400),
        legacy_row(14, "n", 100_000),
    ];
    let mut store = legacy_store_at_version(3, rows);
    assert_eq!(observe_generation(&store), Ok(SchemaGeneration::V3));
    assert_eq!(ensure_schema_current(&mut store), Ok(()));
    // Values already on the compact scale are fixed points; the legacy bands
    // map onto one step each.
    let expected = [0u32, 5, 7, 0, 0, 1, 1, 2, 3, 4, 5, 6, 7, 7];
    for (row, want) in store.rows.iter().zip(expected.iter()) {
        assert_eq!(row.rating, *want, "rating of {}", row.path);
    }
    assert_eq!(store.version, CURRENT_VERSION);
}

#[test]
fn version_two_store_gains_the_play_counter() {
    let mut rows = vec![legacy_row(1, "a", 100)];
    rows[0].times_played = 9;
    let mut store = legacy_store_at_version(2, rows);
    assert_eq!(observe_generation(&store), Ok(SchemaGeneration::V2));
    assert_eq!(ensure_schema_current(&mut store), Ok(()));
    assert!(store.has_times_played);
    // The counter column is new at this generation, so it starts at zero.
    assert_eq!(store.rows[0].times_played, 0);
    assert_eq!(store.rows[0].rating, 1);
    assert_eq!(store.version, CURRENT_VERSION);
}

#[test]
fn unknown_version_marker_is_fatal_and_changes_nothing() {
    let mut store = legacy_store_at_version(7, vec![legacy_row(1, "a", 100)]);
    let snapshot = store.clone();
    assert_eq!(
        observe_generation(&store),
        Err(MigrationError::UnknownSchemaVersion)
    );
    assert_eq!(
        ensure_schema_current(&mut store),
        Err(MigrationError::UnknownSchemaVersion)
    );
    assert_eq!(store, snapshot);
}

#[test]
fn only_the_terminal_generation_needs_no_statements() {
    assert_eq!(
        migration_statements(SchemaGeneration::UnversionedEmpty).len(),
        2
    );
    assert_eq!(
        migration_statements(SchemaGeneration::UnversionedPopulated).len(),
        3
    );
    assert_eq!(migration_statements(SchemaGeneration::V2).len(), 2);
    assert_eq!(migration_statements(SchemaGeneration::V3).len(), 9);
    assert!(migration_statements(SchemaGeneration::V4).is_empty());
}

#[test]
fn step_statements_carry_the_exact_guarded_texts() {
    let base = migration_statements(SchemaGeneration::UnversionedEmpty);
    assert_eq!(base[0], "DROP TABLE IF EXISTS songs;");
    assert!(base[1].starts_with("CREATE TABLE IF NOT EXISTS songs ("));

    let versioning = migration_statements(SchemaGeneration::UnversionedPopulated);
    assert!(versioning[0].starts_with("CREATE TABLE IF NOT EXISTS config ("));
    assert_eq!(
        versioning[1],
        "INSERT OR IGNORE INTO config (key, value) values ('version', '2')"
    );
    assert_eq!(
        versioning[2],
        "ALTER TABLE songs ADD COLUMN deleted INTEGER DEFAULT 0 NOT NULL"
    );

    let counter = migration_statements(SchemaGeneration::V2);
    assert_eq!(
        counter[0],
        "ALTER TABLE songs ADD COLUMN times_played INTEGER DEFAULT 0 NOT NULL"
    );
    assert_eq!(counter[1], "UPDATE config SET value = '3' WHERE key LIKE 'version'");

    let renormalize = migration_statements(SchemaGeneration::V3);
    // Every rating statement touches only values above the compact scale, so
    // re-running a partially applied step changes nothing it already did.
    assert_eq!(
        renormalize[0],
        "UPDATE songs SET rating = 0 WHERE rating >= 8 AND rating < 100"
    );
    assert_eq!(
        renormalize[1],
        "UPDATE songs SET rating = 1 WHERE rating >= 100 AND rating < 200"
    );
    assert_eq!(
        renormalize[7],
        "UPDATE songs SET rating = 7 WHERE rating >= 6400"
    );
    assert_eq!(renormalize[8], "UPDATE config SET value = '4' WHERE key LIKE 'version'");
}
