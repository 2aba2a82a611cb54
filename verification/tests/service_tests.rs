use jukebox::migration::MigrationError;
use jukebox::replay::ReplayWindow;
use jukebox::selection::{Scale, SelectionError};
use jukebox::service::{next_track_id, ServeError};
use jukebox::store::CatalogStore;

#[test]
fn a_request_against_a_fresh_store_migrates_and_finds_nothing() {
    let mut store = CatalogStore::new_empty();
    let mut window = ReplayWindow::new();
    let scale = Scale::default_scale();
    assert_eq!(
        next_track_id(&mut store, &scale, &mut window),
        Err(ServeError::Selection(SelectionError::EmptyPopulation))
    );
    // The request healed the store on the way.
    assert_eq!(store.version, 4);
    assert!(store.has_songs);
}

#[test]
fn a_request_serves_an_eligible_track_and_shields_it_from_repeats() {
    let mut store = CatalogStore::new_empty();
    let mut window = ReplayWindow::new();
    let scale = Scale::default_scale();
    next_track_id(&mut store, &scale, &mut window).unwrap_err();
    store.upsert_track(
        "a.mp3".to_string(),
        "a.mp3".to_string(),
        "one".to_string(),
        "x".to_string(),
        "album".to_string(),
        "0:10".to_string(),
        10,
    );
    assert_eq!(next_track_id(&mut store, &scale, &mut window), Ok(1));
    assert!(window.contains(1));
    assert_eq!(
        next_track_id(&mut store, &scale, &mut window),
        Err(ServeError::Selection(SelectionError::SelectionExhausted))
    );
}

#[test]
fn a_request_against_an_unrecognized_store_fails_without_touching_it() {
    let mut store = CatalogStore::new_empty();
    let mut window = ReplayWindow::new();
    let scale = Scale::default_scale();
    next_track_id(&mut store, &scale, &mut window).unwrap_err();
    store.version = 9;
    let snapshot = store.clone();
    assert_eq!(
        next_track_id(&mut store, &scale, &mut window),
        Err(ServeError::Migration(MigrationError::UnknownSchemaVersion))
    );
    assert_eq!(store, snapshot);
}
