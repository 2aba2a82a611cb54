use jukebox::migration::ensure_schema_current;
use jukebox::store::{CatalogStore, TrackScan, DEFAULT_RATING};
use jukebox::vote::{apply_vote, next_rating, VoteDirection, VoteError};

fn current_store() -> CatalogStore {
    let mut store = CatalogStore::new_empty();
    ensure_schema_current(&mut store).unwrap();
    store
}

fn scan(store: &mut CatalogStore, path: &str, songname: &str, artist: &str, seconds: u32) {
    store.upsert_track(
        path.to_string(),
        format!("file-of-{songname}"),
        songname.to_string(),
        artist.to_string(),
        "album".to_string(),
        jukebox::duration::format_songlength(seconds as u64),
        seconds,
    );
}

#[test]
fn inserted_tracks_get_fresh_increasing_ids_and_the_default_rating() {
    let mut store = current_store();
    scan(&mut store, "a.mp3", "one", "x", 60);
    scan(&mut store, "b.mp3", "two", "y", 61);
    assert_eq!(store.rows.len(), 2);
    assert_eq!(store.rows[0].id, 1);
    assert_eq!(store.rows[1].id, 2);
    assert_eq!(store.rows[0].rating, DEFAULT_RATING);
    assert_eq!(store.rows[1].rating, DEFAULT_RATING);
    assert_eq!(store.rows[0].length, "1:00");
}

#[test]
fn rescanning_a_path_updates_metadata_but_preserves_id_and_rating() {
    let mut store = current_store();
    scan(&mut store, "a.mp3", "old name", "old artist", 60);
    apply_vote(&mut store, 1, VoteDirection::Up).unwrap();
    apply_vote(&mut store, 1, VoteDirection::Up).unwrap();
    assert_eq!(store.rows[0].rating, DEFAULT_RATING + 2);

    scan(&mut store, "a.mp3", "new name", "new artist", 75);

    assert_eq!(store.rows.len(), 1);
    let row = &store.rows[0];
    assert_eq!(row.id, 1);
    assert_eq!(row.rating, DEFAULT_RATING + 2);
    assert_eq!(row.songname, "new name");
    assert_eq!(row.artist, "new artist");
    assert_eq!(row.seconds, 75);
    assert_eq!(row.length, "1:15");
    // The filename is not part of the conflict update.
    assert_eq!(row.filename, "file-of-old name");
    assert!(!row.deleted);
}

#[test]
fn a_refresh_revives_rescanned_tracks_and_buries_the_rest() {
    let mut store = current_store();
    scan(&mut store, "a.mp3", "one", "x", 10);
    scan(&mut store, "b.mp3", "two", "y", 20);
    store.mark_all_deleted();
    assert!(store.rows.iter().all(|r| r.deleted));
    scan(&mut store, "b.mp3", "two", "y", 20);
    assert!(store.rows[0].deleted);
    assert!(!store.rows[1].deleted);

    let pairs = store.eligible_pairs();
    assert_eq!(pairs, vec![(DEFAULT_RATING, 2i32)]);
}

#[test]
fn refresh_revives_only_the_scanned_files() {
    let mut store = current_store();
    scan(&mut store, "a.mp3", "one", "x", 10);
    scan(&mut store, "b.mp3", "two", "y", 20);
    apply_vote(&mut store, 1, VoteDirection::Up).unwrap();

    // The next scan sees a.mp3 (with fresh tags) and a new c.mp3; b.mp3 is
    // gone from disk.
    let scans = vec![
        TrackScan {
            path: "a.mp3".to_string(),
            filename: "a.mp3".to_string(),
            songname: "one, retagged".to_string(),
            artist: "x".to_string(),
            album: "album".to_string(),
            length: "0:10".to_string(),
            seconds: 10,
        },
        TrackScan {
            path: "c.mp3".to_string(),
            filename: "c.mp3".to_string(),
            songname: "three".to_string(),
            artist: "z".to_string(),
            album: "album".to_string(),
            length: "0:30".to_string(),
            seconds: 30,
        },
    ];
    store.refresh_catalog(&scans);

    assert_eq!(store.rows.len(), 3);
    assert_eq!(store.rows[0].id, 1);
    assert!(!store.rows[0].deleted);
    assert_eq!(store.rows[0].songname, "one, retagged");
    assert_eq!(store.rows[0].rating, DEFAULT_RATING + 1);
    assert!(store.rows[1].deleted);
    assert_eq!(store.rows[2].id, 3);
    assert_eq!(store.rows[2].path, "c.mp3");
    assert!(!store.rows[2].deleted);
}

#[test]
fn eligible_pairs_exclude_deleted_and_zero_rated_tracks() {
    let mut store = current_store();
    scan(&mut store, "a.mp3", "one", "x", 10);
    scan(&mut store, "b.mp3", "two", "y", 20);
    scan(&mut store, "c.mp3", "three", "z", 30);
    // Rate the first track down to zero; soft-delete the second.
    apply_vote(&mut store, 1, VoteDirection::Down).unwrap();
    apply_vote(&mut store, 1, VoteDirection::Down).unwrap();
    store.rows[1].deleted = true;
    let pairs = store.eligible_pairs();
    assert_eq!(pairs, vec![(DEFAULT_RATING, 3i32)]);
}

#[test]
fn play_counter_grows_by_one_and_ignores_unknown_ids() {
    let mut store = current_store();
    scan(&mut store, "a.mp3", "one", "x", 10);
    store.increase_times_played(1);
    store.increase_times_played(1);
    assert_eq!(store.rows[0].times_played, 2);
    let snapshot = store.clone();
    store.increase_times_played(99);
    assert_eq!(store, snapshot);
}

#[test]
fn paths_are_found_by_id() {
    let mut store = current_store();
    scan(&mut store, "music/a.mp3", "one", "x", 10);
    assert_eq!(store.get_path_by_id(1), Some("music/a.mp3".to_string()));
    assert_eq!(store.get_path_by_id(2), None);
}

#[test]
fn vote_steps_are_clamped_to_the_rating_scale() {
    assert_eq!(next_rating(0, VoteDirection::Down), 0);
    assert_eq!(next_rating(0, VoteDirection::Up), 1);
    assert_eq!(next_rating(6, VoteDirection::Up), 7);
    assert_eq!(next_rating(7, VoteDirection::Up), 7);
    assert_eq!(next_rating(7, VoteDirection::Down), 6);
    assert_eq!(next_rating(1, VoteDirection::Down), 0);
}

#[test]
fn upvote_at_the_top_of_the_scale_succeeds_and_stays() {
    let mut store = current_store();
    scan(&mut store, "a.mp3", "one", "x", 10);
    for _ in 0..10 {
        assert!(apply_vote(&mut store, 1, VoteDirection::Up).is_ok());
    }
    assert_eq!(apply_vote(&mut store, 1, VoteDirection::Up), Ok(7));
    assert_eq!(store.rows[0].rating, 7);
}

#[test]
fn downvote_at_the_bottom_of_the_scale_succeeds_and_stays() {
    let mut store = current_store();
    scan(&mut store, "a.mp3", "one", "x", 10);
    assert_eq!(apply_vote(&mut store, 1, VoteDirection::Down), Ok(1));
    assert_eq!(apply_vote(&mut store, 1, VoteDirection::Down), Ok(0));
    assert_eq!(apply_vote(&mut store, 1, VoteDirection::Down), Ok(0));
    assert_eq!(store.rows[0].rating, 0);
}

#[test]
fn voting_on_an_unknown_track_is_not_found() {
    let mut store = current_store();
    scan(&mut store, "a.mp3", "one", "x", 10);
    let snapshot = store.clone();
    assert_eq!(
        apply_vote(&mut store, 99, VoteDirection::Up),
        Err(VoteError::NotFound)
    );
    assert_eq!(store, snapshot);
}
