use gobbler::signals::Signal;
use gobbler::wallpaper_changer::{FilesMetadataCacheStore, StoreError};

fn store_of(paths: &[&str]) -> FilesMetadataCacheStore {
    let wallpapers: Vec<String> = paths.iter().map(|p| p.to_string()).collect();
    FilesMetadataCacheStore::with_wallpapers("wallpapers".to_string(), 600, wallpapers)
}

#[test]
fn advance_visits_positions_in_order() {
    let mut store = store_of(&["a", "b", "c"]);
    assert_eq!(store.current_wallpaper(), Some("a".to_string()));
    assert_eq!(store.set_background(Signal::Next), Some("b".to_string()));
    assert_eq!(store.set_background(Signal::Next), Some("c".to_string()));
    assert_eq!(store.set_background(Signal::Next), Some("a".to_string()));
}

#[test]
fn retreat_wraps_to_end() {
    let mut store = store_of(&["a", "b", "c"]);
    assert_eq!(store.set_background(Signal::Prev), Some("c".to_string()));
}

#[test]
fn advance_count_lands_on_count_mod_length() {
    let mut store = store_of(&["a", "b", "c"]);
    for _ in 0..5 {
        store.set_background(Signal::Next);
    }
    // 5 mod 3 == 2, so the current wallpaper is the third one.
    assert_eq!(store.current_wallpaper(), Some("c".to_string()));
}

#[test]
fn advance_then_retreat_restores_position() {
    let mut store = store_of(&["a", "b", "c"]);
    store.set_background(Signal::Next);
    let before = store.current_wallpaper();
    store.set_background(Signal::Next);
    store.set_background(Signal::Prev);
    assert_eq!(store.current_wallpaper(), before);
    store.set_background(Signal::Prev);
    store.set_background(Signal::Next);
    assert_eq!(store.current_wallpaper(), before);
}

#[test]
fn empty_store_rotation_is_noop() {
    let mut store = store_of(&[]);
    assert_eq!(store.wallpaper_count(), 0);
    assert_eq!(store.set_background(Signal::Next), None);
    assert_eq!(store.set_background(Signal::Prev), None);
    assert_eq!(store.current_wallpaper(), None);
}

#[test]
fn duplicate_candidates_are_suppressed() {
    let store = store_of(&["a", "b", "a", "b", "a"]);
    assert_eq!(store.wallpaper_count(), 2);
}

#[test]
fn merge_never_introduces_duplicates() {
    let mut store = store_of(&["a", "b"]);
    let found: Vec<String> = ["b", "c", "c", "a"].iter().map(|p| p.to_string()).collect();
    store.merge_discovered(&found);
    assert_eq!(store.wallpaper_count(), 3);
    // Discovery order is kept: a, b, then the new c at the end.
    assert_eq!(store.current_wallpaper(), Some("a".to_string()));
    store.set_background(Signal::Prev);
    assert_eq!(store.current_wallpaper(), Some("c".to_string()));
}

#[test]
fn merge_keeps_position_on_same_wallpaper() {
    let mut store = store_of(&["a", "b", "c"]);
    store.set_background(Signal::Next);
    assert_eq!(store.current_wallpaper(), Some("b".to_string()));
    let found: Vec<String> = ["a", "b", "c", "d", "e"].iter().map(|p| p.to_string()).collect();
    store.merge_discovered(&found);
    assert_eq!(store.wallpaper_count(), 5);
    assert_eq!(store.current_wallpaper(), Some("b".to_string()));
}

#[test]
fn new_rejects_a_missing_directory() {
    let result = FilesMetadataCacheStore::new("no/such/directory/anywhere".to_string(), 600);
    assert!(matches!(result, Err(StoreError::NotADirectory)));
}

#[test]
fn new_accepts_a_directory() {
    let result = FilesMetadataCacheStore::new(".".to_string(), 600);
    assert!(result.is_ok());
}

#[test]
fn capacity_reservation_keeps_contents() {
    let mut wallpapers: Vec<String> = vec!["a".to_string(), "b".to_string()];
    FilesMetadataCacheStore::ensure_store_capacity_is_enough(&mut wallpapers, 100);
    assert_eq!(wallpapers, vec!["a".to_string(), "b".to_string()]);
    assert!(wallpapers.capacity() >= 100);
}
