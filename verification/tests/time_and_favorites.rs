use weather_cli::favorites::{
    add_favorite, list_favorites, load_favorites, remove_favorite, save_favorites, FavoritesError,
};
use weather_cli::timefmt::{convert_unix_to_readable_time, readable_time};

#[test]
fn epoch_renders_as_midnight_under_utc_offset() {
    assert_eq!(readable_time(0, 0), "00:00:00");
}

#[test]
fn time_of_day_wraps_and_pads() {
    assert_eq!(readable_time(3661, 0), "01:01:01");
    assert_eq!(readable_time(86399, 0), "23:59:59");
    assert_eq!(readable_time(86400, 0), "00:00:00");
    // a negative offset wraps to the previous day
    assert_eq!(readable_time(0, -3600), "23:00:00");
    assert_eq!(readable_time(0, 3600), "01:00:00");
}

#[test]
fn out_of_range_epoch_is_the_invalid_notice() {
    assert_eq!(convert_unix_to_readable_time(u64::MAX), "Invalid timestamp");
    assert_eq!(convert_unix_to_readable_time(i64::MAX as u64), "Invalid timestamp");
}

#[test]
fn add_favorite_is_idempotent() {
    let mut favs: Vec<String> = Vec::new();
    add_favorite(&mut favs, "Paris");
    add_favorite(&mut favs, "Paris");
    assert_eq!(favs, vec!["Paris".to_string()]);
}

#[test]
fn remove_of_absent_city_changes_nothing_and_still_persists() {
    let mut favs: Vec<String> = vec!["Paris".to_string()];
    remove_favorite(&mut favs, "Tokyo");
    assert_eq!(favs, vec!["Paris".to_string()]);
    let record = save_favorites(&favs);
    let back = load_favorites(Some(record.as_str())).unwrap();
    assert_eq!(back, favs);
}

#[test]
fn remove_drops_every_matching_entry() {
    let mut favs: Vec<String> = vec!["X".to_string(), "Y".to_string(), "X".to_string()];
    remove_favorite(&mut favs, "X");
    assert_eq!(favs, vec!["Y".to_string()]);
}

#[test]
fn save_then_load_round_trips_in_order() {
    let mut favs: Vec<String> = Vec::new();
    add_favorite(&mut favs, "Paris");
    add_favorite(&mut favs, "Tokyo");
    let record = save_favorites(&favs);
    let back = load_favorites(Some(record.as_str())).unwrap();
    assert_eq!(back, vec!["Paris".to_string(), "Tokyo".to_string()]);
}

#[test]
fn absent_record_is_an_empty_list() {
    let favs = load_favorites(None).unwrap();
    assert!(favs.is_empty());
}

#[test]
fn unreadable_record_is_the_corrupt_error() {
    assert_eq!(
        load_favorites(Some("not json")),
        Err(FavoritesError::CorruptFavoritesData)
    );
    assert_eq!(
        load_favorites(Some("[1, 2]")),
        Err(FavoritesError::CorruptFavoritesData)
    );
    assert_eq!(
        load_favorites(Some("{\"a\": 1}")),
        Err(FavoritesError::CorruptFavoritesData)
    );
}

#[test]
fn record_text_is_a_json_array_of_strings() {
    let favs: Vec<String> = vec!["Paris".to_string(), "Tokyo".to_string()];
    let record = save_favorites(&favs);
    assert_eq!(record, "[\"Paris\",\"Tokyo\"]");
}

#[test]
fn listing_prints_one_city_per_line() {
    let favs: Vec<String> = vec!["Paris".to_string(), "Tokyo".to_string()];
    assert_eq!(list_favorites(&favs), "Paris\nTokyo\n");
    let none: Vec<String> = Vec::new();
    assert_eq!(list_favorites(&none), "");
}
