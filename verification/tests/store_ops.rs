use tag_manager::rating::AuthLevel;
use tag_manager::rating::Rating;
use tag_manager::store::MemoryStore;
use tag_manager::store::SqlDatabaseError;
use tag_manager::tags::Tags;

fn tags(rating: Rating, characters: &[&str], general: &[&str]) -> Tags {
    Tags::new(
        rating,
        Some(characters.iter().map(|s| s.to_string()).collect()),
        Some(general.iter().map(|s| s.to_string()).collect()),
    )
}

#[test]
fn fresh_insert_assigns_dense_ids() {
    let mut store = MemoryStore::new();
    let first = store.save_image(11, &tags(Rating::General, &["alice"], &["park"]));
    let second = store.save_image(22, &tags(Rating::Explicit, &[], &[]));
    assert_eq!(first, 1);
    assert_eq!(second, 2);
    assert!(store.check_hash(11));
    assert!(store.check_hash(22));
    assert!(!store.check_hash(33));
}

#[test]
fn duplicate_fingerprint_never_creates_a_second_record() {
    let mut store = MemoryStore::new();
    let first = store.save_image(99, &tags(Rating::General, &["alice"], &[]));
    let again = store.save_image(99, &tags(Rating::Explicit, &["mallory"], &[]));
    assert_eq!(first, again);
    assert_eq!(store.records.len(), 1);
    assert_eq!(store.records[0].rating, Rating::General);
}

#[test]
fn name_resolution_is_idempotent() {
    let mut store = MemoryStore::new();
    let a = store.get_general_tag_id("park");
    let b = store.get_general_tag_id("tree");
    let a_again = store.get_general_tag_id("park");
    assert_eq!(a, a_again);
    assert_ne!(a, b);
    assert_eq!(store.tag_names.len(), 2);
    let c = store.get_character_tag_id("alice");
    let c_again = store.get_character_tag_id("alice");
    assert_eq!(c, c_again);
    assert_eq!(store.character_names.len(), 1);
}

#[test]
fn thumbnail_flags_start_low_and_can_be_raised() {
    let mut store = MemoryStore::new();
    store.save_image(1, &tags(Rating::General, &[], &[]));
    store.save_image(2, &tags(Rating::General, &[], &[]));
    assert_eq!(store.get_non_thumbnailed_images(), vec![1, 2]);
    store.write_thumbnail(1);
    assert_eq!(store.get_non_thumbnailed_images(), vec![2]);
    store.write_thumbnail(2);
    assert_eq!(store.get_non_thumbnailed_images(), Vec::<u32>::new());
    // an unknown id changes nothing
    store.write_thumbnail(17);
    assert_eq!(store.records.len(), 2);
}

#[test]
fn auth_lookup_reports_the_registered_level() {
    let mut store = MemoryStore::new();
    store.register_token("token-alpha".to_string(), AuthLevel::Admin);
    assert_eq!(
        store.get_auth_level("token-alpha"),
        Ok(AuthLevel::Admin)
    );
    assert_eq!(
        store.get_auth_level("unknown"),
        Err(SqlDatabaseError::NotFound)
    );
}

#[test]
fn image_location_is_gated_by_rating() {
    let mut store = MemoryStore::new();
    let id = store.save_image(5, &tags(Rating::Explicit, &[], &[]));
    assert_eq!(
        store.get_image_location(id, AuthLevel::Guest, "/s"),
        Err(SqlDatabaseError::NotAllowed)
    );
    assert_eq!(
        store.get_image_location(id, AuthLevel::Admin, "/s"),
        Ok("/s/1.png".to_string())
    );
    assert_eq!(
        store.get_image_location(42, AuthLevel::Admin, "/s"),
        Err(SqlDatabaseError::NotFound)
    );
}

#[test]
fn thumbnail_location_needs_the_flag() {
    let mut store = MemoryStore::new();
    let id = store.save_image(5, &tags(Rating::General, &[], &[]));
    assert_eq!(
        store.get_thumbnail_location(id, AuthLevel::Guest, "/t"),
        Err(SqlDatabaseError::NotFound)
    );
    store.write_thumbnail(id);
    assert_eq!(
        store.get_thumbnail_location(id, AuthLevel::Guest, "/t"),
        Ok("/t/1_thumbnail.jpg".to_string())
    );
}

#[test]
fn image_information_reports_the_stored_names() {
    let mut store = MemoryStore::new();
    let id = store.save_image(5, &tags(Rating::Sensitive, &["alice"], &["park", "tree"]));
    let info = store.get_image_information(id).unwrap();
    assert_eq!(info.id, id);
    assert_eq!(info.rating, Rating::Sensitive);
    assert_eq!(info.characters, vec!["alice".to_string()]);
    assert_eq!(info.tags, vec!["park".to_string(), "tree".to_string()]);
    assert!(store.get_image_information(9).is_none());
}

#[test]
fn image_search_requires_every_listed_name() {
    let mut store = MemoryStore::new();
    store.save_image(1, &tags(Rating::General, &["alice"], &["park", "tree"]));
    store.save_image(2, &tags(Rating::General, &["alice", "bob"], &["park"]));
    store.save_image(3, &tags(Rating::Explicit, &["bob"], &["park"]));

    let both = vec!["alice".to_string(), "bob".to_string()];
    let page = store.get_filtered_images_paginated(Some(&both), None, None, 10, 0);
    assert_eq!(page.total_items, 1);
    assert_eq!(page.items.len(), 1);
    assert_eq!(page.items[0].id, 2);

    let park = vec!["park".to_string()];
    let page = store.get_filtered_images_paginated(None, Some(&park), None, 10, 0);
    assert_eq!(page.total_items, 3);

    let page =
        store.get_filtered_images_paginated(None, Some(&park), Some(Rating::Explicit), 10, 0);
    assert_eq!(page.total_items, 1);
    assert_eq!(page.items[0].id, 3);
}

#[test]
fn image_search_pages_are_cut_from_the_match_list() {
    let mut store = MemoryStore::new();
    for fingerprint in 0..5u64 {
        store.save_image(fingerprint, &tags(Rating::General, &[], &["park"]));
    }
    let page = store.get_filtered_images_paginated(None, None, None, 2, 1);
    assert_eq!(page.total_items, 5);
    assert_eq!(page.total_pages, 3);
    assert_eq!(page.items.len(), 2);
    assert_eq!(page.items[0].id, 3);
    assert_eq!(page.items[1].id, 4);
    let beyond = store.get_filtered_images_paginated(None, None, None, 2, 9);
    assert_eq!(beyond.items.len(), 0);
}

#[test]
fn tag_search_counts_usage_and_orders_by_it() {
    let mut store = MemoryStore::new();
    store.save_image(1, &tags(Rating::General, &[], &["park", "tree"]));
    store.save_image(2, &tags(Rating::General, &[], &["park"]));
    store.save_image(3, &tags(Rating::General, &[], &["park", "pond"]));
    let page = store.get_filtered_tags_paginated(None, 10, 0);
    assert_eq!(page.total_items, 3);
    assert_eq!(page.items[0], ("park".to_string(), 3));
    assert_eq!(page.items[0].1, 3);
    assert!(page.items[1].1 <= page.items[0].1);
    assert_eq!(page.items.len(), 3);
}

#[test]
fn tag_search_filters_by_substring() {
    let mut store = MemoryStore::new();
    store.save_image(1, &tags(Rating::General, &[], &["parkside", "tree"]));
    let page = store.get_filtered_tags_paginated(Some("arks"), 10, 0);
    assert_eq!(page.total_items, 1);
    assert_eq!(page.items, vec![("parkside".to_string(), 1)]);
    let none = store.get_filtered_tags_paginated(Some("pond"), 10, 0);
    assert_eq!(none.total_items, 0);
    assert!(none.items.is_empty());
}

#[test]
fn character_search_mirrors_the_tag_search() {
    let mut store = MemoryStore::new();
    store.save_image(1, &tags(Rating::General, &["alice", "bob"], &[]));
    store.save_image(2, &tags(Rating::General, &["alice"], &[]));
    let page = store.get_filtered_characters_paginated(None, 10, 0);
    assert_eq!(page.total_items, 2);
    assert_eq!(page.items[0], ("alice".to_string(), 2));
    assert_eq!(page.items[1], ("bob".to_string(), 1));
}
