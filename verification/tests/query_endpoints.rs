use tag_manager::endpoints::MAX_PER_PAGE;
use tag_manager::endpoints::effective_auth_level;
use tag_manager::endpoints::effective_paging;
use tag_manager::endpoints::find_images;
use tag_manager::endpoints::image;
use tag_manager::endpoints::imageinfo;
use tag_manager::endpoints::root;
use tag_manager::endpoints::search_characters;
use tag_manager::endpoints::search_tags;
use tag_manager::endpoints::thumbnail;
use tag_manager::rating::AuthLevel;
use tag_manager::rating::Rating;
use tag_manager::requests::FindCharacterQuery;
use tag_manager::requests::FindImageRequest;
use tag_manager::requests::FindTagQuery;
use tag_manager::requests::ImageRequest;
use tag_manager::requests::Paginated;
use tag_manager::response::ApiData;
use tag_manager::store::MemoryStore;
use tag_manager::tags::Tags;

fn seeded_store() -> MemoryStore {
    let mut store = MemoryStore::new();
    store.save_image(
        1,
        &Tags::new(
            Rating::General,
            Some(vec!["alice".to_string()]),
            Some(vec!["park".to_string(), "tree".to_string()]),
        ),
    );
    store.save_image(
        2,
        &Tags::new(
            Rating::Explicit,
            Some(vec!["bob".to_string()]),
            Some(vec!["park".to_string()]),
        ),
    );
    store.write_thumbnail(1);
    store.register_token("token-alpha".to_string(), AuthLevel::Admin);
    store
}

fn no_token() -> ImageRequest {
    ImageRequest { token: None }
}

fn with_token(token: &str) -> ImageRequest {
    ImageRequest { token: Some(token.to_string()) }
}

#[test]
fn paging_defaults_and_clamps() {
    let pages = Paginated { page: None, per_page: None };
    assert_eq!(effective_paging(&pages), (0, MAX_PER_PAGE));
    let pages = Paginated { page: Some(3), per_page: Some(20) };
    assert_eq!(effective_paging(&pages), (3, 20));
    let pages = Paginated { page: Some(1), per_page: Some(100000) };
    assert_eq!(effective_paging(&pages), (1, MAX_PER_PAGE));
}

#[test]
fn unknown_tokens_fall_back_to_guest() {
    let store = seeded_store();
    assert_eq!(effective_auth_level(&store, &None), AuthLevel::Guest);
    assert_eq!(
        effective_auth_level(&store, &Some("nope".to_string())),
        AuthLevel::Guest
    );
    assert_eq!(
        effective_auth_level(&store, &Some("token-alpha".to_string())),
        AuthLevel::Admin
    );
}

#[test]
fn the_health_endpoint_reports_success() {
    let r = root();
    assert_eq!(r.status, 200);
    assert!(matches!(r.data, ApiData::Json(Ok("Site up and working"))));
}

#[test]
fn the_image_endpoint_gates_and_resolves() {
    let store = seeded_store();
    // a guest may fetch the mild image
    let ok = image(&store, 1, &no_token(), "/s");
    assert_eq!(ok.ok(), Some("/s/1.png".to_string()));
    // but not the explicit one
    let denied = image(&store, 2, &no_token(), "/s").unwrap_err();
    assert_eq!(denied.status, 405);
    // an admin token unlocks it
    let ok = image(&store, 2, &with_token("token-alpha"), "/s");
    assert_eq!(ok.ok(), Some("/s/2.png".to_string()));
    // an unknown id is a bad request
    let missing = image(&store, 9, &no_token(), "/s").unwrap_err();
    assert_eq!(missing.status, 400);
}

#[test]
fn the_thumbnail_endpoint_needs_a_generated_thumbnail() {
    let store = seeded_store();
    let ok = thumbnail(&store, 1, &no_token(), "/t");
    assert_eq!(ok.ok(), Some("/t/1_thumbnail.jpg".to_string()));
    // record 2 exists but has no thumbnail yet
    let missing = thumbnail(&store, 2, &with_token("token-alpha"), "/t").unwrap_err();
    assert_eq!(missing.status, 400);
}

#[test]
fn the_info_endpoint_reports_tags_and_urls() {
    let store = seeded_store();
    let r = imageinfo(&store, 1, &no_token(), "http://api.test");
    assert_eq!(r.status, 200);
    match r.data {
        ApiData::Json(Ok(info)) => {
            assert_eq!(info.rating, Rating::General);
            assert_eq!(info.characters, vec!["alice".to_string()]);
            assert_eq!(info.tags, vec!["park".to_string(), "tree".to_string()]);
            assert_eq!(info.image_url, "http://api.test/image/1");
            assert_eq!(info.tag_url, "http://api.test/image/1");
        }
        _ => panic!("expected a JSON success"),
    }
    let r = imageinfo(&store, 9, &no_token(), "http://api.test");
    assert_eq!(r.status, 500);
}

#[test]
fn the_info_endpoint_appends_the_token() {
    let store = seeded_store();
    let r = imageinfo(&store, 1, &with_token("token-alpha"), "http://api.test");
    match r.data {
        ApiData::Json(Ok(info)) => {
            assert_eq!(info.image_url, "http://api.test/image/1?token=token-alpha");
        }
        _ => panic!("expected a JSON success"),
    }
}

#[test]
fn the_image_search_builds_urls_and_page_links() {
    let store = seeded_store();
    let query = FindImageRequest {
        characters: None,
        tags: Some("park".to_string()),
        rating: None,
        token: None,
        pages: Paginated { page: Some(0), per_page: Some(1) },
    };
    let r = find_images(&store, &query, "http://api.test");
    assert_eq!(r.status, 200);
    match r.data {
        ApiData::Json(Ok(pr)) => {
            assert_eq!(pr.items.len(), 1);
            assert_eq!(pr.items[0].id(), 1);
            assert_eq!(pr.items[0].url(), "http://api.test/image/1");
            assert_eq!(pr.pages.total_items, 2);
            assert_eq!(pr.pages.total_pages, 2);
            assert_eq!(pr.pages.page, 0);
            assert_eq!(pr.pages.next, "/search?&tags=park&page=1&per_page=1");
            assert_eq!(pr.pages.prev, "/search?&tags=park&page=0&per_page=1");
        }
        _ => panic!("expected a JSON success"),
    }
}

#[test]
fn the_image_search_applies_every_filter() {
    let store = seeded_store();
    let query = FindImageRequest {
        characters: Some("alice".to_string()),
        tags: Some("park,tree".to_string()),
        rating: Some(Rating::General),
        token: None,
        pages: Paginated { page: None, per_page: None },
    };
    let r = find_images(&store, &query, "http://api.test");
    match r.data {
        ApiData::Json(Ok(pr)) => {
            assert_eq!(pr.items.len(), 1);
            assert_eq!(pr.items[0].id(), 1);
        }
        _ => panic!("expected a JSON success"),
    }
    // an empty filter string filters nothing
    let query = FindImageRequest {
        characters: Some("".to_string()),
        tags: None,
        rating: None,
        token: None,
        pages: Paginated { page: None, per_page: None },
    };
    let r = find_images(&store, &query, "http://api.test");
    match r.data {
        ApiData::Json(Ok(pr)) => assert_eq!(pr.items.len(), 2),
        _ => panic!("expected a JSON success"),
    }
}

#[test]
fn the_tag_search_orders_by_usage() {
    let store = seeded_store();
    let query = FindTagQuery { tag: None, pages: Paginated { page: None, per_page: None } };
    let r = search_tags(&store, &query);
    assert_eq!(r.status, 200);
    match r.data {
        ApiData::Json(Ok(pr)) => {
            assert_eq!(pr.pages.total_items, 2);
            assert_eq!(pr.items[0].name, "park");
            assert_eq!(pr.items[0].count, 2);
            assert_eq!(pr.items[1].name, "tree");
            assert_eq!(pr.items[1].count, 1);
        }
        _ => panic!("expected a JSON success"),
    }
}

#[test]
fn the_character_search_filters_by_substring() {
    let store = seeded_store();
    let query = FindCharacterQuery {
        character: Some("li".to_string()),
        pages: Paginated { page: None, per_page: None },
    };
    let r = search_characters(&store, &query);
    match r.data {
        ApiData::Json(Ok(pr)) => {
            assert_eq!(pr.pages.total_items, 1);
            assert_eq!(pr.items.len(), 1);
            assert_eq!(pr.items[0].name, "alice");
            assert_eq!(pr.items[0].count, 1);
        }
        _ => panic!("expected a JSON success"),
    }
}
