use tag_manager::response::ApiData;
use tag_manager::response::ApiResponse;
use tag_manager::response::Imagedata;
use tag_manager::response::PaginatedResponse;
use tag_manager::response::Paginated;
use tag_manager::store::Image;
use tag_manager::store::PaginatedResult;

#[test]
fn pagination_math_rounds_pages_up() {
    let p = Paginated::new("/search?", 0, 10, 0);
    assert_eq!(p.total_pages, 0);
    let p = Paginated::new("/search?", 0, 10, 1);
    assert_eq!(p.total_pages, 1);
    let p = Paginated::new("/search?", 0, 10, 10);
    assert_eq!(p.total_pages, 1);
    let p = Paginated::new("/search?", 0, 10, 11);
    assert_eq!(p.total_pages, 2);
}

#[test]
fn page_links_step_and_saturate() {
    let p = Paginated::new("/tag?&tag=a", 1, 20, 100);
    assert_eq!(p.page, 1);
    assert_eq!(p.per_page, 20);
    assert_eq!(p.total_items, 100);
    assert_eq!(p.total_pages, 5);
    assert_eq!(p.next, "/tag?&tag=a&page=2&per_page=20");
    assert_eq!(p.prev, "/tag?&tag=a&page=0&per_page=20");
    // the first page has no earlier page to point at
    let p = Paginated::new("/tag?", 0, 20, 100);
    assert_eq!(p.prev, "/tag?&page=0&per_page=20");
    // the last page points at itself
    let p = Paginated::new("/tag?", 7, 20, 100);
    assert_eq!(p.next, "/tag?&page=5&per_page=20");
}

#[test]
fn paginated_responses_keep_their_items() {
    let r: PaginatedResponse<u32> = PaginatedResponse::new(vec![5, 6], "/x?", 0, 2, 7);
    assert_eq!(r.items, vec![5, 6]);
    assert_eq!(r.pages.total_pages, 4);
}

#[test]
fn response_constructors_pick_their_status() {
    let r: ApiResponse<&str, &str> = ApiResponse::new_success("fine");
    assert_eq!(r.status, 200);
    assert!(matches!(r.data, ApiData::Json(Ok("fine"))));
    let r: ApiResponse<(), &str> = ApiResponse::new_bad_request("nope");
    assert_eq!(r.status, 400);
    assert!(matches!(r.data, ApiData::Json(Err("nope"))));
    let r: ApiResponse<(), &str> = ApiResponse::new_not_allowed("forbidden");
    assert_eq!(r.status, 405);
    let r: ApiResponse<(), &str> = ApiResponse::new_internal_server_error("boom");
    assert_eq!(r.status, 500);
    let r: ApiResponse<(), ()> = ApiResponse::new_binary(200, vec![1, 2, 3], "image/png");
    assert_eq!(r.status, 200);
    match r.data {
        ApiData::Binary(bytes, mime) => {
            assert_eq!(bytes, vec![1, 2, 3]);
            assert_eq!(mime, "image/png");
        }
        _ => panic!("expected a binary body"),
    }
}

#[test]
fn image_rows_and_hits_carry_their_fields() {
    let row = Image { id: 12 };
    assert_eq!(row.id, 12);
    let hit = Imagedata::new(12, "http://api.test/image/12".to_string());
    assert_eq!(hit.id(), 12);
    assert_eq!(hit.url(), "http://api.test/image/12");
    let page = PaginatedResult { items: vec![row], total_items: 1, total_pages: 1 };
    assert_eq!(page.items.len(), 1);
}

#[test]
fn request_defaults_are_all_absent() {
    let pages = tag_manager::requests::Paginated::default();
    assert!(pages.page.is_none());
    assert!(pages.per_page.is_none());
    let query = tag_manager::requests::FindImageRequest::default();
    assert!(query.characters.is_none());
    assert!(query.tags.is_none());
    assert!(query.rating.is_none());
    assert!(query.token.is_none());
    assert!(query.pages.page.is_none());
}
