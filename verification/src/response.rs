use vstd::prelude::*;

use crate::rating::Rating;
use crate::store::spec_div_ceil;
use crate::text::spec_dec_digits;
use crate::text::u32_to_dec;
use crate::text::concat2;

verus! {

/// Body of an API answer: a JSON-shaped payload or error, or raw bytes
/// with their content type.
pub enum ApiData<T, E> {
    Json(Result<T, E>),
    Binary(Vec<u8>, String),
}

/// An API answer: an HTTP status code and the body; the process edge turns
/// it into the actual wire response.
pub struct ApiResponse<T, E> {
    pub status: u16,
    pub data: ApiData<T, E>,
}

impl<T, E> ApiResponse<T, E> {
    pub fn new(status: u16, data: ApiData<T, E>) -> (r: Self)
        ensures
            r.status == status,
            r.data == data,
    {
        Self { status, data }
    }

    pub fn new_json(status: u16, data: Result<T, E>) -> (r: Self)
        ensures
            r.status == status,
            r.data == ApiData::Json(data),
    {
        Self::new(status, ApiData::Json(data))
    }

    pub fn new_success(data: T) -> (r: Self)
        ensures
            r.status == 200,
            r.data == ApiData::Json(Result::<T, E>::Ok(data)),
    {
        Self::new_json(200, Ok(data))
    }

    pub fn new_internal_server_error(error: E) -> (r: Self)
        ensures
            r.status == 500,
            r.data == ApiData::Json(Result::<T, E>::Err(error)),
    {
        Self::new_json(500, Err(error))
    }

    pub fn new_bad_request(error: E) -> (r: Self)
        ensures
            r.status == 400,
            r.data == ApiData::Json(Result::<T, E>::Err(error)),
    {
        Self::new_json(400, Err(error))
    }

    pub fn new_not_allowed(error: E) -> (r: Self)
        ensures
            r.status == 405,
            r.data == ApiData::Json(Result::<T, E>::Err(error)),
    {
        Self::new_json(405, Err(error))
    }

    pub fn new_binary(status: u16, content: Vec<u8>, content_type: &str) -> (r: Self)
        ensures
            r.status == status,
            r.data matches ApiData::Binary(bytes, mime) ==> bytes@ == content@ && mime@
                == content_type@,
            r.data is Binary,
    {
        let mime: String = content_type.to_owned();
        Self::new(status, ApiData::Binary(content, mime))
    }
}

/// Page bookkeeping of a response: the window served, the totals, and the
/// ready-made links to the neighbouring pages.
#[derive(Debug)]
pub struct Paginated {
    pub page: u32,
    pub per_page: u32,
    pub total_items: u32,
    pub total_pages: u32,
    pub next: String,
    pub prev: String,
}

/// The page a `next` link points at: one further, capped at the last page.
pub open spec fn spec_next_page(page: u32, total_pages: u32) -> int {
    if page >= total_pages {
        total_pages as int
    } else {
        page + 1
    }
}

/// The page a `prev` link points at: one back, stopping at the first.
pub open spec fn spec_prev_page(page: u32) -> int {
    if page == 0 {
        0int
    } else {
        page - 1
    }
}

/// A page link: the query prefix with the page window appended.
pub open spec fn spec_page_link(prefix: Seq<char>, page: int, per_page: u32) -> Seq<char> {
    prefix + "&page="@ + spec_dec_digits(page) + "&per_page="@ + spec_dec_digits(
        per_page as int,
    )
}

/// What the pagination block promises about its fields.
pub open spec fn spec_paginated_ok(
    p: Paginated,
    prefix: Seq<char>,
    page: u32,
    per_page: u32,
    total_items: u32,
) -> bool {
    &&& p.page == page
    &&& p.per_page == per_page
    &&& p.total_items == total_items
    &&& p.total_pages == spec_div_ceil(total_items as int, per_page as int)
    &&& p.next@ == spec_page_link(prefix, spec_next_page(page, p.total_pages), per_page)
    &&& p.prev@ == spec_page_link(prefix, spec_prev_page(page), per_page)
}

impl Paginated {
    pub fn new(prefix: &str, page: u32, per_page: u32, total_items: u32) -> (p: Paginated)
        requires
            per_page >= 1,
        ensures
            spec_paginated_ok(p, prefix@, page, per_page, total_items),
    {
        let total_pages: u32 = {
            let q = total_items / per_page;
            let rem = total_items % per_page;
            if rem != 0 {
                proof {
                    assert(per_page >= 2) by {
                        if per_page == 1 {
                            assert(total_items as int % 1int == 0);
                        }
                    }
                    assert(total_items as int / per_page as int <= total_items as int / 2)
                        by (nonlinear_arith)
                        requires
                            per_page as int >= 2,
                            total_items as int >= 0,
                    ;
                }
                q + 1
            } else {
                q
            }
        };
        let next_page: u32 = if page >= total_pages {
            total_pages
        } else {
            page + 1
        };
        let prev_page: u32 = if page == 0 {
            0
        } else {
            page - 1
        };
        let next = page_link(prefix, next_page, per_page);
        let prev = page_link(prefix, prev_page, per_page);
        Paginated { page, per_page, total_items, total_pages, next, prev }
    }
}

/// Builds one page link.
fn page_link(prefix: &str, page: u32, per_page: u32) -> (link: String)
    ensures
        link@ == spec_page_link(prefix@, page as int, per_page),
{
    let page_digits = u32_to_dec(page);
    let per_digits = u32_to_dec(per_page);
    let mut link: String = prefix.to_owned();
    let part = concat2("&page=", page_digits.as_str());
    link.append(part.as_str());
    let part = concat2("&per_page=", per_digits.as_str());
    link.append(part.as_str());
    link
}

/// A paged list of response items together with its pagination block.
#[derive(Debug)]
pub struct PaginatedResponse<T> {
    pub items: Vec<T>,
    pub pages: Paginated,
}

impl<T> PaginatedResponse<T> {
    pub fn new(items: Vec<T>, prefix: &str, page: u32, per_page: u32, total_items: u32) -> (r:
        PaginatedResponse<T>)
        requires
            per_page >= 1,
        ensures
            r.items == items,
            spec_paginated_ok(r.pages, prefix@, page, per_page, total_items),
    {
        PaginatedResponse { items, pages: Paginated::new(prefix, page, per_page, total_items) }
    }
}

/// One search hit of the image search, as the server answers it.
#[derive(Debug)]
pub struct Imagedata {
    id: i32,
    url: String,
}

impl Imagedata {
    /// The identity this hit names.
    pub closed spec fn spec_id(self) -> i32 {
        self.id
    }

    /// The URL the image body is served from.
    pub closed spec fn spec_url(self) -> Seq<char> {
        self.url@
    }

    pub fn new(id: i32, url: String) -> (d: Imagedata)
        ensures
            d.spec_id() == id,
            d.spec_url() == url@,
    {
        Imagedata { id, url }
    }

    pub fn id(&self) -> (id: i32)
        ensures
            id == self.spec_id(),
    {
        self.id
    }

    pub fn url(&self) -> (url: &str)
        ensures
            url@ == self.spec_url(),
    {
        self.url.as_str()
    }
}

/// One search hit of the image search, as the browser client reads it.
#[derive(Debug)]
pub struct ImageData {
    pub id: i32,
    pub url: String,
}

/// One hit of the tag search: a tag name and how many images carry it.
#[derive(Debug)]
pub struct TagData {
    pub name: String,
    pub count: u32,
}

/// One hit of the character search.
#[derive(Debug)]
pub struct CharacterData {
    pub name: String,
    pub count: u32,
}

/// Everything the info endpoint reports about one image.
#[derive(Debug)]
pub struct ImageInfo {
    pub tags: Vec<String>,
    pub characters: Vec<String>,
    pub rating: Rating,
    pub image_url: String,
    pub tag_url: String,
}

} // verus!
