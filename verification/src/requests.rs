use vstd::prelude::*;

use crate::rating::Rating;

verus! {

/// Requested page window of a search, both parts optional; what a query
/// string carries before the defaults are applied.
#[derive(Clone, Debug)]
pub struct Paginated {
    pub page: Option<u32>,
    pub per_page: Option<u32>,
}

impl Default for Paginated {
    /// An empty window: no page and no size requested.
    fn default() -> (d: Paginated)
        ensures
            d.page is None,
            d.per_page is None,
    {
        Paginated { page: None, per_page: None }
    }
}

/// Query of the image and thumbnail endpoints: at most an auth token.
#[derive(Clone, Debug)]
pub struct ImageRequest {
    pub token: Option<String>,
}

/// Query of the image search: comma-separated character and tag name
/// lists, an optional rating, an optional token, and the page window.
#[derive(Clone, Debug)]
pub struct FindImageRequest {
    pub characters: Option<String>,
    pub tags: Option<String>,
    pub rating: Option<Rating>,
    pub token: Option<String>,
    pub pages: Paginated,
}

impl Default for FindImageRequest {
    /// The unfiltered search: everything absent.
    fn default() -> (d: FindImageRequest)
        ensures
            d.characters is None,
            d.tags is None,
            d.rating is None,
            d.token is None,
            d.pages.page is None,
            d.pages.per_page is None,
    {
        FindImageRequest {
            characters: None,
            tags: None,
            rating: None,
            token: None,
            pages: Paginated { page: None, per_page: None },
        }
    }
}

/// Query of the tag search: an optional name filter and the page window.
#[derive(Clone, Debug)]
pub struct FindTagQuery {
    pub tag: Option<String>,
    pub pages: Paginated,
}

/// Query of the character search, shaped like the tag search.
#[derive(Clone, Debug)]
pub struct FindCharacterQuery {
    pub character: Option<String>,
    pub pages: Paginated,
}

} // verus!
