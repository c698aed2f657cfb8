use vstd::prelude::*;

use crate::rating::AuthLevel;
use crate::rating::Rating;
use crate::requests::FindCharacterQuery;
use crate::requests::FindImageRequest;
use crate::requests::FindTagQuery;
use crate::requests::ImageRequest;
use crate::response::ApiData;
use crate::response::ApiResponse;
use crate::response::CharacterData;
use crate::response::ImageInfo;
use crate::response::Imagedata;
use crate::response::PaginatedResponse;
use crate::response::TagData;
use crate::response::spec_paginated_ok;
use crate::store::MemoryStore;
use crate::store::spec_count_matching;
use crate::store::spec_like_pattern;
use crate::store::spec_matching_images;
use crate::store::spec_min;
use crate::store::spec_used_names;
use crate::text::concat2;
use crate::text::concat3;
use crate::text::spec_dec_digits;
use crate::text::spec_split;
use crate::text::split_csv;
use crate::text::u32_to_dec;
use vstd::string::StrSliceExecFns;
use vstd::string::StringExecFns;

verus! {

/// The largest page size the search endpoints serve; larger requests are
/// clamped to it, absent ones default to it.
pub const MAX_PER_PAGE: u32 = 400;

/// The page a query asks for, defaulting to the first.
pub open spec fn spec_effective_page(pages: crate::requests::Paginated) -> u32 {
    match pages.page {
        Some(p) => p,
        None => 0u32,
    }
}

/// The page size a query asks for, clamped to the cap.
pub open spec fn spec_effective_per_page(pages: crate::requests::Paginated) -> u32 {
    match pages.per_page {
        Some(p) => if p <= MAX_PER_PAGE {
            p
        } else {
            MAX_PER_PAGE
        },
        None => MAX_PER_PAGE,
    }
}

/// Applies the paging defaults and the cap.
pub fn effective_paging(pages: &crate::requests::Paginated) -> (w: (u32, u32))
    ensures
        w.0 == spec_effective_page(*pages),
        w.1 == spec_effective_per_page(*pages),
{
    let page = match pages.page {
        Some(p) => p,
        None => 0,
    };
    let per_page = match pages.per_page {
        Some(p) => if p <= MAX_PER_PAGE {
            p
        } else {
            MAX_PER_PAGE
        },
        None => MAX_PER_PAGE,
    };
    (page, per_page)
}

/// What level an optional token grants: the stored level of a known
/// token, and guest access otherwise — also when the lookup errs.
pub open spec fn spec_effective_level(
    store: MemoryStore,
    token: Option<String>,
    level: AuthLevel,
) -> bool {
    match token {
        None => level == AuthLevel::Guest,
        Some(t) => {
            if exists|i: int|
                0 <= i < store.auth@.len() && (#[trigger] store.auth@[i]).token@ == t@ {
                exists|i: int|
                    0 <= i < store.auth@.len() && (#[trigger] store.auth@[i]).token@ == t@
                        && store.auth@[i].level == level
            } else {
                level == AuthLevel::Guest
            }
        },
    }
}

/// Resolves the caller's access level, falling back to guest.
pub fn effective_auth_level(store: &MemoryStore, token: &Option<String>) -> (level: AuthLevel)
    ensures
        spec_effective_level(*store, *token, level),
{
    match token {
        None => AuthLevel::Guest,
        Some(t) => match store.get_auth_level(t.as_str()) {
            Ok(level) => level,
            Err(_) => AuthLevel::Guest,
        },
    }
}

/// The `?token=` suffix appended to served URLs when a token was given.
pub open spec fn spec_token_suffix(token: Option<String>) -> Seq<char> {
    match token {
        Some(t) => "?token="@ + t@,
        None => Seq::empty(),
    }
}

fn token_suffix(token: &Option<String>) -> (s: String)
    ensures
        s@ == spec_token_suffix(*token),
{
    match token {
        Some(t) => concat2("?token=", t.as_str()),
        None => {
            let s = String::new();
            proof {
                assert(s@ =~= spec_token_suffix(*token));
            }
            s
        },
    }
}

/// The URL an image body is served from.
pub open spec fn spec_image_url(prefix: Seq<char>, id: u32, token: Option<String>)
    -> Seq<char> {
    prefix + "/image/"@ + spec_dec_digits(id as int) + spec_token_suffix(token)
}

fn image_url(prefix: &str, id: u32, token: &Option<String>) -> (url: String)
    ensures
        url@ == spec_image_url(prefix@, id, *token),
{
    let digits = u32_to_dec(id);
    let mut url = concat3(prefix, "/image/", digits.as_str());
    let suffix = token_suffix(token);
    url.append(suffix.as_str());
    url
}

/// The health endpoint: the fixed success banner.
pub fn root() -> (r: ApiResponse<&'static str, ()>)
    ensures
        r.status == 200,
        r.data matches ApiData::Json(d) ==> (d matches Ok(m) && m@ == "Site up and working"@),
        r.data is Json,
{
    ApiResponse::new_success("Site up and working")
}

/// The image endpoint's decision: where the requested image is served
/// from, or the error response the caller gets instead — a missing id is
/// a bad request, a rating above the caller's level is not allowed.  The
/// process edge reads the returned path and ships the bytes.
pub fn image(store: &MemoryStore, id: u32, query: &ImageRequest, storage_root: &str) -> (r:
    Result<String, ApiResponse<(), &'static str>>)
    requires
        store.wf(),
    ensures
        exists|level: AuthLevel|
            #[trigger] spec_effective_level(*store, query.token, level) && match r {
                Ok(path) => store.spec_has_id(id) && level.spec_is_allowed(
                    store.spec_record_at(id).rating,
                ) && path@ == crate::image_path::spec_joined(
                    storage_root@,
                    crate::image_path::spec_storage_name(id),
                ),
                Err(resp) => {
                    &&& resp.data is Json
                    &&& !(store.spec_has_id(id) && level.spec_is_allowed(
                        store.spec_record_at(id).rating,
                    ))
                    &&& (resp.status == 400 <==> !store.spec_has_id(id))
                    &&& (resp.status == 405 <==> store.spec_has_id(id)
                        && !level.spec_is_allowed(store.spec_record_at(id).rating))
                },
            },
{
    let level = effective_auth_level(store, &query.token);
    match store.get_image_location(id, level, storage_root) {
        Ok(path) => Ok(path),
        Err(crate::store::SqlDatabaseError::NotFound) => Err(
            ApiResponse::new_bad_request("Incorrect image id"),
        ),
        Err(crate::store::SqlDatabaseError::NotAllowed) => Err(
            ApiResponse::new_not_allowed("Not correct permissions for this image"),
        ),
    }
}

/// The thumbnail endpoint's decision, like `image` but over the thumbnail
/// location: an image whose thumbnail is not yet generated reads as
/// missing.
pub fn thumbnail(store: &MemoryStore, id: u32, query: &ImageRequest, thumbnail_root: &str) -> (r:
    Result<String, ApiResponse<(), &'static str>>)
    requires
        store.wf(),
    ensures
        exists|level: AuthLevel|
            #[trigger] spec_effective_level(*store, query.token, level) && match r {
                Ok(path) => store.spec_has_id(id) && store.spec_record_at(id).thumbnail
                    && level.spec_is_allowed(store.spec_record_at(id).rating) && path@
                    == crate::image_path::spec_joined(
                    thumbnail_root@,
                    crate::image_path::spec_thumbnail_name(id),
                ),
                Err(resp) => {
                    &&& resp.data is Json
                    &&& (resp.status == 400 <==> !(store.spec_has_id(id)
                        && store.spec_record_at(id).thumbnail))
                    &&& (resp.status == 405 <==> store.spec_has_id(id)
                        && store.spec_record_at(id).thumbnail && !level.spec_is_allowed(
                        store.spec_record_at(id).rating,
                    ))
                },
            },
{
    let level = effective_auth_level(store, &query.token);
    match store.get_thumbnail_location(id, level, thumbnail_root) {
        Ok(path) => Ok(path),
        Err(crate::store::SqlDatabaseError::NotFound) => Err(
            ApiResponse::new_bad_request("Incorrect image id or no thumbnail yet processed"),
        ),
        Err(crate::store::SqlDatabaseError::NotAllowed) => Err(
            ApiResponse::new_not_allowed("Not correct permissions for this image"),
        ),
    }
}

/// The info endpoint: everything recorded about one image, with the URLs
/// the caller can fetch it under; an unknown id surfaces as an internal
/// error, as a failed row fetch does.
pub fn imageinfo(store: &MemoryStore, id: u32, query: &ImageRequest, url_prefix: &str) -> (r:
    ApiResponse<ImageInfo, &'static str>)
    requires
        store.wf(),
    ensures
        !store.spec_has_id(id) ==> r.status == 500,
        store.spec_has_id(id) ==> {
            &&& r.status == 200
            &&& r.data matches ApiData::Json(d) && (d matches Ok(info) && {
                &&& info.tags.deep_view() == store.spec_record_at(id).general_tags.deep_view()
                &&& info.characters.deep_view() == store.spec_record_at(
                    id,
                ).character_tags.deep_view()
                &&& info.rating == store.spec_record_at(id).rating
                &&& info.image_url@ == spec_image_url(url_prefix@, id, query.token)
                &&& info.tag_url@ == spec_image_url(url_prefix@, id, query.token)
            })
        },
{
    let _level = effective_auth_level(store, &query.token);
    match store.get_image_information(id) {
        Some(info) => {
            let url = image_url(url_prefix, id, &query.token);
            let data = ImageInfo {
                tags: info.tags,
                characters: info.characters,
                rating: info.rating,
                image_url: url.clone(),
                tag_url: url,
            };
            ApiResponse::new_success(data)
        },
        None => ApiResponse::new_internal_server_error("pain"),
    }
}

/// An optional query parameter rendered into a search prefix.
pub open spec fn spec_opt_param(key: Seq<char>, value: Option<String>) -> Seq<char> {
    match value {
        Some(v) => key + v@,
        None => Seq::empty(),
    }
}

fn opt_param(key: &str, value: &Option<String>) -> (s: String)
    ensures
        s@ == spec_opt_param(key@, *value),
{
    match value {
        Some(v) => concat2(key, v.as_str()),
        None => {
            let s = String::new();
            proof {
                assert(s@ =~= spec_opt_param(key@, *value));
            }
            s
        },
    }
}

/// The rating parameter of a search prefix, spelled with its display name.
pub open spec fn spec_rating_param(rating: Option<Rating>) -> Seq<char> {
    match rating {
        Some(r) => "&rating="@ + r.spec_label(),
        None => Seq::empty(),
    }
}

fn rating_param(rating: Option<Rating>) -> (s: String)
    ensures
        s@ == spec_rating_param(rating),
{
    match rating {
        Some(r) => concat2("&rating=", r.label()),
        None => {
            let s = String::new();
            proof {
                assert(s@ =~= spec_rating_param(rating));
            }
            s
        },
    }
}

/// The link prefix the image search hands to its pagination block.
pub open spec fn spec_search_prefix(query: FindImageRequest) -> Seq<char> {
    "/search?"@ + spec_opt_param("&characters="@, query.characters) + spec_opt_param(
        "&tags="@,
        query.tags,
    ) + spec_rating_param(query.rating) + spec_opt_param("&token="@, query.token)
}

fn search_prefix(query: &FindImageRequest) -> (s: String)
    ensures
        s@ == spec_search_prefix(*query),
{
    let mut s: String = "/search?".to_owned();
    let part = opt_param("&characters=", &query.characters);
    s.append(part.as_str());
    let part = opt_param("&tags=", &query.tags);
    s.append(part.as_str());
    let part = rating_param(query.rating);
    s.append(part.as_str());
    let part = opt_param("&token=", &query.token);
    s.append(part.as_str());
    s
}

/// The views of a name list.
pub open spec fn spec_views(names: Seq<String>) -> Seq<Seq<char>> {
    names.map_values(|n: String| n@)
}

/// How the search reads a raw comma-separated filter: absent or empty
/// text filters nothing, anything else filters by the comma-split names.
pub open spec fn spec_name_filter(names: Option<Seq<String>>, raw: Option<String>) -> bool {
    match raw {
        None => names is None,
        Some(s) => if s@.len() == 0 {
            names is None
        } else {
            names matches Some(ns) && spec_views(ns) == spec_split(s@, ',')
        },
    }
}

/// The image search: every record carrying all requested character names,
/// all requested tag names and the requested rating, served as one page
/// of id/URL pairs with its pagination block.
#[verifier::loop_isolation(false)]
pub fn find_images(store: &MemoryStore, query: &FindImageRequest, url_prefix: &str) -> (r:
    ApiResponse<PaginatedResponse<Imagedata>, &'static str>)
    requires
        store.wf(),
        store.records@.len() < 0x8000_0000,
        query.pages.per_page matches Some(p) ==> p >= 1,
    ensures
        r.status == 200,
        r.data is Json,
        exists|cs: Option<Seq<String>>, ts: Option<Seq<String>>|
            {
                &&& #[trigger] spec_name_filter(cs, query.characters)
                &&& #[trigger] spec_name_filter(ts, query.tags)
                &&& r.data matches ApiData::Json(d) && (d matches Ok(pr) && {
                    let matched = spec_matching_images(store.records@, cs, ts, query.rating);
                    let page = spec_effective_page(query.pages);
                    let per = spec_effective_per_page(query.pages);
                    let lo = spec_min(matched.len() as int, page * per);
                    let hi = spec_min(matched.len() as int, page * per + per);
                    &&& spec_paginated_ok(
                        pr.pages,
                        spec_search_prefix(*query),
                        page,
                        per,
                        matched.len() as u32,
                    )
                    &&& pr.items@.len() == hi - lo
                    &&& forall|k: int|
                        0 <= k < hi - lo ==> (#[trigger] pr.items@[k]).spec_id() == matched[lo
                            + k] && pr.items@[k].spec_url() == spec_image_url(
                            url_prefix@,
                            matched[lo + k],
                            query.token,
                        )
                })
            },
{
    let paging = effective_paging(&query.pages);
    let page = paging.0;
    let per_page = paging.1;
    let characters: Option<Vec<String>> = match &query.characters {
        Some(s) => if s.as_str().unicode_len() == 0 {
            None
        } else {
            Some(split_csv(s.as_str(), ','))
        },
        None => None,
    };
    let tags: Option<Vec<String>> = match &query.tags {
        Some(s) => if s.as_str().unicode_len() == 0 {
            None
        } else {
            Some(split_csv(s.as_str(), ','))
        },
        None => None,
    };
    let characters_ref: Option<&Vec<String>> = match &characters {
        Some(v) => Some(v),
        None => None,
    };
    let tags_ref: Option<&Vec<String>> = match &tags {
        Some(v) => Some(v),
        None => None,
    };
    let ghost cs: Option<Seq<String>> = crate::store::spec_opt_names(characters_ref);
    let ghost ts: Option<Seq<String>> = crate::store::spec_opt_names(tags_ref);
    let result = store.get_filtered_images_paginated(
        characters_ref,
        tags_ref,
        query.rating,
        per_page,
        page,
    );
    proof {
        crate::store::lemma_matching_ids_bounded(store.records@, cs, ts, query.rating);
    }
    let ghost matched = spec_matching_images(store.records@, cs, ts, query.rating);
    let ghost lo = spec_min(matched.len() as int, page * per_page);
    let mut items: Vec<Imagedata> = Vec::new();
    let mut k: usize = 0;
    while k < result.items.len()
        invariant
            k <= result.items@.len(),
            result.items@.len() == spec_min(matched.len() as int, page * per_page + per_page)
                - lo,
            lo == spec_min(matched.len() as int, page * per_page),
            forall|t: int|
                0 <= t < result.items@.len() ==> (#[trigger] result.items@[t]).id == matched[lo
                    + t],
            forall|t: int|
                0 <= t < matched.len() ==> 1 <= #[trigger] matched[t] <= store.records@.len(),
            items@.len() == k,
            forall|t: int|
                0 <= t < k ==> (#[trigger] items@[t]).spec_id() == matched[lo + t]
                    && items@[t].spec_url() == spec_image_url(
                    url_prefix@,
                    matched[lo + t],
                    query.token,
                ),
        decreases result.items@.len() - k,
    {
        let id_raw: i32 = result.items[k].id;
        let url = image_url(url_prefix, id_raw as u32, &query.token);
        items.push(Imagedata::new(id_raw, url));
        k = k + 1;
    }
    let prefix = search_prefix(query);
    let pr = PaginatedResponse::new(items, prefix.as_str(), page, per_page, result.total_items);
    let r = ApiResponse::new_success(pr);
    proof {
        match &characters {
            Some(v) => {
                assert(v.deep_view() =~= spec_views(v@));
                assert(spec_name_filter(cs, query.characters));
            },
            None => {
                assert(spec_name_filter(cs, query.characters));
            },
        }
        match &tags {
            Some(v) => {
                assert(v.deep_view() =~= spec_views(v@));
                assert(spec_name_filter(ts, query.tags));
            },
            None => {
                assert(spec_name_filter(ts, query.tags));
            },
        }
    }
    r
}

/// The link prefix of the tag search.
pub open spec fn spec_tag_prefix(query: FindTagQuery) -> Seq<char> {
    "/tag?"@ + spec_opt_param("&tag="@, query.tag)
}

/// The link prefix of the character search, which spells its filter
/// parameter `&tag=` just as the tag search does.
pub open spec fn spec_character_prefix(query: FindCharacterQuery) -> Seq<char> {
    "/character?"@ + spec_opt_param("&tag="@, query.character)
}

/// The filter pattern of a name search, as text.
pub open spec fn spec_filter_pattern(filter: Option<String>) -> Seq<char> {
    match filter {
        Some(s) => s@,
        None => Seq::empty(),
    }
}

/// What both name searches promise: exact totals over the registry, a
/// page sorted by usage, and the page is a cut of some usage-sorted
/// arrangement of exactly the matching used names; `name_of` and
/// `count_of` relate the served rows to those pairs.
pub open spec fn spec_name_search_ok(
    rows: Seq<(Seq<char>, u32)>,
    pages: crate::response::Paginated,
    prefix: Seq<char>,
    names: Seq<String>,
    records: Seq<crate::store::ImageRecord>,
    pattern: Seq<char>,
    general: bool,
    page: u32,
    per_page: u32,
) -> bool {
    &&& spec_paginated_ok(
        pages,
        prefix,
        page,
        per_page,
        spec_count_matching(names, pattern) as u32,
    )
    &&& (forall|i: int, j: int| 0 <= i < j < rows.len() ==> rows[i].1 >= rows[j].1)
    &&& exists|sorted: Seq<(String, u32)>|
        {
            &&& #[trigger] sorted.to_multiset() == spec_used_names(
                names,
                records,
                pattern,
                general,
            ).to_multiset()
            &&& (forall|i: int, j: int| 0 <= i < j < sorted.len() ==> sorted[i].1 >= sorted[j].1)
            &&& rows.len() == spec_min(sorted.len() as int, page * per_page + per_page)
                - spec_min(sorted.len() as int, page * per_page)
            &&& forall|k: int|
                0 <= k < rows.len() ==> (#[trigger] rows[k]).0 == sorted[spec_min(
                    sorted.len() as int,
                    page * per_page,
                ) + k].0@ && rows[k].1 == sorted[spec_min(sorted.len() as int, page * per_page)
                    + k].1
        }
}

/// The tag search: registry tags matching the filter that at least one
/// image uses, with usage counts, most used first, as one page.
#[verifier::loop_isolation(false)]
pub fn search_tags(store: &MemoryStore, query: &FindTagQuery) -> (r: ApiResponse<
    PaginatedResponse<TagData>,
    &'static str,
>)
    requires
        store.wf(),
        store.records@.len() < 0x1_0000_0000,
        store.tag_names@.len() < 0x1_0000_0000,
        query.pages.per_page matches Some(p) ==> p >= 1,
    ensures
        r.status == 200,
        r.data matches ApiData::Json(d) && (d matches Ok(pr) && spec_name_search_ok(
            pr.items@.map_values(|row: TagData| (row.name@, row.count)),
            pr.pages,
            spec_tag_prefix(*query),
            store.tag_names@,
            store.records@,
            spec_filter_pattern(query.tag),
            true,
            spec_effective_page(query.pages),
            spec_effective_per_page(query.pages),
        )),
{
    let paging = effective_paging(&query.pages);
    let page = paging.0;
    let per_page = paging.1;
    let filter: Option<&str> = match &query.tag {
        Some(s) => Some(s.as_str()),
        None => None,
    };
    let result = store.get_filtered_tags_paginated(filter, per_page, page);
    let mut items: Vec<TagData> = Vec::new();
    let mut k: usize = 0;
    while k < result.items.len()
        invariant
            k <= result.items@.len(),
            items@.len() == k,
            forall|t: int|
                0 <= t < k ==> (#[trigger] items@[t]).name@ == result.items@[t].0@
                    && items@[t].count == result.items@[t].1,
        decreases result.items@.len() - k,
    {
        let name: String = result.items[k].0.clone();
        let count: u32 = result.items[k].1;
        items.push(TagData { name, count });
        k = k + 1;
    }
    let prefix_part = opt_param("&tag=", &query.tag);
    let prefix = concat2("/tag?", prefix_part.as_str());
    let pr = PaginatedResponse::new(items, prefix.as_str(), page, per_page, result.total_items);
    let r = ApiResponse::new_success(pr);
    proof {
        assert(spec_like_pattern(filter) == spec_filter_pattern(query.tag));
        let rows = r.data->Json_0->Ok_0.items@.map_values(|row: TagData| (row.name@, row.count));
        let inner = result.items@;
        assert(rows =~= inner.map_values(|p: (String, u32)| (p.0@, p.1)));
        let sorted = choose|sorted: Seq<(String, u32)>|
            {
                &&& #[trigger] sorted.to_multiset() == spec_used_names(
                    store.tag_names@,
                    store.records@,
                    spec_like_pattern(filter),
                    true,
                ).to_multiset()
                &&& (forall|i: int, j: int|
                    0 <= i < j < sorted.len() ==> sorted[i].1 >= sorted[j].1)
                &&& inner == sorted.subrange(
                    crate::store::spec_min(sorted.len() as int, page * per_page),
                    crate::store::spec_min(sorted.len() as int, page * per_page + per_page),
                )
            };
        assert(sorted.to_multiset() == spec_used_names(
            store.tag_names@,
            store.records@,
            spec_filter_pattern(query.tag),
            true,
        ).to_multiset());
    }
    r
}

/// The character search, shaped like the tag search over the character
/// registry.
#[verifier::loop_isolation(false)]
pub fn search_characters(store: &MemoryStore, query: &FindCharacterQuery) -> (r: ApiResponse<
    PaginatedResponse<CharacterData>,
    &'static str,
>)
    requires
        store.wf(),
        store.records@.len() < 0x1_0000_0000,
        store.character_names@.len() < 0x1_0000_0000,
        query.pages.per_page matches Some(p) ==> p >= 1,
    ensures
        r.status == 200,
        r.data matches ApiData::Json(d) && (d matches Ok(pr) && spec_name_search_ok(
            pr.items@.map_values(|row: CharacterData| (row.name@, row.count)),
            pr.pages,
            spec_character_prefix(*query),
            store.character_names@,
            store.records@,
            spec_filter_pattern(query.character),
            false,
            spec_effective_page(query.pages),
            spec_effective_per_page(query.pages),
        )),
{
    let paging = effective_paging(&query.pages);
    let page = paging.0;
    let per_page = paging.1;
    let filter: Option<&str> = match &query.character {
        Some(s) => Some(s.as_str()),
        None => None,
    };
    let result = store.get_filtered_characters_paginated(filter, per_page, page);
    let mut items: Vec<CharacterData> = Vec::new();
    let mut k: usize = 0;
    while k < result.items.len()
        invariant
            k <= result.items@.len(),
            items@.len() == k,
            forall|t: int|
                0 <= t < k ==> (#[trigger] items@[t]).name@ == result.items@[t].0@
                    && items@[t].count == result.items@[t].1,
        decreases result.items@.len() - k,
    {
        let name: String = result.items[k].0.clone();
        let count: u32 = result.items[k].1;
        items.push(CharacterData { name, count });
        k = k + 1;
    }
    let prefix_part = opt_param("&tag=", &query.character);
    let prefix = concat2("/character?", prefix_part.as_str());
    let pr = PaginatedResponse::new(items, prefix.as_str(), page, per_page, result.total_items);
    let r = ApiResponse::new_success(pr);
    proof {
        assert(spec_like_pattern(filter) == spec_filter_pattern(query.character));
        let rows = r.data->Json_0->Ok_0.items@.map_values(
            |row: CharacterData| (row.name@, row.count),
        );
        let inner = result.items@;
        assert(rows =~= inner.map_values(|p: (String, u32)| (p.0@, p.1)));
        let sorted = choose|sorted: Seq<(String, u32)>|
            {
                &&& #[trigger] sorted.to_multiset() == spec_used_names(
                    store.character_names@,
                    store.records@,
                    spec_like_pattern(filter),
                    false,
                ).to_multiset()
                &&& (forall|i: int, j: int|
                    0 <= i < j < sorted.len() ==> sorted[i].1 >= sorted[j].1)
                &&& inner == sorted.subrange(
                    crate::store::spec_min(sorted.len() as int, page * per_page),
                    crate::store::spec_min(sorted.len() as int, page * per_page + per_page),
                )
            };
        assert(sorted.to_multiset() == spec_used_names(
            store.character_names@,
            store.records@,
            spec_filter_pattern(query.character),
            false,
        ).to_multiset());
    }
    r
}

} // verus!
