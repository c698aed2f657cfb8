use vstd::prelude::*;

use crate::rating::AuthLevel;
use crate::rating::Rating;
use crate::tags::Tags;

verus! {

/// One persisted image: identity, dedup key, rating, resolved tag names and
/// the thumbnail-present flag.
#[derive(Clone, Debug)]
pub struct ImageRecord {
    pub id: u32,
    pub fingerprint: u64,
    pub rating: Rating,
    pub character_tags: Vec<String>,
    pub general_tags: Vec<String>,
    pub thumbnail: bool,
}

/// Row shape of the image search: just the assigned identity.
#[derive(Clone, Copy, Debug, PartialEq, Eq, Structural)]
pub struct Image {
    pub id: i32,
}

/// Everything the store knows about one image, as the query side reads it.
#[derive(Clone, Debug)]
pub struct ImageDbInfo {
    pub id: u32,
    pub tags: Vec<String>,
    pub characters: Vec<String>,
    pub rating: Rating,
}

/// Error surface of the gateway's query side.
#[derive(Clone, Copy, Debug, PartialEq, Eq, Structural)]
pub enum SqlDatabaseError {
    /// No row answers the query.
    NotFound,
    /// The row exists but the caller's level may not see it.
    NotAllowed,
}

/// One auth token and the level it grants.
#[derive(Clone, Debug)]
pub struct AuthEntry {
    pub token: String,
    pub level: AuthLevel,
}

/// In-memory model of the persistence gateway.  It owns image identity
/// (ids are assigned densely at insert time), enforces at most one record
/// per fingerprint, and keeps one deduplicated registry each for character
/// names and general tag names.
pub struct MemoryStore {
    pub records: Vec<ImageRecord>,
    pub character_names: Vec<String>,
    pub tag_names: Vec<String>,
    pub auth: Vec<AuthEntry>,
}

/// Uniqueness of a name registry, by text.
pub open spec fn spec_names_unique(names: Seq<String>) -> bool {
    forall|i: int, j: int|
        0 <= i < j < names.len() ==> names[i]@ != names[j]@
}

impl MemoryStore {
    /// Well-formedness: ids are the record's position plus one (hence
    /// unique), fingerprints are unique, the name registries hold no
    /// duplicate text, and tokens are unique.
    pub open spec fn wf(self) -> bool {
        &&& forall|i: int|
            0 <= i < self.records@.len() ==> (#[trigger] self.records@[i]).id == i + 1
        &&& forall|i: int, j: int|
            0 <= i < j < self.records@.len()
                ==> self.records@[i].fingerprint != self.records@[j].fingerprint
        &&& spec_names_unique(self.character_names@)
        &&& spec_names_unique(self.tag_names@)
        &&& forall|i: int, j: int|
            0 <= i < j < self.auth@.len() ==> self.auth@[i].token@ != self.auth@[j].token@
    }

    /// Whether some record already carries this fingerprint.
    pub open spec fn spec_has_fingerprint(self, fingerprint: u64) -> bool {
        exists|i: int|
            0 <= i < self.records@.len()
                && (#[trigger] self.records@[i]).fingerprint == fingerprint
    }

    /// The record at a given id, which well-formedness places at `id - 1`.
    pub open spec fn spec_record_at(self, id: u32) -> ImageRecord
        recommends
            1 <= id <= self.records@.len(),
    {
        self.records@[id - 1]
    }

    /// Whether a record with this id exists.
    pub open spec fn spec_has_id(self, id: u32) -> bool {
        1 <= id <= self.records@.len()
    }

    pub fn new() -> (store: MemoryStore)
        ensures
            store.wf(),
            store.records@ =~= Seq::<ImageRecord>::empty(),
            store.character_names@ =~= Seq::<String>::empty(),
            store.tag_names@ =~= Seq::<String>::empty(),
            store.auth@ =~= Seq::<AuthEntry>::empty(),
    {
        MemoryStore {
            records: Vec::new(),
            character_names: Vec::new(),
            tag_names: Vec::new(),
            auth: Vec::new(),
        }
    }

    /// The dedup check: whether a record with this fingerprint exists.
    #[verifier::loop_isolation(false)]
    pub fn check_hash(&self, fingerprint: u64) -> (known: bool)
        ensures
            known == self.spec_has_fingerprint(fingerprint),
    {
        let mut i: usize = 0;
        while i < self.records.len()
            invariant
                i <= self.records@.len(),
                forall|j: int|
                    0 <= j < i ==> (#[trigger] self.records@[j]).fingerprint != fingerprint,
            decreases self.records@.len() - i,
        {
            if self.records[i].fingerprint == fingerprint {
                return true;
            }
            i = i + 1;
        }
        false
    }

    /// Inserts a new image record, or — since the store enforces at most
    /// one record per fingerprint — returns the existing id unchanged when
    /// the fingerprint is already known.  A new record gets the next dense
    /// id, the given rating and tag names, and no thumbnail yet; the names
    /// are also resolved into the registries, idempotently.
    #[verifier::loop_isolation(false)]
    pub fn save_image(&mut self, fingerprint: u64, tags: &Tags) -> (id: u32)
        requires
            old(self).wf(),
            old(self).records@.len() + 1 < 0x1_0000_0000,
        ensures
            final(self).wf(),
            final(self).auth@ == old(self).auth@,
            old(self).spec_has_fingerprint(fingerprint) ==> {
                &&& final(self).records@ == old(self).records@
                &&& final(self).character_names@ == old(self).character_names@
                &&& final(self).tag_names@ == old(self).tag_names@
                &&& old(self).spec_has_id(id) && old(self).spec_record_at(id).fingerprint
                    == fingerprint
            },
            !old(self).spec_has_fingerprint(fingerprint) ==> {
                &&& id == old(self).records@.len() + 1
                &&& final(self).records@.len() == old(self).records@.len() + 1
                &&& forall|i: int|
                    0 <= i < old(self).records@.len()
                        ==> final(self).records@[i] == old(self).records@[i]
                &&& final(self).records@.last().id == id
                &&& final(self).records@.last().fingerprint == fingerprint
                &&& final(self).records@.last().rating == tags.rating
                &&& final(self).records@.last().character_tags.deep_view()
                    == tags.character_names()
                &&& final(self).records@.last().general_tags.deep_view()
                    == tags.general_names()
                &&& final(self).records@.last().thumbnail == false
                &&& registry_extended(
                    old(self).character_names@,
                    final(self).character_names@,
                    tags.character_names(),
                )
                &&& registry_extended(
                    old(self).tag_names@,
                    final(self).tag_names@,
                    tags.general_names(),
                )
            },
    {
        if let Some(existing) = self.find_by_fingerprint(fingerprint) {
            return existing;
        }
        let id: u32 = (self.records.len() + 1) as u32;
        let character_tags: Vec<String> = match &tags.character_tags {
            Some(v) => clone_names(v),
            None => Vec::new(),
        };
        let general_tags: Vec<String> = match &tags.general_tags {
            Some(v) => clone_names(v),
            None => Vec::new(),
        };
        let mut k: usize = 0;
        while k < character_tags.len()
            invariant
                old(self).wf(),
                self.records@ == old(self).records@,
                self.tag_names@ == old(self).tag_names@,
                self.auth@ == old(self).auth@,
                spec_names_unique(self.character_names@),
                k <= character_tags@.len(),
                self.character_names@.len() <= old(self).character_names@.len() + k,
                old(self).character_names@.is_prefix_of(self.character_names@),
                character_tags.deep_view() == tags.character_names(),
                forall|i: int|
                    0 <= i < k ==> spec_registered(
                        self.character_names@,
                        character_tags.deep_view()[i],
                    ),
                forall|i: int|
                    old(self).character_names@.len() <= i < self.character_names@.len()
                        ==> tags.character_names().contains(
                        (#[trigger] self.character_names@[i])@,
                    ),
            decreases character_tags@.len() - k,
        {
            let ghost prev = self.character_names@;
            register_name(&mut self.character_names, &character_tags[k]);
            proof {
                assert forall|i: int|
                    old(self).character_names@.len() <= i < self.character_names@.len()
                    implies tags.character_names().contains(
                        (#[trigger] self.character_names@[i])@,
                    ) by {
                    if i < prev.len() {
                        assert(self.character_names@.subrange(0, prev.len() as int)[i]
                            == self.character_names@[i]);
                        assert(self.character_names@[i] == prev[i]);
                    } else {
                        assert(self.character_names@[i]@ == character_tags.deep_view()[k as int]);
                        assert(tags.character_names()[k as int]
                            == character_tags.deep_view()[k as int]);
                    }
                }
            }
            k = k + 1;
        }
        let mut k: usize = 0;
        while k < general_tags.len()
            invariant
                old(self).wf(),
                self.records@ == old(self).records@,
                spec_names_unique(self.character_names@),
                self.auth@ == old(self).auth@,
                spec_names_unique(self.tag_names@),
                k <= general_tags@.len(),
                self.tag_names@.len() <= old(self).tag_names@.len() + k,
                old(self).tag_names@.is_prefix_of(self.tag_names@),
                general_tags.deep_view() == tags.general_names(),
                character_names_settled(*old(self), *self, *tags),
                forall|i: int|
                    0 <= i < k ==> spec_registered(self.tag_names@, general_tags.deep_view()[i]),
                forall|i: int|
                    old(self).tag_names@.len() <= i < self.tag_names@.len()
                        ==> tags.general_names().contains((#[trigger] self.tag_names@[i])@),
            decreases general_tags@.len() - k,
        {
            let ghost prev = self.tag_names@;
            register_name(&mut self.tag_names, &general_tags[k]);
            proof {
                assert forall|i: int|
                    old(self).tag_names@.len() <= i < self.tag_names@.len()
                    implies tags.general_names().contains(
                        (#[trigger] self.tag_names@[i])@,
                    ) by {
                    if i < prev.len() {
                        assert(self.tag_names@.subrange(0, prev.len() as int)[i]
                            == self.tag_names@[i]);
                        assert(self.tag_names@[i] == prev[i]);
                    } else {
                        assert(self.tag_names@[i]@ == general_tags.deep_view()[k as int]);
                        assert(tags.general_names()[k as int]
                            == general_tags.deep_view()[k as int]);
                    }
                }
            }
            k = k + 1;
        }
        let record = ImageRecord {
            id,
            fingerprint,
            rating: tags.rating,
            character_tags,
            general_tags,
            thumbnail: false,
        };
        self.records.push(record);
        id
    }

    /// Index-based fingerprint lookup, returning the owning record's id.
    #[verifier::loop_isolation(false)]
    fn find_by_fingerprint(&self, fingerprint: u64) -> (found: Option<u32>)
        requires
            self.wf(),
        ensures
            found is Some <==> self.spec_has_fingerprint(fingerprint),
            found matches Some(id) ==> self.spec_has_id(id)
                && self.spec_record_at(id).fingerprint == fingerprint,
    {
        let mut i: usize = 0;
        while i < self.records.len()
            invariant
                self.wf(),
                i <= self.records@.len(),
                forall|j: int|
                    0 <= j < i ==> (#[trigger] self.records@[j]).fingerprint != fingerprint,
            decreases self.records@.len() - i,
        {
            if self.records[i].fingerprint == fingerprint {
                return Some(self.records[i].id);
            }
            i = i + 1;
        }
        None
    }

    /// Ids of every record still lacking a thumbnail, in record order.
    #[verifier::loop_isolation(false)]
    pub fn get_non_thumbnailed_images(&self) -> (ids: Vec<u32>)
        ensures
            ids@ == spec_unthumbnailed(self.records@),
    {
        let mut ids: Vec<u32> = Vec::new();
        let mut i: usize = 0;
        while i < self.records.len()
            invariant
                i <= self.records@.len(),
                ids@ == spec_unthumbnailed(self.records@.take(i as int)),
            decreases self.records@.len() - i,
        {
            proof {
                assert(self.records@.take(i as int + 1).drop_last()
                    =~= self.records@.take(i as int));
                assert(self.records@.take(i as int + 1).last() == self.records@[i as int]);
            }
            if !self.records[i].thumbnail {
                ids.push(self.records[i].id);
            }
            i = i + 1;
        }
        proof {
            assert(self.records@.take(self.records@.len() as int) =~= self.records@);
        }
        ids
    }

    /// Sets the thumbnail-present flag of the record with this id; every
    /// other record, and everything else in the store, is unchanged.  An
    /// unknown id changes nothing, as an update matching no row would.
    pub fn write_thumbnail(&mut self, id: u32)
        requires
            old(self).wf(),
        ensures
            final(self).wf(),
            final(self).character_names@ == old(self).character_names@,
            final(self).tag_names@ == old(self).tag_names@,
            final(self).auth@ == old(self).auth@,
            final(self).records@.len() == old(self).records@.len(),
            forall|i: int|
                0 <= i < old(self).records@.len() && old(self).records@[i].id != id
                    ==> final(self).records@[i] == old(self).records@[i],
            old(self).spec_has_id(id) ==> final(self).records@[id - 1]
                == (ImageRecord { thumbnail: true, ..old(self).records@[id - 1] }),
    {
        if id >= 1 && (id as usize) <= self.records.len() {
            let index = (id as usize) - 1;
            self.records[index].thumbnail = true;
        }
    }
}

/// After the character pass of an insert: the character registry has been
/// extended by exactly the character names, and stays well formed.
pub(crate) open spec fn character_names_settled(
    before: MemoryStore,
    cur: MemoryStore,
    tags: Tags,
) -> bool {
    &&& spec_names_unique(cur.character_names@)
    &&& registry_extended(before.character_names@, cur.character_names@, tags.character_names())
}

impl MemoryStore {
    /// The level a stored token grants; `NotFound` for a token no entry
    /// carries.  The query side falls back to guest access on that error.
    #[verifier::loop_isolation(false)]
    pub fn get_auth_level(&self, token: &str) -> (r: Result<AuthLevel, SqlDatabaseError>)
        ensures
            r is Ok <==> exists|i: int|
                0 <= i < self.auth@.len() && (#[trigger] self.auth@[i]).token@ == token@,
            r matches Ok(level) ==> exists|i: int|
                0 <= i < self.auth@.len() && (#[trigger] self.auth@[i]).token@ == token@
                    && self.auth@[i].level == level,
            r matches Err(e) ==> e == SqlDatabaseError::NotFound,
    {
        let mut i: usize = 0;
        while i < self.auth.len()
            invariant
                i <= self.auth@.len(),
                forall|j: int| 0 <= j < i ==> (#[trigger] self.auth@[j]).token@ != token@,
            decreases self.auth@.len() - i,
        {
            if crate::text::str_eq(self.auth[i].token.as_str(), token) {
                return Ok(self.auth[i].level);
            }
            i = i + 1;
        }
        Err(SqlDatabaseError::NotFound)
    }

    /// Registers a token with its level; tokens are unique, so an already
    /// known token keeps its old entry.
    #[verifier::loop_isolation(false)]
    pub fn register_token(&mut self, token: String, level: AuthLevel)
        requires
            old(self).wf(),
        ensures
            final(self).wf(),
            final(self).records@ == old(self).records@,
            final(self).character_names@ == old(self).character_names@,
            final(self).tag_names@ == old(self).tag_names@,
            exists|i: int|
                0 <= i < final(self).auth@.len()
                    && (#[trigger] final(self).auth@[i]).token@ == token@,
    {
        let mut i: usize = 0;
        while i < self.auth.len()
            invariant
                self == old(self),
                i <= self.auth@.len(),
                forall|j: int| 0 <= j < i ==> (#[trigger] self.auth@[j]).token@ != token@,
            decreases self.auth@.len() - i,
        {
            if crate::text::str_eq(self.auth[i].token.as_str(), token.as_str()) {
                return ;
            }
            i = i + 1;
        }
        self.auth.push(AuthEntry { token, level });
        proof {
            assert(final(self).auth@.last().token@ == token@);
        }
    }

    /// Resolve-or-create of a character name: the id of the existing entry
    /// where the name is already registered — so resolving one name twice
    /// gives the same id — and of a freshly appended entry otherwise.
    pub fn get_character_tag_id(&mut self, character_name: &str) -> (id: u32)
        requires
            old(self).wf(),
            old(self).character_names@.len() + 1 < 0x1_0000_0000,
        ensures
            final(self).wf(),
            final(self).records@ == old(self).records@,
            final(self).tag_names@ == old(self).tag_names@,
            final(self).auth@ == old(self).auth@,
            spec_registered(old(self).character_names@, character_name@) ==> {
                &&& final(self).character_names@ == old(self).character_names@
                &&& 1 <= id <= old(self).character_names@.len()
                &&& old(self).character_names@[id - 1]@ == character_name@
            },
            !spec_registered(old(self).character_names@, character_name@) ==> {
                &&& final(self).character_names@.len() == old(self).character_names@.len() + 1
                &&& old(self).character_names@.is_prefix_of(final(self).character_names@)
                &&& final(self).character_names@.last()@ == character_name@
                &&& id == old(self).character_names@.len() + 1
            },
    {
        resolve_name(&mut self.character_names, character_name)
    }

    /// Resolve-or-create of a general tag name, like `get_character_tag_id`.
    pub fn get_general_tag_id(&mut self, tag: &str) -> (id: u32)
        requires
            old(self).wf(),
            old(self).tag_names@.len() + 1 < 0x1_0000_0000,
        ensures
            final(self).wf(),
            final(self).records@ == old(self).records@,
            final(self).character_names@ == old(self).character_names@,
            final(self).auth@ == old(self).auth@,
            spec_registered(old(self).tag_names@, tag@) ==> {
                &&& final(self).tag_names@ == old(self).tag_names@
                &&& 1 <= id <= old(self).tag_names@.len()
                &&& old(self).tag_names@[id - 1]@ == tag@
            },
            !spec_registered(old(self).tag_names@, tag@) ==> {
                &&& final(self).tag_names@.len() == old(self).tag_names@.len() + 1
                &&& old(self).tag_names@.is_prefix_of(final(self).tag_names@)
                &&& final(self).tag_names@.last()@ == tag@
                &&& id == old(self).tag_names@.len() + 1
            },
    {
        resolve_name(&mut self.tag_names, tag)
    }

    /// Where the image with this id is served from: its storage location
    /// when it exists and the caller's level may see its rating; otherwise
    /// the precise error the query side reports.
    pub fn get_image_location(&self, id: u32, auth_level: AuthLevel, storage_root: &str) -> (r:
        Result<String, SqlDatabaseError>)
        requires
            self.wf(),
        ensures
            r is Ok <==> self.spec_has_id(id) && auth_level.spec_is_allowed(
                self.spec_record_at(id).rating,
            ),
            r matches Ok(path) ==> path@ == crate::image_path::spec_joined(
                storage_root@,
                crate::image_path::spec_storage_name(id),
            ),
            r matches Err(e) ==> {
                &&& e is NotFound <==> !self.spec_has_id(id)
                &&& e is NotAllowed <==> self.spec_has_id(id) && !auth_level.spec_is_allowed(
                    self.spec_record_at(id).rating,
                )
            },
    {
        if id >= 1 && (id as usize) <= self.records.len() {
            let record = &self.records[(id as usize) - 1];
            if auth_level.is_allowed(record.rating) {
                Ok(crate::image_path::to_storage(storage_root, id))
            } else {
                Err(SqlDatabaseError::NotAllowed)
            }
        } else {
            Err(SqlDatabaseError::NotFound)
        }
    }

    /// Where the thumbnail for this id is served from; an image whose
    /// thumbnail has not been generated yet reports `NotFound`, like a
    /// missing image.
    pub fn get_thumbnail_location(&self, id: u32, auth_level: AuthLevel, thumbnail_root: &str)
        -> (r: Result<String, SqlDatabaseError>)
        requires
            self.wf(),
        ensures
            r is Ok <==> self.spec_has_id(id) && self.spec_record_at(id).thumbnail
                && auth_level.spec_is_allowed(self.spec_record_at(id).rating),
            r matches Ok(path) ==> path@ == crate::image_path::spec_joined(
                thumbnail_root@,
                crate::image_path::spec_thumbnail_name(id),
            ),
            r matches Err(e) ==> {
                &&& e is NotFound <==> !(self.spec_has_id(id)
                    && self.spec_record_at(id).thumbnail)
                &&& e is NotAllowed <==> self.spec_has_id(id)
                    && self.spec_record_at(id).thumbnail && !auth_level.spec_is_allowed(
                    self.spec_record_at(id).rating,
                )
            },
    {
        if id >= 1 && (id as usize) <= self.records.len() {
            let record = &self.records[(id as usize) - 1];
            if record.thumbnail {
                if auth_level.is_allowed(record.rating) {
                    Ok(crate::image_path::to_storage_thumbnail(thumbnail_root, id))
                } else {
                    Err(SqlDatabaseError::NotAllowed)
                }
            } else {
                Err(SqlDatabaseError::NotFound)
            }
        } else {
            Err(SqlDatabaseError::NotFound)
        }
    }

    /// Everything recorded about one image: its tag and character names and
    /// its rating; `None` where no record carries the id.
    pub fn get_image_information(&self, id: u32) -> (r: Option<ImageDbInfo>)
        requires
            self.wf(),
        ensures
            r is Some <==> self.spec_has_id(id),
            r matches Some(info) ==> {
                &&& info.id == id
                &&& info.rating == self.spec_record_at(id).rating
                &&& info.tags.deep_view() == self.spec_record_at(id).general_tags.deep_view()
                &&& info.characters.deep_view() == self.spec_record_at(
                    id,
                ).character_tags.deep_view()
            },
    {
        if id >= 1 && (id as usize) <= self.records.len() {
            let record = &self.records[(id as usize) - 1];
            Some(
                ImageDbInfo {
                    id,
                    tags: clone_names(&record.general_tags),
                    characters: clone_names(&record.character_tags),
                    rating: record.rating,
                },
            )
        } else {
            None
        }
    }
}

/// Pagination carrier of the query side.
pub struct PaginatedResult<T> {
    pub items: Vec<T>,
    pub total_items: u32,
    pub total_pages: u32,
}

/// Ceiling division, as pagination turns item counts into page counts.
pub open spec fn spec_div_ceil(total: int, per: int) -> int
    recommends
        per >= 1,
{
    total / per + if total % per == 0 {
        0int
    } else {
        1int
    }
}

/// The filter pattern of a search: the given text, or the empty pattern —
/// which everything matches — when none was given.
pub open spec fn spec_like_pattern(filter: Option<&str>) -> Seq<char> {
    match filter {
        Some(s) => s@,
        None => Seq::empty(),
    }
}

/// Whether a record carries this name, among its character names or among
/// its general tag names.
pub open spec fn spec_record_uses(record: ImageRecord, name: Seq<char>, general: bool) -> bool {
    if general {
        spec_registered(record.general_tags@, name)
    } else {
        spec_registered(record.character_tags@, name)
    }
}

/// How many records use this name.
pub open spec fn spec_usage(records: Seq<ImageRecord>, name: Seq<char>, general: bool) -> int
    decreases records.len(),
{
    if records.len() == 0 {
        0
    } else {
        spec_usage(records.drop_last(), name, general) + (if spec_record_uses(
            records.last(),
            name,
            general,
        ) {
            1int
        } else {
            0int
        })
    }
}

/// The registry names matching a pattern that at least one record uses,
/// each with its usage count, in registry order.
pub open spec fn spec_used_names(
    names: Seq<String>,
    records: Seq<ImageRecord>,
    pattern: Seq<char>,
    general: bool,
) -> Seq<(String, u32)>
    decreases names.len(),
{
    if names.len() == 0 {
        Seq::empty()
    } else {
        let front = spec_used_names(names.drop_last(), records, pattern, general);
        if crate::text::spec_has_substring(names.last()@, pattern) && spec_usage(
            records,
            names.last()@,
            general,
        ) >= 1 {
            front.push((names.last(), spec_usage(records, names.last()@, general) as u32))
        } else {
            front
        }
    }
}

/// How many registry names match a pattern, used or not.
pub open spec fn spec_count_matching(names: Seq<String>, pattern: Seq<char>) -> int
    decreases names.len(),
{
    if names.len() == 0 {
        0
    } else {
        spec_count_matching(names.drop_last(), pattern) + (if crate::text::spec_has_substring(
            names.last()@,
            pattern,
        ) {
            1int
        } else {
            0int
        })
    }
}

/// Whether a record answers an image search: it carries every requested
/// character name, every requested tag name, and the requested rating.
pub open spec fn spec_image_matches(
    record: ImageRecord,
    characters: Option<Seq<String>>,
    tags: Option<Seq<String>>,
    rating: Option<crate::rating::Rating>,
) -> bool {
    &&& match characters {
        Some(cs) => spec_all_registered(record.character_tags@, cs),
        None => true,
    }
    &&& match tags {
        Some(ts) => spec_all_registered(record.general_tags@, ts),
        None => true,
    }
    &&& match rating {
        Some(wanted) => record.rating == wanted,
        None => true,
    }
}

/// The ids of the records answering an image search, in record order.
pub open spec fn spec_matching_images(
    records: Seq<ImageRecord>,
    characters: Option<Seq<String>>,
    tags: Option<Seq<String>>,
    rating: Option<crate::rating::Rating>,
) -> Seq<u32>
    decreases records.len(),
{
    if records.len() == 0 {
        Seq::empty()
    } else {
        let front = spec_matching_images(records.drop_last(), characters, tags, rating);
        if spec_image_matches(records.last(), characters, tags, rating) {
            front.push(records.last().id)
        } else {
            front
        }
    }
}

/// The smaller of two mathematical integers.
pub open spec fn spec_min(a: int, b: int) -> int {
    if a < b {
        a
    } else {
        b
    }
}

/// Ceiling division on machine words.
fn div_ceil_u32(total: u32, per: u32) -> (r: u32)
    requires
        per >= 1,
    ensures
        r as int == spec_div_ceil(total as int, per as int),
{
    let q = total / per;
    let rem = total % per;
    if rem != 0 {
        proof {
            assert(per >= 2) by {
                if per == 1 {
                    assert(total as int % 1int == 0);
                }
            }
            assert(total as int / per as int <= total as int / 2) by (nonlinear_arith)
                requires
                    per as int >= 2,
                    total as int >= 0,
            ;
        }
        q + 1
    } else {
        q
    }
}

/// The index window of one page over a list of the given length.
fn page_bounds(len: usize, per_page: u32, page: u32) -> (b: (u64, u64))
    requires
        len < 0x1_0000_0000,
    ensures
        b.0 as int == spec_min(len as int, page * per_page),
        b.1 as int == spec_min(len as int, page * per_page + per_page),
        b.0 <= b.1 <= len as u64,
{
    proof {
        assert((page as int) * (per_page as int) <= 0xffff_ffff * 0xffff_ffff)
            by (nonlinear_arith)
            requires
                page as int <= 0xffff_ffff,
                per_page as int <= 0xffff_ffff,
                page as int >= 0,
                per_page as int >= 0,
        ;
    }
    let raw: u64 = (page as u64) * (per_page as u64);
    let raw_hi: u64 = raw + (per_page as u64);
    let lo: u64 = if raw < (len as u64) {
        raw
    } else {
        len as u64
    };
    let hi: u64 = if raw_hi < (len as u64) {
        raw_hi
    } else {
        len as u64
    };
    (lo, hi)
}

/// Linear membership scan of a name list.
#[verifier::loop_isolation(false)]
fn name_in_list(names: &Vec<String>, name: &str) -> (present: bool)
    ensures
        present == spec_registered(names@, name@),
{
    let mut i: usize = 0;
    while i < names.len()
        invariant
            i <= names@.len(),
            forall|j: int| 0 <= j < i ==> (#[trigger] names@[j])@ != name@,
        decreases names@.len() - i,
    {
        if crate::text::str_eq(names[i].as_str(), name) {
            return true;
        }
        i = i + 1;
    }
    false
}

/// Whether every one of the wanted names stands in a list.
pub open spec fn spec_all_registered(names: Seq<String>, wanted: Seq<String>) -> bool {
    forall|t: int| 0 <= t < wanted.len() ==> spec_registered(names, (#[trigger] wanted[t])@)
}

/// Whether every name of `wanted` stands in `names`.
#[verifier::loop_isolation(false)]
fn all_in_list(names: &Vec<String>, wanted: &Vec<String>) -> (ok: bool)
    ensures
        ok == spec_all_registered(names@, wanted@),
{
    let mut c: usize = 0;
    while c < wanted.len()
        invariant
            c <= wanted@.len(),
            forall|t: int| 0 <= t < c ==> spec_registered(names@, (#[trigger] wanted@[t])@),
        decreases wanted@.len() - c,
    {
        if !name_in_list(names, wanted[c].as_str()) {
            return false;
        }
        c = c + 1;
    }
    true
}

/// The name filters of a search, as the contracts see them.
pub open spec fn spec_opt_names(filter: Option<&Vec<String>>) -> Option<Seq<String>> {
    match filter {
        Some(v) => Some(v@),
        None => None,
    }
}

/// Whether one record answers an image search.
#[verifier::rlimit(60)]
fn image_matches(
    record: &ImageRecord,
    characters: Option<&Vec<String>>,
    tags: Option<&Vec<String>>,
    rating: Option<crate::rating::Rating>,
) -> (ok: bool)
    ensures
        ok == spec_image_matches(*record, spec_opt_names(characters), spec_opt_names(tags), rating),
{
    let rating_ok = match rating {
        Some(wanted) => record.rating == wanted,
        None => true,
    };
    let characters_ok = match characters {
        Some(cs) => all_in_list(&record.character_tags, cs),
        None => true,
    };
    let tags_ok = match tags {
        Some(ts) => all_in_list(&record.general_tags, ts),
        None => true,
    };
    let result = rating_ok && characters_ok && tags_ok;
    proof {
        match characters {
            Some(cs) => {
                assert(spec_opt_names(characters) == Some(cs@));
            },
            None => {
            },
        }
        match tags {
            Some(ts) => {
                assert(spec_opt_names(tags) == Some(ts@));
            },
            None => {
            },
        }
    }
    result
}

/// Counts the records using a name.
#[verifier::loop_isolation(false)]
fn usage_count(records: &Vec<ImageRecord>, name: &str, general: bool) -> (count: u32)
    requires
        records@.len() < 0x1_0000_0000,
    ensures
        count == spec_usage(records@, name@, general),
{
    let mut count: u32 = 0;
    let mut i: usize = 0;
    while i < records.len()
        invariant
            i <= records@.len(),
            count <= i,
            count == spec_usage(records@.take(i as int), name@, general),
        decreases records@.len() - i,
    {
        proof {
            assert(records@.take(i as int + 1).drop_last() =~= records@.take(i as int));
            assert(records@.take(i as int + 1).last() == records@[i as int]);
        }
        let uses = if general {
            name_in_list(&records[i].general_tags, name)
        } else {
            name_in_list(&records[i].character_tags, name)
        };
        if uses {
            count = count + 1;
        }
        i = i + 1;
    }
    proof {
        assert(records@.take(records@.len() as int) =~= records@);
    }
    count
}

/// Sorts name/count pairs by count, largest first, as the search orders
/// its results; the multiset of pairs is unchanged, so ties keep no
/// particular order, as the storage layer promises none.
#[verifier::loop_isolation(false)]
fn sort_by_count_desc(items: Vec<(String, u32)>) -> (sorted: Vec<(String, u32)>)
    ensures
        sorted@.len() == items@.len(),
        sorted@.to_multiset() == items@.to_multiset(),
        forall|i: int, j: int| 0 <= i < j < sorted@.len() ==> sorted@[i].1 >= sorted@[j].1,
{
    broadcast use vstd::seq_lib::group_to_multiset_ensures;

    let mut remaining = items;
    let mut sorted: Vec<(String, u32)> = Vec::new();
    proof {
        assert(sorted@.to_multiset().add(remaining@.to_multiset())
            =~= remaining@.to_multiset());
    }
    while remaining.len() > 0
        invariant
            sorted@.len() + remaining@.len() == items@.len(),
            sorted@.to_multiset().add(remaining@.to_multiset()) == items@.to_multiset(),
            forall|i: int, j: int| 0 <= i < j < sorted@.len() ==> sorted@[i].1 >= sorted@[j].1,
            forall|i: int, j: int|
                0 <= i < sorted@.len() && 0 <= j < remaining@.len() ==> sorted@[i].1
                    >= remaining@[j].1,
        decreases remaining@.len(),
    {
        let mut best: usize = 0;
        let mut k: usize = 1;
        while k < remaining.len()
            invariant
                best < remaining@.len(),
                k <= remaining@.len(),
                forall|t: int| 0 <= t < k ==> remaining@[t].1 <= remaining@[best as int].1,
            decreases remaining@.len() - k,
        {
            if remaining[k].1 > remaining[best].1 {
                best = k;
            }
            k = k + 1;
        }
        let ghost before = remaining@;
        let item = remaining.remove(best);
        sorted.push(item);
        proof {
            assert(remaining@ == before.remove(best as int));
            assert(before.remove(best as int).to_multiset() =~= before.to_multiset().remove(
                item,
            ));
            assert(sorted@.to_multiset().add(remaining@.to_multiset())
                =~= items@.to_multiset());
            assert forall|j: int| 0 <= j < remaining@.len() implies item.1
                >= remaining@[j].1 by {
                if j < best {
                    assert(remaining@[j] == before[j]);
                } else {
                    assert(remaining@[j] == before[j + 1]);
                }
            }
        }
    }
    sorted
}

impl MemoryStore {
    /// One page of the image search: the ids of every record carrying all
    /// requested character names, all requested tag names and the
    /// requested rating, in record order, cut to the requested page; the
    /// totals count the whole answer.
    #[verifier::loop_isolation(false)]
    pub fn get_filtered_images_paginated(
        &self,
        characters: Option<&Vec<String>>,
        tags: Option<&Vec<String>>,
        rating: Option<crate::rating::Rating>,
        per_page: u32,
        page: u32,
    ) -> (r: PaginatedResult<Image>)
        requires
            self.wf(),
            per_page >= 1,
            self.records@.len() < 0x8000_0000,
        ensures
            ({
                let matched = spec_matching_images(
                    self.records@,
                    match characters {
                        Some(v) => Some(v@),
                        None => None,
                    },
                    match tags {
                        Some(v) => Some(v@),
                        None => None,
                    },
                    rating,
                );
                let lo = spec_min(matched.len() as int, page * per_page);
                let hi = spec_min(matched.len() as int, page * per_page + per_page);
                &&& r.total_items == matched.len()
                &&& r.total_pages == spec_div_ceil(matched.len() as int, per_page as int)
                &&& r.items@.len() == hi - lo
                &&& forall|k: int|
                    0 <= k < hi - lo ==> (#[trigger] r.items@[k]).id == matched[lo + k]
            }),
    {
        let mut matched: Vec<u32> = Vec::new();
        let mut i: usize = 0;
        while i < self.records.len()
            invariant
                i <= self.records@.len(),
                matched@.len() <= i,
                matched@ == spec_matching_images(
                    self.records@.take(i as int),
                    spec_opt_names(characters),
                    spec_opt_names(tags),
                    rating,
                ),
                forall|k: int| 0 <= k < matched@.len() ==> (#[trigger] matched@[k]) <= i,
            decreases self.records@.len() - i,
        {
            proof {
                assert(self.records@.take(i as int + 1).drop_last()
                    =~= self.records@.take(i as int));
                assert(self.records@.take(i as int + 1).last() == self.records@[i as int]);
            }
            let record = &self.records[i];
            if image_matches(record, characters, tags, rating) {
                matched.push(record.id);
            }
            i = i + 1;
        }
        proof {
            assert(self.records@.take(self.records@.len() as int) =~= self.records@);
        }
        let total_items: u32 = matched.len() as u32;
        let total_pages: u32 = div_ceil_u32(total_items, per_page);
        let bounds = page_bounds(matched.len(), per_page, page);
        let mut t: u64 = bounds.0;
        let hi: u64 = bounds.1;
        let mut items: Vec<Image> = Vec::new();
        let ghost lo = t as int;
        while t < hi
            invariant
                lo <= t as int <= hi <= matched@.len(),
                hi as int == spec_min(matched@.len() as int, page * per_page + per_page),
                lo == spec_min(matched@.len() as int, page * per_page),
                items@.len() == t as int - lo,
                forall|k: int|
                    0 <= k < matched@.len() ==> (#[trigger] matched@[k]) < 0x8000_0000,
                forall|k: int|
                    0 <= k < items@.len() ==> (#[trigger] items@[k]).id == matched@[lo + k],
            decreases hi - t,
        {
            items.push(Image { id: matched[t as usize] as i32 });
            t = t + 1;
        }
        PaginatedResult { items, total_items, total_pages }
    }

    /// One page of the tag search: every registry tag name matching the
    /// filter that at least one image uses, with its usage count, most
    /// used first — ties in no particular order — cut to the requested
    /// page.  The total counts every matching registry name, used or not.
    #[verifier::loop_isolation(false)]
    pub fn get_filtered_tags_paginated(&self, tag: Option<&str>, per_page: u32, page: u32) -> (r:
        PaginatedResult<(String, u32)>)
        requires
            self.wf(),
            per_page >= 1,
            self.records@.len() < 0x1_0000_0000,
            self.tag_names@.len() < 0x1_0000_0000,
        ensures
            filtered_names_page_ok(
                r,
                self.tag_names@,
                self.records@,
                spec_like_pattern(tag),
                true,
                per_page,
                page,
            ),
    {
        filtered_names_paginated(&self.tag_names, &self.records, tag, true, per_page, page)
    }

    /// One page of the character search, shaped like the tag search over
    /// the character registry.
    #[verifier::loop_isolation(false)]
    pub fn get_filtered_characters_paginated(
        &self,
        character: Option<&str>,
        per_page: u32,
        page: u32,
    ) -> (r: PaginatedResult<(String, u32)>)
        requires
            self.wf(),
            per_page >= 1,
            self.records@.len() < 0x1_0000_0000,
            self.character_names@.len() < 0x1_0000_0000,
        ensures
            filtered_names_page_ok(
                r,
                self.character_names@,
                self.records@,
                spec_like_pattern(character),
                false,
                per_page,
                page,
            ),
    {
        filtered_names_paginated(
            &self.character_names,
            &self.records,
            character,
            false,
            per_page,
            page,
        )
    }
}

/// What a name-search page promises: exact totals over the registry, a
/// page sorted by usage, and the page is a cut of some usage-sorted
/// arrangement of exactly the matching used names.
pub open spec fn filtered_names_page_ok(
    r: PaginatedResult<(String, u32)>,
    names: Seq<String>,
    records: Seq<ImageRecord>,
    pattern: Seq<char>,
    general: bool,
    per_page: u32,
    page: u32,
) -> bool {
    &&& r.total_items == spec_count_matching(names, pattern)
    &&& r.total_pages == spec_div_ceil(r.total_items as int, per_page as int)
    &&& (forall|i: int, j: int| 0 <= i < j < r.items@.len() ==> r.items@[i].1 >= r.items@[j].1)
    &&& exists|sorted: Seq<(String, u32)>|
        {
            &&& #[trigger] sorted.to_multiset() == spec_used_names(
                names,
                records,
                pattern,
                general,
            ).to_multiset()
            &&& (forall|i: int, j: int| 0 <= i < j < sorted.len() ==> sorted[i].1 >= sorted[j].1)
            &&& r.items@ == sorted.subrange(
                spec_min(sorted.len() as int, page * per_page),
                spec_min(sorted.len() as int, page * per_page + per_page),
            )
        }
}

/// Shared body of the tag and character searches.
#[verifier::loop_isolation(false)]
fn filtered_names_paginated(
    names: &Vec<String>,
    records: &Vec<ImageRecord>,
    filter: Option<&str>,
    general: bool,
    per_page: u32,
    page: u32,
) -> (r: PaginatedResult<(String, u32)>)
    requires
        per_page >= 1,
        records@.len() < 0x1_0000_0000,
        names@.len() < 0x1_0000_0000,
    ensures
        filtered_names_page_ok(
            r,
            names@,
            records@,
            spec_like_pattern(filter),
            general,
            per_page,
            page,
        ),
{
    let pattern: &str = match filter {
        Some(s) => s,
        None => "",
    };
    proof {
        reveal_strlit("");
        assert(pattern@ == spec_like_pattern(filter));
    }
    let mut used: Vec<(String, u32)> = Vec::new();
    let mut total_items: u32 = 0;
    let mut i: usize = 0;
    while i < names.len()
        invariant
            i <= names@.len(),
            total_items <= i,
            used@.len() <= i,
            pattern@ == spec_like_pattern(filter),
            total_items == spec_count_matching(names@.take(i as int), pattern@),
            used@ == spec_used_names(names@.take(i as int), records@, pattern@, general),
        decreases names@.len() - i,
    {
        proof {
            assert(names@.take(i as int + 1).drop_last() =~= names@.take(i as int));
            assert(names@.take(i as int + 1).last() == names@[i as int]);
        }
        if crate::text::contains_substring(names[i].as_str(), pattern) {
            total_items = total_items + 1;
            let count = usage_count(records, names[i].as_str(), general);
            if count >= 1 {
                used.push((names[i].clone(), count));
            }
        }
        i = i + 1;
    }
    proof {
        assert(names@.take(names@.len() as int) =~= names@);
    }
    let sorted = sort_by_count_desc(used);
    let total_pages: u32 = div_ceil_u32(total_items, per_page);
    let bounds = page_bounds(sorted.len(), per_page, page);
    let mut t: u64 = bounds.0;
    let hi: u64 = bounds.1;
    let mut items: Vec<(String, u32)> = Vec::new();
    let ghost lo = t as int;
    while t < hi
        invariant
            lo <= t as int <= hi <= sorted@.len(),
            hi as int == spec_min(sorted@.len() as int, page * per_page + per_page),
            lo == spec_min(sorted@.len() as int, page * per_page),
            items@.len() == t as int - lo,
            forall|k: int| 0 <= k < items@.len() ==> items@[k] == sorted@[lo + k],
        decreases hi - t,
    {
        let name: String = sorted[t as usize].0.clone();
        let count: u32 = sorted[t as usize].1;
        items.push((name, count));
        t = t + 1;
    }
    proof {
        assert(items@ =~= sorted@.subrange(
            spec_min(sorted@.len() as int, page * per_page),
            spec_min(sorted@.len() as int, page * per_page + per_page),
        ));
    }
    PaginatedResult { items, total_items, total_pages }
}

/// Every id the image search can answer with is a real record id.
pub proof fn lemma_matching_ids_bounded(
    records: Seq<ImageRecord>,
    characters: Option<Seq<String>>,
    tags: Option<Seq<String>>,
    rating: Option<crate::rating::Rating>,
)
    requires
        forall|i: int| 0 <= i < records.len() ==> (#[trigger] records[i]).id == i + 1,
    ensures
        spec_matching_images(records, characters, tags, rating).len() <= records.len(),
        forall|k: int|
            0 <= k < spec_matching_images(records, characters, tags, rating).len()
                ==> 1 <= #[trigger] spec_matching_images(records, characters, tags, rating)[k]
                <= records.len(),
    decreases records.len(),
{
    if records.len() > 0 {
        let front = records.drop_last();
        assert(forall|i: int| 0 <= i < front.len() ==> front[i] == records[i]);
        lemma_matching_ids_bounded(front, characters, tags, rating);
    }
}

/// The dedup invariant of the gateway: a well-formed store never holds two
/// records with the same fingerprint — and every operation above both
/// requires and preserves well-formedness, so however many cycles run
/// against the store, at most one record per fingerprint is ever created.
pub proof fn lemma_fingerprint_unique(store: MemoryStore, i: int, j: int)
    requires
        store.wf(),
        0 <= i < store.records@.len(),
        0 <= j < store.records@.len(),
        i != j,
    ensures
        store.records@[i].fingerprint != store.records@[j].fingerprint,
{
}

/// Resolving a name that a registry already holds is the identity: the
/// second resolution of one text returns the same id as the first and
/// inserts nothing, which is what keeps concurrent first-use of a new tag
/// name from creating duplicates at the storage layer.
pub proof fn lemma_resolution_idempotent(names: Seq<String>, i: int, j: int)
    requires
        spec_names_unique(names),
        0 <= i < names.len(),
        0 <= j < names.len(),
        names[i]@ == names[j]@,
    ensures
        i == j,
{
}

/// Whether a name with this text stands in a registry.
pub open spec fn spec_registered(names: Seq<String>, name: Seq<char>) -> bool {
    exists|i: int| 0 <= i < names.len() && (#[trigger] names[i])@ == name
}

/// How a registry may grow during one insert: the old names stay, in place,
/// every given name is registered afterwards, and nothing else is added.
pub open spec fn registry_extended(
    before: Seq<String>,
    after: Seq<String>,
    added: Seq<Seq<char>>,
) -> bool {
    &&& before.is_prefix_of(after)
    &&& forall|i: int| 0 <= i < added.len() ==> spec_registered(after, #[trigger] added[i])
    &&& forall|i: int|
        before.len() <= i < after.len() ==> added.contains((#[trigger] after[i])@)
}

/// Resolve-or-create of one name in a registry: the id of the existing
/// entry where the text is already present — nothing inserted, so a second
/// resolution of the same text gives the same id — and otherwise the id of
/// the freshly appended entry.
#[verifier::loop_isolation(false)]
pub(crate) fn resolve_name(names: &mut Vec<String>, name: &str) -> (id: u32)
    requires
        spec_names_unique(old(names)@),
        old(names)@.len() + 1 < 0x1_0000_0000,
    ensures
        spec_names_unique(final(names)@),
        spec_registered(old(names)@, name@) ==> {
            &&& final(names)@ == old(names)@
            &&& 1 <= id <= old(names)@.len() && old(names)@[id - 1]@ == name@
        },
        !spec_registered(old(names)@, name@) ==> {
            &&& final(names)@.len() == old(names)@.len() + 1
            &&& old(names)@.is_prefix_of(final(names)@)
            &&& final(names)@.last()@ == name@
            &&& id == old(names)@.len() + 1
        },
{
    let mut i: usize = 0;
    while i < names.len()
        invariant
            names@ == old(names)@,
            i <= names@.len(),
            forall|j: int| 0 <= j < i ==> (#[trigger] names@[j])@ != name@,
        decreases names@.len() - i,
    {
        if crate::text::str_eq(names[i].as_str(), name) {
            return (i + 1) as u32;
        }
        i = i + 1;
    }
    names.push(name.to_owned());
    proof {
        assert(old(names)@.is_prefix_of(names@));
    }
    names.len() as u32
}

/// Insert-if-absent of one name in a registry, without reporting the id:
/// a text already present leaves the registry untouched, a new text is
/// appended.
#[verifier::loop_isolation(false)]
pub(crate) fn register_name(names: &mut Vec<String>, name: &str)
    requires
        spec_names_unique(old(names)@),
    ensures
        spec_names_unique(final(names)@),
        spec_registered(old(names)@, name@) ==> final(names)@ == old(names)@,
        !spec_registered(old(names)@, name@) ==> {
            &&& final(names)@.len() == old(names)@.len() + 1
            &&& old(names)@.is_prefix_of(final(names)@)
            &&& final(names)@.last()@ == name@
        },
{
    let mut i: usize = 0;
    while i < names.len()
        invariant
            names@ == old(names)@,
            i <= names@.len(),
            forall|j: int| 0 <= j < i ==> (#[trigger] names@[j])@ != name@,
        decreases names@.len() - i,
    {
        if crate::text::str_eq(names[i].as_str(), name) {
            return ;
        }
        i = i + 1;
    }
    names.push(name.to_owned());
    proof {
        assert(old(names)@.is_prefix_of(names@));
    }
}

/// Copies a name list.
#[verifier::loop_isolation(false)]
pub(crate) fn clone_names(names: &Vec<String>) -> (copy: Vec<String>)
    ensures
        copy.deep_view() == names.deep_view(),
{
    let mut copy: Vec<String> = Vec::new();
    let mut i: usize = 0;
    while i < names.len()
        invariant
            i <= names@.len(),
            copy.deep_view() =~= names.deep_view().take(i as int),
        decreases names@.len() - i,
    {
        copy.push(names[i].clone());
        i = i + 1;
    }
    proof {
        assert(names.deep_view().take(names.deep_view().len() as int) =~= names.deep_view());
    }
    copy
}

/// The ids of the records that still lack a thumbnail, in order.
pub open spec fn spec_unthumbnailed(records: Seq<ImageRecord>) -> Seq<u32>
    decreases records.len(),
{
    if records.len() == 0 {
        Seq::empty()
    } else if !records.last().thumbnail {
        spec_unthumbnailed(records.drop_last()).push(records.last().id)
    } else {
        spec_unthumbnailed(records.drop_last())
    }
}

} // verus!
