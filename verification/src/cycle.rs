use vstd::prelude::*;

use crate::errors::FailureKind;
use crate::image_path::spec_storage_name;
use crate::image_path::spec_thumbnail_name;
use crate::image_path::storage_file_name;
use crate::image_path::thumbnail_file_name;
use crate::image_path::new_uuid;
use crate::picture::content_of;
use crate::picture::decode_and_fingerprint;
use crate::picture::fp_of;
use crate::picture::jpeg_of;
use crate::picture::png_of;
use crate::picture::render_png;
use crate::picture::render_thumbnail;
use crate::picture::shrunk_of;
use crate::picture::THUMBNAIL_QUALITY;
use crate::rating::Rating;
use crate::store::clone_names;
use crate::store::MemoryStore;
use crate::tags::Tags;
use crate::text::concat2;
use crate::text::concat3;
use vstd::string::StrSliceExecFns;
use vstd::string::StringExecFns;

verus! {

/// Immutable configuration of the pipeline: the independently
/// configurable filesystem roots, the classification service address, the
/// thumbnail bound and the pool width.  Built once at process start and
/// passed by reference ever after.
#[derive(Clone, Debug)]
pub struct Config {
    pub storage_path: String,
    pub thumbnail_path: String,
    pub import_path: String,
    pub discarded_path: String,
    pub video_path: String,
    pub tagservice_url: String,
    pub thumbnail_size: u32,
    pub pool_width: u32,
}

impl Config {
    pub fn new(
        storage_path: String,
        thumbnail_path: String,
        import_path: String,
        discarded_path: String,
        video_path: String,
        tagservice_url: String,
        thumbnail_size: u32,
        pool_width: u32,
    ) -> (config: Config)
        requires
            1 <= thumbnail_size,
            1 <= pool_width,
        ensures
            config.storage_path@ == storage_path@,
            config.thumbnail_path@ == thumbnail_path@,
            config.import_path@ == import_path@,
            config.discarded_path@ == discarded_path@,
            config.video_path@ == video_path@,
            config.tagservice_url@ == tagservice_url@,
            config.thumbnail_size == thumbnail_size,
            config.pool_width == pool_width,
            1 <= config.thumbnail_size,
            1 <= config.pool_width,
    {
        Config {
            storage_path,
            thumbnail_path,
            import_path,
            discarded_path,
            video_path,
            tagservice_url,
            thumbnail_size,
            pool_width,
        }
    }
}

/// A file awaiting processing in the import directory.
pub struct ImportFile {
    pub name: String,
    pub bytes: Vec<u8>,
}

/// A named file in one of the pipeline's output roots.
pub struct StoredFile {
    pub name: String,
    pub bytes: Vec<u8>,
}

/// The filesystem roots the pipeline touches in one run, each modeled as
/// the list of files it holds.
pub struct Directories {
    pub import: Vec<ImportFile>,
    pub discard: Vec<StoredFile>,
    pub video: Vec<StoredFile>,
    pub storage: Vec<StoredFile>,
    pub thumbs: Vec<StoredFile>,
}

/// Whether a directory holds a file with this name.
pub open spec fn spec_dir_has(dir: Seq<StoredFile>, name: Seq<char>) -> bool {
    exists|i: int| 0 <= i < dir.len() && (#[trigger] dir[i]).name@ == name
}

/// Content-addressed storage is consistent with the store: the `i`-th
/// record's body lies at the `i`-th storage entry, under the derived
/// `{id}.png` name, and decodes.
pub open spec fn spec_storage_consistent(
    records: Seq<crate::store::ImageRecord>,
    storage: Seq<StoredFile>,
) -> bool {
    &&& storage.len() == records.len()
    &&& forall|i: int|
        0 <= i < records.len() ==> (#[trigger] storage[i]).name@ == spec_storage_name(
            records[i].id,
        ) && content_of(storage[i].bytes@) is Some
}

/// Every record whose thumbnail flag is set has a thumbnail file at the
/// derived `{id}_thumbnail.jpg` name.
pub open spec fn spec_thumbs_backed(
    records: Seq<crate::store::ImageRecord>,
    thumbs: Seq<StoredFile>,
) -> bool {
    forall|i: int|
        0 <= i < records.len() && (#[trigger] records[i]).thumbnail ==> spec_dir_has(
            thumbs,
            spec_thumbnail_name(records[i].id),
        )
}

/// Outcome of one unit of work.
#[derive(Clone, Copy, Debug, PartialEq, Eq, Structural)]
pub enum UnitOutcome {
    /// Fresh image fully processed, with the assigned id.
    Success(u32),
    /// Fingerprint already known: the source is deleted, nothing persisted.
    Duplicate,
    /// Video passthrough: relocated verbatim to the video root.
    Video,
    /// The unit failed with this kind; its file was routed accordingly.
    Failed(FailureKind),
}

/// Model of the external classification service for one cycle: either
/// unreachable — every call fails uniformly — or answering every
/// submission with one fixed tag set.  `calls` counts the submissions
/// actually made.
pub struct ServiceModel {
    pub reachable: bool,
    pub rating: Rating,
    pub character_tags: Vec<String>,
    pub general_tags: Vec<String>,
    pub calls: u64,
}

impl ServiceModel {
    pub fn new(
        reachable: bool,
        rating: Rating,
        character_tags: Vec<String>,
        general_tags: Vec<String>,
    ) -> (svc: ServiceModel)
        ensures
            svc.reachable == reachable,
            svc.rating == rating,
            svc.character_tags@ == character_tags@,
            svc.general_tags@ == general_tags@,
            svc.calls == 0,
    {
        ServiceModel { reachable, rating, character_tags, general_tags, calls: 0 }
    }

    /// Whether the same answers would come back: the settings, not the
    /// call count.
    pub open spec fn same_settings(self, other: ServiceModel) -> bool {
        &&& self.reachable == other.reachable
        &&& self.rating == other.rating
        &&& self.character_tags@ == other.character_tags@
        &&& self.general_tags@ == other.general_tags@
    }

    /// One classification call: fails exactly when the service is
    /// unreachable, and otherwise returns the configured tag set.
    pub fn classify(&mut self, payload: &Vec<u8>) -> (r: Option<Tags>)
        requires
            old(self).calls < u64::MAX,
        ensures
            final(self).same_settings(*old(self)),
            final(self).calls == old(self).calls + 1,
            r is Some <==> old(self).reachable,
            r matches Some(t) ==> {
                &&& t.rating == old(self).rating
                &&& t.character_names() == old(self).character_tags.deep_view()
                &&& t.general_names() == old(self).general_tags.deep_view()
            },
    {
        let _ = payload.len();
        self.calls = self.calls + 1;
        if self.reachable {
            Some(
                Tags {
                    rating: self.rating,
                    character_tags: Some(clone_names(&self.character_tags)),
                    general_tags: Some(clone_names(&self.general_tags)),
                },
            )
        } else {
            None
        }
    }
}

/// Finds whether a directory holds a file with this name.
#[verifier::loop_isolation(false)]
fn dir_contains(dir: &Vec<StoredFile>, name: &str) -> (present: bool)
    ensures
        present == spec_dir_has(dir@, name@),
{
    let mut i: usize = 0;
    while i < dir.len()
        invariant
            i <= dir@.len(),
            forall|j: int| 0 <= j < i ==> (#[trigger] dir@[j]).name@ != name@,
        decreases dir@.len() - i,
    {
        if crate::text::str_eq(dir[i].name.as_str(), name) {
            return true;
        }
        i = i + 1;
    }
    false
}

/// A fresh random file name for a directory: a random identifier with the
/// given suffix, redrawn — and thereby lengthened — until it collides with
/// nothing present; a name longer than every present name is necessarily
/// fresh, which bounds the redrawing.
#[verifier::loop_isolation(false)]
fn fresh_name_for(dir: &Vec<StoredFile>, suffix: &str) -> (name: String)
    ensures
        !spec_dir_has(dir@, name@),
        name@.len() >= suffix@.len() + 36,
        name@.subrange(name@.len() - suffix@.len(), name@.len() as int) == suffix@,
{
    let mut longest: usize = 0;
    let mut i: usize = 0;
    while i < dir.len()
        invariant
            i <= dir@.len(),
            forall|j: int| 0 <= j < i ==> (#[trigger] dir@[j]).name@.len() <= longest,
        decreases dir@.len() - i,
    {
        let n = dir[i].name.unicode_len();
        if n > longest {
            longest = n;
        }
        i = i + 1;
    }
    let mut stem: String = new_uuid();
    let mut name: String = concat2(stem.as_str(), suffix);
    while dir_contains(dir, name.as_str())
        invariant
            name@ == stem@ + suffix@,
            stem@.len() >= 36,
            forall|j: int| 0 <= j < dir@.len() ==> (#[trigger] dir@[j]).name@.len() <= longest,
        decreases (if name@.len() <= longest {
            longest + 1 - name@.len()
        } else {
            0
        }),
    {
        let more = new_uuid();
        stem.append(more.as_str());
        name = concat2(stem.as_str(), suffix);
    }
    proof {
        assert(name@.subrange(name@.len() - suffix@.len(), name@.len() as int) =~= suffix@);
    }
    name
}

/// Whether an import file's bytes decode as an image at all.
pub open spec fn spec_file_decodes(file: ImportFile) -> bool {
    content_of(file.bytes@) is Some
}

/// The decoded pixel content of an import file, where it decodes at all.
pub open spec fn spec_file_content(file: ImportFile) -> Seq<u8> {
    content_of(file.bytes@)->Some_0
}

/// The content fingerprint of an import file, where it decodes at all.
pub open spec fn spec_file_fp(file: ImportFile) -> u64 {
    fp_of(spec_file_content(file))
}

/// A decodable still image whose fingerprint the store does not know yet:
/// classification and persistence are owed to it.
pub open spec fn spec_fresh_image(file: ImportFile, store: MemoryStore) -> bool {
    spec_file_decodes(file) && !store.spec_has_fingerprint(spec_file_fp(file))
}

/// Whether the classification stage goes through for a fresh image: its
/// raster encodes to PNG and the service answers.
pub open spec fn spec_classifiable(file: ImportFile, svc: ServiceModel) -> bool {
    png_of(spec_file_content(file)) is Some && svc.reachable
}

/// Whether the thumbnail encoder accepts this content at this bound.
pub open spec fn spec_thumbnailable(content: Seq<u8>, bound: u32) -> bool {
    jpeg_of(shrunk_of(content, bound), THUMBNAIL_QUALITY) is Some
}

/// Drives one still-image file through decode → hash → dedup check →
/// classify → persist → relocate → thumbnail against the given
/// collaborators.  The caller owns the source file and routes it by the
/// outcome afterwards: deletion on success or duplicate, discard or
/// leave-in-place by the failure kind.
pub fn process_import_file(
    file: &ImportFile,
    storage: &mut Vec<StoredFile>,
    thumbs: &mut Vec<StoredFile>,
    store: &mut MemoryStore,
    svc: &mut ServiceModel,
    thumbnail_size: u32,
) -> (outcome: UnitOutcome)
    requires
        old(store).wf(),
        old(store).records@.len() + 1 < 0x1_0000_0000,
        old(svc).calls < 0xffff_ffff_ffff_ffff,
    ensures
        final(store).wf(),
        final(store).auth@ == old(store).auth@,
        final(svc).same_settings(*old(svc)),
        old(store).records@.len() <= final(store).records@.len() <= old(store).records@.len()
            + 1,
        forall|i: int|
            0 <= i < old(store).records@.len() ==> final(store).records@[i] == old(
                store,
            ).records@[i],
        old(storage)@.is_prefix_of(final(storage)@),
        old(thumbs)@.is_prefix_of(final(thumbs)@),
        outcome == UnitOutcome::Failed(FailureKind::DecodeFailure) <==> !spec_file_decodes(
            *file,
        ),
        outcome == UnitOutcome::Duplicate <==> spec_file_decodes(*file) && old(
            store,
        ).spec_has_fingerprint(spec_file_fp(*file)),
        outcome == UnitOutcome::Failed(FailureKind::ClassificationServiceError)
            <==> spec_fresh_image(*file, *old(store)) && !spec_classifiable(*file, *old(svc)),
        (outcome matches UnitOutcome::Success(id)) <==> spec_fresh_image(*file, *old(store))
            && spec_classifiable(*file, *old(svc)) && spec_thumbnailable(
            spec_file_content(*file),
            thumbnail_size,
        ),
        outcome == UnitOutcome::Failed(FailureKind::ThumbnailFailure) <==> spec_fresh_image(
            *file,
            *old(store),
        ) && spec_classifiable(*file, *old(svc)) && !spec_thumbnailable(
            spec_file_content(*file),
            thumbnail_size,
        ),
        outcome matches UnitOutcome::Success(id) ==> id == old(store).records@.len() + 1,
        final(svc).calls == old(svc).calls + (if spec_fresh_image(*file, *old(store))
            && png_of(spec_file_content(*file)) is Some {
            1int
        } else {
            0int
        }),
        !(spec_fresh_image(*file, *old(store)) && spec_classifiable(*file, *old(svc))) ==> {
            &&& final(store).records@ == old(store).records@
            &&& final(store).character_names@ == old(store).character_names@
            &&& final(store).tag_names@ == old(store).tag_names@
            &&& final(storage)@ == old(storage)@
            &&& final(thumbs)@ == old(thumbs)@
        },
        spec_fresh_image(*file, *old(store)) && spec_classifiable(*file, *old(svc)) ==> {
            let content = spec_file_content(*file);
            let id = old(store).records@.len() + 1;
            &&& final(store).records@.len() == old(store).records@.len() + 1
            &&& final(store).records@.last().id == id
            &&& final(store).records@.last().fingerprint == fp_of(content)
            &&& final(store).records@.last().rating == old(svc).rating
            &&& final(store).records@.last().character_tags.deep_view() == old(
                svc,
            ).character_tags.deep_view()
            &&& final(store).records@.last().general_tags.deep_view() == old(
                svc,
            ).general_tags.deep_view()
            &&& final(store).records@.last().thumbnail == spec_thumbnailable(
                content,
                thumbnail_size,
            )
            &&& final(storage)@.len() == old(storage)@.len() + 1
            &&& final(storage)@.last().name@ == spec_storage_name(
                final(store).records@.last().id,
            )
            &&& final(storage)@.last().bytes@ == png_of(content)->Some_0
            &&& content_of(final(storage)@.last().bytes@) == Some(content)
            &&& spec_thumbnailable(content, thumbnail_size) ==> {
                &&& final(thumbs)@.len() == old(thumbs)@.len() + 1
                &&& final(thumbs)@.last().name@ == spec_thumbnail_name(
                    final(store).records@.last().id,
                )
                &&& final(thumbs)@.last().bytes@ == jpeg_of(
                    shrunk_of(content, thumbnail_size),
                    THUMBNAIL_QUALITY,
                )->Some_0
            }
            &&& !spec_thumbnailable(content, thumbnail_size) ==> final(thumbs)@ == old(
                thumbs,
            )@
        },
        spec_storage_consistent(old(store).records@, old(storage)@) ==> spec_storage_consistent(
            final(store).records@,
            final(storage)@,
        ),
        spec_thumbs_backed(old(store).records@, old(thumbs)@) ==> spec_thumbs_backed(
            final(store).records@,
            final(thumbs)@,
        ),
{
    let decoded = decode_and_fingerprint(&file.bytes);
    let (img, fingerprint) = match decoded {
        None => {
            return UnitOutcome::Failed(FailureKind::DecodeFailure);
        },
        Some(p) => p,
    };
    if store.check_hash(fingerprint) {
        return UnitOutcome::Duplicate;
    }
    let payload = match render_png(&img) {
        None => {
            return UnitOutcome::Failed(FailureKind::ClassificationServiceError);
        },
        Some(b) => b,
    };
    let tags = match svc.classify(&payload) {
        None => {
            return UnitOutcome::Failed(FailureKind::ClassificationServiceError);
        },
        Some(t) => t,
    };
    let id = store.save_image(fingerprint, &tags);
    let storage_name = storage_file_name(id);
    storage.push(StoredFile { name: storage_name, bytes: payload });
    match render_thumbnail(&img, thumbnail_size) {
        Some(thumb) => {
            let thumb_name = thumbnail_file_name(id);
            thumbs.push(StoredFile { name: thumb_name, bytes: thumb });
            store.write_thumbnail(id);
            proof {
                assert(thumbs@.subrange(0, old(thumbs)@.len() as int) =~= old(thumbs)@);
                lemma_dir_has_extended(old(thumbs)@, thumbs@);
            }
            UnitOutcome::Success(id)
        },
        None => UnitOutcome::Failed(FailureKind::ThumbnailFailure),
    }
}

/// How many outcomes of a batch moved their file to the discard root.
pub open spec fn spec_count_discarded(outs: Seq<UnitOutcome>) -> nat
    decreases outs.len(),
{
    if outs.len() == 0 {
        0
    } else {
        spec_count_discarded(outs.drop_last()) + (if spec_outcome_discards(outs.last()) {
            1nat
        } else {
            0nat
        })
    }
}

/// Whether an outcome moved its file to the discard root: a failure of any
/// non-transient kind.
pub open spec fn spec_outcome_discards(out: UnitOutcome) -> bool {
    out matches UnitOutcome::Failed(kind) && !kind.spec_is_transient()
}

/// Whether an outcome left its file in the import directory: a transient
/// failure, the classification service being unreachable.
pub open spec fn spec_outcome_leaves(out: UnitOutcome) -> bool {
    out matches UnitOutcome::Failed(kind) && kind.spec_is_transient()
}

/// How many outcomes of a batch left their file in place.
pub open spec fn spec_count_left(outs: Seq<UnitOutcome>) -> nat
    decreases outs.len(),
{
    if outs.len() == 0 {
        0
    } else {
        spec_count_left(outs.drop_last()) + (if spec_outcome_leaves(outs.last()) {
            1nat
        } else {
            0nat
        })
    }
}

/// How many outcomes of a batch were video passthroughs.
pub open spec fn spec_count_video(outs: Seq<UnitOutcome>) -> nat
    decreases outs.len(),
{
    if outs.len() == 0 {
        0
    } else {
        spec_count_video(outs.drop_last()) + (if outs.last() is Video {
            1nat
        } else {
            0nat
        })
    }
}

/// Whether an outcome went down the persist path: a fresh classified
/// image, whether or not its thumbnail could then be encoded.  Exactly
/// these units insert a record and make a classification call.
pub open spec fn spec_outcome_persisted(out: UnitOutcome) -> bool {
    out matches UnitOutcome::Success(_) || out == UnitOutcome::Failed(
        FailureKind::ThumbnailFailure,
    )
}

/// How many outcomes of a batch persisted a record.
pub open spec fn spec_count_persisted(outs: Seq<UnitOutcome>) -> nat
    decreases outs.len(),
{
    if outs.len() == 0 {
        0
    } else {
        spec_count_persisted(outs.drop_last()) + (if spec_outcome_persisted(outs.last()) {
            1nat
        } else {
            0nat
        })
    }
}

/// The files one batch leaves behind in the import directory: exactly the
/// entries whose outcome was the transient classification failure, in
/// their original order.
pub open spec fn spec_left_files(files: Seq<ImportFile>, outs: Seq<UnitOutcome>) -> Seq<
    ImportFile,
>
    recommends
        files.len() == outs.len(),
    decreases outs.len(),
{
    if outs.len() == 0 {
        Seq::empty()
    } else {
        let front = spec_left_files(files.drop_last(), outs.drop_last());
        if spec_outcome_leaves(outs.last()) {
            front.push(files.last())
        } else {
            front
        }
    }
}

/// A relocated video body arrived in the video root beyond the old
/// entries, byte for byte, under a name that keeps the source's video
/// extension.
pub open spec fn spec_video_arrival(
    source: ImportFile,
    before_len: int,
    video: Seq<StoredFile>,
) -> bool {
    exists|v: int|
        before_len <= v < video.len() && (#[trigger] video[v]).bytes@ == source.bytes@
            && spec_extension_kept(source.name@, video[v].name@)
}

/// Source and target carry the same extension of the fixed video set.
pub open spec fn spec_extension_kept(source_name: Seq<char>, target_name: Seq<char>) -> bool {
    exists|e: int|
        0 <= e < crate::triage::spec_video_extensions().len()
            && crate::triage::spec_has_extension(
            source_name,
            #[trigger] crate::triage::spec_video_extensions()[e],
        ) && crate::triage::spec_has_extension(
            target_name,
            crate::triage::spec_video_extensions()[e],
        )
}

/// The main ingestion sweep over one batch: every entry of the import
/// directory is taken through triage and, for still images, through the
/// per-image pipeline; each unit runs under the bounded pool and its
/// failure is routed without aborting the batch.  On return every unit is
/// terminal: the import directory keeps exactly the files whose
/// classification failed transiently, non-transient failures sit in the
/// discard root under fresh names, videos sit in the video root, and the
/// store gained one record per fresh classified image.
#[verifier::rlimit(60)]
#[verifier::loop_isolation(false)]
pub fn run_cycle(
    dirs: &mut Directories,
    store: &mut MemoryStore,
    svc: &mut ServiceModel,
    pool: &mut crate::pool::WorkerPool,
    thumbnail_size: u32,
) -> (outcomes: Vec<UnitOutcome>)
    requires
        old(store).wf(),
        spec_storage_consistent(old(store).records@, old(dirs).storage@),
        spec_thumbs_backed(old(store).records@, old(dirs).thumbs@),
        old(store).records@.len() + old(dirs).import@.len() < 0x1_0000_0000,
        old(svc).calls + old(dirs).import@.len() <= 0xffff_ffff_ffff_ffff,
        old(pool).wf(),
        old(pool).active == 0,
    ensures
        outcomes@.len() == old(dirs).import@.len(),
        final(store).wf(),
        final(store).auth@ == old(store).auth@,
        spec_storage_consistent(final(store).records@, final(dirs).storage@),
        spec_thumbs_backed(final(store).records@, final(dirs).thumbs@),
        final(svc).same_settings(*old(svc)),
        final(svc).calls <= old(svc).calls + old(dirs).import@.len(),
        // a video passthrough never submits anything to the service
        final(svc).calls <= old(svc).calls + outcomes@.len() - spec_count_video(outcomes@),
        final(pool).wf(),
        final(pool).active == 0,
        final(pool).limit == old(pool).limit,
        forall|i: int|
            0 <= i < old(store).records@.len() ==> final(store).records@[i] == old(
                store,
            ).records@[i],
        old(store).records@.len() <= final(store).records@.len(),
        final(store).records@.len() <= old(store).records@.len() + old(dirs).import@.len(),
        old(dirs).storage@.is_prefix_of(final(dirs).storage@),
        old(dirs).thumbs@.is_prefix_of(final(dirs).thumbs@),
        old(dirs).discard@.is_prefix_of(final(dirs).discard@),
        old(dirs).video@.is_prefix_of(final(dirs).video@),
        // the discard root gained one fresh-named file per non-transient
        // failure, and a fresh name collides with nothing before it
        final(dirs).discard@.len() == old(dirs).discard@.len() + spec_count_discarded(
            outcomes@,
        ),
        forall|i: int|
            old(dirs).discard@.len() <= i < final(dirs).discard@.len() ==> !spec_dir_has(
                final(dirs).discard@.take(i),
                (#[trigger] final(dirs).discard@[i]).name@,
            ),
        // the video root gained one file per video passthrough
        final(dirs).video@.len() == old(dirs).video@.len() + spec_count_video(outcomes@),
        // the import directory keeps exactly the transiently failed files,
        // every one of them one of the original files
        final(dirs).import@.len() == spec_count_left(outcomes@),
        forall|i: int|
            0 <= i < final(dirs).import@.len() ==> old(dirs).import@.contains(
                #[trigger] final(dirs).import@[i],
            ),
        // triage: a video-named entry becomes a video passthrough, and
        // nothing else does
        forall|j: int|
            0 <= j < outcomes@.len() ==> (crate::triage::spec_is_video_name(
                (#[trigger] old(dirs).import@[j]).name@,
            ) <==> outcomes@[j] is Video),
        // every relocated video body reappears verbatim in the video root,
        // under a fresh name that keeps its extension
        forall|j: int|
            0 <= j < outcomes@.len() && (#[trigger] outcomes@[j]) is Video
                ==> spec_video_arrival(
                old(dirs).import@[j],
                old(dirs).video@.len() as int,
                final(dirs).video@,
            ),
        // an undecodable entry is a decode failure, and nothing else is
        forall|j: int|
            0 <= j < outcomes@.len() && !crate::triage::spec_is_video_name(
                (#[trigger] old(dirs).import@[j]).name@,
            ) ==> ((outcomes@[j] == UnitOutcome::Failed(FailureKind::DecodeFailure))
                <==> !spec_file_decodes(old(dirs).import@[j])),
        // the import directory ends up with exactly the transiently failed
        // entries, in order: everything else was deleted or relocated
        final(dirs).import@ == spec_left_files(old(dirs).import@, outcomes@),
        // the store grew by exactly one record per unit that reached the
        // persist stage; video passthroughs, duplicates and failures
        // before persist insert nothing
        final(store).records@.len() == old(store).records@.len() + spec_count_persisted(
            outcomes@,
        ),
        // with the service reachable, exactly one classification call is
        // made per persisted record and none for any other unit
        old(svc).reachable ==> final(svc).calls == old(svc).calls + spec_count_persisted(
            outcomes@,
        ),
        // with the service reachable, a decodable non-video entry whose
        // raster the encoders accept ends successfully: fresh as a full
        // insert, known content silently absorbed as a duplicate
        old(svc).reachable ==> forall|j: int|
            0 <= j < outcomes@.len() && !crate::triage::spec_is_video_name(
                (#[trigger] old(dirs).import@[j]).name@,
            ) && spec_file_decodes(old(dirs).import@[j]) && png_of(
                spec_file_content(old(dirs).import@[j]),
            ) is Some && spec_thumbnailable(
                spec_file_content(old(dirs).import@[j]),
                thumbnail_size,
            ) ==> (outcomes@[j] matches UnitOutcome::Success(_) || outcomes@[j]
                == UnitOutcome::Duplicate),
        // with the service unreachable, no record is created in the cycle
        !old(svc).reachable ==> final(store).records@ == old(store).records@,
        // with the service unreachable, every decodable fresh image file
        // survives in the import directory, byte for byte
        !old(svc).reachable ==> forall|j: int|
            0 <= j < old(dirs).import@.len() && !crate::triage::spec_is_video_name(
                (#[trigger] old(dirs).import@[j]).name@,
            ) && spec_fresh_image(old(dirs).import@[j], *old(store))
                ==> final(dirs).import@.contains(old(dirs).import@[j]),
{
    let mut pending: Vec<ImportFile> = Vec::new();
    core::mem::swap(&mut pending, &mut dirs.import);
    let ghost all = pending@;
    let mut outcomes: Vec<UnitOutcome> = Vec::new();
    while pending.len() > 0
        invariant
            store.wf(),
            store.auth@ == old(store).auth@,
            spec_storage_consistent(store.records@, dirs.storage@),
            spec_thumbs_backed(store.records@, dirs.thumbs@),
            svc.same_settings(*old(svc)),
            pool.wf(),
            pool.active == 0,
            pool.limit == old(pool).limit,
            all == old(dirs).import@,
            outcomes@.len() + pending@.len() == all.len(),
            pending@ == all.skip(outcomes@.len() as int),
            store.records@.len() + pending@.len() < 0x1_0000_0000,
            svc.calls + pending@.len() <= 0xffff_ffff_ffff_ffff,
            svc.calls <= old(svc).calls + outcomes@.len(),
            svc.calls <= old(svc).calls + outcomes@.len() - spec_count_video(outcomes@),
            forall|i: int|
                0 <= i < old(store).records@.len() ==> store.records@[i] == old(
                    store,
                ).records@[i],
            old(store).records@.len() <= store.records@.len(),
            store.records@.len() <= old(store).records@.len() + outcomes@.len(),
            old(dirs).storage@.is_prefix_of(dirs.storage@),
            old(dirs).thumbs@.is_prefix_of(dirs.thumbs@),
            old(dirs).discard@.is_prefix_of(dirs.discard@),
            old(dirs).video@.is_prefix_of(dirs.video@),
            dirs.discard@.len() == old(dirs).discard@.len() + spec_count_discarded(outcomes@),
            forall|i: int|
                old(dirs).discard@.len() <= i < dirs.discard@.len() ==> !spec_dir_has(
                    dirs.discard@.take(i),
                    (#[trigger] dirs.discard@[i]).name@,
                ),
            dirs.video@.len() == old(dirs).video@.len() + spec_count_video(outcomes@),
            dirs.import@.len() == spec_count_left(outcomes@),
            forall|i: int|
                0 <= i < dirs.import@.len() ==> all.contains(#[trigger] dirs.import@[i]),
            forall|j: int|
                0 <= j < outcomes@.len() ==> (crate::triage::spec_is_video_name(
                    (#[trigger] all[j]).name@,
                ) <==> outcomes@[j] is Video),
            forall|j: int|
                0 <= j < outcomes@.len() && (#[trigger] outcomes@[j]) is Video
                    ==> spec_video_arrival(all[j], old(dirs).video@.len() as int, dirs.video@),
            forall|j: int|
                0 <= j < outcomes@.len() && !crate::triage::spec_is_video_name(
                    (#[trigger] all[j]).name@,
                ) ==> ((outcomes@[j] == UnitOutcome::Failed(FailureKind::DecodeFailure))
                    <==> !spec_file_decodes(all[j])),
            dirs.import@ == spec_left_files(all.take(outcomes@.len() as int), outcomes@),
            store.records@.len() == old(store).records@.len() + spec_count_persisted(
                outcomes@,
            ),
            old(svc).reachable ==> svc.calls == old(svc).calls + spec_count_persisted(
                outcomes@,
            ),
            old(svc).reachable ==> forall|j: int|
                0 <= j < outcomes@.len() && !crate::triage::spec_is_video_name(
                    (#[trigger] all[j]).name@,
                ) && spec_file_decodes(all[j]) && png_of(spec_file_content(all[j])) is Some
                    && spec_thumbnailable(spec_file_content(all[j]), thumbnail_size)
                    ==> (outcomes@[j] matches UnitOutcome::Success(_) || outcomes@[j]
                    == UnitOutcome::Duplicate),
            !old(svc).reachable ==> store.records@ == old(store).records@,
            !old(svc).reachable ==> forall|j: int|
                0 <= j < outcomes@.len() && !crate::triage::spec_is_video_name(
                    (#[trigger] all[j]).name@,
                ) && spec_fresh_image(all[j], *old(store)) ==> dirs.import@.contains(all[j]),
        decreases pending@.len(),
    {
        let ghost j = outcomes@.len() as int;
        let ghost outcomes_before = outcomes@;
        let file = pending.remove(0);
        proof {
            assert(pending@ =~= all.skip(j + 1));
            assert(file == all[j]);
        }
        let started = pool.try_start();
        assert(started);
        let ghost import_before = dirs.import@;
        let ghost discard_before = dirs.discard@;
        let ghost video_before = dirs.video@;
        let outcome: UnitOutcome = match crate::triage::video_extension(file.name.as_str()) {
            Some(ext) => {
                let suffix = concat2(".", ext);
                let fresh = fresh_name_for(&dirs.video, suffix.as_str());
                dirs.video.push(StoredFile { name: fresh, bytes: file.bytes });
                proof {
                    reveal_strlit(".");
                    let target = dirs.video@.last().name@;
                    let el = ext@.len() as int;
                    let tl = target.len() as int;
                    assert(target.subrange(tl - (el + 1), tl) == suffix@);
                    assert forall|t: int|
                        0 <= t < el implies target.subrange(tl - el, tl)[t] == ext@[t] by {
                        assert(target.subrange(tl - (el + 1), tl)[t + 1] == target[tl - el
                            + t]);
                        assert(suffix@[t + 1] == ext@[t]);
                        assert(target.subrange(tl - el, tl)[t] == target[tl - el + t]);
                    }
                    assert(target.subrange(tl - el, tl) =~= ext@);
                    assert(target[tl - el - 1] == suffix@[0]);
                    assert(crate::triage::spec_has_extension(target, ext@));
                    let e0 = choose|i: int|
                        0 <= i < crate::triage::spec_video_extensions().len()
                            && crate::triage::spec_video_extensions()[i] == ext@;
                    assert(crate::triage::spec_has_extension(
                        all[j].name@,
                        crate::triage::spec_video_extensions()[e0],
                    ));
                    assert(crate::triage::spec_has_extension(
                        target,
                        crate::triage::spec_video_extensions()[e0],
                    ));
                    assert(spec_extension_kept(all[j].name@, target));
                    assert(dirs.video@.last().bytes@ == all[j].bytes@);
                    assert(spec_video_arrival(
                        all[j],
                        old(dirs).video@.len() as int,
                        dirs.video@,
                    ));
                    assert(forall|v: int|
                        0 <= v < video_before.len() ==> dirs.video@[v] == video_before[v]);
                    assert forall|jj: int|
                        0 <= jj < outcomes_before.len() && (#[trigger] outcomes_before[jj])
                            is Video implies spec_video_arrival(
                        all[jj],
                        old(dirs).video@.len() as int,
                        dirs.video@,
                    ) by {
                        let v0 = choose|v: int|
                            old(dirs).video@.len() as int <= v < video_before.len() && (
                            #[trigger] video_before[v]).bytes@ == all[jj].bytes@
                                && spec_extension_kept(all[jj].name@, video_before[v].name@);
                        assert(dirs.video@[v0] == video_before[v0]);
                        assert(dirs.video@[v0].bytes@ == all[jj].bytes@);
                        assert(spec_extension_kept(all[jj].name@, dirs.video@[v0].name@));
                    }
                }
                UnitOutcome::Video
            },
            None => {
                let out = process_import_file(
                    &file,
                    &mut dirs.storage,
                    &mut dirs.thumbs,
                    store,
                    svc,
                    thumbnail_size,
                );
                match out {
                    UnitOutcome::Failed(kind) => {
                        match kind.disposition() {
                            crate::errors::FileDisposition::LeaveInPlace => {
                                dirs.import.push(file);
                                proof {
                                    assert(forall|i: int|
                                        0 <= i < import_before.len() ==> dirs.import@[i]
                                            == import_before[i]);
                                    assert(dirs.import@.last() == all[j]);
                                    assert forall|y: ImportFile|
                                        import_before.contains(y) implies #[trigger] dirs.import@.contains(
                                        y,
                                    ) by {
                                        let i0 = choose|i: int|
                                            0 <= i < import_before.len() && import_before[i]
                                                == y;
                                        assert(dirs.import@[i0] == y);
                                    }
                                }
                            },
                            crate::errors::FileDisposition::Discard => {
                                let fresh = fresh_name_for(&dirs.discard, ".png");
                                dirs.discard.push(StoredFile { name: fresh, bytes: file.bytes });
                                proof {
                                    assert forall|i: int|
                                        old(dirs).discard@.len() <= i < dirs.discard@.len()
                                        implies !spec_dir_has(
                                        dirs.discard@.take(i),
                                        (#[trigger] dirs.discard@[i]).name@,
                                    ) by {
                                        if i < discard_before.len() {
                                            assert(dirs.discard@[i] == discard_before[i]);
                                            assert(dirs.discard@.take(i)
                                                =~= discard_before.take(i));
                                        } else {
                                            assert(i == discard_before.len());
                                            assert(dirs.discard@.take(i) =~= discard_before);
                                        }
                                    }
                                }
                            },
                        }
                    },
                    UnitOutcome::Video => {
                        proof {
                            assert(false);
                        }
                    },
                    _ => {},
                }
                out
            },
        };
        outcomes.push(outcome);
        pool.finish();
        proof {
            lemma_counts_push(outcomes_before, outcome);
            assert(outcomes@ == outcomes_before.push(outcome));
            assert(outcomes@.drop_last() =~= outcomes_before);
            assert(all.take(j + 1).drop_last() =~= all.take(j));
            assert(all.take(j + 1).last() == all[j]);
            assert forall|jj: int|
                0 <= jj < outcomes@.len() && (#[trigger] outcomes@[jj]) is Video
                implies spec_video_arrival(
                all[jj],
                old(dirs).video@.len() as int,
                dirs.video@,
            ) by {
                if jj < j {
                    assert(outcomes@[jj] == outcomes_before[jj]);
                }
            }
        }
    }
    proof {
        assert(all.take(outcomes@.len() as int) =~= all);
    }
    outcomes
}

/// One outcome appended to a batch moves each count by at most one.
proof fn lemma_counts_push(outs: Seq<UnitOutcome>, out: UnitOutcome)
    ensures
        spec_count_discarded(outs.push(out)) == spec_count_discarded(outs) + (
        if spec_outcome_discards(out) {
            1nat
        } else {
            0nat
        }),
        spec_count_left(outs.push(out)) == spec_count_left(outs) + (if spec_outcome_leaves(out) {
            1nat
        } else {
            0nat
        }),
        spec_count_video(outs.push(out)) == spec_count_video(outs) + (if out is Video {
            1nat
        } else {
            0nat
        }),
        spec_count_persisted(outs.push(out)) == spec_count_persisted(outs) + (
        if spec_outcome_persisted(out) {
            1nat
        } else {
            0nat
        }),
{
    assert(outs.push(out).drop_last() =~= outs);
}

/// What the list of unthumbnailed ids of a well-formed store looks like:
/// every listed id is a real record id whose flag is down, the list is
/// strictly increasing — in particular duplicate-free — and every record
/// with its flag down is listed.
proof fn lemma_unthumbnailed_props(records: Seq<crate::store::ImageRecord>)
    requires
        forall|i: int| 0 <= i < records.len() ==> (#[trigger] records[i]).id == i + 1,
    ensures
        forall|k: int|
            0 <= k < crate::store::spec_unthumbnailed(records).len()
                ==> 1 <= #[trigger] crate::store::spec_unthumbnailed(records)[k]
                <= records.len(),
        forall|k1: int, k2: int|
            0 <= k1 < k2 < crate::store::spec_unthumbnailed(records).len()
                ==> crate::store::spec_unthumbnailed(records)[k1]
                < crate::store::spec_unthumbnailed(records)[k2],
        forall|k: int|
            0 <= k < crate::store::spec_unthumbnailed(records).len() ==> !records[
                #[trigger] crate::store::spec_unthumbnailed(records)[k] - 1].thumbnail,
        forall|i: int|
            0 <= i < records.len() && !(#[trigger] records[i]).thumbnail
                ==> crate::store::spec_unthumbnailed(records).contains((i + 1) as u32),
    decreases records.len(),
{
    if records.len() > 0 {
        let front = records.drop_last();
        assert(forall|i: int| 0 <= i < front.len() ==> front[i] == records[i]);
        lemma_unthumbnailed_props(front);
        let whole = crate::store::spec_unthumbnailed(records);
        let prefix = crate::store::spec_unthumbnailed(front);
        assert forall|i: int|
            0 <= i < records.len() && !(#[trigger] records[i]).thumbnail implies whole.contains(
            (i + 1) as u32,
        ) by {
            if i < records.len() - 1 {
                assert(prefix.contains((i + 1) as u32));
                let k = choose|k: int| 0 <= k < prefix.len() && prefix[k] == (i + 1) as u32;
                assert(whole[k] == (i + 1) as u32);
            } else {
                assert(whole.last() == records.last().id);
            }
        }
    }
}

/// How many of the listed ids have stored content the thumbnail encoder
/// accepts: exactly that many thumbnail files one backfill pass writes.
pub open spec fn spec_count_thumbable(ids: Seq<u32>, storage: Seq<StoredFile>, bound: u32)
    -> int
    decreases ids.len(),
{
    if ids.len() == 0 {
        0
    } else {
        spec_count_thumbable(ids.drop_last(), storage, bound) + (if spec_thumbnailable(
            content_of(storage[ids.last() - 1].bytes@)->Some_0,
            bound,
        ) {
            1int
        } else {
            0int
        })
    }
}

/// The thumbnail backfill pass: finds every persisted record still lacking
/// a thumbnail, decodes its stored body and repeats the thumbnail step for
/// it.  Idempotent and safe to run repeatedly.  Afterwards the only
/// records still lacking a thumbnail are those whose stored content the
/// thumbnail encoder itself refuses.
#[verifier::rlimit(80)]
#[verifier::loop_isolation(false)]
pub fn thumbnail_backfill(dirs: &mut Directories, store: &mut MemoryStore, thumbnail_size: u32)
    requires
        old(store).wf(),
        old(store).records@.len() < 0x1_0000_0000,
        spec_storage_consistent(old(store).records@, old(dirs).storage@),
        spec_thumbs_backed(old(store).records@, old(dirs).thumbs@),
    ensures
        final(store).wf(),
        final(store).auth@ == old(store).auth@,
        final(store).character_names@ == old(store).character_names@,
        final(store).tag_names@ == old(store).tag_names@,
        final(dirs).import@ == old(dirs).import@,
        final(dirs).discard@ == old(dirs).discard@,
        final(dirs).video@ == old(dirs).video@,
        final(dirs).storage@ == old(dirs).storage@,
        old(dirs).thumbs@.is_prefix_of(final(dirs).thumbs@),
        // the thumbnail root grows by exactly one file per record the pass
        // can thumbnail; in particular a pass with nothing to do writes
        // nothing
        final(dirs).thumbs@.len() == old(dirs).thumbs@.len() + spec_count_thumbable(
            crate::store::spec_unthumbnailed(old(store).records@),
            old(dirs).storage@,
            thumbnail_size,
        ),
        (forall|i: int|
            0 <= i < old(store).records@.len() ==> (#[trigger] old(
                store,
            ).records@[i]).thumbnail) ==> final(dirs).thumbs@ == old(dirs).thumbs@,
        spec_storage_consistent(final(store).records@, final(dirs).storage@),
        spec_thumbs_backed(final(store).records@, final(dirs).thumbs@),
        final(store).records@.len() == old(store).records@.len(),
        forall|i: int|
            0 <= i < old(store).records@.len() ==> #[trigger] final(store).records@[i]
                == (crate::store::ImageRecord {
                thumbnail: final(store).records@[i].thumbnail,
                ..old(store).records@[i]
            }),
        forall|i: int|
            0 <= i < old(store).records@.len() && (#[trigger] old(store).records@[i]).thumbnail
                ==> final(store).records@[i].thumbnail,
        forall|i: int|
            0 <= i < final(store).records@.len() && !(#[trigger] final(store).records@[i]).thumbnail ==> !spec_thumbnailable(
                content_of(old(dirs).storage@[i].bytes@)->Some_0,
                thumbnail_size,
            ),
{
    let ids = store.get_non_thumbnailed_images();
    proof {
        lemma_unthumbnailed_props(old(store).records@);
    }
    let ghost ids0 = ids@;
    let mut j: usize = 0;
    while j < ids.len()
        invariant
            ids0 == crate::store::spec_unthumbnailed(old(store).records@),
            ids@ == ids0,
            j <= ids0.len(),
            store.wf(),
            store.records@.len() == old(store).records@.len(),
            store.auth@ == old(store).auth@,
            store.character_names@ == old(store).character_names@,
            store.tag_names@ == old(store).tag_names@,
            dirs.import@ == old(dirs).import@,
            dirs.discard@ == old(dirs).discard@,
            dirs.video@ == old(dirs).video@,
            dirs.storage@ == old(dirs).storage@,
            old(dirs).thumbs@.is_prefix_of(dirs.thumbs@),
            dirs.thumbs@.len() == old(dirs).thumbs@.len() + spec_count_thumbable(
                ids0.take(j as int),
                old(dirs).storage@,
                thumbnail_size,
            ),
            spec_storage_consistent(store.records@, dirs.storage@),
            spec_thumbs_backed(store.records@, dirs.thumbs@),
            forall|i: int|
                0 <= i < old(store).records@.len() ==> #[trigger] store.records@[i]
                    == (crate::store::ImageRecord {
                    thumbnail: store.records@[i].thumbnail,
                    ..old(store).records@[i]
                }),
            forall|i: int|
                0 <= i < old(store).records@.len() && (#[trigger] old(
                    store,
                ).records@[i]).thumbnail ==> store.records@[i].thumbnail,
            forall|k: int|
                j <= k < ids0.len() ==> !store.records@[#[trigger] ids0[k] - 1].thumbnail,
            forall|k: int|
                0 <= k < j ==> store.records@[#[trigger] ids0[k] - 1].thumbnail
                    == spec_thumbnailable(
                    content_of(old(dirs).storage@[ids0[k] - 1].bytes@)->Some_0,
                    thumbnail_size,
                ),
        decreases ids0.len() - j,
    {
        let id = ids[j];
        let index = (id as usize) - 1;
        let img = match crate::picture::decode_image(&dirs.storage[index].bytes) {
            Some(img) => img,
            None => {
                proof {
                    assert(false);
                }
                return ;
            },
        };
        let ghost thumbs_before = dirs.thumbs@;
        match render_thumbnail(&img, thumbnail_size) {
            Some(thumb) => {
                let thumb_name = thumbnail_file_name(id);
                dirs.thumbs.push(StoredFile { name: thumb_name, bytes: thumb });
                store.write_thumbnail(id);
                proof {
                    assert(dirs.thumbs@.subrange(0, thumbs_before.len() as int)
                        =~= thumbs_before);
                    lemma_dir_has_extended(thumbs_before, dirs.thumbs@);
                    assert(old(dirs).thumbs@.is_prefix_of(dirs.thumbs@)) by {
                        assert(dirs.thumbs@.subrange(0, old(dirs).thumbs@.len() as int)
                            =~= old(dirs).thumbs@);
                    }
                    assert(dirs.thumbs@.last().name@ == spec_thumbnail_name(id));
                }
            },
            None => {},
        }
        proof {
            assert(ids0.take(j as int + 1).drop_last() =~= ids0.take(j as int));
            assert(ids0.take(j as int + 1).last() == ids0[j as int]);
        }
        j = j + 1;
    }
    proof {
        assert(ids0.take(ids0.len() as int) =~= ids0);
        if forall|i: int|
            0 <= i < old(store).records@.len() ==> (#[trigger] old(
                store,
            ).records@[i]).thumbnail {
            assert(ids0.len() == 0) by {
                if ids0.len() > 0 {
                    assert(!old(store).records@[ids0[0] - 1].thumbnail);
                }
            }
            assert(dirs.thumbs@ =~= old(dirs).thumbs@) by {
                assert(dirs.thumbs@.subrange(0, old(dirs).thumbs@.len() as int) =~= old(
                    dirs,
                ).thumbs@);
            }
        }
        assert forall|i: int|
            0 <= i < store.records@.len() && !(#[trigger] store.records@[i]).thumbnail
            implies !spec_thumbnailable(
            content_of(old(dirs).storage@[i].bytes@)->Some_0,
            thumbnail_size,
        ) by {
            assert(!old(store).records@[i].thumbnail);
            assert(ids0.contains((i + 1) as u32));
            let k = choose|k: int| 0 <= k < ids0.len() && ids0[k] == (i + 1) as u32;
            assert(store.records@[ids0[k] - 1].thumbnail == spec_thumbnailable(
                content_of(old(dirs).storage@[ids0[k] - 1].bytes@)->Some_0,
                thumbnail_size,
            ));
        }
    }
}

/// One full scheduled pass, as the process performs it on a timer: the
/// main ingestion sweep over the import directory, then exactly one
/// thumbnail backfill once every unit of the batch is terminal.
#[verifier::loop_isolation(false)]
pub fn process_images(
    dirs: &mut Directories,
    store: &mut MemoryStore,
    svc: &mut ServiceModel,
    pool: &mut crate::pool::WorkerPool,
    thumbnail_size: u32,
) -> (outcomes: Vec<UnitOutcome>)
    requires
        old(store).wf(),
        spec_storage_consistent(old(store).records@, old(dirs).storage@),
        spec_thumbs_backed(old(store).records@, old(dirs).thumbs@),
        old(store).records@.len() + old(dirs).import@.len() < 0x1_0000_0000,
        old(svc).calls + old(dirs).import@.len() <= 0xffff_ffff_ffff_ffff,
        old(pool).wf(),
        old(pool).active == 0,
    ensures
        outcomes@.len() == old(dirs).import@.len(),
        final(store).wf(),
        spec_storage_consistent(final(store).records@, final(dirs).storage@),
        spec_thumbs_backed(final(store).records@, final(dirs).thumbs@),
        final(svc).same_settings(*old(svc)),
        final(svc).calls <= old(svc).calls + old(dirs).import@.len(),
        // a video passthrough never submits anything to the service
        final(svc).calls <= old(svc).calls + outcomes@.len() - spec_count_video(outcomes@),
        final(pool).wf(),
        final(pool).active == 0,
        final(pool).limit == old(pool).limit,
        old(store).records@.len() <= final(store).records@.len(),
        // existing records keep their identity, fingerprint, rating and
        // tags; only a thumbnail flag may newly be set
        forall|i: int|
            0 <= i < old(store).records@.len() ==> #[trigger] final(store).records@[i]
                == (crate::store::ImageRecord {
                thumbnail: final(store).records@[i].thumbnail,
                ..old(store).records@[i]
            }),
        old(dirs).discard@.is_prefix_of(final(dirs).discard@),
        old(dirs).video@.is_prefix_of(final(dirs).video@),
        old(dirs).storage@.is_prefix_of(final(dirs).storage@),
        old(dirs).thumbs@.is_prefix_of(final(dirs).thumbs@),
        final(dirs).discard@.len() == old(dirs).discard@.len() + spec_count_discarded(
            outcomes@,
        ),
        forall|i: int|
            old(dirs).discard@.len() <= i < final(dirs).discard@.len() ==> !spec_dir_has(
                final(dirs).discard@.take(i),
                (#[trigger] final(dirs).discard@[i]).name@,
            ),
        final(dirs).video@.len() == old(dirs).video@.len() + spec_count_video(outcomes@),
        final(dirs).import@.len() == spec_count_left(outcomes@),
        forall|i: int|
            0 <= i < final(dirs).import@.len() ==> old(dirs).import@.contains(
                #[trigger] final(dirs).import@[i],
            ),
        forall|j: int|
            0 <= j < outcomes@.len() ==> (crate::triage::spec_is_video_name(
                (#[trigger] old(dirs).import@[j]).name@,
            ) <==> outcomes@[j] is Video),
        forall|j: int|
            0 <= j < outcomes@.len() && (#[trigger] outcomes@[j]) is Video
                ==> spec_video_arrival(
                old(dirs).import@[j],
                old(dirs).video@.len() as int,
                final(dirs).video@,
            ),
        forall|j: int|
            0 <= j < outcomes@.len() && !crate::triage::spec_is_video_name(
                (#[trigger] old(dirs).import@[j]).name@,
            ) ==> ((outcomes@[j] == UnitOutcome::Failed(FailureKind::DecodeFailure))
                <==> !spec_file_decodes(old(dirs).import@[j])),
        // the import directory ends up with exactly the transiently failed
        // entries, in order
        final(dirs).import@ == spec_left_files(old(dirs).import@, outcomes@),
        // one record per persisted unit; videos, duplicates and failures
        // before persist insert nothing
        final(store).records@.len() == old(store).records@.len() + spec_count_persisted(
            outcomes@,
        ),
        // with the service reachable, exactly one classification call per
        // persisted record and none for any other unit
        old(svc).reachable ==> final(svc).calls == old(svc).calls + spec_count_persisted(
            outcomes@,
        ),
        // with the service reachable, a decodable non-video entry whose
        // raster the encoders accept ends successfully, as an insert or as
        // an absorbed duplicate
        old(svc).reachable ==> forall|j: int|
            0 <= j < outcomes@.len() && !crate::triage::spec_is_video_name(
                (#[trigger] old(dirs).import@[j]).name@,
            ) && spec_file_decodes(old(dirs).import@[j]) && png_of(
                spec_file_content(old(dirs).import@[j]),
            ) is Some && spec_thumbnailable(
                spec_file_content(old(dirs).import@[j]),
                thumbnail_size,
            ) ==> (outcomes@[j] matches UnitOutcome::Success(_) || outcomes@[j]
                == UnitOutcome::Duplicate),
        !old(svc).reachable ==> final(store).records@.len() == old(store).records@.len(),
        !old(svc).reachable ==> forall|j: int|
            0 <= j < old(dirs).import@.len() && !crate::triage::spec_is_video_name(
                (#[trigger] old(dirs).import@[j]).name@,
            ) && spec_fresh_image(old(dirs).import@[j], *old(store))
                ==> final(dirs).import@.contains(old(dirs).import@[j]),
        // thumbnail completeness: after the sweep and its backfill, a
        // record still lacking a thumbnail is one whose stored content the
        // thumbnail encoder itself refuses
        forall|i: int|
            0 <= i < final(store).records@.len() && !(#[trigger] final(store).records@[i]).thumbnail ==> !spec_thumbnailable(
                content_of(final(dirs).storage@[i].bytes@)->Some_0,
                thumbnail_size,
            ),
{
    let outcomes = run_cycle(dirs, store, svc, pool, thumbnail_size);
    thumbnail_backfill(dirs, store, thumbnail_size);
    outcomes
}

/// A name present in a directory is still present after files are added.
proof fn lemma_dir_has_extended(before: Seq<StoredFile>, after: Seq<StoredFile>)
    requires
        before.is_prefix_of(after),
    ensures
        forall|name: Seq<char>|
            spec_dir_has(before, name) ==> #[trigger] spec_dir_has(after, name),
{
    assert forall|name: Seq<char>| spec_dir_has(before, name) implies #[trigger] spec_dir_has(
        after,
        name,
    ) by {
        let i = choose|i: int| 0 <= i < before.len() && (#[trigger] before[i]).name@ == name;
        assert(after.subrange(0, before.len() as int)[i] == after[i]);
        assert(after[i].name@ == name);
    }
}

} // verus!
