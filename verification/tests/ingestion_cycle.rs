use tag_manager::cycle::Directories;
use tag_manager::cycle::ImportFile;
use tag_manager::cycle::ServiceModel;
use tag_manager::cycle::UnitOutcome;
use tag_manager::cycle::process_images;
use tag_manager::cycle::run_cycle;
use tag_manager::cycle::thumbnail_backfill;
use tag_manager::errors::FailureKind;
use tag_manager::picture::decode_and_fingerprint;
use tag_manager::pool::WorkerPool;
use tag_manager::rating::Rating;
use tag_manager::store::MemoryStore;

/// An 8-by-8 picture whose first `white_pixels` samples are white: each
/// count gives a distinct perceptual fingerprint.
fn raster(white_pixels: u32) -> image::DynamicImage {
    let mut img = image::RgbImage::new(8, 8);
    for (index, pixel) in img.pixels_mut().enumerate() {
        let value = if (index as u32) < white_pixels { 255 } else { 0 };
        *pixel = image::Rgb([value, value, value]);
    }
    image::DynamicImage::ImageRgb8(img)
}

fn encoded(white_pixels: u32, format: image::ImageOutputFormat) -> Vec<u8> {
    let mut buffer = Vec::new();
    raster(white_pixels)
        .write_to(&mut std::io::Cursor::new(&mut buffer), format)
        .unwrap();
    buffer
}

fn png_bytes(white_pixels: u32) -> Vec<u8> {
    encoded(white_pixels, image::ImageOutputFormat::Png)
}

fn bmp_bytes(white_pixels: u32) -> Vec<u8> {
    encoded(white_pixels, image::ImageOutputFormat::Bmp)
}

fn file(name: &str, bytes: Vec<u8>) -> ImportFile {
    ImportFile { name: name.to_string(), bytes }
}

fn empty_dirs(import: Vec<ImportFile>) -> Directories {
    Directories { import, discard: Vec::new(), video: Vec::new(), storage: Vec::new(), thumbs: Vec::new() }
}

fn service(reachable: bool) -> ServiceModel {
    ServiceModel::new(
        reachable,
        Rating::General,
        vec!["alice".to_string()],
        vec!["park".to_string()],
    )
}

#[test]
fn decoding_is_not_the_identity_on_the_bytes() {
    let bytes = bmp_bytes(16);
    assert!(decode_and_fingerprint(&bytes).is_some());
    // the raster is a decoded picture, not the input bytes: relocation
    // re-encodes it, so the stored body differs from the BMP source
    let mut dirs = empty_dirs(vec![file("a.bmp", bytes.clone())]);
    let mut store = MemoryStore::new();
    let mut svc = service(true);
    let mut pool = WorkerPool::new(12);
    let outcomes = run_cycle(&mut dirs, &mut store, &mut svc, &mut pool, 32);
    assert_eq!(outcomes, vec![UnitOutcome::Success(1)]);
    assert_ne!(dirs.storage[0].bytes, bytes);
}

#[test]
fn garbage_bytes_do_not_decode() {
    let bytes = b"not an image at all".to_vec();
    assert!(decode_and_fingerprint(&bytes).is_none());
}

#[test]
fn pixel_identical_files_share_a_fingerprint() {
    let png = png_bytes(32);
    let bmp = bmp_bytes(32);
    assert_ne!(png, bmp);
    let (_, fp_png) = decode_and_fingerprint(&png).unwrap();
    let (_, fp_bmp) = decode_and_fingerprint(&bmp).unwrap();
    assert_eq!(fp_png, fp_bmp);
}

#[test]
fn duplicate_content_is_absorbed_with_one_classification_call() {
    // two byte-different files that decode to the same picture
    let a = file("a.png", png_bytes(32));
    let b = file("b.png", bmp_bytes(32));
    let mut dirs = empty_dirs(vec![a, b]);
    let mut store = MemoryStore::new();
    let mut svc = service(true);
    let mut pool = WorkerPool::new(12);
    let outcomes = process_images(&mut dirs, &mut store, &mut svc, &mut pool, 32);
    assert_eq!(outcomes.len(), 2);
    assert!(matches!(outcomes[0], UnitOutcome::Success(1)));
    assert_eq!(outcomes[1], UnitOutcome::Duplicate);
    // one record, one classification call, both source files gone
    assert_eq!(store.records.len(), 1);
    assert_eq!(svc.calls, 1);
    assert!(dirs.import.is_empty());
    assert_eq!(dirs.storage.len(), 1);
    assert_eq!(dirs.storage[0].name, "1.png");
    assert_eq!(store.records[0].rating, Rating::General);
    assert_eq!(store.records[0].character_tags, vec!["alice".to_string()]);
    assert_eq!(store.records[0].general_tags, vec!["park".to_string()]);
}

#[test]
fn one_corrupt_file_is_isolated_from_the_batch() {
    let good_one = file("one.png", png_bytes(8));
    let bad = file("two.png", b"corrupt bytes".to_vec());
    let good_two = file("three.png", png_bytes(48));
    let mut dirs = empty_dirs(vec![good_one, bad, good_two]);
    let mut store = MemoryStore::new();
    let mut svc = service(true);
    let mut pool = WorkerPool::new(12);
    let outcomes = process_images(&mut dirs, &mut store, &mut svc, &mut pool, 32);
    assert_eq!(outcomes.len(), 3);
    assert!(matches!(outcomes[0], UnitOutcome::Success(_)));
    assert_eq!(outcomes[1], UnitOutcome::Failed(FailureKind::DecodeFailure));
    assert!(matches!(outcomes[2], UnitOutcome::Success(_)));
    // exactly one file in the discard root, under a fresh .png name
    assert_eq!(dirs.discard.len(), 1);
    assert!(dirs.discard[0].name.ends_with(".png"));
    assert_eq!(dirs.discard[0].bytes, b"corrupt bytes".to_vec());
    assert_eq!(store.records.len(), 2);
    assert!(dirs.import.is_empty());
}

#[test]
fn an_unreachable_service_destroys_nothing() {
    let source = png_bytes(24);
    let fresh = file("fresh.png", source.clone());
    let mut dirs = empty_dirs(vec![fresh]);
    let mut store = MemoryStore::new();
    let mut svc = service(false);
    let mut pool = WorkerPool::new(12);
    let outcomes = process_images(&mut dirs, &mut store, &mut svc, &mut pool, 32);
    assert_eq!(
        outcomes,
        vec![UnitOutcome::Failed(FailureKind::ClassificationServiceError)]
    );
    // the file stays in the import directory, byte-identical
    assert_eq!(dirs.import.len(), 1);
    assert_eq!(dirs.import[0].name, "fresh.png");
    assert_eq!(dirs.import[0].bytes, source);
    // no record was created, nothing was discarded
    assert!(store.records.is_empty());
    assert!(dirs.discard.is_empty());
    assert!(dirs.storage.is_empty());
}

#[test]
fn videos_pass_through_without_a_decode_attempt() {
    let body = b"fake video payload".to_vec();
    let clip = file("c.avi", body.clone());
    let mut dirs = empty_dirs(vec![clip]);
    let mut store = MemoryStore::new();
    let mut svc = service(true);
    let mut pool = WorkerPool::new(12);
    let outcomes = process_images(&mut dirs, &mut store, &mut svc, &mut pool, 32);
    assert_eq!(outcomes, vec![UnitOutcome::Video]);
    // no classification call, no record, import entry removed
    assert_eq!(svc.calls, 0);
    assert!(store.records.is_empty());
    assert!(dirs.import.is_empty());
    // the body reappears verbatim under {random-id}.avi
    assert_eq!(dirs.video.len(), 1);
    assert_eq!(dirs.video[0].bytes, body);
    assert!(dirs.video[0].name.ends_with(".avi"));
    assert_eq!(dirs.video[0].name.len(), 36 + ".avi".len());
}

#[test]
fn extension_triage_knows_the_video_set() {
    for name in ["a.webm", "b.mov", "c.mp4", "d.flv", "e.avi", "x.y.mp4"] {
        assert!(
            tag_manager::triage::video_extension(name).is_some(),
            "{name} should be a video"
        );
    }
    for name in ["a.png", "movie.txt", "avi", ".avi", "a.mp40", "noext"] {
        assert!(
            tag_manager::triage::video_extension(name).is_none(),
            "{name} should not be a video"
        );
    }
}

#[test]
fn the_backfill_completes_missing_thumbnails() {
    let source = file("a.png", png_bytes(40));
    let mut dirs = empty_dirs(vec![source]);
    let mut store = MemoryStore::new();
    let mut svc = service(true);
    let mut pool = WorkerPool::new(12);
    let outcomes = run_cycle(&mut dirs, &mut store, &mut svc, &mut pool, 32);
    assert!(matches!(outcomes[0], UnitOutcome::Success(_)));
    // simulate an older record whose thumbnail was never produced
    store.records[0].thumbnail = false;
    dirs.thumbs.clear();
    thumbnail_backfill(&mut dirs, &mut store, 32);
    assert!(store.records[0].thumbnail);
    assert_eq!(dirs.thumbs.len(), 1);
    assert_eq!(dirs.thumbs[0].name, "1_thumbnail.jpg");
    // running it again changes nothing more
    thumbnail_backfill(&mut dirs, &mut store, 32);
    assert_eq!(dirs.thumbs.len(), 1);
}

#[test]
fn a_full_cycle_leaves_every_record_thumbnailed() {
    let files = vec![
        file("a.png", png_bytes(12)),
        file("b.png", png_bytes(28)),
        file("c.png", png_bytes(44)),
    ];
    let mut dirs = empty_dirs(files);
    let mut store = MemoryStore::new();
    let mut svc = service(true);
    let mut pool = WorkerPool::new(2);
    let _ = process_images(&mut dirs, &mut store, &mut svc, &mut pool, 16);
    assert_eq!(store.records.len(), 3);
    for record in &store.records {
        assert!(record.thumbnail);
        let expected = format!("{}_thumbnail.jpg", record.id);
        assert!(dirs.thumbs.iter().any(|f| f.name == expected));
        let body = format!("{}.png", record.id);
        assert!(dirs.storage.iter().any(|f| f.name == body));
    }
    assert!(store.get_non_thumbnailed_images().is_empty());
}

#[test]
fn discard_names_never_collide() {
    let mut dirs = empty_dirs(vec![
        file("bad1.png", b"junk one".to_vec()),
        file("bad2.png", b"junk two".to_vec()),
        file("bad3.png", b"junk three".to_vec()),
    ]);
    let mut store = MemoryStore::new();
    let mut svc = service(true);
    let mut pool = WorkerPool::new(12);
    let _ = process_images(&mut dirs, &mut store, &mut svc, &mut pool, 32);
    assert_eq!(dirs.discard.len(), 3);
    assert_ne!(dirs.discard[0].name, dirs.discard[1].name);
    assert_ne!(dirs.discard[0].name, dirs.discard[2].name);
    assert_ne!(dirs.discard[1].name, dirs.discard[2].name);
}

#[test]
fn a_duplicate_is_deleted_without_a_persistence_call() {
    let bytes = png_bytes(20);
    let mut dirs = empty_dirs(vec![file("first.png", bytes.clone())]);
    let mut store = MemoryStore::new();
    let mut svc = service(true);
    let mut pool = WorkerPool::new(12);
    let _ = process_images(&mut dirs, &mut store, &mut svc, &mut pool, 32);
    assert_eq!(store.records.len(), 1);
    assert_eq!(svc.calls, 1);
    // the next cycle sees the same content again
    dirs.import.push(file("second.png", bytes));
    let outcomes = process_images(&mut dirs, &mut store, &mut svc, &mut pool, 32);
    assert_eq!(outcomes, vec![UnitOutcome::Duplicate]);
    // still one record, no further classification call, source gone
    assert_eq!(store.records.len(), 1);
    assert_eq!(svc.calls, 1);
    assert!(dirs.import.is_empty());
    assert!(dirs.discard.is_empty());
}

#[test]
fn videos_relocate_even_when_the_service_is_down() {
    let clip = file("c.mp4", b"clip body".to_vec());
    let fresh = file("fresh.png", png_bytes(20));
    let mut dirs = empty_dirs(vec![clip, fresh]);
    let mut store = MemoryStore::new();
    let mut svc = service(false);
    let mut pool = WorkerPool::new(12);
    let outcomes = process_images(&mut dirs, &mut store, &mut svc, &mut pool, 32);
    assert_eq!(
        outcomes,
        vec![
            UnitOutcome::Video,
            UnitOutcome::Failed(FailureKind::ClassificationServiceError),
        ]
    );
    // the video moved without any service involvement; only the image
    // unit attempted a classification call
    assert_eq!(dirs.video.len(), 1);
    assert!(dirs.video[0].name.ends_with(".mp4"));
    assert_eq!(svc.calls, 1);
    assert!(store.records.is_empty());
    // exactly the transiently failed image stays behind
    assert_eq!(dirs.import.len(), 1);
    assert_eq!(dirs.import[0].name, "fresh.png");
}
