use tag_manager::image_path::storage_file_name;
use tag_manager::image_path::thumbnail_file_name;
use tag_manager::image_path::to_discarded;
use tag_manager::image_path::to_storage;
use tag_manager::image_path::to_storage_thumbnail;
use tag_manager::image_path::to_video;

#[test]
fn storage_paths_are_content_addressed() {
    assert_eq!(to_storage("/images/storage", 7), "/images/storage/7.png");
    assert_eq!(to_storage("/images/storage", 1234), "/images/storage/1234.png");
    assert_eq!(storage_file_name(1), "1.png");
}

#[test]
fn thumbnail_paths_carry_the_suffix() {
    assert_eq!(
        to_storage_thumbnail("/images/storage", 7),
        "/images/storage/7_thumbnail.jpg"
    );
    assert_eq!(thumbnail_file_name(9), "9_thumbnail.jpg");
}

#[test]
fn discard_paths_use_a_fresh_stem() {
    let path = to_discarded("/images/discard");
    assert!(path.starts_with("/images/discard/"));
    assert!(path.ends_with(".png"));
    // root + '/' + 36-character stem + extension
    assert_eq!(path.len(), "/images/discard/".len() + 36 + ".png".len());
    // two draws collide with astronomically small probability
    assert_ne!(path, to_discarded("/images/discard"));
}

#[test]
fn video_paths_keep_the_extension() {
    let path = to_video("/images/videos", "avi");
    assert!(path.starts_with("/images/videos/"));
    assert!(path.ends_with(".avi"));
    assert_eq!(path.len(), "/images/videos/".len() + 36 + ".avi".len());
}
