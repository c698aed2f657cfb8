use vstd::prelude::*;

use crate::text::concat2;
use crate::text::concat3;
use crate::text::spec_dec_digits;
use crate::text::u32_to_dec;

verus! {

/// Relies on uuid::Uuid::new_v4, rendered in its canonical hyphenated form:
/// 36 ASCII characters of lowercase hex and hyphens.  Nothing is assumed
/// about which identifier comes back, only its length.
#[verifier::external_body]
pub(crate) fn new_uuid() -> (s: String)
    ensures
        s@.len() == 36,
{
    uuid::Uuid::new_v4().to_string()
}

/// File name of a persisted image inside the storage root.
pub open spec fn spec_storage_name(id: u32) -> Seq<char> {
    spec_dec_digits(id as int) + ".png"@
}

/// File name of a thumbnail inside the thumbnail root.
pub open spec fn spec_thumbnail_name(id: u32) -> Seq<char> {
    spec_dec_digits(id as int) + "_thumbnail.jpg"@
}

/// The storage file name `{id}.png`.
pub fn storage_file_name(id: u32) -> (name: String)
    ensures
        name@ == spec_storage_name(id),
{
    let digits = u32_to_dec(id);
    concat2(digits.as_str(), ".png")
}

/// The thumbnail file name `{id}_thumbnail.jpg`.
pub fn thumbnail_file_name(id: u32) -> (name: String)
    ensures
        name@ == spec_thumbnail_name(id),
{
    let digits = u32_to_dec(id);
    concat2(digits.as_str(), "_thumbnail.jpg")
}

/// A root joined with a file name.
pub open spec fn spec_joined(root: Seq<char>, name: Seq<char>) -> Seq<char> {
    root + "/"@ + name
}

/// Joins a configured root directory with a file name.
pub fn join_root(root: &str, name: &str) -> (path: String)
    ensures
        path@ == spec_joined(root@, name@),
{
    concat3(root, "/", name)
}

/// Location of a persisted image: `{storageRoot}/{id}.png`.
pub fn to_storage(root: &str, id: u32) -> (path: String)
    ensures
        path@ == spec_joined(root@, spec_storage_name(id)),
{
    let name = storage_file_name(id);
    join_root(root, name.as_str())
}

/// Location of a thumbnail: `{thumbnailRoot}/{id}_thumbnail.jpg`.
pub fn to_storage_thumbnail(root: &str, id: u32) -> (path: String)
    ensures
        path@ == spec_joined(root@, spec_thumbnail_name(id)),
{
    let name = thumbnail_file_name(id);
    join_root(root, name.as_str())
}

/// A path of the discard root: some 36-character random stem with the
/// `.png` extension.
pub open spec fn spec_is_discard_path(root: Seq<char>, path: Seq<char>) -> bool {
    exists|stem: Seq<char>|
        stem.len() == 36 && path == spec_joined(root, stem + ".png"@)
}

/// Location for a discarded file: `{discardRoot}/{random-id}.png`, the stem
/// freshly drawn so that an existing discarded file is not overwritten.
pub fn to_discarded(root: &str) -> (path: String)
    ensures
        spec_is_discard_path(root@, path@),
{
    let stem = new_uuid();
    let name = concat2(stem.as_str(), ".png");
    let path = join_root(root, name.as_str());
    proof {
        assert(stem@.len() == 36 && path@ == spec_joined(root@, stem@ + ".png"@));
    }
    path
}

/// A path of the video root: some 36-character random stem with the
/// original extension preserved.
pub open spec fn spec_is_video_path(root: Seq<char>, extension: Seq<char>, path: Seq<char>)
    -> bool {
    exists|stem: Seq<char>|
        stem.len() == 36 && path == spec_joined(root, stem + "."@ + extension)
}

/// Location for a relocated video: `{videoRoot}/{random-id}.{extension}`.
pub fn to_video(root: &str, extension: &str) -> (path: String)
    ensures
        spec_is_video_path(root@, extension@, path@),
{
    let stem = new_uuid();
    let name = concat3(stem.as_str(), ".", extension);
    let path = join_root(root, name.as_str());
    proof {
        assert(stem@.len() == 36 && path@ == spec_joined(root@, stem@ + "."@ + extension@));
    }
    path
}

} // verus!
