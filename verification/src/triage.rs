use vstd::prelude::*;
use vstd::string::StrSliceExecFns;

verus! {

/// The fixed set of extensions routed to the video passthrough.
pub open spec fn spec_video_extensions() -> Seq<Seq<char>> {
    seq!["webm"@, "mov"@, "mp4"@, "flv"@, "avi"@]
}

/// Whether a file name carries this extension: it ends with a dot followed
/// by the extension, with at least one character of stem before the dot.
pub open spec fn spec_has_extension(name: Seq<char>, ext: Seq<char>) -> bool {
    &&& name.len() >= ext.len() + 2
    &&& name.subrange(name.len() - ext.len(), name.len() as int) == ext
    &&& name[name.len() - ext.len() - 1] == '.'
}

/// Whether a file name is routed to the video passthrough; anything else
/// is treated as a still image.
pub open spec fn spec_is_video_name(name: Seq<char>) -> bool {
    exists|i: int|
        0 <= i < spec_video_extensions().len()
            && spec_has_extension(name, spec_video_extensions()[i])
}

/// Whether `name` ends in a dot followed by `ext`, with a nonempty stem.
#[verifier::loop_isolation(false)]
fn has_extension(name: &str, ext: &str) -> (r: bool)
    ensures
        r == spec_has_extension(name@, ext@),
{
    let n = name.unicode_len();
    let m = ext.unicode_len();
    if n < 2 || n - 2 < m {
        return false;
    }
    if name.get_char(n - m - 1) != '.' {
        return false;
    }
    let mut k: usize = 0;
    while k < m
        invariant
            k <= m,
            forall|j: int| 0 <= j < k ==> name@[n - m + j] == ext@[j],
        decreases m - k,
    {
        if name.get_char(n - m + k) != ext.get_char(k) {
            return false;
        }
        k = k + 1;
    }
    proof {
        assert(name@.subrange(n - m, n as int) =~= ext@);
    }
    true
}

/// Extension triage of the scheduler: `Some` of the preserved extension
/// for the fixed video set, `None` for everything else.
pub fn video_extension(name: &str) -> (r: Option<&'static str>)
    ensures
        r is Some <==> spec_is_video_name(name@),
        r matches Some(e) ==> spec_has_extension(name@, e@) && spec_video_extensions().contains(
            e@,
        ),
{
    proof {
        assert(spec_video_extensions()[0] == "webm"@);
        assert(spec_video_extensions()[1] == "mov"@);
        assert(spec_video_extensions()[2] == "mp4"@);
        assert(spec_video_extensions()[3] == "flv"@);
        assert(spec_video_extensions()[4] == "avi"@);
    }
    if has_extension(name, "webm") {
        Some("webm")
    } else if has_extension(name, "mov") {
        Some("mov")
    } else if has_extension(name, "mp4") {
        Some("mp4")
    } else if has_extension(name, "flv") {
        Some("flv")
    } else if has_extension(name, "avi") {
        Some("avi")
    } else {
        proof {
            assert forall|i: int| 0 <= i < spec_video_extensions().len()
                implies !spec_has_extension(name@, spec_video_extensions()[i]) by {
                if i == 0 {
                } else if i == 1 {
                } else if i == 2 {
                } else if i == 3 {
                } else {
                    assert(spec_video_extensions()[i] == "avi"@);
                }
            }
        }
        None
    }
}

} // verus!
