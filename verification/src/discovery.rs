//! Which files of a folder are videos: the rule on file extensions.

use vstd::prelude::*;
use vstd::string::*;

verus! {

/// Whether `extension` is one of `mp4`, `mkv`, `avi` and `mov`, letter for
/// letter: an upper-case letter makes another extension.
pub open spec fn video_extension(extension: Seq<char>) -> bool {
    ||| extension == seq!['m', 'p', '4']
    ||| extension == seq!['m', 'k', 'v']
    ||| extension == seq!['a', 'v', 'i']
    ||| extension == seq!['m', 'o', 'v']
}

/// Whether a file with this extension is a candidate video.
pub fn is_video_extension(extension: &str) -> (video: bool)
    ensures
        video == video_extension(extension@),
{
    proof {
        reveal_strlit("mp4");
        reveal_strlit("mkv");
        reveal_strlit("avi");
        reveal_strlit("mov");
        assert("mp4"@ =~= seq!['m', 'p', '4']);
        assert("mkv"@ =~= seq!['m', 'k', 'v']);
        assert("avi"@ =~= seq!['a', 'v', 'i']);
        assert("mov"@ =~= seq!['m', 'o', 'v']);
    }
    let given = String::from_str(extension);
    given == String::from_str("mp4") || given == String::from_str("mkv") || given
        == String::from_str("avi") || given == String::from_str("mov")
}

} // verus!
