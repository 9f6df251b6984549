//! VLC: resolving a YouTube page to a stream, its command line, and the
//! reading of its error output.
use vstd::prelude::*;
use crate::text::{chars_of, contains, first_line, first_line_of, owned, str_contains, string_of};

verus! {

/// A YouTube page, which VLC is given as the stream yt-dlp resolves it to.
pub open spec fn is_youtube(url: Seq<char>) -> bool {
    contains(url, "youtube.com"@) || contains(url, "youtu.be"@)
}

pub fn needs_resolution(url: &str) -> (r: bool)
    ensures
        r == is_youtube(url@),
{
    str_contains(url, "youtube.com") || str_contains(url, "youtu.be")
}

/// The yt-dlp arguments that resolve a page to its best stream.
pub fn resolve_args(url: &str) -> (r: Vec<String>)
    ensures
        r@.len() == 4,
        r@[0]@ == "-g"@,
        r@[1]@ == "-f"@,
        r@[2]@ == "best"@,
        r@[3]@ == url@,
{
    vec![owned("-g"), owned("-f"), owned("best"), owned(url)]
}

/// The URL VLC plays: the first line yt-dlp printed when it succeeded and
/// printed one, the page itself otherwise.
pub fn resolved_url(url: &str, success: bool, stdout: &str) -> (r: String)
    ensures
        success && first_line(stdout@) is Some ==> r@ == first_line(stdout@)->0,
        !(success && first_line(stdout@) is Some) ==> r@ == url@,
{
    if success {
        let v = chars_of(stdout);
        if let Some(l) = first_line_of(&v) {
            return string_of(&l);
        }
    }
    owned(url)
}

/// VLC's arguments: exit at the end, no title overlay, then the URL.
pub fn vlc_args(url: &str) -> (r: Vec<String>)
    ensures
        r@.len() == 3,
        r@[0]@ == "--play-and-exit"@,
        r@[1]@ == "--no-video-title-show"@,
        r@[2]@ == url@,
{
    vec![owned("--play-and-exit"), owned("--no-video-title-show"), owned(url)]
}

/// A line of VLC's stderr that reports a failure.
pub fn is_failure_line(line: &str) -> (r: bool)
    ensures
        r == (contains(line@, "ERROR"@) || contains(line@, "failed"@)),
{
    str_contains(line, "ERROR") || str_contains(line, "failed")
}

} // verus!
