//! Downloads with yt-dlp: the command line, the reading of its progress
//! lines, and the events a download reports. The process runs in the
//! application.
use vstd::prelude::*;
use crate::text::{
    is_ws, lemma_find_is, lemma_find_none, occurs_at, first_at, trim_start, until_ws,
    chars_of, concat, contains, find, find_in, first_word, first_word_of, join, join_path,
    join_with, owned, rfind, rfind_char, slice_of, starts_with, starts_with_chars, str_contains,
    string_of, strip_leading, strip_leading_chars, trim, trim_chars,
};
use crate::api::ytdlp::watch_page;

verus! {

pub enum DownloadProgress {
    Starting { title: String },
    Downloading { title: String, percent: u8, speed: String, eta: String },
    Completed { title: String, path: String },
    Failed { error: String },
}

pub struct Downloader;

/// The pieces of a `[download]` progress line: the text of the percentage
/// (the word just before the `%`), the speed and the time left.
pub struct ProgressFields {
    pub percent_text: Option<String>,
    pub speed: String,
    pub eta: String,
}

/// The text of the percentage: the part of the line before the first `%`
/// that follows its last space there, trimmed; none when the line has no
/// `%` or no space before it.
pub open spec fn percent_text_of(line: Seq<char>) -> Option<Seq<char>> {
    match find(line, seq!['%']) {
        Some(idx) => {
            let pre = line.take(idx);
            match rfind(pre, ' ') {
                Some(j) => Some(trim(pre.skip(j + 1))),
                None => None,
            }
        },
        None => None,
    }
}

/// The speed: what follows the first `" at "`, up to `" ETA"` (trimmed),
/// or its first word when no `" ETA"` follows; empty without `" at "`.
pub open spec fn speed_of(line: Seq<char>) -> Seq<char> {
    match find(line, " at "@) {
        Some(idx) => {
            let after = line.skip(idx + 4);
            match find(after, " ETA"@) {
                Some(end) => trim(after.take(end)),
                None => first_word(after),
            }
        },
        None => Seq::empty(),
    }
}

/// The time left: the first word after the first `"ETA "`, or empty.
pub open spec fn eta_of(line: Seq<char>) -> Seq<char> {
    match find(line, "ETA "@) {
        Some(idx) => first_word(line.skip(idx + 4)),
        None => Seq::empty(),
    }
}

proof fn lemma_until_ws_word(word: Seq<char>, rest: Seq<char>)
    requires
        forall|i: int| 0 <= i < word.len() ==> !is_ws(#[trigger] word[i]),
        rest.len() == 0 || is_ws(rest[0]),
    ensures
        until_ws(word + rest) == word,
    decreases word.len(),
{
    if word.len() == 0 {
        assert(word + rest =~= rest);
    } else {
        assert((word + rest).drop_first() =~= word.drop_first() + rest);
        assert forall|i: int| 0 <= i < word.drop_first().len() implies !is_ws(#[trigger] word.drop_first()[i]) by {
            assert(word.drop_first()[i] == word[i + 1]);
        }
        lemma_until_ws_word(word.drop_first(), rest);
        assert(seq![word[0]] + word.drop_first() =~= word);
    }
}

/// The speed of a progress line with no `" ETA"` after its `" at "` (such
/// as the last line of a download, `... in 00:00:02 at 1.47MiB/s`) is the
/// word that follows `" at "`: for a line `pre + " at " + word + rest`
/// whose first `" at "` is the one after `pre`, where `word` is a
/// non-empty run of non-blank characters ended by a blank or the end of
/// the line, the speed is `word`.
pub proof fn law_speed_is_the_word_after_at(pre: Seq<char>, word: Seq<char>, rest: Seq<char>)
    requires
        !contains(pre + " at"@, " at "@),
        word.len() > 0,
        forall|i: int| 0 <= i < word.len() ==> !is_ws(#[trigger] word[i]),
        rest.len() == 0 || is_ws(rest[0]),
        !contains(word + rest, " ETA"@),
    ensures
        speed_of(pre + " at "@ + word + rest) == word,
{
    reveal_strlit(" at ");
    reveal_strlit(" at");
    let line = pre + " at "@ + word + rest;
    let k = pre.len() as int;
    assert(line.subrange(k, k + 4) =~= " at "@);
    assert forall|j: int| 0 <= j < k implies !occurs_at(line, " at "@, j) by {
        if occurs_at(line, " at "@, j) {
            assert((pre + " at"@).subrange(j, j + 4) =~= line.subrange(j, j + 4));
            assert(occurs_at(pre + " at"@, " at "@, j));
        }
    }
    assert(first_at(line, " at "@, k));
    lemma_find_is(line, " at "@, k);
    let after = line.skip(k + 4);
    assert(after =~= word + rest);
    lemma_find_none(after, " ETA"@);
    assert(trim_start(after) == after);
    lemma_until_ws_word(word, rest);
}

/// Reads a progress line such as
/// `[download]  12.3% of 1.24MiB at 2.93MiB/s ETA 00:10`.
pub fn parse_progress(line: &str) -> (r: ProgressFields)
    ensures
        match percent_text_of(line@) {
            Some(t) => r.percent_text matches Some(p) && p@ == t,
            None => r.percent_text is None,
        },
        r.speed@ == speed_of(line@),
        r.eta@ == eta_of(line@),
{
    let v = chars_of(line);
    let pct: Vec<char> = vec!['%'];
    assert(pct@ =~= seq!['%']);
    let percent_text = match find_in(&v, &pct) {
        Some(idx) => {
            let pre = slice_of(&v, 0, idx);
            assert(pre@ =~= v@.take(idx as int));
            match rfind_char(&pre, ' ') {
                Some(j) => {
                    let num = slice_of(&pre, j + 1, pre.len());
                    assert(num@ =~= pre@.skip(j + 1));
                    let t = trim_chars(&num);
                    Some(string_of(&t))
                },
                None => None,
            }
        },
        None => None,
    };
    let at = chars_of(" at ");
    let eta_mark = chars_of(" ETA");
    let speed = match find_in(&v, &at) {
        Some(idx) => {
            proof {
                reveal_strlit(" at ");
            }
            assert(idx + 4 <= v@.len());
            assert(v@.len() == v.len());
            let after = slice_of(&v, idx + 4, v.len());
            assert(after@ =~= v@.skip(idx + 4));
            match find_in(&after, &eta_mark) {
                Some(end) => {
                    let a = slice_of(&after, 0, end);
                    assert(a@ =~= after@.take(end as int));
                    trim_chars(&a)
                },
                None => first_word_of(&after),
            }
        },
        None => Vec::new(),
    };
    let eta_start = chars_of("ETA ");
    let eta = match find_in(&v, &eta_start) {
        Some(idx) => {
            proof {
                reveal_strlit("ETA ");
            }
            assert(idx + 4 <= v@.len());
            assert(v@.len() == v.len());
            let after = slice_of(&v, idx + 4, v.len());
            assert(after@ =~= v@.skip(idx + 4));
            first_word_of(&after)
        },
        None => Vec::new(),
    };
    ProgressFields { percent_text, speed: string_of(&speed), eta: string_of(&eta) }
}

/// The file name without its directory and extension (`Path::file_stem`).
pub uninterp spec fn path_file_stem(path: Seq<char>) -> Option<Seq<char>>;

/// Calls `Path::file_stem` (and reads the stem as text); its answer
/// depends on the path alone and is named `path_file_stem`.
#[verifier::external_body]
fn file_stem(path: &str) -> (r: Option<String>)
    ensures
        match path_file_stem(path@) {
            Some(s) => r matches Some(x) && x@ == s,
            None => r is None,
        },
{
    std::path::Path::new(path).file_stem().and_then(|s| s.to_str()).map(|s| s.to_string())
}

/// The line that names the file being written.
pub open spec fn is_destination_line(line: Seq<char>) -> bool {
    starts_with(line, "[download] Destination:"@)
}

/// The path a destination line names.
pub open spec fn destination_of(line: Seq<char>) -> Seq<char> {
    trim(strip_leading(line, "[download] Destination:"@))
}

/// A progress line: a `[download]` line with a `%` in it.
pub open spec fn is_progress_line(line: Seq<char>) -> bool {
    starts_with(line, "[download]"@) && contains(line, "%"@)
}

/// A destination line whose path has a file stem.
pub open spec fn names_a_file(line: Seq<char>) -> bool {
    is_destination_line(line) && path_file_stem(destination_of(line)) is Some
}

/// Over a whole run, a download is reported under the file stem of the
/// latest destination line that names a file, and under the video id
/// until one does: what `on_line` reports and `finish` completes with,
/// for a tracker made by `new`.
pub proof fn law_download_title_is_latest_destination(video_id: Seq<char>, lines: Seq<Seq<char>>)
    ensures
        (forall|k: int| 0 <= k < lines.len() ==> !names_a_file(#[trigger] lines[k])) ==> tracked_title(
            video_id,
            lines,
        ) == video_id,
        forall|k: int|
            0 <= k < lines.len() && names_a_file(#[trigger] lines[k]) && (forall|m: int|
                k < m < lines.len() ==> !names_a_file(#[trigger] lines[m])) ==> tracked_title(video_id, lines)
                == path_file_stem(destination_of(lines[k]))->0,
    decreases lines.len(),
{
    if lines.len() > 0 {
        let pre = lines.drop_last();
        law_download_title_is_latest_destination(video_id, pre);
        assert forall|k: int| 0 <= k < pre.len() implies #[trigger] pre[k] == lines[k] by {}
        assert forall|k: int|
            0 <= k < lines.len() && names_a_file(#[trigger] lines[k]) && (forall|m: int|
                k < m < lines.len() ==> !names_a_file(#[trigger] lines[m])) implies tracked_title(
                video_id,
                lines,
            ) == path_file_stem(destination_of(lines[k]))->0 by {
            if k < lines.len() - 1 {
                assert(!names_a_file(lines[lines.len() - 1]));
                assert(pre[k] == lines[k]);
                assert forall|m: int| k < m < pre.len() implies !names_a_file(#[trigger] pre[m]) by {
                    assert(pre[m] == lines[m]);
                }
            }
        }
    }
}

/// How a finished yt-dlp run ended, as the application saw it.
pub enum DownloadExit {
    /// The process exited with success.
    Success,
    /// The process exited with failure; the exit status as text, and the
    /// lines it wrote to stderr.
    Failure { status: String, stderr_lines: Vec<String> },
    /// Waiting for the process failed, with this error text.
    WaitFailed { error: String },
    /// The process could not be started, with this error text.
    SpawnFailed { error: String },
}

/// The events of one download, in the order they are sent: `starting`
/// once, before anything else; then a report for each progress line that
/// `on_line` reads; then exactly one final message from `finish`, which
/// takes the tracker.
pub struct DownloadTracker {
    pub video_id: String,
    pub output_template: String,
    pub title: String,
    /// The starting event was sent.
    pub started: bool,
    /// The lines of yt-dlp's output read so far.
    pub lines_seen: Ghost<Seq<Seq<char>>>,
}

/// The title of a download after yt-dlp wrote `lines`: the file stem of
/// the latest destination line whose path has one, or the video id when
/// there is none.
pub open spec fn tracked_title(video_id: Seq<char>, lines: Seq<Seq<char>>) -> Seq<char>
    decreases lines.len(),
{
    if lines.len() == 0 {
        video_id
    } else {
        let l = lines.last();
        if is_destination_line(l) && path_file_stem(destination_of(l)) is Some {
            path_file_stem(destination_of(l))->0
        } else {
            tracked_title(video_id, lines.drop_last())
        }
    }
}

pub open spec fn seq_views(v: Seq<String>) -> Seq<Seq<char>> {
    v.map_values(|s: String| s@)
}

impl Downloader {
    /// Where yt-dlp is told to write: a template in the output directory.
    pub fn output_template(output_dir: &str) -> (r: String)
        ensures
            r@ == join_path(output_dir@, "%(title)s.%(ext)s"@),
    {
        join(output_dir, "%(title)s.%(ext)s")
    }

    /// The yt-dlp arguments of a download: the video, the output template,
    /// one progress line per update, no `.part` files, and either the best
    /// audio converted to mp3 or the best video and audio merged into mp4.
    pub fn download_args(video_id: &str, output_template: &str, audio_only: bool) -> (r: Vec<String>)
        ensures
            r@.len() == if audio_only { 10nat } else { 9nat },
            r@[0]@ == watch_page(video_id@),
            r@[1]@ == "-o"@,
            r@[2]@ == output_template@,
            r@[3]@ == "--newline"@,
            r@[4]@ == "--no-part"@,
            r@[5]@ == "-f"@,
            audio_only ==> r@[6]@ == "bestaudio/best"@ && r@[7]@ == "-x"@ && r@[8]@
                == "--audio-format"@ && r@[9]@ == "mp3"@,
            !audio_only ==> r@[6]@ == "bestvideo+bestaudio/best"@ && r@[7]@
                == "--merge-output-format"@ && r@[8]@ == "mp4"@,
    {
        let mut a: Vec<String> = Vec::new();
        a.push(concat("https://youtube.com/watch?v=", video_id));
        a.push(owned("-o"));
        a.push(owned(output_template));
        a.push(owned("--newline"));
        a.push(owned("--no-part"));
        a.push(owned("-f"));
        if audio_only {
            a.push(owned("bestaudio/best"));
            a.push(owned("-x"));
            a.push(owned("--audio-format"));
            a.push(owned("mp3"));
        } else {
            a.push(owned("bestvideo+bestaudio/best"));
            a.push(owned("--merge-output-format"));
            a.push(owned("mp4"));
        }
        a
    }

    /// The label of a format: `"<resolution> (<ext>)"`, or the extension
    /// alone when the resolution is unknown.
    pub fn format_label(resolution: &Option<String>, ext: &str) -> (r: String)
        ensures
            resolution matches Some(res) ==> r@ == res@ + " ("@ + ext@ + ")"@,
            resolution is None ==> r@ == ext@,
    {
        match resolution {
            Some(res) => {
                let mut s = concat(res.as_str(), " (");
                s.push_str(ext);
                s.push_str(")");
                s
            },
            None => owned(ext),
        }
    }

    /// The failure reported when yt-dlp cannot be started.
    pub fn start_failed(error: &str) -> (r: DownloadProgress)
        ensures
            r matches DownloadProgress::Failed { error: e } && e@ == "Failed to start yt-dlp: "@
                + error@,
    {
        DownloadProgress::Failed { error: concat("Failed to start yt-dlp: ", error) }
    }
}

impl DownloadTracker {
    /// A download of `video_id` into `output_template`; until yt-dlp names
    /// the file, the title is the video id.
    pub fn new(video_id: &str, output_template: &str) -> (r: DownloadTracker)
        ensures
            r.video_id@ == video_id@,
            r.output_template@ == output_template@,
            r.title@ == video_id@,
            r.lines_seen@ == Seq::<Seq<char>>::empty(),
            r.follows_lines(),
            !r.started,
    {
        DownloadTracker {
            video_id: owned(video_id),
            output_template: owned(output_template),
            title: owned(video_id),
            started: false,
            lines_seen: Ghost(Seq::empty()),
        }
    }

    /// The title is the one the lines read so far give.
    pub open spec fn follows_lines(&self) -> bool {
        self.title@ == tracked_title(self.video_id@, self.lines_seen@)
    }

    /// The event sent before yt-dlp starts.
    pub fn starting(&mut self) -> (r: DownloadProgress)
        requires
            !old(self).started,
        ensures
            r == (DownloadProgress::Starting { title: old(self).video_id }),
            *final(self) == (DownloadTracker { started: true, ..*old(self) }),
    {
        self.started = true;
        DownloadProgress::Starting { title: self.video_id.clone() }
    }

    /// Reads one line of yt-dlp's output. A destination line makes the
    /// file's stem the title (when it has one) and reports nothing; a
    /// progress line reports the current title with the line's fields;
    /// any other line reports nothing.
    pub fn on_line(&mut self, line: &str) -> (r: Option<(String, ProgressFields)>)
        requires
            old(self).started,
        ensures
            final(self).started,
            final(self).lines_seen@ == old(self).lines_seen@.push(line@),
            old(self).follows_lines() ==> final(self).follows_lines(),
            old(self).follows_lines() ==> (r matches Some((t, _)) ==> t@ == tracked_title(
                old(self).video_id@,
                old(self).lines_seen@,
            )),
            is_destination_line(line@) ==> r is None && final(self).video_id == old(self).video_id
                && final(self).output_template == old(self).output_template && (match path_file_stem(
                destination_of(line@),
            ) {
                Some(stem) => final(self).title@ == stem,
                None => final(self).title == old(self).title,
            }),
            !is_destination_line(line@) ==> final(self).video_id == old(self).video_id
                && final(self).output_template == old(self).output_template
                && final(self).title == old(self).title,
            !is_destination_line(line@) && is_progress_line(line@) ==> (r matches Some((t, f))
                && t == old(self).title && f.speed@ == speed_of(line@) && f.eta@ == eta_of(line@)
                && match percent_text_of(line@) {
                Some(pt) => f.percent_text matches Some(p) && p@ == pt,
                None => f.percent_text is None,
            }),
            !is_destination_line(line@) && !is_progress_line(line@) ==> r is None,
    {
        let v = chars_of(line);
        let dest = chars_of("[download] Destination:");
        self.lines_seen = Ghost(self.lines_seen@.push(line@));
        proof {
            assert(self.lines_seen@.drop_last() =~= old(self).lines_seen@);
        }
        if starts_with_chars(&v, &dest) {
            let rest = strip_leading_chars(&v, &dest);
            let path = trim_chars(&rest);
            let path_s = string_of(&path);
            if let Some(stem) = file_stem(path_s.as_str()) {
                self.title = stem;
            }
            return None;
        }
        let dl = chars_of("[download]");
        if starts_with_chars(&v, &dl) && str_contains(line, "%") {
            return Some((self.title.clone(), parse_progress(line)));
        }
        None
    }

    /// The event that ends the download.
    pub fn finish(self, exit: DownloadExit) -> (r: DownloadProgress)
        requires
            self.started,
        ensures
            r is Completed || r is Failed,
            exit matches DownloadExit::SpawnFailed { error } ==> r matches DownloadProgress::Failed {
                error: e,
            } && e@ == "Failed to start yt-dlp: "@ + error@,
            self.follows_lines() && exit is Success ==> (r matches DownloadProgress::Completed {
                title,
                ..
            } && title@ == tracked_title(self.video_id@, self.lines_seen@)),
            exit is Success ==> r == (DownloadProgress::Completed {
                title: self.title,
                path: self.output_template,
            }),
            exit matches DownloadExit::Failure { status, stderr_lines } ==> (r matches DownloadProgress::Failed {
                error,
            } && (if join_with(seq_views(stderr_lines@), " | "@).len() == 0 {
                error@ == "yt-dlp exited with status "@ + status@
            } else {
                error@ == join_with(seq_views(stderr_lines@), " | "@)
            })),
            exit matches DownloadExit::WaitFailed { error: e } ==> r == (DownloadProgress::Failed {
                error: e,
            }),
    {
        match exit {
            DownloadExit::Success => DownloadProgress::Completed {
                title: self.title,
                path: self.output_template,
            },
            DownloadExit::Failure { status, stderr_lines } => {
                let joined = join_lines(&stderr_lines, " | ");
                let joined_chars = chars_of(joined.as_str());
                if joined_chars.len() == 0 {
                    DownloadProgress::Failed {
                        error: concat("yt-dlp exited with status ", status.as_str()),
                    }
                } else {
                    DownloadProgress::Failed { error: joined }
                }
            },
            DownloadExit::WaitFailed { error } => DownloadProgress::Failed { error },
            DownloadExit::SpawnFailed { error } => Downloader::start_failed(error.as_str()),
        }
    }
}

/// The lines with `sep` between each two.
pub fn join_lines(lines: &Vec<String>, sep: &str) -> (r: String)
    ensures
        r@ == join_with(seq_views(lines@), sep@),
{
    let mut out = String::new();
    let mut i: usize = 0;
    while i < lines.len()
        invariant
            i <= lines@.len(),
            out@ == join_with(seq_views(lines@.take(i as int)), sep@),
        decreases lines@.len() - i,
    {
        proof {
            assert(seq_views(lines@.take(i + 1)).drop_last() =~= seq_views(lines@.take(i as int)));
        }
        if i > 0 {
            out.push_str(sep);
        } else {
            assert(seq_views(lines@.take(1)) =~= seq![lines@[0]@]);
        }
        out.push_str(lines[i].as_str());
        i = i + 1;
    }
    assert(lines@.take(lines@.len() as int) =~= lines@);
    out
}

} // verus!
