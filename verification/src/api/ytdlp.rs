//! yt-dlp: the command lines the library asks for and the reading of what
//! the process printed. The process itself is run by the application.
use vstd::prelude::*;
use crate::text::{
    chars_of, concat, contains, first_line, first_line_of, owned, str_contains, string_of, trim,
    trim_chars,
};

verus! {

pub enum YtdlpError {
    NotInstalled,
    NotFound(String),
    Process(String),
    Parse(String),
}

impl YtdlpError {
    pub open spec fn text(&self) -> Seq<char> {
        match self {
            YtdlpError::NotInstalled => "yt-dlp not found in PATH"@,
            YtdlpError::NotFound(s) => "Video not found: "@ + s@,
            YtdlpError::Process(s) => "yt-dlp error: "@ + s@,
            YtdlpError::Parse(s) => "Parse error: "@ + s@,
        }
    }

    pub fn message(&self) -> (r: String)
        ensures
            r@ == self.text(),
    {
        match self {
            YtdlpError::NotInstalled => owned("yt-dlp not found in PATH"),
            YtdlpError::NotFound(s) => concat("Video not found: ", s.as_str()),
            YtdlpError::Process(s) => concat("yt-dlp error: ", s.as_str()),
            YtdlpError::Parse(s) => concat("Parse error: ", s.as_str()),
        }
    }
}

pub struct YtdlpFormat {
    pub format_id: String,
    pub ext: String,
    pub resolution: Option<String>,
    pub filesize: Option<u64>,
    pub url: Option<String>,
}

/// The fields of one entry of yt-dlp's `formats` list, each present when
/// it holds a value of the expected kind.
pub struct RawFormat {
    pub format_id: Option<String>,
    pub ext: Option<String>,
    pub resolution: Option<String>,
    pub filesize: Option<u64>,
    pub url: Option<String>,
}

/// What a finished yt-dlp process left: whether it exited with success,
/// and its standard output and error as text.
pub struct ProcessOutput {
    pub success: bool,
    pub stdout: String,
    pub stderr: String,
}

pub struct YtdlpWrapper;

/// The watch page of a video, as yt-dlp is given it.
pub open spec fn watch_page(video_id: Seq<char>) -> Seq<char> {
    "https://youtube.com/watch?v="@ + video_id
}

/// The line of output that holds the stream URL: the first line, trimmed
/// (empty when there is no output).
pub open spec fn url_line(stdout: Seq<char>) -> Seq<char> {
    match first_line(stdout) {
        Some(l) => trim(l),
        None => Seq::empty(),
    }
}

/// A stderr that says the video cannot be had.
pub open spec fn says_unavailable(stderr: Seq<char>) -> bool {
    contains(stderr, "Video unavailable"@) || contains(stderr, "not available"@)
}

/// The extension text of a raw entry.
pub open spec fn ext_of(raw: RawFormat) -> Seq<char> {
    match raw.ext {
        Some(e) => e@,
        None => "unknown"@,
    }
}

/// The formats of the raw entries, in order, leaving out those without an
/// id.
pub open spec fn formats_of(raws: Seq<RawFormat>) -> Seq<RawFormat>
    decreases raws.len(),
{
    if raws.len() == 0 {
        Seq::empty()
    } else {
        let rest = formats_of(raws.drop_last());
        if raws.last().format_id is Some {
            rest.push(raws.last())
        } else {
            rest
        }
    }
}

/// `f` is what `raw` gives.
pub open spec fn format_from(raw: RawFormat, f: YtdlpFormat) -> bool {
    &&& raw.format_id matches Some(id) && f.format_id == id
    &&& f.ext@ == ext_of(raw)
    &&& f.resolution == raw.resolution
    &&& f.filesize == raw.filesize
    &&& f.url == raw.url
}

impl YtdlpWrapper {
    pub fn watch_url(video_id: &str) -> (r: String)
        ensures
            r@ == watch_page(video_id@),
    {
        concat("https://youtube.com/watch?v=", video_id)
    }

    /// The arguments that ask yt-dlp for the stream URL of a video.
    pub fn stream_url_args(video_id: &str) -> (r: Vec<String>)
        ensures
            r@.len() == 4,
            r@[0]@ == "--get-url"@,
            r@[1]@ == "-f"@,
            r@[2]@ == "bestvideo+bestaudio/best"@,
            r@[3]@ == watch_page(video_id@),
    {
        vec![
            owned("--get-url"),
            owned("-f"),
            owned("bestvideo+bestaudio/best"),
            Self::watch_url(video_id),
        ]
    }

    /// The stream URL that a `--get-url` run printed: on failure, a
    /// not-found error when stderr says the video is unavailable and a
    /// process error with stderr otherwise; on success the first line of
    /// the output, trimmed, unless it is empty.
    pub fn stream_url_from_output(video_id: &str, out: &ProcessOutput) -> (r: Result<String, YtdlpError>)
        ensures
            !out.success && says_unavailable(out.stderr@) ==> (r matches Err(YtdlpError::NotFound(id))
                && id@ == video_id@),
            !out.success && !says_unavailable(out.stderr@) ==> r == Err::<String, YtdlpError>(
                YtdlpError::Process(out.stderr),
            ),
            out.success && url_line(out.stdout@).len() == 0 ==> (r matches Err(
                YtdlpError::NotFound(id),
            ) && id@ == video_id@),
            out.success && url_line(out.stdout@).len() > 0 ==> (r matches Ok(u) && u@ == url_line(
                out.stdout@,
            )),
    {
        if !out.success {
            if str_contains(out.stderr.as_str(), "Video unavailable") || str_contains(
                out.stderr.as_str(),
                "not available",
            ) {
                return Err(YtdlpError::NotFound(owned(video_id)));
            }
            return Err(YtdlpError::Process(out.stderr.clone()));
        }
        let v = chars_of(out.stdout.as_str());
        let line = match first_line_of(&v) {
            Some(l) => trim_chars(&l),
            None => Vec::new(),
        };
        if line.len() == 0 {
            return Err(YtdlpError::NotFound(owned(video_id)));
        }
        Ok(string_of(&line))
    }

    /// The arguments that ask yt-dlp for the formats of a video.
    pub fn formats_args(video_id: &str) -> (r: Vec<String>)
        ensures
            r@.len() == 3,
            r@[0]@ == "-J"@,
            r@[1]@ == "--no-warnings"@,
            r@[2]@ == watch_page(video_id@),
    {
        vec![owned("-J"), owned("--no-warnings"), Self::watch_url(video_id)]
    }

    /// A failed `-J` run is a process error with its stderr.
    pub fn check_formats_output(out: &ProcessOutput) -> (r: Result<(), YtdlpError>)
        ensures
            out.success ==> r is Ok,
            !out.success ==> r == Err::<(), YtdlpError>(YtdlpError::Process(out.stderr)),
    {
        if out.success {
            Ok(())
        } else {
            Err(YtdlpError::Process(out.stderr.clone()))
        }
    }

    /// The formats of the raw entries, in order; entries without an id are
    /// left out and a missing extension reads as `"unknown"`.
    pub fn formats_from_raw(raws: Vec<RawFormat>) -> (r: Vec<YtdlpFormat>)
        ensures
            r@.len() == formats_of(raws@).len(),
            forall|i: int| 0 <= i < r@.len() ==> format_from(#[trigger] formats_of(raws@)[i], r@[i]),
    {
        let ghost all = raws@;
        let mut raws = raws;
        let mut out: Vec<YtdlpFormat> = Vec::new();
        while raws.len() > 0
            invariant
                raws@.len() <= all.len(),
                raws@ == all.skip(all.len() - raws@.len()),
                out@.len() == formats_of(all.take(all.len() - raws@.len())).len(),
                forall|i: int|
                    0 <= i < out@.len() ==> format_from(
                        #[trigger] formats_of(all.take(all.len() - raws@.len()))[i],
                        out@[i],
                    ),
            decreases raws@.len(),
        {
            let ghost k = all.len() - raws@.len();
            let ghost before = formats_of(all.take(k));
            let raw = raws.remove(0);
            proof {
                assert(all.take(k + 1).drop_last() =~= all.take(k));
                assert(all.take(k + 1).last() == raw);
                assert(raws@ =~= all.skip(all.len() - raws@.len()));
            }
            let ghost raw_copy = raw;
            match raw.format_id {
                Some(id) => {
                    let ext = match raw.ext {
                        Some(e) => e,
                        None => owned("unknown"),
                    };
                    out.push(
                        YtdlpFormat {
                            format_id: id,
                            ext,
                            resolution: raw.resolution,
                            filesize: raw.filesize,
                            url: raw.url,
                        },
                    );
                    proof {
                        assert(formats_of(all.take(k + 1)) == before.push(raw_copy));
                        assert forall|i: int| 0 <= i < out@.len() implies format_from(
                            #[trigger] formats_of(all.take(k + 1))[i],
                            out@[i],
                        ) by {
                            if i < out@.len() - 1 {
                                assert(formats_of(all.take(k + 1))[i] == before[i]);
                            }
                        }
                    }
                },
                None => {
                    proof {
                        assert(formats_of(all.take(k + 1)) == before);
                    }
                },
            }
        }
        assert(all.take(all.len() as int) =~= all);
        out
    }
}

} // verus!
