//! mpv: its command line, the reading of its error output, and the
//! fallback through other stream providers when playback fails. The
//! process and the providers' requests are run by the application.
use vstd::prelude::*;
use crate::text::{
    before, before_chars, chars_of, concat, contains, contains_chars, first_at, lemma_find_is,
    lemma_find_none, occurs_at, owned, first_line, first_line_of, second_field, second_field_chars, str_contains, string_of,
};
use crate::ui::app::watch_url;

verus! {

pub enum PlaybackNotification {
    FallbackAttempt(String),
    Failure(String),
    Success(String),
}

/// The video id in a URL: the text after the first `v=` up to the next `v=`
/// or the end, cut at the first `&`; else the text after the first
/// `/video/` up to the next `/video/` or the end; else none.
pub open spec fn video_id_of(url: Seq<char>) -> Option<Seq<char>> {
    if contains(url, "v="@) {
        match second_field(url, "v="@) {
            Some(p) => Some(before(p, "&"@)),
            None => None,
        }
    } else if contains(url, "/video/"@) {
        second_field(url, "/video/"@)
    } else {
        None
    }
}

/// The page of a video on YouTube names the video: from a page built by
/// the interface, the fallback finds the video id again (for an id that
/// holds neither `v=` nor `&`).
pub proof fn law_watch_url_names_its_video(id: Seq<char>)
    requires
        !contains(id, "v="@),
        !contains(id, "&"@),
    ensures
        video_id_of(watch_url(id)) == Some(id),
{
    let pre = "https://www.youtube.com/watch?v="@;
    reveal_strlit("https://www.youtube.com/watch?v=");
    reveal_strlit("v=");
    reveal_strlit("&");
    let url = pre + id;
    let vq = "v="@;
    assert(url.subrange(30, 32) =~= vq);
    assert(occurs_at(url, vq, 30));
    assert forall|j: int| 0 <= j < 30 implies !occurs_at(url, vq, j) by {
        assert(url[j] == pre[j]);
        assert(pre[j] != 'v');
        assert(url.subrange(j, j + 2)[0] == url[j]);
    }
    assert(first_at(url, vq, 30));
    lemma_find_is(url, vq, 30);
    assert(contains(url, vq));
    let rest = url.skip(32);
    assert(rest =~= id);
    lemma_find_none(rest, vq);
    lemma_find_none(rest, "&"@);
}


pub fn extract_video_id(url: &str) -> (r: Option<String>)
    ensures
        match video_id_of(url@) {
            Some(id) => r matches Some(x) && x@ == id,
            None => r is None,
        },
{
    let v = chars_of(url);
    let vq = chars_of("v=");
    if contains_chars(&v, &vq) {
        match second_field_chars(&v, &vq) {
            Some(p) => {
                let amp = chars_of("&");
                let id = before_chars(&p, &amp);
                return Some(string_of(&id));
            },
            None => return None,
        }
    }
    let vid = chars_of("/video/");
    if contains_chars(&v, &vid) {
        match second_field_chars(&v, &vid) {
            Some(p) => return Some(string_of(&p)),
            None => return None,
        }
    }
    None
}

/// The version mpv reports: the first line of what `mpv --version` printed,
/// when it exited with success.
pub fn version_line(success: bool, stdout: &str) -> (r: Option<String>)
    ensures
        !success ==> r is None,
        success ==> match first_line(stdout@) {
            Some(l) => r matches Some(v) && v@ == l,
            None => r is None,
        },
{
    if !success {
        return None;
    }
    let v = chars_of(stdout);
    match first_line_of(&v) {
        Some(l) => Some(string_of(&l)),
        None => None,
    }
}


/// The error of a play request without a URL; `audio` names the audio
/// request.
pub fn check_play_url(url: &str, audio: bool) -> (r: Result<(), String>)
    ensures
        url@.len() > 0 ==> r is Ok,
        url@.len() == 0 && !audio ==> (r matches Err(m) && m@
            == "Invalid or empty URL passed to play function"@),
        url@.len() == 0 && audio ==> (r matches Err(m) && m@
            == "Invalid or empty URL passed to play_audio function"@),
{
    let v = chars_of(url);
    if v.len() == 0 {
        if audio {
            Err(owned("Invalid or empty URL passed to play_audio function"))
        } else {
            Err(owned("Invalid or empty URL passed to play function"))
        }
    } else {
        Ok(())
    }
}

pub open spec fn views(v: Seq<String>) -> Seq<Seq<char>> {
    v.map_values(|s: String| s@)
}

fn copy_strings(v: &Vec<String>) -> (r: Vec<String>)
    ensures
        r@ == v@,
{
    let mut out: Vec<String> = Vec::new();
    let mut i: usize = 0;
    while i < v.len()
        invariant
            i <= v@.len(),
            out@ == v@.take(i as int),
        decreases v@.len() - i,
    {
        out.push(v[i].clone());
        assert(out@ =~= v@.take(i + 1));
        i = i + 1;
    }
    assert(v@.take(v@.len() as int) =~= v@);
    out
}

/// The extra arguments of an audio request: the given ones, then
/// `--video=no`.
pub fn audio_args(extra: &Vec<String>) -> (r: Vec<String>)
    ensures
        views(r@) == views(extra@).push("--video=no"@),
{
    let mut a = copy_strings(extra);
    a.push(owned("--video=no"));
    assert(views(a@) =~= views(extra@).push("--video=no"@));
    a
}

/// The format selection that caps the video height at `quality`.
pub open spec fn ytdl_format(quality: Seq<char>) -> Seq<char> {
    "--ytdl-format=bestvideo[height<="@ + quality + "]+bestaudio/best[height<="@ + quality + "]"@
}

/// mpv's arguments: exit when the file ends, loop when asked, cap the
/// height at `quality`, the extra arguments, then the URL; an empty URL is
/// refused.
pub fn mpv_args(url: &str, quality: &str, loop_playback: bool, extra: &Vec<String>) -> (r: Result<Vec<String>, String>)
    ensures
        url@.len() == 0 ==> (r matches Err(m) && m@ == "Invalid or empty URL specified for playback"@),
        url@.len() > 0 ==> (r matches Ok(a) && views(a@) == seq!["--keep-open=no"@] + (if loop_playback {
            seq!["--loop"@]
        } else {
            Seq::empty()
        }) + seq![ytdl_format(quality@)] + views(extra@) + seq![url@]),
{
    let uv = chars_of(url);
    if uv.len() == 0 {
        return Err(owned("Invalid or empty URL specified for playback"));
    }
    let mut a: Vec<String> = Vec::new();
    a.push(owned("--keep-open=no"));
    if loop_playback {
        a.push(owned("--loop"));
    }
    let mut f = concat("--ytdl-format=bestvideo[height<=", quality);
    f.push_str("]+bestaudio/best[height<=");
    f.push_str(quality);
    f.push_str("]");
    a.push(f);
    let ghost head = views(a@);
    let mut i: usize = 0;
    while i < extra.len()
        invariant
            i <= extra@.len(),
            views(a@) == head + views(extra@.take(i as int)),
        decreases extra@.len() - i,
    {
        let ghost prev = a@;
        a.push(extra[i].clone());
        assert(views(a@) =~= views(prev).push(extra@[i as int]@));
        assert(views(extra@.take(i + 1)) =~= views(extra@.take(i as int)).push(extra@[i as int]@));
        i = i + 1;
    }
    assert(extra@.take(extra@.len() as int) =~= extra@);
    let ghost prev = a@;
    a.push(owned(url));
    assert(views(a@) =~= views(prev).push(url@));
    Ok(a)
}

/// A line of mpv's stderr that reports a failure.
pub open spec fn reports_failure(line: Seq<char>) -> bool {
    contains(line, "Failed to open"@) || contains(line, "[ytdl_hook] ERROR"@) || contains(line, "ERROR"@)
}

pub fn is_failure_line(line: &str) -> (r: bool)
    ensures
        r == reports_failure(line@),
{
    str_contains(line, "Failed to open") || str_contains(line, "[ytdl_hook] ERROR") || str_contains(
        line,
        "ERROR",
    )
}

/// The providers of the fallback, in the order they are tried.
pub open spec fn provider_count() -> nat {
    3
}

/// The name a provider is announced under.
pub fn provider_name(index: usize) -> (r: &'static str)
    ensures
        index == 0 ==> r@ == "Ytdlp"@,
        index == 1 ==> r@ == "Invidious"@,
        index == 2 ==> r@ == "Piped"@,
        index > 2 ==> r@ == "Unknown"@,
{
    match index {
        0 => "Ytdlp",
        1 => "Invidious",
        2 => "Piped",
        _ => "Unknown",
    }
}

/// The providers tried over a run of failures, from a fallback at provider
/// `index` (stopped when `finished`): each failure tries the provider at
/// the current index while one is left, and `played[k]` says whether the
/// `k`-th provider tried played, which ends the fallback; otherwise the
/// next failure tries the next provider. These are the steps
/// `FallbackManager::on_notification` and `attempt_done` take.
pub open spec fn providers_tried(index: nat, finished: bool, played: Seq<bool>) -> Seq<nat>
    decreases played.len(),
{
    if played.len() == 0 || finished || index >= provider_count() {
        Seq::empty()
    } else {
        seq![index] + if played[0] {
            Seq::empty()
        } else {
            providers_tried(index + 1, false, played.skip(1))
        }
    }
}

/// The name a provider is announced under (see `provider_name`).
pub open spec fn provider_label(index: nat) -> Seq<char> {
    if index == 0 {
        "Ytdlp"@
    } else if index == 1 {
        "Invidious"@
    } else if index == 2 {
        "Piped"@
    } else {
        "Unknown"@
    }
}

/// What the fallback broadcasts: the attempt of a provider, or that a
/// stream played.
pub enum Broadcast {
    Attempt(nat),
    Played(Seq<char>),
}

/// The broadcasts of the fallback over a run of failures, from provider
/// `index`: each failure announces the provider it tries; `outcomes[k]`
/// is the stream that the `k`-th provider tried gave and mpv played, if
/// any, which is then broadcast as played and ends the fallback.
pub open spec fn fallback_broadcasts(index: nat, finished: bool, outcomes: Seq<Option<Seq<char>>>) -> Seq<Broadcast>
    decreases outcomes.len(),
{
    if outcomes.len() == 0 || finished || index >= provider_count() {
        Seq::empty()
    } else {
        seq![Broadcast::Attempt(index)] + match outcomes[0] {
            Some(u) => seq![Broadcast::Played(u)],
            None => fallback_broadcasts(index + 1, false, outcomes.skip(1)),
        }
    }
}

/// Over a run of failures, a fresh fallback announces yt-dlp, Invidious
/// and Piped in that order, at most once each, one per failure; the first
/// stream that plays is broadcast right after the attempt that gave it,
/// and nothing follows it.
pub proof fn law_fallback_broadcasts(outcomes: Seq<Option<Seq<char>>>)
    ensures
        ({
            let b = fallback_broadcasts(0, false, outcomes);
            let k = providers_tried(0, false, outcomes.map_values(|o: Option<Seq<char>>| o is Some)).len();
            &&& k <= provider_count()
            &&& forall|i: int| 0 <= i < k ==> #[trigger] b[i] == Broadcast::Attempt(i as nat)
            &&& (b.len() == k + 1 <==> (k > 0 && outcomes[k - 1] is Some))
            &&& b.len() == k || b.len() == k + 1
            &&& b.len() == k + 1 ==> b[k as int] == Broadcast::Played(outcomes[k - 1]->0)
        }),
{
    lemma_fallback_broadcasts(0, outcomes);
    lemma_providers_tried(0, outcomes.map_values(|o: Option<Seq<char>>| o is Some));
}

/// One failure, the announcement of the provider it tries and the
/// outcome of that attempt (as `on_notification`, `announcement` and
/// `attempt_outcome` state) take the broadcasts one step along
/// `fallback_broadcasts`, leaving the rest of the run to the state after.
pub proof fn law_fallback_step_broadcasts(
    m0: FallbackManager,
    m1: FallbackManager,
    m2: FallbackManager,
    step: FallbackStep,
    outcomes: Seq<Option<Seq<char>>>,
)
    requires
        outcomes.len() > 0,
        m0.wf(),
        !m0.finished,
        m0.provider_index < provider_count(),
        step == (FallbackStep::Try { index: m0.provider_index }),
        m1.provider_index == m0.provider_index,
        !m1.finished,
        outcomes[0] is Some ==> m2.finished && m2.provider_index == m1.provider_index,
        outcomes[0] is None ==> !m2.finished && m2.provider_index == m1.provider_index + 1,
    ensures
        fallback_broadcasts(m0.provider_index as nat, m0.finished, outcomes) == seq![
            Broadcast::Attempt(step->index as nat),
        ] + match outcomes[0] {
            Some(u) => seq![Broadcast::Played(u)],
            None => Seq::<Broadcast>::empty(),
        } + fallback_broadcasts(m2.provider_index as nat, m2.finished, outcomes.skip(1)),
{
    let a = seq![Broadcast::Attempt(step->index as nat)];
    match outcomes[0] {
        Some(u) => {
            assert(a + seq![Broadcast::Played(u)] + Seq::<Broadcast>::empty() =~= a + seq![Broadcast::Played(u)]);
        },
        None => {
            assert(a + Seq::<Broadcast>::empty() =~= a);
        },
    }
}

proof fn lemma_fallback_broadcasts(index: nat, outcomes: Seq<Option<Seq<char>>>)
    requires
        index <= provider_count(),
    ensures
        ({
            let b = fallback_broadcasts(index, false, outcomes);
            let k = providers_tried(index, false, outcomes.map_values(|o: Option<Seq<char>>| o is Some)).len();
            &&& forall|i: int| 0 <= i < k ==> #[trigger] b[i] == Broadcast::Attempt((index + i) as nat)
            &&& (b.len() == k + 1 <==> (k > 0 && outcomes[k - 1] is Some))
            &&& b.len() == k || b.len() == k + 1
            &&& b.len() == k + 1 ==> b[k as int] == Broadcast::Played(outcomes[k - 1]->0)
        }),
    decreases outcomes.len(),
{
    let played = outcomes.map_values(|o: Option<Seq<char>>| o is Some);
    if outcomes.len() > 0 && index < provider_count() {
        let rest = outcomes.skip(1);
        assert(played.skip(1) =~= rest.map_values(|o: Option<Seq<char>>| o is Some));
        assert(played[0] == outcomes[0] is Some);
        let b = fallback_broadcasts(index, false, outcomes);
        if outcomes[0] is None {
            lemma_fallback_broadcasts(index + 1, rest);
            lemma_providers_tried(index + 1, rest.map_values(|o: Option<Seq<char>>| o is Some));
            let br = fallback_broadcasts(index + 1, false, rest);
            let kr: int = providers_tried(index + 1, false, rest.map_values(|o: Option<Seq<char>>| o is Some)).len() as int;
            assert(b == seq![Broadcast::Attempt(index)] + br);
            assert forall|i: int| 0 <= i < kr + 1 implies #[trigger] b[i] == Broadcast::Attempt(
                (index + i) as nat,
            ) by {
                if i > 0 {
                    assert(b[i] == br[i - 1]);
                }
            }
            if kr > 0 {
                assert(outcomes[kr as int] == rest[kr - 1]);
            }
            if b.len() == kr + 2 {
                assert(b[kr + 1] == br[kr as int]);
            }
        } else {
            assert(b =~= seq![Broadcast::Attempt(index), Broadcast::Played(outcomes[0]->0)]);
        }
    } else {
        assert(fallback_broadcasts(index, false, outcomes) =~= Seq::<Broadcast>::empty());
    }
}

/// Over a run of failures, a fresh fallback tries yt-dlp, Invidious and
/// Piped in that order, at most once each; every provider tried but the
/// last failed to play, and the fallback stops early only because the
/// last one tried played.
pub proof fn law_fallback_tries_providers_in_order(played: Seq<bool>)
    ensures
        ({
            let t = providers_tried(0, false, played);
            &&& t.len() <= provider_count()
            &&& t.len() <= played.len()
            &&& forall|i: int| 0 <= i < t.len() ==> #[trigger] t[i] == i
            &&& forall|i: int| 0 <= i < t.len() - 1 ==> !#[trigger] played[i]
            &&& (t.len() < provider_count() && t.len() < played.len()) ==> t.len() > 0 && played[t.len() - 1]
            &&& played.len() > 0 ==> t.len() > 0
        }),
{
    lemma_providers_tried(0, played);
}

/// One failure and the outcome of the attempt it starts take the
/// fallback one step along `providers_tried`: a failure answered (as
/// `on_notification` states) by trying the current provider, whose outcome
/// `played[0]` then moves the fallback on (as `attempt_done` states),
/// leaves the rest of the run to the providers after it.
pub proof fn law_fallback_step_follows_run(
    m0: FallbackManager,
    m1: FallbackManager,
    m2: FallbackManager,
    step: FallbackStep,
    played: Seq<bool>,
)
    requires
        played.len() > 0,
        m0.wf(),
        !m0.finished,
        m0.provider_index < provider_count(),
        step == (FallbackStep::Try { index: m0.provider_index }),
        m1.provider_index == m0.provider_index,
        !m1.finished,
        played[0] ==> m2.finished && m2.provider_index == m1.provider_index,
        !played[0] ==> !m2.finished && m2.provider_index == m1.provider_index + 1,
    ensures
        providers_tried(m0.provider_index as nat, m0.finished, played) == seq![step->index as nat]
            + providers_tried(m2.provider_index as nat, m2.finished, played.skip(1)),
{
    if played[0] {
        assert(seq![step->index as nat] + Seq::<nat>::empty() =~= seq![step->index as nat]);
    }
}

proof fn lemma_providers_tried(index: nat, played: Seq<bool>)
    requires
        index <= provider_count(),
    ensures
        ({
            let t = providers_tried(index, false, played);
            &&& t.len() <= provider_count() - index
            &&& t.len() <= played.len()
            &&& forall|i: int| 0 <= i < t.len() ==> #[trigger] t[i] == index + i
            &&& forall|i: int| 0 <= i < t.len() - 1 ==> !#[trigger] played[i]
            &&& (t.len() < provider_count() - index && t.len() < played.len()) ==> t.len() > 0 && played[t.len() - 1]
            &&& (played.len() > 0 && index < provider_count()) ==> t.len() > 0
        }),
    decreases played.len(),
{
    if played.len() > 0 && index < provider_count() && !played[0] {
        let rest = played.skip(1);
        lemma_providers_tried(index + 1, rest);
        let t = providers_tried(index, false, played);
        let tr = providers_tried(index + 1, false, rest);
        assert(t == seq![index] + tr);
        assert forall|i: int| 0 <= i < t.len() implies #[trigger] t[i] == index + i by {
            if i > 0 {
                assert(t[i] == tr[i - 1]);
            }
        }
        assert forall|i: int| 0 <= i < t.len() - 1 implies !#[trigger] played[i] by {
            if i > 0 {
                assert(played[i] == rest[i - 1]);
            }
        }
        if t.len() < provider_count() - index && t.len() < played.len() {
            if tr.len() > 0 {
                assert(played[t.len() - 1] == rest[tr.len() - 1]);
            }
        }
    }
}

/// What the fallback does on a notification.
pub enum FallbackStep {
    /// Keep waiting for notifications.
    Wait,
    /// The fallback is over.
    Stop,
    /// Announce and try the provider at this index.
    Try { index: usize },
}

/// The fallback of one playback: on each reported failure it tries the
/// next provider (yt-dlp, then Invidious, then Piped) until one of them
/// gives a stream that mpv plays, or all have been tried.
pub struct FallbackManager {
    pub video_id: Option<String>,
    pub provider_index: usize,
    pub finished: bool,
}

impl FallbackManager {
    pub open spec fn wf(&self) -> bool {
        self.provider_index <= provider_count()
    }

    /// The fallback of a playback of `url`.
    pub fn new(url: &str) -> (r: FallbackManager)
        ensures
            r.wf(),
            r.provider_index == 0,
            !r.finished,
            match video_id_of(url@) {
                Some(id) => r.video_id matches Some(x) && x@ == id,
                None => r.video_id is None,
            },
    {
        FallbackManager { video_id: extract_video_id(url), provider_index: 0, finished: false }
    }

    /// A failure tries the next provider, or stops once all were tried; a
    /// success stops; an announcement changes nothing. Once stopped, the
    /// fallback stays stopped.
    pub fn on_notification(&mut self, n: &PlaybackNotification) -> (r: FallbackStep)
        requires
            old(self).wf(),
        ensures
            final(self).wf(),
            final(self).video_id == old(self).video_id,
            final(self).provider_index == old(self).provider_index,
            old(self).finished ==> r is Stop && final(self).finished,
            !old(self).finished && n is Failure && old(self).provider_index < provider_count() ==> r
                == (FallbackStep::Try { index: old(self).provider_index }) && !final(self).finished,
            !old(self).finished && n is Failure && old(self).provider_index >= provider_count() ==> r
                is Stop && final(self).finished,
            !old(self).finished && n is Success ==> r is Stop && final(self).finished,
            !old(self).finished && n is FallbackAttempt ==> r is Wait && !final(self).finished,
    {
        if self.finished {
            return FallbackStep::Stop;
        }
        match n {
            PlaybackNotification::Failure(_) => {
                if self.provider_index >= 3 {
                    self.finished = true;
                    FallbackStep::Stop
                } else {
                    FallbackStep::Try { index: self.provider_index }
                }
            },
            PlaybackNotification::Success(_) => {
                self.finished = true;
                FallbackStep::Stop
            },
            PlaybackNotification::FallbackAttempt(_) => FallbackStep::Wait,
        }
    }

    /// What is broadcast when the provider at `index` is tried: its
    /// announcement.
    pub fn announcement(index: usize) -> (r: PlaybackNotification)
        ensures
            r matches PlaybackNotification::FallbackAttempt(name) && name@ == provider_label(index as nat),
    {
        PlaybackNotification::FallbackAttempt(owned(provider_name(index)))
    }

    /// The provider tried gave `stream` and mpv played it (`Some`), or not
    /// (`None`): the fallback ends and the stream is broadcast as played,
    /// or it moves on to the next provider with nothing to broadcast.
    pub fn attempt_outcome(&mut self, stream: Option<String>) -> (r: Option<PlaybackNotification>)
        requires
            old(self).wf(),
            !old(self).finished,
            old(self).provider_index < provider_count(),
        ensures
            final(self).wf(),
            final(self).video_id == old(self).video_id,
            stream is Some ==> final(self).finished && final(self).provider_index == old(self).provider_index
                && r == Some(PlaybackNotification::Success(stream->0)),
            stream is None ==> !final(self).finished && final(self).provider_index == old(self).provider_index
                + 1 && r is None,
    {
        match stream {
            Some(u) => {
                self.attempt_done(true);
                Some(PlaybackNotification::Success(u))
            },
            None => {
                self.attempt_done(false);
                None
            },
        }
    }

    /// The provider tried last played (`true`) or not: the fallback ends,
    /// or moves on to the next provider.
    pub fn attempt_done(&mut self, played: bool)
        requires
            old(self).wf(),
            !old(self).finished,
            old(self).provider_index < provider_count(),
        ensures
            final(self).wf(),
            final(self).video_id == old(self).video_id,
            played ==> final(self).finished && final(self).provider_index == old(self).provider_index,
            !played ==> !final(self).finished && final(self).provider_index == old(self).provider_index
                + 1,
    {
        if played {
            self.finished = true;
        } else {
            self.provider_index = self.provider_index + 1;
        }
    }
}

} // verus!
