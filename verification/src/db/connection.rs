//! The records kept in the database, how a filter text selects them, and
//! the reading of the watch history. The SQLite file itself is opened and
//! queried by the application.
use vstd::prelude::*;
use crate::text::{chars_eq, chars_of, contains, lowercase, str_contains, to_lowercase};

verus! {

/// A copy of an optional text.
pub fn copy_opt(s: &Option<String>) -> (r: Option<String>)
    ensures
        r == *s,
{
    match s {
        Some(x) => Some(x.clone()),
        None => None,
    }
}

/// Records that a filter text can select.
pub trait Filterable {
    /// `self` matches the filter text `query`.
    spec fn matches(&self, query: Seq<char>) -> bool;

    fn matches_query(&self, query: &str) -> (r: bool)
        ensures
            r == self.matches(query@);
}

/// The filter text occurs, ignoring case, in one of the texts.
pub open spec fn finds(query: Seq<char>, title: Seq<char>, channel: Option<String>, video_id: Seq<char>) -> bool {
    let q = lowercase(query);
    ||| contains(lowercase(title), q)
    ||| (channel matches Some(c) && contains(lowercase(c@), q))
    ||| contains(lowercase(video_id), q)
}

fn finds_exec(query: &str, title: &str, channel: &Option<String>, video_id: &str) -> (r: bool)
    ensures
        r == finds(query@, title@, *channel, video_id@),
{
    let q = to_lowercase(query);
    let t = to_lowercase(title);
    if str_contains(t.as_str(), q.as_str()) {
        return true;
    }
    if let Some(c) = channel {
        let lc = to_lowercase(c.as_str());
        if str_contains(lc.as_str(), q.as_str()) {
            return true;
        }
    }
    let v = to_lowercase(video_id);
    str_contains(v.as_str(), q.as_str())
}

pub struct HistoryEntry {
    pub id: i64,
    pub video_id: String,
    pub title: String,
    pub channel: Option<String>,
    pub watched_at: String,
}

pub struct SavedVideo {
    pub id: i64,
    pub video_id: String,
    pub title: String,
    pub channel: Option<String>,
    pub saved_at: String,
}

pub struct Playlist {
    pub id: i64,
    pub name: String,
    pub created_at: String,
    pub is_imported: bool,
    pub youtube_id: Option<String>,
}

pub struct PlaylistVideo {
    pub id: i64,
    pub playlist_id: i64,
    pub video_id: String,
    pub title: String,
    pub channel: Option<String>,
    pub position: i32,
}

impl Clone for HistoryEntry {
    fn clone(&self) -> (r: Self)
        ensures
            r == *self,
    {
        HistoryEntry {
            id: self.id,
            video_id: self.video_id.clone(),
            title: self.title.clone(),
            channel: copy_opt(&self.channel),
            watched_at: self.watched_at.clone(),
        }
    }
}

impl Clone for SavedVideo {
    fn clone(&self) -> (r: Self)
        ensures
            r == *self,
    {
        SavedVideo {
            id: self.id,
            video_id: self.video_id.clone(),
            title: self.title.clone(),
            channel: copy_opt(&self.channel),
            saved_at: self.saved_at.clone(),
        }
    }
}

impl Clone for Playlist {
    fn clone(&self) -> (r: Self)
        ensures
            r == *self,
    {
        Playlist {
            id: self.id,
            name: self.name.clone(),
            created_at: self.created_at.clone(),
            is_imported: self.is_imported,
            youtube_id: copy_opt(&self.youtube_id),
        }
    }
}

impl Clone for PlaylistVideo {
    fn clone(&self) -> (r: Self)
        ensures
            r == *self,
    {
        PlaylistVideo {
            id: self.id,
            playlist_id: self.playlist_id,
            video_id: self.video_id.clone(),
            title: self.title.clone(),
            channel: copy_opt(&self.channel),
            position: self.position,
        }
    }
}

impl Filterable for HistoryEntry {
    open spec fn matches(&self, query: Seq<char>) -> bool {
        finds(query, self.title@, self.channel, self.video_id@)
    }

    fn matches_query(&self, query: &str) -> (r: bool) {
        finds_exec(query, self.title.as_str(), &self.channel, self.video_id.as_str())
    }
}

impl Filterable for SavedVideo {
    open spec fn matches(&self, query: Seq<char>) -> bool {
        finds(query, self.title@, self.channel, self.video_id@)
    }

    fn matches_query(&self, query: &str) -> (r: bool) {
        finds_exec(query, self.title.as_str(), &self.channel, self.video_id.as_str())
    }
}

impl Filterable for Playlist {
    /// A playlist matches when the filter text occurs, ignoring case, in
    /// its name.
    open spec fn matches(&self, query: Seq<char>) -> bool {
        contains(lowercase(self.name@), lowercase(query))
    }

    fn matches_query(&self, query: &str) -> (r: bool) {
        let n = to_lowercase(self.name.as_str());
        let q = to_lowercase(query);
        str_contains(n.as_str(), q.as_str())
    }
}

impl Filterable for PlaylistVideo {
    open spec fn matches(&self, query: Seq<char>) -> bool {
        finds(query, self.title@, self.channel, self.video_id@)
    }

    fn matches_query(&self, query: &str) -> (r: bool) {
        finds_exec(query, self.title.as_str(), &self.channel, self.video_id.as_str())
    }
}

/// A history entry, a saved video or a video of a playlist matches a
/// filter text exactly when the text occurs, ignoring case, in its title,
/// in its channel's name (when it has one) or in its video id.
pub proof fn law_filter_looks_at_title_channel_and_id(
    h: HistoryEntry,
    sv: SavedVideo,
    pv: PlaylistVideo,
    query: Seq<char>,
)
    ensures
        ({
            let q = lowercase(query);
            &&& h.matches(query) <==> (contains(lowercase(h.title@), q) || (h.channel matches Some(c)
                && contains(lowercase(c@), q)) || contains(lowercase(h.video_id@), q))
            &&& sv.matches(query) <==> (contains(lowercase(sv.title@), q) || (sv.channel matches Some(c)
                && contains(lowercase(c@), q)) || contains(lowercase(sv.video_id@), q))
            &&& pv.matches(query) <==> (contains(lowercase(pv.title@), q) || (pv.channel matches Some(c)
                && contains(lowercase(c@), q)) || contains(lowercase(pv.video_id@), q))
        }),
        forall|c: String| h.channel == Some(c) && contains(lowercase(c@), lowercase(query)) ==> h.matches(
            query,
        ),
{
}

/// The history as it is shown: a run of consecutive entries of one video
/// keeps only its first entry (`Vec::dedup_by` on the video id).
pub open spec fn dedup_runs(s: Seq<HistoryEntry>) -> Seq<HistoryEntry>
    decreases s.len(),
{
    if s.len() <= 1 {
        s
    } else {
        let rest = dedup_runs(s.drop_last());
        if s.last().video_id@ == s[s.len() - 2].video_id@ {
            rest
        } else {
            rest.push(s.last())
        }
    }
}

/// No two neighbouring entries are of the same video.
pub open spec fn no_repeats(s: Seq<HistoryEntry>) -> bool {
    forall|i: int| 0 <= i < s.len() - 1 ==> #[trigger] s[i].video_id@ != s[i + 1].video_id@
}

/// The shown history ends with the video the history ends with.
proof fn lemma_dedup_last(s: Seq<HistoryEntry>)
    requires
        s.len() > 0,
    ensures
        dedup_runs(s).len() > 0,
        dedup_runs(s).last().video_id@ == s.last().video_id@,
    decreases s.len(),
{
    if s.len() > 1 {
        lemma_dedup_last(s.drop_last());
    }
}

/// In the shown history, no two neighbouring entries are of the same
/// video.
pub proof fn law_dedup_leaves_no_repeats(s: Seq<HistoryEntry>)
    ensures
        no_repeats(dedup_runs(s)),
    decreases s.len(),
{
    if s.len() > 1 {
        let rest = dedup_runs(s.drop_last());
        law_dedup_leaves_no_repeats(s.drop_last());
        lemma_dedup_last(s.drop_last());
        if s.last().video_id@ != s[s.len() - 2].video_id@ {
            let d = rest.push(s.last());
            assert forall|i: int| 0 <= i < d.len() - 1 implies #[trigger] d[i].video_id@ != d[i
                + 1].video_id@ by {
                if i < rest.len() - 1 {
                    assert(d[i] == rest[i] && d[i + 1] == rest[i + 1]);
                } else {
                    assert(d[i] == rest.last());
                }
            }
        }
    }
}

/// A history without neighbouring entries of one video is shown as it is.
pub proof fn law_dedup_keeps_distinct_runs(s: Seq<HistoryEntry>)
    requires
        no_repeats(s),
    ensures
        dedup_runs(s) == s,
    decreases s.len(),
{
    if s.len() > 1 {
        let t = s.drop_last();
        assert forall|i: int| 0 <= i < t.len() - 1 implies #[trigger] t[i].video_id@ != t[i
            + 1].video_id@ by {
            assert(t[i] == s[i] && t[i + 1] == s[i + 1]);
        }
        law_dedup_keeps_distinct_runs(t);
        assert(s[s.len() - 2].video_id@ != s[s.len() - 1].video_id@);
        assert(t.push(s.last()) =~= s);
    }
}

/// Reading the shown history again changes nothing.
pub proof fn law_dedup_idempotent(s: Seq<HistoryEntry>)
    ensures
        dedup_runs(dedup_runs(s)) == dedup_runs(s),
{
    law_dedup_leaves_no_repeats(s);
    law_dedup_keeps_distinct_runs(dedup_runs(s));
}


/// Read from the front, the shown history keeps the first entry of each
/// run whole: an entry followed by one of the same video shows as if the
/// follower were not there; an entry followed by another video is shown,
/// then the rest. So each run of one video is shown by its first (most
/// recent) entry, and the shown history starts with the history's first
/// entry.
pub proof fn law_dedup_keeps_the_first_of_each_run(x: HistoryEntry, s: Seq<HistoryEntry>)
    ensures
        dedup_runs(seq![x] + s) == if s.len() > 0 && s[0].video_id@ == x.video_id@ {
            dedup_runs(seq![x] + s.drop_first())
        } else {
            seq![x] + dedup_runs(s)
        },
        dedup_runs(seq![x] + s)[0] == x,
    decreases s.len(),
{
    let t = seq![x] + s;
    if s.len() == 0 {
        assert(t =~= seq![x]);
        assert(seq![x] + dedup_runs(s) =~= seq![x]);
    } else if s.len() == 1 {
        assert(t.drop_last() =~= seq![x]);
        assert(t.last() == s[0]);
        assert(t[t.len() - 2] == x);
        if s[0].video_id@ == x.video_id@ {
            assert(seq![x] + s.drop_first() =~= seq![x]);
        } else {
            assert(dedup_runs(s) == s);
            assert(dedup_runs(seq![x]) == seq![x]);
            assert(dedup_runs(t) == seq![x].push(s[0]));
            assert(dedup_runs(t) =~= seq![x] + dedup_runs(s));
        }
    } else {
        let sd = s.drop_last();
        law_dedup_keeps_the_first_of_each_run(x, sd);
        assert(t.drop_last() =~= seq![x] + sd);
        assert(t.last() == s.last());
        assert(t[t.len() - 2] == s[s.len() - 2]);
        if s[0].video_id@ == x.video_id@ {
            let u = seq![x] + s.drop_first();
            assert(u.drop_last() =~= seq![x] + sd.drop_first());
            assert(u.last() == s.last());
            if s.len() == 2 {
                assert(u[u.len() - 2] == x);
            } else {
                assert(u[u.len() - 2] == s[s.len() - 2]);
            }
            assert(sd[0] == s[0]);
        } else {
            assert(sd[0] == s[0]);
            assert(s.drop_last() == sd);
            let r0 = dedup_runs(sd);
            if s.last().video_id@ != s[s.len() - 2].video_id@ {
                assert((seq![x] + r0).push(s.last()) =~= seq![x] + r0.push(s.last()));
            }
        }
        law_dedup_keeps_the_first_of_each_run(x, s.drop_first());
    }
}

/// Drops, from each run of consecutive entries of one video, all but the
/// first entry.
pub fn dedup_history(entries: Vec<HistoryEntry>) -> (r: Vec<HistoryEntry>)
    ensures
        r@ == dedup_runs(entries@),
{
    let ghost all = entries@;
    let mut entries = entries;
    let mut out: Vec<HistoryEntry> = Vec::new();
    let mut prev: Option<Vec<char>> = None;
    while entries.len() > 0
        invariant
            entries@.len() <= all.len(),
            entries@ == all.skip(all.len() - entries@.len()),
            out@ == dedup_runs(all.take(all.len() - entries@.len())),
            prev is None <==> entries@.len() == all.len(),
            prev matches Some(p) ==> p@ == all[all.len() - entries@.len() - 1].video_id@,
        decreases entries@.len(),
    {
        let ghost k = all.len() - entries@.len();
        let e = entries.remove(0);
        proof {
            assert(all.take(k + 1).drop_last() =~= all.take(k));
            assert(all.take(k + 1).last() == e);
            assert(entries@ =~= all.skip(all.len() - entries@.len()));
            if k >= 1 {
                assert(all.take(k + 1)[k - 1] == all[k - 1]);
            }
        }
        let id = chars_of(e.video_id.as_str());
        let same = match &prev {
            Some(p) => chars_eq(p, &id),
            None => false,
        };
        if !same {
            out.push(e);
        }
        prev = Some(id);
    }
    assert(all.take(all.len() as int) =~= all);
    out
}

} // verus!
