//! Starting playback from the lists of the interface, moving to the next or
//! previous entry of the list last played from, and the keys that control
//! the player while it plays.
use vstd::prelude::*;
use crate::api::invidious::Video;
use crate::config::settings::Settings;
use crate::db::connection::{copy_opt, HistoryEntry, PlaylistVideo, SavedVideo};
use crate::text::{concat, owned, str_eq};
use crate::ui::app::{
    demo_video, demo_video_of, watch_url, watch_url_of, App, AppMode, Command, DownloadRecord,
    ListFocus, PlayRequest, PlaybackState, PlayedList, SearchFocus,
};

verus! {

/// The text of an optional `String`.
pub open spec fn text_of(o: Option<String>) -> Option<Seq<char>> {
    match o {
        Some(s) => Some(s@),
        None => None,
    }
}

/// `new` differs from `old` at most in the playback fields and in the list
/// last played from.
pub open spec fn same_but_playback(old: App, new: App) -> bool {
    new == App {
        is_playing: new.is_playing,
        is_paused: new.is_paused,
        loading_message: new.loading_message,
        playback_title: new.playback_title,
        playback_state: new.playback_state,
        playback_started: new.playback_started,
        playback_error: new.playback_error,
        playback_is_audio: new.playback_is_audio,
        last_played_category: new.last_played_category,
        last_played_index: new.last_played_index,
        ..old
    }
}

/// The playback fields of `new` show `title` starting to play at `now`.
pub open spec fn shows_playing(old: App, new: App, title: Seq<char>, now: u64) -> bool {
    &&& new.is_playing
    &&& !new.is_paused
    &&& new.loading_message@ == "Playing: "@ + title + "..."@
    &&& new.playback_title@ == title
    &&& new.playback_state == PlaybackState::Loading
    &&& new.playback_started == Some(now)
    &&& new.playback_error is None
    &&& new.playback_is_audio == (old.settings.default_format@ == "mp3"@)
}

/// After playing from `list` with `selected` selected: the list and the
/// selection are remembered, when there is a selection.
pub open spec fn remembers(old: App, new: App, selected: Option<usize>, list: PlayedList) -> bool {
    match selected {
        Some(i) => new.last_played_category == Some(list) && new.last_played_index == Some(i),
        None => new.last_played_category == old.last_played_category && new.last_played_index
            == old.last_played_index,
    }
}

/// The page of the video after the selected one, to queue; `ids` are the
/// video ids of the list.
pub open spec fn next_page(ids: Seq<Seq<char>>, selected: Option<usize>) -> Option<Seq<char>> {
    match selected {
        Some(i) => if i + 1 < ids.len() {
            Some(watch_url(ids[i + 1]))
        } else {
            None
        },
        None => None,
    }
}

/// `req` plays `video_id` with the quality, format and looping of
/// `settings`, and queues `queue_next`.
pub open spec fn requests(
    req: PlayRequest,
    settings: Settings,
    video_id: Seq<char>,
    title: Seq<char>,
    channel: Option<Seq<char>>,
    queue_next: Option<Seq<char>>,
) -> bool {
    &&& req.url@ == watch_url(video_id)
    &&& req.video_id@ == video_id
    &&& req.title@ == title
    &&& text_of(req.channel) == channel
    &&& req.quality == settings.default_quality
    &&& req.format == settings.default_format
    &&& req.loop_playback == settings.loop_playback
    &&& text_of(req.queue_next) == queue_next
}

/// `new` and `r` are what playing the video `video_id` from `list` (whose
/// video ids are `ids` and whose selection is `selected`) makes of `old`.
pub open spec fn plays_from(
    old: App,
    new: App,
    r: Command,
    now: u64,
    video_id: Seq<char>,
    title: Seq<char>,
    channel: Option<Seq<char>>,
    selected: Option<usize>,
    list: PlayedList,
    ids: Seq<Seq<char>>,
) -> bool {
    &&& same_but_playback(old, new)
    &&& shows_playing(old, new, title, now)
    &&& remembers(old, new, selected, list)
    &&& r matches Command::Play(req)
    &&& requests(req, old.settings, video_id, title, channel, next_page(ids, selected))
}

pub open spec fn history_ids(s: Seq<HistoryEntry>) -> Seq<Seq<char>> {
    s.map_values(|e: HistoryEntry| e.video_id@)
}

pub open spec fn saved_ids(s: Seq<SavedVideo>) -> Seq<Seq<char>> {
    s.map_values(|e: SavedVideo| e.video_id@)
}

pub open spec fn search_ids(s: Seq<Video>) -> Seq<Seq<char>> {
    s.map_values(|e: Video| e.video_id@)
}

pub open spec fn playlist_ids(s: Seq<PlaylistVideo>) -> Seq<Seq<char>> {
    s.map_values(|e: PlaylistVideo| e.video_id@)
}

/// The video ids behind the titles of the main list.
pub open spec fn main_ids(s: Seq<String>) -> Seq<Seq<char>> {
    s.map_values(|t: String| demo_video(t@).0)
}

/// Playing entry `i` of `list` from the state `s`.
pub open spec fn plays_entry(s: App, new: App, r: Command, now: u64, list: PlayedList, i: int) -> bool {
    match list {
        PlayedList::History => {
            let e = s.history_results@[i];
            plays_from(s, new, r, now, e.video_id@, e.title@, text_of(e.channel), s.history_selected,
                list, history_ids(s.history_results@))
        },
        PlayedList::Saved => {
            let e = s.saved_results@[i];
            plays_from(s, new, r, now, e.video_id@, e.title@, text_of(e.channel), s.saved_selected,
                list, saved_ids(s.saved_results@))
        },
        PlayedList::Search => {
            let e = s.search_results@[i];
            plays_from(s, new, r, now, e.video_id@, e.title@, text_of(e.author), s.list_selected,
                list, search_ids(s.search_results@))
        },
        PlayedList::Main => {
            let t = s.items@[i]@;
            plays_from(s, new, r, now, demo_video(t).0, t, Some(demo_video(t).1), s.list_selected,
                list, main_ids(s.items@))
        },
        PlayedList::Playlist => {
            let e = s.playlist_videos@[i];
            plays_from(s, new, r, now, e.video_id@, e.title@, text_of(e.channel),
                s.playlist_videos_selected, list, playlist_ids(s.playlist_videos@))
        },
    }
}

/// The length of `list` in `s`.
pub open spec fn list_len(s: App, list: PlayedList) -> nat {
    match list {
        PlayedList::History => s.history_results@.len(),
        PlayedList::Saved => s.saved_results@.len(),
        PlayedList::Search => s.search_results@.len(),
        PlayedList::Main => s.items@.len(),
        PlayedList::Playlist => s.playlist_videos@.len(),
    }
}

/// `s` with entry `t` of `list` selected and remembered as last played.
pub open spec fn select_in(s: App, list: PlayedList, t: usize) -> App {
    match list {
        PlayedList::History => App { history_selected: Some(t), last_played_index: Some(t), ..s },
        PlayedList::Saved => App { saved_selected: Some(t), last_played_index: Some(t), ..s },
        PlayedList::Search => App { list_selected: Some(t), last_played_index: Some(t), ..s },
        PlayedList::Main => App { list_selected: Some(t), last_played_index: Some(t), ..s },
        PlayedList::Playlist => App { playlist_videos_selected: Some(t), last_played_index: Some(t), ..s },
    }
}

/// Going to entry `t` of `list`: it is selected and played when it exists;
/// otherwise nothing happens.
#[verifier::opaque]
pub open spec fn jumps_to(old: App, new: App, r: Command, now: u64, list: PlayedList, t: int) -> bool {
    if 0 <= t < list_len(old, list) {
        plays_entry(select_in(old, list, t as usize), new, r, now, list, t)
    } else {
        new == old && r is Nothing
    }
}

/// The keys typed go into a text field rather than to the player.
pub open spec fn typing(s: App) -> bool {
    match s.mode {
        AppMode::Search => s.search_focus == SearchFocus::Input,
        AppMode::Playlist => s.playlist_prompt_mode is Some || s.playlist_focus == ListFocus::Input,
        AppMode::History => s.history_focus == ListFocus::Input,
        AppMode::Saved => s.saved_focus == ListFocus::Input,
        _ => false,
    }
}

impl App {
    /// The playback fields show `title` starting to play at `now` (ms).
    pub fn begin_playback(&mut self, title: &str, now: u64)
        ensures
            same_but_playback(*old(self), *final(self)),
            shows_playing(*old(self), *final(self), title@, now),
            final(self).last_played_category == old(self).last_played_category,
            final(self).last_played_index == old(self).last_played_index,
    {
        self.is_playing = true;
        self.is_paused = false;
        let mut msg = concat("Playing: ", title);
        msg.push_str("...");
        self.loading_message = msg;
        self.playback_title = owned(title);
        self.playback_state = PlaybackState::Loading;
        self.playback_started = Some(now);
        self.playback_error = None;
        self.playback_is_audio = str_eq(self.settings.default_format.as_str(), "mp3");
    }

    /// The request to play `video_id` with the current settings.
    fn request(&self, video_id: &str, title: &str, channel: Option<String>, queue_next: Option<String>) -> (r:
        PlayRequest)
        ensures
            requests(r, self.settings, video_id@, title@, text_of(channel), text_of(queue_next)),
    {
        PlayRequest {
            url: watch_url_of(video_id),
            video_id: owned(video_id),
            title: owned(title),
            channel,
            quality: self.settings.default_quality.clone(),
            format: self.settings.default_format.clone(),
            loop_playback: self.settings.loop_playback,
            queue_next,
        }
    }

    /// Plays an entry of the history.
    pub fn play_history_video(&mut self, entry: &HistoryEntry, now: u64) -> (r: Command)
        ensures
            plays_from(*old(self), *final(self), r, now, entry.video_id@, entry.title@,
                text_of(entry.channel), old(self).history_selected, PlayedList::History,
                history_ids(old(self).history_results@)),
    {
        let mut queue_next: Option<String> = None;
        if let Some(idx) = self.history_selected {
            self.last_played_category = Some(PlayedList::History);
            self.last_played_index = Some(idx);
            if idx < self.history_results.len() && self.history_results.len() - idx > 1 {
                queue_next = Some(watch_url_of(self.history_results[idx + 1].video_id.as_str()));
            }
        }
        let req = self.request(entry.video_id.as_str(), entry.title.as_str(), copy_opt(&entry.channel),
            queue_next);
        self.begin_playback(entry.title.as_str(), now);
        Command::Play(req)
    }

    /// Plays a saved video.
    pub fn play_saved_video(&mut self, video: &SavedVideo, now: u64) -> (r: Command)
        ensures
            plays_from(*old(self), *final(self), r, now, video.video_id@, video.title@,
                text_of(video.channel), old(self).saved_selected, PlayedList::Saved,
                saved_ids(old(self).saved_results@)),
    {
        let mut queue_next: Option<String> = None;
        if let Some(idx) = self.saved_selected {
            self.last_played_category = Some(PlayedList::Saved);
            self.last_played_index = Some(idx);
            if idx < self.saved_results.len() && self.saved_results.len() - idx > 1 {
                queue_next = Some(watch_url_of(self.saved_results[idx + 1].video_id.as_str()));
            }
        }
        let req = self.request(video.video_id.as_str(), video.title.as_str(), copy_opt(&video.channel),
            queue_next);
        self.begin_playback(video.title.as_str(), now);
        Command::Play(req)
    }

    /// Plays a search result.
    pub fn play_search_video(&mut self, video: &Video, now: u64) -> (r: Command)
        ensures
            plays_from(*old(self), *final(self), r, now, video.video_id@, video.title@,
                text_of(video.author), old(self).list_selected, PlayedList::Search,
                search_ids(old(self).search_results@)),
    {
        let mut queue_next: Option<String> = None;
        if let Some(idx) = self.list_selected {
            self.last_played_category = Some(PlayedList::Search);
            self.last_played_index = Some(idx);
            if idx < self.search_results.len() && self.search_results.len() - idx > 1 {
                queue_next = Some(watch_url_of(self.search_results[idx + 1].video_id.as_str()));
            }
        }
        let req = self.request(video.video_id.as_str(), video.title.as_str(), copy_opt(&video.author),
            queue_next);
        self.begin_playback(video.title.as_str(), now);
        Command::Play(req)
    }

    /// Plays a video of the open playlist.
    pub fn play_playlist_video(&mut self, video: &PlaylistVideo, now: u64) -> (r: Command)
        ensures
            plays_from(*old(self), *final(self), r, now, video.video_id@, video.title@,
                text_of(video.channel), old(self).playlist_videos_selected, PlayedList::Playlist,
                playlist_ids(old(self).playlist_videos@)),
    {
        let mut queue_next: Option<String> = None;
        if let Some(idx) = self.playlist_videos_selected {
            self.last_played_category = Some(PlayedList::Playlist);
            self.last_played_index = Some(idx);
            if idx < self.playlist_videos.len() && self.playlist_videos.len() - idx > 1 {
                queue_next = Some(watch_url_of(self.playlist_videos[idx + 1].video_id.as_str()));
            }
        }
        let req = self.request(video.video_id.as_str(), video.title.as_str(), copy_opt(&video.channel),
            queue_next);
        self.begin_playback(video.title.as_str(), now);
        Command::Play(req)
    }

    /// Plays a title of the main list, as the video its title stands for.
    pub fn play_main_video(&mut self, video_title: &str, now: u64) -> (r: Command)
        ensures
            plays_from(*old(self), *final(self), r, now, demo_video(video_title@).0, video_title@,
                Some(demo_video(video_title@).1), old(self).list_selected, PlayedList::Main,
                main_ids(old(self).items@)),
    {
        let mut queue_next: Option<String> = None;
        if let Some(idx) = self.list_selected {
            self.last_played_category = Some(PlayedList::Main);
            self.last_played_index = Some(idx);
            if idx < self.items.len() && self.items.len() - idx > 1 {
                let (next_id, _) = demo_video_of(self.items[idx + 1].as_str());
                queue_next = Some(watch_url_of(next_id));
            }
        }
        let (video_id, channel) = demo_video_of(video_title);
        let req = self.request(video_id, video_title, Some(owned(channel)), queue_next);
        self.begin_playback(video_title, now);
        Command::Play(req)
    }

    /// Selects entry `t` of `list`, remembers it as last played and plays
    /// it, when it exists.
    pub fn play_at(&mut self, list: PlayedList, t: usize, now: u64) -> (r: Command)
        ensures
            jumps_to(*old(self), *final(self), r, now, list, t as int),
    {
        match list {
            PlayedList::History => self.play_history_at(t, now),
            PlayedList::Saved => self.play_saved_at(t, now),
            PlayedList::Search => self.play_search_at(t, now),
            PlayedList::Main => self.play_main_at(t, now),
            PlayedList::Playlist => self.play_playlist_at(t, now),
        }
    }

    fn play_history_at(&mut self, t: usize, now: u64) -> (r: Command)
        ensures
            jumps_to(*old(self), *final(self), r, now, PlayedList::History, t as int),
    {
        proof {
            reveal(jumps_to);
        }
        if t < self.history_results.len() {
            self.history_selected = Some(t);
            self.last_played_index = Some(t);
            let e = self.history_results[t].clone();
            self.play_history_video(&e, now)
        } else {
            Command::Nothing
        }
    }

    fn play_saved_at(&mut self, t: usize, now: u64) -> (r: Command)
        ensures
            jumps_to(*old(self), *final(self), r, now, PlayedList::Saved, t as int),
    {
        proof {
            reveal(jumps_to);
        }
        if t < self.saved_results.len() {
            self.saved_selected = Some(t);
            self.last_played_index = Some(t);
            let v = self.saved_results[t].clone();
            self.play_saved_video(&v, now)
        } else {
            Command::Nothing
        }
    }

    fn play_search_at(&mut self, t: usize, now: u64) -> (r: Command)
        ensures
            jumps_to(*old(self), *final(self), r, now, PlayedList::Search, t as int),
    {
        proof {
            reveal(jumps_to);
        }
        if t < self.search_results.len() {
            self.list_selected = Some(t);
            self.last_played_index = Some(t);
            let v = self.search_results[t].clone();
            self.play_search_video(&v, now)
        } else {
            Command::Nothing
        }
    }

    fn play_main_at(&mut self, t: usize, now: u64) -> (r: Command)
        ensures
            jumps_to(*old(self), *final(self), r, now, PlayedList::Main, t as int),
    {
        proof {
            reveal(jumps_to);
        }
        if t < self.items.len() {
            self.list_selected = Some(t);
            self.last_played_index = Some(t);
            let title = self.items[t].clone();
            self.play_main_video(title.as_str(), now)
        } else {
            Command::Nothing
        }
    }

    fn play_playlist_at(&mut self, t: usize, now: u64) -> (r: Command)
        ensures
            jumps_to(*old(self), *final(self), r, now, PlayedList::Playlist, t as int),
    {
        proof {
            reveal(jumps_to);
        }
        if t < self.playlist_videos.len() {
            self.playlist_videos_selected = Some(t);
            self.last_played_index = Some(t);
            let v = self.playlist_videos[t].clone();
            self.play_playlist_video(&v, now)
        } else {
            Command::Nothing
        }
    }

    /// When nothing plays, the entry after the one last played, in the list
    /// it was played from (the open playlist only while the playlists are
    /// shown).
    pub fn play_next_video(&mut self, now: u64) -> (r: Command)
        requires
            !old(self).is_playing && (old(self).last_played_category matches Some(c) && (c
                != PlayedList::Playlist || (old(self).mode == AppMode::Playlist
                && old(self).playlist_videos@.len() > 0))) ==> old(self).last_played_index != Some(
                usize::MAX,
            ),
        ensures
            (old(self).is_playing || old(self).last_played_category is None
                || old(self).last_played_index is None) ==> *final(self) == *old(self) && r is Nothing,
            !old(self).is_playing ==> (old(self).last_played_category matches Some(c) ==> (
            old(self).last_played_index matches Some(i) ==> (if c == PlayedList::Playlist
                && old(self).mode != AppMode::Playlist {
                *final(self) == *old(self) && r is Nothing
            } else {
                jumps_to(*old(self), *final(self), r, now, c, i + 1)
            }))),
    {
        if self.is_playing {
            return Command::Nothing;
        }
        let category = match self.last_played_category {
            Some(c) => c,
            None => {
                return Command::Nothing;
            },
        };
        let idx = match self.last_played_index {
            Some(i) => i,
            None => {
                return Command::Nothing;
            },
        };
        if category == PlayedList::Playlist && self.mode != AppMode::Playlist {
            return Command::Nothing;
        }
        if category == PlayedList::Playlist && self.playlist_videos.len() == 0 {
            proof {
                reveal(jumps_to);
            }
            return Command::Nothing;
        }
        self.play_at(category, idx + 1, now)
    }

    /// Skips `delta` entries from the one last played, in the list it was
    /// played from, even while something plays.
    pub fn skip_relative(&mut self, delta: i64, now: u64) -> (r: Command)
        requires
            old(self).last_played_category is Some ==> (old(self).last_played_index matches Some(i)
                ==> i64::MIN <= (i as i64) + delta <= i64::MAX),
        ensures
            (old(self).last_played_category is None || old(self).last_played_index is None) ==> (
            *final(self) == *old(self) && r is Nothing),
            old(self).last_played_category is Some ==> (old(self).last_played_index matches Some(i) ==> (
            (i as i64) + delta < 0 ==> (*final(self) == *old(self) && r is Nothing))),
            old(self).last_played_category matches Some(c) ==> (old(self).last_played_index matches Some(i)
                ==> ((i as i64) + delta >= 0 ==> jumps_to(*old(self), *final(self), r, now, c,
            (((i as i64) + delta) as usize) as int))),
    {
        let category = match self.last_played_category {
            Some(c) => c,
            None => {
                return Command::Nothing;
            },
        };
        let idx = match self.last_played_index {
            Some(i) => i,
            None => {
                return Command::Nothing;
            },
        };
        let target: i64 = idx as i64 + delta;
        if target < 0 {
            return Command::Nothing;
        }
        let t = target as usize;
        self.play_at(category, t, now)
    }

    /// The keys typed go into a text field rather than to the player.
    pub fn is_typing_context(&self) -> (r: bool)
        ensures
            r == typing(*self),
    {
        match self.mode {
            AppMode::Search => self.search_focus == SearchFocus::Input,
            AppMode::Playlist => self.playlist_prompt_mode.is_some() || self.playlist_focus
                == ListFocus::Input,
            AppMode::History => self.history_focus == ListFocus::Input,
            AppMode::Saved => self.saved_focus == ListFocus::Input,
            _ => false,
        }
    }

    /// Pauses or resumes the player.
    pub fn media_toggle_pause(&mut self) -> (r: Command)
        ensures
            *final(self) == (App { is_paused: !old(self).is_paused, ..*old(self) }),
            r is TogglePause,
    {
        self.is_paused = !self.is_paused;
        Command::TogglePause
    }

    /// Plays a downloaded file; `exists` says whether the file is still on
    /// disk.
    pub fn play_downloaded(&mut self, rec: &DownloadRecord, exists: bool, now: u64) -> (r: Command)
        ensures
            !exists ==> r is Nothing && *final(self) == (App {
                current_error: final(self).current_error,
                current_suggestion: None,
                ..*old(self)
            }) && (final(self).current_error matches Some(m) && m@ == "File not found: "@ + rec.path@),
            exists ==> {
                &&& same_but_playback(*old(self), *final(self))
                &&& shows_playing(*old(self), App { playback_is_audio: old(self).settings.default_format@
                    == "mp3"@, ..*final(self) }, rec.title@, now)
                &&& final(self).playback_is_audio == (rec.kind@ == "audio"@)
                &&& final(self).last_played_category == old(self).last_played_category
                &&& final(self).last_played_index == old(self).last_played_index
                &&& r matches Command::PlayFile { path, audio, quality, loop_playback }
                &&& path == rec.path
                &&& audio == (rec.kind@ == "audio"@)
                &&& quality == old(self).settings.default_quality
                &&& loop_playback == old(self).settings.loop_playback
            },
    {
        if !exists {
            self.set_error(concat("File not found: ", rec.path.as_str()));
            return Command::Nothing;
        }
        let is_audio = str_eq(rec.kind.as_str(), "audio");
        self.begin_playback(rec.title.as_str(), now);
        self.playback_is_audio = is_audio;
        Command::PlayFile {
            path: rec.path.clone(),
            audio: is_audio,
            quality: self.settings.default_quality.clone(),
            loop_playback: self.settings.loop_playback,
        }
    }
}

} // verus!
