//! How the interface takes the results of outside work: reads of the
//! database and of the download records, the answers of background
//! requests, playback notifications and download progress.
use vstd::prelude::*;
use crate::config::settings::{parent_dir, path_parent, Settings};
use crate::api::invidious::Video;
use crate::db::connection::{HistoryEntry, Playlist, PlaylistVideo, SavedVideo};
use crate::download::downloader::DownloadProgress;
use crate::player::mpv::PlaybackNotification;
use crate::text::{chars_of, concat, join, join_path, owned, str_eq, string_of, trim, trim_chars};
use crate::ui::app::{
    App, Command, DownloadBarState, DownloadRecord, ListFocus, PlaybackState, PlaylistAddResponse,
    PlaylistsFor, SearchFocus, SearchResponse,
};

verus! {

/// How long a playback stays "loading" before it is shown as playing, in
/// milliseconds.
pub open spec fn loading_grace() -> u64 {
    1200
}

/// `s` one tick of the animation clock later.
#[verifier::opaque]
pub open spec fn ticked(s: App) -> App {
    App { anim_tick: if s.anim_tick == u64::MAX { 0 } else { (s.anim_tick + 1) as u64 }, ..s }
}

/// `s` once the player exited.
#[verifier::opaque]
pub open spec fn ended_state(s: App) -> App {
    App {
        is_playing: false,
        is_paused: false,
        playback_state: PlaybackState::Idle,
        playback_started: None,
        ..s
    }
}

/// `s` after a playback notification at `now`.
#[verifier::opaque]
pub open spec fn notified(s: App, n: PlaybackNotification, now: u64) -> App {
    match n {
        PlaybackNotification::Failure(e) => if s.playback_state != PlaybackState::Idle {
            App { playback_state: PlaybackState::Error, playback_error: Some(e), ..s }
        } else {
            s
        },
        PlaybackNotification::Success(_) => App {
            playback_state: PlaybackState::Playing,
            playback_started: if s.playback_started is None { Some(now) } else { s.playback_started },
            ..s
        },
        PlaybackNotification::FallbackAttempt(_) => App { playback_state: PlaybackState::Loading, ..s },
    }
}

/// `s` after the notifications `ns`, taken in order.
pub open spec fn after_notices(s: App, ns: Seq<PlaybackNotification>, now: u64) -> App
    decreases ns.len(),
{
    if ns.len() == 0 {
        s
    } else {
        notified(after_notices(s, ns.drop_last(), now), ns.last(), now)
    }
}

/// `s` with a playback still loading after the grace period shown as
/// playing.
#[verifier::opaque]
pub open spec fn promoted(s: App, now: u64) -> App {
    if s.playback_state == PlaybackState::Loading && (s.playback_started matches Some(t) && now > t
        && now - t > loading_grace()) {
        App { playback_state: PlaybackState::Playing, ..s }
    } else {
        s
    }
}

/// When the player exits in the same update as a failure is reported, the
/// end is taken first: nothing is playing, and the failure, arriving when
/// nothing plays, leaves the error shown as it was.
pub proof fn law_end_comes_before_failure(s: App, e: String, now: u64)
    ensures
        ({
            let r = promoted(
                after_notices(ended_state(ticked(s)), seq![PlaybackNotification::Failure(e)], now),
                now,
            );
            &&& r.playback_state == PlaybackState::Idle
            &&& r.playback_error == s.playback_error
            &&& !r.is_playing
            &&& !r.is_paused
            &&& r.playback_started is None
        }),
{
    reveal(ticked);
    reveal(ended_state);
    reveal(notified);
    reveal(promoted);
    let ns = seq![PlaybackNotification::Failure(e)];
    let x = ended_state(ticked(s));
    assert(ns.drop_last() =~= Seq::<PlaybackNotification>::empty());
    assert(after_notices(x, ns.drop_last(), now) == x);
    assert(ns.last() == PlaybackNotification::Failure(e));
    assert(after_notices(x, ns, now) == notified(x, PlaybackNotification::Failure(e), now));
    assert(notified(x, PlaybackNotification::Failure(e), now) == x);
}

/// The selection of a freshly filled list of `len` entries.
pub open spec fn first_selection(len: nat) -> Option<usize> {
    if len > 0 {
        Some(0usize)
    } else {
        None
    }
}

/// The focus after a list of `len` entries was filled: the list, when it
/// has any.
pub open spec fn focus_after(len: nat, focus: ListFocus) -> ListFocus {
    if len > 0 {
        ListFocus::List
    } else {
        focus
    }
}

/// What the folder picker chose, as its file holds it: the path, without
/// the whitespace around it, and the directory that holds that path.
pub fn picker_choice(chosen: &str) -> (r: (String, Option<String>))
    ensures
        r.0@ == trim(chosen@),
        match r.1 {
            Some(p) => path_parent(trim(chosen@)) == Some(p@),
            None => path_parent(trim(chosen@)) is None,
        },
{
    let v = chars_of(chosen);
    let path = string_of(&trim_chars(&v));
    let parent = parent_dir(path.as_str());
    (path, parent)
}


impl App {
    /// The history was read.
    pub fn history_loaded(&mut self, results: Vec<HistoryEntry>)
        ensures
            *final(self) == (App {
                history_results: results,
                history_selected: if results@.len() > 0 {
                    Some(0usize)
                } else {
                    None
                },
                history_focus: if results@.len() > 0 {
                    ListFocus::List
                } else {
                    old(self).history_focus
                },
                ..*old(self)
            }),
    {
        self.history_selected = None;
        if results.len() > 0 {
            self.history_selected = Some(0);
            self.history_focus = ListFocus::List;
        }
        self.history_results = results;
    }

    /// The saved videos were read.
    pub fn saved_loaded(&mut self, results: Vec<SavedVideo>)
        ensures
            *final(self) == (App {
                saved_results: results,
                saved_selected: if results@.len() > 0 {
                    Some(0usize)
                } else {
                    None
                },
                saved_focus: if results@.len() > 0 {
                    ListFocus::List
                } else {
                    old(self).saved_focus
                },
                ..*old(self)
            }),
    {
        self.saved_selected = None;
        if results.len() > 0 {
            self.saved_selected = Some(0);
            self.saved_focus = ListFocus::List;
        }
        self.saved_results = results;
    }

    /// The playlists were read: to be viewed (the first one selected and
    /// the list focused when there are any, and the open playlist and
    /// prompt closed), or to add a video to (the first one selected and the
    /// open playlist closed).
    pub fn playlists_loaded(&mut self, results: Vec<Playlist>, purpose: PlaylistsFor)
        ensures
            purpose == PlaylistsFor::View ==> *final(self) == (App {
                playlist_results: results,
                playlist_selected: if results@.len() > 0 {
                    Some(0usize)
                } else {
                    None
                },
                playlist_focus: if results@.len() > 0 {
                    ListFocus::List
                } else {
                    old(self).playlist_focus
                },
                playlist_videos: final(self).playlist_videos,
                playlist_videos_selected: None,
                playlist_prompt: final(self).playlist_prompt,
                playlist_prompt_mode: None,
                ..*old(self)
            }) && final(self).playlist_videos@.len() == 0 && final(self).playlist_prompt@.len() == 0,
            purpose == PlaylistsFor::Add ==> *final(self) == (App {
                playlist_results: results,
                playlist_selected: Some(0usize),
                playlist_videos: final(self).playlist_videos,
                playlist_videos_selected: None,
                ..*old(self)
            }) && final(self).playlist_videos@.len() == 0,
    {
        let nonempty = results.len() > 0;
        self.playlist_results = results;
        self.playlist_videos = Vec::new();
        self.playlist_videos_selected = None;
        match purpose {
            PlaylistsFor::View => {
                self.playlist_selected = None;
                if nonempty {
                    self.playlist_selected = Some(0);
                    self.playlist_focus = ListFocus::List;
                }
                self.playlist_prompt = String::new();
                self.playlist_prompt_mode = None;
            },
            PlaylistsFor::Add => {
                self.playlist_selected = Some(0);
            },
        }
    }

    /// The download records were read.
    pub fn downloads_loaded(&mut self, records: Vec<DownloadRecord>)
        ensures
            *final(self) == (App {
                downloads: records,
                downloads_selected: if records@.len() > 0 && old(self).downloads_selected is None {
                    Some(0usize)
                } else {
                    old(self).downloads_selected
                },
                ..*old(self)
            }),
    {
        if records.len() > 0 && self.downloads_selected.is_none() {
            self.downloads_selected = Some(0);
        }
        self.downloads = records;
    }

    /// The videos of the chosen playlist were read (or the read failed).
    pub fn playlist_videos_loaded(&mut self, result: Result<Vec<PlaylistVideo>, String>)
        ensures
            result matches Ok(videos) ==> *final(self) == (App {
                playlist_videos: videos,
                playlist_videos_selected: first_selection(videos@.len()),
                ..*old(self)
            }),
            result matches Err(e) ==> *final(self) == (App {
                current_error: final(self).current_error,
                current_suggestion: None,
                ..*old(self)
            }) && (final(self).current_error matches Some(m) && m@ == "Failed to load playlist videos: "@
                + e@),
    {
        match result {
            Ok(videos) => {
                self.set_playlist_videos(videos);
            },
            Err(e) => {
                self.set_error(concat("Failed to load playlist videos: ", e.as_str()));
            },
        }
    }

    /// These are the videos of the open playlist, the first selected.
    pub fn set_playlist_videos(&mut self, videos: Vec<PlaylistVideo>)
        ensures
            *final(self) == (App {
                playlist_videos: videos,
                playlist_videos_selected: first_selection(videos@.len()),
                ..*old(self)
            }),
    {
        self.playlist_videos_selected = None;
        if videos.len() > 0 {
            self.playlist_videos_selected = Some(0);
        }
        self.playlist_videos = videos;
    }

    /// The history was cleared (or clearing it failed).
    pub fn history_cleared(&mut self, result: Result<(), String>)
        ensures
            result is Ok ==> *final(self) == (App {
                history_results: final(self).history_results,
                history_selected: None,
                ..*old(self)
            }) && final(self).history_results@.len() == 0,
            result matches Err(e) ==> *final(self) == (App {
                current_error: final(self).current_error,
                current_suggestion: None,
                ..*old(self)
            }) && (final(self).current_error matches Some(m) && m@ == "Failed to clear history: "@ + e@),
    {
        match result {
            Ok(()) => {
                self.history_results = Vec::new();
                self.history_selected = None;
            },
            Err(e) => {
                self.set_error(concat("Failed to clear history: ", e.as_str()));
            },
        }
    }

    /// A saved video was removed and the saved videos read again (or the
    /// removal failed).
    pub fn unsave_done(&mut self, result: Result<Vec<SavedVideo>, String>)
        ensures
            result matches Ok(saved) ==> *final(self) == (App {
                saved_results: saved,
                saved_selected: Some(0usize),
                ..*old(self)
            }),
            result matches Err(e) ==> *final(self) == (App {
                current_error: final(self).current_error,
                current_suggestion: None,
                ..*old(self)
            }) && (final(self).current_error matches Some(m) && m@ == "Failed to unsave video: "@ + e@),
    {
        match result {
            Ok(saved) => {
                self.saved_results = saved;
                self.saved_selected = Some(0);
            },
            Err(e) => {
                self.set_error(concat("Failed to unsave video: ", e.as_str()));
            },
        }
    }

    /// A playlist was created and the playlists read again (or the creation
    /// failed).
    pub fn playlist_created(&mut self, result: Result<Vec<Playlist>, String>)
        ensures
            result matches Ok(list) ==> *final(self) == (App {
                playlist_results: list,
                playlist_selected: Some(0usize),
                ..*old(self)
            }),
            result matches Err(e) ==> *final(self) == (App {
                current_error: final(self).current_error,
                current_suggestion: None,
                ..*old(self)
            }) && (final(self).current_error matches Some(m) && m@ == "Failed to create playlist: "@
                + e@),
    {
        match result {
            Ok(list) => {
                self.playlist_results = list;
                self.playlist_selected = Some(0);
            },
            Err(e) => {
                self.set_error(concat("Failed to create playlist: ", e.as_str()));
            },
        }
    }

    /// A playlist was deleted and the playlists read again (or the deletion
    /// failed).
    pub fn playlist_deleted(&mut self, result: Result<Vec<Playlist>, String>)
        ensures
            result matches Ok(list) ==> *final(self) == (App {
                playlist_results: list,
                playlist_selected: Some(0usize),
                playlist_videos: final(self).playlist_videos,
                playlist_videos_selected: None,
                ..*old(self)
            }) && final(self).playlist_videos@.len() == 0,
            result matches Err(e) ==> *final(self) == (App {
                current_error: final(self).current_error,
                current_suggestion: None,
                ..*old(self)
            }) && (final(self).current_error matches Some(m) && m@ == "Failed to delete playlist: "@
                + e@),
    {
        match result {
            Ok(list) => {
                self.playlist_results = list;
                self.playlist_selected = Some(0);
                self.playlist_videos = Vec::new();
                self.playlist_videos_selected = None;
            },
            Err(e) => {
                self.set_error(concat("Failed to delete playlist: ", e.as_str()));
            },
        }
    }

    /// A video was removed from the open playlist; `Ok(Some(videos))` when
    /// its videos could be read again. A selection past the end moves to the
    /// last video.
    pub fn playlist_video_removed(&mut self, result: Result<Option<Vec<PlaylistVideo>>, String>)
        ensures
            result matches Ok(Some(videos)) ==> *final(self) == (App {
                playlist_videos: videos,
                playlist_videos_selected: match old(self).playlist_videos_selected {
                    Some(s) => if s >= videos@.len() {
                        Some(if videos@.len() == 0 {
                            0usize
                        } else {
                            (videos@.len() - 1) as usize
                        })
                    } else {
                        Some(s)
                    },
                    None => None,
                },
                ..*old(self)
            }),
            result matches Ok(None) ==> *final(self) == *old(self),
            result matches Err(e) ==> *final(self) == (App {
                current_error: final(self).current_error,
                current_suggestion: None,
                ..*old(self)
            }) && (final(self).current_error matches Some(m) && m@
                == "Failed to remove video from playlist: "@ + e@),
    {
        match result {
            Ok(Some(videos)) => {
                let n = videos.len();
                self.playlist_videos = videos;
                if let Some(s) = self.playlist_videos_selected {
                    if s >= n {
                        self.playlist_videos_selected = Some(n.saturating_sub(1));
                    }
                }
            },
            Ok(None) => {},
            Err(e) => {
                self.set_error(concat("Failed to remove video from playlist: ", e.as_str()));
            },
        }
    }

    /// The folder picker chose `dir` as the download path.
    pub fn set_download_path(&mut self, dir: String)
        ensures
            *final(self) == (App {
                settings: Settings { download_path: dir, ..old(self).settings },
                current_error: final(self).current_error,
                current_suggestion: None,
                ..*old(self)
            }),
            final(self).current_error matches Some(m) && m@ == "Download path set to: "@ + dir@,
    {
        let msg = concat("Download path set to: ", dir.as_str());
        self.settings.download_path = dir;
        self.set_error(msg);
    }

    /// The folder picker chose `path` (`path_is_dir` when it is a
    /// directory), within `parent` (`parent_is_dir` when that is one): the
    /// chosen directory, or else the one that holds the chosen file,
    /// becomes the download path and the settings are to be saved; a choice
    /// that is neither leaves everything as it was.
    pub fn folder_picked(&mut self, path: String, path_is_dir: bool, parent: Option<String>, parent_is_dir: bool) -> (r: Command)
        ensures
            path_is_dir ==> (final(self).settings.download_path == path && r == (
            Command::SettingsChanged { recreate_player: None, pick_download_path: false })),
            !path_is_dir && parent_is_dir && parent is Some ==> (Some(final(self).settings.download_path)
                == parent && r == (Command::SettingsChanged {
                recreate_player: None,
                pick_download_path: false,
            })),
            (path_is_dir || (parent_is_dir && parent is Some)) ==> {
                &&& *final(self) == (App {
                    settings: Settings { download_path: final(self).settings.download_path, ..old(self).settings },
                    current_error: final(self).current_error,
                    current_suggestion: None,
                    ..*old(self)
                })
                &&& final(self).current_error matches Some(m)
                &&& m@ == "Download path set to: "@ + final(self).settings.download_path@
            },
            !(path_is_dir || (parent_is_dir && parent is Some)) ==> *final(self) == *old(self) && r is Nothing,
    {
        if path_is_dir {
            self.set_download_path(path);
            return Command::SettingsChanged { recreate_player: None, pick_download_path: false };
        }
        match parent {
            Some(dir) => if parent_is_dir {
                self.set_download_path(dir);
                Command::SettingsChanged { recreate_player: None, pick_download_path: false }
            } else {
                Command::Nothing
            },
            None => Command::Nothing,
        }
    }

    /// The folder picker could not be started.
    pub fn yazi_missing(&mut self)
        ensures
            *final(self) == (App {
                current_error: final(self).current_error,
                current_suggestion: None,
                ..*old(self)
            }),
            final(self).current_error matches Some(m) && m@
                == "yazi not found. Install yazi to use the folder picker."@,
    {
        self.set_error(owned("yazi not found. Install yazi to use the folder picker."));
    }

    /// The player exited.
    pub fn on_playback_ended(&mut self)
        ensures
            *final(self) == (App {
                is_playing: false,
                is_paused: false,
                playback_state: PlaybackState::Idle,
                playback_started: None,
                ..*old(self)
            }),
    {
        self.is_playing = false;
        self.is_paused = false;
        self.playback_state = PlaybackState::Idle;
        self.playback_started = None;
    }

    /// A playback notification, at `now` (ms): a failure shows an error
    /// unless nothing is playing; a success shows the video as playing
    /// (starting its clock if needed); a fallback attempt shows it as
    /// loading.
    pub fn on_notification(&mut self, n: PlaybackNotification, now: u64)
        ensures
            n matches PlaybackNotification::Failure(e) ==> *final(self) == if old(self).playback_state
                != PlaybackState::Idle {
                App { playback_state: PlaybackState::Error, playback_error: Some(e), ..*old(self) }
            } else {
                *old(self)
            },
            n is Success ==> *final(self) == (App {
                playback_state: PlaybackState::Playing,
                playback_started: if old(self).playback_started is None {
                    Some(now)
                } else {
                    old(self).playback_started
                },
                ..*old(self)
            }),
            n is FallbackAttempt ==> *final(self) == (App {
                playback_state: PlaybackState::Loading,
                ..*old(self)
            }),
    {
        match n {
            PlaybackNotification::Failure(e) => {
                if self.playback_state != PlaybackState::Idle {
                    self.playback_state = PlaybackState::Error;
                    self.playback_error = Some(e);
                }
            },
            PlaybackNotification::Success(_) => {
                self.playback_state = PlaybackState::Playing;
                if self.playback_started.is_none() {
                    self.playback_started = Some(now);
                }
            },
            PlaybackNotification::FallbackAttempt(_) => {
                self.playback_state = PlaybackState::Loading;
            },
        }
    }

    /// A playback still loading after the grace period is shown as playing
    /// (a normal start reports no success).
    pub fn promote_loading(&mut self, now: u64)
        ensures
            (old(self).playback_state == PlaybackState::Loading && (old(self).playback_started
                matches Some(s) && now > s && now - s > loading_grace())) ==> *final(self) == (App {
                playback_state: PlaybackState::Playing,
                ..*old(self)
            }),
            !(old(self).playback_state == PlaybackState::Loading && (old(self).playback_started
                matches Some(s) && now > s && now - s > loading_grace())) ==> *final(self) == *old(self),
    {
        if self.playback_state == PlaybackState::Loading {
            if let Some(s) = self.playback_started {
                if now > s && now - s > 1200 {
                    self.playback_state = PlaybackState::Playing;
                }
            }
        }
    }

    /// The notifications `notices`, taken in the order they arrived.
    pub fn apply_notices(&mut self, notices: Vec<PlaybackNotification>, now: u64)
        ensures
            *final(self) == after_notices(*old(self), notices@, now),
        decreases notices@.len(),
    {
        let mut rest = notices;
        match rest.pop() {
            None => {},
            Some(x) => {
                let ghost front = rest@;
                self.apply_notices(rest, now);
                let ghost before = *self;
                self.on_notification(x, now);
                proof {
                    assert(notices@.drop_last() =~= front);
                    assert(*self == notified(before, x, now)) by {
                        reveal(notified);
                    }
                }
            },
        }
    }

    /// The player events of one update, in the order the interface takes
    /// them: the animation clock ticks; the end of the playback, when the
    /// player exited, comes before the notifications; then each
    /// notification in the order it arrived; then a playback still
    /// loading after the grace period is shown as playing.
    #[verifier::spinoff_prover]
    pub fn update_playback(&mut self, ended: bool, notices: Vec<PlaybackNotification>, now: u64)
        ensures
            *final(self) == promoted(
                after_notices(
                    if ended { ended_state(ticked(*old(self))) } else { ticked(*old(self)) },
                    notices@,
                    now,
                ),
                now,
            ),
    {
        let ghost s0 = *self;
        self.tick();
        assert(*self == ticked(s0)) by {
            reveal(ticked);
        }
        if ended {
            let ghost s1 = *self;
            self.on_playback_ended();
            assert(*self == ended_state(s1)) by {
                reveal(ended_state);
            }
        }
        self.apply_notices(notices, now);
        let ghost s3 = *self;
        self.promote_loading(now);
        assert(*self == promoted(s3, now)) by {
            reveal(promoted);
        }
    }

    /// The answer of a search.
    pub fn on_search_response(&mut self, response: SearchResponse)
        ensures
            response matches SearchResponse::Success(results) ==> *final(self) == (App {
                is_searching: false,
                search_results: results,
                search_error: None,
                search_focus: if results@.len() > 0 {
                    SearchFocus::List
                } else {
                    old(self).search_focus
                },
                ..*old(self)
            }),
            response matches SearchResponse::Error(e) ==> *final(self) == (App {
                is_searching: false,
                search_error: Some(e),
                search_results: final(self).search_results,
                ..*old(self)
            }) && final(self).search_results@.len() == 0,
    {
        match response {
            SearchResponse::Success(results) => {
                self.show_search_results(results);
            },
            SearchResponse::Error(e) => {
                self.is_searching = false;
                self.search_error = Some(e);
                self.search_results = Vec::new();
            },
        }
    }

    /// A search found `results`: they are shown, the list focused when
    /// there are any.
    pub fn show_search_results(&mut self, results: Vec<Video>)
        ensures
            *final(self) == (App {
                is_searching: false,
                search_results: results,
                search_error: None,
                search_focus: if results@.len() > 0 {
                    SearchFocus::List
                } else {
                    old(self).search_focus
                },
                ..*old(self)
            }),
    {
        self.is_searching = false;
        if results.len() > 0 {
            self.search_focus = SearchFocus::List;
        }
        self.search_results = results;
        self.search_error = None;
    }

    /// A video was saved; `saved` is the saved videos read again.
    pub fn on_video_saved(&mut self, video_id: &str, saved: Vec<SavedVideo>)
        ensures
            *final(self) == (App {
                saved_results: saved,
                saved_selected: if saved@.len() > 0 {
                    Some(0usize)
                } else {
                    None
                },
                saved_focus: if saved@.len() > 0 {
                    ListFocus::List
                } else {
                    old(self).saved_focus
                },
                current_error: final(self).current_error,
                current_suggestion: None,
                ..*old(self)
            }),
            final(self).current_error matches Some(m) && m@ == "Video "@ + video_id@
                + " saved successfully!"@,
    {
        self.saved_selected = None;
        if saved.len() > 0 {
            self.saved_selected = Some(0);
            self.saved_focus = ListFocus::List;
        }
        self.saved_results = saved;
        let mut msg = concat("Video ", video_id);
        msg.push_str(" saved successfully!");
        self.set_error(msg);
    }

    /// Saving a video failed.
    pub fn on_save_failed(&mut self, error: &str)
        ensures
            *final(self) == (App {
                current_error: final(self).current_error,
                current_suggestion: None,
                ..*old(self)
            }),
            final(self).current_error matches Some(m) && m@ == "Failed to save video: "@ + error@,
    {
        self.set_error(concat("Failed to save video: ", error));
    }

    /// A request succeeded on another instance than the configured one,
    /// which the settings now name.
    pub fn on_instance_switched(&mut self, url: String)
        ensures
            *final(self) == (App {
                settings: Settings { api_instance_invidious: url, ..old(self).settings },
                ..*old(self)
            }),
    {
        self.settings.api_instance_invidious = url;
    }

    /// A playlist was imported: the playlists and, when they could be read,
    /// the imported playlist's videos.
    pub fn on_playlist_imported(&mut self, playlists: Vec<Playlist>, videos: Option<Vec<PlaylistVideo>>)
        ensures
            videos matches Some(v) ==> *final(self) == (App {
                playlist_results: playlists,
                playlist_videos: v,
                playlist_videos_selected: if v@.len() > 0 {
                    Some(0usize)
                } else {
                    None
                },
                playlist_focus: if v@.len() > 0 {
                    ListFocus::List
                } else {
                    old(self).playlist_focus
                },
                ..*old(self)
            }),
            videos is None ==> *final(self) == (App { playlist_results: playlists, ..*old(self) }),
    {
        self.playlist_results = playlists;
        self.on_playlist_refreshed(videos);
    }

    /// An imported playlist was read again from YouTube: its videos, when
    /// they could be read from the database.
    pub fn on_playlist_refreshed(&mut self, videos: Option<Vec<PlaylistVideo>>)
        ensures
            videos matches Some(v) ==> *final(self) == (App {
                playlist_videos: v,
                playlist_videos_selected: first_selection(v@.len()),
                playlist_focus: focus_after(v@.len(), old(self).playlist_focus),
                ..*old(self)
            }),
            videos is None ==> *final(self) == *old(self),
    {
        if let Some(v) = videos {
            self.show_playlist_videos(v);
        }
    }

    /// Shows these videos of the open playlist, the first selected.
    pub fn show_playlist_videos(&mut self, v: Vec<PlaylistVideo>)
        ensures
            *final(self) == (App {
                playlist_videos: v,
                playlist_videos_selected: first_selection(v@.len()),
                playlist_focus: focus_after(v@.len(), old(self).playlist_focus),
                ..*old(self)
            }),
    {
        self.playlist_videos_selected = None;
        if v.len() > 0 {
            self.playlist_videos_selected = Some(0);
            self.playlist_focus = ListFocus::List;
        }
        self.playlist_videos = v;
    }

    /// The answer of adding a video to a playlist.
    pub fn on_playlist_add_response(&mut self, response: PlaylistAddResponse)
        ensures
            *final(self) == (App {
                current_error: final(self).current_error,
                current_suggestion: None,
                ..*old(self)
            }),
            response matches PlaylistAddResponse::Success(id) ==> (final(self).current_error matches Some(
                m,
            ) && m@ == "Video "@ + id@ + " added to playlist successfully!"@),
            response matches PlaylistAddResponse::Error(e) ==> (final(self).current_error matches Some(
                m,
            ) && m@ == "Failed to add video to playlist: "@ + e@),
    {
        match response {
            PlaylistAddResponse::Success(id) => {
                let mut msg = concat("Video ", id.as_str());
                msg.push_str(" added to playlist successfully!");
                self.set_error(msg);
            },
            PlaylistAddResponse::Error(e) => {
                self.set_error(concat("Failed to add video to playlist: ", e.as_str()));
            },
        }
    }

    /// A download reported progress; `when` is the time to record a
    /// finished download under. A finished download is recorded first in
    /// the list (as `<title>.mp3` or `<title>.mp4` in the download path),
    /// and the records must then be saved.
    pub fn on_download_progress(&mut self, progress: DownloadProgress, when: String) -> (r: Command)
        ensures
            *final(self) == (App {
                download_bar_title: final(self).download_bar_title,
                download_bar_percent: final(self).download_bar_percent,
                download_bar_speed: final(self).download_bar_speed,
                download_bar_eta: final(self).download_bar_eta,
                download_bar_state: final(self).download_bar_state,
                downloads: final(self).downloads,
                downloads_selected: final(self).downloads_selected,
                loading_message: final(self).loading_message,
                current_error: final(self).current_error,
                current_suggestion: final(self).current_suggestion,
                ..*old(self)
            }),
            progress matches DownloadProgress::Starting { title } ==> {
                &&& r is Nothing
                &&& final(self).download_bar_title == title
                &&& final(self).download_bar_percent == 0
                &&& final(self).download_bar_speed@.len() == 0
                &&& final(self).download_bar_eta@.len() == 0
                &&& final(self).download_bar_state == DownloadBarState::Active
                &&& final(self).downloads == old(self).downloads
                &&& final(self).downloads_selected == old(self).downloads_selected
                &&& final(self).loading_message == old(self).loading_message
                &&& final(self).current_error == old(self).current_error
                &&& final(self).current_suggestion == old(self).current_suggestion
            },
            progress matches DownloadProgress::Downloading { title, percent, speed, eta } ==> {
                &&& r is Nothing
                &&& final(self).download_bar_title == title
                &&& final(self).download_bar_percent == percent
                &&& final(self).download_bar_speed == speed
                &&& final(self).download_bar_eta == eta
                &&& final(self).download_bar_state == DownloadBarState::Active
                &&& final(self).downloads == old(self).downloads
                &&& final(self).downloads_selected == old(self).downloads_selected
                &&& final(self).loading_message == old(self).loading_message
                &&& final(self).current_error == old(self).current_error
                &&& final(self).current_suggestion == old(self).current_suggestion
            },
            progress matches DownloadProgress::Completed { title, path } ==> {
                &&& r is SaveDownloads
                &&& final(self).download_bar_title == title
                &&& final(self).download_bar_percent == 100
                &&& final(self).download_bar_speed@.len() == 0
                &&& final(self).download_bar_eta@.len() == 0
                &&& final(self).download_bar_state == DownloadBarState::Done
                &&& final(self).downloads@.len() == old(self).downloads@.len() + 1
                &&& final(self).downloads@.skip(1) == old(self).downloads@
                &&& completed_record(
                    final(self).downloads@[0],
                    title,
                    when,
                    old(self).settings.download_path@,
                    old(self).download_is_audio,
                )
                &&& final(self).downloads_selected == if old(self).downloads_selected is None {
                    Some(0usize)
                } else {
                    old(self).downloads_selected
                }
                &&& final(self).loading_message@ == "Saved to: "@ + final(self).downloads@[0].path@
                &&& final(self).current_error == old(self).current_error
                &&& final(self).current_suggestion == old(self).current_suggestion
            },
            progress matches DownloadProgress::Failed { error } ==> {
                &&& r is Nothing
                &&& final(self).download_bar_title == old(self).download_bar_title
                &&& final(self).download_bar_percent == old(self).download_bar_percent
                &&& final(self).download_bar_speed == old(self).download_bar_speed
                &&& final(self).download_bar_eta == old(self).download_bar_eta
                &&& final(self).download_bar_state == DownloadBarState::Failed
                &&& final(self).downloads == old(self).downloads
                &&& final(self).downloads_selected == old(self).downloads_selected
                &&& final(self).loading_message == old(self).loading_message
                &&& final(self).current_error matches Some(m)
                &&& m@ == "Download failed: "@ + error@
                &&& final(self).current_suggestion is None
            },
    {
        match progress {
            DownloadProgress::Starting { title } => {
                self.download_started(title);
                Command::Nothing
            },
            DownloadProgress::Downloading { title, percent, speed, eta } => {
                self.download_updated(title, percent, speed, eta);
                Command::Nothing
            },
            DownloadProgress::Completed { title, path: _ } => {
                self.download_completed(title, when);
                Command::SaveDownloads
            },
            DownloadProgress::Failed { error } => {
                self.download_failed(error.as_str());
                Command::Nothing
            },
        }
    }

    /// The download bar shows a download of `title` that has just started.
    pub fn download_started(&mut self, title: String)
        ensures
            *final(self) == (App {
                download_bar_title: title,
                download_bar_percent: 0,
                download_bar_speed: final(self).download_bar_speed,
                download_bar_eta: final(self).download_bar_eta,
                download_bar_state: DownloadBarState::Active,
                ..*old(self)
            }),
            final(self).download_bar_speed@.len() == 0,
            final(self).download_bar_eta@.len() == 0,
    {
        self.download_bar_title = title;
        self.download_bar_percent = 0;
        self.download_bar_speed = String::new();
        self.download_bar_eta = String::new();
        self.download_bar_state = DownloadBarState::Active;
    }

    /// The download of `title` is under way.
    pub fn download_updated(&mut self, title: String, percent: u8, speed: String, eta: String)
        ensures
            *final(self) == (App {
                download_bar_title: title,
                download_bar_percent: percent,
                download_bar_speed: speed,
                download_bar_eta: eta,
                download_bar_state: DownloadBarState::Active,
                ..*old(self)
            }),
    {
        self.download_bar_title = title;
        self.download_bar_percent = percent;
        self.download_bar_speed = speed;
        self.download_bar_eta = eta;
        self.download_bar_state = DownloadBarState::Active;
    }

    /// The download failed with `error`.
    pub fn download_failed(&mut self, error: &str)
        ensures
            *final(self) == (App {
                download_bar_state: DownloadBarState::Failed,
                current_error: final(self).current_error,
                current_suggestion: None,
                ..*old(self)
            }),
            final(self).current_error matches Some(m) && m@ == "Download failed: "@ + error@,
    {
        self.download_bar_state = DownloadBarState::Failed;
        self.set_error(concat("Download failed: ", error));
    }

    /// The download of `title` finished: the bar shows it done and it is
    /// recorded first in the list of downloads, at `when`.
    pub fn download_completed(&mut self, title: String, when: String)
        ensures
            *final(self) == (App {
                download_bar_title: title,
                download_bar_percent: 100,
                download_bar_speed: final(self).download_bar_speed,
                download_bar_eta: final(self).download_bar_eta,
                download_bar_state: DownloadBarState::Done,
                downloads: final(self).downloads,
                loading_message: final(self).loading_message,
                downloads_selected: if old(self).downloads_selected is None {
                    Some(0usize)
                } else {
                    old(self).downloads_selected
                },
                ..*old(self)
            }),
            final(self).download_bar_speed@.len() == 0,
            final(self).download_bar_eta@.len() == 0,
            final(self).downloads@.len() == old(self).downloads@.len() + 1,
            final(self).downloads@.skip(1) == old(self).downloads@,
            completed_record(
                final(self).downloads@[0],
                title,
                when,
                old(self).settings.download_path@,
                old(self).download_is_audio,
            ),
            final(self).loading_message@ == "Saved to: "@ + final(self).downloads@[0].path@,
    {
        let ext = if self.download_is_audio {
            "mp3"
        } else {
            "mp4"
        };
        let mut name = concat(title.as_str(), ".");
        name.push_str(ext);
        let full = join(self.settings.download_path.as_str(), name.as_str());
        let kind = if self.download_is_audio {
            owned("audio")
        } else {
            owned("video")
        };
        self.download_bar_title = title.clone();
        self.download_bar_percent = 100;
        self.download_bar_speed = String::new();
        self.download_bar_eta = String::new();
        self.download_bar_state = DownloadBarState::Done;
        self.loading_message = concat("Saved to: ", full.as_str());
        let rec = DownloadRecord { title, path: full, kind, when };
        self.downloads.insert(0, rec);
        assert(self.downloads@.skip(1) =~= old(self).downloads@);
        if self.downloads_selected.is_none() {
            self.downloads_selected = Some(0);
        }
    }
}

/// The record of a finished download of `title`, into the directory `dir`:
/// the file is `<title>.mp3` for audio and `<title>.mp4` for video.
pub open spec fn completed_record(
    rec: DownloadRecord,
    title: String,
    when: String,
    dir: Seq<char>,
    audio: bool,
) -> bool {
    let ext = if audio {
        "mp3"@
    } else {
        "mp4"@
    };
    &&& rec.title == title
    &&& rec.path@ == join_path(dir, title@ + "."@ + ext)
    &&& rec.kind@ == if audio {
        "audio"@
    } else {
        "video"@
    }
    &&& rec.when == when
}

} // verus!
