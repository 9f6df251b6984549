//! What the interface does with the selected video and the selected
//! playlist: downloading, saving, adding to a playlist, and creating,
//! importing, refreshing and deleting playlists. Each step changes the
//! interface and names the outside work it needs (`Command`).
use vstd::prelude::*;
use crate::db::connection::{copy_opt, Playlist, PlaylistVideo};
use crate::text::{before, chars_of, concat, contains, owned, second_field, second_field_chars,
    before_chars, str_contains, string_of, trim, trim_chars};
use crate::ui::app::{App, AppMode, Command, DownloadBarState, PlaylistsFor};
use crate::ui::playback::text_of;

verus! {

/// The selected video of the list on screen, as its id, title and channel:
/// in the search results, the history, the saved videos or the open
/// playlist; none elsewhere or when the selection is outside the list.
#[verifier::opaque]
pub open spec fn selected_entry(s: App) -> Option<(Seq<char>, Seq<char>, Option<Seq<char>>)> {
    match s.mode {
        AppMode::Search => match s.list_selected {
            Some(i) => if i < s.search_results@.len() {
                let v = s.search_results@[i as int];
                Some((v.video_id@, v.title@, text_of(v.author)))
            } else {
                None
            },
            None => None,
        },
        AppMode::History => match s.history_selected {
            Some(i) => if i < s.history_results@.len() {
                let v = s.history_results@[i as int];
                Some((v.video_id@, v.title@, text_of(v.channel)))
            } else {
                None
            },
            None => None,
        },
        AppMode::Saved => match s.saved_selected {
            Some(i) => if i < s.saved_results@.len() {
                let v = s.saved_results@[i as int];
                Some((v.video_id@, v.title@, text_of(v.channel)))
            } else {
                None
            },
            None => None,
        },
        AppMode::Playlist => match s.playlist_videos_selected {
            Some(i) => if s.playlist_videos@.len() > 0 && i < s.playlist_videos@.len() {
                let v = s.playlist_videos@[i as int];
                Some((v.video_id@, v.title@, text_of(v.channel)))
            } else {
                None
            },
            None => None,
        },
        _ => None,
    }
}

/// The playlist id a prompt names: the value of its `list=` parameter when
/// it has one (up to the next `list=` and the first `&`), else the whole
/// prompt.
pub open spec fn import_id(prompt: Seq<char>) -> Option<Seq<char>> {
    if contains(prompt, "list="@) {
        match second_field(prompt, "list="@) {
            Some(f) => Some(before(f, "&"@)),
            None => None,
        }
    } else {
        Some(prompt)
    }
}

/// The playlist id that `prompt` names (see `import_id`).
pub fn playlist_id_from(prompt: &str) -> (r: Option<String>)
    ensures
        text_of(r) == import_id(prompt@),
{
    proof {
        reveal_strlit("list=");
        reveal_strlit("&");
    }
    if str_contains(prompt, "list=") {
        let v = chars_of(prompt);
        let sep = chars_of("list=");
        match second_field_chars(&v, &sep) {
            Some(f) => {
                let amp = chars_of("&");
                let id = before_chars(&f, &amp);
                Some(string_of(&id))
            },
            None => None,
        }
    } else {
        Some(owned(prompt))
    }
}

/// `prompt` is empty or whitespace only.
fn is_blank(prompt: &str) -> (r: bool)
    ensures
        r == (trim(prompt@).len() == 0),
{
    let v = chars_of(prompt);
    trim_chars(&v).len() == 0
}

/// `new` is `old` showing the error `msg` (see `App::set_error`).
pub open spec fn shows_error(old: App, new: App, msg: Seq<char>) -> bool {
    &&& new == App { current_error: new.current_error, current_suggestion: None, ..old }
    &&& new.current_error matches Some(e)
    &&& e@ == msg
}

/// The download menu opens for the selected video; without one, an error
/// is shown.
pub open spec fn opens_download_menu(old: App, new: App) -> bool {
    match selected_entry(old) {
        Some(m) => {
            &&& new == App {
                pending_download_id: new.pending_download_id,
                pending_download_title: new.pending_download_title,
                show_download_menu: true,
                ..old
            }
            &&& text_of(new.pending_download_id) == Some(m.0)
            &&& text_of(new.pending_download_title) == Some(m.1)
        },
        None => shows_error(old, new, "No video selected for download"@),
    }
}

/// Saving the selected video is asked for; without one, an error is shown.
pub open spec fn save_step(old: App, new: App, r: Command) -> bool {
    match selected_entry(old) {
        Some(m) => {
            &&& new == old
            &&& r matches Command::SaveVideo { video_id, title, channel }
            &&& video_id@ == m.0
            &&& title@ == m.1
            &&& text_of(channel) == m.2
        },
        None => r is Nothing && shows_error(old, new, "No video selected to save"@),
    }
}

/// The playlist a video goes straight into: the selected playlist, while
/// the videos of a playlist are shown.
#[verifier::opaque]
pub open spec fn direct_target(s: App) -> Option<i64> {
    if s.mode == AppMode::Playlist && s.playlist_videos@.len() > 0 {
        match s.playlist_selected {
            Some(p) => if p < s.playlist_results@.len() {
                Some(s.playlist_results@[p as int].id)
            } else {
                None
            },
            None => None,
        }
    } else {
        None
    }
}

/// The selected video goes straight into `direct_target`, when there is
/// one; otherwise it is kept for later and the playlists are read to choose
/// one. Without a selected video, an error is shown.
pub open spec fn add_step(old: App, new: App, r: Command) -> bool {
    match selected_entry(old) {
        Some(m) => match direct_target(old) {
            Some(target) => {
                &&& new == old
                &&& r matches Command::AddToPlaylist { playlist_id, video_id, title, channel }
                &&& playlist_id == target
                &&& video_id@ == m.0
                &&& title@ == m.1
                &&& text_of(channel) == m.2
            },
            None => {
                &&& r == Command::LoadPlaylists(PlaylistsFor::Add)
                &&& new == App {
                    pending_playlist_add: new.pending_playlist_add,
                    mode: AppMode::Playlist,
                    ..old
                }
                &&& new.pending_playlist_add matches Some(p)
                &&& p.0@ == m.0
                &&& p.1@ == m.1
                &&& text_of(p.2) == m.2
            },
        },
        None => r is Nothing && shows_error(old, new, "No video selected to add to playlist"@),
    }
}

/// A playlist named `prompt` is to be created; a blank name is refused.
pub open spec fn create_step(old: App, new: App, prompt: String, r: Command) -> bool {
    if trim(prompt@).len() == 0 {
        r is Nothing && shows_error(old, new, "Playlist name cannot be empty"@)
    } else {
        new == old && r == Command::CreatePlaylist(prompt)
    }
}

/// The playlist `prompt` names is to be imported from the configured
/// instance; a blank prompt, or one that names no playlist, is refused.
pub open spec fn import_step(old: App, new: App, prompt: Seq<char>, r: Command) -> bool {
    if trim(prompt).len() == 0 {
        r is Nothing && shows_error(old, new, "Playlist URL/ID cannot be empty"@)
    } else {
        match import_id(prompt) {
            Some(id) => {
                &&& new == old
                &&& r matches Command::ImportPlaylist { list_id, api_url }
                &&& list_id@ == id
                &&& api_url == old.settings.api_instance_invidious
            },
            None => r is Nothing && shows_error(old, new, "Invalid playlist URL or ID"@),
        }
    }
}

/// `playlist` is to be read again from YouTube; one that was not imported
/// is refused.
pub open spec fn refresh_step(old: App, new: App, playlist: Playlist, r: Command) -> bool {
    match playlist.youtube_id {
        Some(y) => new == old && r == (Command::RefreshPlaylist {
            playlist_id: playlist.id,
            youtube_id: y,
            api_url: old.settings.api_instance_invidious,
        }),
        None => r is Nothing && shows_error(old, new, "Only imported playlists can be refreshed"@),
    }
}

impl App {
    /// The selected video as its id, title and channel (see
    /// `selected_entry`).
    pub fn selected_video(&self) -> (r: Option<(String, String, Option<String>)>)
        ensures
            r matches Some(m) ==> selected_entry(*self) == Some((m.0@, m.1@, text_of(m.2))),
            r is None ==> selected_entry(*self) is None,
    {
        proof {
            reveal(selected_entry);
        }
        match self.mode {
            AppMode::Search => match self.list_selected {
                Some(i) => if i < self.search_results.len() {
                    let v = &self.search_results[i];
                    Some((v.video_id.clone(), v.title.clone(), copy_opt(&v.author)))
                } else {
                    None
                },
                None => None,
            },
            AppMode::History => match self.history_selected {
                Some(i) => if i < self.history_results.len() {
                    let v = &self.history_results[i];
                    Some((v.video_id.clone(), v.title.clone(), copy_opt(&v.channel)))
                } else {
                    None
                },
                None => None,
            },
            AppMode::Saved => match self.saved_selected {
                Some(i) => if i < self.saved_results.len() {
                    let v = &self.saved_results[i];
                    Some((v.video_id.clone(), v.title.clone(), copy_opt(&v.channel)))
                } else {
                    None
                },
                None => None,
            },
            AppMode::Playlist => match self.playlist_videos_selected {
                Some(i) => if self.playlist_videos.len() > 0 && i < self.playlist_videos.len() {
                    let v = &self.playlist_videos[i];
                    Some((v.video_id.clone(), v.title.clone(), copy_opt(&v.channel)))
                } else {
                    None
                },
                None => None,
            },
            _ => None,
        }
    }

    /// The id of the selected video.
    pub fn get_selected_video_id(&self) -> (r: Option<String>)
        ensures
            r matches Some(id) ==> (selected_entry(*self) matches Some(m) && m.0 == id@),
            r is None ==> selected_entry(*self) is None,
    {
        match self.selected_video() {
            Some((id, _, _)) => Some(id),
            None => None,
        }
    }

    /// The id and title of the selected video.
    pub fn get_selected_video_meta(&self) -> (r: Option<(String, String)>)
        ensures
            r matches Some(m) ==> (selected_entry(*self) matches Some(e) && e.0 == m.0@ && e.1
                == m.1@),
            r is None ==> selected_entry(*self) is None,
    {
        match self.selected_video() {
            Some((id, title, _)) => Some((id, title)),
            None => None,
        }
    }

    /// The download menu opens for the selected video; without one, an
    /// error is shown.
    pub fn handle_download_shortcut(&mut self)
        ensures
            opens_download_menu(*old(self), *final(self)),
    {
        match self.get_selected_video_meta() {
            Some((video_id, title)) => {
                self.pending_download_id = Some(video_id);
                self.pending_download_title = Some(title);
                self.show_download_menu = true;
            },
            None => {
                self.set_error(owned("No video selected for download"));
            },
        }
    }

    /// Asks to save the selected video; without one, an error is shown.
    pub fn trigger_save(&mut self) -> (r: Command)
        ensures
            save_step(*old(self), *final(self), r),
    {
        match self.selected_video() {
            Some((video_id, title, channel)) => Command::SaveVideo { video_id, title, channel },
            None => {
                self.set_error(owned("No video selected to save"));
                Command::Nothing
            },
        }
    }

    /// Adds the selected video to a playlist: straight to the selected
    /// playlist while a playlist's videos are shown; otherwise the video is
    /// kept for later and the playlists are shown to choose one.
    pub fn trigger_add_to_playlist(&mut self) -> (r: Command)
        ensures
            add_step(*old(self), *final(self), r),
    {
        match self.selected_video() {
            Some((video_id, title, channel)) => match self.direct_playlist() {
                Some(playlist_id) => Command::AddToPlaylist { playlist_id, video_id, title, channel },
                None => {
                    self.pending_playlist_add = Some((video_id, title, channel));
                    self.mode = AppMode::Playlist;
                    Command::LoadPlaylists(PlaylistsFor::Add)
                },
            },
            None => {
                self.set_error(owned("No video selected to add to playlist"));
                Command::Nothing
            },
        }
    }

    /// The playlist a video goes straight into (see `direct_target`).
    pub fn direct_playlist(&self) -> (r: Option<i64>)
        ensures
            r == direct_target(*self),
    {
        proof {
            reveal(direct_target);
        }
        if self.mode == AppMode::Playlist && self.playlist_videos.len() > 0 {
            if let Some(p) = self.playlist_selected {
                if p < self.playlist_results.len() {
                    return Some(self.playlist_results[p].id);
                }
            }
        }
        None
    }

    /// Starts searching for the typed query on the configured instance.
    pub fn trigger_search(&mut self) -> (r: Command)
        ensures
            *final(self) == (App { is_searching: true, search_error: None, ..*old(self) }),
            r matches Command::Search { query, api_url } && query == old(self).search_query && api_url
                == old(self).settings.api_instance_invidious,
    {
        let query = self.search_query.clone();
        let api_url = self.settings.api_instance_invidious.clone();
        self.is_searching = true;
        self.search_error = None;
        Command::Search { query, api_url }
    }

    /// Starts downloading a video into the download directory; the download
    /// bar shows it.
    pub fn trigger_download(&mut self, video_id: String, title: String, audio_only: bool) -> (r: Command)
        ensures
            *final(self) == (App {
                current_error: None,
                download_is_audio: audio_only,
                download_bar_state: DownloadBarState::Active,
                download_bar_title: title,
                download_bar_percent: 0,
                download_bar_speed: final(self).download_bar_speed,
                download_bar_eta: final(self).download_bar_eta,
                ..*old(self)
            }),
            final(self).download_bar_speed@.len() == 0,
            final(self).download_bar_eta@.len() == 0,
            r == (Command::Download {
                video_id,
                audio_only,
                dir: old(self).settings.download_path,
            }),
    {
        self.current_error = None;
        self.download_is_audio = audio_only;
        self.download_bar_state = DownloadBarState::Active;
        self.download_bar_title = title;
        self.download_bar_percent = 0;
        self.download_bar_speed = String::new();
        self.download_bar_eta = String::new();
        let dir = self.settings.download_path.clone();
        Command::Download { video_id, audio_only, dir }
    }

    /// Creates a playlist named `prompt`; a blank name is refused.
    pub fn handle_create_playlist(&mut self, prompt: String) -> (r: Command)
        ensures
            create_step(*old(self), *final(self), prompt, r),
    {
        if is_blank(prompt.as_str()) {
            self.set_error(owned("Playlist name cannot be empty"));
            return Command::Nothing;
        }
        Command::CreatePlaylist(prompt)
    }

    /// Imports the playlist of YouTube that `prompt` names (see
    /// `import_id`), starting at the configured instance; a blank prompt is
    /// refused.
    pub fn handle_import_playlist(&mut self, prompt: String) -> (r: Command)
        ensures
            import_step(*old(self), *final(self), prompt@, r),
    {
        if is_blank(prompt.as_str()) {
            self.set_error(owned("Playlist URL/ID cannot be empty"));
            return Command::Nothing;
        }
        match playlist_id_from(prompt.as_str()) {
            Some(list_id) => Command::ImportPlaylist {
                list_id,
                api_url: self.settings.api_instance_invidious.clone(),
            },
            None => {
                self.set_error(owned("Invalid playlist URL or ID"));
                Command::Nothing
            },
        }
    }

    /// Reads an imported playlist again from YouTube; one that was not
    /// imported is refused.
    pub fn handle_refresh_playlist(&mut self, playlist: &Playlist) -> (r: Command)
        ensures
            refresh_step(*old(self), *final(self), *playlist, r),
    {
        match &playlist.youtube_id {
            None => {
                self.set_error(owned("Only imported playlists can be refreshed"));
                Command::Nothing
            },
            Some(y) => Command::RefreshPlaylist {
                playlist_id: playlist.id,
                youtube_id: y.clone(),
                api_url: self.settings.api_instance_invidious.clone(),
            },
        }
    }

    /// Removes a video (its row) from its playlist.
    pub fn handle_remove_from_playlist(&self, video: &PlaylistVideo) -> (r: Command)
        ensures
            r == (Command::RemoveFromPlaylist { playlist_id: video.playlist_id, row_id: video.id }),
    {
        Command::RemoveFromPlaylist { playlist_id: video.playlist_id, row_id: video.id }
    }

    /// Deletes a playlist.
    pub fn handle_delete_playlist(&self, playlist: &Playlist) -> (r: Command)
        ensures
            r == Command::DeletePlaylist(playlist.id),
    {
        Command::DeletePlaylist(playlist.id)
    }

    /// Reads the videos of playlist `idx`, when there is one.
    pub fn load_playlist_videos(&self, idx: usize) -> (r: Command)
        ensures
            idx < self.playlist_results@.len() ==> r == Command::LoadPlaylistVideos(
                self.playlist_results@[idx as int].id,
            ),
            idx >= self.playlist_results@.len() ==> r is Nothing,
    {
        if idx < self.playlist_results.len() {
            Command::LoadPlaylistVideos(self.playlist_results[idx].id)
        } else {
            Command::Nothing
        }
    }
}

} // verus!
