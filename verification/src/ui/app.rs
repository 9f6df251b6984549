//! The state of the terminal interface and the rules that change it: key
//! and mouse handling, the answers of background work, playback and
//! download progress. The application draws this state, performs the
//! outside work each step asks for (`Command`), and hands the results back.
use vstd::prelude::*;
use vstd::arithmetic::div_mod::{lemma_add_mod_noop, lemma_mod_multiples_vanish, lemma_mod_twice, lemma_small_mod};
use crate::api::invidious::{PlaylistVideo as RemoteVideo, Video};
use crate::config::settings::{AppState, Settings};
use crate::db::connection::{
    copy_opt, law_filter_looks_at_title_channel_and_id, Filterable, HistoryEntry, Playlist, PlaylistVideo,
    SavedVideo,
};
use crate::download::downloader::DownloadProgress;
use crate::player::mpv::PlaybackNotification;
use crate::text::{chars_of, concat, contains, join, join_path, lowercase, owned, str_eq, string_of};
use crate::ui::components::Rect;

verus! {

#[derive(PartialEq, Eq, Structural, Clone, Copy)]
pub enum AppMode {
    Main,
    Settings,
    Search,
    History,
    Saved,
    Playlist,
    Downloads,
}

#[derive(PartialEq, Eq, Structural, Clone, Copy)]
pub enum PlaylistPromptMode {
    New,
    Import,
}

#[derive(PartialEq, Eq, Structural, Clone, Copy)]
pub enum SearchFocus {
    Input,
    List,
}

#[derive(PartialEq, Eq, Structural, Clone, Copy)]
pub enum ListFocus {
    Input,
    List,
}

pub enum SearchResponse {
    Success(Vec<Video>),
    Error(String),
}

pub enum SavedResponse {
    Success(String),
    Error(String),
}

pub enum PlaylistAddResponse {
    Success(String),
    Error(String),
}

pub enum PlaylistResponse {
    Imported { id: i64, videos: Vec<RemoteVideo> },
    Refreshed { id: i64, videos: Vec<RemoteVideo> },
    Error(String),
}

#[derive(PartialEq, Eq, Structural, Clone, Copy)]
pub enum ActiveBlock {
    Sidebar,
    Content,
}

#[derive(PartialEq, Eq, Structural, Clone, Copy)]
pub enum DownloadBarState {
    Idle,
    Active,
    Done,
    Failed,
}

#[derive(PartialEq, Eq, Structural, Clone, Copy)]
pub enum PlaybackState {
    Idle,
    Loading,
    Playing,
    Error,
}

/// The list the last played video was picked from.
#[derive(PartialEq, Eq, Structural, Clone, Copy)]
pub enum PlayedList {
    History,
    Saved,
    Search,
    Main,
    Playlist,
}

pub struct DownloadRecord {
    pub title: String,
    pub path: String,
    pub kind: String,
    pub when: String,
}

impl Clone for DownloadRecord {
    fn clone(&self) -> (r: Self)
        ensures
            r == *self,
    {
        DownloadRecord {
            title: self.title.clone(),
            path: self.path.clone(),
            kind: self.kind.clone(),
            when: self.when.clone(),
        }
    }
}

/// A request to play a video of YouTube.
pub struct PlayRequest {
    pub url: String,
    pub video_id: String,
    pub title: String,
    pub channel: Option<String>,
    pub quality: String,
    pub format: String,
    pub loop_playback: bool,
    /// The page of the video after it in its list, to queue.
    pub queue_next: Option<String>,
}

/// Why the playlists are loaded, which decides what happens to the
/// selection.
#[derive(PartialEq, Eq, Structural, Clone, Copy)]
pub enum PlaylistsFor {
    View,
    Add,
}

/// Outside work a step asks the application to do.
pub enum Command {
    Nothing,
    /// Stop the player (on quit).
    StopPlayer,
    TogglePause,
    /// Seek by this many seconds.
    Seek(i64),
    /// Read the last 100 history entries, then call `history_loaded`.
    LoadHistory,
    /// Read the saved videos, then call `saved_loaded`.
    LoadSaved,
    /// Read the playlists, then call `playlists_loaded`.
    LoadPlaylists(PlaylistsFor),
    /// Read the download records, then call `downloads_loaded`.
    LoadDownloads,
    /// Read the videos of this playlist, then call `playlist_videos_loaded`.
    LoadPlaylistVideos(i64),
    /// Add the video to the history and play it.
    Play(PlayRequest),
    /// Check that the downloaded file exists, then call `play_downloaded`.
    OpenDownload(DownloadRecord),
    /// Play a local file.
    PlayFile { path: String, audio: bool, quality: String, loop_playback: bool },
    /// Search Invidious, starting at this instance.
    Search { query: String, api_url: String },
    /// Download a video into a directory.
    Download { video_id: String, audio_only: bool, dir: String },
    SaveVideo { video_id: String, title: String, channel: Option<String> },
    AddToPlaylist { playlist_id: i64, video_id: String, title: String, channel: Option<String> },
    /// Clear the history, then call `history_cleared`.
    ClearHistory,
    /// Remove the saved video, re-read the saved videos, then call `unsave_done`.
    Unsave(String),
    /// Create the playlist, re-read the playlists, then call `playlist_created`.
    CreatePlaylist(String),
    /// Import a playlist of YouTube, starting at this instance.
    ImportPlaylist { list_id: String, api_url: String },
    /// Re-read an imported playlist from YouTube.
    RefreshPlaylist { playlist_id: i64, youtube_id: String, api_url: String },
    /// Remove a video (by its row) from a playlist, re-read its videos,
    /// then call `playlist_video_removed`.
    RemoveFromPlaylist { playlist_id: i64, row_id: i64 },
    /// Delete the playlist, re-read the playlists, then call `playlist_deleted`.
    DeletePlaylist(i64),
    /// Save the settings, after building the named player and after opening
    /// the folder picker, when asked.
    SettingsChanged { recreate_player: Option<String>, pick_download_path: bool },
    /// Save the download records.
    SaveDownloads,
}

pub struct App {
    pub mode: AppMode,
    pub settings: Settings,
    pub app_state: AppState,
    pub settings_selected: Option<usize>,
    pub items: Vec<String>,
    pub list_selected: Option<usize>,
    pub sidebar_items: Vec<String>,
    pub sidebar_selected: Option<usize>,
    pub active_block: ActiveBlock,
    pub should_quit: bool,
    pub show_context_menu: bool,
    pub context_menu_pos: (u16, u16),
    pub show_keybinds_popup: bool,
    pub show_download_menu: bool,
    pub pending_download_id: Option<String>,
    pub pending_download_title: Option<String>,
    pub anim_tick: u64,
    pub download_is_audio: bool,
    pub downloads: Vec<DownloadRecord>,
    pub downloads_selected: Option<usize>,
    pub sidebar_area: Rect,
    pub content_area: Rect,
    pub current_error: Option<String>,
    pub current_suggestion: Option<String>,
    pub is_loading: bool,
    pub is_playing: bool,
    pub is_paused: bool,
    pub loading_message: String,
    pub startup_warnings: Vec<String>,
    pub search_query: String,
    pub search_results: Vec<Video>,
    pub is_searching: bool,
    pub search_error: Option<String>,
    pub search_focus: SearchFocus,
    pub history_focus: ListFocus,
    pub saved_focus: ListFocus,
    pub playlist_focus: ListFocus,
    pub download_bar_state: DownloadBarState,
    pub download_bar_title: String,
    pub download_bar_percent: u8,
    pub download_bar_speed: String,
    pub download_bar_eta: String,
    pub playback_state: PlaybackState,
    pub playback_title: String,
    /// When the playback started, in milliseconds of the application's clock.
    pub playback_started: Option<u64>,
    pub playback_error: Option<String>,
    pub playback_is_audio: bool,
    pub history_results: Vec<HistoryEntry>,
    pub history_selected: Option<usize>,
    pub saved_results: Vec<SavedVideo>,
    pub saved_selected: Option<usize>,
    pub playlist_results: Vec<Playlist>,
    pub playlist_videos: Vec<PlaylistVideo>,
    pub playlist_selected: Option<usize>,
    pub playlist_videos_selected: Option<usize>,
    pub playlist_prompt: String,
    pub playlist_prompt_mode: Option<PlaylistPromptMode>,
    pub pending_playlist_add: Option<(String, String, Option<String>)>,
    pub autoplay_enabled: bool,
    pub last_played_category: Option<PlayedList>,
    pub last_played_index: Option<usize>,
}

/// The page of a video on YouTube, as it is played.
pub open spec fn watch_url(video_id: Seq<char>) -> Seq<char> {
    "https://www.youtube.com/watch?v="@ + video_id
}

pub fn watch_url_of(video_id: &str) -> (r: String)
    ensures
        r@ == watch_url(video_id@),
{
    concat("https://www.youtube.com/watch?v=", video_id)
}

/// The demonstration titles of the main list.
pub open spec fn demo_titles() -> Seq<Seq<char>> {
    seq![
        "Video 1: Rust for Beginners"@,
        "Video 2: Advanced Ratatui Patterns"@,
        "Video 3: Async Programming in Rust"@,
        "Video 4: Building a TUI with Mouse Support"@,
        "Video 5: YouTube API Integration"@,
        "Video 6: SQLite Persistence"@,
        "Video 7: Theme Systems in TUIs"@,
        "Video 8: Error Handling Best Practices"@,
    ]
}

/// The entries of the sidebar.
pub open spec fn sidebar_labels() -> Seq<Seq<char>> {
    seq!["Search"@, "History"@, "Saved"@, "Playlists"@, "Downloads"@, "Settings"@]
}

/// The video id and channel behind a demonstration title (the fallback for
/// any other title).
pub open spec fn demo_video(title: Seq<char>) -> (Seq<char>, Seq<char>) {
    if title == "Video 1: Rust for Beginners"@ {
        ("S_S_S_S_S1_"@, "Rust Lang"@)
    } else if title == "Video 2: Advanced Ratatui Patterns"@ {
        ("S_S_S_S_S2_"@, "Ratatui"@)
    } else if title == "Video 3: Async Programming in Rust"@ {
        ("S_S_S_S_S3_"@, "Tokio"@)
    } else if title == "Video 4: Building a TUI with Mouse Support"@ {
        ("S_S_S_S_S4_"@, "TUI Dev"@)
    } else if title == "Video 5: YouTube API Integration"@ {
        ("S_S_S_S_S5_"@, "API Guide"@)
    } else if title == "Video 6: SQLite Persistence"@ {
        ("S_S_S_S_S6_"@, "DB Tips"@)
    } else if title == "Video 7: Theme Systems in TUIs"@ {
        ("S_S_S_S_S7_"@, "Design"@)
    } else if title == "Video 8: Error Handling Best Practices"@ {
        ("S_S_S_S_S8_"@, "Rust Tips"@)
    } else {
        ("dQw4w9WgXcQ"@, "Rick Astley"@)
    }
}

pub fn demo_video_of(title: &str) -> (r: (&'static str, &'static str))
    ensures
        r.0@ == demo_video(title@).0,
        r.1@ == demo_video(title@).1,
{
    if str_eq(title, "Video 1: Rust for Beginners") {
        ("S_S_S_S_S1_", "Rust Lang")
    } else if str_eq(title, "Video 2: Advanced Ratatui Patterns") {
        ("S_S_S_S_S2_", "Ratatui")
    } else if str_eq(title, "Video 3: Async Programming in Rust") {
        ("S_S_S_S_S3_", "Tokio")
    } else if str_eq(title, "Video 4: Building a TUI with Mouse Support") {
        ("S_S_S_S_S4_", "TUI Dev")
    } else if str_eq(title, "Video 5: YouTube API Integration") {
        ("S_S_S_S_S5_", "API Guide")
    } else if str_eq(title, "Video 6: SQLite Persistence") {
        ("S_S_S_S_S6_", "DB Tips")
    } else if str_eq(title, "Video 7: Theme Systems in TUIs") {
        ("S_S_S_S_S7_", "Design")
    } else if str_eq(title, "Video 8: Error Handling Best Practices") {
        ("S_S_S_S_S8_", "Rust Tips")
    } else {
        ("dQw4w9WgXcQ", "Rick Astley")
    }
}

/// `text` scrolled within `width` columns: when it fits, padded with
/// spaces to exactly `width` characters; otherwise the window of `width` characters of the text followed by a
/// gap, taken as a ring, starting one character further every 3 ticks.
pub open spec fn marquee_text(text: Seq<char>, width: nat, tick: u64) -> Seq<char> {
    if text.len() <= width {
        text + Seq::new((width - text.len()) as nat, |i: int| ' ')
    } else {
        let ring = text + "   •   "@;
        let start = (tick / 3) as int % (ring.len() as int);
        Seq::new(width, |i: int| ring[(start + i) % (ring.len() as int)])
    }
}

pub fn marquee(text: &str, width: usize, tick: u64) -> (r: String)
    ensures
        r@ == marquee_text(text@, width as nat, tick),
{
    let chars = chars_of(text);
    if chars.len() <= width {
        let mut padded = chars_of(text);
        while padded.len() < width
            invariant
                chars@ == text@,
                chars@.len() <= width,
                text@.len() <= padded@.len() <= width,
                padded@.take(text@.len() as int) == text@,
                forall|k: int| text@.len() <= k < padded@.len() ==> padded@[k] == ' ',
            decreases width - padded@.len(),
        {
            padded.push(' ');
        }
        let r = string_of(&padded);
        assert(r@ =~= marquee_text(text@, width as nat, tick));
        return r;
    }
    let gap = chars_of("   •   ");
    let mut ring = chars_of(text);
    let mut g: usize = 0;
    while g < gap.len()
        invariant
            g <= gap@.len(),
            ring@ == text@ + gap@.take(g as int),
        decreases gap@.len() - g,
    {
        ring.push(gap[g]);
        assert(gap@.take(g + 1) =~= gap@.take(g as int).push(gap@[g as int]));
        g = g + 1;
    }
    assert(gap@.take(gap@.len() as int) =~= gap@);
    let period = ring.len();
    let start = ((tick / 3) % (period as u64)) as usize;
    assert(start < period);
    let mut out: Vec<char> = Vec::new();
    let mut i: usize = 0;
    while i < width
        invariant
            period == ring@.len(),
            period > 0,
            ring@ == text@ + "   •   "@,
            start == (tick / 3) as int % (period as int),
            i <= width,
            out@.len() == i,
            forall|k: int| 0 <= k < i ==> out@[k] == ring@[(start + k) % (period as int)],
        decreases width - i,
    {
        let idx = ((start as u128 + i as u128) % (period as u128)) as usize;
        out.push(ring[idx]);
        i = i + 1;
    }
    let r = string_of(&out);
    assert(r@ =~= marquee_text(text@, width as nat, tick));
    r
}

/// A text too long for its window scrolls: the window only moves every
/// third tick, comes back to where it was after three ticks per character
/// of the text and its gap, and each move shifts it left by one character.
pub proof fn law_marquee_scrolls(text: Seq<char>, width: nat, tick: u64)
    requires
        text.len() > width,
    ensures
        marquee_text(text, width, tick) == marquee_text(text, width, (tick - tick % 3) as u64),
        tick + 3 * (text.len() + 7) <= u64::MAX ==> marquee_text(
            text,
            width,
            (tick + 3 * (text.len() + 7)) as u64,
        ) == marquee_text(text, width, tick),
        width >= 1 && tick + 3 <= u64::MAX ==> marquee_text(text, width, (tick + 3) as u64).drop_last()
            == marquee_text(text, width, tick).skip(1),
{
    reveal_strlit("   •   ");
    let ring = text + "   •   "@;
    let p = ring.len() as int;
    assert(p == text.len() + 7);
    let a = (tick / 3) as int;
    assert(((tick - tick % 3) as u64) / 3 == tick / 3);
    assert(marquee_text(text, width, tick) =~= marquee_text(text, width, (tick - tick % 3) as u64));
    if tick + 3 * (text.len() + 7) <= u64::MAX {
        let t2 = (tick + 3 * (text.len() + 7)) as u64;
        assert(t2 / 3 == a + p);
        lemma_mod_multiples_vanish(1, a, p);
        assert((a + p) % p == a % p);
        assert(marquee_text(text, width, t2) =~= marquee_text(text, width, tick));
    }
    if width >= 1 && tick + 3 <= u64::MAX {
        let t3 = (tick + 3) as u64;
        assert(t3 / 3 == a + 1);
        let s0 = a % p;
        let s1 = (a + 1) % p;
        let m0 = marquee_text(text, width, tick);
        let m1 = marquee_text(text, width, t3);
        assert forall|i: int| 0 <= i < width - 1 implies #[trigger] m1[i] == m0[i + 1] by {
            lemma_add_mod_noop(a + 1, i, p);
            lemma_add_mod_noop(a, i + 1, p);
            lemma_small_mod(i as nat, p as nat);
            lemma_small_mod((i + 1) as nat, p as nat);
            lemma_mod_twice(a + 1, p);
            lemma_mod_twice(a, p);
            lemma_add_mod_noop(s1, i, p);
            lemma_add_mod_noop(s0, i + 1, p);
            assert((s1 + i) % p == (a + 1 + i) % p);
            assert((s0 + (i + 1)) % p == (a + (i + 1)) % p);
        }
        assert(m1.drop_last() =~= m0.skip(1));
    }
}

/// `items` filtered by `query`, as copies: all of them for an empty query,
/// else those that match it, in order.
pub open spec fn filtered<T: Filterable>(items: Seq<T>, query: Seq<char>) -> Seq<T> {
    if query.len() == 0 {
        items
    } else {
        items.filter(|t: T| t.matches(query))
    }
}

pub fn filter_by_query<T: Filterable + Clone>(query: &str, items: &Vec<T>) -> (r: Vec<T>)
    ensures
        r@.len() == filtered(items@, query@).len(),
        forall|i: int| 0 <= i < r@.len() ==> cloned(filtered(items@, query@)[i], r@[i]),
{
    let q = chars_of(query);
    let mut out: Vec<T> = Vec::new();
    let mut i: usize = 0;
    while i < items.len()
        invariant
            q@ == query@,
            i <= items@.len(),
            out@.len() == filtered(items@.take(i as int), query@).len(),
            forall|k: int|
                0 <= k < out@.len() ==> cloned(filtered(items@.take(i as int), query@)[k], out@[k]),
        decreases items@.len() - i,
    {
        let keep = q.len() == 0 || items[i].matches_query(query);
        proof {
            let pred = |t: T| t.matches(query@);
            items@.take(i as int).lemma_filter_push(items@[i as int], pred);
            assert(items@.take(i + 1) =~= items@.take(i as int).push(items@[i as int]));
        }
        if keep {
            let c = items[i].clone();
            out.push(c);
        }
        i = i + 1;
    }
    assert(items@.take(items@.len() as int) =~= items@);
    out
}

/// A history entry whose channel's name holds the filter text, ignoring
/// case, is shown by the filter, whatever its title and video id.
pub proof fn law_filter_finds_the_channel(items: Seq<HistoryEntry>, query: Seq<char>, i: int, c: String)
    requires
        0 <= i < items.len(),
        items[i].channel == Some(c),
        contains(lowercase(c@), lowercase(query)),
    ensures
        filtered(items, query).contains(items[i]),
{
    law_filter_looks_at_title_channel_and_id(items[i], arbitrary(), arbitrary(), query);
    law_filter_shows_matches(items, query);
    if query.len() == 0 {
        assert(filtered(items, query)[i] == items[i]);
    }
}

/// With no filter text every entry is shown; with one, every entry shown
/// matches it, and every entry that matches it is shown.
pub proof fn law_filter_shows_matches<T: Filterable>(items: Seq<T>, query: Seq<char>)
    ensures
        query.len() == 0 ==> filtered(items, query) == items,
        query.len() > 0 ==> forall|i: int|
            0 <= i < filtered(items, query).len() ==> (#[trigger] filtered(items, query)[i]).matches(query),
        query.len() > 0 ==> forall|i: int|
            0 <= i < items.len() && items[i].matches(query) ==> #[trigger] filtered(items, query).contains(
                items[i],
            ),
{
    let pred = |t: T| t.matches(query);
    items.filter_lemma(pred);
}

/// The selections remembered before quitting come back when the saved state
/// is restored: `b` is `a` after `App::save_state`, `c` is `b` after
/// `App::restore_state` with the state `b` saved.
pub proof fn law_saved_selections_come_back(a: App, b: App, c: App)
    requires
        saves_state(a, b),
        restores_state(b, b.app_state, c),
    ensures
        a.sidebar_selected is Some ==> c.sidebar_selected == a.sidebar_selected,
        a.list_selected is Some ==> c.list_selected == a.list_selected,
        a.settings_selected is Some ==> c.settings_selected == a.settings_selected,
{
}

/// `b` is `a` after its selections were remembered in its saved state.
pub open spec fn saves_state(a: App, b: App) -> bool {
    &&& b == App { app_state: b.app_state, ..a }
    &&& b.app_state.last_sidebar_index == match a.sidebar_selected {
        Some(i) => i,
        None => a.app_state.last_sidebar_index,
    }
    &&& b.app_state.last_content_index == match a.list_selected {
        Some(i) => i,
        None => a.app_state.last_content_index,
    }
    &&& b.app_state.last_settings_index == match a.settings_selected {
        Some(i) => i,
        None => a.app_state.last_settings_index,
    }
}

/// `b` is `a` with the selections that `state` remembers.
pub open spec fn restores_state(a: App, state: AppState, b: App) -> bool {
    b == App {
        sidebar_selected: Some(state.last_sidebar_index),
        list_selected: Some(state.last_content_index),
        settings_selected: Some(state.last_settings_index),
        app_state: state,
        ..a
    }
}


impl App {
    /// The shape the rest of the interface relies on: the sidebar and the
    /// main list are never empty.
    pub open spec fn wf(&self) -> bool {
        &&& self.items@.len() > 0
        &&& self.sidebar_items@.len() > 0
    }

    /// Nothing has happened yet: no popup or menu, nothing playing, loading,
    /// searching or downloading, no error, empty query, results, lists and
    /// prompts, no selection in the secondary lists, all inputs focused, the
    /// saved state at zero and the clock at its first tick.
    pub open spec fn starts_idle(&self) -> bool {
        &&& self.app_state == AppState { last_sidebar_index: 0, last_content_index: 0, last_settings_index: 0 }
        &&& !self.show_context_menu
        &&& self.context_menu_pos == (0u16, 0u16)
        &&& !self.show_keybinds_popup
        &&& !self.show_download_menu
        &&& self.pending_download_id is None
        &&& self.pending_download_title is None
        &&& self.anim_tick == 0
        &&& !self.download_is_audio
        &&& self.downloads_selected is None
        &&& self.sidebar_area == Rect { x: 0, y: 0, width: 0, height: 0 }
        &&& self.content_area == Rect { x: 0, y: 0, width: 0, height: 0 }
        &&& self.current_suggestion is None
        &&& !self.is_loading
        &&& !self.is_playing
        &&& !self.is_paused
        &&& self.loading_message@.len() == 0
        &&& self.search_query@.len() == 0
        &&& self.search_results@.len() == 0
        &&& !self.is_searching
        &&& self.search_error is None
        &&& self.history_focus == ListFocus::Input
        &&& self.saved_focus == ListFocus::Input
        &&& self.playlist_focus == ListFocus::Input
        &&& self.download_bar_title@.len() == 0
        &&& self.download_bar_percent == 0
        &&& self.download_bar_speed@.len() == 0
        &&& self.download_bar_eta@.len() == 0
        &&& self.playback_title@.len() == 0
        &&& self.playback_started is None
        &&& self.playback_error is None
        &&& !self.playback_is_audio
        &&& self.history_results@.len() == 0
        &&& self.history_selected is None
        &&& self.saved_results@.len() == 0
        &&& self.saved_selected is None
        &&& self.playlist_results@.len() == 0
        &&& self.playlist_videos@.len() == 0
        &&& self.playlist_selected is None
        &&& self.playlist_videos_selected is None
        &&& self.playlist_prompt@.len() == 0
        &&& self.playlist_prompt_mode is None
        &&& self.pending_playlist_add is None
    }

    /// A fresh interface over these settings and download records.
    pub fn new(settings: Settings, downloads: Vec<DownloadRecord>, startup_warnings: Vec<String>) -> (r: App)
        ensures
            r.wf(),
            r.mode == AppMode::Main,
            r.settings == settings,
            r.downloads == downloads,
            r.startup_warnings == startup_warnings,
            r.items@.len() == demo_titles().len(),
            forall|i: int| 0 <= i < r.items@.len() ==> #[trigger] r.items@[i]@ == demo_titles()[i],
            r.sidebar_items@.len() == sidebar_labels().len(),
            forall|i: int| 0 <= i < r.sidebar_items@.len() ==> #[trigger] r.sidebar_items@[i]@
                == sidebar_labels()[i],
            r.list_selected == Some(0usize),
            r.sidebar_selected == Some(0usize),
            r.settings_selected == Some(0usize),
            r.active_block == ActiveBlock::Sidebar,
            !r.should_quit,
            r.autoplay_enabled == settings.auto_play,
            r.playback_state == PlaybackState::Idle,
            r.download_bar_state == DownloadBarState::Idle,
            r.current_error is None,
            r.search_focus == SearchFocus::Input,
            r.last_played_category is None,
            r.last_played_index is None,
            r.starts_idle(),
    {
        let auto = settings.auto_play;
        let items = vec![
            owned("Video 1: Rust for Beginners"),
            owned("Video 2: Advanced Ratatui Patterns"),
            owned("Video 3: Async Programming in Rust"),
            owned("Video 4: Building a TUI with Mouse Support"),
            owned("Video 5: YouTube API Integration"),
            owned("Video 6: SQLite Persistence"),
            owned("Video 7: Theme Systems in TUIs"),
            owned("Video 8: Error Handling Best Practices"),
        ];
        let sidebar_items = vec![
            owned("Search"),
            owned("History"),
            owned("Saved"),
            owned("Playlists"),
            owned("Downloads"),
            owned("Settings"),
        ];
        App {
            mode: AppMode::Main,
            settings,
            app_state: AppState::new(),
            settings_selected: Some(0),
            items,
            list_selected: Some(0),
            sidebar_items,
            sidebar_selected: Some(0),
            active_block: ActiveBlock::Sidebar,
            should_quit: false,
            show_context_menu: false,
            context_menu_pos: (0, 0),
            show_keybinds_popup: false,
            show_download_menu: false,
            pending_download_id: None,
            pending_download_title: None,
            anim_tick: 0,
            download_is_audio: false,
            downloads,
            downloads_selected: None,
            sidebar_area: Rect::empty(),
            content_area: Rect::empty(),
            current_error: None,
            current_suggestion: None,
            is_loading: false,
            is_playing: false,
            is_paused: false,
            loading_message: String::new(),
            startup_warnings,
            search_query: String::new(),
            search_results: Vec::new(),
            is_searching: false,
            search_error: None,
            search_focus: SearchFocus::Input,
            history_focus: ListFocus::Input,
            saved_focus: ListFocus::Input,
            playlist_focus: ListFocus::Input,
            download_bar_state: DownloadBarState::Idle,
            download_bar_title: String::new(),
            download_bar_percent: 0,
            download_bar_speed: String::new(),
            download_bar_eta: String::new(),
            playback_state: PlaybackState::Idle,
            playback_title: String::new(),
            playback_started: None,
            playback_error: None,
            playback_is_audio: false,
            history_results: Vec::new(),
            history_selected: None,
            saved_results: Vec::new(),
            saved_selected: None,
            playlist_results: Vec::new(),
            playlist_videos: Vec::new(),
            playlist_selected: None,
            playlist_videos_selected: None,
            playlist_prompt: String::new(),
            playlist_prompt_mode: None,
            pending_playlist_add: None,
            autoplay_enabled: auto,
            last_played_category: None,
            last_played_index: None,
        }
    }

    /// Selects what the saved state remembers, and keeps the state.
    pub fn restore_state(&mut self, state: AppState)
        ensures
            restores_state(*old(self), state, *final(self)),
    {
        self.sidebar_selected = Some(state.last_sidebar_index);
        self.list_selected = Some(state.last_content_index);
        self.settings_selected = Some(state.last_settings_index);
        self.app_state = state;
    }

    /// Before quitting: the saved state takes the current selections.
    pub fn save_state(&mut self)
        ensures
            saves_state(*old(self), *final(self)),
    {
        let s = self.sidebar_selected;
        let c = self.list_selected;
        let t = self.settings_selected;
        self.app_state.remember(s, c, t);
    }

    /// Where the sidebar and the content were drawn.
    pub fn set_areas(&mut self, sidebar: Rect, content: Rect)
        ensures
            *final(self) == (App { sidebar_area: sidebar, content_area: content, ..*old(self) }),
    {
        self.sidebar_area = sidebar;
        self.content_area = content;
    }

    pub fn set_error(&mut self, error: String)
        ensures
            *final(self) == (App { current_error: Some(error), current_suggestion: None, ..*old(self) }),
    {
        self.current_error = Some(error);
        self.current_suggestion = None;
    }

    pub fn set_error_with_suggestion(&mut self, error: String, suggestion: String)
        ensures
            *final(self) == (App {
                current_error: Some(error),
                current_suggestion: Some(suggestion),
                ..*old(self)
            }),
    {
        self.current_error = Some(error);
        self.current_suggestion = Some(suggestion);
    }

    pub fn clear_error(&mut self)
        ensures
            *final(self) == (App { current_error: None, current_suggestion: None, ..*old(self) }),
    {
        self.current_error = None;
        self.current_suggestion = None;
    }

    pub fn set_loading(&mut self, message: String)
        ensures
            *final(self) == (App { is_loading: true, loading_message: message, ..*old(self) }),
    {
        self.is_loading = true;
        self.loading_message = message;
    }

    pub fn clear_loading(&mut self)
        ensures
            *final(self) == (App { loading_message: final(self).loading_message, is_loading: false, ..*old(self) }),
            final(self).loading_message@.len() == 0,
    {
        self.is_loading = false;
        self.loading_message = String::new();
    }

    pub fn is_empty(&self) -> (r: bool)
        ensures
            r == (self.items@.len() == 0),
    {
        self.items.len() == 0
    }

    /// The name of the selected sidebar entry (the first when none is
    /// selected), or `"Search"` when the selection is out of range.
    pub fn current_view(&self) -> (r: &str)
        ensures
            ({
                let i = match self.sidebar_selected {
                    Some(i) => i as int,
                    None => 0,
                };
                if 0 <= i < self.sidebar_items@.len() {
                    r@ == self.sidebar_items@[i]@
                } else {
                    r@ == "Search"@
                }
            }),
    {
        let i = match self.sidebar_selected {
            Some(i) => i,
            None => 0,
        };
        if i < self.sidebar_items.len() {
            self.sidebar_items[i].as_str()
        } else {
            "Search"
        }
    }

    /// One tick of the animation clock.
    pub fn tick(&mut self)
        ensures
            *final(self) == (App {
                anim_tick: if old(self).anim_tick == u64::MAX {
                    0
                } else {
                    (old(self).anim_tick + 1) as u64
                },
                ..*old(self)
            }),
    {
        self.anim_tick = self.anim_tick.wrapping_add(1);
    }
}

} // verus!
