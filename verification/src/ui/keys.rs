//! The keyboard: what each key does on each screen of the interface. The
//! download menu takes the keys first while it is open; while something
//! plays, the player keys control it unless a text is being typed; the
//! screen shown takes the rest.
use vstd::prelude::*;
use crate::text::{owned, pop_char, str_eq, without_last};
use crate::ui::actions::{
    add_step, create_step, import_step, opens_download_menu, refresh_step, save_step, selected_entry,
    shows_error,
};
use crate::ui::app::{
    ActiveBlock, App, AppMode, Command, DownloadBarState, ListFocus, PlaylistPromptMode, PlaylistsFor,
    PlayedList, SearchFocus,
};
use crate::ui::navigation::{down_from, step_down, step_up, up_from};
use crate::ui::playback::{jumps_to, list_len, plays_entry, remembers, same_but_playback, select_in, text_of, typing};
use crate::ui::settings::{changed, cycle_setting, row_list, rows, SettingEffect, SettingRow};

verus! {

/// A key, as the interface tells keys apart.
#[derive(PartialEq, Eq, Structural, Clone, Copy)]
pub enum Key {
    Char(char),
    Enter,
    Esc,
    Tab,
    Backspace,
    Up,
    Down,
    Left,
    Right,
    Other,
}

/// A key press; `ctrl_shift` is set when both Control and Shift are held.
#[derive(PartialEq, Eq, Structural, Clone, Copy)]
pub struct KeyInput {
    pub code: Key,
    pub ctrl_shift: bool,
}

/// Nothing changes and nothing is asked for.
pub open spec fn unchanged(old: App, new: App, r: Command) -> bool {
    new == old && r is Nothing
}

/// `c` is typed into the filter text.
pub open spec fn typed(old: App, new: App, c: char) -> bool {
    &&& new == App { search_query: new.search_query, ..old }
    &&& new.search_query@ == old.search_query@.push(c)
}

/// The last character of the filter text is erased.
pub open spec fn erased(old: App, new: App) -> bool {
    &&& new == App { search_query: new.search_query, ..old }
    &&& new.search_query@ == without_last(old.search_query@)
}

/// The search screen opens, empty.
pub open spec fn opens_search(old: App, new: App) -> bool {
    &&& new == App {
        mode: AppMode::Search,
        search_query: new.search_query,
        search_results: new.search_results,
        search_error: None,
        ..old
    }
    &&& new.search_query@.len() == 0
    &&& new.search_results@.len() == 0
}

/// The screen `mode` opens and `load` is asked for to fill it.
pub open spec fn opens(old: App, new: App, r: Command, mode: AppMode, load: Command) -> bool {
    new == App { mode, ..old } && r == load
}

/// A screen is left for the main screen, with the filter text cleared.
pub open spec fn leaves_clearing_filter(old: App, new: App) -> bool {
    &&& new == App { mode: AppMode::Main, search_query: new.search_query, ..old }
    &&& new.search_query@.len() == 0
}

/// The other focus.
pub open spec fn flip(f: ListFocus) -> ListFocus {
    match f {
        ListFocus::Input => ListFocus::List,
        ListFocus::List => ListFocus::Input,
    }
}

/// The keys that control the player.
pub open spec fn is_media_key(k: Key) -> bool {
    k == Key::Char(' ') || k == Key::Left || k == Key::Right || k == Key::Char('>') || k == Key::Char(
        '<',
    )
}

/// The pending download starts, as audio or as video; its title is the
/// pending title, or the video id when there is none.
pub open spec fn starts_pending_download(old: App, new: App, r: Command, audio: bool) -> bool {
    match old.pending_download_id {
        Some(id) => {
            let title = match old.pending_download_title {
                Some(t) => t,
                None => id,
            };
            &&& new == App {
                show_download_menu: false,
                pending_download_id: None,
                pending_download_title: None,
                current_error: None,
                download_is_audio: audio,
                download_bar_state: DownloadBarState::Active,
                download_bar_title: title,
                download_bar_percent: 0,
                download_bar_speed: new.download_bar_speed,
                download_bar_eta: new.download_bar_eta,
                ..old
            }
            &&& new.download_bar_speed@.len() == 0
            &&& new.download_bar_eta@.len() == 0
            &&& r == (Command::Download {
                video_id: id,
                audio_only: audio,
                dir: old.settings.download_path,
            })
        },
        None => new == App { show_download_menu: false, ..old } && r is Nothing,
    }
}

/// A key while the download menu is open: `1`/`v` downloads the video,
/// `2`/`a` its audio, Esc or `q` closes the menu.
#[verifier::opaque]
pub open spec fn menu_key(old: App, new: App, code: Key, r: Command) -> bool {
    if code == Key::Char('1') || code == Key::Char('v') || code == Key::Char('V') {
        starts_pending_download(old, new, r, false)
    } else if code == Key::Char('2') || code == Key::Char('a') || code == Key::Char('A') {
        starts_pending_download(old, new, r, true)
    } else if code == Key::Esc || code == Key::Char('q') {
        new == App {
            show_download_menu: false,
            pending_download_id: None,
            pending_download_title: None,
            ..old
        } && r is Nothing
    } else {
        unchanged(old, new, r)
    }
}

/// Skipping `delta` entries from the last played one (see
/// `App::skip_relative`).
pub open spec fn skips(old: App, new: App, r: Command, now: u64, delta: i64) -> bool {
    match (old.last_played_category, old.last_played_index) {
        (Some(c), Some(i)) => if (i as i64) + delta < 0 {
            unchanged(old, new, r)
        } else {
            jumps_to(old, new, r, now, c, (((i as i64) + delta) as usize) as int)
        },
        _ => unchanged(old, new, r),
    }
}

/// A player key: space pauses or resumes, the arrows seek ten seconds,
/// `>` and `<` skip to the next and previous entry.
#[verifier::opaque]
pub open spec fn media_key(old: App, new: App, code: Key, r: Command, now: u64) -> bool {
    if code == Key::Char(' ') {
        new == App { is_paused: !old.is_paused, ..old } && r is TogglePause
    } else if code == Key::Left {
        new == old && r == Command::Seek(-10i64)
    } else if code == Key::Right {
        new == old && r == Command::Seek(10)
    } else if code == Key::Char('>') {
        skips(old, new, r, now, 1)
    } else if code == Key::Char('<') {
        skips(old, new, r, now, -1i64)
    } else {
        unchanged(old, new, r)
    }
}

/// Choosing the sidebar entry `label` opens its screen.
pub open spec fn sidebar_choice(old: App, new: App, r: Command, label: Seq<char>) -> bool {
    if label == "Search"@ {
        opens_search(old, new) && r is Nothing
    } else if label == "History"@ {
        opens(old, new, r, AppMode::History, Command::LoadHistory)
    } else if label == "Saved"@ {
        opens(old, new, r, AppMode::Saved, Command::LoadSaved)
    } else if label == "Playlists"@ {
        opens(old, new, r, AppMode::Playlist, Command::LoadPlaylists(PlaylistsFor::View))
    } else if label == "Downloads"@ {
        opens(old, new, r, AppMode::Downloads, Command::LoadDownloads)
    } else if label == "Settings"@ {
        opens(old, new, r, AppMode::Settings, Command::Nothing)
    } else {
        unchanged(old, new, r)
    }
}

/// Enter on the main screen: opens the sidebar entry, or plays the title
/// of the main list, that is selected.
#[verifier::opaque]
pub open spec fn main_enter(old: App, new: App, r: Command, now: u64) -> bool {
    if old.active_block == ActiveBlock::Sidebar {
        match old.sidebar_selected {
            Some(i) => sidebar_choice(old, new, r, old.sidebar_items@[i as int]@),
            None => unchanged(old, new, r),
        }
    } else {
        match old.list_selected {
            Some(i) => if i < old.items@.len() {
                plays_entry(old, new, r, now, PlayedList::Main, i as int)
            } else {
                unchanged(old, new, r)
            },
            None => unchanged(old, new, r),
        }
    }
}

/// A letter that leaves the main screen: `q` quits (stopping the player),
/// `s`, `h`, `v` and `p` open the search, history, saved and playlists
/// screens.
#[verifier::opaque]
pub open spec fn main_letter(old: App, new: App, code: Key, r: Command) -> bool {
    if code == Key::Char('q') {
        new == App { should_quit: true, ..old } && r is StopPlayer
    } else if code == Key::Char('s') {
        opens_search(old, new) && r is Nothing
    } else if code == Key::Char('h') {
        opens(old, new, r, AppMode::History, Command::LoadHistory)
    } else if code == Key::Char('v') {
        opens(old, new, r, AppMode::Saved, Command::LoadSaved)
    } else {
        opens(old, new, r, AppMode::Playlist, Command::LoadPlaylists(PlaylistsFor::View))
    }
}

/// The letters of `main_letter`.
pub open spec fn is_main_letter(code: Key) -> bool {
    code == Key::Char('q') || code == Key::Char('s') || code == Key::Char('h') || code == Key::Char('v')
        || code == Key::Char('p')
}

/// A key that stays on the main screen: Esc closes the menus, `/` shows or
/// hides the keys, the arrows move (wrapping) in the sidebar or the main
/// list, whichever is active, and Tab makes the other one active.
#[verifier::opaque]
pub open spec fn main_view_key(old: App, new: App, code: Key, r: Command) -> bool {
    if code == Key::Esc {
        new == App { show_context_menu: false, show_keybinds_popup: false, ..old } && r is Nothing
    } else if code == Key::Char('/') {
        new == App { show_keybinds_popup: !old.show_keybinds_popup, ..old } && r is Nothing
    } else if code == Key::Up {
        r is Nothing && if old.active_block == ActiveBlock::Sidebar {
            new == App {
                sidebar_selected: Some(step_up(old.sidebar_selected, old.sidebar_items@.len())),
                ..old
            }
        } else {
            new == App { list_selected: Some(step_up(old.list_selected, old.items@.len())), ..old }
        }
    } else if code == Key::Down {
        r is Nothing && if old.active_block == ActiveBlock::Sidebar {
            new == App {
                sidebar_selected: Some(step_down(old.sidebar_selected, old.sidebar_items@.len())),
                ..old
            }
        } else {
            new == App { list_selected: Some(step_down(old.list_selected, old.items@.len())), ..old }
        }
    } else if code == Key::Tab {
        r is Nothing && new == App {
            active_block: if old.active_block == ActiveBlock::Sidebar {
                ActiveBlock::Content
            } else {
                ActiveBlock::Sidebar
            },
            ..old
        }
    } else {
        unchanged(old, new, r)
    }
}

/// A key on the main screen.
pub open spec fn main_key(old: App, new: App, code: Key, r: Command, now: u64) -> bool {
    if is_main_letter(code) {
        main_letter(old, new, code, r)
    } else if code == Key::Enter {
        main_enter(old, new, r, now)
    } else {
        main_view_key(old, new, code, r)
    }
}

/// The row of the settings screen that is selected (the first when none
/// is).
pub open spec fn settings_row_index(s: App) -> usize {
    match s.settings_selected {
        Some(i) => i,
        None => 0,
    }
}

/// The setting of `row` changes (see `changed`), auto-play follows its
/// setting, and the settings are to be saved, after building the new player
/// or picking the download path when those rows changed.
#[verifier::opaque]
pub open spec fn row_changed(old: App, new: App, r: Command, row: SettingRow) -> bool {
    &&& changed(old.settings, new.settings, row)
    &&& new == App {
        settings: new.settings,
        autoplay_enabled: if row is AutoPlay {
            new.settings.auto_play
        } else {
            old.autoplay_enabled
        },
        ..old
    }
    &&& r matches Command::SettingsChanged { recreate_player, pick_download_path }
    &&& (row is Player ==> text_of(recreate_player) == Some(new.settings.player@))
    &&& (!(row is Player) ==> recreate_player is None)
    &&& pick_download_path == (row is DownloadPath)
}

/// Enter on the settings screen: the selected row changes (see
/// `row_changed`).
pub open spec fn settings_enter_step(old: App, new: App, r: Command) -> bool {
    let i = settings_row_index(old);
    if i < row_list().len() {
        row_changed(old, new, r, row_list()[i as int])
    } else {
        unchanged(old, new, r)
    }
}

/// A key on the settings screen: the arrows move between the rows, Enter
/// changes the selected row's setting (see `changed`) and asks for the
/// settings to be saved, Esc goes back.
#[verifier::opaque]
pub open spec fn settings_key(old: App, new: App, code: Key, r: Command) -> bool {
    let i = settings_row_index(old);
    if code == Key::Up {
        new == App { settings_selected: Some(if i == 0 { 0 } else { (i - 1) as usize }), ..old }
            && r is Nothing
    } else if code == Key::Down {
        new == App { settings_selected: Some(if i >= 8 { 8 } else { (i + 1) as usize }), ..old }
            && r is Nothing
    } else if code == Key::Enter {
        settings_enter_step(old, new, r)
    } else if code == Key::Esc {
        new == App { mode: AppMode::Main, ..old } && r is Nothing
    } else {
        unchanged(old, new, r)
    }
}

/// A key on the downloads screen: the arrows move through the records
/// (wrapping around), Enter plays the selected file, Esc goes back.
#[verifier::opaque]
pub open spec fn downloads_key(old: App, new: App, code: Key, r: Command) -> bool {
    let n = old.downloads@.len();
    if code == Key::Esc {
        new == App { show_keybinds_popup: false, mode: AppMode::Main, ..old } && r is Nothing
    } else if code == Key::Char('/') {
        new == App { show_keybinds_popup: !old.show_keybinds_popup, ..old } && r is Nothing
    } else if code == Key::Up {
        r is Nothing && if n > 0 {
            new == App {
                downloads_selected: Some(
                    match old.downloads_selected {
                        Some(i) => if i == 0 {
                            (n - 1) as usize
                        } else {
                            (i - 1) as usize
                        },
                        None => (n - 1) as usize,
                    },
                ),
                ..old
            }
        } else {
            new == old
        }
    } else if code == Key::Down {
        r is Nothing && if n > 0 {
            new == App { downloads_selected: Some(step_down(old.downloads_selected, n)), ..old }
        } else {
            new == old
        }
    } else if code == Key::Enter {
        match old.downloads_selected {
            Some(i) => if i < n {
                new == old && r == Command::OpenDownload(old.downloads@[i as int])
            } else {
                unchanged(old, new, r)
            },
            None => unchanged(old, new, r),
        }
    } else {
        unchanged(old, new, r)
    }
}

/// The search text changes (by typing or erasing): the results go and the
/// first entry is selected.
pub open spec fn search_edited(old: App, new: App, text: Seq<char>) -> bool {
    &&& new == App {
        search_query: new.search_query,
        search_results: new.search_results,
        list_selected: Some(0),
        ..old
    }
    &&& new.search_query@ == text
    &&& new.search_results@.len() == 0
}

/// A key on the search screen. In the results, `d` opens the download
/// menu, `s` saves and `a` adds to a playlist; in the text, characters are
/// typed. Enter searches from the text and plays from the results; Tab
/// moves between them; Esc goes back.
#[verifier::opaque]
pub open spec fn search_key(old: App, new: App, code: Key, r: Command, now: u64) -> bool {
    let in_list = old.search_focus == SearchFocus::List;
    match code {
        Key::Char(c) => if c == 'd' && in_list {
            opens_download_menu(old, new) && r is Nothing
        } else if c == 's' && in_list {
            save_step(old, new, r)
        } else if c == 'a' && in_list {
            add_step(old, new, r)
        } else if !in_list {
            search_edited(old, new, old.search_query@.push(c)) && r is Nothing
        } else {
            unchanged(old, new, r)
        },
        Key::Backspace => if !in_list {
            search_edited(old, new, without_last(old.search_query@)) && r is Nothing
        } else {
            unchanged(old, new, r)
        },
        Key::Up => if in_list {
            new == App {
                list_selected: Some(step_up(old.list_selected, old.search_results@.len())),
                ..old
            } && r is Nothing
        } else {
            unchanged(old, new, r)
        },
        Key::Down => if in_list {
            new == App {
                list_selected: Some(step_down(old.list_selected, old.search_results@.len())),
                ..old
            } && r is Nothing
        } else {
            unchanged(old, new, r)
        },
        Key::Esc => new == App { mode: AppMode::Main, ..old } && r is Nothing,
        Key::Enter => if !in_list {
            if old.search_query@.len() > 0 {
                &&& new == App { is_searching: true, search_error: None, ..old }
                &&& r matches Command::Search { query, api_url }
                &&& query == old.search_query
                &&& api_url == old.settings.api_instance_invidious
            } else {
                unchanged(old, new, r)
            }
        } else {
            match old.list_selected {
                Some(i) => if old.search_results@.len() > 0 && i < old.search_results@.len() {
                    plays_entry(old, new, r, now, PlayedList::Search, i as int)
                } else {
                    unchanged(old, new, r)
                },
                None => unchanged(old, new, r),
            }
        },
        Key::Tab => new == App {
            search_focus: if in_list {
                SearchFocus::Input
            } else {
                SearchFocus::List
            },
            ..old
        } && r is Nothing,
        _ => unchanged(old, new, r),
    }
}

/// A key on the history screen. `c` clears the history; in the filter,
/// characters are typed; in the list, `d` opens the download menu, the
/// arrows move (wrapping) and Enter plays; Tab moves between them; Esc goes
/// back, clearing the filter.
#[verifier::opaque]
pub open spec fn history_key(old: App, new: App, code: Key, r: Command, now: u64) -> bool {
    let typing_here = old.history_focus == ListFocus::Input;
    match code {
        Key::Char(c) => if c == 'c' {
            new == old && r is ClearHistory
        } else if typing_here {
            typed(old, new, c) && r is Nothing
        } else if c == 'd' {
            opens_download_menu(old, new) && r is Nothing
        } else {
            unchanged(old, new, r)
        },
        Key::Tab => new == App { history_focus: flip(old.history_focus), ..old } && r is Nothing,
        Key::Backspace => if typing_here {
            erased(old, new) && r is Nothing
        } else {
            unchanged(old, new, r)
        },
        Key::Up => new == App {
            history_selected: Some(step_up(old.history_selected, old.history_results@.len())),
            ..old
        } && r is Nothing,
        Key::Down => new == App {
            history_selected: Some(step_down(old.history_selected, old.history_results@.len())),
            ..old
        } && r is Nothing,
        Key::Enter => match old.history_selected {
            Some(i) => if i < old.history_results@.len() {
                plays_entry(old, new, r, now, PlayedList::History, i as int)
            } else {
                unchanged(old, new, r)
            },
            None => unchanged(old, new, r),
        },
        Key::Esc => leaves_clearing_filter(old, new) && r is Nothing,
        _ => unchanged(old, new, r),
    }
}

/// A key on the saved screen. `s` removes the selected video from the
/// saved ones; otherwise as on the history screen.
#[verifier::opaque]
pub open spec fn saved_key(old: App, new: App, code: Key, r: Command, now: u64) -> bool {
    let typing_here = old.saved_focus == ListFocus::Input;
    match code {
        Key::Char(c) => if c == 's' {
            match old.saved_selected {
                Some(i) => if i < old.saved_results@.len() {
                    new == old && (r matches Command::Unsave(id) && id == old.saved_results@[i as int].video_id)
                } else {
                    unchanged(old, new, r)
                },
                None => unchanged(old, new, r),
            }
        } else if typing_here {
            typed(old, new, c) && r is Nothing
        } else if c == 'd' {
            opens_download_menu(old, new) && r is Nothing
        } else {
            unchanged(old, new, r)
        },
        Key::Tab => new == App { saved_focus: flip(old.saved_focus), ..old } && r is Nothing,
        Key::Backspace => if typing_here {
            erased(old, new) && r is Nothing
        } else {
            unchanged(old, new, r)
        },
        Key::Up => new == App {
            saved_selected: Some(step_up(old.saved_selected, old.saved_results@.len())),
            ..old
        } && r is Nothing,
        Key::Down => new == App {
            saved_selected: Some(step_down(old.saved_selected, old.saved_results@.len())),
            ..old
        } && r is Nothing,
        Key::Enter => match old.saved_selected {
            Some(i) => if i < old.saved_results@.len() {
                plays_entry(old, new, r, now, PlayedList::Saved, i as int)
            } else {
                unchanged(old, new, r)
            },
            None => unchanged(old, new, r),
        },
        Key::Esc => leaves_clearing_filter(old, new) && r is Nothing,
        _ => unchanged(old, new, r),
    }
}

/// The prompt is closed and emptied.
pub open spec fn prompt_closed(old: App, new: App) -> bool {
    &&& new == App { playlist_prompt_mode: None, playlist_prompt: new.playlist_prompt, ..old }
    &&& new.playlist_prompt@.len() == 0
}

/// A key while the playlist prompt is open: characters are typed into it,
/// Enter creates or imports the playlist it names, Esc closes it.
#[verifier::opaque]
pub open spec fn prompt_key(old: App, new: App, code: Key, r: Command) -> bool {
    match code {
        Key::Char(c) => {
            &&& new == App { playlist_prompt: new.playlist_prompt, ..old }
            &&& new.playlist_prompt@ == old.playlist_prompt@.push(c)
            &&& r is Nothing
        },
        Key::Backspace => {
            &&& new == App { playlist_prompt: new.playlist_prompt, ..old }
            &&& new.playlist_prompt@ == without_last(old.playlist_prompt@)
            &&& r is Nothing
        },
        Key::Enter => {
            let mid = App { playlist_prompt_mode: None, playlist_prompt: new.playlist_prompt, ..old };
            &&& new.playlist_prompt@.len() == 0
            &&& match old.playlist_prompt_mode {
                Some(PlaylistPromptMode::New) => create_step(mid, new, old.playlist_prompt, r),
                _ => import_step(mid, new, old.playlist_prompt@, r),
            }
        },
        Key::Esc => prompt_closed(old, new) && r is Nothing,
        _ => unchanged(old, new, r),
    }
}

/// Enter on the playlists screen: a video waiting to be added goes into the
/// selected playlist; otherwise the selected video of the open playlist
/// plays, or the selected playlist opens.
#[verifier::opaque]
pub open spec fn playlist_enter(old: App, new: App, r: Command, now: u64) -> bool {
    match old.pending_playlist_add {
        Some(p) => {
            let mid = App { pending_playlist_add: None, ..old };
            match old.playlist_selected {
                Some(i) => new == mid && if i < old.playlist_results@.len() {
                    r == (Command::AddToPlaylist {
                        playlist_id: old.playlist_results@[i as int].id,
                        video_id: p.0,
                        title: p.1,
                        channel: p.2,
                    })
                } else {
                    r is Nothing
                },
                None => r is Nothing && shows_error(mid, new, "No playlist selected"@),
            }
        },
        None => if old.playlist_videos@.len() > 0 {
            match old.playlist_videos_selected {
                Some(i) => if i < old.playlist_videos@.len() {
                    plays_entry(old, new, r, now, PlayedList::Playlist, i as int)
                } else {
                    unchanged(old, new, r)
                },
                None => unchanged(old, new, r),
            }
        } else {
            match old.playlist_selected {
                Some(i) => new == old && if i < old.playlist_results@.len() {
                    r == Command::LoadPlaylistVideos(old.playlist_results@[i as int].id)
                } else {
                    r is Nothing
                },
                None => unchanged(old, new, r),
            }
        },
    }
}

/// A key on the playlists screen while no prompt is open. `n` and `i` open
/// the prompt to create or import a playlist, `r` reads an imported
/// playlist again, `d` opens the download menu, Control+Shift+`X` toggles
/// auto-play, `x` removes the selected video from the open playlist and
/// `D` deletes the selected playlist; the arrows move in the open playlist,
/// or else in the playlists; Esc closes the open playlist, or else goes
/// back.
#[verifier::opaque]
pub open spec fn playlist_key(old: App, new: App, key: KeyInput, r: Command, now: u64) -> bool {
    let code = key.code;
    let open = old.playlist_videos@.len() > 0;
    if code == Key::Char('n') || code == Key::Char('i') {
        &&& new == App {
            playlist_prompt_mode: Some(
                if code == Key::Char('n') {
                    PlaylistPromptMode::New
                } else {
                    PlaylistPromptMode::Import
                },
            ),
            playlist_prompt: new.playlist_prompt,
            ..old
        }
        &&& new.playlist_prompt@.len() == 0
        &&& r is Nothing
    } else if code == Key::Char('r') {
        match old.playlist_selected {
            Some(i) => if i < old.playlist_results@.len() && old.playlist_results@[i as int].is_imported {
                refresh_step(old, new, old.playlist_results@[i as int], r)
            } else {
                unchanged(old, new, r)
            },
            None => unchanged(old, new, r),
        }
    } else if code == Key::Tab {
        new == App { playlist_focus: flip(old.playlist_focus), ..old } && r is Nothing
    } else if code == Key::Char('d') {
        opens_download_menu(old, new) && r is Nothing
    } else if key.ctrl_shift && code == Key::Char('X') {
        &&& new == App {
            autoplay_enabled: !old.autoplay_enabled,
            is_playing: if old.autoplay_enabled {
                false
            } else {
                old.is_playing
            },
            ..old
        }
        &&& r is Nothing
    } else if code == Key::Char('x') {
        match old.playlist_videos_selected {
            Some(i) => if open && i < old.playlist_videos@.len() {
                new == old && r == (Command::RemoveFromPlaylist {
                    playlist_id: old.playlist_videos@[i as int].playlist_id,
                    row_id: old.playlist_videos@[i as int].id,
                })
            } else {
                unchanged(old, new, r)
            },
            None => unchanged(old, new, r),
        }
    } else if code == Key::Char('D') {
        match old.playlist_selected {
            Some(i) => if !open && i < old.playlist_results@.len() {
                new == old && r == Command::DeletePlaylist(old.playlist_results@[i as int].id)
            } else {
                unchanged(old, new, r)
            },
            None => unchanged(old, new, r),
        }
    } else if code == Key::Up {
        r is Nothing && if open {
            new == App {
                playlist_videos_selected: Some(
                    step_up(old.playlist_videos_selected, old.playlist_videos@.len()),
                ),
                ..old
            }
        } else {
            new == App {
                playlist_selected: Some(step_up(old.playlist_selected, old.playlist_results@.len())),
                ..old
            }
        }
    } else if code == Key::Down {
        r is Nothing && if open {
            new == App {
                playlist_videos_selected: Some(
                    step_down(old.playlist_videos_selected, old.playlist_videos@.len()),
                ),
                ..old
            }
        } else {
            new == App {
                playlist_selected: Some(step_down(old.playlist_selected, old.playlist_results@.len())),
                ..old
            }
        }
    } else if code == Key::Enter {
        playlist_enter(old, new, r, now)
    } else if code == Key::Esc {
        r is Nothing && if open {
            &&& new == App { playlist_videos: new.playlist_videos, playlist_videos_selected: None, ..old }
            &&& new.playlist_videos@.len() == 0
        } else {
            new == App { mode: AppMode::Main, ..old }
        }
    } else {
        match code {
            Key::Char(c) => if old.search_focus == SearchFocus::Input {
                typed(old, new, c) && r is Nothing
            } else {
                unchanged(old, new, r)
            },
            Key::Backspace => if old.search_focus == SearchFocus::Input {
                erased(old, new) && r is Nothing
            } else {
                unchanged(old, new, r)
            },
            _ => unchanged(old, new, r),
        }
    }
}

/// What a key press does (see the screens' own descriptions).
pub open spec fn key_step(old: App, new: App, key: KeyInput, r: Command, now: u64) -> bool {
    if old.show_download_menu {
        menu_key(old, new, key.code, r)
    } else if old.is_playing && !typing(old) && is_media_key(key.code) {
        media_key(old, new, key.code, r, now)
    } else {
        match old.mode {
            AppMode::Main => main_key(old, new, key.code, r, now),
            AppMode::Settings => settings_key(old, new, key.code, r),
            AppMode::Downloads => downloads_key(old, new, key.code, r),
            AppMode::Search => search_key(old, new, key.code, r, now),
            AppMode::History => history_key(old, new, key.code, r, now),
            AppMode::Saved => saved_key(old, new, key.code, r, now),
            AppMode::Playlist => if old.playlist_prompt_mode is Some {
                prompt_key(old, new, key.code, r)
            } else {
                playlist_key(old, new, key, r, now)
            },
        }
    }
}

/// Skipping by `delta` does not overflow.
pub open spec fn skip_fits(s: App, delta: i64) -> bool {
    s.last_played_category is Some ==> (s.last_played_index matches Some(i) ==> i64::MIN <= (i as i64)
        + delta <= i64::MAX)
}

/// A selection that moving down can step past.
pub open spec fn below_max(sel: Option<usize>) -> bool {
    sel != Some(usize::MAX)
}

/// The key presses that are handled without an arithmetic overflow or an
/// index outside a list.
pub open spec fn key_allowed(s: App, key: KeyInput) -> bool {
    let code = key.code;
    if s.show_download_menu {
        true
    } else if s.is_playing && !typing(s) && is_media_key(code) {
        &&& (code == Key::Char('>') ==> skip_fits(s, 1))
        &&& (code == Key::Char('<') ==> skip_fits(s, -1i64))
    } else {
        match s.mode {
            AppMode::Main => {
                &&& (code == Key::Enter && s.active_block == ActiveBlock::Sidebar) ==> (s.sidebar_selected matches Some(i) ==> i < s.sidebar_items@.len())
                &&& code == Key::Up ==> if s.active_block == ActiveBlock::Sidebar {
                    s.sidebar_selected == Some(0usize) ==> s.sidebar_items@.len() > 0
                } else {
                    s.list_selected == Some(0usize) ==> s.items@.len() > 0
                }
                &&& code == Key::Down ==> if s.active_block == ActiveBlock::Sidebar {
                    s.sidebar_selected is Some ==> s.sidebar_items@.len() > 0
                } else {
                    s.list_selected is Some ==> s.items@.len() > 0
                }
                &&& code == Key::Down ==> if s.active_block == ActiveBlock::Sidebar {
                    below_max(s.sidebar_selected)
                } else {
                    below_max(s.list_selected)
                }
            },
            AppMode::Settings => code == Key::Down ==> below_max(s.settings_selected),
            AppMode::Downloads => code == Key::Down ==> below_max(s.downloads_selected),
            AppMode::Search => (code == Key::Down && s.search_focus == SearchFocus::List) ==> below_max(
                s.list_selected,
            ),
            AppMode::History => code == Key::Down ==> below_max(s.history_selected),
            AppMode::Saved => code == Key::Down ==> below_max(s.saved_selected),
            AppMode::Playlist => (s.playlist_prompt_mode is None && code == Key::Down) ==> if s.playlist_videos@.len()
                > 0 {
                below_max(s.playlist_videos_selected)
            } else {
                below_max(s.playlist_selected)
            },
        }
    }
}

/// While something plays and no text is being typed, the player keys work
/// on every screen: space pauses or resumes, the arrows seek ten seconds
/// back or forth (the download menu, while open, takes every key).
pub proof fn law_player_keys_work_anywhere(old: App, new: App, key: KeyInput, r: Command, now: u64)
    requires
        !old.show_download_menu,
        old.is_playing,
        !typing(old),
        key.code == Key::Char(' ') || key.code == Key::Left || key.code == Key::Right,
        key_step(old, new, key, r, now),
    ensures
        key.code == Key::Char(' ') ==> new == (App { is_paused: !old.is_paused, ..old }) && r is TogglePause,
        key.code == Key::Left ==> new == old && r == Command::Seek(-10i64),
        key.code == Key::Right ==> new == old && r == Command::Seek(10i64),
{
    reveal(media_key);
}

/// In the download menu, `1` or `v` downloads the pending video as video
/// and `2` or `a` as audio, into the download folder; Esc cancels.
pub proof fn law_download_menu_choices(old: App, new: App, key: KeyInput, r: Command, now: u64)
    requires
        old.show_download_menu,
        old.pending_download_id is Some,
        key_step(old, new, key, r, now),
    ensures
        (key.code == Key::Char('1') || key.code == Key::Char('v')) ==> (r matches Command::Download {
            video_id,
            audio_only,
            dir,
        } && Some(video_id) == old.pending_download_id && !audio_only && dir
            == old.settings.download_path),
        (key.code == Key::Char('2') || key.code == Key::Char('a')) ==> (r matches Command::Download {
            video_id,
            audio_only,
            dir,
        } && Some(video_id) == old.pending_download_id && audio_only && dir
            == old.settings.download_path),
        key.code == Key::Esc ==> !new.show_download_menu && new.pending_download_id is None && r is Nothing,
        !new.show_download_menu || !(key.code == Key::Char('1') || key.code == Key::Char('v')
            || key.code == Key::Char('2') || key.code == Key::Char('a') || key.code == Key::Esc),
{
    reveal(menu_key);
}

/// Pressing `d` on a selected video of a list (the search results, the
/// history and the saved videos when their list has the focus, or the open
/// playlist) opens the download menu for that video.
pub proof fn law_d_opens_download_menu(old: App, new: App, key: KeyInput, r: Command, now: u64)
    requires
        !old.show_download_menu,
        key.code == Key::Char('d'),
        key_step(old, new, key, r, now),
        match old.mode {
            AppMode::Search => old.search_focus == SearchFocus::List,
            AppMode::History => old.history_focus == ListFocus::List,
            AppMode::Saved => old.saved_focus == ListFocus::List,
            AppMode::Playlist => old.playlist_prompt_mode is None,
            _ => false,
        },
        selected_entry(old) is Some,
    ensures
        new.show_download_menu,
        match selected_entry(old) {
            Some(m) => text_of(new.pending_download_id) == Some(m.0) && text_of(
                new.pending_download_title,
            ) == Some(m.1),
            None => false,
        },
        r is Nothing,
{
    reveal(search_key);
    reveal(history_key);
    reveal(saved_key);
    reveal(playlist_key);
    assert(!is_media_key(key.code));
}

/// Tab twice leaves the interface as it was, on every screen (unless the
/// download menu is open).
pub proof fn law_tab_twice_changes_nothing(
    s0: App,
    s1: App,
    s2: App,
    r1: Command,
    r2: Command,
    t1: u64,
    t2: u64,
)
    requires
        !s0.show_download_menu,
        key_step(s0, s1, KeyInput { code: Key::Tab, ctrl_shift: false }, r1, t1),
        key_step(s1, s2, KeyInput { code: Key::Tab, ctrl_shift: false }, r2, t2),
    ensures
        s2 == s0,
        r1 is Nothing,
        r2 is Nothing,
{
    assert(!is_media_key(Key::Tab));
    match s0.mode {
        AppMode::Main => {
            reveal(main_view_key);
        },
        AppMode::Settings => {
            reveal(settings_key);
        },
        AppMode::Downloads => {
            reveal(downloads_key);
        },
        AppMode::Search => {
            reveal(search_key);
        },
        AppMode::History => {
            reveal(history_key);
        },
        AppMode::Saved => {
            reveal(saved_key);
        },
        AppMode::Playlist => {
            reveal(prompt_key);
            reveal(playlist_key);
        },
    }
}

/// On the history screen, typing a character into the filter and erasing
/// it leaves the screen as it was (`c`, which clears the history, aside).
pub proof fn law_type_then_erase(s0: App, s1: App, s2: App, c: char, r1: Command, r2: Command, t: u64)
    requires
        !s0.show_download_menu,
        s0.mode == AppMode::History,
        s0.history_focus == ListFocus::Input,
        c != 'c',
        key_step(s0, s1, KeyInput { code: Key::Char(c), ctrl_shift: false }, r1, t),
        key_step(s1, s2, KeyInput { code: Key::Backspace, ctrl_shift: false }, r2, t),
    ensures
        s2 == (App { search_query: s2.search_query, ..s0 }),
        s2.search_query@ == s0.search_query@,
{
    reveal(history_key);
    assert(s1.search_query@.drop_last() =~= s0.search_query@);
}

/// While something plays, `>` then `<` comes back to the entry that was
/// last played, in the same list.
pub proof fn law_next_then_previous(
    s0: App,
    s1: App,
    s2: App,
    r1: Command,
    r2: Command,
    t1: u64,
    t2: u64,
)
    requires
        !s0.show_download_menu,
        s0.is_playing,
        !typing(s0),
        s0.last_played_category is Some,
        s0.last_played_index matches Some(i) && i + 1 < list_len(s0, s0.last_played_category->0)
            && i < i64::MAX,
        key_step(s0, s1, KeyInput { code: Key::Char('>'), ctrl_shift: false }, r1, t1),
        key_step(s1, s2, KeyInput { code: Key::Char('<'), ctrl_shift: false }, r2, t2),
    ensures
        s2.last_played_category == s0.last_played_category,
        s2.last_played_index == s0.last_played_index,
{
    reveal(media_key);
    reveal(jumps_to);
    let c = s0.last_played_category->0;
    let i: usize = s0.last_played_index->0;
    match c {
        PlayedList::History => assert(s0.history_results.len() == s0.history_results@.len()),
        PlayedList::Saved => assert(s0.saved_results.len() == s0.saved_results@.len()),
        PlayedList::Search => assert(s0.search_results.len() == s0.search_results@.len()),
        PlayedList::Main => assert(s0.items.len() == s0.items@.len()),
        PlayedList::Playlist => assert(s0.playlist_videos.len() == s0.playlist_videos@.len()),
    }
    let n: usize = (i + 1) as usize;
    assert((i as u64) == i);
    assert(i as i64 == i) by (bit_vector)
        requires
            (i as u64) < 0x7fff_ffff_ffff_ffffu64,
    ;
    assert(((i as i64) + 1) as usize == n) by (bit_vector)
        requires
            (i as u64) < 0x7fff_ffff_ffff_ffffu64,
            n == i + 1,
    ;
    assert(n as i64 == n) by (bit_vector)
        requires
            (i as u64) < 0x7fff_ffff_ffff_ffffu64,
            n == i + 1,
    ;
    assert(((n as i64) + -1i64) as usize == i) by (bit_vector)
        requires
            (i as u64) < 0x7fff_ffff_ffff_ffffu64,
            n == i + 1,
    ;
    let mid = select_in(s0, c, n);
    assert(plays_entry(mid, s1, r1, t1, c, n as int));
    assert(s1.last_played_category == Some(c));
    assert(s1.last_played_index == Some(n));
    assert(list_len(s1, c) == list_len(s0, c));
    assert(!typing(s1));
    let mid2 = select_in(s1, c, i);
    assert(plays_entry(mid2, s2, r2, t2, c, i as int));
}

impl App {
    /// A key while the download menu is open (see `menu_key`).
    pub fn download_menu_key(&mut self, code: Key) -> (r: Command)
        ensures
            menu_key(*old(self), *final(self), code, r),
    {
        proof {
            reveal(menu_key);
        }
        if code == Key::Char('1') || code == Key::Char('v') || code == Key::Char('V') {
            self.start_pending_download(false)
        } else if code == Key::Char('2') || code == Key::Char('a') || code == Key::Char('A') {
            self.start_pending_download(true)
        } else if code == Key::Esc || code == Key::Char('q') {
            self.show_download_menu = false;
            self.pending_download_id = None;
            self.pending_download_title = None;
            Command::Nothing
        } else {
            Command::Nothing
        }
    }

    /// Starts the pending download (see `starts_pending_download`).
    fn start_pending_download(&mut self, audio: bool) -> (r: Command)
        ensures
            starts_pending_download(*old(self), *final(self), r, audio),
    {
        self.show_download_menu = false;
        match self.pending_download_id.take() {
            Some(id) => {
                let title = match self.pending_download_title.take() {
                    Some(t) => t,
                    None => id.clone(),
                };
                self.trigger_download(id, title, audio)
            },
            None => Command::Nothing,
        }
    }

    /// A player key (see `media_key`).
    pub fn media_key(&mut self, code: Key, now: u64) -> (r: Command)
        requires
            code == Key::Char('>') ==> skip_fits(*old(self), 1),
            code == Key::Char('<') ==> skip_fits(*old(self), -1i64),
        ensures
            media_key(*old(self), *final(self), code, r, now),
    {
        proof {
            reveal(media_key);
        }
        if code == Key::Char(' ') {
            self.media_toggle_pause()
        } else if code == Key::Left {
            Command::Seek(-10)
        } else if code == Key::Right {
            Command::Seek(10)
        } else if code == Key::Char('>') {
            self.skip_relative(1, now)
        } else if code == Key::Char('<') {
            self.skip_relative(-1, now)
        } else {
            Command::Nothing
        }
    }
    /// The search screen opens, empty.
    pub fn open_search(&mut self)
        ensures
            opens_search(*old(self), *final(self)),
    {
        self.mode = AppMode::Search;
        self.search_query = String::new();
        self.search_results = Vec::new();
        self.search_error = None;
    }

    /// Opens the screen of the sidebar entry `idx` (see `sidebar_choice`).
    fn choose_sidebar_entry(&mut self, idx: usize) -> (r: Command)
        requires
            idx < old(self).sidebar_items@.len(),
        ensures
            sidebar_choice(*old(self), *final(self), r, old(self).sidebar_items@[idx as int]@),
    {
        let label = self.sidebar_items[idx].as_str();
        if str_eq(label, "Search") {
            self.open_search();
            Command::Nothing
        } else if str_eq(label, "History") {
            self.mode = AppMode::History;
            Command::LoadHistory
        } else if str_eq(label, "Saved") {
            self.mode = AppMode::Saved;
            Command::LoadSaved
        } else if str_eq(label, "Playlists") {
            self.mode = AppMode::Playlist;
            Command::LoadPlaylists(PlaylistsFor::View)
        } else if str_eq(label, "Downloads") {
            self.mode = AppMode::Downloads;
            Command::LoadDownloads
        } else if str_eq(label, "Settings") {
            self.mode = AppMode::Settings;
            Command::Nothing
        } else {
            Command::Nothing
        }
    }

    /// Enter on the main screen (see `main_enter`).
    fn main_enter(&mut self, now: u64) -> (r: Command)
        requires
            old(self).active_block == ActiveBlock::Sidebar ==> (old(self).sidebar_selected matches Some(i)
                ==> i < old(self).sidebar_items@.len()),
        ensures
            main_enter(*old(self), *final(self), r, now),
    {
        proof {
            reveal(main_enter);
        }
        if self.active_block == ActiveBlock::Sidebar {
            match self.sidebar_selected {
                Some(idx) => self.choose_sidebar_entry(idx),
                None => Command::Nothing,
            }
        } else {
            match self.list_selected {
                Some(idx) => if idx < self.items.len() {
                    let title = self.items[idx].clone();
                    proof {
                        reveal(jumps_to);
                    }
                    self.play_main_video(title.as_str(), now)
                } else {
                    Command::Nothing
                },
                None => Command::Nothing,
            }
        }
    }

    /// A key on the main screen (see `main_key`).
    pub fn main_key(&mut self, code: Key, now: u64) -> (r: Command)
        requires
            old(self).mode == AppMode::Main,
            !old(self).show_download_menu,
            !(old(self).is_playing && !typing(*old(self)) && is_media_key(code)),
            key_allowed(*old(self), KeyInput { code, ctrl_shift: false }),
        ensures
            main_key(*old(self), *final(self), code, r, now),
    {
        if code == Key::Char('q') || code == Key::Char('s') || code == Key::Char('h') || code
            == Key::Char('v') || code == Key::Char('p') {
            self.main_letter(code)
        } else if code == Key::Enter {
            self.main_enter(now)
        } else {
            self.main_view_key(code)
        }
    }

    fn main_letter(&mut self, code: Key) -> (r: Command)
        requires
            is_main_letter(code),
        ensures
            main_letter(*old(self), *final(self), code, r),
    {
        proof {
            reveal(main_letter);
        }
        if code == Key::Char('q') {
            self.should_quit = true;
            Command::StopPlayer
        } else if code == Key::Char('s') {
            self.open_search();
            Command::Nothing
        } else if code == Key::Char('h') {
            self.mode = AppMode::History;
            Command::LoadHistory
        } else if code == Key::Char('v') {
            self.mode = AppMode::Saved;
            Command::LoadSaved
        } else {
            self.mode = AppMode::Playlist;
            Command::LoadPlaylists(PlaylistsFor::View)
        }
    }

    fn main_view_key(&mut self, code: Key) -> (r: Command)
        requires
            code == Key::Up ==> if old(self).active_block == ActiveBlock::Sidebar {
                old(self).sidebar_selected == Some(0usize) ==> old(self).sidebar_items@.len() > 0
            } else {
                old(self).list_selected == Some(0usize) ==> old(self).items@.len() > 0
            },
            code == Key::Down ==> if old(self).active_block == ActiveBlock::Sidebar {
                old(self).sidebar_selected is Some ==> old(self).sidebar_items@.len() > 0
            } else {
                old(self).list_selected is Some ==> old(self).items@.len() > 0
            },
            code == Key::Down ==> if old(self).active_block == ActiveBlock::Sidebar {
                below_max(old(self).sidebar_selected)
            } else {
                below_max(old(self).list_selected)
            },
        ensures
            main_view_key(*old(self), *final(self), code, r),
    {
        if code == Key::Esc {
            self.main_view_esc(code)
        } else if code == Key::Char('/') {
            self.main_view_slash(code)
        } else if code == Key::Up {
            self.main_view_up(code)
        } else if code == Key::Down {
            self.main_view_down(code)
        } else if code == Key::Tab {
            self.main_view_tab(code)
        } else {
            proof {
                reveal(main_view_key);
            }
            Command::Nothing
        }
    }

    fn main_view_esc(&mut self, code: Key) -> (r: Command)
        requires
            code == Key::Esc,
        ensures
            main_view_key(*old(self), *final(self), code, r),
    {
        proof {
            reveal(main_view_key);
        }
        self.show_context_menu = false;
        self.show_keybinds_popup = false;
        Command::Nothing
    }

    fn main_view_slash(&mut self, code: Key) -> (r: Command)
        requires
            code == Key::Char('/'),
        ensures
            main_view_key(*old(self), *final(self), code, r),
    {
        proof {
            reveal(main_view_key);
        }
        self.show_keybinds_popup = !self.show_keybinds_popup;
        Command::Nothing
    }

    fn main_view_up(&mut self, code: Key) -> (r: Command)
        requires
            code == Key::Up,
            if old(self).active_block == ActiveBlock::Sidebar {
                old(self).sidebar_selected == Some(0usize) ==> old(self).sidebar_items@.len() > 0
            } else {
                old(self).list_selected == Some(0usize) ==> old(self).items@.len() > 0
            },
        ensures
            main_view_key(*old(self), *final(self), code, r),
    {
        proof {
            reveal(main_view_key);
        }
        self.scroll_up();
        Command::Nothing
    }

    fn main_view_down(&mut self, code: Key) -> (r: Command)
        requires
            code == Key::Down,
            if old(self).active_block == ActiveBlock::Sidebar {
                (old(self).sidebar_selected is Some ==> old(self).sidebar_items@.len() > 0) && below_max(
                    old(self).sidebar_selected,
                )
            } else {
                (old(self).list_selected is Some ==> old(self).items@.len() > 0) && below_max(
                    old(self).list_selected,
                )
            },
        ensures
            main_view_key(*old(self), *final(self), code, r),
    {
        proof {
            reveal(main_view_key);
        }
        self.scroll_down();
        Command::Nothing
    }

    fn main_view_tab(&mut self, code: Key) -> (r: Command)
        requires
            code == Key::Tab,
        ensures
            main_view_key(*old(self), *final(self), code, r),
    {
        proof {
            reveal(main_view_key);
        }
        if self.active_block == ActiveBlock::Sidebar {
            self.active_block = ActiveBlock::Content;
        } else {
            self.active_block = ActiveBlock::Sidebar;
        }
        Command::Nothing
    }
    /// A key on the settings screen (see `settings_key`).
    pub fn settings_key(&mut self, code: Key) -> (r: Command)
        requires
            code == Key::Down ==> below_max(old(self).settings_selected),
        ensures
            settings_key(*old(self), *final(self), code, r),
    {
        if code == Key::Up {
            self.settings_up(code)
        } else if code == Key::Down {
            self.settings_down(code)
        } else if code == Key::Enter {
            self.settings_enter(code)
        } else if code == Key::Esc {
            self.settings_esc(code)
        } else {
            proof {
                reveal(settings_key);
            }
            Command::Nothing
        }
    }

    fn settings_up(&mut self, code: Key) -> (r: Command)
        requires
            code == Key::Up,
        ensures
            settings_key(*old(self), *final(self), code, r),
    {
        proof {
            reveal(settings_key);
        }
        let i = match self.settings_selected {
            Some(i) => i,
            None => 0,
        };
        self.settings_selected = Some(i.saturating_sub(1));
        Command::Nothing
    }

    fn settings_down(&mut self, code: Key) -> (r: Command)
        requires
            code == Key::Down,
        ensures
            settings_key(*old(self), *final(self), code, r),
    {
        proof {
            reveal(settings_key);
        }
        let i = match self.settings_selected {
            Some(i) => i,
            None => 0,
        };
        self.settings_selected = Some(if i >= 8 { 8 } else { i + 1 });
        Command::Nothing
    }

    fn settings_esc(&mut self, code: Key) -> (r: Command)
        requires
            code == Key::Esc,
        ensures
            settings_key(*old(self), *final(self), code, r),
    {
        proof {
            reveal(settings_key);
        }
        self.mode = AppMode::Main;
        Command::Nothing
    }

    fn settings_enter(&mut self, code: Key) -> (r: Command)
        requires
            code == Key::Enter,
        ensures
            settings_key(*old(self), *final(self), code, r),
    {
        proof {
            reveal(settings_key);
        }
        self.settings_change()
    }

    /// Changes the selected row's setting (see `settings_enter_step`).
    pub fn settings_change(&mut self) -> (r: Command)
        ensures
            settings_enter_step(*old(self), *final(self), r),
    {
        let i = match self.settings_selected {
            Some(i) => i,
            None => 0,
        };
        let all = rows();
        if i >= all.len() {
            return Command::Nothing;
        }
        let row = all[i];
        self.change_row(row)
    }

    /// Changes the setting of `row` (see `row_changed`).
    pub fn change_row(&mut self, row: SettingRow) -> (r: Command)
        ensures
            row_changed(*old(self), *final(self), r, row),
    {
        proof {
            reveal(row_changed);
        }
        let effect = cycle_setting(&mut self.settings, row);
        match effect {
            SettingEffect::RecreatePlayer(p) => Command::SettingsChanged {
                recreate_player: Some(p),
                pick_download_path: false,
            },
            SettingEffect::SetAutoplay(b) => {
                self.autoplay_enabled = b;
                Command::SettingsChanged { recreate_player: None, pick_download_path: false }
            },
            SettingEffect::PickDownloadPath => Command::SettingsChanged {
                recreate_player: None,
                pick_download_path: true,
            },
            SettingEffect::Nothing => Command::SettingsChanged {
                recreate_player: None,
                pick_download_path: false,
            },
        }
    }

    /// A key on the downloads screen (see `downloads_key`).
    pub fn downloads_key(&mut self, code: Key) -> (r: Command)
        requires
            code == Key::Down ==> below_max(old(self).downloads_selected),
        ensures
            downloads_key(*old(self), *final(self), code, r),
    {
        if code == Key::Esc {
            self.downloads_esc(code)
        } else if code == Key::Char('/') {
            self.downloads_slash(code)
        } else if code == Key::Up {
            self.downloads_up(code)
        } else if code == Key::Down {
            self.downloads_down(code)
        } else if code == Key::Enter {
            self.downloads_enter(code)
        } else {
            proof {
                reveal(downloads_key);
            }
            Command::Nothing
        }
    }

    fn downloads_esc(&mut self, code: Key) -> (r: Command)
        requires
            code == Key::Esc,
        ensures
            downloads_key(*old(self), *final(self), code, r),
    {
        proof {
            reveal(downloads_key);
        }
        self.show_keybinds_popup = false;
        self.mode = AppMode::Main;
        Command::Nothing
    }

    fn downloads_slash(&mut self, code: Key) -> (r: Command)
        requires
            code == Key::Char('/'),
        ensures
            downloads_key(*old(self), *final(self), code, r),
    {
        proof {
            reveal(downloads_key);
        }
        self.show_keybinds_popup = !self.show_keybinds_popup;
        Command::Nothing
    }

    fn downloads_up(&mut self, code: Key) -> (r: Command)
        requires
            code == Key::Up,
        ensures
            downloads_key(*old(self), *final(self), code, r),
    {
        proof {
            reveal(downloads_key);
        }
        let n = self.downloads.len();
        if n > 0 {
            let i = match self.downloads_selected {
                Some(i) => if i == 0 {
                    n - 1
                } else {
                    i - 1
                },
                None => n - 1,
            };
            self.downloads_selected = Some(i);
        }
        Command::Nothing
    }

    fn downloads_down(&mut self, code: Key) -> (r: Command)
        requires
            code == Key::Down,
            below_max(old(self).downloads_selected),
        ensures
            downloads_key(*old(self), *final(self), code, r),
    {
        proof {
            reveal(downloads_key);
        }
        let n = self.downloads.len();
        if n > 0 {
            self.downloads_selected = Some(down_from(self.downloads_selected, n));
        }
        Command::Nothing
    }

    fn downloads_enter(&mut self, code: Key) -> (r: Command)
        requires
            code == Key::Enter,
        ensures
            downloads_key(*old(self), *final(self), code, r),
    {
        proof {
            reveal(downloads_key);
        }
        match self.downloads_selected {
            Some(i) => if i < self.downloads.len() {
                Command::OpenDownload(self.downloads[i].clone())
            } else {
                Command::Nothing
            },
            None => Command::Nothing,
        }
    }
    /// A key on the search screen (see `search_key`).
    pub fn search_key(&mut self, code: Key, now: u64) -> (r: Command)
        requires
            (code == Key::Down && old(self).search_focus == SearchFocus::List) ==> below_max(
                old(self).list_selected,
            ),
        ensures
            search_key(*old(self), *final(self), code, r, now),
    {
        let in_list = self.search_focus == SearchFocus::List;
        match code {
            Key::Char(c) => {
                if c == 'd' && in_list {
                    self.search_download(code)
                } else if c == 's' && in_list {
                    self.search_save(code)
                } else if c == 'a' && in_list {
                    self.search_add(code)
                } else if !in_list {
                    self.search_type(code, c)
                } else {
                    proof {
                        reveal(search_key);
                    }
                    Command::Nothing
                }
            },
            Key::Backspace => self.search_erase(code),
            Key::Up => self.search_move(code),
            Key::Down => self.search_move(code),
            Key::Esc => {
                proof {
                    reveal(search_key);
                }
                self.mode = AppMode::Main;
                Command::Nothing
            },
            Key::Enter => {
                if !in_list {
                    self.search_start(code)
                } else {
                    self.search_play(code, now)
                }
            },
            Key::Tab => {
                proof {
                    reveal(search_key);
                }
                self.search_focus = if in_list {
                    SearchFocus::Input
                } else {
                    SearchFocus::List
                };
                Command::Nothing
            },
            _ => {
                proof {
                    reveal(search_key);
                }
                Command::Nothing
            },
        }
    }

    fn search_download(&mut self, code: Key) -> (r: Command)
        requires
            code == Key::Char('d'),
            old(self).search_focus == SearchFocus::List,
        ensures
            forall|t: u64| search_key(*old(self), *final(self), code, r, t),
    {
        proof {
            reveal(search_key);
        }
        self.handle_download_shortcut();
        Command::Nothing
    }

    fn search_save(&mut self, code: Key) -> (r: Command)
        requires
            code == Key::Char('s'),
            old(self).search_focus == SearchFocus::List,
        ensures
            forall|t: u64| search_key(*old(self), *final(self), code, r, t),
    {
        proof {
            reveal(search_key);
        }
        self.trigger_save()
    }

    fn search_add(&mut self, code: Key) -> (r: Command)
        requires
            code == Key::Char('a'),
            old(self).search_focus == SearchFocus::List,
        ensures
            forall|t: u64| search_key(*old(self), *final(self), code, r, t),
    {
        proof {
            reveal(search_key);
        }
        self.trigger_add_to_playlist()
    }

    fn search_type(&mut self, code: Key, c: char) -> (r: Command)
        requires
            code == Key::Char(c),
            old(self).search_focus == SearchFocus::Input,
        ensures
            forall|t: u64| search_key(*old(self), *final(self), code, r, t),
    {
        proof {
            reveal(search_key);
        }
        self.search_query.push(c);
        self.search_results = Vec::new();
        self.list_selected = Some(0);
        Command::Nothing
    }

    fn search_erase(&mut self, code: Key) -> (r: Command)
        requires
            code == Key::Backspace,
        ensures
            forall|t: u64| search_key(*old(self), *final(self), code, r, t),
    {
        proof {
            reveal(search_key);
        }
        if self.search_focus == SearchFocus::Input {
            pop_char(&mut self.search_query);
            self.search_results = Vec::new();
            self.list_selected = Some(0);
        }
        Command::Nothing
    }

    fn search_move(&mut self, code: Key) -> (r: Command)
        requires
            code == Key::Up || code == Key::Down,
            (code == Key::Down && old(self).search_focus == SearchFocus::List) ==> below_max(
                old(self).list_selected,
            ),
        ensures
            forall|t: u64| search_key(*old(self), *final(self), code, r, t),
    {
        proof {
            reveal(search_key);
        }
        if self.search_focus == SearchFocus::List {
            if code == Key::Up {
                self.list_selected = Some(up_from(self.list_selected, self.search_results.len()));
            } else {
                self.list_selected = Some(down_from(self.list_selected, self.search_results.len()));
            }
        }
        Command::Nothing
    }

    fn search_start(&mut self, code: Key) -> (r: Command)
        requires
            code == Key::Enter,
            old(self).search_focus == SearchFocus::Input,
        ensures
            forall|t: u64| search_key(*old(self), *final(self), code, r, t),
    {
        proof {
            reveal(search_key);
        }
        if self.search_query.as_str().is_empty() {
            Command::Nothing
        } else {
            self.trigger_search()
        }
    }

    fn search_play(&mut self, code: Key, now: u64) -> (r: Command)
        requires
            code == Key::Enter,
            old(self).search_focus == SearchFocus::List,
        ensures
            search_key(*old(self), *final(self), code, r, now),
    {
        proof {
            reveal(search_key);
        }
        match self.list_selected {
            Some(i) => if self.search_results.len() > 0 && i < self.search_results.len() {
                let v = self.search_results[i].clone();
                self.play_search_video(&v, now)
            } else {
                Command::Nothing
            },
            None => Command::Nothing,
        }
    }
    /// A key on the history screen (see `history_key`).
    pub fn history_key(&mut self, code: Key, now: u64) -> (r: Command)
        requires
            code == Key::Down ==> below_max(old(self).history_selected),
        ensures
            history_key(*old(self), *final(self), code, r, now),
    {
        let typing_here = self.history_focus == ListFocus::Input;
        match code {
            Key::Char(c) => {
                if c == 'c' {
                    self.history_clear(code)
                } else if typing_here {
                    self.history_type(code, c)
                } else if c == 'd' {
                    self.history_download(code)
                } else {
                    self.history_nothing(code, now)
                }
            },
            Key::Tab => self.history_tab(code),
            Key::Backspace => self.history_erase(code),
            Key::Up => self.history_up(code),
            Key::Down => self.history_down(code),
            Key::Enter => self.history_play(code, now),
            Key::Esc => self.history_leave(code),
            _ => self.history_nothing(code, now),
        }
    }

    fn history_nothing(&self, code: Key, now: u64) -> (r: Command)
        requires
            match code {
                Key::Char(c) => c != 'c' && self.history_focus == ListFocus::List && c != 'd',
                Key::Tab | Key::Backspace | Key::Up | Key::Down | Key::Enter | Key::Esc => false,
                _ => true,
            },
        ensures
            history_key(*self, *self, code, r, now),
    {
        proof {
            reveal(history_key);
        }
        Command::Nothing
    }

    fn history_clear(&self, code: Key) -> (r: Command)
        requires
            code == Key::Char('c'),
        ensures
            forall|t: u64| history_key(*self, *self, code, r, t),
    {
        proof {
            reveal(history_key);
        }
        Command::ClearHistory
    }

    fn history_tab(&mut self, code: Key) -> (r: Command)
        requires
            code == Key::Tab,
        ensures
            forall|t: u64| history_key(*old(self), *final(self), code, r, t),
    {
        proof {
            reveal(history_key);
        }
        self.history_focus = match self.history_focus {
            ListFocus::Input => ListFocus::List,
            ListFocus::List => ListFocus::Input,
        };
        Command::Nothing
    }

    fn history_up(&mut self, code: Key) -> (r: Command)
        requires
            code == Key::Up,
        ensures
            forall|t: u64| history_key(*old(self), *final(self), code, r, t),
    {
        proof {
            reveal(history_key);
        }
        self.scroll_history_up();
        Command::Nothing
    }

    fn history_down(&mut self, code: Key) -> (r: Command)
        requires
            code == Key::Down,
            below_max(old(self).history_selected),
        ensures
            forall|t: u64| history_key(*old(self), *final(self), code, r, t),
    {
        proof {
            reveal(history_key);
        }
        self.scroll_history_down();
        Command::Nothing
    }

    fn history_type(&mut self, code: Key, c: char) -> (r: Command)
        requires
            code == Key::Char(c),
            c != 'c',
            old(self).history_focus == ListFocus::Input,
        ensures
            forall|t: u64| history_key(*old(self), *final(self), code, r, t),
    {
        proof {
            reveal(history_key);
        }
        self.search_query.push(c);
        Command::Nothing
    }

    fn history_download(&mut self, code: Key) -> (r: Command)
        requires
            code == Key::Char('d'),
            old(self).history_focus == ListFocus::List,
        ensures
            forall|t: u64| history_key(*old(self), *final(self), code, r, t),
    {
        proof {
            reveal(history_key);
        }
        self.handle_download_shortcut();
        Command::Nothing
    }

    fn history_erase(&mut self, code: Key) -> (r: Command)
        requires
            code == Key::Backspace,
        ensures
            forall|t: u64| history_key(*old(self), *final(self), code, r, t),
    {
        proof {
            reveal(history_key);
        }
        if self.history_focus == ListFocus::Input {
            pop_char(&mut self.search_query);
        }
        Command::Nothing
    }

    fn history_play(&mut self, code: Key, now: u64) -> (r: Command)
        requires
            code == Key::Enter,
        ensures
            history_key(*old(self), *final(self), code, r, now),
    {
        proof {
            reveal(history_key);
        }
        match self.history_selected {
            Some(i) => if i < self.history_results.len() {
                let e = self.history_results[i].clone();
                self.play_history_video(&e, now)
            } else {
                Command::Nothing
            },
            None => Command::Nothing,
        }
    }

    fn history_leave(&mut self, code: Key) -> (r: Command)
        requires
            code == Key::Esc,
        ensures
            forall|t: u64| history_key(*old(self), *final(self), code, r, t),
    {
        proof {
            reveal(history_key);
        }
        self.mode = AppMode::Main;
        self.search_query = String::new();
        Command::Nothing
    }

    /// A key on the saved screen (see `saved_key`).
    pub fn saved_key(&mut self, code: Key, now: u64) -> (r: Command)
        requires
            code == Key::Down ==> below_max(old(self).saved_selected),
        ensures
            saved_key(*old(self), *final(self), code, r, now),
    {
        let typing_here = self.saved_focus == ListFocus::Input;
        match code {
            Key::Char(c) => {
                if c == 's' {
                    self.saved_unsave(code)
                } else if typing_here {
                    self.saved_type(code, c)
                } else if c == 'd' {
                    self.saved_download(code)
                } else {
                    self.saved_nothing(code, now)
                }
            },
            Key::Tab => self.saved_tab(code),
            Key::Backspace => self.saved_erase(code),
            Key::Up => self.saved_up(code),
            Key::Down => self.saved_down(code),
            Key::Enter => self.saved_play(code, now),
            Key::Esc => self.saved_leave(code),
            _ => self.saved_nothing(code, now),
        }
    }

    fn saved_nothing(&self, code: Key, now: u64) -> (r: Command)
        requires
            match code {
                Key::Char(c) => c != 's' && self.saved_focus == ListFocus::List && c != 'd',
                Key::Tab | Key::Backspace | Key::Up | Key::Down | Key::Enter | Key::Esc => false,
                _ => true,
            },
        ensures
            saved_key(*self, *self, code, r, now),
    {
        proof {
            reveal(saved_key);
        }
        Command::Nothing
    }

    fn saved_tab(&mut self, code: Key) -> (r: Command)
        requires
            code == Key::Tab,
        ensures
            forall|t: u64| saved_key(*old(self), *final(self), code, r, t),
    {
        proof {
            reveal(saved_key);
        }
        self.saved_focus = match self.saved_focus {
            ListFocus::Input => ListFocus::List,
            ListFocus::List => ListFocus::Input,
        };
        Command::Nothing
    }

    fn saved_up(&mut self, code: Key) -> (r: Command)
        requires
            code == Key::Up,
        ensures
            forall|t: u64| saved_key(*old(self), *final(self), code, r, t),
    {
        proof {
            reveal(saved_key);
        }
        self.saved_selected = Some(up_from(self.saved_selected, self.saved_results.len()));
        Command::Nothing
    }

    fn saved_down(&mut self, code: Key) -> (r: Command)
        requires
            code == Key::Down,
            below_max(old(self).saved_selected),
        ensures
            forall|t: u64| saved_key(*old(self), *final(self), code, r, t),
    {
        proof {
            reveal(saved_key);
        }
        self.saved_selected = Some(down_from(self.saved_selected, self.saved_results.len()));
        Command::Nothing
    }

    fn saved_unsave(&mut self, code: Key) -> (r: Command)
        requires
            code == Key::Char('s'),
        ensures
            forall|t: u64| saved_key(*old(self), *final(self), code, r, t),
    {
        proof {
            reveal(saved_key);
        }
        match self.saved_selected {
            Some(i) => if i < self.saved_results.len() {
                Command::Unsave(self.saved_results[i].video_id.clone())
            } else {
                Command::Nothing
            },
            None => Command::Nothing,
        }
    }

    fn saved_type(&mut self, code: Key, c: char) -> (r: Command)
        requires
            code == Key::Char(c),
            c != 's',
            old(self).saved_focus == ListFocus::Input,
        ensures
            forall|t: u64| saved_key(*old(self), *final(self), code, r, t),
    {
        proof {
            reveal(saved_key);
        }
        self.search_query.push(c);
        Command::Nothing
    }

    fn saved_download(&mut self, code: Key) -> (r: Command)
        requires
            code == Key::Char('d'),
            old(self).saved_focus == ListFocus::List,
        ensures
            forall|t: u64| saved_key(*old(self), *final(self), code, r, t),
    {
        proof {
            reveal(saved_key);
        }
        self.handle_download_shortcut();
        Command::Nothing
    }

    fn saved_erase(&mut self, code: Key) -> (r: Command)
        requires
            code == Key::Backspace,
        ensures
            forall|t: u64| saved_key(*old(self), *final(self), code, r, t),
    {
        proof {
            reveal(saved_key);
        }
        if self.saved_focus == ListFocus::Input {
            pop_char(&mut self.search_query);
        }
        Command::Nothing
    }

    fn saved_play(&mut self, code: Key, now: u64) -> (r: Command)
        requires
            code == Key::Enter,
        ensures
            saved_key(*old(self), *final(self), code, r, now),
    {
        proof {
            reveal(saved_key);
        }
        match self.saved_selected {
            Some(i) => if i < self.saved_results.len() {
                let v = self.saved_results[i].clone();
                self.play_saved_video(&v, now)
            } else {
                Command::Nothing
            },
            None => Command::Nothing,
        }
    }

    fn saved_leave(&mut self, code: Key) -> (r: Command)
        requires
            code == Key::Esc,
        ensures
            forall|t: u64| saved_key(*old(self), *final(self), code, r, t),
    {
        proof {
            reveal(saved_key);
        }
        self.mode = AppMode::Main;
        self.search_query = String::new();
        Command::Nothing
    }
    /// A key while the playlist prompt is open (see `prompt_key`).
    pub fn prompt_key(&mut self, code: Key) -> (r: Command)
        requires
            old(self).playlist_prompt_mode is Some,
        ensures
            prompt_key(*old(self), *final(self), code, r),
    {
        match code {
            Key::Char(c) => self.prompt_type(code, c),
            Key::Backspace => self.prompt_erase(code),
            Key::Enter => self.prompt_submit(code),
            Key::Esc => self.prompt_close(code),
            _ => {
                proof {
                    reveal(prompt_key);
                }
                Command::Nothing
            },
        }
    }

    fn prompt_type(&mut self, code: Key, c: char) -> (r: Command)
        requires
            code == Key::Char(c),
        ensures
            prompt_key(*old(self), *final(self), code, r),
    {
        proof {
            reveal(prompt_key);
        }
        self.playlist_prompt.push(c);
        Command::Nothing
    }

    fn prompt_erase(&mut self, code: Key) -> (r: Command)
        requires
            code == Key::Backspace,
        ensures
            prompt_key(*old(self), *final(self), code, r),
    {
        proof {
            reveal(prompt_key);
        }
        pop_char(&mut self.playlist_prompt);
        Command::Nothing
    }

    fn prompt_close(&mut self, code: Key) -> (r: Command)
        requires
            code == Key::Esc,
        ensures
            prompt_key(*old(self), *final(self), code, r),
    {
        proof {
            reveal(prompt_key);
        }
        self.playlist_prompt_mode = None;
        self.playlist_prompt = String::new();
        Command::Nothing
    }

    fn prompt_submit(&mut self, code: Key) -> (r: Command)
        requires
            code == Key::Enter,
        ensures
            prompt_key(*old(self), *final(self), code, r),
    {
        proof {
            reveal(prompt_key);
        }
        let prompt = self.playlist_prompt.clone();
        let mode = self.playlist_prompt_mode;
        self.playlist_prompt_mode = None;
        self.playlist_prompt = String::new();
        match mode {
            Some(PlaylistPromptMode::New) => self.handle_create_playlist(prompt),
            _ => self.handle_import_playlist(prompt),
        }
    }
    /// A key on the playlists screen while no prompt is open (see
    /// `playlist_key`).
    pub fn playlist_key(&mut self, key: KeyInput, now: u64) -> (r: Command)
        requires
            key.code == Key::Down ==> if old(self).playlist_videos@.len() > 0 {
                below_max(old(self).playlist_videos_selected)
            } else {
                below_max(old(self).playlist_selected)
            },
        ensures
            playlist_key(*old(self), *final(self), key, r, now),
    {
        let code = key.code;
        if code == Key::Char('n') || code == Key::Char('i') {
            self.playlist_open_prompt(key)
        } else if code == Key::Char('r') {
            self.playlist_refresh(key)
        } else if code == Key::Tab {
            self.playlist_tab(key)
        } else if code == Key::Char('d') {
            self.playlist_download(key)
        } else if key.ctrl_shift && code == Key::Char('X') {
            self.playlist_autoplay(key)
        } else if code == Key::Char('x') {
            self.playlist_remove(key)
        } else if code == Key::Char('D') {
            self.playlist_delete(key)
        } else if code == Key::Up || code == Key::Down {
            self.playlist_move(key)
        } else if code == Key::Enter {
            self.playlist_enter_key(key, now)
        } else if code == Key::Esc {
            self.playlist_esc(key)
        } else {
            self.playlist_filter(key)
        }
    }

    fn playlist_open_prompt(&mut self, key: KeyInput) -> (r: Command)
        requires
            key.code == Key::Char('n') || key.code == Key::Char('i'),
        ensures
            forall|t: u64| playlist_key(*old(self), *final(self), key, r, t),
    {
        proof {
            reveal(playlist_key);
        }
        self.playlist_prompt_mode = Some(
            if key.code == Key::Char('n') {
                PlaylistPromptMode::New
            } else {
                PlaylistPromptMode::Import
            },
        );
        self.playlist_prompt = String::new();
        Command::Nothing
    }

    fn playlist_refresh(&mut self, key: KeyInput) -> (r: Command)
        requires
            key.code == Key::Char('r'),
        ensures
            forall|t: u64| playlist_key(*old(self), *final(self), key, r, t),
    {
        proof {
            reveal(playlist_key);
        }
        match self.playlist_selected {
            Some(i) => if i < self.playlist_results.len() && self.playlist_results[i].is_imported {
                let p = self.playlist_results[i].clone();
                self.handle_refresh_playlist(&p)
            } else {
                Command::Nothing
            },
            None => Command::Nothing,
        }
    }

    fn playlist_tab(&mut self, key: KeyInput) -> (r: Command)
        requires
            key.code == Key::Tab,
        ensures
            forall|t: u64| playlist_key(*old(self), *final(self), key, r, t),
    {
        proof {
            reveal(playlist_key);
        }
        self.playlist_focus = match self.playlist_focus {
            ListFocus::Input => ListFocus::List,
            ListFocus::List => ListFocus::Input,
        };
        Command::Nothing
    }

    fn playlist_download(&mut self, key: KeyInput) -> (r: Command)
        requires
            key.code == Key::Char('d'),
        ensures
            forall|t: u64| playlist_key(*old(self), *final(self), key, r, t),
    {
        proof {
            reveal(playlist_key);
        }
        self.handle_download_shortcut();
        Command::Nothing
    }

    fn playlist_autoplay(&mut self, key: KeyInput) -> (r: Command)
        requires
            key.ctrl_shift && key.code == Key::Char('X'),
        ensures
            forall|t: u64| playlist_key(*old(self), *final(self), key, r, t),
    {
        proof {
            reveal(playlist_key);
        }
        self.autoplay_enabled = !self.autoplay_enabled;
        if !self.autoplay_enabled {
            self.is_playing = false;
        }
        Command::Nothing
    }

    fn playlist_remove(&mut self, key: KeyInput) -> (r: Command)
        requires
            key.code == Key::Char('x'),
        ensures
            forall|t: u64| playlist_key(*old(self), *final(self), key, r, t),
    {
        proof {
            reveal(playlist_key);
        }
        match self.playlist_videos_selected {
            Some(i) => if self.playlist_videos.len() > 0 && i < self.playlist_videos.len() {
                self.handle_remove_from_playlist(&self.playlist_videos[i])
            } else {
                Command::Nothing
            },
            None => Command::Nothing,
        }
    }

    fn playlist_delete(&mut self, key: KeyInput) -> (r: Command)
        requires
            key.code == Key::Char('D'),
        ensures
            forall|t: u64| playlist_key(*old(self), *final(self), key, r, t),
    {
        proof {
            reveal(playlist_key);
        }
        match self.playlist_selected {
            Some(i) => if self.playlist_videos.len() == 0 && i < self.playlist_results.len() {
                self.handle_delete_playlist(&self.playlist_results[i])
            } else {
                Command::Nothing
            },
            None => Command::Nothing,
        }
    }

    fn playlist_move(&mut self, key: KeyInput) -> (r: Command)
        requires
            key.code == Key::Up || key.code == Key::Down,
            key.code == Key::Down ==> if old(self).playlist_videos@.len() > 0 {
                below_max(old(self).playlist_videos_selected)
            } else {
                below_max(old(self).playlist_selected)
            },
        ensures
            forall|t: u64| playlist_key(*old(self), *final(self), key, r, t),
    {
        proof {
            reveal(playlist_key);
        }
        if self.playlist_videos.len() > 0 {
            if key.code == Key::Up {
                self.scroll_playlist_videos_up();
            } else {
                self.scroll_playlist_videos_down();
            }
        } else {
            if key.code == Key::Up {
                self.scroll_playlist_up();
            } else {
                self.scroll_playlist_down();
            }
        }
        Command::Nothing
    }

    fn playlist_enter_key(&mut self, key: KeyInput, now: u64) -> (r: Command)
        requires
            key.code == Key::Enter,
        ensures
            playlist_key(*old(self), *final(self), key, r, now),
    {
        proof {
            reveal(playlist_key);
        }
        self.playlist_enter(now)
    }

    fn playlist_esc(&mut self, key: KeyInput) -> (r: Command)
        requires
            key.code == Key::Esc,
        ensures
            forall|t: u64| playlist_key(*old(self), *final(self), key, r, t),
    {
        proof {
            reveal(playlist_key);
        }
        if self.playlist_videos.len() > 0 {
            self.playlist_videos = Vec::new();
            self.playlist_videos_selected = None;
        } else {
            self.mode = AppMode::Main;
        }
        Command::Nothing
    }

    fn playlist_filter(&mut self, key: KeyInput) -> (r: Command)
        requires
            !(key.code == Key::Char('n') || key.code == Key::Char('i') || key.code == Key::Char('r')
                || key.code == Key::Tab || key.code == Key::Char('d') || (key.ctrl_shift && key.code
                == Key::Char('X')) || key.code == Key::Char('x') || key.code == Key::Char('D')
                || key.code == Key::Up || key.code == Key::Down || key.code == Key::Enter || key.code
                == Key::Esc),
        ensures
            forall|t: u64| playlist_key(*old(self), *final(self), key, r, t),
    {
        proof {
            reveal(playlist_key);
        }
        match key.code {
            Key::Char(c) => {
                if self.search_focus == SearchFocus::Input {
                    self.search_query.push(c);
                }
            },
            Key::Backspace => {
                if self.search_focus == SearchFocus::Input {
                    pop_char(&mut self.search_query);
                }
            },
            _ => {},
        }
        Command::Nothing
    }

    /// Enter on the playlists screen (see `playlist_enter`).
    pub fn playlist_enter(&mut self, now: u64) -> (r: Command)
        ensures
            playlist_enter(*old(self), *final(self), r, now),
    {
        proof {
            reveal(playlist_enter);
        }
        match self.pending_playlist_add.take() {
            Some((video_id, title, channel)) => match self.playlist_selected {
                Some(i) => if i < self.playlist_results.len() {
                    Command::AddToPlaylist {
                        playlist_id: self.playlist_results[i].id,
                        video_id,
                        title,
                        channel,
                    }
                } else {
                    Command::Nothing
                },
                None => {
                    self.set_error(owned("No playlist selected"));
                    Command::Nothing
                },
            },
            None => if self.playlist_videos.len() > 0 {
                match self.playlist_videos_selected {
                    Some(i) => if i < self.playlist_videos.len() {
                        let v = self.playlist_videos[i].clone();
                        self.play_playlist_video(&v, now)
                    } else {
                        Command::Nothing
                    },
                    None => Command::Nothing,
                }
            } else {
                match self.playlist_selected {
                    Some(i) => self.load_playlist_videos(i),
                    None => Command::Nothing,
                }
            },
        }
    }
    /// A key press, at `now` (ms): see `key_step`.
    pub fn handle_key(&mut self, key: KeyInput, now: u64) -> (r: Command)
        requires
            key_allowed(*old(self), key),
        ensures
            key_step(*old(self), *final(self), key, r, now),
    {
        let code = key.code;
        if self.show_download_menu {
            return self.download_menu_key(code);
        }
        if self.is_playing && !self.is_typing_context() && is_media(code) {
            return self.media_key(code, now);
        }
        match self.mode {
            AppMode::Main => self.main_key(code, now),
            AppMode::Settings => self.settings_key(code),
            AppMode::Downloads => self.downloads_key(code),
            AppMode::Search => self.search_key(code, now),
            AppMode::History => self.history_key(code, now),
            AppMode::Saved => self.saved_key(code, now),
            AppMode::Playlist => if self.playlist_prompt_mode.is_some() {
                self.prompt_key(code)
            } else {
                self.playlist_key(key, now)
            },
        }
    }
}

/// The keys that control the player (see `is_media_key`).
pub fn is_media(code: Key) -> (r: bool)
    ensures
        r == is_media_key(code),
{
    code == Key::Char(' ') || code == Key::Left || code == Key::Right || code == Key::Char('>')
        || code == Key::Char('<')
}

} // verus!
