use youtui_rs::api::invidious::Video;
use youtui_rs::config::settings::{AppState, Settings};
use youtui_rs::db::connection::{HistoryEntry, Playlist, PlaylistVideo, SavedVideo};
use youtui_rs::download::downloader::DownloadProgress;
use youtui_rs::player::mpv::PlaybackNotification;
use youtui_rs::ui::app::{
    filter_by_query, marquee, ActiveBlock, App, AppMode, Command, DownloadBarState, DownloadRecord,
    ListFocus, PlaybackState, PlayedList, PlaylistPromptMode, PlaylistsFor, SearchFocus, SearchResponse,
};
use youtui_rs::ui::components::{centered_rect, Rect};
use youtui_rs::ui::events::picker_choice;
use youtui_rs::ui::keys::{Key, KeyInput};
use youtui_rs::ui::mouse::{MouseInput, MouseKind};
use youtui_rs::ui::settings::{cycle_setting, row_value, SettingRow};

fn settings() -> Settings {
    Settings::with_video_dir(Some("/home/u/Videos".to_string()))
}

fn app() -> App {
    App::new(settings(), Vec::new(), Vec::new())
}

fn key(c: char) -> KeyInput {
    KeyInput { code: Key::Char(c), ctrl_shift: false }
}

fn code(k: Key) -> KeyInput {
    KeyInput { code: k, ctrl_shift: false }
}

fn video(id: &str, title: &str) -> Video {
    Video {
        video_id: id.to_string(),
        title: title.to_string(),
        author: Some("Chan".to_string()),
        view_count: None,
        length_seconds: None,
        published_text: None,
    }
}

fn entry(id: &str, title: &str) -> HistoryEntry {
    HistoryEntry {
        id: 1,
        video_id: id.to_string(),
        title: title.to_string(),
        channel: None,
        watched_at: "2024-01-01".to_string(),
    }
}

fn plv(row: i64, list: i64, id: &str) -> PlaylistVideo {
    PlaylistVideo {
        id: row,
        playlist_id: list,
        video_id: id.to_string(),
        title: format!("T {}", id),
        channel: None,
        position: 0,
    }
}

#[test]
fn new_app_starts_on_the_main_screen() {
    let a = app();
    assert!(a.mode == AppMode::Main);
    assert_eq!(a.items.len(), 8);
    assert_eq!(a.items[0], "Video 1: Rust for Beginners");
    assert_eq!(a.sidebar_items.len(), 6);
    assert_eq!(a.current_view(), "Search");
    assert!(a.active_block == ActiveBlock::Sidebar);
    assert!(a.autoplay_enabled);
    assert!(!a.is_empty());
}

#[test]
fn q_quits_and_stops_the_player() {
    let mut a = app();
    let r = a.handle_key(key('q'), 0);
    assert!(a.should_quit);
    assert!(matches!(r, Command::StopPlayer));
}

#[test]
fn typing_a_search_and_enter_starts_it() {
    let mut a = app();
    a.handle_key(key('s'), 0);
    assert!(a.mode == AppMode::Search);
    for c in "rust tui".chars() {
        a.handle_key(key(c), 0);
    }
    assert_eq!(a.search_query, "rust tui");
    a.handle_key(code(Key::Backspace), 0);
    assert_eq!(a.search_query, "rust tu");
    let r = a.handle_key(code(Key::Enter), 0);
    assert!(a.is_searching);
    match r {
        Command::Search { query, api_url } => {
            assert_eq!(query, "rust tu");
            assert_eq!(api_url, a.settings.api_instance_invidious);
        }
        _ => panic!("expected a search"),
    }
}

#[test]
fn enter_on_an_empty_search_does_nothing() {
    let mut a = app();
    a.handle_key(key('s'), 0);
    let r = a.handle_key(code(Key::Enter), 0);
    assert!(matches!(r, Command::Nothing));
    assert!(!a.is_searching);
}

#[test]
fn search_results_play_with_the_next_one_queued() {
    let mut a = app();
    a.handle_key(key('s'), 0);
    a.on_search_response(SearchResponse::Success(vec![video("aaa", "First"), video("bbb", "Second")]));
    assert!(a.search_focus == SearchFocus::List);
    a.list_selected = Some(0);
    let r = a.handle_key(code(Key::Enter), 500);
    match r {
        Command::Play(req) => {
            assert_eq!(req.url, "https://www.youtube.com/watch?v=aaa");
            assert_eq!(req.video_id, "aaa");
            assert_eq!(req.channel.as_deref(), Some("Chan"));
            assert_eq!(req.quality, "720");
            assert_eq!(req.queue_next.as_deref(), Some("https://www.youtube.com/watch?v=bbb"));
        }
        _ => panic!("expected a play request"),
    }
    assert!(a.is_playing);
    assert!(a.playback_state == PlaybackState::Loading);
    assert_eq!(a.playback_started, Some(500));
    assert_eq!(a.loading_message, "Playing: First...");
    assert!(a.last_played_category == Some(PlayedList::Search));
    assert_eq!(a.last_played_index, Some(0));
}

#[test]
fn search_error_clears_the_results() {
    let mut a = app();
    a.on_search_response(SearchResponse::Success(vec![video("aaa", "First")]));
    a.on_search_response(SearchResponse::Error("Bad or unreachable Invidious instance".to_string()));
    assert!(a.search_results.is_empty());
    assert_eq!(a.search_error.as_deref(), Some("Bad or unreachable Invidious instance"));
}

#[test]
fn tab_twice_restores_the_focus() {
    let mut a = app();
    a.handle_key(key('s'), 0);
    a.handle_key(code(Key::Tab), 0);
    assert!(a.search_focus == SearchFocus::List);
    a.handle_key(code(Key::Tab), 0);
    assert!(a.search_focus == SearchFocus::Input);
}

#[test]
fn d_opens_the_download_menu_and_1_downloads_the_video() {
    let mut a = app();
    a.handle_key(key('s'), 0);
    a.on_search_response(SearchResponse::Success(vec![video("aaa", "First")]));
    a.list_selected = Some(0);
    a.handle_key(key('d'), 0);
    assert!(a.show_download_menu);
    assert_eq!(a.pending_download_id.as_deref(), Some("aaa"));
    assert_eq!(a.pending_download_title.as_deref(), Some("First"));
    let r = a.handle_key(key('1'), 0);
    match r {
        Command::Download { video_id, audio_only, dir } => {
            assert_eq!(video_id, "aaa");
            assert!(!audio_only);
            assert_eq!(dir, "/home/u/Videos");
        }
        _ => panic!("expected a download"),
    }
    assert!(!a.show_download_menu);
    assert!(a.pending_download_id.is_none());
    assert!(a.download_bar_state == DownloadBarState::Active);
    assert_eq!(a.download_bar_title, "First");
}

#[test]
fn a_downloads_audio_and_esc_cancels() {
    let mut a = app();
    a.pending_download_id = Some("xyz".to_string());
    a.show_download_menu = true;
    let r = a.handle_key(key('a'), 0);
    match r {
        Command::Download { video_id, audio_only, .. } => {
            assert_eq!(video_id, "xyz");
            assert!(audio_only);
        }
        _ => panic!("expected a download"),
    }
    assert!(a.download_is_audio);
    let mut b = app();
    b.pending_download_id = Some("xyz".to_string());
    b.show_download_menu = true;
    let r = b.handle_key(code(Key::Esc), 0);
    assert!(matches!(r, Command::Nothing));
    assert!(!b.show_download_menu);
    assert!(b.pending_download_id.is_none());
}

#[test]
fn d_without_a_selection_shows_an_error() {
    let mut a = app();
    a.handle_key(key('s'), 0);
    a.handle_key(code(Key::Tab), 0);
    a.handle_key(key('d'), 0);
    assert!(!a.show_download_menu);
    assert_eq!(a.current_error.as_deref(), Some("No video selected for download"));
}

#[test]
fn history_lists_wrap_around() {
    let mut a = app();
    let r = a.handle_key(key('h'), 0);
    assert!(matches!(r, Command::LoadHistory));
    assert!(a.mode == AppMode::History);
    a.history_loaded(vec![entry("a", "A"), entry("b", "B"), entry("c", "C")]);
    assert_eq!(a.history_selected, Some(0));
    assert!(a.history_focus == ListFocus::List);
    a.handle_key(code(Key::Up), 0);
    assert_eq!(a.history_selected, Some(2));
    a.handle_key(code(Key::Down), 0);
    assert_eq!(a.history_selected, Some(0));
    let r = a.handle_key(code(Key::Enter), 7);
    match r {
        Command::Play(req) => {
            assert_eq!(req.video_id, "a");
            assert_eq!(req.queue_next.as_deref(), Some("https://www.youtube.com/watch?v=b"));
        }
        _ => panic!("expected a play request"),
    }
}

#[test]
fn history_c_clears_and_esc_leaves() {
    let mut a = app();
    a.handle_key(key('h'), 0);
    let r = a.handle_key(key('c'), 0);
    assert!(matches!(r, Command::ClearHistory));
    a.history_cleared(Err("locked".to_string()));
    assert_eq!(a.current_error.as_deref(), Some("Failed to clear history: locked"));
    a.handle_key(key('x'), 0);
    assert_eq!(a.search_query, "x");
    a.handle_key(code(Key::Esc), 0);
    assert!(a.mode == AppMode::Main);
    assert_eq!(a.search_query, "");
}

#[test]
fn settings_player_row_cycles_through_all_players() {
    let mut a = app();
    a.mode = AppMode::Settings;
    a.settings_selected = Some(2);
    let expected = ["vlc", "mplayer", "ffplay", "mpv"];
    for name in expected.iter() {
        let r = a.handle_key(code(Key::Enter), 0);
        assert_eq!(a.settings.player, *name);
        match r {
            Command::SettingsChanged { recreate_player, pick_download_path } => {
                assert_eq!(recreate_player.as_deref(), Some(*name));
                assert!(!pick_download_path);
            }
            _ => panic!("expected the settings to be saved"),
        }
    }
}

#[test]
fn settings_selection_stays_within_the_rows() {
    let mut a = app();
    a.mode = AppMode::Settings;
    a.settings_selected = Some(0);
    a.handle_key(code(Key::Up), 0);
    assert_eq!(a.settings_selected, Some(0));
    for _ in 0..20 {
        a.handle_key(code(Key::Down), 0);
    }
    assert_eq!(a.settings_selected, Some(8));
    a.handle_key(code(Key::Enter), 0);
    assert!(a.settings.loop_playback);
    a.settings_selected = Some(7);
    a.handle_key(code(Key::Enter), 0);
    assert!(!a.settings.auto_play);
    assert!(!a.autoplay_enabled);
    a.settings_selected = Some(5);
    let r = a.handle_key(code(Key::Enter), 0);
    assert!(matches!(r, Command::SettingsChanged { pick_download_path: true, .. }));
    a.handle_key(code(Key::Esc), 0);
    assert!(a.mode == AppMode::Main);
}

#[test]
fn row_values_show_the_settings() {
    let a = app();
    assert_eq!(row_value(SettingRow::Quality, &a), "720");
    assert_eq!(row_value(SettingRow::AutoPlay, &a), "on");
    assert_eq!(row_value(SettingRow::LoopPlayback, &a), "off");
    assert_eq!(row_value(SettingRow::DownloadPath, &a), "/home/u/Videos");
}

#[test]
fn sidebar_enter_opens_the_chosen_screen() {
    let mut a = app();
    a.sidebar_selected = Some(4);
    let r = a.handle_key(code(Key::Enter), 0);
    assert!(matches!(r, Command::LoadDownloads));
    assert!(a.mode == AppMode::Downloads);
    let mut b = app();
    b.sidebar_selected = Some(5);
    b.handle_key(code(Key::Enter), 0);
    assert!(b.mode == AppMode::Settings);
    let mut c = app();
    c.sidebar_selected = Some(3);
    let r = c.handle_key(code(Key::Enter), 0);
    assert!(matches!(r, Command::LoadPlaylists(PlaylistsFor::View)));
}

#[test]
fn main_list_plays_the_demo_video() {
    let mut a = app();
    a.handle_key(code(Key::Tab), 0);
    assert!(a.active_block == ActiveBlock::Content);
    a.handle_key(code(Key::Down), 0);
    assert_eq!(a.list_selected, Some(1));
    let r = a.handle_key(code(Key::Enter), 10);
    match r {
        Command::Play(req) => {
            assert_eq!(req.video_id, "S_S_S_S_S2_");
            assert_eq!(req.channel.as_deref(), Some("Ratatui"));
            assert_eq!(req.queue_next.as_deref(), Some("https://www.youtube.com/watch?v=S_S_S_S_S3_"));
        }
        _ => panic!("expected a play request"),
    }
}

#[test]
fn player_keys_while_playing() {
    let mut a = app();
    a.active_block = ActiveBlock::Content;
    a.list_selected = Some(0);
    a.handle_key(code(Key::Enter), 0);
    assert!(a.is_playing);
    let r = a.handle_key(key(' '), 0);
    assert!(matches!(r, Command::TogglePause));
    assert!(a.is_paused);
    let r = a.handle_key(code(Key::Left), 0);
    assert!(matches!(r, Command::Seek(-10)));
    let r = a.handle_key(code(Key::Right), 0);
    assert!(matches!(r, Command::Seek(10)));
    let r = a.handle_key(key('>'), 0);
    match r {
        Command::Play(req) => assert_eq!(req.video_id, "S_S_S_S_S2_"),
        _ => panic!("expected the next video"),
    }
    assert_eq!(a.last_played_index, Some(1));
    let r = a.handle_key(key('<'), 0);
    match r {
        Command::Play(req) => assert_eq!(req.video_id, "S_S_S_S_S1_"),
        _ => panic!("expected the previous video"),
    }
    assert_eq!(a.last_played_index, Some(0));
    let r = a.handle_key(key('<'), 0);
    assert!(matches!(r, Command::Nothing));
}

#[test]
fn play_next_waits_for_the_end_of_playback() {
    let mut a = app();
    a.active_block = ActiveBlock::Content;
    a.list_selected = Some(6);
    a.handle_key(code(Key::Enter), 0);
    assert!(matches!(a.play_next_video(0), Command::Nothing));
    a.on_playback_ended();
    assert!(!a.is_playing);
    match a.play_next_video(1) {
        Command::Play(req) => assert_eq!(req.video_id, "S_S_S_S_S8_"),
        _ => panic!("expected the next video"),
    }
    a.on_playback_ended();
    assert!(matches!(a.play_next_video(2), Command::Nothing));
}

#[test]
fn playback_notifications_move_the_state() {
    let mut a = app();
    a.begin_playback("x", 1000);
    a.promote_loading(1500);
    assert!(a.playback_state == PlaybackState::Loading);
    a.promote_loading(2201);
    assert!(a.playback_state == PlaybackState::Playing);
    a.on_notification(PlaybackNotification::Failure("boom".to_string()), 3000);
    assert!(a.playback_state == PlaybackState::Error);
    assert_eq!(a.playback_error.as_deref(), Some("boom"));
    a.on_notification(PlaybackNotification::FallbackAttempt("Ytdlp".to_string()), 3000);
    assert!(a.playback_state == PlaybackState::Loading);
    a.on_notification(PlaybackNotification::Success("Ytdlp".to_string()), 3000);
    assert!(a.playback_state == PlaybackState::Playing);
    assert_eq!(a.playback_started, Some(1000));
}

#[test]
fn importing_a_playlist_from_its_url() {
    let mut a = app();
    let r = a.handle_key(key('p'), 0);
    assert!(matches!(r, Command::LoadPlaylists(PlaylistsFor::View)));
    a.playlists_loaded(Vec::new(), PlaylistsFor::View);
    a.handle_key(key('i'), 0);
    assert!(a.playlist_prompt_mode == Some(PlaylistPromptMode::Import));
    for c in "https://youtube.com/playlist?list=PL123&index=2".chars() {
        a.handle_key(key(c), 0);
    }
    let r = a.handle_key(code(Key::Enter), 0);
    match r {
        Command::ImportPlaylist { list_id, api_url } => {
            assert_eq!(list_id, "PL123");
            assert_eq!(api_url, a.settings.api_instance_invidious);
        }
        _ => panic!("expected an import"),
    }
    assert!(a.playlist_prompt_mode.is_none());
    assert_eq!(a.playlist_prompt, "");
}

#[test]
fn a_blank_playlist_name_is_refused() {
    let mut a = app();
    a.mode = AppMode::Playlist;
    a.handle_key(key('n'), 0);
    a.handle_key(key(' '), 0);
    let r = a.handle_key(code(Key::Enter), 0);
    assert!(matches!(r, Command::Nothing));
    assert_eq!(a.current_error.as_deref(), Some("Playlist name cannot be empty"));
    a.handle_key(key('n'), 0);
    a.handle_key(key('M'), 0);
    let r = a.handle_key(code(Key::Enter), 0);
    match r {
        Command::CreatePlaylist(name) => assert_eq!(name, "M"),
        _ => panic!("expected a new playlist"),
    }
}

#[test]
fn playlists_open_play_remove_and_close() {
    let mut a = app();
    a.mode = AppMode::Playlist;
    let lists = vec![Playlist {
        id: 9,
        name: "Mix".to_string(),
        created_at: String::new(),
        is_imported: true,
        youtube_id: Some("PLx".to_string()),
    }];
    a.playlists_loaded(lists, PlaylistsFor::View);
    assert_eq!(a.playlist_selected, Some(0));
    let r = a.handle_key(code(Key::Enter), 0);
    assert!(matches!(r, Command::LoadPlaylistVideos(9)));
    let r = a.handle_key(key('r'), 0);
    match r {
        Command::RefreshPlaylist { playlist_id, youtube_id, .. } => {
            assert_eq!(playlist_id, 9);
            assert_eq!(youtube_id, "PLx");
        }
        _ => panic!("expected a refresh"),
    }
    a.playlist_videos_loaded(Ok(vec![plv(1, 9, "v1"), plv(2, 9, "v2")]));
    assert_eq!(a.playlist_videos_selected, Some(0));
    let r = a.handle_key(key('x'), 0);
    assert!(matches!(r, Command::RemoveFromPlaylist { playlist_id: 9, row_id: 1 }));
    a.playlist_videos_selected = Some(1);
    a.playlist_video_removed(Ok(Some(vec![plv(2, 9, "v2")])));
    assert_eq!(a.playlist_videos_selected, Some(0));
    let r = a.handle_key(code(Key::Enter), 0);
    assert!(matches!(r, Command::Play(_)));
    a.handle_key(code(Key::Esc), 0);
    assert!(a.playlist_videos.is_empty());
    assert!(a.mode == AppMode::Playlist);
    let r = a.handle_key(key('D'), 0);
    assert!(matches!(r, Command::DeletePlaylist(9)));
    a.handle_key(code(Key::Esc), 0);
    assert!(a.mode == AppMode::Main);
}

#[test]
fn ctrl_shift_x_toggles_autoplay() {
    let mut a = app();
    a.mode = AppMode::Playlist;
    a.is_playing = true;
    a.playlist_focus = ListFocus::List;
    a.handle_key(KeyInput { code: Key::Char('X'), ctrl_shift: true }, 0);
    assert!(!a.autoplay_enabled);
    assert!(!a.is_playing);
    a.handle_key(KeyInput { code: Key::Char('X'), ctrl_shift: true }, 0);
    assert!(a.autoplay_enabled);
}

#[test]
fn adding_to_a_playlist_asks_for_one_first() {
    let mut a = app();
    a.mode = AppMode::Saved;
    a.saved_loaded(vec![SavedVideo {
        id: 1,
        video_id: "sv".to_string(),
        title: "Saved".to_string(),
        channel: None,
        saved_at: String::new(),
    }]);
    let r = a.trigger_add_to_playlist();
    assert!(matches!(r, Command::LoadPlaylists(PlaylistsFor::Add)));
    assert!(a.mode == AppMode::Playlist);
    let lists = vec![Playlist {
        id: 3,
        name: "Mine".to_string(),
        created_at: String::new(),
        is_imported: false,
        youtube_id: None,
    }];
    a.playlists_loaded(lists, PlaylistsFor::Add);
    let r = a.handle_key(code(Key::Enter), 0);
    match r {
        Command::AddToPlaylist { playlist_id, video_id, title, channel } => {
            assert_eq!(playlist_id, 3);
            assert_eq!(video_id, "sv");
            assert_eq!(title, "Saved");
            assert!(channel.is_none());
        }
        _ => panic!("expected an addition"),
    }
    assert!(a.pending_playlist_add.is_none());
}

#[test]
fn saving_and_unsaving() {
    let mut a = app();
    a.mode = AppMode::History;
    a.history_loaded(vec![entry("h1", "One")]);
    let r = a.trigger_save();
    assert!(matches!(r, Command::SaveVideo { ref video_id, .. } if video_id == "h1"));
    a.on_video_saved("h1", Vec::new());
    assert_eq!(a.current_error.as_deref(), Some("Video h1 saved successfully!"));
    let mut b = app();
    b.mode = AppMode::Saved;
    b.saved_loaded(vec![SavedVideo {
        id: 1,
        video_id: "sv".to_string(),
        title: "S".to_string(),
        channel: None,
        saved_at: String::new(),
    }]);
    let r = b.handle_key(key('s'), 0);
    assert!(matches!(r, Command::Unsave(ref id) if id == "sv"));
    let mut c = app();
    let r = c.trigger_save();
    assert!(matches!(r, Command::Nothing));
    assert_eq!(c.current_error.as_deref(), Some("No video selected to save"));
}

#[test]
fn a_finished_download_is_recorded_first() {
    let mut a = app();
    a.downloads = vec![DownloadRecord {
        title: "old".to_string(),
        path: "/x/old.mp4".to_string(),
        kind: "video".to_string(),
        when: "then".to_string(),
    }];
    a.download_is_audio = true;
    let r = a.on_download_progress(DownloadProgress::Starting { title: "t".to_string() }, String::new());
    assert!(matches!(r, Command::Nothing));
    a.on_download_progress(
        DownloadProgress::Downloading {
            title: "Song".to_string(),
            percent: 40,
            speed: "1MiB/s".to_string(),
            eta: "00:03".to_string(),
        },
        String::new(),
    );
    assert_eq!(a.download_bar_percent, 40);
    let r = a.on_download_progress(
        DownloadProgress::Completed { title: "Song".to_string(), path: String::new() },
        "2024-05-01 10:00".to_string(),
    );
    assert!(matches!(r, Command::SaveDownloads));
    assert_eq!(a.downloads.len(), 2);
    assert_eq!(a.downloads[0].path, "/home/u/Videos/Song.mp3");
    assert_eq!(a.downloads[0].kind, "audio");
    assert_eq!(a.downloads[0].when, "2024-05-01 10:00");
    assert_eq!(a.downloads[1].title, "old");
    assert_eq!(a.downloads_selected, Some(0));
    assert_eq!(a.loading_message, "Saved to: /home/u/Videos/Song.mp3");
    assert!(a.download_bar_state == DownloadBarState::Done);
    a.on_download_progress(DownloadProgress::Failed { error: "boom".to_string() }, String::new());
    assert_eq!(a.current_error.as_deref(), Some("Download failed: boom"));
    assert!(a.download_bar_state == DownloadBarState::Failed);
}

#[test]
fn downloads_screen_plays_a_file() {
    let mut a = app();
    a.mode = AppMode::Downloads;
    a.downloads_loaded(vec![
        DownloadRecord {
            title: "a".to_string(),
            path: "/d/a.mp3".to_string(),
            kind: "audio".to_string(),
            when: String::new(),
        },
        DownloadRecord {
            title: "b".to_string(),
            path: "/d/b.mp4".to_string(),
            kind: "video".to_string(),
            when: String::new(),
        },
    ]);
    assert_eq!(a.downloads_selected, Some(0));
    a.handle_key(code(Key::Up), 0);
    assert_eq!(a.downloads_selected, Some(1));
    a.handle_key(code(Key::Down), 0);
    assert_eq!(a.downloads_selected, Some(0));
    let r = a.handle_key(code(Key::Enter), 0);
    let rec = match r {
        Command::OpenDownload(rec) => rec,
        _ => panic!("expected the record"),
    };
    let r = a.play_downloaded(&rec, false, 0);
    assert!(matches!(r, Command::Nothing));
    assert_eq!(a.current_error.as_deref(), Some("File not found: /d/a.mp3"));
    let r = a.play_downloaded(&rec, true, 5);
    match r {
        Command::PlayFile { path, audio, .. } => {
            assert_eq!(path, "/d/a.mp3");
            assert!(audio);
        }
        _ => panic!("expected a file to play"),
    }
    assert!(a.playback_is_audio);
}

#[test]
fn mouse_selects_and_opens_the_context_menu() {
    let mut a = app();
    a.set_areas(Rect::new(0, 0, 20, 10), Rect::new(20, 0, 60, 10));
    a.handle_mouse(MouseInput { kind: MouseKind::LeftDown, column: 2, row: 3 });
    assert!(a.active_block == ActiveBlock::Sidebar);
    assert_eq!(a.sidebar_selected, Some(2));
    a.handle_mouse(MouseInput { kind: MouseKind::LeftDown, column: 30, row: 5 });
    assert!(a.active_block == ActiveBlock::Content);
    assert_eq!(a.list_selected, Some(4));
    a.handle_mouse(MouseInput { kind: MouseKind::ScrollDown, column: 0, row: 0 });
    assert_eq!(a.list_selected, Some(5));
    a.handle_mouse(MouseInput { kind: MouseKind::RightDown, column: 40, row: 2 });
    assert!(a.show_context_menu);
    assert_eq!(a.context_menu_pos, (40, 2));
    a.handle_mouse(MouseInput { kind: MouseKind::LeftDown, column: 41, row: 4 });
    assert!(!a.show_context_menu);
    assert_eq!(a.current_error.as_deref(), Some("No video selected to save"));
}

#[test]
fn state_round_trip() {
    let mut a = app();
    a.sidebar_selected = Some(3);
    a.list_selected = Some(5);
    a.settings_selected = None;
    a.save_state();
    assert_eq!(a.app_state.last_sidebar_index, 3);
    assert_eq!(a.app_state.last_content_index, 5);
    assert_eq!(a.app_state.last_settings_index, 0);
    let mut b = app();
    b.restore_state(AppState { last_sidebar_index: 3, last_content_index: 5, last_settings_index: 0 });
    assert_eq!(b.sidebar_selected, Some(3));
    assert_eq!(b.list_selected, Some(5));
    assert_eq!(b.settings_selected, Some(0));
}

#[test]
fn folder_picker_choice() {
    let (path, parent) = picker_choice("  /home/u/Music/song.mp3\n");
    assert_eq!(path, "/home/u/Music/song.mp3");
    assert_eq!(parent.as_deref(), Some("/home/u/Music"));
    let mut a = app();
    let r = a.folder_picked(path, false, parent, true);
    assert!(matches!(r, Command::SettingsChanged { recreate_player: None, pick_download_path: false }));
    assert_eq!(a.settings.download_path, "/home/u/Music");
    assert_eq!(a.current_error.as_deref(), Some("Download path set to: /home/u/Music"));
    let mut b = app();
    let r = b.folder_picked("/nowhere".to_string(), false, Some("/".to_string()), false);
    assert!(matches!(r, Command::Nothing));
    assert_eq!(b.settings.download_path, "/home/u/Videos");
    assert_eq!(picker_choice("/").1, None);
}

#[test]
fn filter_ignores_case() {
    let items = vec![entry("abc", "Rust Tips"), entry("def", "Cooking")];
    let found = filter_by_query("rUST", &items);
    assert_eq!(found.len(), 1);
    assert_eq!(found[0].video_id, "abc");
    assert_eq!(filter_by_query("", &items).len(), 2);
    assert_eq!(filter_by_query("DEF", &items).len(), 1);
}

#[test]
fn marquee_scrolls_long_text() {
    assert_eq!(marquee("short", 10, 99), "short     ");
    assert_eq!(marquee("fits", 4, 7), "fits");
    assert_eq!(marquee("abcdef", 4, 0), "abcd");
    assert_eq!(marquee("abcdef", 4, 3), "bcde");
    assert_eq!(marquee("abcdef", 4, 15), "f   ");
}

#[test]
fn errors_and_loading_messages() {
    let mut a = app();
    a.set_error_with_suggestion("e".to_string(), "try".to_string());
    assert_eq!(a.current_suggestion.as_deref(), Some("try"));
    a.clear_error();
    assert!(a.current_error.is_none() && a.current_suggestion.is_none());
    a.set_loading("wait".to_string());
    assert!(a.is_loading);
    a.clear_loading();
    assert!(!a.is_loading);
    assert_eq!(a.loading_message, "");
    a.anim_tick = u64::MAX;
    a.tick();
    assert_eq!(a.anim_tick, 0);
}

#[test]
fn a_new_app_plays_nothing() {
    let a = app();
    assert!(!a.is_playing && !a.is_paused);
    assert!(!a.show_download_menu && a.pending_download_id.is_none());
    assert!(!a.is_loading && a.search_query.is_empty() && a.search_results.is_empty());
    assert!(a.playback_started.is_none() && a.playback_error.is_none() && a.anim_tick == 0);
}

#[test]
fn end_of_playback_is_taken_before_a_failure() {
    let mut a = app();
    a.is_playing = true;
    a.playback_state = PlaybackState::Playing;
    a.playback_started = Some(5);
    a.update_playback(true, vec![PlaybackNotification::Failure("boom".to_string())], 100);
    assert!(a.playback_state == PlaybackState::Idle);
    assert!(a.playback_error.is_none());
    assert!(!a.is_playing);
    assert_eq!(a.anim_tick, 1);
}

#[test]
fn notices_of_an_update_are_taken_in_order() {
    let mut a = app();
    a.playback_state = PlaybackState::Loading;
    a.update_playback(
        false,
        vec![
            PlaybackNotification::FallbackAttempt("Ytdlp".to_string()),
            PlaybackNotification::Success("http://s".to_string()),
        ],
        42,
    );
    assert!(a.playback_state == PlaybackState::Playing);
    assert_eq!(a.playback_started, Some(42));
    a.update_playback(false, vec![PlaybackNotification::Failure("bad".to_string())], 50);
    assert!(a.playback_state == PlaybackState::Error);
    assert_eq!(a.playback_error, Some("bad".to_string()));
}

#[test]
fn arrows_on_an_empty_list_select_the_first_entry() {
    let mut a = app();
    a.active_block = ActiveBlock::Content;
    a.items = Vec::new();
    a.list_selected = None;
    a.handle_key(code(Key::Up), 0);
    assert_eq!(a.list_selected, Some(0));
    a.list_selected = None;
    a.handle_key(code(Key::Down), 0);
    assert_eq!(a.list_selected, Some(0));
}

#[test]
fn centered_rect_takes_any_percentage_that_fits() {
    let c = centered_rect(101, 50, Rect::new(0, 0, 50, 20));
    assert_eq!((c.x, c.y, c.width, c.height), (0, 5, 50, 10));
    let d = centered_rect(60, 60, Rect::new(10, 2, 100, 40));
    assert_eq!((d.x, d.y, d.width, d.height), (30, 10, 60, 24));
}

#[test]
fn marquee_repeats_and_moves_one_step() {
    let text = "abcdefgh";
    let period = 3 * (8 + 7);
    assert_eq!(marquee(text, 5, 4), marquee(text, 5, 3));
    assert_eq!(marquee(text, 5, 4 + period), marquee(text, 5, 4));
    let a = marquee(text, 5, 6);
    let b = marquee(text, 5, 9);
    assert_eq!(&b[..4], &a[1..]);
}

#[test]
fn a_row_comes_back_after_a_full_cycle() {
    let mut s = settings();
    for _ in 0..5 {
        cycle_setting(&mut s, SettingRow::Quality);
    }
    assert_eq!(s.default_quality, "720");
    for _ in 0..4 {
        cycle_setting(&mut s, SettingRow::Player);
    }
    assert_eq!(s.player, "mpv");
    cycle_setting(&mut s, SettingRow::AutoPlay);
    cycle_setting(&mut s, SettingRow::AutoPlay);
    assert!(s.auto_play);
}
