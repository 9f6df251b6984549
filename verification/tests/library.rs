use youtui_rs::api::health::{instances, next_instance, rotate_to_healthy_invidious};
use youtui_rs::api::http::{HttpStatus, TransportError};
use youtui_rs::api::invidious::{
    check_status, urlencoding, InstanceRetry, InvidiousClient, InvidiousError,
};
use youtui_rs::api::ytdlp::{ProcessOutput, RawFormat, YtdlpError, YtdlpWrapper};
use youtui_rs::config::settings::Settings;
use youtui_rs::config::DebugMode;
use youtui_rs::db::connection::{dedup_history, HistoryEntry};
use youtui_rs::download::downloader::{
    parse_progress, DownloadExit, DownloadProgress, DownloadTracker, Downloader,
};
use youtui_rs::player::detector::{detect_players_cached, PlayerCache, PlayerInfo, Probe};
use youtui_rs::player::ipc::IpcClient;
use youtui_rs::player::mpv::{
    extract_video_id, mpv_args, version_line, FallbackManager, FallbackStep, PlaybackNotification,
};
use youtui_rs::player::{player_kind, PlayerKind};
use youtui_rs::ui::settings::{cycle_option, player_option_list};
use youtui_rs::utils::logger::{log_dir, log_filename, LoggerConfig};

fn entry(id: &str) -> HistoryEntry {
    HistoryEntry {
        id: 0,
        video_id: id.to_string(),
        title: id.to_string(),
        channel: None,
        watched_at: String::new(),
    }
}

#[test]
fn next_instance_goes_round_the_list() {
    let all = instances();
    assert_eq!(all.len(), 7);
    for i in 0..all.len() {
        assert_eq!(next_instance(all[i]), all[(i + 1) % all.len()]);
    }
    assert_eq!(next_instance("https://invidious.kavin.rocks/"), "https://invidious.flokinet.to");
    assert_eq!(next_instance("https://unknown.example"), "https://invidious.privacydev.net");
}

#[test]
fn health_probe_takes_the_first_answer() {
    assert_eq!(rotate_to_healthy_invidious(&[false, true]), Some("https://invidious.privacydev.net"));
    assert_eq!(rotate_to_healthy_invidious(&[false, false]), None);
    assert_eq!(rotate_to_healthy_invidious(&[false; 7]), Some("https://invidious.flokinet.to"));
}

#[test]
fn retries_visit_every_instance_once() {
    let all = instances();
    let mut retry = InstanceRetry::new(all[2]);
    let mut seen = vec![retry.current.clone()];
    while retry.on_error(&InvidiousError::BadInstance) {
        assert!(!seen.contains(&retry.current) || seen.len() == 7);
        seen.push(retry.current.clone());
    }
    assert_eq!(retry.attempts, 7);
    assert_eq!(retry.current, all[2]);
    assert!(retry.switched_instance().is_none());
    let mut other = InstanceRetry::new(all[0]);
    assert!(other.on_error(&InvidiousError::RequestFailed("x".to_string())));
    assert_eq!(other.switched_instance().as_deref(), Some(all[1]));
    assert!(!other.on_error(&InvidiousError::NotFound("v".to_string())));
}

#[test]
fn urlencoding_writes_queries() {
    assert_eq!(urlencoding("rust tui"), "rust+tui");
    assert_eq!(urlencoding("a&b=c"), "a%26b%3Dc");
    assert_eq!(urlencoding("A-z_0.9~"), "A-z_0.9~");
    assert_eq!(urlencoding("ü"), "%FC");
    assert_eq!(urlencoding("\n"), "%0A");
    assert_eq!(urlencoding("日"), "%65E5");
}

#[test]
fn client_urls() {
    let c = InvidiousClient::new("https://inv.example/");
    assert_eq!(c.search_url("a b"), "https://inv.example/api/v1/search?q=a+b&type=video");
}

#[test]
fn http_errors() {
    let e = check_status(&HttpStatus { code: 404, text: "404 Not Found".to_string() }, Some("abc"));
    match e {
        Err(InvidiousError::NotFound(id)) => assert_eq!(id, "abc"),
        _ => panic!("expected not found"),
    }
    let e = check_status(&HttpStatus { code: 500, text: "500 Internal".to_string() }, None);
    match e {
        Err(err) => assert_eq!(err.message(), "Request failed: HTTP 500 Internal"),
        _ => panic!("expected a failure"),
    }
    assert!(check_status(&HttpStatus { code: 200, text: "200 OK".to_string() }, None).is_ok());
    let t = TransportError { is_connect: true, is_timeout: false, message: "refused".to_string() };
    assert!(matches!(InvidiousError::from_transport(&t), InvidiousError::BadInstance));
    assert_eq!(InvidiousError::BadInstance.message(), "Bad or unreachable Invidious instance");
}

#[test]
fn ytdlp_output_is_read() {
    let ok = ProcessOutput {
        success: true,
        stdout: "  https://stream.example/v  \nsecond".to_string(),
        stderr: String::new(),
    };
    assert_eq!(YtdlpWrapper::stream_url_from_output("id", &ok).ok().as_deref(), Some("https://stream.example/v"));
    let gone = ProcessOutput {
        success: false,
        stdout: String::new(),
        stderr: "ERROR: Video unavailable".to_string(),
    };
    match YtdlpWrapper::stream_url_from_output("id", &gone) {
        Err(YtdlpError::NotFound(id)) => assert_eq!(id, "id"),
        _ => panic!("expected not found"),
    }
    let raws = vec![
        RawFormat {
            format_id: Some("18".to_string()),
            ext: None,
            resolution: Some("640x360".to_string()),
            filesize: Some(10),
            url: None,
        },
        RawFormat { format_id: None, ext: Some("mp4".to_string()), resolution: None, filesize: None, url: None },
    ];
    let fs = YtdlpWrapper::formats_from_raw(raws);
    assert_eq!(fs.len(), 1);
    assert_eq!(fs[0].ext, "unknown");
    assert_eq!(YtdlpWrapper::watch_url("abc"), "https://youtube.com/watch?v=abc");
}

#[test]
fn video_ids_are_found_in_urls() {
    assert_eq!(extract_video_id("https://www.youtube.com/watch?v=abc123&t=10").as_deref(), Some("abc123"));
    assert_eq!(extract_video_id("https://inv.example/video/xyz").as_deref(), Some("xyz"));
    assert_eq!(extract_video_id("https://example.com/"), None);
}

#[test]
fn fallback_tries_each_provider_once() {
    let mut f = FallbackManager::new("https://www.youtube.com/watch?v=abc");
    assert_eq!(f.video_id.as_deref(), Some("abc"));
    let fail = PlaybackNotification::Failure("x".to_string());
    let mut tried = Vec::new();
    loop {
        match f.on_notification(&fail) {
            FallbackStep::Try { index } => {
                tried.push(index);
                f.attempt_done(false);
            }
            FallbackStep::Stop => break,
            FallbackStep::Wait => panic!("a failure is never waited on"),
        }
    }
    assert_eq!(tried, vec![0, 1, 2]);
    assert!(f.finished);
    assert!(matches!(f.on_notification(&PlaybackNotification::Success("y".to_string())), FallbackStep::Stop));
}

#[test]
fn mpv_command_line() {
    let extra = vec!["--volume=50".to_string()];
    let args = mpv_args("https://u", "720", true, &extra).ok().unwrap();
    assert_eq!(
        args,
        vec![
            "--keep-open=no".to_string(),
            "--loop".to_string(),
            "--ytdl-format=bestvideo[height<=720]+bestaudio/best[height<=720]".to_string(),
            "--volume=50".to_string(),
            "https://u".to_string(),
        ]
    );
    assert_eq!(mpv_args("", "720", false, &extra).err().as_deref(), Some("Invalid or empty URL specified for playback"));
    assert_eq!(version_line(true, "mpv 0.38.0\nbuilt").as_deref(), Some("mpv 0.38.0"));
    assert_eq!(version_line(false, "mpv"), None);
}

#[test]
fn player_names_ignore_case() {
    assert!(matches!(player_kind("MPV"), Some(PlayerKind::Mpv)));
    assert!(matches!(player_kind(""), Some(PlayerKind::Mpv)));
    assert!(player_kind("vlc").is_none());
}

#[test]
fn player_cache_reads_back_what_was_written() {
    let mut c = PlayerCache::new();
    assert!(c.get("mpv").is_none());
    let info = |p: &str| PlayerInfo { path: p.to_string(), name: "mpv".to_string(), version: None, working: true };
    c.insert("mpv", info("/usr/bin/mpv"));
    c.insert("vlc", info("/usr/bin/vlc"));
    c.insert("mpv", info("/opt/mpv"));
    assert_eq!(c.get("mpv").map(|i| i.path), Some("/opt/mpv".to_string()));
    assert_eq!(c.get("vlc").map(|i| i.path), Some("/usr/bin/vlc".to_string()));
    c.clear_cache();
    assert!(c.get("mpv").is_none());
}

#[test]
fn ipc_commands_are_lines() {
    assert_eq!(IpcClient::command_line("{\"command\":[\"stop\"]}"), "{\"command\":[\"stop\"]}\n");
    let c = IpcClient::new("/tmp/mpv.sock");
    assert_eq!(c.connect_error("refused"), "Failed to connect to /tmp/mpv.sock: refused");
}

#[test]
fn progress_lines_are_read() {
    let p = parse_progress("[download]  12.3% of 1.24MiB at 2.93MiB/s ETA 00:10");
    assert_eq!(p.percent_text.as_deref(), Some("12.3"));
    assert_eq!(p.speed, "2.93MiB/s");
    assert_eq!(p.eta, "00:10");
    let q = parse_progress("no progress here");
    assert!(q.percent_text.is_none());
    assert_eq!(q.speed, "");
    assert_eq!(q.eta, "");
}

#[test]
fn download_tracker_follows_the_file_name() {
    let mut t = DownloadTracker::new("vid", "/d/%(title)s.%(ext)s");
    assert!(matches!(t.starting(), DownloadProgress::Starting { ref title } if title == "vid"));
    assert!(t.on_line("[download] Destination: /d/My Song.mp4").is_none());
    assert_eq!(t.title, "My Song");
    let (title, fields) = t.on_line("[download]  50.0% of 3MiB at 1MiB/s ETA 00:02").unwrap();
    assert_eq!(title, "My Song");
    assert_eq!(fields.eta, "00:02");
    match t.finish(DownloadExit::Failure { status: "1".to_string(), stderr_lines: vec!["a".to_string(), "b".to_string()] }) {
        DownloadProgress::Failed { error } => assert_eq!(error, "a | b"),
        _ => panic!("expected a failure"),
    }
    assert_eq!(Downloader::output_template("/d"), "/d/%(title)s.%(ext)s");
    let args = Downloader::download_args("v", "/d/t", true);
    assert_eq!(args.len(), 10);
    assert_eq!(args[0], "https://youtube.com/watch?v=v");
    assert_eq!(args[9], "mp3");
}

#[test]
fn history_runs_are_shown_once() {
    let shown = dedup_history(vec![entry("a"), entry("a"), entry("b"), entry("a"), entry("a")]);
    let ids: Vec<String> = shown.iter().map(|e| e.video_id.clone()).collect();
    assert_eq!(ids, vec!["a".to_string(), "b".to_string(), "a".to_string()]);
}

#[test]
fn settings_defaults_and_paths() {
    let s = Settings::with_video_dir(Some("/home/u/Videos".to_string()));
    assert_eq!(s.default_quality, "720");
    assert_eq!(s.player, "mpv");
    assert!(s.auto_play);
    assert_eq!(s.download_path, "/home/u/Videos");
    let t = Settings::with_video_dir(None);
    assert_eq!(t.download_path, ".");
    assert_eq!(Settings::config_path("/home/u/.config"), "/home/u/.config/youtui-rs/config.json");
}

#[test]
fn options_cycle() {
    let players = player_option_list();
    assert_eq!(cycle_option(&players, "ffplay"), "mpv");
    assert_eq!(cycle_option(&players, "mpv"), "vlc");
    assert_eq!(cycle_option(&players, "other"), "vlc");
}

#[test]
fn logging_setup() {
    let dev = LoggerConfig { is_dev: true, to_terminal: false, log_level: "warn".to_string() };
    assert_eq!(dev.default_filter(), "debug,youtui_rs=debug");
    let rel = LoggerConfig { is_dev: false, to_terminal: false, log_level: "warn".to_string() };
    assert_eq!(rel.default_filter(), "warn");
    assert!(rel.sinks(true).file);
    assert!(!rel.sinks(false).stderr);
    assert!(dev.sinks(false).stderr);
    assert_eq!(log_dir("/home/u/.local/share"), "/home/u/.local/share/youtui-rs/logs");
    assert_eq!(log_filename("2024"), "youtui-rs-2024.log");
    let mut d = DebugMode { enabled: false };
    d.set_debug_mode(true);
    assert!(d.is_debug_enabled() && d.log_to_terminal());
    assert!(d.is_development(false));
}

fn probe(path: &str, ok: bool, out: &str) -> Option<Probe> {
    Some(Probe { path: path.to_string(), version_ok: ok, version_stdout: out.to_string() })
}

#[test]
fn detection_keeps_working_players_in_order_and_caches_them() {
    let mut c = PlayerCache::new();
    let probes = vec![
        probe("/usr/bin/mpv", true, "mpv 0.38\nmore"),
        None,
        probe("/usr/bin/smplayer", false, ""),
        None,
        probe("/usr/bin/kitty", true, ""),
    ];
    let r = detect_players_cached(&mut c, probes);
    let names: Vec<String> = r.iter().map(|p| p.name.clone()).collect();
    assert_eq!(names, vec!["mpv".to_string(), "kitty".to_string()]);
    assert_eq!(r[0].version, Some("mpv 0.38".to_string()));
    assert_eq!(r[1].version, Some("?".to_string()));
    assert!(c.get("smplayer").is_some());
    assert!(c.get("vlc").is_none());
    // A second detection takes cached players from the cache, whatever the probes say.
    let again = vec![probe("/elsewhere/mpv", false, ""), probe("/usr/bin/vlc", true, "VLC 3"), None, None, None];
    let r2 = detect_players_cached(&mut c, again);
    let paths: Vec<String> = r2.iter().map(|p| p.path.clone()).collect();
    assert_eq!(paths, vec!["/usr/bin/mpv".to_string(), "/usr/bin/vlc".to_string(), "/usr/bin/kitty".to_string()]);
}

#[test]
fn download_title_follows_latest_destination() {
    let mut t = DownloadTracker::new("vid", "/d/%(title)s.%(ext)s");
    assert!(matches!(t.starting(), DownloadProgress::Starting { .. }));
    assert!(t.on_line("[download]   5.0% of 1MiB at 1MiB/s ETA 00:01").map(|(title, _)| title) == Some("vid".to_string()));
    assert!(t.on_line("[download] Destination: /d/First.webm").is_none());
    assert!(t.on_line("[download]  50.0% of 1MiB at 1MiB/s ETA 00:01").map(|(title, _)| title) == Some("First".to_string()));
    assert!(t.on_line("[download] Destination: /d/Second.m4a").is_none());
    match t.finish(DownloadExit::Success) {
        DownloadProgress::Completed { title, .. } => assert_eq!(title, "Second"),
        _ => panic!("expected completion"),
    }
}

#[test]
fn fallback_tries_each_provider_once_in_order() {
    let mut f = FallbackManager::new("https://www.youtube.com/watch?v=abc");
    let fail = PlaybackNotification::Failure("x".to_string());
    let mut tried = Vec::new();
    for _ in 0..5 {
        match f.on_notification(&fail) {
            FallbackStep::Try { index } => {
                tried.push(index);
                f.attempt_done(false);
            }
            FallbackStep::Stop => break,
            FallbackStep::Wait => {}
        }
    }
    assert_eq!(tried, vec![0, 1, 2]);
}

#[test]
fn encoded_queries_use_the_url_alphabet() {
    for q in ["a+b c", "100%", "x/y?z=1&w"] {
        let e = urlencoding(q);
        assert!(e.chars().all(|c| c.is_ascii_alphanumeric() || "-_.~+%".contains(c)));
    }
    assert_eq!(urlencoding("a+b c"), "a%2Bb+c");
}

#[test]
fn debug_switch_starts_off() {
    let mut d = DebugMode::new();
    assert!(!d.is_debug_enabled());
    d.set_debug_mode(true);
    assert!(d.is_debug_enabled() && d.log_to_terminal());
}

#[test]
fn a_download_that_cannot_start_ends_with_one_failure() {
    let mut t = DownloadTracker::new("vid", "/d/x");
    assert!(matches!(t.starting(), DownloadProgress::Starting { ref title } if title == "vid"));
    match t.finish(DownloadExit::SpawnFailed { error: "no such file".to_string() }) {
        DownloadProgress::Failed { error } => assert_eq!(error, "Failed to start yt-dlp: no such file"),
        _ => panic!("expected a failure"),
    }
}

#[test]
fn fallback_announces_providers_and_a_stream_that_plays() {
    assert!(matches!(FallbackManager::announcement(0), PlaybackNotification::FallbackAttempt(ref n) if n == "Ytdlp"));
    assert!(matches!(FallbackManager::announcement(2), PlaybackNotification::FallbackAttempt(ref n) if n == "Piped"));
    let mut f = FallbackManager::new("https://www.youtube.com/watch?v=abc");
    let fail = PlaybackNotification::Failure("x".to_string());
    assert!(matches!(f.on_notification(&fail), FallbackStep::Try { index: 0 }));
    assert!(f.attempt_outcome(None).is_none());
    assert!(matches!(f.on_notification(&fail), FallbackStep::Try { index: 1 }));
    let played = f.attempt_outcome(Some("http://stream".to_string()));
    assert!(matches!(played, Some(PlaybackNotification::Success(ref u)) if u == "http://stream"));
    assert!(matches!(f.on_notification(&fail), FallbackStep::Stop));
}

#[test]
fn escapes_have_two_hex_digits() {
    assert_eq!(urlencoding("+"), "%2B");
    assert_eq!(urlencoding("\u{1}"), "%01");
    assert_eq!(urlencoding(" "), "+");
}
