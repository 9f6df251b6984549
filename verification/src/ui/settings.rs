//! The settings screen: its rows, their labels, and how a row's value is
//! changed. Drawing the screen is done by the application.
use vstd::prelude::*;
use crate::config::settings::Settings;
use crate::ui::app::App;
use crate::text::{owned, str_eq};

verus! {

pub enum SettingRow {
    ApiInvidious,
    ApiPiped,
    Player,
    Quality,
    Format,
    DownloadPath,
    LogLevel,
    AutoPlay,
    LoopPlayback,
}

impl Clone for SettingRow {
    fn clone(&self) -> (r: Self)
        ensures
            r == *self,
    {
        *self
    }
}

impl Copy for SettingRow {}

/// The rows, top to bottom.
pub open spec fn row_list() -> Seq<SettingRow> {
    seq![
        SettingRow::ApiInvidious,
        SettingRow::ApiPiped,
        SettingRow::Player,
        SettingRow::Quality,
        SettingRow::Format,
        SettingRow::DownloadPath,
        SettingRow::LogLevel,
        SettingRow::AutoPlay,
        SettingRow::LoopPlayback,
    ]
}

pub fn rows() -> (r: Vec<SettingRow>)
    ensures
        r@ == row_list(),
{
    let r = vec![
        SettingRow::ApiInvidious,
        SettingRow::ApiPiped,
        SettingRow::Player,
        SettingRow::Quality,
        SettingRow::Format,
        SettingRow::DownloadPath,
        SettingRow::LogLevel,
        SettingRow::AutoPlay,
        SettingRow::LoopPlayback,
    ];
    assert(r@ =~= row_list());
    r
}

pub fn row_label(row: SettingRow) -> (r: &'static str)
    ensures
        row is ApiInvidious ==> r@ == "API Instance (Invidious)"@,
        row is ApiPiped ==> r@ == "API Instance (Piped)"@,
        row is Player ==> r@ == "Player  [Enter to cycle: mpv / vlc / mplayer]"@,
        row is Quality ==> r@ == "Default Quality  [Enter to cycle: 1080 / 720 / 480 / 360]"@,
        row is Format ==> r@ == "Default Format  [Enter to cycle: mp4 / webm / audio-only]"@,
        row is DownloadPath ==> r@ == "Download Path  [Enter to open Yazi folder picker]"@,
        row is LogLevel ==> r@ == "Log Level  [Enter to cycle: info / debug / warn / error]"@,
        row is AutoPlay ==> r@ == "Auto-play next  [Enter to toggle]"@,
        row is LoopPlayback ==> r@ == "Loop playback  [Enter to toggle]"@,
{
    match row {
        SettingRow::ApiInvidious => "API Instance (Invidious)",
        SettingRow::ApiPiped => "API Instance (Piped)",
        SettingRow::Player => "Player  [Enter to cycle: mpv / vlc / mplayer]",
        SettingRow::Quality => "Default Quality  [Enter to cycle: 1080 / 720 / 480 / 360]",
        SettingRow::Format => "Default Format  [Enter to cycle: mp4 / webm / audio-only]",
        SettingRow::DownloadPath => "Download Path  [Enter to open Yazi folder picker]",
        SettingRow::LogLevel => "Log Level  [Enter to cycle: info / debug / warn / error]",
        SettingRow::AutoPlay => "Auto-play next  [Enter to toggle]",
        SettingRow::LoopPlayback => "Loop playback  [Enter to toggle]",
    }
}

/// The text an on/off row shows.
pub fn on_off(b: bool) -> (r: &'static str)
    ensures
        b ==> r@ == "on"@,
        !b ==> r@ == "off"@,
{
    if b {
        "on"
    } else {
        "off"
    }
}

/// The value a row shows: the setting as text, `on` or `off` for the
/// switches.
pub open spec fn value_text(row: SettingRow, s: Settings) -> Seq<char> {
    match row {
        SettingRow::ApiInvidious => s.api_instance_invidious@,
        SettingRow::ApiPiped => s.api_instance_piped@,
        SettingRow::Player => s.player@,
        SettingRow::Quality => s.default_quality@,
        SettingRow::Format => s.default_format@,
        SettingRow::DownloadPath => s.download_path@,
        SettingRow::LogLevel => s.log_level@,
        SettingRow::AutoPlay => if s.auto_play {
            "on"@
        } else {
            "off"@
        },
        SettingRow::LoopPlayback => if s.loop_playback {
            "on"@
        } else {
            "off"@
        },
    }
}

/// The value the row `row` shows (see `value_text`).
pub fn row_value(row: SettingRow, app: &App) -> (r: String)
    ensures
        r@ == value_text(row, app.settings),
{
    let s = &app.settings;
    match row {
        SettingRow::ApiInvidious => s.api_instance_invidious.clone(),
        SettingRow::ApiPiped => s.api_instance_piped.clone(),
        SettingRow::Player => s.player.clone(),
        SettingRow::Quality => s.default_quality.clone(),
        SettingRow::Format => s.default_format.clone(),
        SettingRow::DownloadPath => s.download_path.clone(),
        SettingRow::LogLevel => s.log_level.clone(),
        SettingRow::AutoPlay => owned(on_off(s.auto_play)),
        SettingRow::LoopPlayback => owned(on_off(s.loop_playback)),
    }
}


pub open spec fn player_options() -> Seq<Seq<char>> {
    seq!["mpv"@, "vlc"@, "mplayer"@, "ffplay"@]
}

pub open spec fn quality_options() -> Seq<Seq<char>> {
    seq!["1080"@, "720"@, "480"@, "360"@, "240"@]
}

pub open spec fn format_options() -> Seq<Seq<char>> {
    seq!["mp4"@, "webm"@, "mkv"@, "mp3"@]
}

pub open spec fn log_level_options() -> Seq<Seq<char>> {
    seq!["info"@, "debug"@, "warn"@, "error"@]
}

/// `i` is the first option equal to `cur`.
pub open spec fn first_option(opts: Seq<Seq<char>>, cur: Seq<char>, i: int) -> bool {
    0 <= i < opts.len() && opts[i] == cur && forall|j: int| 0 <= j < i ==> opts[j] != cur
}

/// The option after `cur` (after the first one when `cur` is none of them),
/// wrapping around.
pub open spec fn next_option(opts: Seq<Seq<char>>, cur: Seq<char>) -> Seq<char> {
    let i = if exists|i: int| first_option(opts, cur, i) {
        choose|i: int| first_option(opts, cur, i)
    } else {
        0
    };
    opts[(i + 1) % (opts.len() as int)]
}

pub open spec fn strs(v: Seq<&'static str>) -> Seq<Seq<char>> {
    v.map_values(|s: &'static str| s@)
}

/// The option after `current` in `options` (see `next_option`).
pub fn cycle_option(options: &Vec<&'static str>, current: &str) -> (r: &'static str)
    requires
        options@.len() > 0,
    ensures
        r@ == next_option(strs(options@), current@),
{
    let ghost opts = strs(options@);
    let mut i: usize = 0;
    while i < options.len()
        invariant
            opts == strs(options@),
            i <= options@.len(),
            forall|j: int| 0 <= j < i ==> opts[j] != current@,
        decreases options@.len() - i,
    {
        if str_eq(options[i], current) {
            proof {
                assert(first_option(opts, current@, i as int));
                let k = choose|k: int| first_option(opts, current@, k);
                if k < i {
                    assert(opts[k] != current@);
                } else if k > i {
                    assert(opts[i as int] != current@);
                }
            }
            return options[(i + 1) % options.len()];
        }
        i = i + 1;
    }
    assert(!exists|k: int| first_option(opts, current@, k));
    options[1 % options.len()]
}

/// `cur` after `n` changes of its row.
pub open spec fn cycled(opts: Seq<Seq<char>>, cur: Seq<char>, n: nat) -> Seq<char>
    decreases n,
{
    if n == 0 {
        cur
    } else {
        next_option(opts, cycled(opts, cur, (n - 1) as nat))
    }
}

/// No option is listed twice.
pub open spec fn distinct(opts: Seq<Seq<char>>) -> bool {
    forall|i: int, j: int| 0 <= i < opts.len() && 0 <= j < opts.len() && i != j ==> opts[i] != opts[j]
}

/// Among distinct options, the one after option `k` is option `k + 1`, and
/// the one after the last is the first.
pub proof fn law_next_option_steps(opts: Seq<Seq<char>>, k: int)
    requires
        distinct(opts),
        0 <= k < opts.len(),
    ensures
        next_option(opts, opts[k]) == opts[(k + 1) % (opts.len() as int)],
{
    assert forall|j: int| 0 <= j < k implies opts[j] != opts[k] by {}
    assert(first_option(opts, opts[k], k));
    let c = choose|c: int| first_option(opts, opts[k], c);
    if c != k {
        assert(opts[c] == opts[k]);
    }
}

/// Changing a row as many times as it has options brings it back where it
/// was: from option `k`, the `n`-th change reaches option `(k + n) % len`.
pub proof fn law_cycle_goes_round(opts: Seq<Seq<char>>, k: int, n: nat)
    requires
        distinct(opts),
        0 <= k < opts.len(),
    ensures
        cycled(opts, opts[k], n) == opts[(k + n) % (opts.len() as int)],
        cycled(opts, opts[k], opts.len()) == opts[k],
{
    law_cycle_reaches(opts, k, n);
    law_cycle_reaches(opts, k, opts.len());
    let len = opts.len() as int;
    assert((k + len) % len == k) by (nonlinear_arith)
        requires
            0 <= k < len,
    ;
}

proof fn law_cycle_reaches(opts: Seq<Seq<char>>, k: int, n: nat)
    requires
        distinct(opts),
        0 <= k < opts.len(),
    ensures
        cycled(opts, opts[k], n) == opts[(k + n) % (opts.len() as int)],
    decreases n,
{
    let len = opts.len() as int;
    if n > 0 {
        law_cycle_reaches(opts, k, (n - 1) as nat);
        let m = (k + n - 1) % len;
        assert(0 <= m < len) by (nonlinear_arith)
            requires
                len > 0,
                m == (k + n - 1) % len,
        ;
        law_next_option_steps(opts, m);
        assert((m + 1) % len == (k + n) % len) by (nonlinear_arith)
            requires
                len > 0,
                m == (k + n - 1) % len,
        ;
    } else {
        assert(k % len == k) by (nonlinear_arith)
            requires
                0 <= k < len,
        ;
    }
}

/// The options of the rows are distinct.
pub proof fn lemma_options_distinct()
    ensures
        distinct(player_options()),
        distinct(quality_options()),
        distinct(format_options()),
        distinct(log_level_options()),
{
    reveal_strlit("mpv");
    reveal_strlit("vlc");
    reveal_strlit("mplayer");
    reveal_strlit("ffplay");
    reveal_strlit("1080");
    reveal_strlit("720");
    reveal_strlit("480");
    reveal_strlit("360");
    reveal_strlit("240");
    reveal_strlit("mp4");
    reveal_strlit("webm");
    reveal_strlit("mkv");
    reveal_strlit("mp3");
    reveal_strlit("info");
    reveal_strlit("debug");
    reveal_strlit("warn");
    reveal_strlit("error");
    let p = player_options();
    assert forall|i: int, j: int| 0 <= i < p.len() && 0 <= j < p.len() && i != j implies p[i] != p[j] by {
        assert(p[i][0] != p[j][0] || p[i].len() != p[j].len() || p[i][1] != p[j][1]);
    }
    let q = quality_options();
    assert forall|i: int, j: int| 0 <= i < q.len() && 0 <= j < q.len() && i != j implies q[i] != q[j] by {
        assert(q[i].len() != q[j].len() || q[i][0] != q[j][0]);
    }
    let f = format_options();
    assert forall|i: int, j: int| 0 <= i < f.len() && 0 <= j < f.len() && i != j implies f[i] != f[j] by {
        assert(f[i].len() != f[j].len() || f[i][1] != f[j][1] || f[i][2] != f[j][2]);
    }
    let l = log_level_options();
    assert forall|i: int, j: int| 0 <= i < l.len() && 0 <= j < l.len() && i != j implies l[i] != l[j] by {
        assert(l[i].len() != l[j].len() || l[i][0] != l[j][0]);
    }
}

/// What else changing a row asks for, beyond the new settings.
pub enum SettingEffect {
    Nothing,
    /// Build the player of this name.
    RecreatePlayer(String),
    /// Auto-play is now on or off.
    SetAutoplay(bool),
    /// Open the folder picker for the download path.
    PickDownloadPath,
}

pub fn player_option_list() -> (r: Vec<&'static str>)
    ensures
        r@.len() == 4,
        strs(r@) == player_options(),
{
    let r = vec!["mpv", "vlc", "mplayer", "ffplay"];
    assert(strs(r@) =~= player_options());
    r
}

pub fn quality_option_list() -> (r: Vec<&'static str>)
    ensures
        r@.len() == 5,
        strs(r@) == quality_options(),
{
    let r = vec!["1080", "720", "480", "360", "240"];
    assert(strs(r@) =~= quality_options());
    r
}

pub fn format_option_list() -> (r: Vec<&'static str>)
    ensures
        r@.len() == 4,
        strs(r@) == format_options(),
{
    let r = vec!["mp4", "webm", "mkv", "mp3"];
    assert(strs(r@) =~= format_options());
    r
}

pub fn log_level_option_list() -> (r: Vec<&'static str>)
    ensures
        r@.len() == 4,
        strs(r@) == log_level_options(),
{
    let r = vec!["info", "debug", "warn", "error"];
    assert(strs(r@) =~= log_level_options());
    r
}

/// The settings after `row` is changed: the player, quality, format and
/// log level move to their next option; auto-play and looping are
/// toggled; the instances are left as they are; the download path is
/// chosen in the folder picker.
#[verifier::opaque]
pub open spec fn changed(old: Settings, new: Settings, row: SettingRow) -> bool {
    match row {
        SettingRow::Player => new == Settings { player: new.player, ..old } && new.player@
            == next_option(player_options(), old.player@),
        SettingRow::Quality => new == Settings { default_quality: new.default_quality, ..old }
            && new.default_quality@ == next_option(quality_options(), old.default_quality@),
        SettingRow::Format => new == Settings { default_format: new.default_format, ..old }
            && new.default_format@ == next_option(format_options(), old.default_format@),
        SettingRow::LogLevel => new == Settings { log_level: new.log_level, ..old } && new.log_level@
            == next_option(log_level_options(), old.log_level@),
        SettingRow::AutoPlay => new == Settings { auto_play: !old.auto_play, ..old },
        SettingRow::LoopPlayback => new == Settings { loop_playback: !old.loop_playback, ..old },
        _ => new == old,
    }
}

/// Changes the setting of `row` (see `changed`) and says what else the
/// change asks for.
pub fn cycle_setting(settings: &mut Settings, row: SettingRow) -> (r: SettingEffect)
    ensures
        changed(*old(settings), *final(settings), row),
        row is Player ==> (r matches SettingEffect::RecreatePlayer(p) && p@ == final(settings).player@),
        row is AutoPlay ==> r == SettingEffect::SetAutoplay(final(settings).auto_play),
        row is DownloadPath ==> r is PickDownloadPath,
        !(row is Player || row is AutoPlay || row is DownloadPath) ==> r is Nothing,
{
    proof {
        reveal(changed);
    }
    match row {
        SettingRow::Player => {
            let opts = player_option_list();
            let next = cycle_option(&opts, settings.player.as_str());
            settings.player = owned(next);
            SettingEffect::RecreatePlayer(owned(next))
        },
        SettingRow::Quality => {
            let opts = quality_option_list();
            let next = cycle_option(&opts, settings.default_quality.as_str());
            settings.default_quality = owned(next);
            SettingEffect::Nothing
        },
        SettingRow::Format => {
            let opts = format_option_list();
            let next = cycle_option(&opts, settings.default_format.as_str());
            settings.default_format = owned(next);
            SettingEffect::Nothing
        },
        SettingRow::LogLevel => {
            let opts = log_level_option_list();
            let next = cycle_option(&opts, settings.log_level.as_str());
            settings.log_level = owned(next);
            SettingEffect::Nothing
        },
        SettingRow::AutoPlay => {
            settings.auto_play = !settings.auto_play;
            SettingEffect::SetAutoplay(settings.auto_play)
        },
        SettingRow::LoopPlayback => {
            settings.loop_playback = !settings.loop_playback;
            SettingEffect::Nothing
        },
        SettingRow::DownloadPath => SettingEffect::PickDownloadPath,
        _ => SettingEffect::Nothing,
    }
}


/// The options a cycled row moves through (empty for the other rows).
pub open spec fn row_options(row: SettingRow) -> Seq<Seq<char>> {
    match row {
        SettingRow::Player => player_options(),
        SettingRow::Quality => quality_options(),
        SettingRow::Format => format_options(),
        SettingRow::LogLevel => log_level_options(),
        _ => Seq::empty(),
    }
}

/// The value a cycled row shows.
pub open spec fn row_text(s: Settings, row: SettingRow) -> Seq<char> {
    match row {
        SettingRow::Player => s.player@,
        SettingRow::Quality => s.default_quality@,
        SettingRow::Format => s.default_format@,
        SettingRow::LogLevel => s.log_level@,
        _ => Seq::empty(),
    }
}

/// `b` is `a` but for the setting that `row` changes.
pub open spec fn same_but_row(a: Settings, b: Settings, row: SettingRow) -> bool {
    match row {
        SettingRow::Player => b == Settings { player: b.player, ..a },
        SettingRow::Quality => b == Settings { default_quality: b.default_quality, ..a },
        SettingRow::Format => b == Settings { default_format: b.default_format, ..a },
        SettingRow::LogLevel => b == Settings { log_level: b.log_level, ..a },
        _ => b == a,
    }
}

pub open spec fn is_cycled_row(row: SettingRow) -> bool {
    row is Player || row is Quality || row is Format || row is LogLevel
}

proof fn lemma_changes_follow_cycle(ss: Seq<Settings>, row: SettingRow, n: nat)
    requires
        is_cycled_row(row),
        n < ss.len(),
        forall|i: int| 0 <= i < ss.len() - 1 ==> changed(#[trigger] ss[i], ss[i + 1], row),
    ensures
        row_text(ss[n as int], row) == cycled(row_options(row), row_text(ss[0], row), n),
        same_but_row(ss[0], ss[n as int], row),
    decreases n,
{
    if n > 0 {
        lemma_changes_follow_cycle(ss, row, (n - 1) as nat);
        assert(changed(ss[n - 1], ss[n as int], row));
        reveal(changed);
    }
}

/// Changing a player, quality, format or log-level row as many times as
/// it has options brings it back to its value, every other setting
/// unchanged; changing auto-play or looping twice gives back the
/// settings as they were.
pub proof fn law_row_comes_back(ss: Seq<Settings>, row: SettingRow)
    requires
        ss.len() > 0,
        forall|i: int| 0 <= i < ss.len() - 1 ==> changed(#[trigger] ss[i], ss[i + 1], row),
        is_cycled_row(row) ==> ss.len() == row_options(row).len() + 1 && row_options(row).contains(
            row_text(ss[0], row),
        ),
        (row is AutoPlay || row is LoopPlayback) ==> ss.len() == 3,
    ensures
        is_cycled_row(row) ==> row_text(ss[ss.len() - 1], row) == row_text(ss[0], row) && same_but_row(
            ss[0],
            ss[ss.len() - 1],
            row,
        ),
        (row is AutoPlay || row is LoopPlayback) ==> ss[2] == ss[0],
{
    if is_cycled_row(row) {
        let opts = row_options(row);
        lemma_options_distinct();
        lemma_changes_follow_cycle(ss, row, (ss.len() - 1) as nat);
        let k = choose|k: int| 0 <= k < opts.len() && opts[k] == row_text(ss[0], row);
        law_cycle_goes_round(opts, k, opts.len());
    } else if row is AutoPlay || row is LoopPlayback {
        assert(changed(ss[0], ss[1], row));
        assert(changed(ss[1], ss[2], row));
        reveal(changed);
    }
}

} // verus!
