//! The user's settings and where they are kept.
use vstd::prelude::*;
use crate::text::{join, join_path, owned};

verus! {

pub struct Settings {
    pub default_quality: String,
    pub default_format: String,
    pub download_path: String,
    pub player: String,
    pub api_instance_invidious: String,
    pub api_instance_piped: String,
    pub theme: String,
    pub auto_play: bool,
    pub log_level: String,
    pub loop_playback: bool,
}

/// The directory that holds a path (`Path::parent`), as text.
pub uninterp spec fn path_parent(path: Seq<char>) -> Option<Seq<char>>;

/// Calls `std::path::Path::parent`: the path without its last component,
/// or none for a root or an empty path. Its result depends on the text
/// alone and is named `path_parent`.
#[verifier::external_body]
pub(crate) fn parent_dir(path: &str) -> (r: Option<String>)
    ensures
        match r {
            Some(p) => path_parent(path@) == Some(p@),
            None => path_parent(path@) is None,
        },
{
    std::path::Path::new(path).parent().map(|p| p.to_string_lossy().into_owned())
}


impl Settings {
    /// The default settings, except for the download directory.
    pub open spec fn is_default_except_path(&self) -> bool {
        &&& self.default_quality@ == "720"@
        &&& self.default_format@ == "mp4"@
        &&& self.player@ == "mpv"@
        &&& self.api_instance_invidious@ == "https://invidious.snopyta.org"@
        &&& self.api_instance_piped@ == "https://pipedapi.kavin.rocks"@
        &&& self.theme@ == "dark"@
        &&& self.auto_play
        &&& self.log_level@ == "info"@
        &&& !self.loop_playback
    }

    /// The default settings, downloading into `video_dir`, or into the
    /// working directory when there is none.
    pub fn with_video_dir(video_dir: Option<String>) -> (r: Settings)
        ensures
            r.is_default_except_path(),
            video_dir matches Some(d) ==> r.download_path == d,
            video_dir is None ==> r.download_path@ == "."@,
    {
        Settings {
            default_quality: owned("720"),
            default_format: owned("mp4"),
            download_path: match video_dir {
                Some(d) => d,
                None => owned("."),
            },
            player: owned("mpv"),
            api_instance_invidious: owned("https://invidious.snopyta.org"),
            api_instance_piped: owned("https://pipedapi.kavin.rocks"),
            theme: owned("dark"),
            auto_play: true,
            log_level: owned("info"),
            loop_playback: false,
        }
    }

    /// The file the settings are kept in, under the user's configuration
    /// directory.
    pub fn config_path(config_dir: &str) -> (r: String)
        ensures
            r@ == join_path(join_path(config_dir@, "youtui-rs"@), "config.json"@),
    {
        let d = join(config_dir, "youtui-rs");
        join(d.as_str(), "config.json")
    }

    /// The directory the settings file is kept in.
    pub fn config_dir(config_dir: &str) -> (r: String)
        ensures
            r@ == join_path(config_dir@, "youtui-rs"@),
    {
        join(config_dir, "youtui-rs")
    }
}

/// Where the user left the selections, kept between runs.
pub struct AppState {
    pub last_sidebar_index: usize,
    pub last_content_index: usize,
    pub last_settings_index: usize,
}

impl AppState {
    pub fn new() -> (r: AppState)
        ensures
            r.last_sidebar_index == 0 && r.last_content_index == 0 && r.last_settings_index == 0,
    {
        AppState { last_sidebar_index: 0, last_content_index: 0, last_settings_index: 0 }
    }

    /// Keeps the selections that are made; an index with no selection keeps
    /// its earlier value.
    pub fn remember(&mut self, sidebar: Option<usize>, content: Option<usize>, settings: Option<usize>)
        ensures
            final(self).last_sidebar_index == match sidebar {
                Some(i) => i,
                None => old(self).last_sidebar_index,
            },
            final(self).last_content_index == match content {
                Some(i) => i,
                None => old(self).last_content_index,
            },
            final(self).last_settings_index == match settings {
                Some(i) => i,
                None => old(self).last_settings_index,
            },
    {
        if let Some(i) = sidebar {
            self.last_sidebar_index = i;
        }
        if let Some(i) = content {
            self.last_content_index = i;
        }
        if let Some(i) = settings {
            self.last_settings_index = i;
        }
    }
}

} // verus!
