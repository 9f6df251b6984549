//! The logging set-up: which filter applies and where the log goes. The
//! subscriber itself is installed by the application.
use vstd::prelude::*;
use crate::text::{concat, join, join_path, owned};

verus! {

pub struct LoggerConfig {
    pub is_dev: bool,
    pub to_terminal: bool,
    pub log_level: String,
}

/// Where log lines are written.
pub struct LogSinks {
    pub file: bool,
    pub stderr: bool,
}

impl LoggerConfig {
    /// The filter used when the environment names none: everything at
    /// debug level in a development run, the configured level otherwise.
    pub fn default_filter(&self) -> (r: String)
        ensures
            self.is_dev ==> r@ == "debug,youtui_rs=debug"@,
            !self.is_dev ==> r@ == self.log_level@,
    {
        if self.is_dev {
            owned("debug,youtui_rs=debug")
        } else {
            self.log_level.clone()
        }
    }

    /// Where the log goes: to a file when there is a log directory, and
    /// also to stderr when asked; without a directory, to stderr in a
    /// development run or when asked, else nowhere.
    pub fn sinks(&self, has_log_dir: bool) -> (r: LogSinks)
        ensures
            has_log_dir ==> r.file && r.stderr == self.to_terminal,
            !has_log_dir ==> !r.file && r.stderr == (self.to_terminal || self.is_dev),
    {
        if has_log_dir {
            LogSinks { file: true, stderr: self.to_terminal }
        } else {
            LogSinks { file: false, stderr: self.to_terminal || self.is_dev }
        }
    }
}

/// The directory of the log files, under the user's local data directory.
pub fn log_dir(data_local_dir: &str) -> (r: String)
    ensures
        r@ == join_path(join_path(data_local_dir@, "youtui-rs"@), "logs"@),
{
    let d = join(data_local_dir, "youtui-rs");
    join(d.as_str(), "logs")
}

/// The name of a log file started at `timestamp`.
pub fn log_filename(timestamp: &str) -> (r: String)
    ensures
        r@ == "youtui-rs-"@ + timestamp@ + ".log"@,
{
    let mut s = concat("youtui-rs-", timestamp);
    s.push_str(".log");
    s
}

} // verus!
