//! The daily log file: its name, its lines, and when to change to a new
//! one.
//!
//! Reading the local time and opening and writing the file are left to the
//! embedding program. It hands in the day and the time as texts, asks here
//! what to do for each message, and reports how opening and writing went.

use crate::paths::joined_path;
use crate::paths::path_join;
use std::path::Path;
use std::path::PathBuf;
use vstd::prelude::*;

verus! {

/// Format of the date in the name of a log file: year, month, day.
pub const DATE_STAMP_FORMAT: &'static str = "%Y%m%d";

/// Format of the time at the head of a line: hours, minutes, seconds and
/// milliseconds.
pub const TIME_STAMP_FORMAT: &'static str = "%H:%M:%S%.3f";

/// The module under which the logger writes its own first line.
pub const LOGGER_MODULE: &'static str = "Logger";

/// The logger's own first line.
pub const LOGGER_READY: &'static str = "日志系统已初始化";

/// The name of the log file of the day `date`.
pub open spec fn log_file_name_of(date: Seq<char>) -> Seq<char> {
    "everything-ipc-"@ + date + ".log"@
}

/// One line of the log.
pub open spec fn log_line_of(timestamp: Seq<char>, module: Seq<char>, msg: Seq<char>) -> Seq<
    char,
> {
    "["@ + timestamp + "] ["@ + module + "] "@ + msg + "\n"@
}

/// The name of the log file of the day `date`.
pub fn log_file_name(date: &str) -> (name: String)
    ensures
        name@ == log_file_name_of(date@),
{
    let mut name = String::new();
    name.append("everything-ipc-");
    name.append(date);
    name.append(".log");
    name
}

/// One line of the log: the time and the module in brackets, the message,
/// and a line feed.
pub fn format_log_line(timestamp: &str, module: &str, msg: &str) -> (line: String)
    ensures
        line@ == log_line_of(timestamp@, module@, msg@),
{
    let mut line = String::new();
    line.append("[");
    line.append(timestamp);
    line.append("] [");
    line.append(module);
    line.append("] ");
    line.append(msg);
    line.append("\n");
    line
}

/// What is known of the log file: the day that it belongs to, its name, and
/// whether it is open.
#[derive(Debug, Clone)]
pub struct LogFileState {
    pub has_file: bool,
    pub file_name: String,
    pub date: String,
}

/// What to do for one message.
#[derive(Debug, Clone)]
pub struct LogPlan {
    /// The day has changed: close the file of the day before.
    pub rotated: bool,
    /// No file is open: open the one that the state names and report with
    /// `file_opened`; write only if that went well.
    pub open_first: bool,
    /// The line to write. If writing fails, report with `write_failed`.
    pub line: String,
}

impl LogFileState {
    /// The state after the day was found to be `today`: unchanged on the
    /// same day, else that of the new day with no file open.
    pub open spec fn on_day(self, today: Seq<char>) -> (bool, Seq<char>, Seq<char>) {
        if self.date@ == today {
            (self.has_file, self.file_name@, self.date@)
        } else {
            (false, log_file_name_of(today), today)
        }
    }

    /// The state as a triple: open or not, the file's name, the day.
    pub open spec fn parts(self) -> (bool, Seq<char>, Seq<char>) {
        (self.has_file, self.file_name@, self.date@)
    }

    /// Takes note of how opening the file went.
    pub fn file_opened(&mut self, opened: bool)
        ensures
            final(self).parts() == (opened, old(self).file_name@, old(self).date@),
    {
        self.has_file = opened;
    }

    /// Takes note that writing failed: the file counts as closed, and the
    /// next message opens it again.
    pub fn write_failed(&mut self)
        ensures
            final(self).parts() == (false, old(self).file_name@, old(self).date@),
    {
        self.has_file = false;
    }
}

/// The state for the day `today`, before its file is opened. `today` is the
/// local date in [`DATE_STAMP_FORMAT`].
pub fn get_log_file_state(today: String) -> (state: LogFileState)
    ensures
        state.parts() == (false, log_file_name_of(today@), today@),
{
    LogFileState { has_file: false, file_name: log_file_name(today.as_str()), date: today }
}

/// Changes to the file of `today` if the state belongs to another day, and
/// tells whether it did. After a change no file is open.
pub fn ensure_current_log_file(state: &mut LogFileState, today: String) -> (rotated: bool)
    ensures
        rotated == (old(state).date@ != today@),
        final(state).parts() == old(state).on_day(today@),
{
    if state.date == today {
        false
    } else {
        state.has_file = false;
        state.file_name = log_file_name(today.as_str());
        state.date = today;
        true
    }
}

/// What to do for the message `msg` of `module` on the day `today` at the
/// time `timestamp`, which is the local time in [`TIME_STAMP_FORMAT`].
pub fn write_log(
    state: &mut LogFileState,
    today: String,
    timestamp: &str,
    module: &str,
    msg: &str,
) -> (plan: LogPlan)
    ensures
        final(state).parts() == old(state).on_day(today@),
        plan.rotated == (old(state).date@ != today@),
        plan.open_first == !final(state).has_file,
        plan.line@ == log_line_of(timestamp@, module@, msg@),
{
    let rotated = ensure_current_log_file(state, today);
    LogPlan { rotated, open_first: !state.has_file, line: format_log_line(timestamp, module, msg) }
}

/// What to do for the logger's own first line.
pub fn init_log_file_early(state: &mut LogFileState, today: String, timestamp: &str) -> (plan:
    LogPlan)
    ensures
        final(state).parts() == old(state).on_day(today@),
        plan.rotated == (old(state).date@ != today@),
        plan.open_first == !final(state).has_file,
        plan.line@ == log_line_of(timestamp@, LOGGER_MODULE@, LOGGER_READY@),
{
    write_log(state, today, timestamp, LOGGER_MODULE, LOGGER_READY)
}

/// The log file that the state names, inside `log_dir`.
pub fn get_log_file_path(state: &LogFileState, log_dir: &Path) -> (file: Option<PathBuf>)
    ensures
        file == Some(joined_path(log_dir, state.file_name@)),
{
    Some(path_join(log_dir, state.file_name.as_str()))
}

} // verus!
