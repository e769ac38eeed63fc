use refast::logger::ensure_current_log_file;
use refast::logger::format_log_line;
use refast::logger::get_log_file_path;
use refast::logger::get_log_file_state;
use refast::logger::init_log_file_early;
use refast::logger::log_file_name;
use refast::logger::write_log;
use refast::logger::DATE_STAMP_FORMAT;
use refast::logger::TIME_STAMP_FORMAT;
use std::path::Path;
use std::path::PathBuf;

fn s(text: &str) -> String {
    text.to_string()
}

#[test]
fn log_file_is_named_by_its_day() {
    assert_eq!(log_file_name("20240131"), "everything-ipc-20240131.log");
    assert_eq!(log_file_name(""), "everything-ipc-.log");
}

#[test]
fn log_line_has_time_and_module_in_brackets() {
    assert_eq!(
        format_log_line("12:34:56.789", "Hotkey", "pressed"),
        "[12:34:56.789] [Hotkey] pressed\n"
    );
    assert_eq!(format_log_line("", "", ""), "[] [] \n");
}

#[test]
fn stamp_formats() {
    assert_eq!(DATE_STAMP_FORMAT, "%Y%m%d");
    assert_eq!(TIME_STAMP_FORMAT, "%H:%M:%S%.3f");
}

#[test]
fn state_for_a_day_has_no_file_yet() {
    let state = get_log_file_state(s("20240131"));
    assert!(!state.has_file);
    assert_eq!(state.file_name, "everything-ipc-20240131.log");
    assert_eq!(state.date, "20240131");
}

#[test]
fn same_day_keeps_the_file() {
    let mut state = get_log_file_state(s("20240131"));
    state.file_opened(true);
    assert!(!ensure_current_log_file(&mut state, s("20240131")));
    assert!(state.has_file);
    assert_eq!(state.file_name, "everything-ipc-20240131.log");
    assert_eq!(state.date, "20240131");
}

#[test]
fn new_day_changes_the_file() {
    let mut state = get_log_file_state(s("20240131"));
    state.file_opened(true);
    assert!(ensure_current_log_file(&mut state, s("20240201")));
    assert!(!state.has_file);
    assert_eq!(state.file_name, "everything-ipc-20240201.log");
    assert_eq!(state.date, "20240201");
}

#[test]
fn plan_asks_to_open_a_closed_file() {
    let mut state = get_log_file_state(s("20240131"));
    let plan = write_log(&mut state, s("20240131"), "10:00:00.000", "Logger", "hello");
    assert!(!plan.rotated);
    assert!(plan.open_first);
    assert_eq!(plan.line, "[10:00:00.000] [Logger] hello\n");
    state.file_opened(true);
    let plan = write_log(&mut state, s("20240131"), "10:00:01.000", "Logger", "again");
    assert!(!plan.rotated);
    assert!(!plan.open_first);
    assert_eq!(plan.line, "[10:00:01.000] [Logger] again\n");
    state.write_failed();
    assert!(!state.has_file);
    let plan = write_log(&mut state, s("20240131"), "10:00:02.000", "Logger", "once more");
    assert!(plan.open_first);
    state.file_opened(false);
    assert!(!state.has_file);
}

#[test]
fn plan_rotates_on_a_new_day() {
    let mut state = get_log_file_state(s("20240131"));
    state.file_opened(true);
    let plan = write_log(&mut state, s("20240201"), "00:00:00.001", "Hotkey", "x");
    assert!(plan.rotated);
    assert!(plan.open_first);
    assert_eq!(plan.line, "[00:00:00.001] [Hotkey] x\n");
    assert_eq!(state.file_name, "everything-ipc-20240201.log");
    assert_eq!(state.date, "20240201");
    assert!(!state.has_file);
}

#[test]
fn first_line_of_the_logger() {
    let mut state = get_log_file_state(s("19990101"));
    let plan = init_log_file_early(&mut state, s("19990102"), "08:15:00.250");
    assert!(plan.rotated);
    assert!(plan.open_first);
    assert_eq!(plan.line, "[08:15:00.250] [Logger] 日志系统已初始化\n");
    assert_eq!(state.date, "19990102");
    state.file_opened(true);
    let plan = init_log_file_early(&mut state, s("19990102"), "08:15:00.251");
    assert!(!plan.rotated);
    assert!(!plan.open_first);
}

#[test]
fn log_file_path_lies_in_the_log_directory() {
    let state = get_log_file_state(s("20240131"));
    assert_eq!(
        get_log_file_path(&state, Path::new("/var/log/app")),
        Some(PathBuf::from("/var/log/app").join("everything-ipc-20240131.log"))
    );
}
