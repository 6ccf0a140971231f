use logger::error_msg::error_message;
use logger::filter::{record_enabled, ModuleFilter};
use logger::format::{
    color_logger_format, format_line, level_color, nocolor_logger_format, push_decimal, Color,
    LineFormat, LogRecord, Timestamp,
};
use logger::level::{Level, LevelFilter};
use logger::plan::{module_filters, plan_logger, plan_logger_with_filters};
use logger::rotation::{rotation_policy, Retention, RotationPolicy, Trigger, ROTATE_SIZE};
use logger::version::{get_version_info, render_json_object, render_version_info, version_info_to_log};

fn ts() -> Timestamp {
    Timestamp { year: 2024, month: 1, day: 2, hour: 3, minute: 4, second: 5, millis: 6 }
}

fn record(level: Level, module: Option<&str>, line: Option<u32>, msg: &str) -> LogRecord {
    LogRecord {
        level,
        module: module.map(|m| m.to_string()),
        line,
        message: msg.to_string(),
    }
}

#[test]
fn print_version() {
    println!("{}", get_version_info());
}

#[test]
fn version_info_is_four_string_members() {
    assert_eq!(
        get_version_info(),
        "{\"Branch\":\"Unknown\",\"Build date\":\"Unknown\",\"Commit date\":\"Unknown\",\"Commit id\":\"Unknown\"}"
    );
}

#[test]
fn version_info_escapes_values() {
    let s = render_version_info("2024-01-02", "2024-01-01 10:00:00", "ab\"c", "main\\x");
    assert_eq!(
        s,
        "{\"Branch\":\"main\\\\x\",\"Build date\":\"2024-01-02\",\"Commit date\":\"2024-01-01 10:00:00\",\"Commit id\":\"ab\\\"c\"}"
    );
}

#[test]
fn json_object_of_no_pairs() {
    assert_eq!(render_json_object(&vec![]), "{}");
    assert_eq!(
        render_json_object(&vec![("k".to_string(), "v".to_string())]),
        "{\"k\":\"v\"}"
    );
}

#[test]
fn version_info_logged_at_info() {
    let (level, text) = version_info_to_log();
    assert_eq!(level, Level::Info);
    assert_eq!(text, get_version_info());
}

#[test]
fn console_only_scenario() {
    let plan = plan_logger(LevelFilter::Info, None, false, None, false);
    assert!(plan.file_output.is_none());
    assert_eq!(plan.writer_format, LineFormat::Plain);
    assert_eq!(plan.file_format, LineFormat::Plain);
    let rec = record(Level::Info, Some("app::main"), Some(42), "started");
    let line = format_line(plan.writer_format, &ts(), &rec);
    assert_eq!(line, "[2024-01-02T03:04:05.006][INFO][app::main:42] started");
    assert!(plan.enabled(Level::Info, "app::main"));
    assert!(!plan.enabled(Level::Debug, "app::main"));
}

#[test]
fn module_filter_overrides_global() {
    let plan = plan_logger_with_filters(
        LevelFilter::Info,
        None,
        false,
        None,
        false,
        vec![("foo::bar".to_string(), LevelFilter::Warn)],
    );
    assert!(!plan.enabled(Level::Info, "foo::bar"));
    assert!(plan.enabled(Level::Warn, "foo::bar"));
    assert!(plan.enabled(Level::Info, "other"));
    assert!(!plan.enabled(Level::Info, "foo::bar::baz"));
    assert!(!plan.enabled(Level::Info, "foo::barbaz"));
    assert!(plan.enabled(Level::Error, "foo::bar"));
}

#[test]
fn longest_module_prefix_wins() {
    let fs = module_filters(
        LevelFilter::Error,
        &vec![
            ("foo".to_string(), LevelFilter::Trace),
            ("foo::bar".to_string(), LevelFilter::Off),
        ],
    );
    assert_eq!(fs.len(), 3);
    assert!(fs[0].module_name.is_none());
    assert_eq!(fs[1].module_name.as_deref(), Some("foo"));
    assert_eq!(fs[2].level_filter, LevelFilter::Off);
    assert!(record_enabled(&fs, Level::Trace, "foo::baz"));
    assert!(!record_enabled(&fs, Level::Error, "foo::bar::x"));
    assert!(!record_enabled(&fs, Level::Warn, "other"));
    assert!(record_enabled(&fs, Level::Error, "other"));
}

#[test]
fn no_filter_applies() {
    let fs = vec![ModuleFilter { module_name: Some("a".to_string()), level_filter: LevelFilter::Trace }];
    assert!(!record_enabled(&fs, Level::Error, "b"));
    assert!(record_enabled(&fs, Level::Trace, "a::b"));
}

#[test]
fn rotation_table() {
    assert_eq!(
        rotation_policy(true, Some(3)),
        RotationPolicy { trigger: Trigger::DailyOrSize(33554432), retention: Retention::KeepLogFiles(3) }
    );
    assert_eq!(
        rotation_policy(true, None),
        RotationPolicy { trigger: Trigger::DailyOrSize(ROTATE_SIZE), retention: Retention::Never }
    );
    assert_eq!(
        rotation_policy(false, Some(5)),
        RotationPolicy { trigger: Trigger::Size(ROTATE_SIZE), retention: Retention::KeepLogFiles(5) }
    );
    assert_eq!(
        rotation_policy(false, None),
        RotationPolicy { trigger: Trigger::Size(ROTATE_SIZE), retention: Retention::Never }
    );
    assert_eq!(ROTATE_SIZE, 32 * 1024 * 1024);
}

#[test]
fn file_output_keeps_three() {
    let plan = plan_logger(LevelFilter::Debug, Some("logs".to_string()), true, Some(3), true);
    let out = plan.file_output.expect("file output");
    assert_eq!(out.directory, "logs");
    assert_eq!(out.rotation.retention, Retention::KeepLogFiles(3));
    assert_eq!(out.rotation.trigger, Trigger::DailyOrSize(ROTATE_SIZE));
    assert_eq!(plan.writer_format, LineFormat::Colored);
    assert_eq!(plan.file_format, LineFormat::Plain);
}

#[test]
fn colored_console_plain_file() {
    let rec = record(Level::Info, Some("m"), Some(7), "hi");
    let colored = color_logger_format(&ts(), &rec);
    assert_eq!(colored, "[2024-01-02T03:04:05.006][\u{1b}[32mINFO\u{1b}[0m][m:7] hi");
    let plain = nocolor_logger_format(&ts(), &rec);
    assert!(!plain.contains('\u{1b}'));
    assert_eq!(plain, "[2024-01-02T03:04:05.006][INFO][m:7] hi");
}

#[test]
fn level_colors() {
    assert_eq!(level_color(Level::Error), Color::Red);
    assert_eq!(level_color(Level::Warn), Color::Yellow);
    assert_eq!(level_color(Level::Info), Color::Green);
    assert_eq!(level_color(Level::Debug), Color::Blue);
    assert_eq!(level_color(Level::Trace), Color::Magenta);
    let rec = record(Level::Error, None, None, "x");
    assert_eq!(
        color_logger_format(&ts(), &rec),
        "[2024-01-02T03:04:05.006][\u{1b}[31mERROR\u{1b}[0m][<unnamed>:] x"
    );
}

#[test]
fn missing_module_and_line() {
    let rec = record(Level::Trace, None, None, "");
    assert_eq!(nocolor_logger_format(&ts(), &rec), "[2024-01-02T03:04:05.006][TRACE][<unnamed>:] ");
}

#[test]
fn timestamp_padding() {
    let t = Timestamp { year: 987, month: 12, day: 31, hour: 23, minute: 59, second: 60, millis: 999 };
    assert_eq!(t.render(), "0987-12-31T23:59:60.999");
}

#[test]
fn decimal_digits() {
    let mut s = String::from("n=");
    push_decimal(&mut s, 0);
    push_decimal(&mut s, 4294967295);
    assert_eq!(s, "n=04294967295");
}

#[test]
fn level_names_and_thresholds() {
    assert_eq!(Level::Warn.as_str(), "WARN");
    assert_eq!(Level::Debug.as_str(), "DEBUG");
    assert!(LevelFilter::Info.accepts(Level::Warn));
    assert!(!LevelFilter::Info.accepts(Level::Debug));
    assert!(!LevelFilter::Off.accepts(Level::Error));
    assert!(LevelFilter::Trace.accepts(Level::Trace));
}

#[test]
fn located_error_text() {
    assert_eq!(error_message("src/a.rs", 12, "bad input"), "src/a.rs:12 error_msg: bad input");
}
