use pilipili_bot::infrastructure::logger::internal_logger::{InternalLogger, LogRecord};
use pilipili_bot::infrastructure::logger::logger::{Logger, MAX_LOG_COUNT, MAX_LOG_SIZE};
use pilipili_bot::infrastructure::logger::{
    LogColor, LogDisplayOptions, LogFormat, LogLevel, LogRotation, LogWriter, LoggerBuilder,
};

const LEVELS: [LogLevel; 6] = [
    LogLevel::Off,
    LogLevel::Error,
    LogLevel::Warn,
    LogLevel::Info,
    LogLevel::Debug,
    LogLevel::Trace,
];

fn plain(level: LogLevel, directory: Option<&str>) -> InternalLogger {
    InternalLogger::new(level, true, directory.map(|d| d.to_string()), 100, 2, None)
}

#[test]
fn test_log() {
    let builder =
        LoggerBuilder::default().with_level(LogLevel::Debug).with_rolling(LogRotation::Daily);
    assert_eq!(builder.level(), LogLevel::Debug);
    assert_eq!(builder.rolling(), LogRotation::Daily);
    assert_eq!(builder.filter_directive(), "Debug");
}

#[test]
fn levels_have_names_and_labels() {
    let names = ["Off", "Error", "Warn", "Info", "Debug", "Trace"];
    let labels = ["OFF", "ERROR", "WARN", "INFO", "DEBUG", "TRACE"];
    for (index, level) in LEVELS.iter().enumerate() {
        assert_eq!(level.to_string(), names[index]);
        assert_eq!(level.as_label(), labels[index]);
        assert_eq!(level.severity() as usize, index);
    }
}

#[test]
fn levels_have_colours() {
    assert_eq!(LogLevel::Debug.color(), LogColor::Blue);
    assert_eq!(LogLevel::Trace.color(), LogColor::Blue);
    assert_eq!(LogLevel::Info.color(), LogColor::Green);
    assert_eq!(LogLevel::Warn.color(), LogColor::Yellow);
    assert_eq!(LogLevel::Error.color(), LogColor::Red);
    assert_eq!(LogLevel::Off.color(), LogColor::Red);
}

#[test]
fn a_message_passes_unless_its_level_comes_before_the_threshold() {
    for (m, message) in LEVELS.iter().enumerate() {
        for (t, threshold) in LEVELS.iter().enumerate() {
            assert_eq!(message.is_enabled_at(*threshold), m >= t);
            assert_eq!(message.is_enabled_at(*threshold), !(message < threshold));
        }
    }
    assert!(!LogLevel::Error.is_enabled_at(LogLevel::Info));
    assert!(!LogLevel::Warn.is_enabled_at(LogLevel::Info));
    assert!(LogLevel::Info.is_enabled_at(LogLevel::Info));
    assert!(LogLevel::Debug.is_enabled_at(LogLevel::Info));
    assert!(LogLevel::Trace.is_enabled_at(LogLevel::Info));
    assert!(LogLevel::Error.is_enabled_at(LogLevel::Off));
    assert!(LogLevel::Off.is_enabled_at(LogLevel::Off));
    assert!(!LogLevel::Off.is_enabled_at(LogLevel::Error));
    assert!(!LogLevel::Debug.is_enabled_at(LogLevel::Trace));
}

#[test]
fn the_builder_starts_with_the_standard_options() {
    let builder = LoggerBuilder::default();
    assert_eq!(builder.level(), LogLevel::Info);
    assert_eq!(builder.writer(), LogWriter::File);
    assert_eq!(builder.directory(), "./logs");
    assert_eq!(builder.file_prefix(), "");
    assert_eq!(builder.rolling(), LogRotation::Daily);
    assert_eq!(builder.format(), LogFormat::Compact);
    assert_eq!(builder.display_options(), LogDisplayOptions::default());
    assert_eq!(
        LogDisplayOptions::default(),
        LogDisplayOptions {
            level: true,
            target: true,
            thread_ids: false,
            thread_names: false,
            source_location: false,
        }
    );
    assert_eq!(builder.filter_directive(), "Info");
    assert!(!builder.uses_ansi());
}

#[test]
fn each_option_is_set_alone() {
    let options = LogDisplayOptions {
        level: false,
        target: false,
        thread_ids: true,
        thread_names: true,
        source_location: true,
    };
    let builder = LoggerBuilder::default()
        .with_level(LogLevel::Trace)
        .with_writer(LogWriter::Console)
        .with_directory("/var/log/bot")
        .with_file_prefix("bot")
        .with_rolling(LogRotation::Hourly)
        .with_format(LogFormat::Json)
        .with_display_options(options);
    assert_eq!(builder.level(), LogLevel::Trace);
    assert_eq!(builder.writer(), LogWriter::Console);
    assert_eq!(builder.directory(), "/var/log/bot");
    assert_eq!(builder.file_prefix(), "bot");
    assert_eq!(builder.rolling(), LogRotation::Hourly);
    assert_eq!(builder.format(), LogFormat::Json);
    assert_eq!(builder.display_options(), options);
    assert_eq!(builder.filter_directive(), "Trace");
    assert!(builder.uses_ansi());

    let one = LoggerBuilder::default().with_directory("elsewhere");
    assert_eq!(one.directory(), "elsewhere");
    assert_eq!(one.level(), LogLevel::Info);
    assert_eq!(one.file_prefix(), "");
    assert_eq!(one.format(), LogFormat::Compact);
    let last = LoggerBuilder::default().with_level(LogLevel::Warn).with_level(LogLevel::Error);
    assert_eq!(last.level(), LogLevel::Error);
}

#[test]
fn the_logger_starts_enabled_at_info() {
    let logger = Logger::new();
    assert_eq!(logger.log_level(), LogLevel::Info);
    assert!(logger.state().is_enabled());
    assert_eq!(logger.state().log_dir(), Some(&"logs".to_string()));
    assert_eq!(logger.state().max_log_size(), 10 * 1024 * 1024);
    assert_eq!(logger.state().max_log_count(), 3);
    assert_eq!(MAX_LOG_SIZE, 10_485_760);
    assert_eq!(MAX_LOG_COUNT, 3);
}

#[test]
fn messages_are_written_under_their_domain() {
    let mut logger = Logger::new();
    let record = logger.info("[DATABASE]".to_string(), "connected").unwrap();
    assert_eq!(
        record,
        LogRecord {
            level: LogLevel::Info,
            domain: "[DATABASE]".to_string(),
            message: "connected".to_string(),
            to_file: true,
        }
    );
    assert_eq!(record.line("2024-03-09 10:11:12"), "2024-03-09 10:11:12 [INFO] [DATABASE] - connected");
    logger.set_log_level(LogLevel::Error);
    let warn = logger.warn(String::new(), "careful").unwrap();
    assert_eq!(warn.domain, "LOGGER");
    assert_eq!(warn.level, LogLevel::Warn);
    assert_eq!(warn.line("t"), "t [WARN] LOGGER - careful");
    let error = logger.error("net".to_string(), "").unwrap();
    assert_eq!(error.line(""), " [ERROR] net - ");
}

#[test]
fn the_level_decides_what_is_written() {
    let mut logger = Logger::new();
    assert_eq!(logger.debug("d".to_string(), "shown").unwrap().level, LogLevel::Debug);
    assert!(logger.info("d".to_string(), "shown").is_some());
    assert!(logger.warn("d".to_string(), "hidden").is_none());
    assert!(logger.error("d".to_string(), "hidden").is_none());
    logger.set_log_level(LogLevel::Debug);
    assert_eq!(logger.log_level(), LogLevel::Debug);
    assert!(logger.debug("d".to_string(), "shown").is_some());
    assert!(logger.info("d".to_string(), "hidden").is_none());
    logger.set_log_level(LogLevel::Error);
    assert!(logger.debug("d".to_string(), "shown").is_some());
    assert!(logger.warn("d".to_string(), "shown").is_some());
    assert!(logger.error("d".to_string(), "shown").is_some());
    assert!(logger.log(LogLevel::Off, "d".to_string(), "hidden").is_none());
    logger.set_log_level(LogLevel::Off);
    assert!(logger.error("d".to_string(), "shown").is_some());
    assert!(logger.log(LogLevel::Trace, "d".to_string(), "shown").is_some());
    assert!(logger.log(LogLevel::Off, "d".to_string(), "shown").is_some());
    logger.set_log_level(LogLevel::Trace);
    assert!(logger.log(LogLevel::Trace, "d".to_string(), "shown").is_some());
    assert!(logger.debug("d".to_string(), "hidden").is_none());
    assert!(logger.error("d".to_string(), "hidden").is_none());
}

#[test]
fn a_disabled_logger_writes_nothing() {
    let mut logger = Logger::new();
    logger.set_log_enabled(false);
    assert!(logger.info("d".to_string(), "hidden").is_none());
    assert!(logger.debug("d".to_string(), "hidden").is_none());
    assert!(!logger.state().is_enabled());
    assert_eq!(logger.log_level(), LogLevel::Info);
    logger.set_log_enabled(true);
    assert!(logger.info("d".to_string(), "shown").is_some());
}

#[test]
fn the_state_keeps_what_was_set() {
    let mut state = InternalLogger::new(
        LogLevel::Warn,
        false,
        Some("dir".to_string()),
        5,
        7,
        Some("core".to_string()),
    );
    assert_eq!(state.log_level(), LogLevel::Warn);
    assert!(!state.is_enabled());
    assert_eq!(state.log_dir(), Some(&"dir".to_string()));
    assert_eq!(state.max_log_size(), 5);
    assert_eq!(state.max_log_count(), 7);
    assert!(state.log(LogLevel::Warn, "off").is_none());
    state.set_enabled(true);
    assert_eq!(state.log(LogLevel::Warn, "on").unwrap().domain, "core");
    assert!(state.log(LogLevel::Error, "before the level").is_none());
    assert_eq!(state.log_level(), LogLevel::Warn);
    assert!(state.is_enabled());
    state.set_level(LogLevel::Trace);
    assert!(state.log(LogLevel::Debug, "before the level").is_none());
    state.set_level(LogLevel::Info);
    state.set_domain("other".to_string());
    assert_eq!(state.log(LogLevel::Info, "m").unwrap().domain, "other");
    assert_eq!(plain(LogLevel::Info, None).log(LogLevel::Info, "m").unwrap().domain, "Logger");
}

#[test]
fn only_a_named_directory_gets_a_file() {
    assert!(plain(LogLevel::Info, Some("logs")).log(LogLevel::Info, "m").unwrap().to_file);
    assert!(!plain(LogLevel::Info, Some("")).log(LogLevel::Info, "m").unwrap().to_file);
    assert!(!plain(LogLevel::Info, None).log(LogLevel::Info, "m").unwrap().to_file);
}

#[test]
fn the_log_rotates_beyond_its_size() {
    let mut logger = plain(LogLevel::Info, Some("logs"));
    assert!(!logger.rotate_logs(None));
    assert!(!logger.rotate_logs(Some(0)));
    assert!(!logger.rotate_logs(Some(100)));
    assert_eq!(logger.log_dir(), Some(&"logs".to_string()));
    assert!(logger.rotate_logs(Some(101)));
    assert_eq!(logger.log_dir(), None);
    assert!(!logger.rotate_logs(Some(u64::MAX)));
    let mut without = plain(LogLevel::Info, None);
    assert!(!without.rotate_logs(Some(u64::MAX)));

    let mut application = Logger::new();
    assert!(!application.rotate_logs(Some(MAX_LOG_SIZE)));
    assert!(application.rotate_logs(Some(MAX_LOG_SIZE + 1)));
    assert_eq!(application.state().log_dir(), None);
}

#[test]
fn the_file_is_opened_when_the_path_changes() {
    let mut logger = plain(LogLevel::Info, Some("logs"));
    assert!(logger.init_log_file("logs/2024-03-09.log"));
    logger.log_file_opened("logs/2024-03-09.log".to_string());
    assert!(!logger.init_log_file("logs/2024-03-09.log"));
    assert!(logger.init_log_file("logs/2024-03-10.log"));
    assert!(!plain(LogLevel::Info, None).init_log_file("logs/2024-03-09.log"));
}

#[test]
fn log_files_are_named_after_the_day() {
    assert_eq!(InternalLogger::log_file_name("2024-03-09"), "2024-03-09.log");
    assert_eq!(InternalLogger::rotated_file_name("2024-03-09"), "2024-03-09.log.old");
    assert!(InternalLogger::is_log_file("2024-03-09.log"));
    assert!(!InternalLogger::is_log_file("2024-03-09.log.old"));
    assert!(!InternalLogger::is_log_file(".log"));
    assert!(!InternalLogger::is_log_file("log"));
}

#[test]
fn the_oldest_logs_are_deleted_first() {
    let entry = |name: &str, modified: u64| (name.to_string(), modified);
    let logger = plain(LogLevel::Info, Some("logs"));
    let entries = vec![
        entry("c.log", 30),
        entry("notes.txt", 1),
        entry("a.log", 10),
        entry("d.log", 40),
        entry("b.log", 20),
        entry("a.log.old", 5),
    ];
    assert_eq!(logger.cleanup_old_logs(&entries), vec!["a.log".to_string(), "b.log".to_string()]);
    let ties = vec![entry("x.log", 7), entry("y.log", 7), entry("z.log", 7), entry("w.log", 6)];
    assert_eq!(logger.cleanup_old_logs(&ties), vec!["w.log".to_string(), "x.log".to_string()]);
    let few = vec![entry("a.log", 2), entry("b.log", 1)];
    assert!(logger.cleanup_old_logs(&few).is_empty());
    assert!(logger.cleanup_old_logs(&Vec::new()).is_empty());
    assert!(plain(LogLevel::Info, None).cleanup_old_logs(&entries).is_empty());
    let none_kept = InternalLogger::new(LogLevel::Info, true, Some("d".to_string()), 1, 0, None);
    assert_eq!(
        none_kept.cleanup_old_logs(&entries),
        vec!["a.log".to_string(), "b.log".to_string(), "c.log".to_string(), "d.log".to_string()]
    );
}

#[test]
fn cleanup_agrees_with_a_stable_sort() {
    let logger = plain(LogLevel::Info, Some("logs"));
    let mut seed: u64 = 42;
    for round in 0..50 {
        let mut entries = Vec::new();
        for index in 0..(round % 9) {
            seed = seed.wrapping_mul(6_364_136_223_846_793_005).wrapping_add(1_442_695_040_888_963_407);
            let name = if seed % 5 == 0 { format!("{}.txt", index) } else { format!("{}.log", index) };
            entries.push((name, (seed >> 33) % 4));
        }
        let mut sorted: Vec<(String, u64)> =
            entries.iter().filter(|(name, _)| name.ends_with(".log")).cloned().collect();
        sorted.sort_by(|a, b| a.1.cmp(&b.1));
        let excess = sorted.len().saturating_sub(2);
        let expected: Vec<String> = sorted.into_iter().take(excess).map(|(name, _)| name).collect();
        assert_eq!(logger.cleanup_old_logs(&entries), expected);
    }
}
