use lumalog::{
    compose_plain, compose_styled, display_time, file_failure_line, formatter, install, plan_log,
    should_log, style_level, style_time, Config, ConfigBuilder, FileLoggerBuilder,
    FileLoggerFormat, LogLevel,
};

const LEVELS: [LogLevel; 5] =
    [LogLevel::ERROR, LogLevel::WARN, LogLevel::INFO, LogLevel::DEBUG, LogLevel::TRACE];

// 2023-11-14T22:13:20.123+00:00
const NANOS_WITH_FRACTION: i64 = 1_700_000_000_123_000_000;

fn config_with(level: LogLevel, with_time: bool) -> Config {
    ConfigBuilder::new()
        .log_level(Some(level))
        .log_with_time(Some(with_time))
        .build()
        .unwrap()
}

#[test]
fn level_ordinals_follow_declaration_order() {
    let ordinals: Vec<u8> = LEVELS.iter().map(|l| l.ordinal()).collect();
    assert_eq!(ordinals, vec![0, 1, 2, 3, 4]);
    assert!(LogLevel::ERROR < LogLevel::WARN);
    assert!(LogLevel::DEBUG < LogLevel::TRACE);
    assert!(LogLevel::TRACE >= LogLevel::DEBUG);
    assert!(!(LogLevel::INFO > LogLevel::INFO));
    assert_eq!(LogLevel::WARN.name(), "WARN");
    assert_eq!(LogLevel::TRACE.name(), format!("{:?}", LogLevel::TRACE));
}

#[test]
fn file_logger_builder_defaults() {
    let b = FileLoggerBuilder::new();
    assert!(!b.enabled);
    assert!(b.path.is_none());
    assert_eq!(b.log_format, Some(FileLoggerFormat::TEXT));
    let f = b.build().unwrap();
    assert!(!f.enabled);
    assert_eq!(f.path, "log.txt");
    assert_eq!(f.log_format, FileLoggerFormat::TEXT);
}

#[test]
fn file_logger_builder_setters() {
    let mut b = FileLoggerBuilder::new()
        .path(String::from("out/app.log"))
        .log_format(FileLoggerFormat::JSON);
    b.enabled = true;
    b.log_format = None;
    let f = b.build().unwrap();
    assert!(f.enabled);
    assert_eq!(f.path, "out/app.log");
    assert_eq!(f.log_format, FileLoggerFormat::TEXT);
}

#[test]
fn config_builder_defaults() {
    let b = ConfigBuilder::new();
    assert_eq!(b.log_level, Some(LogLevel::INFO));
    assert!(!b.log_in_release);
    assert_eq!(b.log_with_time, Some(true));
    assert!(b.std);
    assert!(b.file_logger_config.is_none());
    let c = b.build().unwrap();
    assert_eq!(c.log_level, LogLevel::INFO);
    assert!(c.log_with_time);
    assert!(c.std);
    assert!(!c.file_logger_config.enabled);
    assert_eq!(c.file_logger_config.path, "log.txt");
}

#[test]
fn config_builder_resolves_missing_values() {
    let c = ConfigBuilder::new()
        .log_level(None)
        .log_with_time(None)
        .stdout(false)
        .file_logger_config(Some(FileLoggerBuilder::new().path(String::from("x.log"))))
        .build()
        .unwrap();
    assert_eq!(c.log_level, LogLevel::INFO);
    assert!(c.log_with_time);
    assert!(!c.std);
    assert_eq!(c.file_logger_config.path, "x.log");
}

#[test]
fn second_install_is_refused_and_first_stays() {
    let mut slot: Option<Config> = None;
    assert!(install(&mut slot, config_with(LogLevel::WARN, false)).is_ok());
    assert!(install(&mut slot, config_with(LogLevel::TRACE, true)).is_err());
    let kept = slot.unwrap();
    assert_eq!(kept.log_level, LogLevel::WARN);
    assert!(!kept.log_with_time);
}

#[test]
fn level_filter_all_pairs() {
    for a in LEVELS {
        for b in LEVELS {
            let c = config_with(b, false);
            assert_eq!(should_log(&c, a, true), a.ordinal() <= b.ordinal());
        }
    }
}

#[test]
fn release_build_drops_debug_and_trace() {
    let c = config_with(LogLevel::TRACE, false);
    assert!(!should_log(&c, LogLevel::DEBUG, false));
    assert!(!should_log(&c, LogLevel::TRACE, false));
    assert!(should_log(&c, LogLevel::INFO, false));
    let mut keep = config_with(LogLevel::TRACE, false);
    keep.log_in_release = true;
    assert!(should_log(&keep, LogLevel::TRACE, false));
}

#[test]
fn display_time_drops_fraction_and_swaps_separators() {
    assert_eq!(display_time("2024-01-02T03:04:05.678+00:00"), "2024/01/02 03:04:05");
    assert_eq!(display_time("2024-01-02T03:04:05+00:00"), "2024/01/02 03:04:05");
    assert_eq!(display_time(""), "");
}

#[test]
fn style_time_renders_utc_instant() {
    colored::control::set_override(false);
    let (styled, plain) = style_time(NANOS_WITH_FRACTION);
    assert_eq!(plain, " 2023/11/14 22:13:20 ");
    assert_eq!(styled, "2023/11/14 22:13:20");
    colored::control::set_override(true);
    let (styled, _) = style_time(NANOS_WITH_FRACTION);
    assert_eq!(styled, "\x1b[100m2023/11/14 22:13:20\x1b[0m");
}

#[test]
fn style_time_on_whole_second_has_no_offset() {
    colored::control::set_override(false);
    let (styled, plain) = style_time(1_700_000_000_000_000_000);
    assert_eq!(plain, " 2023/11/14 22:13:20 ");
    assert_eq!(styled, "2023/11/14 22:13:20");
}

#[test]
fn plain_line_has_no_escape_codes() {
    colored::control::set_override(true);
    let c = config_with(LogLevel::INFO, true);
    let (styled, plain) = formatter(&c, LogLevel::ERROR, "boom", 1_700_000_000_000_000_000);
    assert_eq!(plain, " 2023/11/14 22:13:20  ERROR boom");
    assert!(!plain.contains('\x1b'));
    assert!(styled.contains('\x1b'));
    assert!(styled.ends_with("boom"));
}

#[test]
fn style_level_colours() {
    colored::control::set_override(true);
    assert_eq!(style_level(LogLevel::INFO), "\x1b[47m INFO \x1b[0m");
    assert_eq!(style_level(LogLevel::WARN), "\x1b[103m WARN \x1b[0m");
    assert_eq!(style_level(LogLevel::ERROR), "\x1b[41m ERROR \x1b[0m");
    assert_eq!(style_level(LogLevel::DEBUG), "\x1b[46m DEBUG \x1b[0m");
    assert_eq!(style_level(LogLevel::TRACE), "\x1b[100m TRACE \x1b[0m");
    colored::control::set_override(false);
    assert_eq!(style_level(LogLevel::INFO), " INFO ");
}

#[test]
fn compose_lines() {
    assert_eq!(compose_plain(None, LogLevel::WARN, "disk low"), "WARN disk low");
    assert_eq!(compose_plain(Some(" T "), LogLevel::INFO, "m"), " T  INFO m");
    assert_eq!(compose_styled(None, "<L>", "m"), "<L> m");
    assert_eq!(compose_styled(Some("<T>"), "<L>", "m"), "<T> <L> m");
}

#[test]
fn formatter_without_time_has_no_timestamp() {
    colored::control::set_override(false);
    let c = config_with(LogLevel::INFO, false);
    let (styled, plain) = formatter(&c, LogLevel::INFO, "hello", NANOS_WITH_FRACTION);
    assert_eq!(plain, "INFO hello");
    assert_eq!(styled, " INFO  hello");
}

#[test]
fn formatter_with_time_starts_with_timestamp() {
    colored::control::set_override(false);
    let c = config_with(LogLevel::INFO, true);
    let (styled, plain) = formatter(&c, LogLevel::WARN, "hello", NANOS_WITH_FRACTION);
    assert_eq!(plain, " 2023/11/14 22:13:20  WARN hello");
    assert_eq!(styled, "2023/11/14 22:13:20  WARN  hello");
    let ts: Vec<char> = plain.chars().skip(1).take(19).collect();
    for (i, ch) in ts.iter().enumerate() {
        match i {
            4 | 7 => assert_eq!(*ch, '/'),
            10 => assert_eq!(*ch, ' '),
            13 | 16 => assert_eq!(*ch, ':'),
            _ => assert!(ch.is_ascii_digit()),
        }
    }
}

#[test]
fn formats_render_the_same_lines() {
    let mut json = config_with(LogLevel::INFO, true);
    json.file_logger_config.log_format = FileLoggerFormat::JSON;
    let text = config_with(LogLevel::INFO, true);
    assert_eq!(
        formatter(&json, LogLevel::INFO, "same", NANOS_WITH_FRACTION).1,
        formatter(&text, LogLevel::INFO, "same", NANOS_WITH_FRACTION).1
    );
}

#[test]
fn log_before_install_prints_notice() {
    let plan = plan_log(None, LogLevel::INFO, "hello", true, 0);
    assert_eq!(plan.console.unwrap(), "[ FATAL ] LumaLog: Config has not been initialized!");
    assert!(plan.file.is_none());
}

#[test]
fn warn_minimum_drops_info_and_prints_error() {
    colored::control::set_override(false);
    let c = ConfigBuilder::new()
        .log_level(Some(LogLevel::WARN))
        .stdout(true)
        .file_logger_config(Some(
            FileLoggerBuilder::new()
                .path(String::from("fresh.log"))
                .log_format(FileLoggerFormat::TEXT),
        ))
        .build()
        .unwrap();
    let info = plan_log(Some(&c), LogLevel::INFO, "hello", true, NANOS_WITH_FRACTION);
    assert!(info.console.is_none());
    assert!(info.file.is_none());
    let error = plan_log(Some(&c), LogLevel::ERROR, "boom", true, NANOS_WITH_FRACTION);
    let line = error.console.unwrap();
    assert!(line.contains("ERROR"));
    assert!(line.contains("boom"));
    assert!(error.file.is_none());
}

#[test]
fn enabled_file_sink_gets_plain_line() {
    let mut c = config_with(LogLevel::INFO, false);
    c.file_logger_config.enabled = true;
    c.std = false;
    let plan = plan_log(Some(&c), LogLevel::ERROR, "disk", true, 0);
    assert!(plan.console.is_none());
    assert_eq!(plan.file.unwrap(), "ERROR disk");
}

#[test]
fn file_failure_is_reported_as_error() {
    colored::control::set_override(false);
    let c = config_with(LogLevel::INFO, false);
    assert_eq!(
        file_failure_line(&c, "permission denied", 0),
        " ERROR  Can not save log information in file: permission denied"
    );
}
