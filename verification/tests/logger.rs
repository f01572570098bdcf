use deposits::logger::{log_entry, LogLevel, Logger};

fn is_timestamp(text: &str) -> bool {
    let bytes = text.as_bytes();
    bytes.len() == 19
        && bytes.iter().enumerate().all(|(i, b)| match i {
            4 | 7 => *b == b'-',
            10 => *b == b' ',
            13 | 16 => *b == b':',
            _ => b.is_ascii_digit(),
        })
}

fn check_entry(entry: &str, word: &str, message: &str) {
    let tail = format!("] [{}]: {}", word, message);
    assert!(entry.starts_with('['), "{}", entry);
    assert!(entry.ends_with(&tail), "{}", entry);
    let timestamp = &entry[1..entry.len() - tail.len()];
    assert!(is_timestamp(timestamp), "{}", entry);
}

#[test]
fn an_entry_reads_time_level_message() {
    assert_eq!(
        log_entry("2024-06-29 12:00:01", LogLevel::Info, "Starting Service"),
        "[2024-06-29 12:00:01] [INFO]: Starting Service"
    );
    assert_eq!(
        log_entry("2024-06-29 12:00:02", LogLevel::Warning, "slow"),
        "[2024-06-29 12:00:02] [WARNING]: slow"
    );
    assert_eq!(log_entry("", LogLevel::Error, ""), "[] [ERROR]: ");
}

#[test]
fn a_logger_at_info_records_everything() {
    let logger = Logger::new(LogLevel::Info);
    check_entry(&logger.info("one").unwrap(), "INFO", "one");
    check_entry(&logger.warning("two").unwrap(), "WARNING", "two");
    check_entry(&logger.error("three"), "ERROR", "three");
}

#[test]
fn a_logger_at_warning_drops_info() {
    let logger = Logger::new(LogLevel::Warning);
    assert_eq!(logger.info("one"), None);
    check_entry(&logger.warning("two").unwrap(), "WARNING", "two");
    check_entry(&logger.error("three"), "ERROR", "three");
}

#[test]
fn a_logger_at_error_records_errors_only() {
    let logger = Logger::new(LogLevel::Error);
    assert_eq!(logger.info("one"), None);
    assert_eq!(logger.warning("two"), None);
    check_entry(&logger.error("three"), "ERROR", "three");
}

#[test]
fn entry_at_filters_by_the_threshold() {
    let logger = Logger::new(LogLevel::Warning);
    assert_eq!(logger.entry_at("t", LogLevel::Info, "m"), None);
    assert_eq!(
        logger.entry_at("t", LogLevel::Warning, "m"),
        Some(String::from("[t] [WARNING]: m"))
    );
    assert_eq!(logger.entry_at("t", LogLevel::Error, "m"), Some(String::from("[t] [ERROR]: m")));
}

#[test]
fn levels_are_ordered_by_severity() {
    assert!(LogLevel::Info.precedes(LogLevel::Info));
    assert!(LogLevel::Info.precedes(LogLevel::Error));
    assert!(LogLevel::Warning.precedes(LogLevel::Error));
    assert!(!LogLevel::Warning.precedes(LogLevel::Info));
    assert!(!LogLevel::Error.precedes(LogLevel::Warning));
    assert!(LogLevel::Error.precedes(LogLevel::Error));
    assert_eq!(LogLevel::Info.word(), "INFO");
    assert_eq!(LogLevel::Warning.word(), "WARNING");
    assert_eq!(LogLevel::Error.word(), "ERROR");
}
