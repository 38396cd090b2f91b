use redis_logger::level_enabled;
use redis_logger::Level;
use redis_logger::LevelFilter;

#[test]
fn off_filter_accepts_nothing() {
    assert!(!level_enabled(Level::Error, LevelFilter::Off));
    assert!(!level_enabled(Level::Warn, LevelFilter::Off));
    assert!(!level_enabled(Level::Info, LevelFilter::Off));
    assert!(!level_enabled(Level::Debug, LevelFilter::Off));
    assert!(!level_enabled(Level::Trace, LevelFilter::Off));
}

#[test]
fn trace_filter_accepts_everything() {
    assert!(level_enabled(Level::Error, LevelFilter::Trace));
    assert!(level_enabled(Level::Warn, LevelFilter::Trace));
    assert!(level_enabled(Level::Info, LevelFilter::Trace));
    assert!(level_enabled(Level::Debug, LevelFilter::Trace));
    assert!(level_enabled(Level::Trace, LevelFilter::Trace));
}

#[test]
fn info_filter_accepts_exactly_the_levels_at_least_as_severe() {
    assert!(level_enabled(Level::Error, LevelFilter::Info));
    assert!(level_enabled(Level::Warn, LevelFilter::Info));
    assert!(level_enabled(Level::Info, LevelFilter::Info));
    assert!(!level_enabled(Level::Debug, LevelFilter::Info));
    assert!(!level_enabled(Level::Trace, LevelFilter::Info));
}

#[test]
fn error_filter_accepts_only_error() {
    assert!(level_enabled(Level::Error, LevelFilter::Error));
    assert!(!level_enabled(Level::Warn, LevelFilter::Error));
    assert!(!level_enabled(Level::Trace, LevelFilter::Error));
}
