use rawfileparser::mono::{parse_thread_id, MonoEmbeddinator};
use rawfileparser::RawFileError;

#[test]
fn multithreading_fails() {
    let mono = MonoEmbeddinator::new();
    assert!(mono.check_availability(1).is_err());
}

#[test]
fn availability_before_configure_is_not_configured() {
    let mono = MonoEmbeddinator::new();
    assert_eq!(mono.check_availability(1).unwrap_err(), RawFileError::NotConfigured);
}

#[test]
fn cross_thread_availability_fails() {
    let mut mono = MonoEmbeddinator::new();
    mono.configure(11, true).unwrap();
    assert!(mono.check_availability(11).is_ok());
    assert_eq!(mono.check_availability(12).unwrap_err(), RawFileError::CrossThreadViolation);
}

#[test]
fn configure_twice_fails() {
    let mut mono = MonoEmbeddinator::new();
    mono.configure(3, true).unwrap();
    assert_eq!(mono.configure(3, true).unwrap_err(), RawFileError::AlreadyConfigured);
    assert_eq!(mono.configure(4, false).unwrap_err(), RawFileError::AlreadyConfigured);
    assert!(mono.is_configured());
}

#[test]
fn configure_without_runtime_directory_fails() {
    let mut mono = MonoEmbeddinator::new();
    assert_eq!(mono.configure(3, false).unwrap_err(), RawFileError::RuntimeDirectoryNotFound);
    assert!(!mono.is_configured());
    mono.configure(3, true).unwrap();
    assert!(mono.is_configured());
}

#[test]
fn dispose_twice_fails() {
    let mut mono = MonoEmbeddinator::new();
    mono.configure(5, true).unwrap();
    mono.dispose(true).unwrap();
    assert_eq!(mono.dispose(true).unwrap_err(), RawFileError::AlreadyDisposed);
    assert_eq!(mono.check_availability(5).unwrap_err(), RawFileError::AlreadyDisposed);
}

#[test]
fn dispose_before_configure_fails() {
    let mut mono = MonoEmbeddinator::new();
    assert_eq!(mono.dispose(true).unwrap_err(), RawFileError::NotConfigured);
}

#[test]
fn dispose_without_runtime_context_fails() {
    let mut mono = MonoEmbeddinator::new();
    mono.configure(5, true).unwrap();
    assert_eq!(mono.dispose(false).unwrap_err(), RawFileError::ForeignCallFailure);
    assert!(mono.check_availability(5).is_ok());
    mono.dispose(true).unwrap();
}

#[test]
fn configure_after_dispose_fails() {
    let mut mono = MonoEmbeddinator::new();
    mono.configure(5, true).unwrap();
    mono.dispose(true).unwrap();
    assert_eq!(mono.configure(5, true).unwrap_err(), RawFileError::AlreadyDisposed);
}

#[test]
fn thread_id_text_parses() {
    assert_eq!(parse_thread_id("ThreadId(42)"), Some(42));
    assert_eq!(parse_thread_id("ThreadId(1)"), Some(1));
    assert_eq!(parse_thread_id("ThreadId()"), None);
    assert_eq!(parse_thread_id("ThreadId(12"), None);
    assert_eq!(parse_thread_id("42)"), None);
    assert_eq!(parse_thread_id(""), None);
    assert_eq!(parse_thread_id("ThreadId(9x)"), None);
}

#[test]
fn error_messages_name_the_failure() {
    assert_eq!(RawFileError::NotConfigured.message(), "the runtime is not configured");
    assert_eq!(
        RawFileError::CrossThreadViolation.message(),
        "the runtime was used from a foreign thread"
    );
    assert_eq!(
        RawFileError::ScanNumberOutOfRange.message(),
        "the requested scan number is out of range"
    );
}
