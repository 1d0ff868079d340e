use noise_engine_native::logging::{
    initialize, log, terminate, LogLevel, Logger, LoggerInstance, RecordingSink,
};

#[test]
fn log_level_codes_are_stable_bit_flags() {
    assert_eq!(LogLevel::Debug.code(), 1);
    assert_eq!(LogLevel::Trace.code(), 2);
    assert_eq!(LogLevel::Info.code(), 4);
    assert_eq!(LogLevel::Warning.code(), 8);
    assert_eq!(LogLevel::Error.code(), 16);
    assert_eq!(LogLevel::Fatal.code(), 32);
}

#[test]
fn first_initialization_succeeds_later_ones_fail() {
    let mut instance: LoggerInstance<RecordingSink> = LoggerInstance::new();
    assert!(initialize(&mut instance, Logger { handler: RecordingSink::new() }).is_ok());
    assert!(initialize(&mut instance, Logger { handler: RecordingSink::new() }).is_err());
    assert!(initialize(&mut instance, Logger { handler: RecordingSink::new() }).is_err());
}

#[test]
fn log_marshals_level_and_message_bytes() {
    let mut instance: LoggerInstance<RecordingSink> = LoggerInstance::new();
    initialize(&mut instance, Logger { handler: RecordingSink::new() }).unwrap();
    log(&mut instance, LogLevel::Warning, "device memory low");
    log(&mut instance, LogLevel::Info, "frame done");

    let records = &instance.cell.as_ref().unwrap().handler.stored;
    assert_eq!(records.len(), 2);
    assert_eq!(records[0].level, LogLevel::Warning);
    assert_eq!(records[0].message, b"device memory low".to_vec());
    assert_eq!(records[1].level, LogLevel::Info);
    assert_eq!(records[1].message, b"frame done".to_vec());
}

#[test]
fn terminate_leaves_installed_logger_in_place() {
    let mut instance: LoggerInstance<RecordingSink> = LoggerInstance::new();
    initialize(&mut instance, Logger { handler: RecordingSink::new() }).unwrap();
    terminate();
    log(&mut instance, LogLevel::Fatal, "still delivered");
    let records = &instance.cell.as_ref().unwrap().handler.stored;
    assert_eq!(records.len(), 1);
    assert_eq!(records[0].level, LogLevel::Fatal);
}
