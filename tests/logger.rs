use log_anywhere::{AxiomProvider, DbProvider, InitError, Level, LevelFilter, LogAnywhereRecord, LogBuffer, Logger};

fn messages(batch: &[LogAnywhereRecord]) -> Vec<String> {
    batch.iter().map(|r| r.message.clone()).collect()
}

#[test]
fn it_works() {
    assert_eq!(4, 4);
}

#[test]
fn order_preserved_single_thread() {
    let mut logger = Logger::new(vec![0u8], 1, LevelFilter::Trace);
    for k in 0..50 {
        logger.log(Level::Info, format!("m{}", k), None, None);
    }
    let batch = logger.next_batch(0).unwrap();
    let expected: Vec<String> = (0..50).map(|k| format!("m{}", k)).collect();
    assert_eq!(messages(&batch), expected);
    assert_eq!(logger.pending(0), 0);
}

#[test]
fn exclusive_drain_returns_each_record_once() {
    let mut buffer = LogBuffer::new(1);
    buffer.append(LogAnywhereRecord::new(Level::Info, "a".to_string(), None, None));
    buffer.append(LogAnywhereRecord::new(Level::Info, "b".to_string(), None, None));
    let first = buffer.drain(0);
    buffer.append(LogAnywhereRecord::new(Level::Warn, "c".to_string(), None, None));
    let second = buffer.drain(0);
    assert_eq!(messages(&first), vec!["a", "b"]);
    assert_eq!(messages(&second), vec!["c"]);
    assert!(buffer.drain(0).is_empty());
}

#[test]
fn idle_interval_sends_nothing() {
    let mut logger = Logger::new(vec![0u8], 1, LevelFilter::Info);
    assert!(logger.next_batch(0).is_none());
    logger.log(Level::Info, "x".to_string(), None, None);
    assert!(logger.next_batch(0).is_some());
    logger.finish_cycle(0);
    assert!(logger.next_batch(0).is_none());
}

#[test]
fn fan_out_to_every_backend() {
    let mut logger = Logger::new(vec!["first", "second", "third"], 1, LevelFilter::Info);
    logger.log(Level::Error, "one".to_string(), Some("main.rs".to_string()), Some(7));
    let b1 = logger.next_batch(1).unwrap();
    logger.log(Level::Info, "two".to_string(), None, None);
    let b0 = logger.next_batch(0).unwrap();
    let b2 = logger.next_batch(2).unwrap();
    let b1_again = logger.next_batch(1).unwrap();
    assert_eq!(messages(&b1), vec!["one"]);
    assert_eq!(messages(&b0), vec!["one", "two"]);
    assert_eq!(messages(&b2), vec!["one", "two"]);
    assert_eq!(messages(&b1_again), vec!["two"]);
    assert_eq!(b0[0].level, "ERROR");
    assert_eq!(b0[0].file, Some("main.rs".to_string()));
    assert_eq!(b0[0].line, Some(7));
    assert_eq!(*logger.provider(2), "third");
    assert_eq!(logger.provider_count(), 3);
}

#[test]
fn crash_flush_delivers_panic_record() {
    let mut logger = Logger::new(vec![0u8, 1u8], 1, LevelFilter::Info);
    logger.log(Level::Info, "before".to_string(), None, None);
    logger.crash("boom".to_string(), Some("module.x".to_string()), Some(10));
    assert!(logger.is_crashing());
    assert!(!logger.drained_since_crash());
    assert!(logger.keep_waiting(0));
    let batch = logger.next_batch(0).unwrap();
    assert_eq!(batch.len(), 2);
    let last = &batch[1];
    assert_eq!(last.level, "PANIC");
    assert!(last.message.contains("boom"));
    assert_eq!(last.file, Some("module.x".to_string()));
    assert_eq!(last.line, Some(10));
    logger.finish_cycle(0);
    assert!(logger.drained_since_crash());
    assert!(!logger.keep_waiting(0));
}

#[test]
fn crash_flush_waits_for_pending_records() {
    let mut logger = Logger::new(vec![0u8], 1, LevelFilter::Info);
    logger.crash("boom".to_string(), None, None);
    let batch = logger.next_batch(0).unwrap();
    assert_eq!(batch[0].level, "PANIC");
    assert_eq!(batch[0].file, None);
    logger.log(Level::Info, "late".to_string(), None, None);
    logger.finish_cycle(0);
    assert!(!logger.drained_since_crash());
    let late = logger.next_batch(0).unwrap();
    assert_eq!(messages(&late), vec!["late"]);
    logger.finish_cycle(0);
    assert!(logger.drained_since_crash());
}

#[test]
fn crash_wait_is_bounded() {
    let logger = Logger::new(vec![0u8], 2, LevelFilter::Info);
    assert_eq!(logger.grace_period(), 5);
    let mut logger = logger.with_grace_period(3);
    logger.crash("boom".to_string(), None, None);
    assert!(logger.keep_waiting(2));
    assert!(!logger.keep_waiting(3));
    assert!(!logger.keep_waiting(u64::MAX));
}

#[test]
fn default_grace_period_saturates() {
    let logger = Logger::new(vec![0u8], u64::MAX, LevelFilter::Info);
    assert_eq!(logger.grace_period(), u64::MAX);
    assert_eq!(logger.buffer_timing(), u64::MAX);
}

#[test]
fn worked_example() {
    let mut logger = Logger::new(vec![0u8], 1, LevelFilter::Info);
    logger.log(Level::Info, "a".to_string(), None, None);
    logger.log(Level::Info, "b".to_string(), None, None);
    logger.log(Level::Info, "c".to_string(), None, None);
    let first = logger.next_batch(0).unwrap();
    assert_eq!(messages(&first), vec!["a", "b", "c"]);
    assert!(first.iter().all(|r| r.level == "INFO"));
    logger.finish_cycle(0);
    assert!(logger.next_batch(0).is_none());
}

#[test]
fn enabled_compares_against_threshold() {
    let logger = Logger::new(Vec::<u8>::new(), 1, LevelFilter::Warn);
    assert!(logger.enabled(Level::Error));
    assert!(logger.enabled(Level::Warn));
    assert!(!logger.enabled(Level::Info));
    assert!(!logger.enabled(Level::Trace));
    assert_eq!(logger.level(), LevelFilter::Warn);
    let off = Logger::new(Vec::<u8>::new(), 1, LevelFilter::Off);
    assert!(!off.enabled(Level::Error));
    let all = Logger::new(Vec::<u8>::new(), 1, LevelFilter::Trace);
    assert!(all.enabled(Level::Trace));
}

#[test]
fn check_init_rejects_zero_interval() {
    let zero = Logger::new(vec![0u8], 0, LevelFilter::Info);
    assert_eq!(zero.check_init(), Err(InitError::InvalidInterval));
    let ok = Logger::new(vec![0u8], 5, LevelFilter::Info);
    assert_eq!(ok.check_init(), Ok(()));
}

#[test]
fn level_names() {
    assert_eq!(Level::Error.name(), "ERROR");
    assert_eq!(Level::Warn.name(), "WARN");
    assert_eq!(Level::Info.name(), "INFO");
    assert_eq!(Level::Debug.name(), "DEBUG");
    assert_eq!(Level::Trace.name(), "TRACE");
}

#[test]
fn record_duplicate_keeps_fields() {
    let r = LogAnywhereRecord::new(Level::Debug, "m".to_string(), Some("f.rs".to_string()), Some(3));
    let d = r.duplicate();
    assert_eq!(d.level, "DEBUG");
    assert_eq!(d.message, "m");
    assert_eq!(d.file, Some("f.rs".to_string()));
    assert_eq!(d.line, Some(3));
}

#[test]
fn axiom_provider_endpoint_and_token() {
    let p = AxiomProvider::new("abc123".to_string(), "logs".to_string());
    assert_eq!(p.ingest_url(), "https://api.axiom.co/v1/datasets/logs/ingest");
    assert_eq!(p.authorization(), "Bearer abc123");
}

#[test]
fn db_provider_new_is_shared_handle() {
    let p = DbProvider::new();
    let q = p.clone();
    assert_eq!(std::sync::Arc::strong_count(&q), 2);
}

#[test]
fn no_backends_means_no_queues() {
    let mut logger = Logger::new(Vec::<u8>::new(), 1, LevelFilter::Info);
    logger.log(Level::Info, "x".to_string(), None, None);
    assert_eq!(logger.provider_count(), 0);
    logger.crash("boom".to_string(), None, None);
    assert!(logger.keep_waiting(0));
}
