use airchainpay_relay::collections::StrMap;
use airchainpay_relay::logger::{
    level_text, EnhancedLogger, EntryStamp, LogConfig, LogContext, LogFilter, LogLevel, LogValue, Logger,
};
use airchainpay_relay::monitoring::{AlertSeverity, MonitoringManager};
use airchainpay_relay::processors::transaction_processor::{
    QueuedTransaction, TransactionPriority, TransactionProcessor, TransactionProcessorConfig,
};
use airchainpay_relay::scheduler::{
    count_words, next_retry_step, RetryStep, ScheduledTask, Scheduler, SchedulerConfig, TaskPriority, TaskQueue,
    TaskResult, TaskType,
};

fn stamp(id: &str, t: u64) -> EntryStamp {
    EntryStamp { id: id.to_string(), timestamp: t, hostname: "host".to_string(), pid: 1, thread_id: "main".to_string() }
}

fn task(id: &str, priority: TaskPriority, next_run: Option<u64>, enabled: bool) -> ScheduledTask {
    ScheduledTask {
        id: id.to_string(),
        name: format!("task {id}"),
        cron_expression: "0 * * * *".to_string(),
        task_type: TaskType::Cleanup,
        priority,
        enabled,
        last_run: None,
        next_run,
        retry_count: 0,
        max_retries: 3,
        retry_delay_ms: 1000,
        metadata: StrMap::new(),
    }
}

#[test]
fn logger_levels_and_config() {
    assert_eq!(level_text(LogLevel::Warn), "WARN");
    assert_eq!(LogConfig::filter_level("debug"), LogLevel::Debug);
    assert_eq!(LogConfig::filter_level("verbose"), LogLevel::Info);
    let c = Logger::init("trace");
    assert_eq!(c.level, "info");
    assert_eq!(c.max_files, 5);
    assert_eq!(Logger::transaction_received("0xab", 7).message, "Transaction received: 0xab on chain 7");
    assert_eq!(Logger::auth_failure("d", "bad").message, "Authentication failed for device: d - bad");
}

#[test]
fn enhanced_logger_keeps_context_and_filters() {
    let mut log = EnhancedLogger::new(LogConfig::new());
    log.info("started", stamp("1", 100));
    let mut ctx = LogContext::new();
    ctx.operation = Some("send".to_string());
    ctx.device_id = Some("dev-1".to_string());
    log.set_context(ctx);
    let mut extra = StrMap::new();
    extra.insert("chain_id".to_string(), LogValue::UInt(5));
    log.warn_with_context("slow", &extra, stamp("2", 200));
    log.transaction_received("0xab", 1, stamp("3", 300));
    let all = log.get_log_entries(None);
    assert_eq!(all.len(), 3);
    assert_eq!(all[1].level, "WARN");
    assert_eq!(all[1].context.operation.as_deref(), Some("send"));
    assert!(matches!(all[1].context.metadata.get("chain_id"), Some(LogValue::UInt(5))));
    assert!(matches!(all[2].context.metadata.get("operation"), Some(LogValue::Str(s)) if s == "transaction_received"));
    let f = LogFilter {
        level: Some("INFO".to_string()),
        operation: Some("send".to_string()),
        device_id: None,
        transaction_hash: None,
        start_time: Some(150),
        end_time: None,
        limit: None,
    };
    let hits = log.get_log_entries(Some(&f));
    assert_eq!(hits.len(), 1);
    assert_eq!(hits[0].message, "Transaction received");
    let stats = log.get_log_stats();
    assert_eq!(stats.total_entries, 3);
    assert_eq!(*stats.entries_by_level.get("INFO").unwrap(), 2);
    assert_eq!(*stats.entries_by_operation.get("send").unwrap(), 2);
    assert_eq!(stats.total_message_length, "started".len() + "slow".len() + "Transaction received".len());
    assert_eq!((stats.oldest_entry, stats.newest_entry), (Some(100), Some(300)));
    log.clear_log_entries();
    assert!(log.get_log_entries(None).is_empty());
}

#[test]
fn alerts_fire_by_rule_and_resolve() {
    let mut m = MonitoringManager::new(0);
    let _ = m.update_metric("ble_connections", 1, 1);
    assert!(m.get_alerts(10).is_empty());
    let _ = m.update_metric("transactions_received", 10, 2);
    let _ = m.update_metric("transactions_failed", 2, 3);
    let alerts = m.get_alerts(10);
    assert_eq!(alerts.len(), 1);
    assert_eq!(alerts[0].name, "high_transaction_failure_rate");
    assert_eq!(alerts[0].severity, AlertSeverity::Warning);
    assert_eq!(alerts[0].message, "Alert triggered: high_transaction_failure_rate");
    assert_eq!(m.get_health_status().status, "healthy");
    let lines = m.update_metric("no_such_metric", 1, 4);
    assert_eq!(lines[0].message, "Unknown metric: no_such_metric");
    let _ = m.update_metric("transactions_failed", 0, 5);
    let _ = m.update_metric("rpc_errors", 101, 6);
    let h = m.get_health_status();
    assert_eq!(h.status, "unhealthy");
    assert_eq!(h.active_alerts, 3);
    let id = m.get_alerts(1)[0].id.clone();
    assert_eq!(m.resolve_alert(&id).unwrap().message, format!("Alert resolved: {id}"));
    assert_eq!(m.get_health_status().status, "healthy");
    assert!(m.resolve_alert("missing").is_none());
}

#[test]
fn alert_rules_can_be_switched_off() {
    let mut m = MonitoringManager::new(0);
    m.disable_alert_rule("low_ble_connections");
    let _ = m.increment_metric("transactions_received", 1);
    assert!(m.get_alerts(5).is_empty());
    m.enable_alert_rule("low_ble_connections");
    let _ = m.increment_metric("transactions_received", 2);
    assert_eq!(m.get_alerts(5).len(), 1);
    m.remove_alert_rule("low_ble_connections");
    assert_eq!(m.alert_rules.len(), 4);
    assert_eq!(m.get_metrics().transactions_received, 2);
    m.update_system_metrics(2_000_000_000);
    let _ = m.increment_metric("transactions_received", 3);
    assert_eq!(m.get_alerts(1)[0].name, "high_memory_usage");
}

#[test]
fn task_queue_serves_by_priority() {
    let mut q = TaskQueue::new();
    q.add_task(task("low", TaskPriority::Low, Some(5), true));
    q.add_task(task("hi-early", TaskPriority::High, Some(5), true));
    q.add_task(task("hi-late", TaskPriority::High, Some(9), true));
    q.add_task(task("hi-none", TaskPriority::High, None, true));
    let order: Vec<String> = std::iter::from_fn(|| q.get_next_task()).map(|t| t.id).collect();
    assert_eq!(order, vec!["hi-none", "hi-early", "hi-late", "low"]);
    q.add_task(task("b", TaskPriority::Normal, Some(20), true));
    q.add_task(task("a", TaskPriority::Normal, Some(10), true));
    assert_eq!(q.get_next_task().unwrap().id, "a");
    assert_eq!(q.get_next_task().unwrap().id, "b");
    for i in 0..1001u64 {
        q.add_completed_task(TaskResult {
            task_id: i.to_string(),
            success: true,
            duration_ms: 1,
            error_message: None,
            timestamp: i,
            retry_count: 0,
        });
    }
    assert_eq!(q.get_completed_tasks().len(), 1000);
    assert_eq!(q.get_completed_tasks()[0].task_id, "1");
    q.mark_task_running("x", 3);
    assert_eq!(q.get_running_tasks().get("x"), Some(&3));
    q.mark_task_completed("x");
    assert!(q.get_running_tasks().is_empty());
}

#[test]
fn scheduler_runs_due_tasks() {
    let mut s = Scheduler::new(SchedulerConfig::new());
    assert!(s.start().is_ok());
    assert_eq!(s.start().err().unwrap(), "Scheduler is already running");
    assert_eq!(s.add_task(task("a", TaskPriority::Normal, Some(100), true)).message, "Added task: task a (a)");
    let _ = s.add_task(task("b", TaskPriority::Normal, None, true));
    let _ = s.add_task(task("c", TaskPriority::Normal, Some(0), false));
    assert_eq!(s.process_task_queue().len(), 2);
    s.check_and_schedule_tasks(150);
    assert_eq!(s.tasks.get("a").unwrap().last_run, Some(150));
    assert_eq!(s.tasks.get("a").unwrap().next_run, Some(60_150));
    assert_eq!(s.tasks.get("b").unwrap().next_run, Some(60_150));
    assert_eq!(s.tasks.get("c").unwrap().next_run, Some(0));
    assert_eq!(s.process_task_queue().len(), 1);
    s.enable_task("c");
    assert!(s.tasks.get("c").unwrap().enabled);
    s.disable_task("a");
    let status = s.get_task_status();
    assert_eq!((status.total_tasks, status.enabled_tasks), (3, 2));
    assert_eq!(s.remove_task("b").message, "Removed task: b");
    assert_eq!(s.calculate_next_run("* * * *", 0), None);
    assert_eq!(s.stop().message, "Stopping AirChainPay Relay Scheduler");
}

#[test]
fn retries_and_words() {
    assert!(matches!(next_retry_step(0, 2, true), (RetryStep::Done, 0)));
    assert!(matches!(next_retry_step(1, 2, false), (RetryStep::Retry, 2)));
    assert!(matches!(next_retry_step(2, 2, false), (RetryStep::GiveUp, 3)));
    assert_eq!(count_words("  0  12 * *\t* "), 5);
    assert_eq!(count_words(""), 0);
    assert_eq!(count_words("a\u{3000}b\u{85}c\u{a0}d\u{200b}e"), 4);
}

#[test]
fn processor_defaults_and_service_order() {
    let mut p = TransactionProcessor::new(None);
    assert_eq!(p.config.max_concurrent_workers, 4);
    assert_eq!(p.config.max_queue_size, 1000);
    assert!(!p.running);
    assert_eq!(p.start().message, "Transaction processor started");
    let custom = TransactionProcessorConfig { batch_size: 3, ..TransactionProcessorConfig::new() };
    assert_eq!(TransactionProcessor::new(Some(custom)).config.batch_size, 3);
    let q = |priority: TransactionPriority, queued_at: u64| QueuedTransaction {
        transaction: "{}".to_string(),
        priority,
        queued_at,
        retry_count: 0,
        max_retries: 3,
        retry_delay_ms: 0,
        chain_id: 1,
        metadata: StrMap::new(),
    };
    assert!(q(TransactionPriority::High, 9).is_served_before(&q(TransactionPriority::Normal, 1)));
    assert!(q(TransactionPriority::Low, 1).is_served_before(&q(TransactionPriority::Low, 2)));
    assert!(q(TransactionPriority::Low, 1).ranks_same(&q(TransactionPriority::Low, 1)));
}
