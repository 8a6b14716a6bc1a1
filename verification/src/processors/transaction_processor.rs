//! The transaction processor's records: priorities, the order in which
//! queued transactions are served, settings and counters. Times are
//! milliseconds since the Unix epoch.
use vstd::prelude::*;
use crate::collections::StrMap;
use crate::logger::{LogLevel, LogLine, LogValue};
use crate::text::owned;

verus! {

/// How urgent a transaction is.
#[derive(Debug, Clone, Copy, PartialEq, Eq, Structural)]
pub enum TransactionPriority {
    Low,
    Normal,
    High,
    Critical,
}

/// The rank of a priority: 1 for low up to 4 for critical.
pub open spec fn priority_rank(p: TransactionPriority) -> int {
    match p {
        TransactionPriority::Low => 1,
        TransactionPriority::Normal => 2,
        TransactionPriority::High => 3,
        TransactionPriority::Critical => 4,
    }
}

impl TransactionPriority {
    /// The rank of the priority.
    pub fn rank(&self) -> (r: u8)
        ensures
            r as int == priority_rank(*self),
    {
        match self {
            TransactionPriority::Low => 1,
            TransactionPriority::Normal => 2,
            TransactionPriority::High => 3,
            TransactionPriority::Critical => 4,
        }
    }
}

/// A transaction waiting to be processed.
pub struct QueuedTransaction {
    /// The transaction, as JSON text.
    pub transaction: String,
    pub priority: TransactionPriority,
    pub queued_at: u64,
    pub retry_count: u32,
    pub max_retries: u32,
    pub retry_delay_ms: u64,
    pub chain_id: u64,
    pub metadata: StrMap<LogValue>,
}

/// `a` is served before `b`: a higher priority first, then the one queued earlier.
pub open spec fn served_before(a: QueuedTransaction, b: QueuedTransaction) -> bool {
    if priority_rank(a.priority) != priority_rank(b.priority) {
        priority_rank(a.priority) > priority_rank(b.priority)
    } else {
        a.queued_at < b.queued_at
    }
}

/// Two queued transactions rank the same: equal priority, queued at the same time.
pub open spec fn same_rank(a: QueuedTransaction, b: QueuedTransaction) -> bool {
    a.priority == b.priority && a.queued_at == b.queued_at
}

impl QueuedTransaction {
    /// Whether this transaction is served before `other` (see `served_before`).
    pub fn is_served_before(&self, other: &QueuedTransaction) -> (r: bool)
        ensures
            r == served_before(*self, *other),
    {
        let a = self.priority.rank();
        let b = other.priority.rank();
        if a != b { a > b } else { self.queued_at < other.queued_at }
    }

    /// Whether the two rank the same (see `same_rank`).
    pub fn ranks_same(&self, other: &QueuedTransaction) -> (r: bool)
        ensures
            r == same_rank(*self, *other),
    {
        self.priority == other.priority && self.queued_at == other.queued_at
    }
}

/// Serving order is a strict order: never both ways, and exactly one way
/// between transactions that do not rank the same.
pub proof fn lemma_service_order(a: QueuedTransaction, b: QueuedTransaction)
    ensures
        !(served_before(a, b) && served_before(b, a)),
        !same_rank(a, b) ==> (served_before(a, b) || served_before(b, a)),
        same_rank(a, b) ==> !served_before(a, b),
{
}

/// Counters for one chain.
pub struct ChainMetrics {
    pub chain_id: u64,
    pub transactions_processed: u64,
    pub transactions_successful: u64,
    pub transactions_failed: u64,
    pub average_gas_used: u64,
    pub last_transaction_at: Option<u64>,
}

/// The processor's counters.
pub struct TransactionMetrics {
    pub total_processed: u64,
    pub total_successful: u64,
    pub total_failed: u64,
    pub total_retried: u64,
    pub average_processing_time_ms: u64,
    pub queue_size: usize,
    pub active_workers: usize,
    pub last_processed_at: Option<u64>,
    pub chain_metrics: StrMap<ChainMetrics>,
}

/// The processor's settings (durations in milliseconds).
#[derive(Debug, Clone, Copy)]
pub struct TransactionProcessorConfig {
    pub max_concurrent_workers: usize,
    pub max_queue_size: usize,
    pub default_retry_count: u32,
    pub default_retry_delay_ms: u64,
    pub max_retry_delay_ms: u64,
    pub enable_priority_queue: bool,
    pub enable_metrics: bool,
    pub enable_auto_retry: bool,
    pub transaction_timeout_ms: u64,
    pub batch_processing: bool,
    pub batch_size: usize,
    pub batch_timeout_ms: u64,
}

impl TransactionProcessorConfig {
    /// The default settings.
    pub open spec fn defaults() -> Self {
        TransactionProcessorConfig {
            max_concurrent_workers: 4,
            max_queue_size: 1000,
            default_retry_count: 3,
            default_retry_delay_ms: 5000,
            max_retry_delay_ms: 60000,
            enable_priority_queue: true,
            enable_metrics: true,
            enable_auto_retry: true,
            transaction_timeout_ms: 300000,
            batch_processing: false,
            batch_size: 10,
            batch_timeout_ms: 30000,
        }
    }

    /// The default settings: four workers, a queue of a thousand, three
    /// retries five seconds apart (at most a minute), five-minute timeout,
    /// no batching (batches of ten within thirty seconds when on).
    pub fn new() -> (c: Self)
        ensures
            c == Self::defaults(),
    {
        TransactionProcessorConfig {
            max_concurrent_workers: 4,
            max_queue_size: 1000,
            default_retry_count: 3,
            default_retry_delay_ms: 5000,
            max_retry_delay_ms: 60000,
            enable_priority_queue: true,
            enable_metrics: true,
            enable_auto_retry: true,
            transaction_timeout_ms: 300000,
            batch_processing: false,
            batch_size: 10,
            batch_timeout_ms: 30000,
        }
    }
}

/// The queue of transactions (it holds nothing yet).
pub struct TransactionQueue;

impl TransactionQueue {
    /// A queue for at most `max_size` transactions.
    pub fn new(max_size: usize) -> (q: Self) {
        TransactionQueue
    }
}

/// The outcome of processing a transaction.
pub struct TransactionResult {
    pub transaction_id: String,
    pub success: bool,
    pub hash: Option<String>,
    pub error_message: Option<String>,
    pub processing_time_ms: u64,
    pub retry_count: u32,
    pub chain_id: u64,
    pub timestamp: u64,
    pub gas_used: Option<u64>,
    pub block_number: Option<u64>,
}

/// The transaction processor.
pub struct TransactionProcessor {
    pub config: TransactionProcessorConfig,
    pub queue: TransactionQueue,
    pub metrics: TransactionMetrics,
    pub running: bool,
}

impl TransactionProcessor {
    /// A stopped processor with the given settings (the defaults when none
    /// are given) and zero counters.
    pub fn new(config: Option<TransactionProcessorConfig>) -> (p: Self)
        ensures
            p.config == (match config { Some(c) => c, None => TransactionProcessorConfig::defaults() }),
            !p.running,
            p.metrics.total_processed == 0 && p.metrics.total_successful == 0 && p.metrics.total_failed == 0,
            p.metrics.total_retried == 0 && p.metrics.average_processing_time_ms == 0,
            p.metrics.queue_size == 0 && p.metrics.active_workers == 0 && p.metrics.last_processed_at is None,
            p.metrics.chain_metrics@ == Map::<Seq<char>, ChainMetrics>::empty(),
    {
        let config = match config {
            Some(c) => c,
            None => TransactionProcessorConfig::new(),
        };
        TransactionProcessor {
            config,
            queue: TransactionQueue::new(config.max_queue_size),
            metrics: TransactionMetrics {
                total_processed: 0,
                total_successful: 0,
                total_failed: 0,
                total_retried: 0,
                average_processing_time_ms: 0,
                queue_size: 0,
                active_workers: 0,
                last_processed_at: None,
                chain_metrics: StrMap::new(),
            },
            running: false,
        }
    }

    /// Starts the processor.
    pub fn start(&mut self) -> (l: LogLine)
        ensures
            final(self).running,
            final(self).config == old(self).config,
            l.message@ == "Transaction processor started"@,
    {
        self.running = true;
        LogLine { level: LogLevel::Info, message: owned("Transaction processor started") }
    }
}

} // verus!
