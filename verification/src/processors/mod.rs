//! Transaction processing: the queue order of transactions and the
//! processor's settings and counters.
pub mod transaction_processor;
