//! Request counting: which counters of the monitoring manager a request
//! raises, by its path and how it ended, and the named counting calls the
//! rest of the relay makes.
use vstd::prelude::*;
use crate::logger::{LogLevel, LogLine};
use crate::monitoring::{alert_for, counter, firing, with_counter, Alert, AlertRule, MonitoringManager, PrometheusMetrics};
use crate::text::{contains, seq_contains};

verus! {

/// The length and first three characters of a name; no two counted names share them.
pub open spec fn shape(s: Seq<char>) -> (nat, char, char, char) {
    (s.len(), s[0], s[1], s[2])
}

/// The names of the counters that the manager keeps resolve to them.
pub proof fn lemma_known_counters(m: PrometheusMetrics, v: u64)
    ensures
        counter(m, "transactions_received"@) == Some(m.transactions_received),
        with_counter(m, "transactions_received"@, v) == (PrometheusMetrics { transactions_received: v, ..m }),
        counter(m, "transactions_processed"@) == Some(m.transactions_processed),
        with_counter(m, "transactions_processed"@, v) == (PrometheusMetrics { transactions_processed: v, ..m }),
        counter(m, "transactions_failed"@) == Some(m.transactions_failed),
        with_counter(m, "transactions_failed"@, v) == (PrometheusMetrics { transactions_failed: v, ..m }),
        counter(m, "transactions_broadcasted"@) == Some(m.transactions_broadcasted),
        with_counter(m, "transactions_broadcasted"@, v) == (PrometheusMetrics { transactions_broadcasted: v, ..m }),
        counter(m, "ble_connections"@) == Some(m.ble_connections),
        with_counter(m, "ble_connections"@, v) == (PrometheusMetrics { ble_connections: v, ..m }),
        counter(m, "ble_disconnections"@) == Some(m.ble_disconnections),
        with_counter(m, "ble_disconnections"@, v) == (PrometheusMetrics { ble_disconnections: v, ..m }),
        counter(m, "ble_authentications"@) == Some(m.ble_authentications),
        with_counter(m, "ble_authentications"@, v) == (PrometheusMetrics { ble_authentications: v, ..m }),
        counter(m, "ble_key_exchanges"@) == Some(m.ble_key_exchanges),
        with_counter(m, "ble_key_exchanges"@, v) == (PrometheusMetrics { ble_key_exchanges: v, ..m }),
        counter(m, "rpc_errors"@) == Some(m.rpc_errors),
        with_counter(m, "rpc_errors"@, v) == (PrometheusMetrics { rpc_errors: v, ..m }),
        counter(m, "gas_price_updates"@) == Some(m.gas_price_updates),
        with_counter(m, "gas_price_updates"@, v) == (PrometheusMetrics { gas_price_updates: v, ..m }),
        counter(m, "contract_events"@) == Some(m.contract_events),
        with_counter(m, "contract_events"@, v) == (PrometheusMetrics { contract_events: v, ..m }),
        counter(m, "auth_failures"@) == Some(m.auth_failures),
        with_counter(m, "auth_failures"@, v) == (PrometheusMetrics { auth_failures: v, ..m }),
        counter(m, "rate_limit_hits"@) == Some(m.rate_limit_hits),
        with_counter(m, "rate_limit_hits"@, v) == (PrometheusMetrics { rate_limit_hits: v, ..m }),
        counter(m, "blocked_devices"@) == Some(m.blocked_devices),
        with_counter(m, "blocked_devices"@, v) == (PrometheusMetrics { blocked_devices: v, ..m }),
{
    reveal_strlit("transactions_received");
    assert(shape("transactions_received"@) == (21nat, 't', 'r', 'a'));
    reveal_strlit("transactions_processed");
    assert(shape("transactions_processed"@) == (22nat, 't', 'r', 'a'));
    reveal_strlit("transactions_failed");
    assert(shape("transactions_failed"@) == (19nat, 't', 'r', 'a'));
    reveal_strlit("transactions_broadcasted");
    assert(shape("transactions_broadcasted"@) == (24nat, 't', 'r', 'a'));
    reveal_strlit("ble_connections");
    assert(shape("ble_connections"@) == (15nat, 'b', 'l', 'e'));
    reveal_strlit("ble_disconnections");
    assert(shape("ble_disconnections"@) == (18nat, 'b', 'l', 'e'));
    reveal_strlit("ble_authentications");
    assert(shape("ble_authentications"@) == (19nat, 'b', 'l', 'e'));
    reveal_strlit("ble_key_exchanges");
    assert(shape("ble_key_exchanges"@) == (17nat, 'b', 'l', 'e'));
    reveal_strlit("rpc_errors");
    assert(shape("rpc_errors"@) == (10nat, 'r', 'p', 'c'));
    reveal_strlit("gas_price_updates");
    assert(shape("gas_price_updates"@) == (17nat, 'g', 'a', 's'));
    reveal_strlit("contract_events");
    assert(shape("contract_events"@) == (15nat, 'c', 'o', 'n'));
    reveal_strlit("auth_failures");
    assert(shape("auth_failures"@) == (13nat, 'a', 'u', 't'));
    reveal_strlit("rate_limit_hits");
    assert(shape("rate_limit_hits"@) == (15nat, 'r', 'a', 't'));
    reveal_strlit("blocked_devices");
    assert(shape("blocked_devices"@) == (15nat, 'b', 'l', 'o'));
}

/// The other names counted by the relay are not counters of the manager:
/// raising one changes no counter.
pub proof fn lemma_unknown_counters(m: PrometheusMetrics)
    ensures
        counter(m, "requests_total"@) is None,
        counter(m, "requests_successful"@) is None,
        counter(m, "requests_failed"@) is None,
        counter(m, "network_errors"@) is None,
        counter(m, "compression_operations"@) is None,
        counter(m, "database_operations"@) is None,
        counter(m, "database_errors"@) is None,
        counter(m, "security_events"@) is None,
        counter(m, "validation_failures"@) is None,
        counter(m, "cache_hits"@) is None,
        counter(m, "cache_misses"@) is None,
        counter(m, "blockchain_confirmations"@) is None,
        counter(m, "blockchain_timeouts"@) is None,
{
    reveal_strlit("transactions_received");
    assert(shape("transactions_received"@) == (21nat, 't', 'r', 'a'));
    reveal_strlit("transactions_processed");
    assert(shape("transactions_processed"@) == (22nat, 't', 'r', 'a'));
    reveal_strlit("transactions_failed");
    assert(shape("transactions_failed"@) == (19nat, 't', 'r', 'a'));
    reveal_strlit("transactions_broadcasted");
    assert(shape("transactions_broadcasted"@) == (24nat, 't', 'r', 'a'));
    reveal_strlit("ble_connections");
    assert(shape("ble_connections"@) == (15nat, 'b', 'l', 'e'));
    reveal_strlit("ble_disconnections");
    assert(shape("ble_disconnections"@) == (18nat, 'b', 'l', 'e'));
    reveal_strlit("ble_authentications");
    assert(shape("ble_authentications"@) == (19nat, 'b', 'l', 'e'));
    reveal_strlit("ble_key_exchanges");
    assert(shape("ble_key_exchanges"@) == (17nat, 'b', 'l', 'e'));
    reveal_strlit("rpc_errors");
    assert(shape("rpc_errors"@) == (10nat, 'r', 'p', 'c'));
    reveal_strlit("gas_price_updates");
    assert(shape("gas_price_updates"@) == (17nat, 'g', 'a', 's'));
    reveal_strlit("contract_events");
    assert(shape("contract_events"@) == (15nat, 'c', 'o', 'n'));
    reveal_strlit("auth_failures");
    assert(shape("auth_failures"@) == (13nat, 'a', 'u', 't'));
    reveal_strlit("rate_limit_hits");
    assert(shape("rate_limit_hits"@) == (15nat, 'r', 'a', 't'));
    reveal_strlit("blocked_devices");
    assert(shape("blocked_devices"@) == (15nat, 'b', 'l', 'o'));
    reveal_strlit("requests_total");
    assert(shape("requests_total"@) == (14nat, 'r', 'e', 'q'));
    reveal_strlit("requests_successful");
    assert(shape("requests_successful"@) == (19nat, 'r', 'e', 'q'));
    reveal_strlit("requests_failed");
    assert(shape("requests_failed"@) == (15nat, 'r', 'e', 'q'));
    reveal_strlit("network_errors");
    assert(shape("network_errors"@) == (14nat, 'n', 'e', 't'));
    reveal_strlit("compression_operations");
    assert(shape("compression_operations"@) == (22nat, 'c', 'o', 'm'));
    reveal_strlit("database_operations");
    assert(shape("database_operations"@) == (19nat, 'd', 'a', 't'));
    reveal_strlit("database_errors");
    assert(shape("database_errors"@) == (15nat, 'd', 'a', 't'));
    reveal_strlit("security_events");
    assert(shape("security_events"@) == (15nat, 's', 'e', 'c'));
    reveal_strlit("validation_failures");
    assert(shape("validation_failures"@) == (19nat, 'v', 'a', 'l'));
    reveal_strlit("cache_hits");
    assert(shape("cache_hits"@) == (10nat, 'c', 'a', 'c'));
    reveal_strlit("cache_misses");
    assert(shape("cache_misses"@) == (12nat, 'c', 'a', 'c'));
    reveal_strlit("blockchain_confirmations");
    assert(shape("blockchain_confirmations"@) == (24nat, 'b', 'l', 'o'));
    reveal_strlit("blockchain_timeouts");
    assert(shape("blockchain_timeouts"@) == (19nat, 'b', 'l', 'o'));
}

/// Raises a counter the manager keeps by one, appending the lines to log.
fn raise_known(mgr: &mut MonitoringManager, name: &str, now: u64, lines: &mut Vec<LogLine>)
    requires
        counter(old(mgr).metrics, name@) is Some,
        counter(old(mgr).metrics, name@)->0 < u64::MAX,
    ensures
        final(mgr).metrics == with_counter(old(mgr).metrics, name@, (counter(old(mgr).metrics, name@)->0 + 1) as u64),
        final(mgr).alert_rules == old(mgr).alert_rules,
{
    let mut more = mgr.increment_metric(name, now);
    lines.append(&mut more);
}

/// `after` is `before` followed by the alerts raised at `now` by the rules
/// among `rules` that are on and fire on `m`, in rule order.
pub open spec fn alerts_raised(before: Seq<Alert>, after: Seq<Alert>, rules: Seq<AlertRule>, m: PrometheusMetrics, now: u64) -> bool {
    &&& after.len() == before.len() + firing(rules, m).len()
    &&& forall|i: int| 0 <= i < before.len() ==> #[trigger] after[i] == before[i]
    &&& forall|i: int| 0 <= i < firing(rules, m).len() ==>
        alert_for(#[trigger] after[before.len() + i], firing(rules, m)[i], m, now)
}

/// The lines logged when a name the manager does not keep is raised: the
/// warning "Unknown metric: {name}" first, then two lines per alert raised.
pub open spec fn unknown_lines(lines: Seq<LogLine>, name: Seq<char>, rules: Seq<AlertRule>, m: PrometheusMetrics) -> bool {
    &&& lines.len() == 1 + 2 * firing(rules, m).len()
    &&& lines[0].level == LogLevel::Warn
    &&& lines[0].message@ == "Unknown metric: "@ + name
}

/// Raises a name the manager does not keep: no counter changes, the
/// manager logs the unknown name, and the alert rules are checked at `now`.
fn raise_unknown(mgr: &mut MonitoringManager, name: &str, now: u64, lines: &mut Vec<LogLine>)
    requires
        counter(old(mgr).metrics, name@) is None,
    ensures
        final(mgr).metrics == old(mgr).metrics,
        final(mgr).alert_rules == old(mgr).alert_rules,
        alerts_raised(old(mgr).alerts@, final(mgr).alerts@, old(mgr).alert_rules@, old(mgr).metrics, now),
        final(lines)@.subrange(0, old(lines)@.len() as int) == old(lines)@,
        unknown_lines(final(lines)@.subrange(old(lines)@.len() as int, final(lines)@.len() as int), name@,
            old(mgr).alert_rules@, old(mgr).metrics),
{
    let ghost before = lines@;
    let mut more = mgr.increment_metric(name, now);
    let ghost added = more@;
    lines.append(&mut more);
    proof {
        assert(lines@ == before + added);
        assert(lines@.subrange(0, before.len() as int) =~= before);
        assert(lines@.subrange(before.len() as int, lines@.len() as int) =~= added);
    }
}

/// How a request ended.
#[derive(Debug, Clone, Copy, PartialEq, Eq, Structural)]
pub enum RequestOutcome {
    /// Answered with a success status.
    Success,
    /// Answered with another status.
    ErrorStatus,
    /// The service failed before answering.
    Failed,
}

/// The counters after a request. Every request raises the request count,
/// and a failed one the failure and network-error counts, none of which the
/// manager keeps. An answered one raises the success or failure count; the
/// transactions received for a path with `/transaction` or `/submit`; the
/// BLE connections for `/ble`; the authentication failures for `/auth`
/// answered with an error status; and the compression and database counts,
/// which the manager does not keep.
pub open spec fn counted(m: PrometheusMetrics, path: Seq<char>, outcome: RequestOutcome) -> PrometheusMetrics {
    match outcome {
        RequestOutcome::Failed => m,
        _ => PrometheusMetrics {
            transactions_received: if seq_contains(path, "/transaction"@) || seq_contains(path, "/submit"@) {
                (m.transactions_received + 1) as u64
            } else {
                m.transactions_received
            },
            ble_connections: if seq_contains(path, "/ble"@) { (m.ble_connections + 1) as u64 } else { m.ble_connections },
            auth_failures: if seq_contains(path, "/auth"@) && outcome == RequestOutcome::ErrorStatus {
                (m.auth_failures + 1) as u64
            } else {
                m.auth_failures
            },
            ..m
        },
    }
}

/// Request counting as it is installed.
pub struct MetricsMiddleware {
    pub monitoring_manager: MonitoringManager,
}

impl MetricsMiddleware {
    /// Counting into `monitoring_manager`.
    pub fn new(monitoring_manager: MonitoringManager) -> (m: Self)
        ensures
            m.monitoring_manager == monitoring_manager,
    {
        MetricsMiddleware { monitoring_manager }
    }

    /// The service that counts requests into this manager.
    pub fn into_service(self) -> (s: MetricsService)
        ensures
            s.monitoring_manager == self.monitoring_manager,
    {
        MetricsService { monitoring_manager: self.monitoring_manager }
    }
}

/// Request counting as it answers requests.
pub struct MetricsService {
    pub monitoring_manager: MonitoringManager,
}

impl MetricsService {
    /// Counts a request that ended with `outcome` (see `counted`), checking
    /// the alert rules after each count; returns the lines to log. The
    /// response time is the caller's to record.
    pub fn record_request(&mut self, path: &str, outcome: RequestOutcome, now: u64) -> (lines: Vec<LogLine>)
        requires
            old(self).monitoring_manager.metrics.transactions_received < u64::MAX,
            old(self).monitoring_manager.metrics.ble_connections < u64::MAX,
            old(self).monitoring_manager.metrics.auth_failures < u64::MAX,
        ensures
            final(self).monitoring_manager.metrics == counted(old(self).monitoring_manager.metrics, path@, outcome),
            final(self).monitoring_manager.alert_rules == old(self).monitoring_manager.alert_rules,
    {
        let mut lines: Vec<LogLine> = Vec::new();
        let ghost m0 = self.monitoring_manager.metrics;
        proof { lemma_unknown_counters(self.monitoring_manager.metrics); }
        raise_unknown(&mut self.monitoring_manager, "requests_total", now, &mut lines);
        match outcome {
            RequestOutcome::Failed => {
                proof { lemma_unknown_counters(self.monitoring_manager.metrics); }
                raise_unknown(&mut self.monitoring_manager, "requests_failed", now, &mut lines);
                proof { lemma_unknown_counters(self.monitoring_manager.metrics); }
                raise_unknown(&mut self.monitoring_manager, "network_errors", now, &mut lines);
            }
            _ => {
                let ok = outcome == RequestOutcome::Success;
                proof { lemma_unknown_counters(self.monitoring_manager.metrics); }
                if ok {
                    raise_unknown(&mut self.monitoring_manager, "requests_successful", now, &mut lines);
                } else {
                    raise_unknown(&mut self.monitoring_manager, "requests_failed", now, &mut lines);
                }
                if contains(path, "/transaction") || contains(path, "/submit") {
                    proof { lemma_known_counters(self.monitoring_manager.metrics, (m0.transactions_received + 1) as u64); }
                    raise_known(&mut self.monitoring_manager, "transactions_received", now, &mut lines);
                }
                if contains(path, "/ble") {
                    proof { lemma_known_counters(self.monitoring_manager.metrics, (m0.ble_connections + 1) as u64); }
                    raise_known(&mut self.monitoring_manager, "ble_connections", now, &mut lines);
                }
                if contains(path, "/auth") && !ok {
                    proof { lemma_known_counters(self.monitoring_manager.metrics, (m0.auth_failures + 1) as u64); }
                    raise_known(&mut self.monitoring_manager, "auth_failures", now, &mut lines);
                }
                if contains(path, "/compress") {
                    proof { lemma_unknown_counters(self.monitoring_manager.metrics); }
                    raise_unknown(&mut self.monitoring_manager, "compression_operations", now, &mut lines);
                }
                if contains(path, "/database") {
                    proof { lemma_unknown_counters(self.monitoring_manager.metrics); }
                    raise_unknown(&mut self.monitoring_manager, "database_operations", now, &mut lines);
                    if !ok {
                        proof { lemma_unknown_counters(self.monitoring_manager.metrics); }
                        raise_unknown(&mut self.monitoring_manager, "database_errors", now, &mut lines);
                    }
                }
            }
        }
        lines
    }
}

/// Named counting calls into a monitoring manager. Each raises one count
/// and checks the alert rules, returning the lines to log; a name the
/// manager does not keep changes no counter and is logged as unknown.
pub struct MetricsCollector {
    pub monitoring_manager: MonitoringManager,
}

impl MetricsCollector {
    /// Counting into `monitoring_manager`.
    pub fn new(monitoring_manager: MonitoringManager) -> (c: Self)
        ensures
            c.monitoring_manager == monitoring_manager,
    {
        MetricsCollector { monitoring_manager }
    }

    /// The counters.
    pub fn get_metrics(&self) -> (m: PrometheusMetrics)
        ensures
            m == self.monitoring_manager.metrics,
    {
        self.monitoring_manager.get_metrics()
    }

    pub fn record_transaction_processed(&mut self, now: u64) -> (lines: Vec<LogLine>)
        requires
            old(self).monitoring_manager.metrics.transactions_processed < u64::MAX,
        ensures
            final(self).monitoring_manager.metrics == (PrometheusMetrics {
                transactions_processed: (old(self).monitoring_manager.metrics.transactions_processed + 1) as u64,
                ..old(self).monitoring_manager.metrics
            }),
    {
        let mut lines: Vec<LogLine> = Vec::new();
        proof { lemma_known_counters(self.monitoring_manager.metrics, (self.monitoring_manager.metrics.transactions_processed + 1) as u64); }
        raise_known(&mut self.monitoring_manager, "transactions_processed", now, &mut lines);
        lines
    }

    pub fn record_transaction_failed(&mut self, now: u64) -> (lines: Vec<LogLine>)
        requires
            old(self).monitoring_manager.metrics.transactions_failed < u64::MAX,
        ensures
            final(self).monitoring_manager.metrics == (PrometheusMetrics {
                transactions_failed: (old(self).monitoring_manager.metrics.transactions_failed + 1) as u64,
                ..old(self).monitoring_manager.metrics
            }),
    {
        let mut lines: Vec<LogLine> = Vec::new();
        proof { lemma_known_counters(self.monitoring_manager.metrics, (self.monitoring_manager.metrics.transactions_failed + 1) as u64); }
        raise_known(&mut self.monitoring_manager, "transactions_failed", now, &mut lines);
        lines
    }

    pub fn record_transaction_broadcasted(&mut self, now: u64) -> (lines: Vec<LogLine>)
        requires
            old(self).monitoring_manager.metrics.transactions_broadcasted < u64::MAX,
        ensures
            final(self).monitoring_manager.metrics == (PrometheusMetrics {
                transactions_broadcasted: (old(self).monitoring_manager.metrics.transactions_broadcasted + 1) as u64,
                ..old(self).monitoring_manager.metrics
            }),
    {
        let mut lines: Vec<LogLine> = Vec::new();
        proof { lemma_known_counters(self.monitoring_manager.metrics, (self.monitoring_manager.metrics.transactions_broadcasted + 1) as u64); }
        raise_known(&mut self.monitoring_manager, "transactions_broadcasted", now, &mut lines);
        lines
    }

    pub fn record_ble_connection(&mut self, now: u64) -> (lines: Vec<LogLine>)
        requires
            old(self).monitoring_manager.metrics.ble_connections < u64::MAX,
        ensures
            final(self).monitoring_manager.metrics == (PrometheusMetrics {
                ble_connections: (old(self).monitoring_manager.metrics.ble_connections + 1) as u64,
                ..old(self).monitoring_manager.metrics
            }),
    {
        let mut lines: Vec<LogLine> = Vec::new();
        proof { lemma_known_counters(self.monitoring_manager.metrics, (self.monitoring_manager.metrics.ble_connections + 1) as u64); }
        raise_known(&mut self.monitoring_manager, "ble_connections", now, &mut lines);
        lines
    }

    pub fn record_ble_disconnection(&mut self, now: u64) -> (lines: Vec<LogLine>)
        requires
            old(self).monitoring_manager.metrics.ble_disconnections < u64::MAX,
        ensures
            final(self).monitoring_manager.metrics == (PrometheusMetrics {
                ble_disconnections: (old(self).monitoring_manager.metrics.ble_disconnections + 1) as u64,
                ..old(self).monitoring_manager.metrics
            }),
    {
        let mut lines: Vec<LogLine> = Vec::new();
        proof { lemma_known_counters(self.monitoring_manager.metrics, (self.monitoring_manager.metrics.ble_disconnections + 1) as u64); }
        raise_known(&mut self.monitoring_manager, "ble_disconnections", now, &mut lines);
        lines
    }

    pub fn record_ble_authentication(&mut self, now: u64) -> (lines: Vec<LogLine>)
        requires
            old(self).monitoring_manager.metrics.ble_authentications < u64::MAX,
        ensures
            final(self).monitoring_manager.metrics == (PrometheusMetrics {
                ble_authentications: (old(self).monitoring_manager.metrics.ble_authentications + 1) as u64,
                ..old(self).monitoring_manager.metrics
            }),
    {
        let mut lines: Vec<LogLine> = Vec::new();
        proof { lemma_known_counters(self.monitoring_manager.metrics, (self.monitoring_manager.metrics.ble_authentications + 1) as u64); }
        raise_known(&mut self.monitoring_manager, "ble_authentications", now, &mut lines);
        lines
    }

    pub fn record_ble_key_exchange(&mut self, now: u64) -> (lines: Vec<LogLine>)
        requires
            old(self).monitoring_manager.metrics.ble_key_exchanges < u64::MAX,
        ensures
            final(self).monitoring_manager.metrics == (PrometheusMetrics {
                ble_key_exchanges: (old(self).monitoring_manager.metrics.ble_key_exchanges + 1) as u64,
                ..old(self).monitoring_manager.metrics
            }),
    {
        let mut lines: Vec<LogLine> = Vec::new();
        proof { lemma_known_counters(self.monitoring_manager.metrics, (self.monitoring_manager.metrics.ble_key_exchanges + 1) as u64); }
        raise_known(&mut self.monitoring_manager, "ble_key_exchanges", now, &mut lines);
        lines
    }

    pub fn record_rpc_error(&mut self, now: u64) -> (lines: Vec<LogLine>)
        requires
            old(self).monitoring_manager.metrics.rpc_errors < u64::MAX,
        ensures
            final(self).monitoring_manager.metrics == (PrometheusMetrics {
                rpc_errors: (old(self).monitoring_manager.metrics.rpc_errors + 1) as u64,
                ..old(self).monitoring_manager.metrics
            }),
    {
        let mut lines: Vec<LogLine> = Vec::new();
        proof { lemma_known_counters(self.monitoring_manager.metrics, (self.monitoring_manager.metrics.rpc_errors + 1) as u64); }
        raise_known(&mut self.monitoring_manager, "rpc_errors", now, &mut lines);
        lines
    }

    pub fn record_auth_failure(&mut self, now: u64) -> (lines: Vec<LogLine>)
        requires
            old(self).monitoring_manager.metrics.auth_failures < u64::MAX,
        ensures
            final(self).monitoring_manager.metrics == (PrometheusMetrics {
                auth_failures: (old(self).monitoring_manager.metrics.auth_failures + 1) as u64,
                ..old(self).monitoring_manager.metrics
            }),
    {
        let mut lines: Vec<LogLine> = Vec::new();
        proof { lemma_known_counters(self.monitoring_manager.metrics, (self.monitoring_manager.metrics.auth_failures + 1) as u64); }
        raise_known(&mut self.monitoring_manager, "auth_failures", now, &mut lines);
        lines
    }

    pub fn record_rate_limit_hit(&mut self, now: u64) -> (lines: Vec<LogLine>)
        requires
            old(self).monitoring_manager.metrics.rate_limit_hits < u64::MAX,
        ensures
            final(self).monitoring_manager.metrics == (PrometheusMetrics {
                rate_limit_hits: (old(self).monitoring_manager.metrics.rate_limit_hits + 1) as u64,
                ..old(self).monitoring_manager.metrics
            }),
    {
        let mut lines: Vec<LogLine> = Vec::new();
        proof { lemma_known_counters(self.monitoring_manager.metrics, (self.monitoring_manager.metrics.rate_limit_hits + 1) as u64); }
        raise_known(&mut self.monitoring_manager, "rate_limit_hits", now, &mut lines);
        lines
    }

    pub fn record_blocked_device(&mut self, now: u64) -> (lines: Vec<LogLine>)
        requires
            old(self).monitoring_manager.metrics.blocked_devices < u64::MAX,
        ensures
            final(self).monitoring_manager.metrics == (PrometheusMetrics {
                blocked_devices: (old(self).monitoring_manager.metrics.blocked_devices + 1) as u64,
                ..old(self).monitoring_manager.metrics
            }),
    {
        let mut lines: Vec<LogLine> = Vec::new();
        proof { lemma_known_counters(self.monitoring_manager.metrics, (self.monitoring_manager.metrics.blocked_devices + 1) as u64); }
        raise_known(&mut self.monitoring_manager, "blocked_devices", now, &mut lines);
        lines
    }

    pub fn record_gas_price_update(&mut self, now: u64) -> (lines: Vec<LogLine>)
        requires
            old(self).monitoring_manager.metrics.gas_price_updates < u64::MAX,
        ensures
            final(self).monitoring_manager.metrics == (PrometheusMetrics {
                gas_price_updates: (old(self).monitoring_manager.metrics.gas_price_updates + 1) as u64,
                ..old(self).monitoring_manager.metrics
            }),
    {
        let mut lines: Vec<LogLine> = Vec::new();
        proof { lemma_known_counters(self.monitoring_manager.metrics, (self.monitoring_manager.metrics.gas_price_updates + 1) as u64); }
        raise_known(&mut self.monitoring_manager, "gas_price_updates", now, &mut lines);
        lines
    }

    pub fn record_contract_event(&mut self, now: u64) -> (lines: Vec<LogLine>)
        requires
            old(self).monitoring_manager.metrics.contract_events < u64::MAX,
        ensures
            final(self).monitoring_manager.metrics == (PrometheusMetrics {
                contract_events: (old(self).monitoring_manager.metrics.contract_events + 1) as u64,
                ..old(self).monitoring_manager.metrics
            }),
    {
        let mut lines: Vec<LogLine> = Vec::new();
        proof { lemma_known_counters(self.monitoring_manager.metrics, (self.monitoring_manager.metrics.contract_events + 1) as u64); }
        raise_known(&mut self.monitoring_manager, "contract_events", now, &mut lines);
        lines
    }

    /// Counts a compression (the manager keeps no such counter; the caller
    /// logs the ratio of the sizes).
    pub fn record_compression_operation(&mut self, now: u64) -> (lines: Vec<LogLine>)
        ensures
            final(self).monitoring_manager.metrics == old(self).monitoring_manager.metrics,
            final(self).monitoring_manager.alert_rules == old(self).monitoring_manager.alert_rules,
            alerts_raised(old(self).monitoring_manager.alerts@, final(self).monitoring_manager.alerts@,
                old(self).monitoring_manager.alert_rules@, old(self).monitoring_manager.metrics, now),
            unknown_lines(lines@, "compression_operations"@, old(self).monitoring_manager.alert_rules@, old(self).monitoring_manager.metrics),
    {
        let mut lines: Vec<LogLine> = Vec::new();
        proof { lemma_unknown_counters(self.monitoring_manager.metrics); }
        raise_unknown(&mut self.monitoring_manager, "compression_operations", now, &mut lines);
        proof { assert(lines@.subrange(0, lines@.len() as int) =~= lines@); }
        lines
    }

    pub fn record_security_event(&mut self, now: u64) -> (lines: Vec<LogLine>)
        ensures
            final(self).monitoring_manager.metrics == old(self).monitoring_manager.metrics,
            final(self).monitoring_manager.alert_rules == old(self).monitoring_manager.alert_rules,
            alerts_raised(old(self).monitoring_manager.alerts@, final(self).monitoring_manager.alerts@,
                old(self).monitoring_manager.alert_rules@, old(self).monitoring_manager.metrics, now),
            unknown_lines(lines@, "security_events"@, old(self).monitoring_manager.alert_rules@, old(self).monitoring_manager.metrics),
    {
        let mut lines: Vec<LogLine> = Vec::new();
        proof { lemma_unknown_counters(self.monitoring_manager.metrics); }
        raise_unknown(&mut self.monitoring_manager, "security_events", now, &mut lines);
        proof { assert(lines@.subrange(0, lines@.len() as int) =~= lines@); }
        lines
    }

    pub fn record_validation_failure(&mut self, now: u64) -> (lines: Vec<LogLine>)
        ensures
            final(self).monitoring_manager.metrics == old(self).monitoring_manager.metrics,
            final(self).monitoring_manager.alert_rules == old(self).monitoring_manager.alert_rules,
            alerts_raised(old(self).monitoring_manager.alerts@, final(self).monitoring_manager.alerts@,
                old(self).monitoring_manager.alert_rules@, old(self).monitoring_manager.metrics, now),
            unknown_lines(lines@, "validation_failures"@, old(self).monitoring_manager.alert_rules@, old(self).monitoring_manager.metrics),
    {
        let mut lines: Vec<LogLine> = Vec::new();
        proof { lemma_unknown_counters(self.monitoring_manager.metrics); }
        raise_unknown(&mut self.monitoring_manager, "validation_failures", now, &mut lines);
        proof { assert(lines@.subrange(0, lines@.len() as int) =~= lines@); }
        lines
    }

    pub fn record_cache_hit(&mut self, now: u64) -> (lines: Vec<LogLine>)
        ensures
            final(self).monitoring_manager.metrics == old(self).monitoring_manager.metrics,
            final(self).monitoring_manager.alert_rules == old(self).monitoring_manager.alert_rules,
            alerts_raised(old(self).monitoring_manager.alerts@, final(self).monitoring_manager.alerts@,
                old(self).monitoring_manager.alert_rules@, old(self).monitoring_manager.metrics, now),
            unknown_lines(lines@, "cache_hits"@, old(self).monitoring_manager.alert_rules@, old(self).monitoring_manager.metrics),
    {
        let mut lines: Vec<LogLine> = Vec::new();
        proof { lemma_unknown_counters(self.monitoring_manager.metrics); }
        raise_unknown(&mut self.monitoring_manager, "cache_hits", now, &mut lines);
        proof { assert(lines@.subrange(0, lines@.len() as int) =~= lines@); }
        lines
    }

    pub fn record_cache_miss(&mut self, now: u64) -> (lines: Vec<LogLine>)
        ensures
            final(self).monitoring_manager.metrics == old(self).monitoring_manager.metrics,
            final(self).monitoring_manager.alert_rules == old(self).monitoring_manager.alert_rules,
            alerts_raised(old(self).monitoring_manager.alerts@, final(self).monitoring_manager.alerts@,
                old(self).monitoring_manager.alert_rules@, old(self).monitoring_manager.metrics, now),
            unknown_lines(lines@, "cache_misses"@, old(self).monitoring_manager.alert_rules@, old(self).monitoring_manager.metrics),
    {
        let mut lines: Vec<LogLine> = Vec::new();
        proof { lemma_unknown_counters(self.monitoring_manager.metrics); }
        raise_unknown(&mut self.monitoring_manager, "cache_misses", now, &mut lines);
        proof { assert(lines@.subrange(0, lines@.len() as int) =~= lines@); }
        lines
    }

    pub fn record_blockchain_confirmation(&mut self, now: u64) -> (lines: Vec<LogLine>)
        ensures
            final(self).monitoring_manager.metrics == old(self).monitoring_manager.metrics,
            final(self).monitoring_manager.alert_rules == old(self).monitoring_manager.alert_rules,
            alerts_raised(old(self).monitoring_manager.alerts@, final(self).monitoring_manager.alerts@,
                old(self).monitoring_manager.alert_rules@, old(self).monitoring_manager.metrics, now),
            unknown_lines(lines@, "blockchain_confirmations"@, old(self).monitoring_manager.alert_rules@, old(self).monitoring_manager.metrics),
    {
        let mut lines: Vec<LogLine> = Vec::new();
        proof { lemma_unknown_counters(self.monitoring_manager.metrics); }
        raise_unknown(&mut self.monitoring_manager, "blockchain_confirmations", now, &mut lines);
        proof { assert(lines@.subrange(0, lines@.len() as int) =~= lines@); }
        lines
    }

    pub fn record_blockchain_timeout(&mut self, now: u64) -> (lines: Vec<LogLine>)
        ensures
            final(self).monitoring_manager.metrics == old(self).monitoring_manager.metrics,
            final(self).monitoring_manager.alert_rules == old(self).monitoring_manager.alert_rules,
            alerts_raised(old(self).monitoring_manager.alerts@, final(self).monitoring_manager.alerts@,
                old(self).monitoring_manager.alert_rules@, old(self).monitoring_manager.metrics, now),
            unknown_lines(lines@, "blockchain_timeouts"@, old(self).monitoring_manager.alert_rules@, old(self).monitoring_manager.metrics),
    {
        let mut lines: Vec<LogLine> = Vec::new();
        proof { lemma_unknown_counters(self.monitoring_manager.metrics); }
        raise_unknown(&mut self.monitoring_manager, "blockchain_timeouts", now, &mut lines);
        proof { assert(lines@.subrange(0, lines@.len() as int) =~= lines@); }
        lines
    }

    pub fn record_database_operation(&mut self, now: u64) -> (lines: Vec<LogLine>)
        ensures
            final(self).monitoring_manager.metrics == old(self).monitoring_manager.metrics,
            final(self).monitoring_manager.alert_rules == old(self).monitoring_manager.alert_rules,
            alerts_raised(old(self).monitoring_manager.alerts@, final(self).monitoring_manager.alerts@,
                old(self).monitoring_manager.alert_rules@, old(self).monitoring_manager.metrics, now),
            unknown_lines(lines@, "database_operations"@, old(self).monitoring_manager.alert_rules@, old(self).monitoring_manager.metrics),
    {
        let mut lines: Vec<LogLine> = Vec::new();
        proof { lemma_unknown_counters(self.monitoring_manager.metrics); }
        raise_unknown(&mut self.monitoring_manager, "database_operations", now, &mut lines);
        proof { assert(lines@.subrange(0, lines@.len() as int) =~= lines@); }
        lines
    }

    pub fn record_database_error(&mut self, now: u64) -> (lines: Vec<LogLine>)
        ensures
            final(self).monitoring_manager.metrics == old(self).monitoring_manager.metrics,
            final(self).monitoring_manager.alert_rules == old(self).monitoring_manager.alert_rules,
            alerts_raised(old(self).monitoring_manager.alerts@, final(self).monitoring_manager.alerts@,
                old(self).monitoring_manager.alert_rules@, old(self).monitoring_manager.metrics, now),
            unknown_lines(lines@, "database_errors"@, old(self).monitoring_manager.alert_rules@, old(self).monitoring_manager.metrics),
    {
        let mut lines: Vec<LogLine> = Vec::new();
        proof { lemma_unknown_counters(self.monitoring_manager.metrics); }
        raise_unknown(&mut self.monitoring_manager, "database_errors", now, &mut lines);
        proof { assert(lines@.subrange(0, lines@.len() as int) =~= lines@); }
        lines
    }

    pub fn record_network_error(&mut self, now: u64) -> (lines: Vec<LogLine>)
        ensures
            final(self).monitoring_manager.metrics == old(self).monitoring_manager.metrics,
            final(self).monitoring_manager.alert_rules == old(self).monitoring_manager.alert_rules,
            alerts_raised(old(self).monitoring_manager.alerts@, final(self).monitoring_manager.alerts@,
                old(self).monitoring_manager.alert_rules@, old(self).monitoring_manager.metrics, now),
            unknown_lines(lines@, "network_errors"@, old(self).monitoring_manager.alert_rules@, old(self).monitoring_manager.metrics),
    {
        let mut lines: Vec<LogLine> = Vec::new();
        proof { lemma_unknown_counters(self.monitoring_manager.metrics); }
        raise_unknown(&mut self.monitoring_manager, "network_errors", now, &mut lines);
        proof { assert(lines@.subrange(0, lines@.len() as int) =~= lines@); }
        lines
    }
}

} // verus!
