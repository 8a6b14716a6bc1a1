//! Monitoring: the relay's counters, alert rules over them, the alerts they
//! raise, and the health summary. Rule thresholds are exact fractions;
//! uptime and CPU load are the caller's.
use vstd::prelude::*;
use crate::digest::new_uuid;
use crate::logger::{LogLevel, LogLine};
use crate::text::{concat2, concat3, owned, str_eq};

verus! {

/// The relay's counters.
#[derive(Debug, Clone, Copy)]
pub struct PrometheusMetrics {
    pub transactions_received: u64,
    pub transactions_processed: u64,
    pub transactions_failed: u64,
    pub transactions_broadcasted: u64,
    pub ble_connections: u64,
    pub ble_disconnections: u64,
    pub ble_authentications: u64,
    pub ble_key_exchanges: u64,
    pub rpc_errors: u64,
    pub gas_price_updates: u64,
    pub contract_events: u64,
    pub auth_failures: u64,
    pub rate_limit_hits: u64,
    pub blocked_devices: u64,
    pub memory_usage_bytes: u64,
}

/// How serious an alert is.
#[derive(Debug, Clone, Copy, PartialEq, Eq, Structural)]
pub enum AlertSeverity {
    Info,
    Warning,
    Critical,
}

/// An alert raised by a rule.
pub struct Alert {
    pub id: String,
    pub name: String,
    pub severity: AlertSeverity,
    pub message: String,
    /// Milliseconds since the Unix epoch.
    pub timestamp: u64,
    pub resolved: bool,
    /// The counters when the alert was raised.
    pub metrics: PrometheusMetrics,
}

/// A rule: a named condition, its threshold as the fraction
/// `threshold_num / threshold_den`, the severity of its alerts, and whether it is on.
pub struct AlertRule {
    pub name: String,
    pub condition: String,
    pub threshold_num: u64,
    pub threshold_den: u64,
    pub severity: AlertSeverity,
    pub enabled: bool,
}

/// The health summary (uptime and CPU load are the caller's).
pub struct HealthSummary {
    /// `unhealthy` while a critical alert is unresolved, else `healthy`.
    pub status: String,
    pub memory_usage_bytes: u64,
    pub active_alerts: u64,
    pub transactions_received: u64,
    pub transactions_processed: u64,
    pub transactions_failed: u64,
    pub transactions_broadcasted: u64,
    pub ble_connections: u64,
    pub ble_disconnections: u64,
    pub ble_authentications: u64,
    pub ble_key_exchanges: u64,
}

/// The monitor.
pub struct MonitoringManager {
    pub metrics: PrometheusMetrics,
    pub alerts: Vec<Alert>,
    pub alert_rules: Vec<AlertRule>,
    /// Milliseconds since the Unix epoch.
    pub start_time: u64,
}

/// The name of a severity, as notifications show it.
pub open spec fn severity_label(s: AlertSeverity) -> Seq<char> {
    match s {
        AlertSeverity::Info => "INFO"@,
        AlertSeverity::Warning => "WARNING"@,
        AlertSeverity::Critical => "CRITICAL"@,
    }
}

impl AlertSeverity {
    /// The name of the severity.
    pub fn name(&self) -> (s: String)
        ensures
            s@ == severity_label(*self),
    {
        match self {
            AlertSeverity::Info => owned("INFO"),
            AlertSeverity::Warning => owned("WARNING"),
            AlertSeverity::Critical => owned("CRITICAL"),
        }
    }
}

impl PrometheusMetrics {
    /// All counters at zero.
    pub fn new() -> (m: Self)
        ensures
            m == Self::zero(),
    {
        PrometheusMetrics {
            transactions_received: 0,
            transactions_processed: 0,
            transactions_failed: 0,
            transactions_broadcasted: 0,
            ble_connections: 0,
            ble_disconnections: 0,
            ble_authentications: 0,
            ble_key_exchanges: 0,
            rpc_errors: 0,
            gas_price_updates: 0,
            contract_events: 0,
            auth_failures: 0,
            rate_limit_hits: 0,
            blocked_devices: 0,
            memory_usage_bytes: 0,
        }
    }

    /// All counters at zero.
    pub open spec fn zero() -> Self {
        PrometheusMetrics {
            transactions_received: 0,
            transactions_processed: 0,
            transactions_failed: 0,
            transactions_broadcasted: 0,
            ble_connections: 0,
            ble_disconnections: 0,
            ble_authentications: 0,
            ble_key_exchanges: 0,
            rpc_errors: 0,
            gas_price_updates: 0,
            contract_events: 0,
            auth_failures: 0,
            rate_limit_hits: 0,
            blocked_devices: 0,
            memory_usage_bytes: 0,
        }
    }
}

/// The counter called `name`, if there is one (the memory figure is not a
/// named counter).
pub open spec fn counter(m: PrometheusMetrics, name: Seq<char>) -> Option<u64> {
    if name == "transactions_received"@ { Some(m.transactions_received) }
    else if name == "transactions_processed"@ { Some(m.transactions_processed) }
    else if name == "transactions_failed"@ { Some(m.transactions_failed) }
    else if name == "transactions_broadcasted"@ { Some(m.transactions_broadcasted) }
    else if name == "ble_connections"@ { Some(m.ble_connections) }
    else if name == "ble_disconnections"@ { Some(m.ble_disconnections) }
    else if name == "ble_authentications"@ { Some(m.ble_authentications) }
    else if name == "ble_key_exchanges"@ { Some(m.ble_key_exchanges) }
    else if name == "rpc_errors"@ { Some(m.rpc_errors) }
    else if name == "gas_price_updates"@ { Some(m.gas_price_updates) }
    else if name == "contract_events"@ { Some(m.contract_events) }
    else if name == "auth_failures"@ { Some(m.auth_failures) }
    else if name == "rate_limit_hits"@ { Some(m.rate_limit_hits) }
    else if name == "blocked_devices"@ { Some(m.blocked_devices) }
    else { None }
}

/// The counters with the one called `name` set to `v` (unchanged for an unknown name).
pub open spec fn with_counter(m: PrometheusMetrics, name: Seq<char>, v: u64) -> PrometheusMetrics {
    if name == "transactions_received"@ { PrometheusMetrics { transactions_received: v, ..m } }
    else if name == "transactions_processed"@ { PrometheusMetrics { transactions_processed: v, ..m } }
    else if name == "transactions_failed"@ { PrometheusMetrics { transactions_failed: v, ..m } }
    else if name == "transactions_broadcasted"@ { PrometheusMetrics { transactions_broadcasted: v, ..m } }
    else if name == "ble_connections"@ { PrometheusMetrics { ble_connections: v, ..m } }
    else if name == "ble_disconnections"@ { PrometheusMetrics { ble_disconnections: v, ..m } }
    else if name == "ble_authentications"@ { PrometheusMetrics { ble_authentications: v, ..m } }
    else if name == "ble_key_exchanges"@ { PrometheusMetrics { ble_key_exchanges: v, ..m } }
    else if name == "rpc_errors"@ { PrometheusMetrics { rpc_errors: v, ..m } }
    else if name == "gas_price_updates"@ { PrometheusMetrics { gas_price_updates: v, ..m } }
    else if name == "contract_events"@ { PrometheusMetrics { contract_events: v, ..m } }
    else if name == "auth_failures"@ { PrometheusMetrics { auth_failures: v, ..m } }
    else if name == "rate_limit_hits"@ { PrometheusMetrics { rate_limit_hits: v, ..m } }
    else if name == "blocked_devices"@ { PrometheusMetrics { blocked_devices: v, ..m } }
    else { m }
}

/// Whether a rule's condition holds of the counters: a failure ratio above
/// the threshold (with at least one transaction received), a count above
/// (or, for BLE connections, below) it; an unknown condition never holds.
pub open spec fn rule_triggered(rule: AlertRule, m: PrometheusMetrics) -> bool {
    let c = rule.condition@;
    let num = rule.threshold_num as int;
    let den = rule.threshold_den as int;
    if c == "transactions_failed / transactions_received > 0.1"@ {
        m.transactions_received > 0 && m.transactions_failed * den > num * m.transactions_received
    } else if c == "rpc_errors > 100"@ {
        m.rpc_errors * den > num
    } else if c == "auth_failures > 50"@ {
        m.auth_failures * den > num
    } else if c == "ble_connections < 1"@ {
        m.ble_connections * den < num
    } else if c == "memory_usage_bytes > 1073741824"@ {
        m.memory_usage_bytes * den > num
    } else {
        false
    }
}

/// The rules among `rules` that are on and whose condition holds, in order.
pub open spec fn firing(rules: Seq<AlertRule>, m: PrometheusMetrics) -> Seq<AlertRule>
    decreases rules.len(),
{
    if rules.len() == 0 {
        Seq::empty()
    } else {
        let rest = firing(rules.drop_last(), m);
        if rules.last().enabled && rule_triggered(rules.last(), m) { rest.push(rules.last()) } else { rest }
    }
}

/// `a` is the alert raised by `rule` over `m` at `now`.
pub open spec fn alert_for(a: Alert, rule: AlertRule, m: PrometheusMetrics, now: u64) -> bool {
    &&& a.name@ == rule.name@
    &&& a.severity == rule.severity
    &&& a.message@ == "Alert triggered: "@ + rule.name@
    &&& a.timestamp == now
    &&& !a.resolved
    &&& a.metrics == m
}

/// The number of unresolved alerts, of any severity or of critical severity only.
pub open spec fn unresolved(alerts: Seq<Alert>, critical_only: bool) -> nat
    decreases alerts.len(),
{
    if alerts.len() == 0 { 0 } else {
        let a = alerts.last();
        unresolved(alerts.drop_last(), critical_only)
            + if !a.resolved && (!critical_only || a.severity == AlertSeverity::Critical) { 1nat } else { 0nat }
    }
}

/// The exact product of two `u64`s.
fn wide_mul(a: u64, b: u64) -> (r: u128)
    ensures
        r == a * b,
{
    proof {
        assert((a as int) * (b as int) <= (u64::MAX as int) * (u64::MAX as int)) by (nonlinear_arith)
            requires a <= u64::MAX, b <= u64::MAX, 0 <= a, 0 <= b;
    }
    (a as u128) * (b as u128)
}

fn rule(name: &str, condition: &str, num: u64, den: u64, severity: AlertSeverity) -> (r: AlertRule)
    ensures
        r.name@ == name@ && r.condition@ == condition@ && r.threshold_num == num && r.threshold_den == den,
        r.severity == severity && r.enabled,
{
    AlertRule { name: owned(name), condition: owned(condition), threshold_num: num, threshold_den: den, severity, enabled: true }
}

fn copy_rule(r: &AlertRule) -> (c: AlertRule)
    ensures
        c == *r,
{
    AlertRule {
        name: r.name.clone(),
        condition: r.condition.clone(),
        threshold_num: r.threshold_num,
        threshold_den: r.threshold_den,
        severity: r.severity,
        enabled: r.enabled,
    }
}

fn copy_alert(a: &Alert) -> (c: Alert)
    ensures
        c == *a,
{
    Alert {
        id: a.id.clone(),
        name: a.name.clone(),
        severity: a.severity,
        message: a.message.clone(),
        timestamp: a.timestamp,
        resolved: a.resolved,
        metrics: a.metrics,
    }
}

impl MonitoringManager {
    /// A monitor with zero counters, no alerts and the default rules, started at `now`.
    pub fn new(now: u64) -> (m: Self)
        ensures
            m.metrics == PrometheusMetrics::zero(),
            m.alerts@.len() == 0,
            m.alert_rules@.len() == 5,
            m.start_time == now,
    {
        MonitoringManager {
            metrics: PrometheusMetrics::new(),
            alerts: Vec::new(),
            alert_rules: Self::default_alert_rules(),
            start_time: now,
        }
    }

    /// The default rules: failure ratio above 1/10 (warning), more than 100
    /// RPC errors (critical), more than 50 authentication failures
    /// (warning), fewer than 1 BLE connection (info), memory above one
    /// gibibyte (warning).
    pub fn default_alert_rules() -> (rules: Vec<AlertRule>)
        ensures
            rules@.len() == 5,
            rules@[0].name@ == "high_transaction_failure_rate"@
                && rules@[0].condition@ == "transactions_failed / transactions_received > 0.1"@
                && rules@[0].threshold_num == 1 && rules@[0].threshold_den == 10
                && rules@[0].severity == AlertSeverity::Warning && rules@[0].enabled,
            rules@[1].name@ == "high_rpc_error_rate"@ && rules@[1].condition@ == "rpc_errors > 100"@
                && rules@[1].threshold_num == 100 && rules@[1].threshold_den == 1
                && rules@[1].severity == AlertSeverity::Critical && rules@[1].enabled,
            rules@[2].name@ == "high_auth_failure_rate"@ && rules@[2].condition@ == "auth_failures > 50"@
                && rules@[2].threshold_num == 50 && rules@[2].threshold_den == 1
                && rules@[2].severity == AlertSeverity::Warning && rules@[2].enabled,
            rules@[3].name@ == "low_ble_connections"@ && rules@[3].condition@ == "ble_connections < 1"@
                && rules@[3].threshold_num == 1 && rules@[3].threshold_den == 1
                && rules@[3].severity == AlertSeverity::Info && rules@[3].enabled,
            rules@[4].name@ == "high_memory_usage"@ && rules@[4].condition@ == "memory_usage_bytes > 1073741824"@
                && rules@[4].threshold_num == 1073741824 && rules@[4].threshold_den == 1
                && rules@[4].severity == AlertSeverity::Warning && rules@[4].enabled,
    {
        vec![
            rule("high_transaction_failure_rate", "transactions_failed / transactions_received > 0.1", 1, 10, AlertSeverity::Warning),
            rule("high_rpc_error_rate", "rpc_errors > 100", 100, 1, AlertSeverity::Critical),
            rule("high_auth_failure_rate", "auth_failures > 50", 50, 1, AlertSeverity::Warning),
            rule("low_ble_connections", "ble_connections < 1", 1, 1, AlertSeverity::Info),
            rule("high_memory_usage", "memory_usage_bytes > 1073741824", 1073741824, 1, AlertSeverity::Warning),
        ]
    }

    /// The counter called `name`.
    pub fn counter_value(&self, name: &str) -> (r: Option<u64>)
        ensures
            r == counter(self.metrics, name@),
    {
        if str_eq(name, "transactions_received") { Some(self.metrics.transactions_received) }
        else if str_eq(name, "transactions_processed") { Some(self.metrics.transactions_processed) }
        else if str_eq(name, "transactions_failed") { Some(self.metrics.transactions_failed) }
        else if str_eq(name, "transactions_broadcasted") { Some(self.metrics.transactions_broadcasted) }
        else if str_eq(name, "ble_connections") { Some(self.metrics.ble_connections) }
        else if str_eq(name, "ble_disconnections") { Some(self.metrics.ble_disconnections) }
        else if str_eq(name, "ble_authentications") { Some(self.metrics.ble_authentications) }
        else if str_eq(name, "ble_key_exchanges") { Some(self.metrics.ble_key_exchanges) }
        else if str_eq(name, "rpc_errors") { Some(self.metrics.rpc_errors) }
        else if str_eq(name, "gas_price_updates") { Some(self.metrics.gas_price_updates) }
        else if str_eq(name, "contract_events") { Some(self.metrics.contract_events) }
        else if str_eq(name, "auth_failures") { Some(self.metrics.auth_failures) }
        else if str_eq(name, "rate_limit_hits") { Some(self.metrics.rate_limit_hits) }
        else if str_eq(name, "blocked_devices") { Some(self.metrics.blocked_devices) }
        else { None }
    }

    /// Sets the counter called `name` (see `with_counter`).
    fn set_counter(&mut self, name: &str, v: u64)
        ensures
            final(self).metrics == with_counter(old(self).metrics, name@, v),
            final(self).alerts == old(self).alerts,
            final(self).alert_rules == old(self).alert_rules,
            final(self).start_time == old(self).start_time,
    {
        if str_eq(name, "transactions_received") { self.metrics.transactions_received = v; }
        else if str_eq(name, "transactions_processed") { self.metrics.transactions_processed = v; }
        else if str_eq(name, "transactions_failed") { self.metrics.transactions_failed = v; }
        else if str_eq(name, "transactions_broadcasted") { self.metrics.transactions_broadcasted = v; }
        else if str_eq(name, "ble_connections") { self.metrics.ble_connections = v; }
        else if str_eq(name, "ble_disconnections") { self.metrics.ble_disconnections = v; }
        else if str_eq(name, "ble_authentications") { self.metrics.ble_authentications = v; }
        else if str_eq(name, "ble_key_exchanges") { self.metrics.ble_key_exchanges = v; }
        else if str_eq(name, "rpc_errors") { self.metrics.rpc_errors = v; }
        else if str_eq(name, "gas_price_updates") { self.metrics.gas_price_updates = v; }
        else if str_eq(name, "contract_events") { self.metrics.contract_events = v; }
        else if str_eq(name, "auth_failures") { self.metrics.auth_failures = v; }
        else if str_eq(name, "rate_limit_hits") { self.metrics.rate_limit_hits = v; }
        else if str_eq(name, "blocked_devices") { self.metrics.blocked_devices = v; }
    }

    /// Whether `rule` fires on the current counters (see `rule_triggered`).
    pub fn is_triggered(&self, rule: &AlertRule) -> (r: bool)
        ensures
            r == rule_triggered(*rule, self.metrics),
    {
        let m = &self.metrics;
        let num = rule.threshold_num as u128;
        let den = rule.threshold_den;
        let c = rule.condition.as_str();
        if str_eq(c, "transactions_failed / transactions_received > 0.1") {
            m.transactions_received > 0 && wide_mul(m.transactions_failed, den) > wide_mul(rule.threshold_num, m.transactions_received)
        } else if str_eq(c, "rpc_errors > 100") {
            wide_mul(m.rpc_errors, den) > num
        } else if str_eq(c, "auth_failures > 50") {
            wide_mul(m.auth_failures, den) > num
        } else if str_eq(c, "ble_connections < 1") {
            wide_mul(m.ble_connections, den) < num
        } else if str_eq(c, "memory_usage_bytes > 1073741824") {
            wide_mul(m.memory_usage_bytes, den) > num
        } else {
            false
        }
    }

    /// Raises alerts, stamped `now`, for every rule that is on and fires,
    /// in rule order; returns the lines to log for them.
    pub fn check_alert_rules(&mut self, now: u64) -> (lines: Vec<LogLine>)
        ensures
            final(self).metrics == old(self).metrics,
            final(self).alert_rules == old(self).alert_rules,
            final(self).start_time == old(self).start_time,
            final(self).alerts@.len() == old(self).alerts@.len() + firing(old(self).alert_rules@, old(self).metrics).len(),
            forall|i: int| 0 <= i < old(self).alerts@.len() ==> #[trigger] final(self).alerts@[i] == old(self).alerts@[i],
            forall|i: int| 0 <= i < firing(old(self).alert_rules@, old(self).metrics).len() ==>
                alert_for(#[trigger] final(self).alerts@[old(self).alerts@.len() + i],
                    firing(old(self).alert_rules@, old(self).metrics)[i], old(self).metrics, now),
            lines@.len() == 2 * firing(old(self).alert_rules@, old(self).metrics).len(),
    {
        let n = self.alert_rules.len();
        let ghost start = self.alerts@;
        let mut lines: Vec<LogLine> = Vec::new();
        let mut i: usize = 0;
        while i < n
            invariant
                n == self.alert_rules@.len(),
                i <= n,
                self.metrics == old(self).metrics,
                self.alert_rules == old(self).alert_rules,
                self.start_time == old(self).start_time,
                start == old(self).alerts@,
                self.alerts@.len() == start.len() + firing(self.alert_rules@.subrange(0, i as int), self.metrics).len(),
                forall|j: int| 0 <= j < start.len() ==> #[trigger] self.alerts@[j] == start[j],
                forall|j: int| 0 <= j < firing(self.alert_rules@.subrange(0, i as int), self.metrics).len() ==>
                    alert_for(#[trigger] self.alerts@[start.len() + j],
                        firing(self.alert_rules@.subrange(0, i as int), self.metrics)[j], self.metrics, now),
                lines@.len() == 2 * firing(self.alert_rules@.subrange(0, i as int), self.metrics).len(),
            decreases n - i,
        {
            let ghost pre = self.alert_rules@.subrange(0, i as int);
            let ghost next = self.alert_rules@.subrange(0, i + 1);
            assert(next.drop_last() =~= pre);
            let r = copy_rule(&self.alert_rules[i]);
            let ghost before = self.alerts@;
            if r.enabled && self.is_triggered(&r) {
                let id = new_uuid();
                let (warn_line, notice) = self.create_alert(&r, id, now);
                lines.push(warn_line);
                lines.push(notice);
                proof {
                    assert(firing(next, self.metrics) == firing(pre, self.metrics).push(r));
                    assert forall|j: int| 0 <= j < before.len() implies #[trigger] self.alerts@[j] == before[j] by {
                        assert(self.alerts@.drop_last()[j] == self.alerts@[j]);
                    }
                    assert forall|j: int| 0 <= j < firing(next, self.metrics).len() implies
                        alert_for(#[trigger] self.alerts@[start.len() + j], firing(next, self.metrics)[j], self.metrics, now) by {
                        if j < firing(pre, self.metrics).len() {
                            assert(self.alerts@[start.len() + j] == before[start.len() + j]);
                        } else {
                            assert(start.len() + j == self.alerts@.len() - 1);
                        }
                    }
                }
            } else {
                assert(firing(next, self.metrics) == firing(pre, self.metrics));
            }
            i = i + 1;
        }
        assert(self.alert_rules@.subrange(0, n as int) =~= self.alert_rules@);
        lines
    }

    /// Raises the alert for `rule` with the given identifier at `now`, and
    /// returns its log line and its notification line.
    pub fn create_alert(&mut self, rule: &AlertRule, id: String, now: u64) -> (lines: (LogLine, LogLine))
        ensures
            final(self).alerts@.len() == old(self).alerts@.len() + 1,
            final(self).alerts@.drop_last() == old(self).alerts@,
            alert_for(final(self).alerts@.last(), *rule, old(self).metrics, now),
            final(self).alerts@.last().id == id,
            final(self).metrics == old(self).metrics,
            final(self).alert_rules == old(self).alert_rules,
            final(self).start_time == old(self).start_time,
            lines.0.level == LogLevel::Warn,
            lines.0.message@ == "Alert triggered: "@ + rule.name@ + " - "@ + "Alert triggered: "@ + rule.name@,
            lines.1.level == (match rule.severity {
                AlertSeverity::Critical => LogLevel::Error,
                AlertSeverity::Warning => LogLevel::Warn,
                AlertSeverity::Info => LogLevel::Info,
            }),
            lines.1.message@ == (match rule.severity {
                AlertSeverity::Critical => "CRITICAL ALERT: "@,
                AlertSeverity::Warning => "WARNING: "@,
                AlertSeverity::Info => "INFO: "@,
            }) + rule.name@ + " - "@ + "Alert triggered: "@ + rule.name@,
    {
        let message = concat2("Alert triggered: ", rule.name.as_str());
        let warn_line = LogLine {
            level: LogLevel::Warn,
            message: concat3("Alert triggered: ", rule.name.as_str(), concat2(" - ", message.as_str()).as_str()),
        };
        let (level, head) = match rule.severity {
            AlertSeverity::Critical => (LogLevel::Error, "CRITICAL ALERT: "),
            AlertSeverity::Warning => (LogLevel::Warn, "WARNING: "),
            AlertSeverity::Info => (LogLevel::Info, "INFO: "),
        };
        let notice = LogLine {
            level,
            message: concat3(head, rule.name.as_str(), concat2(" - ", message.as_str()).as_str()),
        };
        let alert = Alert {
            id,
            name: rule.name.clone(),
            severity: rule.severity,
            message,
            timestamp: now,
            resolved: false,
            metrics: self.metrics,
        };
        let ghost before = self.alerts@;
        self.alerts.push(alert);
        assert(self.alerts@.drop_last() =~= before);
        (warn_line, notice)
    }

    /// Sets the counter called `name` to `value` and checks the rules at
    /// `now`; an unknown name changes nothing but gives a warning line.
    pub fn update_metric(&mut self, metric_name: &str, value: u64, now: u64) -> (lines: Vec<LogLine>)
        ensures
            counter(old(self).metrics, metric_name@) is Some ==>
                final(self).metrics == with_counter(old(self).metrics, metric_name@, value)
                && lines@.len() == 2 * firing(old(self).alert_rules@, final(self).metrics).len()
                && final(self).alerts@.len() == old(self).alerts@.len() + firing(old(self).alert_rules@, final(self).metrics).len(),
            counter(old(self).metrics, metric_name@) is None ==>
                final(self).metrics == old(self).metrics
                && final(self).alerts@.len() == old(self).alerts@.len() + firing(old(self).alert_rules@, old(self).metrics).len()
                && lines@.len() == 1 + 2 * firing(old(self).alert_rules@, old(self).metrics).len()
                && lines@[0].level == LogLevel::Warn && lines@[0].message@ == "Unknown metric: "@ + metric_name@,
            final(self).alert_rules == old(self).alert_rules,
            forall|i: int| 0 <= i < old(self).alerts@.len() ==> #[trigger] final(self).alerts@[i] == old(self).alerts@[i],
            forall|i: int| 0 <= i < firing(old(self).alert_rules@, final(self).metrics).len() ==>
                alert_for(#[trigger] final(self).alerts@[old(self).alerts@.len() + i],
                    firing(old(self).alert_rules@, final(self).metrics)[i], final(self).metrics, now),
    {
        let mut lines: Vec<LogLine> = Vec::new();
        if self.counter_value(metric_name).is_some() {
            self.set_counter(metric_name, value);
        } else {
            lines.push(LogLine { level: LogLevel::Warn, message: concat2("Unknown metric: ", metric_name) });
        }
        let mut more = self.check_alert_rules(now);
        lines.append(&mut more);
        lines
    }

    /// Adds one to the counter called `name` and checks the rules at `now`;
    /// an unknown name changes nothing but gives a warning line.
    pub fn increment_metric(&mut self, metric_name: &str, now: u64) -> (lines: Vec<LogLine>)
        requires
            counter(old(self).metrics, metric_name@) is Some ==> counter(old(self).metrics, metric_name@)->0 < u64::MAX,
        ensures
            counter(old(self).metrics, metric_name@) is Some ==>
                final(self).metrics == with_counter(old(self).metrics, metric_name@,
                    (counter(old(self).metrics, metric_name@)->0 + 1) as u64)
                && final(self).alerts@.len() == old(self).alerts@.len() + firing(old(self).alert_rules@, final(self).metrics).len()
                && lines@.len() == 2 * firing(old(self).alert_rules@, final(self).metrics).len(),
            counter(old(self).metrics, metric_name@) is None ==>
                final(self).metrics == old(self).metrics
                && final(self).alerts@.len() == old(self).alerts@.len() + firing(old(self).alert_rules@, old(self).metrics).len()
                && lines@.len() == 1 + 2 * firing(old(self).alert_rules@, old(self).metrics).len()
                && lines@[0].level == LogLevel::Warn && lines@[0].message@ == "Unknown metric: "@ + metric_name@,
            final(self).alert_rules == old(self).alert_rules,
            forall|i: int| 0 <= i < old(self).alerts@.len() ==> #[trigger] final(self).alerts@[i] == old(self).alerts@[i],
            forall|i: int| 0 <= i < firing(old(self).alert_rules@, final(self).metrics).len() ==>
                alert_for(#[trigger] final(self).alerts@[old(self).alerts@.len() + i],
                    firing(old(self).alert_rules@, final(self).metrics)[i], final(self).metrics, now),
    {
        match self.counter_value(metric_name) {
            Some(v) => self.update_metric(metric_name, v + 1, now),
            None => self.update_metric(metric_name, 0, now),
        }
    }

    /// Records the memory in use (CPU load is the caller's).
    pub fn update_system_metrics(&mut self, memory_usage: u64)
        ensures
            final(self).metrics == (PrometheusMetrics { memory_usage_bytes: memory_usage, ..old(self).metrics }),
            final(self).alerts == old(self).alerts,
            final(self).alert_rules == old(self).alert_rules,
    {
        self.metrics.memory_usage_bytes = memory_usage;
    }

    /// The counters.
    pub fn get_metrics(&self) -> (m: PrometheusMetrics)
        ensures
            m == self.metrics,
    {
        self.metrics
    }

    /// The newest `limit` alerts, newest first.
    pub fn get_alerts(&self, limit: usize) -> (r: Vec<Alert>)
        ensures
            r@.len() == if limit < self.alerts@.len() { limit as nat } else { self.alerts@.len() },
            forall|i: int| 0 <= i < r@.len() ==> #[trigger] r@[i] == self.alerts@[self.alerts@.len() - 1 - i],
    {
        let n = self.alerts.len();
        let mut r: Vec<Alert> = Vec::new();
        let mut i: usize = 0;
        while i < n && i < limit
            invariant
                n == self.alerts@.len(),
                i <= n,
                i <= limit,
                r@.len() == i,
                forall|j: int| 0 <= j < i ==> #[trigger] r@[j] == self.alerts@[n - 1 - j],
            decreases n - i,
        {
            r.push(copy_alert(&self.alerts[n - 1 - i]));
            i = i + 1;
        }
        r
    }

    /// Marks the first alert with this identifier resolved; returns the line
    /// to log when there was one.
    pub fn resolve_alert(&mut self, alert_id: &str) -> (line: Option<LogLine>)
        ensures
            final(self).alerts@.len() == old(self).alerts@.len(),
            match line {
                Some(l) => l.level == LogLevel::Info && l.message@ == "Alert resolved: "@ + alert_id@
                    && exists|k: int| 0 <= k < old(self).alerts@.len() && old(self).alerts@[k].id@ == alert_id@
                        && (forall|j: int| 0 <= j < k ==> old(self).alerts@[j].id@ != alert_id@)
                        && final(self).alerts@ == old(self).alerts@.update(k, Alert { resolved: true, ..old(self).alerts@[k] }),
                None => (forall|j: int| 0 <= j < old(self).alerts@.len() ==> old(self).alerts@[j].id@ != alert_id@)
                    && final(self).alerts@ == old(self).alerts@,
            },
            final(self).metrics == old(self).metrics,
            final(self).alert_rules == old(self).alert_rules,
    {
        let mut i: usize = 0;
        while i < self.alerts.len()
            invariant
                i <= self.alerts@.len(),
                self.alerts@ == old(self).alerts@,
                self.metrics == old(self).metrics,
                self.alert_rules == old(self).alert_rules,
                forall|j: int| 0 <= j < i ==> self.alerts@[j].id@ != alert_id@,
            decreases self.alerts.len() - i,
        {
            if str_eq(self.alerts[i].id.as_str(), alert_id) {
                let mut a = copy_alert(&self.alerts[i]);
                a.resolved = true;
                self.alerts.set(i, a);
                return Some(LogLine { level: LogLevel::Info, message: concat2("Alert resolved: ", alert_id) });
            }
            i = i + 1;
        }
        None
    }

    /// Adds a rule after the others.
    pub fn add_alert_rule(&mut self, rule: AlertRule)
        ensures
            final(self).alert_rules@ == old(self).alert_rules@.push(rule),
            final(self).alerts == old(self).alerts,
            final(self).metrics == old(self).metrics,
    {
        self.alert_rules.push(rule);
    }

    /// Removes every rule with this name; the others keep their order.
    pub fn remove_alert_rule(&mut self, rule_name: &str)
        ensures
            final(self).alert_rules@ == old(self).alert_rules@.filter(|r: AlertRule| r.name@ != rule_name@),
            final(self).alerts == old(self).alerts,
            final(self).metrics == old(self).metrics,
    {
        let mut kept: Vec<AlertRule> = Vec::new();
        let n = self.alert_rules.len();
        let mut i: usize = 0;
        while i < n
            invariant
                n == self.alert_rules@.len(),
                i <= n,
                self.alert_rules@ == old(self).alert_rules@,
                self.alerts == old(self).alerts,
                self.metrics == old(self).metrics,
                kept@ == self.alert_rules@.subrange(0, i as int).filter(|r: AlertRule| r.name@ != rule_name@),
            decreases n - i,
        {
            let ghost pre = self.alert_rules@.subrange(0, i as int);
            let ghost next = self.alert_rules@.subrange(0, i + 1);
            assert(next.drop_last() =~= pre);
            reveal(Seq::filter);
            if !str_eq(self.alert_rules[i].name.as_str(), rule_name) {
                kept.push(copy_rule(&self.alert_rules[i]));
            }
            i = i + 1;
        }
        assert(self.alert_rules@.subrange(0, n as int) =~= self.alert_rules@);
        self.alert_rules = kept;
    }

    /// Turns on or off the first rule with this name.
    fn set_rule_enabled(&mut self, rule_name: &str, enabled: bool)
        ensures
            final(self).alert_rules@.len() == old(self).alert_rules@.len(),
            (forall|j: int| 0 <= j < old(self).alert_rules@.len() ==> old(self).alert_rules@[j].name@ != rule_name@)
                ==> final(self).alert_rules@ == old(self).alert_rules@,
            forall|k: int| 0 <= k < old(self).alert_rules@.len() && old(self).alert_rules@[k].name@ == rule_name@
                && (forall|j: int| 0 <= j < k ==> old(self).alert_rules@[j].name@ != rule_name@)
                ==> final(self).alert_rules@ == old(self).alert_rules@.update(k, AlertRule { enabled, ..old(self).alert_rules@[k] }),
            final(self).alerts == old(self).alerts,
            final(self).metrics == old(self).metrics,
    {
        let mut i: usize = 0;
        while i < self.alert_rules.len()
            invariant
                i <= self.alert_rules@.len(),
                self.alert_rules@ == old(self).alert_rules@,
                self.alerts == old(self).alerts,
                self.metrics == old(self).metrics,
                forall|j: int| 0 <= j < i ==> self.alert_rules@[j].name@ != rule_name@,
            decreases self.alert_rules.len() - i,
        {
            if str_eq(self.alert_rules[i].name.as_str(), rule_name) {
                let mut r = copy_rule(&self.alert_rules[i]);
                r.enabled = enabled;
                self.alert_rules.set(i, r);
                return;
            }
            i = i + 1;
        }
    }

    /// Turns on the first rule with this name.
    pub fn enable_alert_rule(&mut self, rule_name: &str)
        ensures
            final(self).alert_rules@.len() == old(self).alert_rules@.len(),
            forall|k: int| 0 <= k < old(self).alert_rules@.len() && old(self).alert_rules@[k].name@ == rule_name@
                && (forall|j: int| 0 <= j < k ==> old(self).alert_rules@[j].name@ != rule_name@)
                ==> final(self).alert_rules@ == old(self).alert_rules@.update(k, AlertRule { enabled: true, ..old(self).alert_rules@[k] }),
            (forall|j: int| 0 <= j < old(self).alert_rules@.len() ==> old(self).alert_rules@[j].name@ != rule_name@)
                ==> final(self).alert_rules@ == old(self).alert_rules@,
    {
        self.set_rule_enabled(rule_name, true);
    }

    /// Turns off the first rule with this name.
    pub fn disable_alert_rule(&mut self, rule_name: &str)
        ensures
            final(self).alert_rules@.len() == old(self).alert_rules@.len(),
            forall|k: int| 0 <= k < old(self).alert_rules@.len() && old(self).alert_rules@[k].name@ == rule_name@
                && (forall|j: int| 0 <= j < k ==> old(self).alert_rules@[j].name@ != rule_name@)
                ==> final(self).alert_rules@ == old(self).alert_rules@.update(k, AlertRule { enabled: false, ..old(self).alert_rules@[k] }),
            (forall|j: int| 0 <= j < old(self).alert_rules@.len() ==> old(self).alert_rules@[j].name@ != rule_name@)
                ==> final(self).alert_rules@ == old(self).alert_rules@,
    {
        self.set_rule_enabled(rule_name, false);
    }

    /// The health summary: unhealthy while a critical alert is unresolved.
    pub fn get_health_status(&self) -> (h: HealthSummary)
        ensures
            h.status@ == if unresolved(self.alerts@, true) > 0 { "unhealthy"@ } else { "healthy"@ },
            h.active_alerts == unresolved(self.alerts@, false),
            h.memory_usage_bytes == self.metrics.memory_usage_bytes,
            h.transactions_received == self.metrics.transactions_received,
            h.transactions_processed == self.metrics.transactions_processed,
            h.transactions_failed == self.metrics.transactions_failed,
            h.transactions_broadcasted == self.metrics.transactions_broadcasted,
            h.ble_connections == self.metrics.ble_connections,
            h.ble_disconnections == self.metrics.ble_disconnections,
            h.ble_authentications == self.metrics.ble_authentications,
            h.ble_key_exchanges == self.metrics.ble_key_exchanges,
    {
        let n = self.alerts.len();
        let mut critical: u64 = 0;
        let mut active: u64 = 0;
        let mut i: usize = 0;
        while i < n
            invariant
                n == self.alerts@.len(),
                i <= n,
                critical == unresolved(self.alerts@.subrange(0, i as int), true),
                active == unresolved(self.alerts@.subrange(0, i as int), false),
                critical <= i && active <= i,
            decreases n - i,
        {
            let ghost pre = self.alerts@.subrange(0, i as int);
            let ghost next = self.alerts@.subrange(0, i + 1);
            assert(next.drop_last() =~= pre);
            let a = &self.alerts[i];
            if !a.resolved {
                active = active + 1;
                if a.severity == AlertSeverity::Critical {
                    critical = critical + 1;
                }
            }
            i = i + 1;
        }
        assert(self.alerts@.subrange(0, n as int) =~= self.alerts@);
        let m = &self.metrics;
        HealthSummary {
            status: if critical > 0 { owned("unhealthy") } else { owned("healthy") },
            memory_usage_bytes: m.memory_usage_bytes,
            active_alerts: active,
            transactions_received: m.transactions_received,
            transactions_processed: m.transactions_processed,
            transactions_failed: m.transactions_failed,
            transactions_broadcasted: m.transactions_broadcasted,
            ble_connections: m.ble_connections,
            ble_disconnections: m.ble_disconnections,
            ble_authentications: m.ble_authentications,
            ble_key_exchanges: m.ble_key_exchanges,
        }
    }
}

} // verus!
