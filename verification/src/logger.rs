//! Logging: the log configuration, the structured log kept in memory (at
//! most ten thousand entries) with its filters and statistics, and the
//! lines of the plain logger. Writing the lines out is the caller's part.
use vstd::prelude::*;
use crate::collections::StrMap;
use crate::text::{concat2, concat3, owned, str_eq, u64_to_string, decimal};

verus! {

/// How many entries the structured log keeps.
pub const MAX_LOG_ENTRIES: usize = 10000;

/// The levels of a log line.
#[derive(Debug, Clone, Copy, PartialEq, Eq, Structural)]
pub enum LogLevel {
    Trace,
    Debug,
    Info,
    Warn,
    Error,
}

/// The name of a level, as entries record it.
pub open spec fn level_name(l: LogLevel) -> Seq<char> {
    match l {
        LogLevel::Trace => "TRACE"@,
        LogLevel::Debug => "DEBUG"@,
        LogLevel::Info => "INFO"@,
        LogLevel::Warn => "WARN"@,
        LogLevel::Error => "ERROR"@,
    }
}

/// The name of a level.
pub fn level_text(l: LogLevel) -> (s: String)
    ensures
        s@ == level_name(l),
{
    match l {
        LogLevel::Trace => owned("TRACE"),
        LogLevel::Debug => owned("DEBUG"),
        LogLevel::Info => owned("INFO"),
        LogLevel::Warn => owned("WARN"),
        LogLevel::Error => owned("ERROR"),
    }
}

/// A value attached to a log entry.
pub enum LogValue {
    Str(String),
    UInt(u64),
    Bool(bool),
}

/// The view of a `LogValue`.
pub enum LogValueView {
    Str(Seq<char>),
    UInt(u64),
    Bool(bool),
}

impl View for LogValue {
    type V = LogValueView;

    open spec fn view(&self) -> LogValueView {
        match self {
            LogValue::Str(s) => LogValueView::Str(s@),
            LogValue::UInt(n) => LogValueView::UInt(*n),
            LogValue::Bool(b) => LogValueView::Bool(*b),
        }
    }
}

/// The views of a map of log values.
pub open spec fn values_view(m: Map<Seq<char>, LogValue>) -> Map<Seq<char>, LogValueView> {
    m.map_values(|v: LogValue| v@)
}

/// The configuration of the logger.
pub struct LogConfig {
    pub level: String,
    pub service_name: String,
    pub version: String,
    pub enable_console: bool,
    pub enable_file: bool,
    pub enable_json: bool,
    pub log_directory: String,
    pub max_file_size: u64,
    pub max_files: usize,
    pub enable_rotation: bool,
    pub enable_structured: bool,
    pub enable_colors: bool,
    pub enable_timestamps: bool,
    pub enable_thread_ids: bool,
    pub enable_file_line: bool,
    pub enable_module_path: bool,
    pub custom_fields: StrMap<String>,
}

/// The package version recorded in log entries.
pub open spec fn package_version() -> Seq<char> {
    "0.1.0"@
}

impl LogConfig {
    /// The default configuration: level `info`, every output on, files of
    /// ten mebibytes, five of them, rotated.
    pub fn new() -> (c: Self)
        ensures
            c.level@ == "info"@,
            c.service_name@ == "airchainpay-relay"@,
            c.version@ == package_version(),
            c.enable_console && c.enable_file && c.enable_json,
            c.log_directory@ == "logs"@,
            c.max_file_size == 10485760,
            c.max_files == 5,
            c.enable_rotation && c.enable_structured && c.enable_colors && c.enable_timestamps,
            c.enable_thread_ids && c.enable_file_line && c.enable_module_path,
            c.custom_fields@ == Map::<Seq<char>, String>::empty(),
    {
        LogConfig {
            level: owned("info"),
            service_name: owned("airchainpay-relay"),
            version: owned("0.1.0"),
            enable_console: true,
            enable_file: true,
            enable_json: true,
            log_directory: owned("logs"),
            max_file_size: 10 * 1024 * 1024,
            max_files: 5,
            enable_rotation: true,
            enable_structured: true,
            enable_colors: true,
            enable_timestamps: true,
            enable_thread_ids: true,
            enable_file_line: true,
            enable_module_path: true,
            custom_fields: StrMap::new(),
        }
    }

    /// The level that the subscriber filters at: the configured name when
    /// it is one of the five (upper- or lower-case as std lower-cases it),
    /// else info.
    pub fn filter_level(lowered_level: &str) -> (l: LogLevel)
        ensures
            l == (if lowered_level@ == "trace"@ { LogLevel::Trace }
                else if lowered_level@ == "debug"@ { LogLevel::Debug }
                else if lowered_level@ == "info"@ { LogLevel::Info }
                else if lowered_level@ == "warn"@ { LogLevel::Warn }
                else if lowered_level@ == "error"@ { LogLevel::Error }
                else { LogLevel::Info }),
    {
        if str_eq(lowered_level, "trace") { LogLevel::Trace }
        else if str_eq(lowered_level, "debug") { LogLevel::Debug }
        else if str_eq(lowered_level, "info") { LogLevel::Info }
        else if str_eq(lowered_level, "warn") { LogLevel::Warn }
        else if str_eq(lowered_level, "error") { LogLevel::Error }
        else { LogLevel::Info }
    }
}

/// The context attached to log entries.
pub struct LogContext {
    pub request_id: Option<String>,
    pub user_id: Option<String>,
    pub device_id: Option<String>,
    pub ip_address: Option<String>,
    pub session_id: Option<String>,
    pub chain_id: Option<u64>,
    pub transaction_hash: Option<String>,
    pub operation: Option<String>,
    pub duration_ms: Option<u64>,
    pub metadata: StrMap<LogValue>,
}

impl LogContext {
    /// An empty context.
    pub fn new() -> (c: Self)
        ensures
            c.request_id is None && c.user_id is None && c.device_id is None && c.ip_address is None,
            c.session_id is None && c.chain_id is None && c.transaction_hash is None,
            c.operation is None && c.duration_ms is None,
            c.metadata@ == Map::<Seq<char>, LogValue>::empty(),
    {
        LogContext {
            request_id: None,
            user_id: None,
            device_id: None,
            ip_address: None,
            session_id: None,
            chain_id: None,
            transaction_hash: None,
            operation: None,
            duration_ms: None,
            metadata: StrMap::new(),
        }
    }
}

/// What the process knows about where an entry is written: identifiers,
/// time (milliseconds since the Unix epoch) and the host.
pub struct EntryStamp {
    pub id: String,
    pub timestamp: u64,
    pub hostname: String,
    pub pid: u32,
    pub thread_id: String,
}

/// One structured log entry.
pub struct LogEntry {
    pub id: String,
    pub timestamp: u64,
    pub level: String,
    pub message: String,
    pub context: LogContext,
    pub service: String,
    pub version: String,
    pub hostname: String,
    pub pid: u32,
    pub thread_id: String,
    pub target: String,
}

/// Which entries a query keeps.
pub struct LogFilter {
    pub level: Option<String>,
    pub operation: Option<String>,
    pub device_id: Option<String>,
    pub transaction_hash: Option<String>,
    pub start_time: Option<u64>,
    pub end_time: Option<u64>,
    pub limit: Option<usize>,
}

/// A given text, when the filter has one, must be the entry's.
pub open spec fn text_matches(want: Option<String>, have: Option<String>) -> bool {
    match want {
        Some(w) => have is Some && have->0@ == w@,
        None => true,
    }
}

impl LogFilter {
    /// Whether the entry passes the filter: each criterion the filter
    /// sets must hold (`limit` is not a criterion).
    pub open spec fn spec_matches(&self, e: LogEntry) -> bool {
        &&& (self.level is Some ==> e.level@ == self.level->0@)
        &&& text_matches(self.operation, e.context.operation)
        &&& text_matches(self.device_id, e.context.device_id)
        &&& text_matches(self.transaction_hash, e.context.transaction_hash)
        &&& (self.start_time is Some ==> e.timestamp >= self.start_time->0)
        &&& (self.end_time is Some ==> e.timestamp <= self.end_time->0)
    }

    /// Whether the entry passes the filter (see `spec_matches`).
    pub fn matches(&self, entry: &LogEntry) -> (r: bool)
        ensures
            r == self.spec_matches(*entry),
    {
        if let Some(level) = &self.level {
            if !str_eq(entry.level.as_str(), level.as_str()) {
                return false;
            }
        }
        if !opt_text_matches(&self.operation, &entry.context.operation) {
            return false;
        }
        if !opt_text_matches(&self.device_id, &entry.context.device_id) {
            return false;
        }
        if !opt_text_matches(&self.transaction_hash, &entry.context.transaction_hash) {
            return false;
        }
        if let Some(start) = self.start_time {
            if entry.timestamp < start {
                return false;
            }
        }
        if let Some(end) = self.end_time {
            if entry.timestamp > end {
                return false;
            }
        }
        true
    }
}

fn opt_text_matches(want: &Option<String>, have: &Option<String>) -> (r: bool)
    ensures
        r == text_matches(*want, *have),
{
    match want {
        Some(w) => match have {
            Some(h) => str_eq(h.as_str(), w.as_str()),
            None => false,
        },
        None => true,
    }
}

/// The log after appending `e` to `log`: the oldest entry goes when the
/// log would grow past the limit.
pub open spec fn log_after(log: Seq<LogEntry>, max: usize, e: LogEntry) -> Seq<LogEntry> {
    let s = log.push(e);
    if s.len() > max { s.drop_first() } else { s }
}

/// The entries of `log` that pass `f`, in order.
pub open spec fn filtered(log: Seq<LogEntry>, f: LogFilter) -> Seq<LogEntry>
    decreases log.len(),
{
    if log.len() == 0 {
        Seq::empty()
    } else {
        let rest = filtered(log.drop_last(), f);
        if f.spec_matches(log.last()) { rest.push(log.last()) } else { rest }
    }
}

/// Counts of the log: entries by level name and by operation, the total
/// length of the messages in bytes, and the oldest and newest times.
pub struct LogStats {
    pub total_entries: usize,
    pub entries_by_level: StrMap<usize>,
    pub entries_by_operation: StrMap<usize>,
    pub total_message_length: usize,
    pub oldest_entry: Option<u64>,
    pub newest_entry: Option<u64>,
}

/// The structured logger.
pub struct EnhancedLogger {
    pub config: LogConfig,
    pub context: LogContext,
    pub log_entries: Vec<LogEntry>,
    pub max_entries: usize,
}

/// The entry that `log_with_context` makes.
pub open spec fn entry_made(
    e: LogEntry,
    config: LogConfig,
    context: LogContext,
    level: LogLevel,
    message: Seq<char>,
    extra: Map<Seq<char>, LogValueView>,
    stamp: EntryStamp,
) -> bool {
    &&& e.id == stamp.id
    &&& e.timestamp == stamp.timestamp
    &&& e.level@ == level_name(level)
    &&& e.message@ == message
    &&& e.context.operation == context.operation
    &&& e.context.device_id == context.device_id
    &&& e.context.transaction_hash == context.transaction_hash
    &&& values_view(e.context.metadata@) == values_view(context.metadata@).union_prefer_right(extra)
    &&& e.service@ == config.service_name@
    &&& e.version@ == config.version@
    &&& e.hostname == stamp.hostname
    &&& e.pid == stamp.pid
    &&& e.thread_id == stamp.thread_id
    &&& e.target@ == "airchainpay_relay"@
}

fn copy_opt_text(o: &Option<String>) -> (r: Option<String>)
    ensures
        r == *o,
{
    match o {
        Some(s) => Some(s.clone()),
        None => None,
    }
}

fn copy_value(v: &LogValue) -> (r: LogValue)
    ensures
        r@ == v@,
{
    match v {
        LogValue::Str(s) => LogValue::Str(s.clone()),
        LogValue::UInt(n) => LogValue::UInt(*n),
        LogValue::Bool(b) => LogValue::Bool(*b),
    }
}

/// The names among the first `i` entries of a map.
pub open spec fn names_before(p: Seq<(Seq<char>, LogValue)>, i: int) -> Set<Seq<char>> {
    Set::new(|k: Seq<char>| exists|j: int| 0 <= j < i && #[trigger] p[j].0 == k)
}

/// `into` with every entry of `from` stored over it.
pub(crate) fn merge_values(into: &mut StrMap<LogValue>, from: &StrMap<LogValue>)
    ensures
        values_view(final(into)@) == values_view(old(into)@).union_prefer_right(values_view(from@)),
{
    let n = from.len();
    let mut i: usize = 0;
    let ghost base = values_view(into@);
    let ghost whole = values_view(from@);
    assert(values_view(into@) =~= base.union_prefer_right(whole.restrict(names_before(from.pairs(), 0))));
    while i < n
        invariant
            n == from.pairs().len(),
            i <= n,
            whole == values_view(from@),
            values_view(into@) == base.union_prefer_right(whole.restrict(names_before(from.pairs(), i as int))),
        decreases n - i,
    {
        let (k, v) = from.entry_at(i);
        let ghost before = into@;
        let c = copy_value(v);
        let ghost cv = c@;
        into.insert(k.clone(), c);
        proof {
            let p = from.pairs();
            assert(values_view(into@) =~= values_view(before).insert(k@, cv));
            assert(names_before(p, i + 1) =~= names_before(p, i as int).insert(k@));
            assert(whole.dom().contains(k@));
            assert(whole[k@] == v@);
            assert(values_view(into@) =~= base.union_prefer_right(whole.restrict(names_before(p, i + 1))));
        }
        i = i + 1;
    }
    proof {
        let p = from.pairs();
        assert(names_before(p, n as int) =~= whole.dom()) by {
            assert forall|k: Seq<char>| whole.dom().contains(k) implies names_before(p, n as int).contains(k) by {
                assert(crate::collections::has_key(p, k));
                let j = choose|j: int| 0 <= j < p.len() && #[trigger] p[j].0 == k;
                assert(p[j].0 == k);
            }
            assert forall|k: Seq<char>| names_before(p, n as int).contains(k) implies whole.dom().contains(k) by {
                let j = choose|j: int| 0 <= j < n && #[trigger] p[j].0 == k;
                assert(crate::collections::has_key(p, k));
            }
        }
        assert(whole.restrict(names_before(p, n as int)) =~= whole);
    }
}

impl LogContext {
    /// A copy of the context whose metadata also holds `extra`, stored over
    /// the context's own.
    pub fn copy_with(&self, extra: Option<&StrMap<LogValue>>) -> (c: Self)
        ensures
            c.request_id == self.request_id && c.user_id == self.user_id && c.device_id == self.device_id,
            c.ip_address == self.ip_address && c.session_id == self.session_id && c.chain_id == self.chain_id,
            c.transaction_hash == self.transaction_hash && c.operation == self.operation,
            c.duration_ms == self.duration_ms,
            values_view(c.metadata@) == values_view(self.metadata@).union_prefer_right(extra_view(extra)),
    {
        let mut metadata: StrMap<LogValue> = StrMap::new();
        merge_values(&mut metadata, &self.metadata);
        assert(values_view(metadata@) =~= values_view(self.metadata@));
        match extra {
            Some(m) => merge_values(&mut metadata, m),
            None => {
                assert(values_view(metadata@) =~= values_view(self.metadata@).union_prefer_right(extra_view(extra)));
            },
        }
        LogContext {
            request_id: copy_opt_text(&self.request_id),
            user_id: copy_opt_text(&self.user_id),
            device_id: copy_opt_text(&self.device_id),
            ip_address: copy_opt_text(&self.ip_address),
            session_id: copy_opt_text(&self.session_id),
            chain_id: self.chain_id,
            transaction_hash: copy_opt_text(&self.transaction_hash),
            operation: copy_opt_text(&self.operation),
            duration_ms: self.duration_ms,
            metadata,
        }
    }
}

/// The values that an optional extra map adds.
pub open spec fn extra_view(extra: Option<&StrMap<LogValue>>) -> Map<Seq<char>, LogValueView> {
    match extra {
        Some(m) => values_view(m@),
        None => Map::empty(),
    }
}

/// `after` is `before` with one more entry, made as `log_with_context` makes it.
pub open spec fn logged(
    before: EnhancedLogger,
    after: EnhancedLogger,
    level: LogLevel,
    message: Seq<char>,
    extra: Map<Seq<char>, LogValueView>,
    stamp: EntryStamp,
) -> bool {
    &&& after.log_entries@.len() > 0
    &&& after.log_entries@ == log_after(before.log_entries@, before.max_entries, after.log_entries@.last())
    &&& entry_made(after.log_entries@.last(), before.config, before.context, level, message, extra, stamp)
    &&& after.max_entries == before.max_entries
    &&& after.config == before.config
    &&& after.context == before.context
}

/// Two entries that hold the same data.
pub open spec fn same_entry(a: LogEntry, b: LogEntry) -> bool {
    &&& a.id == b.id && a.timestamp == b.timestamp && a.level == b.level && a.message == b.message
    &&& a.service == b.service && a.version == b.version && a.hostname == b.hostname
    &&& a.pid == b.pid && a.thread_id == b.thread_id && a.target == b.target
    &&& a.context.request_id == b.context.request_id && a.context.user_id == b.context.user_id
    &&& a.context.device_id == b.context.device_id && a.context.ip_address == b.context.ip_address
    &&& a.context.session_id == b.context.session_id && a.context.chain_id == b.context.chain_id
    &&& a.context.transaction_hash == b.context.transaction_hash && a.context.operation == b.context.operation
    &&& a.context.duration_ms == b.context.duration_ms
    &&& values_view(a.context.metadata@) == values_view(b.context.metadata@)
}

impl LogEntry {
    /// A copy holding the same data.
    pub fn copy(&self) -> (r: Self)
        ensures
            same_entry(r, *self),
    {
        let context = self.context.copy_with(None);
        assert(values_view(context.metadata@) =~= values_view(self.context.metadata@));
        LogEntry {
            id: self.id.clone(),
            timestamp: self.timestamp,
            level: self.level.clone(),
            message: self.message.clone(),
            context,
            service: self.service.clone(),
            version: self.version.clone(),
            hostname: self.hostname.clone(),
            pid: self.pid,
            thread_id: self.thread_id.clone(),
            target: self.target.clone(),
        }
    }
}

/// The number of entries at level `level`.
pub open spec fn count_level(log: Seq<LogEntry>, level: Seq<char>) -> nat
    decreases log.len(),
{
    if log.len() == 0 { 0 } else {
        count_level(log.drop_last(), level) + if log.last().level@ == level { 1nat } else { 0nat }
    }
}

/// The number of entries whose context names operation `op`.
pub open spec fn count_operation(log: Seq<LogEntry>, op: Seq<char>) -> nat
    decreases log.len(),
{
    if log.len() == 0 { 0 } else {
        count_operation(log.drop_last(), op) + if log.last().context.operation is Some
            && log.last().context.operation->0@ == op { 1nat } else { 0nat }
    }
}

/// The total UTF-8 length of the messages.
pub open spec fn message_bytes(log: Seq<LogEntry>) -> nat
    decreases log.len(),
{
    if log.len() == 0 { 0 } else { message_bytes(log.drop_last()) + (crate::text::byte_len(log.last().message@) as nat) }
}

/// The earliest time among the entries (for a non-empty log).
pub open spec fn oldest_time(log: Seq<LogEntry>) -> u64
    decreases log.len(),
{
    if log.len() <= 1 { log[0].timestamp } else {
        let t = oldest_time(log.drop_last());
        if log.last().timestamp < t { log.last().timestamp } else { t }
    }
}

/// The latest time among the entries (for a non-empty log).
pub open spec fn newest_time(log: Seq<LogEntry>) -> u64
    decreases log.len(),
{
    if log.len() <= 1 { log[0].timestamp } else {
        let t = newest_time(log.drop_last());
        if log.last().timestamp > t { log.last().timestamp } else { t }
    }
}

/// Adds one to the count under `key` (a new key starts at one).
fn bump(m: &mut StrMap<usize>, key: &str, bound: usize)
    requires
        old(m)@.dom().contains(key@) ==> old(m)@[key@] < bound,
    ensures
        final(m)@ == old(m)@.insert(key@, if old(m)@.dom().contains(key@) { (old(m)@[key@] + 1) as usize } else { 1 }),
{
    let n: usize = match m.get(key) {
        Some(c) => *c + 1,
        None => 1,
    };
    m.insert(owned(key), n);
}

impl EnhancedLogger {
    /// A logger with the given configuration, an empty context and an empty log.
    pub fn new(config: LogConfig) -> (l: Self)
        ensures
            l.config == config,
            l.log_entries@.len() == 0,
            l.max_entries == MAX_LOG_ENTRIES,
            l.context.metadata@ == Map::<Seq<char>, LogValue>::empty(),
            l.context.operation is None && l.context.device_id is None && l.context.transaction_hash is None,
    {
        EnhancedLogger { config, context: LogContext::new(), log_entries: Vec::new(), max_entries: MAX_LOG_ENTRIES }
    }

    /// Replaces the context.
    pub fn set_context(&mut self, context: LogContext)
        ensures
            final(self).context == context,
            final(self).log_entries == old(self).log_entries,
            final(self).config == old(self).config,
            final(self).max_entries == old(self).max_entries,
    {
        self.context = context;
    }

    /// Stores `updates` over the context's metadata.
    pub fn update_context(&mut self, updates: &StrMap<LogValue>)
        ensures
            values_view(final(self).context.metadata@) == values_view(old(self).context.metadata@).union_prefer_right(values_view(updates@)),
            final(self).context.operation == old(self).context.operation,
            final(self).log_entries == old(self).log_entries,
            final(self).config == old(self).config,
            final(self).max_entries == old(self).max_entries,
    {
        merge_values(&mut self.context.metadata, updates);
    }

    /// Appends an entry at `level` with the current context, `extra` stored
    /// over its metadata, and the given stamp; the oldest entry goes when
    /// the log is full.
    pub fn log_with_context(&mut self, level: LogLevel, message: &str, extra: Option<&StrMap<LogValue>>, stamp: EntryStamp)
        requires
            old(self).max_entries > 0,
        ensures
            logged(*old(self), *final(self), level, message@, extra_view(extra), stamp),
            old(self).log_entries@.len() <= old(self).max_entries ==> final(self).log_entries@.len() <= old(self).max_entries,
    {
        let context = self.context.copy_with(extra);
        let entry = LogEntry {
            id: stamp.id,
            timestamp: stamp.timestamp,
            level: level_text(level),
            message: owned(message),
            context,
            service: self.config.service_name.clone(),
            version: self.config.version.clone(),
            hostname: stamp.hostname,
            pid: stamp.pid,
            thread_id: stamp.thread_id,
            target: owned("airchainpay_relay"),
        };
        let ghost e = entry;
        let ghost before = self.log_entries@;
        self.log_entries.push(entry);
        if self.log_entries.len() > self.max_entries {
            let _ = self.log_entries.remove(0);
            assert(self.log_entries@ =~= before.push(e).drop_first());
        }
        assert(self.log_entries@.last() == e);
    }

    pub fn info(&mut self, message: &str, stamp: EntryStamp)
        requires old(self).max_entries > 0,
        ensures logged(*old(self), *final(self), LogLevel::Info, message@, Map::empty(), stamp),
    {
        self.log_with_context(LogLevel::Info, message, None, stamp);
    }

    pub fn warn(&mut self, message: &str, stamp: EntryStamp)
        requires old(self).max_entries > 0,
        ensures logged(*old(self), *final(self), LogLevel::Warn, message@, Map::empty(), stamp),
    {
        self.log_with_context(LogLevel::Warn, message, None, stamp);
    }

    pub fn error(&mut self, message: &str, stamp: EntryStamp)
        requires old(self).max_entries > 0,
        ensures logged(*old(self), *final(self), LogLevel::Error, message@, Map::empty(), stamp),
    {
        self.log_with_context(LogLevel::Error, message, None, stamp);
    }

    pub fn debug(&mut self, message: &str, stamp: EntryStamp)
        requires old(self).max_entries > 0,
        ensures logged(*old(self), *final(self), LogLevel::Debug, message@, Map::empty(), stamp),
    {
        self.log_with_context(LogLevel::Debug, message, None, stamp);
    }

    pub fn trace(&mut self, message: &str, stamp: EntryStamp)
        requires old(self).max_entries > 0,
        ensures logged(*old(self), *final(self), LogLevel::Trace, message@, Map::empty(), stamp),
    {
        self.log_with_context(LogLevel::Trace, message, None, stamp);
    }


    pub fn info_with_context(&mut self, message: &str, context: &StrMap<LogValue>, stamp: EntryStamp)
        requires old(self).max_entries > 0,
        ensures logged(*old(self), *final(self), LogLevel::Info, message@, values_view(context@), stamp),
    {
        self.log_with_context(LogLevel::Info, message, Some(context), stamp);
    }

    pub fn warn_with_context(&mut self, message: &str, context: &StrMap<LogValue>, stamp: EntryStamp)
        requires old(self).max_entries > 0,
        ensures logged(*old(self), *final(self), LogLevel::Warn, message@, values_view(context@), stamp),
    {
        self.log_with_context(LogLevel::Warn, message, Some(context), stamp);
    }

    pub fn error_with_context(&mut self, message: &str, context: &StrMap<LogValue>, stamp: EntryStamp)
        requires old(self).max_entries > 0,
        ensures logged(*old(self), *final(self), LogLevel::Error, message@, values_view(context@), stamp),
    {
        self.log_with_context(LogLevel::Error, message, Some(context), stamp);
    }

    pub fn debug_with_context(&mut self, message: &str, context: &StrMap<LogValue>, stamp: EntryStamp)
        requires old(self).max_entries > 0,
        ensures logged(*old(self), *final(self), LogLevel::Debug, message@, values_view(context@), stamp),
    {
        self.log_with_context(LogLevel::Debug, message, Some(context), stamp);
    }

    /// A transaction was received.
    pub fn transaction_received(&mut self, tx_hash: &str, chain_id: u64, stamp: EntryStamp)
        requires old(self).max_entries > 0,
        ensures
            logged(*old(self), *final(self), LogLevel::Info, "Transaction received"@, map![
                "transaction_hash"@ => LogValueView::Str(tx_hash@),
                "chain_id"@ => LogValueView::UInt(chain_id),
                "operation"@ => LogValueView::Str("transaction_received"@)], stamp),
    {
        let mut c: StrMap<LogValue> = StrMap::new();
        assert(values_view(c@) =~= Map::<Seq<char>, LogValueView>::empty());
        put(&mut c, "transaction_hash", LogValue::Str(owned(tx_hash)));
        put(&mut c, "chain_id", LogValue::UInt(chain_id));
        put(&mut c, "operation", LogValue::Str(owned("transaction_received")));
        self.log_with_context(LogLevel::Info, "Transaction received", Some(&c), stamp);
    }

    /// A transaction was processed, with its block and gas when known.
    pub fn transaction_processed(&mut self, tx_hash: &str, chain_id: u64, block_number: Option<u64>, gas_used: Option<u64>, stamp: EntryStamp)
        requires old(self).max_entries > 0,
        ensures
            ({
                let m0 = map![
                    "transaction_hash"@ => LogValueView::Str(tx_hash@),
                    "chain_id"@ => LogValueView::UInt(chain_id),
                    "operation"@ => LogValueView::Str("transaction_processed"@)];
                let m1 = match block_number { Some(b) => m0.insert("block_number"@, LogValueView::UInt(b)), None => m0 };
                let m2 = match gas_used { Some(g) => m1.insert("gas_used"@, LogValueView::UInt(g)), None => m1 };
                logged(*old(self), *final(self), LogLevel::Info, "Transaction processed successfully"@, m2, stamp)
            }),
    {
        let mut c: StrMap<LogValue> = StrMap::new();
        assert(values_view(c@) =~= Map::<Seq<char>, LogValueView>::empty());
        put(&mut c, "transaction_hash", LogValue::Str(owned(tx_hash)));
        put(&mut c, "chain_id", LogValue::UInt(chain_id));
        put(&mut c, "operation", LogValue::Str(owned("transaction_processed")));
        if let Some(b) = block_number {
            put(&mut c, "block_number", LogValue::UInt(b));
        }
        if let Some(g) = gas_used {
            put(&mut c, "gas_used", LogValue::UInt(g));
        }
        self.log_with_context(LogLevel::Info, "Transaction processed successfully", Some(&c), stamp);
    }

    /// A transaction failed.
    pub fn transaction_failed(&mut self, tx_hash: &str, error: &str, chain_id: Option<u64>, stamp: EntryStamp)
        requires old(self).max_entries > 0,
        ensures
            ({
                let m0 = map![
                    "transaction_hash"@ => LogValueView::Str(tx_hash@),
                    "error"@ => LogValueView::Str(error@),
                    "operation"@ => LogValueView::Str("transaction_failed"@)];
                let m1 = match chain_id { Some(c) => m0.insert("chain_id"@, LogValueView::UInt(c)), None => m0 };
                logged(*old(self), *final(self), LogLevel::Error, "Transaction failed"@, m1, stamp)
            }),
    {
        let mut c: StrMap<LogValue> = StrMap::new();
        assert(values_view(c@) =~= Map::<Seq<char>, LogValueView>::empty());
        put(&mut c, "transaction_hash", LogValue::Str(owned(tx_hash)));
        put(&mut c, "error", LogValue::Str(owned(error)));
        put(&mut c, "operation", LogValue::Str(owned("transaction_failed")));
        if let Some(id) = chain_id {
            put(&mut c, "chain_id", LogValue::UInt(id));
        }
        self.log_with_context(LogLevel::Error, "Transaction failed", Some(&c), stamp);
    }

    /// A BLE device connected; `device_info` is stored over the fixed fields.
    pub fn ble_device_connected(&mut self, device_id: &str, device_info: Option<&StrMap<LogValue>>, stamp: EntryStamp)
        requires old(self).max_entries > 0,
        ensures
            logged(*old(self), *final(self), LogLevel::Info, "BLE device connected"@, map![
                "device_id"@ => LogValueView::Str(device_id@),
                "operation"@ => LogValueView::Str("ble_device_connected"@)].union_prefer_right(extra_view(device_info)), stamp),
    {
        let mut c: StrMap<LogValue> = StrMap::new();
        assert(values_view(c@) =~= Map::<Seq<char>, LogValueView>::empty());
        put(&mut c, "device_id", LogValue::Str(owned(device_id)));
        put(&mut c, "operation", LogValue::Str(owned("ble_device_connected")));
        let ghost fixed = values_view(c@);
        match device_info {
            Some(info) => merge_values(&mut c, info),
            None => { assert(values_view(c@) =~= fixed.union_prefer_right(extra_view(device_info))); },
        }
        self.log_with_context(LogLevel::Info, "BLE device connected", Some(&c), stamp);
    }

    /// A BLE device disconnected, with the reason when known.
    pub fn ble_device_disconnected(&mut self, device_id: &str, reason: Option<&str>, stamp: EntryStamp)
        requires old(self).max_entries > 0,
        ensures
            ({
                let m0 = map!["device_id"@ => LogValueView::Str(device_id@), "operation"@ => LogValueView::Str("ble_device_disconnected"@)];
                let m1 = match reason { Some(r) => m0.insert("reason"@, LogValueView::Str(r@)), None => m0 };
                logged(*old(self), *final(self), LogLevel::Warn, "BLE device disconnected"@, m1, stamp)
            }),
    {
        let mut c: StrMap<LogValue> = StrMap::new();
        assert(values_view(c@) =~= Map::<Seq<char>, LogValueView>::empty());
        put(&mut c, "device_id", LogValue::Str(owned(device_id)));
        put(&mut c, "operation", LogValue::Str(owned("ble_device_disconnected")));
        if let Some(r) = reason {
            put(&mut c, "reason", LogValue::Str(owned(r)));
        }
        self.log_with_context(LogLevel::Warn, "BLE device disconnected", Some(&c), stamp);
    }

    /// A device authenticated, with the method when known.
    pub fn auth_success(&mut self, device_id: &str, auth_method: Option<&str>, stamp: EntryStamp)
        requires old(self).max_entries > 0,
        ensures
            ({
                let m0 = map!["device_id"@ => LogValueView::Str(device_id@), "operation"@ => LogValueView::Str("auth_success"@)];
                let m1 = match auth_method { Some(m) => m0.insert("auth_method"@, LogValueView::Str(m@)), None => m0 };
                logged(*old(self), *final(self), LogLevel::Info, "Authentication successful"@, m1, stamp)
            }),
    {
        let mut c: StrMap<LogValue> = StrMap::new();
        assert(values_view(c@) =~= Map::<Seq<char>, LogValueView>::empty());
        put(&mut c, "device_id", LogValue::Str(owned(device_id)));
        put(&mut c, "operation", LogValue::Str(owned("auth_success")));
        if let Some(m) = auth_method {
            put(&mut c, "auth_method", LogValue::Str(owned(m)));
        }
        self.log_with_context(LogLevel::Info, "Authentication successful", Some(&c), stamp);
    }

    /// A device failed to authenticate.
    pub fn auth_failure(&mut self, device_id: &str, reason: &str, auth_method: Option<&str>, stamp: EntryStamp)
        requires old(self).max_entries > 0,
        ensures
            ({
                let m0 = map!["device_id"@ => LogValueView::Str(device_id@), "reason"@ => LogValueView::Str(reason@),
                    "operation"@ => LogValueView::Str("auth_failure"@)];
                let m1 = match auth_method { Some(m) => m0.insert("auth_method"@, LogValueView::Str(m@)), None => m0 };
                logged(*old(self), *final(self), LogLevel::Warn, "Authentication failed"@, m1, stamp)
            }),
    {
        let mut c: StrMap<LogValue> = StrMap::new();
        assert(values_view(c@) =~= Map::<Seq<char>, LogValueView>::empty());
        put(&mut c, "device_id", LogValue::Str(owned(device_id)));
        put(&mut c, "reason", LogValue::Str(owned(reason)));
        put(&mut c, "operation", LogValue::Str(owned("auth_failure")));
        if let Some(m) = auth_method {
            put(&mut c, "auth_method", LogValue::Str(owned(m)));
        }
        self.log_with_context(LogLevel::Warn, "Authentication failed", Some(&c), stamp);
    }

    /// A security violation; `details` is stored over the fixed fields.
    pub fn security_violation(&mut self, ip: &str, action: &str, details: Option<&StrMap<LogValue>>, stamp: EntryStamp)
        requires old(self).max_entries > 0,
        ensures
            logged(*old(self), *final(self), LogLevel::Error, "Security violation detected"@, map![
                "ip_address"@ => LogValueView::Str(ip@),
                "action"@ => LogValueView::Str(action@),
                "operation"@ => LogValueView::Str("security_violation"@)].union_prefer_right(extra_view(details)), stamp),
    {
        let mut c: StrMap<LogValue> = StrMap::new();
        assert(values_view(c@) =~= Map::<Seq<char>, LogValueView>::empty());
        put(&mut c, "ip_address", LogValue::Str(owned(ip)));
        put(&mut c, "action", LogValue::Str(owned(action)));
        put(&mut c, "operation", LogValue::Str(owned("security_violation")));
        let ghost fixed = values_view(c@);
        match details {
            Some(d) => merge_values(&mut c, d),
            None => { assert(values_view(c@) =~= fixed.union_prefer_right(extra_view(details))); },
        }
        self.log_with_context(LogLevel::Error, "Security violation detected", Some(&c), stamp);
    }

    /// A client hit a rate limit, with the limit's kind when known.
    pub fn rate_limit_hit(&mut self, ip: &str, limit_type: Option<&str>, stamp: EntryStamp)
        requires old(self).max_entries > 0,
        ensures
            ({
                let m0 = map!["ip_address"@ => LogValueView::Str(ip@), "operation"@ => LogValueView::Str("rate_limit_hit"@)];
                let m1 = match limit_type { Some(t) => m0.insert("limit_type"@, LogValueView::Str(t@)), None => m0 };
                logged(*old(self), *final(self), LogLevel::Warn, "Rate limit hit"@, m1, stamp)
            }),
    {
        let mut c: StrMap<LogValue> = StrMap::new();
        assert(values_view(c@) =~= Map::<Seq<char>, LogValueView>::empty());
        put(&mut c, "ip_address", LogValue::Str(owned(ip)));
        put(&mut c, "operation", LogValue::Str(owned("rate_limit_hit")));
        if let Some(t) = limit_type {
            put(&mut c, "limit_type", LogValue::Str(owned(t)));
        }
        self.log_with_context(LogLevel::Warn, "Rate limit hit", Some(&c), stamp);
    }

    /// The duration of an operation: at debug level when it succeeded, at
    /// warning level when it failed.
    pub fn performance_metric(&mut self, operation: &str, duration_ms: u64, success: bool, details: Option<&StrMap<LogValue>>, stamp: EntryStamp)
        requires old(self).max_entries > 0,
        ensures
            logged(*old(self), *final(self), if success { LogLevel::Debug } else { LogLevel::Warn },
                "Performance metric recorded"@, map![
                "operation"@ => LogValueView::Str(operation@),
                "duration_ms"@ => LogValueView::UInt(duration_ms),
                "success"@ => LogValueView::Bool(success)].union_prefer_right(extra_view(details)), stamp),
    {
        let mut c: StrMap<LogValue> = StrMap::new();
        assert(values_view(c@) =~= Map::<Seq<char>, LogValueView>::empty());
        put(&mut c, "operation", LogValue::Str(owned(operation)));
        put(&mut c, "duration_ms", LogValue::UInt(duration_ms));
        put(&mut c, "success", LogValue::Bool(success));
        let ghost fixed = values_view(c@);
        match details {
            Some(d) => merge_values(&mut c, d),
            None => { assert(values_view(c@) =~= fixed.union_prefer_right(extra_view(details))); },
        }
        let level = if success { LogLevel::Debug } else { LogLevel::Warn };
        self.log_with_context(level, "Performance metric recorded", Some(&c), stamp);
    }

    /// An API request: at warning level for a status of 400 or more, else at info level.
    pub fn api_request(&mut self, method: &str, path: &str, status_code: u16, duration_ms: u64, ip: Option<&str>, user_agent: Option<&str>, stamp: EntryStamp)
        requires old(self).max_entries > 0,
        ensures
            ({
                let m0 = map![
                    "http_method"@ => LogValueView::Str(method@),
                    "http_path"@ => LogValueView::Str(path@),
                    "http_status_code"@ => LogValueView::UInt(status_code as u64),
                    "duration_ms"@ => LogValueView::UInt(duration_ms),
                    "operation"@ => LogValueView::Str("api_request"@)];
                let m1 = match ip { Some(i) => m0.insert("ip_address"@, LogValueView::Str(i@)), None => m0 };
                let m2 = match user_agent { Some(u) => m1.insert("user_agent"@, LogValueView::Str(u@)), None => m1 };
                logged(*old(self), *final(self), if status_code >= 400 { LogLevel::Warn } else { LogLevel::Info },
                    "API request processed"@, m2, stamp)
            }),
    {
        let mut c: StrMap<LogValue> = StrMap::new();
        assert(values_view(c@) =~= Map::<Seq<char>, LogValueView>::empty());
        put(&mut c, "http_method", LogValue::Str(owned(method)));
        put(&mut c, "http_path", LogValue::Str(owned(path)));
        put(&mut c, "http_status_code", LogValue::UInt(status_code as u64));
        put(&mut c, "duration_ms", LogValue::UInt(duration_ms));
        put(&mut c, "operation", LogValue::Str(owned("api_request")));
        if let Some(i) = ip {
            put(&mut c, "ip_address", LogValue::Str(owned(i)));
        }
        if let Some(u) = user_agent {
            put(&mut c, "user_agent", LogValue::Str(owned(u)));
        }
        let level = if status_code >= 400 { LogLevel::Warn } else { LogLevel::Info };
        self.log_with_context(level, "API request processed", Some(&c), stamp);
    }

    /// A database operation: at debug level when it succeeded, at error level when it failed.
    pub fn database_operation(&mut self, operation: &str, table: &str, duration_ms: u64, success: bool, error: Option<&str>, stamp: EntryStamp)
        requires old(self).max_entries > 0,
        ensures
            ({
                let m0 = map![
                    "db_operation"@ => LogValueView::Str(operation@),
                    "db_table"@ => LogValueView::Str(table@),
                    "duration_ms"@ => LogValueView::UInt(duration_ms),
                    "success"@ => LogValueView::Bool(success),
                    "operation"@ => LogValueView::Str("database_operation"@)];
                let m1 = match error { Some(e) => m0.insert("error"@, LogValueView::Str(e@)), None => m0 };
                logged(*old(self), *final(self), if success { LogLevel::Debug } else { LogLevel::Error },
                    "Database operation completed"@, m1, stamp)
            }),
    {
        let mut c: StrMap<LogValue> = StrMap::new();
        assert(values_view(c@) =~= Map::<Seq<char>, LogValueView>::empty());
        put(&mut c, "db_operation", LogValue::Str(owned(operation)));
        put(&mut c, "db_table", LogValue::Str(owned(table)));
        put(&mut c, "duration_ms", LogValue::UInt(duration_ms));
        put(&mut c, "success", LogValue::Bool(success));
        put(&mut c, "operation", LogValue::Str(owned("database_operation")));
        if let Some(e) = error {
            put(&mut c, "error", LogValue::Str(owned(e)));
        }
        let level = if success { LogLevel::Debug } else { LogLevel::Error };
        self.log_with_context(level, "Database operation completed", Some(&c), stamp);
    }

    /// The entries that pass the filter (all of them without one), oldest first.
    pub fn get_log_entries(&self, filter: Option<&LogFilter>) -> (r: Vec<LogEntry>)
        ensures
            ({
                let want = match filter { Some(f) => filtered(self.log_entries@, *f), None => self.log_entries@ };
                &&& r@.len() == want.len()
                &&& forall|i: int| 0 <= i < r@.len() ==> same_entry(#[trigger] r@[i], want[i])
            }),
    {
        let n = self.log_entries.len();
        let mut r: Vec<LogEntry> = Vec::new();
        let mut i: usize = 0;
        while i < n
            invariant
                n == self.log_entries@.len(),
                i <= n,
                ({
                    let pre = self.log_entries@.subrange(0, i as int);
                    let want = match filter { Some(f) => filtered(pre, *f), None => pre };
                    &&& r@.len() == want.len()
                    &&& forall|j: int| 0 <= j < r@.len() ==> same_entry(#[trigger] r@[j], want[j])
                }),
            decreases n - i,
        {
            let e = &self.log_entries[i];
            let ghost pre = self.log_entries@.subrange(0, i as int);
            let ghost next = self.log_entries@.subrange(0, i + 1);
            assert(next.drop_last() =~= pre);
            let keep = match filter {
                Some(f) => f.matches(e),
                None => true,
            };
            if keep {
                r.push(e.copy());
            }
            i = i + 1;
        }
        assert(self.log_entries@.subrange(0, n as int) =~= self.log_entries@);
        r
    }

    /// The counts of the log (see `count_level`, `count_operation`,
    /// `message_bytes`, `oldest_time` and `newest_time`); the total length
    /// stops at the largest `usize`.
    pub fn get_log_stats(&self) -> (s: LogStats)
        ensures
            s.total_entries == self.log_entries@.len(),
            forall|l: Seq<char>| #[trigger] s.entries_by_level@.dom().contains(l) ==>
                s.entries_by_level@[l] == count_level(self.log_entries@, l),
            forall|l: Seq<char>| count_level(self.log_entries@, l) > 0 ==> #[trigger] s.entries_by_level@.dom().contains(l),
            forall|o: Seq<char>| #[trigger] s.entries_by_operation@.dom().contains(o) ==>
                s.entries_by_operation@[o] == count_operation(self.log_entries@, o),
            forall|o: Seq<char>| count_operation(self.log_entries@, o) > 0 ==> #[trigger] s.entries_by_operation@.dom().contains(o),
            s.total_message_length == if message_bytes(self.log_entries@) <= usize::MAX {
                message_bytes(self.log_entries@) as usize } else { usize::MAX },
            self.log_entries@.len() == 0 ==> s.oldest_entry is None && s.newest_entry is None,
            self.log_entries@.len() > 0 ==> s.oldest_entry == Some(oldest_time(self.log_entries@))
                && s.newest_entry == Some(newest_time(self.log_entries@)),
    {
        let n = self.log_entries.len();
        let mut by_level: StrMap<usize> = StrMap::new();
        let mut by_operation: StrMap<usize> = StrMap::new();
        let mut total: usize = 0;
        let mut oldest: Option<u64> = None;
        let mut newest: Option<u64> = None;
        let mut i: usize = 0;
        while i < n
            invariant
                n == self.log_entries@.len(),
                i <= n,
                ({
                    let pre = self.log_entries@.subrange(0, i as int);
                    &&& forall|l: Seq<char>| #[trigger] by_level@.dom().contains(l) ==> by_level@[l] == count_level(pre, l)
                    &&& forall|l: Seq<char>| count_level(pre, l) > 0 ==> #[trigger] by_level@.dom().contains(l)
                    &&& forall|l: Seq<char>| count_level(pre, l) <= i
                    &&& forall|o: Seq<char>| #[trigger] by_operation@.dom().contains(o) ==> by_operation@[o] == count_operation(pre, o)
                    &&& forall|o: Seq<char>| count_operation(pre, o) > 0 ==> #[trigger] by_operation@.dom().contains(o)
                    &&& forall|o: Seq<char>| count_operation(pre, o) <= i
                    &&& total == if message_bytes(pre) <= usize::MAX { message_bytes(pre) as usize } else { usize::MAX }
                    &&& (i == 0 ==> oldest is None && newest is None)
                    &&& (i > 0 ==> oldest == Some(oldest_time(pre)) && newest == Some(newest_time(pre)))
                }),
            decreases n - i,
        {
            let e = &self.log_entries[i];
            let ghost pre = self.log_entries@.subrange(0, i as int);
            let ghost next = self.log_entries@.subrange(0, i + 1);
            assert(next.drop_last() =~= pre);
            assert(next.last() == *e);
            proof {
                assert forall|l: Seq<char>| count_level(next, l) <= i + 1 by {
                    assert(count_level(pre, l) <= i);
                }
                assert forall|o: Seq<char>| count_operation(next, o) <= i + 1 by {
                    assert(count_operation(pre, o) <= i);
                }
            }
            bump(&mut by_level, e.level.as_str(), n);
            if let Some(op) = &e.context.operation {
                bump(&mut by_operation, op.as_str(), n);
            }
            total = total.saturating_add(crate::text::str_byte_len(e.message.as_str()));
            let t = e.timestamp;
            oldest = match oldest { Some(o) => if t < o { Some(t) } else { Some(o) }, None => Some(t) };
            newest = match newest { Some(w) => if t > w { Some(t) } else { Some(w) }, None => Some(t) };
            proof {
                if i == 0 {
                    assert(next.len() == 1);
                }
            }
            i = i + 1;
        }
        assert(self.log_entries@.subrange(0, n as int) =~= self.log_entries@);
        LogStats {
            total_entries: n,
            entries_by_level: by_level,
            entries_by_operation: by_operation,
            total_message_length: total,
            oldest_entry: oldest,
            newest_entry: newest,
        }
    }

    /// Empties the log.
    pub fn clear_log_entries(&mut self)
        ensures
            final(self).log_entries@.len() == 0,
            final(self).config == old(self).config,
            final(self).context == old(self).context,
            final(self).max_entries == old(self).max_entries,
    {
        self.log_entries.clear();
    }
}

/// Stores one value in a context map.
fn put(m: &mut StrMap<LogValue>, key: &str, value: LogValue)
    ensures
        values_view(final(m)@) == values_view(old(m)@).insert(key@, value@),
{
    let ghost v = value@;
    m.insert(owned(key), value);
    assert(values_view(m@) =~= values_view(old(m)@).insert(key@, v));
}

/// The log never holds more entries than its limit, and the newest entry
/// is the one just logged.
pub proof fn lemma_log_bounded(log: Seq<LogEntry>, max: usize, e: LogEntry)
    requires
        log.len() <= max,
        max > 0,
    ensures
        log_after(log, max, e).len() <= max,
        log_after(log, max, e).last() == e,
{
}

/// A line of the plain logger: its level and text.
pub struct LogLine {
    pub level: LogLevel,
    pub message: String,
}

/// The plain logger, whose lines the caller writes out.
pub struct Logger;

impl Logger {
    /// The configuration the plain logger starts the subscriber with: the
    /// default one (the level given is not used).
    pub fn init(log_level: &str) -> (c: LogConfig)
        ensures
            c.level@ == "info"@,
            c.service_name@ == "airchainpay-relay"@,
            c.log_directory@ == "logs"@,
    {
        LogConfig::new()
    }

    pub fn info(message: &str) -> (l: LogLine)
        ensures l.level == LogLevel::Info && l.message@ == message@,
    {
        LogLine { level: LogLevel::Info, message: owned(message) }
    }

    pub fn warn(message: &str) -> (l: LogLine)
        ensures l.level == LogLevel::Warn && l.message@ == message@,
    {
        LogLine { level: LogLevel::Warn, message: owned(message) }
    }

    pub fn error(message: &str) -> (l: LogLine)
        ensures l.level == LogLevel::Error && l.message@ == message@,
    {
        LogLine { level: LogLevel::Error, message: owned(message) }
    }

    pub fn debug(message: &str) -> (l: LogLine)
        ensures l.level == LogLevel::Debug && l.message@ == message@,
    {
        LogLine { level: LogLevel::Debug, message: owned(message) }
    }

    pub fn transaction_received(tx_hash: &str, chain_id: u64) -> (l: LogLine)
        ensures l.level == LogLevel::Info && l.message@ == "Transaction received: "@ + tx_hash@ + " on chain "@ + decimal(chain_id as nat),
    {
        let head = concat3("Transaction received: ", tx_hash, " on chain ");
        LogLine { level: LogLevel::Info, message: concat2(head.as_str(), u64_to_string(chain_id).as_str()) }
    }

    pub fn transaction_processed(tx_hash: &str, chain_id: u64) -> (l: LogLine)
        ensures l.level == LogLevel::Info && l.message@ == "Transaction processed: "@ + tx_hash@ + " on chain "@ + decimal(chain_id as nat),
    {
        let head = concat3("Transaction processed: ", tx_hash, " on chain ");
        LogLine { level: LogLevel::Info, message: concat2(head.as_str(), u64_to_string(chain_id).as_str()) }
    }

    pub fn transaction_failed(tx_hash: &str, error: &str) -> (l: LogLine)
        ensures l.level == LogLevel::Error && l.message@ == "Transaction failed: "@ + tx_hash@ + " - "@ + error@,
    {
        let head = concat3("Transaction failed: ", tx_hash, " - ");
        LogLine { level: LogLevel::Error, message: concat2(head.as_str(), error) }
    }

    pub fn ble_device_connected(device_id: &str) -> (l: LogLine)
        ensures l.level == LogLevel::Info && l.message@ == "BLE device connected: "@ + device_id@,
    {
        LogLine { level: LogLevel::Info, message: concat2("BLE device connected: ", device_id) }
    }

    pub fn ble_device_disconnected(device_id: &str) -> (l: LogLine)
        ensures l.level == LogLevel::Warn && l.message@ == "BLE device disconnected: "@ + device_id@,
    {
        LogLine { level: LogLevel::Warn, message: concat2("BLE device disconnected: ", device_id) }
    }

    pub fn auth_success(device_id: &str) -> (l: LogLine)
        ensures l.level == LogLevel::Info && l.message@ == "Authentication successful for device: "@ + device_id@,
    {
        LogLine { level: LogLevel::Info, message: concat2("Authentication successful for device: ", device_id) }
    }

    pub fn auth_failure(device_id: &str, reason: &str) -> (l: LogLine)
        ensures l.level == LogLevel::Warn && l.message@ == "Authentication failed for device: "@ + device_id@ + " - "@ + reason@,
    {
        let head = concat3("Authentication failed for device: ", device_id, " - ");
        LogLine { level: LogLevel::Warn, message: concat2(head.as_str(), reason) }
    }

    pub fn security_violation(ip: &str, action: &str) -> (l: LogLine)
        ensures l.level == LogLevel::Error && l.message@ == "Security violation from "@ + ip@ + ": "@ + action@,
    {
        let head = concat3("Security violation from ", ip, ": ");
        LogLine { level: LogLevel::Error, message: concat2(head.as_str(), action) }
    }

    pub fn rate_limit_hit(ip: &str) -> (l: LogLine)
        ensures l.level == LogLevel::Warn && l.message@ == "Rate limit hit for IP: "@ + ip@,
    {
        LogLine { level: LogLevel::Warn, message: concat2("Rate limit hit for IP: ", ip) }
    }
}

} // verus!
