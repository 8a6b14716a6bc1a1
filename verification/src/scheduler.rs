//! Scheduled maintenance tasks: their priorities, the queue that hands out
//! the most urgent task first, the registry of tasks with their run times,
//! the history of results (the last thousand), and the retry rule. Times
//! are milliseconds since the Unix epoch; running a task is the caller's.
use vstd::prelude::*;
use crate::collections::StrMap;
use crate::logger::{LogLevel, LogLine, LogValue};
use crate::text::{concat2, concat3, chars_of, owned, str_eq};

verus! {

/// How many results the history keeps.
pub const MAX_TASK_HISTORY: usize = 1000;

/// How urgent a task is.
#[derive(Debug, Clone, Copy, PartialEq, Eq, Structural)]
pub enum TaskPriority {
    Low,
    Normal,
    High,
    Critical,
}

/// The rank of a priority: 1 for low up to 4 for critical.
pub open spec fn priority_rank(p: TaskPriority) -> int {
    match p {
        TaskPriority::Low => 1,
        TaskPriority::Normal => 2,
        TaskPriority::High => 3,
        TaskPriority::Critical => 4,
    }
}

/// Priorities rank strictly upwards from low to critical, and the queue
/// serves a more urgent task before a less urgent one whatever their run
/// times: a critical task outranks every task of another priority, and a
/// low one outranks none of another priority.
pub proof fn lemma_priority_order(a: ScheduledTask, b: ScheduledTask)
    ensures
        priority_rank(TaskPriority::Low) < priority_rank(TaskPriority::Normal),
        priority_rank(TaskPriority::Normal) < priority_rank(TaskPriority::High),
        priority_rank(TaskPriority::High) < priority_rank(TaskPriority::Critical),
        a.priority == TaskPriority::Critical && b.priority != TaskPriority::Critical ==> outranks(a, b),
        a.priority == TaskPriority::High && (b.priority == TaskPriority::Normal || b.priority == TaskPriority::Low) ==> outranks(a, b),
        a.priority == TaskPriority::Normal && b.priority == TaskPriority::Low ==> outranks(a, b),
        a.priority == TaskPriority::Low && b.priority != TaskPriority::Low ==> !outranks(a, b),
{
}

/// Among tasks of equal priority the earlier run time is served first, and
/// a task due at once (no run time) before any timed one; no task outranks
/// itself, and of two tasks at most one outranks the other.
pub proof fn lemma_equal_priority_order(a: ScheduledTask, b: ScheduledTask)
    requires
        a.priority == b.priority,
    ensures
        a.next_run matches Some(x) && b.next_run matches Some(y) && x < y ==> outranks(a, b) && !outranks(b, a),
        a.next_run is None && b.next_run is Some ==> outranks(a, b) && !outranks(b, a),
        !outranks(a, a),
        !(outranks(a, b) && outranks(b, a)),
{
}

impl TaskPriority {
    /// The rank of the priority.
    pub fn rank(&self) -> (r: u8)
        ensures
            r as int == priority_rank(*self),
    {
        match self {
            TaskPriority::Low => 1,
            TaskPriority::Normal => 2,
            TaskPriority::High => 3,
            TaskPriority::Critical => 4,
        }
    }
}

/// What a task does.
pub enum TaskType {
    Backup,
    Cleanup,
    HealthCheck,
    MetricsCollection,
    BLEScan,
    TransactionProcessing,
    AlertCheck,
    LogRotation,
    CacheCleanup,
    DatabaseMaintenance,
    Custom(String),
}

/// A scheduled task.
pub struct ScheduledTask {
    pub id: String,
    pub name: String,
    pub cron_expression: String,
    pub task_type: TaskType,
    pub priority: TaskPriority,
    pub enabled: bool,
    pub last_run: Option<u64>,
    pub next_run: Option<u64>,
    pub retry_count: u32,
    pub max_retries: u32,
    pub retry_delay_ms: u64,
    pub metadata: StrMap<LogValue>,
}

/// The outcome of running a task.
pub struct TaskResult {
    pub task_id: String,
    pub success: bool,
    pub duration_ms: u64,
    pub error_message: Option<String>,
    pub timestamp: u64,
    pub retry_count: u32,
}

/// The scheduler's settings.
pub struct SchedulerConfig {
    pub max_concurrent_tasks: usize,
    pub task_timeout_ms: u64,
    pub retry_enabled: bool,
    pub max_retries: u32,
    pub retry_delay_ms: u64,
    pub enable_priority_queue: bool,
    pub enable_task_history: bool,
    pub max_history_size: usize,
}

impl SchedulerConfig {
    /// The default settings: ten tasks at a time, five-minute timeout,
    /// three retries a minute apart, a history of a thousand.
    pub fn new() -> (c: Self)
        ensures
            c.max_concurrent_tasks == 10 && c.task_timeout_ms == 300000 && c.retry_enabled,
            c.max_retries == 3 && c.retry_delay_ms == 60000,
            c.enable_priority_queue && c.enable_task_history && c.max_history_size == 1000,
    {
        SchedulerConfig {
            max_concurrent_tasks: 10,
            task_timeout_ms: 300000,
            retry_enabled: true,
            max_retries: 3,
            retry_delay_ms: 60000,
            enable_priority_queue: true,
            enable_task_history: true,
            max_history_size: 1000,
        }
    }
}

/// `a` comes out of the queue before `b`: a higher priority first; at equal
/// priority the earlier run time first, and a task without a run time (due
/// at once) before one with a run time.
pub open spec fn outranks(a: ScheduledTask, b: ScheduledTask) -> bool {
    if priority_rank(a.priority) != priority_rank(b.priority) {
        priority_rank(a.priority) > priority_rank(b.priority)
    } else {
        match (a.next_run, b.next_run) {
            (Some(x), Some(y)) => x < y,
            (None, Some(_)) => true,
            _ => false,
        }
    }
}

/// Whether `a` comes out of the queue before `b` (see `outranks`).
pub fn task_outranks(a: &ScheduledTask, b: &ScheduledTask) -> (r: bool)
    ensures
        r == outranks(*a, *b),
{
    let ra = a.priority.rank();
    let rb = b.priority.rank();
    if ra != rb {
        ra > rb
    } else {
        match (a.next_run, b.next_run) {
            (Some(x), Some(y)) => x < y,
            (None, Some(_)) => true,
            _ => false,
        }
    }
}

/// The pending tasks, the running ones with their start times, and the
/// history of results.
pub struct TaskQueue {
    pub tasks: Vec<ScheduledTask>,
    pub running_tasks: StrMap<u64>,
    pub completed_tasks: Vec<TaskResult>,
}

impl TaskQueue {
    /// An empty queue.
    pub fn new() -> (q: Self)
        ensures
            q.tasks@.len() == 0,
            q.running_tasks@ == Map::<Seq<char>, u64>::empty(),
            q.completed_tasks@.len() == 0,
    {
        TaskQueue { tasks: Vec::new(), running_tasks: StrMap::new(), completed_tasks: Vec::new() }
    }

    /// Adds a pending task.
    pub fn add_task(&mut self, task: ScheduledTask)
        ensures
            final(self).tasks@ == old(self).tasks@.push(task),
            final(self).running_tasks == old(self).running_tasks,
            final(self).completed_tasks == old(self).completed_tasks,
    {
        self.tasks.push(task);
    }

    /// Takes out a task that no other pending task outranks (the first such
    /// one), or nothing when none is pending.
    pub fn get_next_task(&mut self) -> (r: Option<ScheduledTask>)
        ensures
            match r {
                Some(t) => exists|k: int| 0 <= k < old(self).tasks@.len() && old(self).tasks@[k] == t
                    && (forall|j: int| 0 <= j < old(self).tasks@.len() ==> !outranks(#[trigger] old(self).tasks@[j], t))
                    && final(self).tasks@ == old(self).tasks@.remove(k),
                None => old(self).tasks@.len() == 0 && final(self).tasks@.len() == 0,
            },
            final(self).running_tasks == old(self).running_tasks,
            final(self).completed_tasks == old(self).completed_tasks,
    {
        let n = self.tasks.len();
        if n == 0 {
            return None;
        }
        let mut best: usize = 0;
        let mut i: usize = 1;
        while i < n
            invariant
                n == self.tasks@.len(),
                1 <= i <= n,
                best < i,
                self.tasks == old(self).tasks,
                forall|j: int| 0 <= j < i ==> !outranks(#[trigger] self.tasks@[j], self.tasks@[best as int]),
            decreases n - i,
        {
            if task_outranks(&self.tasks[i], &self.tasks[best]) {
                proof {
                    assert forall|j: int| 0 <= j <= i implies !outranks(#[trigger] self.tasks@[j], self.tasks@[i as int]) by {
                        if j < i {
                            lemma_outranks_order(self.tasks@[j], self.tasks@[best as int], self.tasks@[i as int]);
                        }
                    }
                }
                best = i;
            } else {
                assert(!outranks(self.tasks@[i as int], self.tasks@[best as int]));
            }
            i = i + 1;
        }
        let t = self.tasks.remove(best);
        Some(t)
    }

    /// Records that a task started at `now`.
    pub fn mark_task_running(&mut self, task_id: &str, now: u64)
        ensures
            final(self).running_tasks@ == old(self).running_tasks@.insert(task_id@, now),
            final(self).tasks == old(self).tasks,
            final(self).completed_tasks == old(self).completed_tasks,
    {
        self.running_tasks.insert(owned(task_id), now);
    }

    /// Records that a task stopped running.
    pub fn mark_task_completed(&mut self, task_id: &str)
        ensures
            final(self).running_tasks@ == old(self).running_tasks@.remove(task_id@),
            final(self).tasks == old(self).tasks,
            final(self).completed_tasks == old(self).completed_tasks,
    {
        let _ = self.running_tasks.remove(task_id);
    }

    /// Adds a result to the history, which keeps the last thousand.
    pub fn add_completed_task(&mut self, result: TaskResult)
        ensures
            final(self).completed_tasks@ == history_after(old(self).completed_tasks@, result),
            final(self).tasks == old(self).tasks,
            final(self).running_tasks == old(self).running_tasks,
    {
        self.completed_tasks.push(result);
        if self.completed_tasks.len() > MAX_TASK_HISTORY {
            let _ = self.completed_tasks.remove(0);
        }
    }

    /// The running tasks with their start times.
    pub fn get_running_tasks(&self) -> (r: &StrMap<u64>)
        ensures
            *r == self.running_tasks,
    {
        &self.running_tasks
    }

    /// The history of results, oldest first.
    pub fn get_completed_tasks(&self) -> (r: &Vec<TaskResult>)
        ensures
            *r == self.completed_tasks,
    {
        &self.completed_tasks
    }
}

/// The history after recording `r`: the oldest result goes past a thousand.
pub open spec fn history_after(h: Seq<TaskResult>, r: TaskResult) -> Seq<TaskResult> {
    let s = h.push(r);
    if s.len() > MAX_TASK_HISTORY { s.drop_first() } else { s }
}

/// Outranking is transitive, and a task that no task outranks keeps that
/// standing against a task that outranks it.
proof fn lemma_outranks_order(a: ScheduledTask, b: ScheduledTask, c: ScheduledTask)
    requires
        !outranks(a, b),
        outranks(c, b),
    ensures
        !outranks(a, c),
{
}

/// Whether `c` has the Unicode `White_Space` property: the controls from tab
/// to carriage return, the space, NEL, the no-break spaces, the Ogham space
/// mark, the spaces from en quad to hair space, the line and paragraph
/// separators, the medium mathematical space and the ideographic space.
pub open spec fn char_whitespace(c: char) -> bool {
    ||| '\u{9}' <= c && c <= '\u{d}'
    ||| c == ' ' || c == '\u{85}' || c == '\u{a0}' || c == '\u{1680}'
    ||| '\u{2000}' <= c && c <= '\u{200a}'
    ||| c == '\u{2028}' || c == '\u{2029}' || c == '\u{202f}' || c == '\u{205f}' || c == '\u{3000}'
}

/// Whether `c` is whitespace, as std's `char::is_whitespace` decides it
/// (see `char_whitespace`).
fn is_whitespace(c: char) -> (r: bool)
    ensures
        r == char_whitespace(c),
{
    ('\u{9}' <= c && c <= '\u{d}') || c == ' ' || c == '\u{85}' || c == '\u{a0}' || c == '\u{1680}'
        || ('\u{2000}' <= c && c <= '\u{200a}')
        || c == '\u{2028}' || c == '\u{2029}' || c == '\u{202f}' || c == '\u{205f}' || c == '\u{3000}'
}

/// The number of words of `s`: maximal runs of characters that are not
/// whitespace, as std's `split_whitespace` yields them.
pub open spec fn word_count(s: Seq<char>) -> nat
    decreases s.len(),
{
    if s.len() == 0 {
        0
    } else {
        word_count(s.drop_last()) + if !char_whitespace(s.last()) && (s.len() == 1 || char_whitespace(s[s.len() - 2])) { 1nat } else { 0nat }
    }
}

/// The number of words of `s`.
pub fn count_words(s: &str) -> (n: usize)
    ensures
        n == word_count(s@),
{
    let cs = chars_of(s);
    let mut n: usize = 0;
    let mut prev_space = true;
    let mut i: usize = 0;
    while i < cs.len()
        invariant
            cs@ == s@,
            i <= cs.len(),
            n == word_count(cs@.subrange(0, i as int)),
            n <= i,
            prev_space == (i == 0 || char_whitespace(cs@[i - 1])),
        decreases cs.len() - i,
    {
        let ghost pre = cs@.subrange(0, i as int);
        let ghost next = cs@.subrange(0, i + 1);
        assert(next.drop_last() =~= pre);
        let space = is_whitespace(cs[i]);
        if !space && prev_space {
            n = n + 1;
        }
        prev_space = space;
        i = i + 1;
    }
    assert(cs@.subrange(0, cs@.len() as int) =~= cs@);
    n
}

/// The next run after `now` for a schedule: a minute later when the
/// schedule has the five fields of a cron expression, none otherwise.
pub open spec fn next_run_after(cron: Seq<char>, now: u64) -> Option<u64> {
    if word_count(cron) == 5 {
        Some(if now <= u64::MAX - 60000 { (now + 60000) as u64 } else { u64::MAX })
    } else {
        None
    }
}

/// What to do after an attempt of a task: with `attempts` failed attempts
/// so far, a failure is retried while they do not exceed `max_retries`.
pub enum RetryStep {
    Done,
    Retry,
    GiveUp,
}

/// The step after an attempt: done on success; on failure, with the failure
/// counted, retry while the count does not exceed the maximum.
pub open spec fn retry_step(failures: u32, max_retries: u32, succeeded: bool) -> (RetryStep, u32) {
    if succeeded {
        (RetryStep::Done, failures)
    } else {
        let f = (failures + 1) as u32;
        if f <= max_retries { (RetryStep::Retry, f) } else { (RetryStep::GiveUp, f) }
    }
}

/// The step after an attempt (see `retry_step`).
pub fn next_retry_step(failures: u32, max_retries: u32, succeeded: bool) -> (r: (RetryStep, u32))
    requires
        failures <= max_retries,
        failures < u32::MAX,
    ensures
        r == retry_step(failures, max_retries, succeeded),
{
    if succeeded {
        (RetryStep::Done, failures)
    } else {
        let f = failures + 1;
        if f <= max_retries { (RetryStep::Retry, f) } else { (RetryStep::GiveUp, f) }
    }
}

/// A task is attempted at most `max_retries + 1` times: a retry is only
/// ever asked while the failures do not exceed the maximum.
pub proof fn lemma_retries_bounded(failures: u32, max_retries: u32, succeeded: bool)
    requires
        failures <= max_retries,
    ensures
        retry_step(failures, max_retries, succeeded).0 is Retry ==> retry_step(failures, max_retries, succeeded).1 <= max_retries,
        retry_step(failures, max_retries, succeeded).0 is GiveUp ==> retry_step(failures, max_retries, succeeded).1 == max_retries + 1,
{
}

/// The name of a task type, as the status shows it.
pub open spec fn task_type_label(t: TaskType) -> Seq<char> {
    match t {
        TaskType::Backup => "Backup"@,
        TaskType::Cleanup => "Cleanup"@,
        TaskType::HealthCheck => "HealthCheck"@,
        TaskType::MetricsCollection => "MetricsCollection"@,
        TaskType::BLEScan => "BLEScan"@,
        TaskType::TransactionProcessing => "TransactionProcessing"@,
        TaskType::AlertCheck => "AlertCheck"@,
        TaskType::LogRotation => "LogRotation"@,
        TaskType::CacheCleanup => "CacheCleanup"@,
        TaskType::DatabaseMaintenance => "DatabaseMaintenance"@,
        TaskType::Custom(s) => "Custom(\""@ + s@ + "\")"@,
    }
}

/// A copy of a task type.
pub fn copy_task_type(t: &TaskType) -> (r: TaskType)
    ensures
        r == *t,
{
    match t {
        TaskType::Backup => TaskType::Backup,
        TaskType::Cleanup => TaskType::Cleanup,
        TaskType::HealthCheck => TaskType::HealthCheck,
        TaskType::MetricsCollection => TaskType::MetricsCollection,
        TaskType::BLEScan => TaskType::BLEScan,
        TaskType::TransactionProcessing => TaskType::TransactionProcessing,
        TaskType::AlertCheck => TaskType::AlertCheck,
        TaskType::LogRotation => TaskType::LogRotation,
        TaskType::CacheCleanup => TaskType::CacheCleanup,
        TaskType::DatabaseMaintenance => TaskType::DatabaseMaintenance,
        TaskType::Custom(s) => TaskType::Custom(s.clone()),
    }
}

/// One line of the task status.
pub struct TaskSummary {
    pub id: String,
    pub name: String,
    pub task_type: TaskType,
    pub priority: TaskPriority,
    pub enabled: bool,
    pub last_run: Option<u64>,
    pub next_run: Option<u64>,
    pub retry_count: u32,
}

/// The scheduler's status: counts and one line per task.
pub struct TaskStatus {
    pub total_tasks: usize,
    pub enabled_tasks: usize,
    pub running_tasks: usize,
    pub completed_tasks: usize,
    pub tasks: Vec<TaskSummary>,
}

/// The scheduler: its settings, the registered tasks, the queue, and
/// whether it is running.
pub struct Scheduler {
    pub config: SchedulerConfig,
    pub tasks: StrMap<ScheduledTask>,
    pub queue: TaskQueue,
    pub running: bool,
}

/// The number of enabled tasks among registry entries.
pub open spec fn enabled_count(p: Seq<(Seq<char>, ScheduledTask)>) -> nat
    decreases p.len(),
{
    if p.len() == 0 { 0 } else { enabled_count(p.drop_last()) + if p.last().1.enabled { 1nat } else { 0nat } }
}

impl Scheduler {
    /// A stopped scheduler with no tasks.
    pub fn new(config: SchedulerConfig) -> (s: Self)
        ensures
            s.config == config,
            s.tasks@ == Map::<Seq<char>, ScheduledTask>::empty(),
            s.queue.tasks@.len() == 0,
            s.queue.completed_tasks@.len() == 0,
            !s.running,
    {
        Scheduler { config, tasks: StrMap::new(), queue: TaskQueue::new(), running: false }
    }

    /// Starts the scheduler; refused when it is already running.
    pub fn start(&mut self) -> (r: Result<LogLine, String>)
        ensures
            old(self).running ==> r is Err && r->Err_0@ == "Scheduler is already running"@ && final(self).running,
            !old(self).running ==> r is Ok && final(self).running
                && r->Ok_0.message@ == "Starting AirChainPay Relay Scheduler"@,
            final(self).tasks == old(self).tasks,
            final(self).queue == old(self).queue,
    {
        if self.running {
            return Err(owned("Scheduler is already running"));
        }
        self.running = true;
        Ok(LogLine { level: LogLevel::Info, message: owned("Starting AirChainPay Relay Scheduler") })
    }

    /// Stops the scheduler.
    pub fn stop(&mut self) -> (l: LogLine)
        ensures
            !final(self).running,
            l.message@ == "Stopping AirChainPay Relay Scheduler"@,
            final(self).tasks == old(self).tasks,
            final(self).queue == old(self).queue,
    {
        self.running = false;
        LogLine { level: LogLevel::Info, message: owned("Stopping AirChainPay Relay Scheduler") }
    }

    /// The next run after `now` for a schedule (see `next_run_after`).
    pub fn calculate_next_run(&self, cron_expression: &str, now: u64) -> (r: Option<u64>)
        ensures
            r == next_run_after(cron_expression@, now),
    {
        if count_words(cron_expression) != 5 {
            return None;
        }
        Some(if now <= u64::MAX - 60000 { now + 60000 } else { u64::MAX })
    }

    /// Registers a task (replacing one with the same identifier) and queues
    /// it when it is enabled.
    pub fn add_task(&mut self, task: ScheduledTask) -> (l: LogLine)
        ensures
            final(self).tasks@ == old(self).tasks@.insert(task.id@, task),
            task.enabled ==> final(self).queue.tasks@.len() == old(self).queue.tasks@.len() + 1
                && final(self).queue.tasks@.drop_last() == old(self).queue.tasks@
                && final(self).queue.tasks@.last().id == task.id
                && final(self).queue.tasks@.last().priority == task.priority
                && final(self).queue.tasks@.last().next_run == task.next_run,
            !task.enabled ==> final(self).queue.tasks == old(self).queue.tasks,
            l.message@ == "Added task: "@ + task.name@ + " ("@ + task.id@ + ")"@,
    {
        let line = LogLine {
            level: LogLevel::Info,
            message: concat3(concat3("Added task: ", task.name.as_str(), " (").as_str(), task.id.as_str(), ")"),
        };
        let id = task.id.clone();
        if task.enabled {
            let copy = copy_task(&task);
            self.queue.add_task(copy);
        }
        self.tasks.insert(id, task);
        line
    }

    /// Unregisters a task.
    pub fn remove_task(&mut self, task_id: &str) -> (l: LogLine)
        ensures
            final(self).tasks@ == old(self).tasks@.remove(task_id@),
            final(self).queue == old(self).queue,
            l.message@ == "Removed task: "@ + task_id@,
    {
        let _ = self.tasks.remove(task_id);
        LogLine { level: LogLevel::Info, message: concat2("Removed task: ", task_id) }
    }

    /// Enables a registered task and queues it.
    pub fn enable_task(&mut self, task_id: &str)
        ensures
            final(self).tasks@.dom() == old(self).tasks@.dom(),
            old(self).tasks@.dom().contains(task_id@) ==> final(self).tasks@[task_id@].enabled
                && final(self).queue.tasks@.len() == old(self).queue.tasks@.len() + 1,
            !old(self).tasks@.dom().contains(task_id@) ==> final(self).tasks@ == old(self).tasks@
                && final(self).queue.tasks == old(self).queue.tasks,
    {
        match self.tasks.remove(task_id) {
            Some(t) => {
                let mut t = t;
                t.enabled = true;
                let copy = copy_task(&t);
                self.queue.add_task(copy);
                self.tasks.insert(owned(task_id), t);
            },
            None => {},
        }
    }

    /// Disables a registered task.
    pub fn disable_task(&mut self, task_id: &str)
        ensures
            final(self).tasks@.dom() == old(self).tasks@.dom(),
            old(self).tasks@.dom().contains(task_id@) ==> !final(self).tasks@[task_id@].enabled,
            !old(self).tasks@.dom().contains(task_id@) ==> final(self).tasks@ == old(self).tasks@,
            final(self).queue == old(self).queue,
    {
        match self.tasks.remove(task_id) {
            Some(t) => {
                let mut t = t;
                t.enabled = false;
                self.tasks.insert(owned(task_id), t);
            },
            None => {},
        }
    }

    /// The scheduling pass at `now`: each enabled task that is due (its next
    /// run is not after `now`) gets its next run and its last run set and is
    /// queued; an enabled task without a next run gets one.
    pub fn check_and_schedule_tasks(&mut self, now: u64)
        ensures
            final(self).tasks@.dom() == old(self).tasks@.dom(),
            forall|k: Seq<char>| #[trigger] old(self).tasks@.dom().contains(k) ==>
                scheduled(old(self).tasks@[k], final(self).tasks@[k], now),
            ({
                let q0 = old(self).queue.tasks@;
                let due = due_ids(old(self).tasks.pairs(), now);
                &&& final(self).queue.tasks@.len() == q0.len() + due.len()
                &&& final(self).queue.tasks@.subrange(0, q0.len() as int) == q0
                &&& forall|j: int| 0 <= j < due.len() ==> #[trigger] final(self).queue.tasks@[q0.len() + j].id@ == due[j]
                    && final(self).queue.tasks@[q0.len() + j].last_run == Some(now)
            }),
            final(self).queue.running_tasks == old(self).queue.running_tasks,
            final(self).queue.completed_tasks == old(self).queue.completed_tasks,
    {
        let n = self.tasks.len();
        let mut i: usize = 0;
        let mut updated: StrMap<ScheduledTask> = StrMap::new();
        let ghost before = self.tasks@;
        while i < n
            invariant
                n == self.tasks.pairs().len(),
                i <= n,
                self.tasks@ == before,
                self.tasks.pairs() == old(self).tasks.pairs(),
                self.queue.running_tasks == old(self).queue.running_tasks,
                self.queue.completed_tasks == old(self).queue.completed_tasks,
                self.queue.tasks@.len() == old(self).queue.tasks@.len()
                    + due_ids(self.tasks.pairs().subrange(0, i as int), now).len(),
                self.queue.tasks@.subrange(0, old(self).queue.tasks@.len() as int) == old(self).queue.tasks@,
                forall|j: int| 0 <= j < due_ids(self.tasks.pairs().subrange(0, i as int), now).len() ==>
                    #[trigger] self.queue.tasks@[old(self).queue.tasks@.len() + j].id@
                        == due_ids(self.tasks.pairs().subrange(0, i as int), now)[j]
                    && self.queue.tasks@[old(self).queue.tasks@.len() + j].last_run == Some(now),
                updated@.dom() == crate::collections::pairs_to_map(self.tasks.pairs().subrange(0, i as int)).dom(),
                forall|k: Seq<char>| #[trigger] updated@.dom().contains(k) ==> before.dom().contains(k)
                    && scheduled(before[k], updated@[k], now),
            decreases n - i,
        {
            let (key, t) = self.tasks.entry_at(i);
            let ghost q0 = old(self).queue.tasks@;
            let ghost qi = self.queue.tasks@;
            let ghost d0 = due_ids(self.tasks.pairs().subrange(0, i as int), now);
            let ghost d1 = due_ids(self.tasks.pairs().subrange(0, i + 1), now);
            proof {
                assert(self.tasks.pairs().subrange(0, i + 1).drop_last() =~= self.tasks.pairs().subrange(0, i as int));
                assert(self.tasks.pairs().subrange(0, i + 1).last() == self.tasks.pairs()[i as int]);
                if is_due(*t, now) {
                    assert(d1 == d0.push(t.id@));
                } else {
                    assert(d1 == d0);
                }
            }
            let mut u = copy_task(t);
            if u.enabled {
                match u.next_run {
                    Some(next) => {
                        if now >= next {
                            if let Some(nr) = self.calculate_next_run(u.cron_expression.as_str(), now) {
                                u.next_run = Some(nr);
                            }
                            u.last_run = Some(now);
                            let q = copy_task(&u);
                            self.queue.add_task(q);
                            proof {
                                assert(self.queue.tasks@ == qi.push(self.queue.tasks@.last()));
                                assert(self.queue.tasks@.subrange(0, q0.len() as int) =~= qi.subrange(0, q0.len() as int));
                                assert forall|j: int| 0 <= j < d1.len() implies
                                    #[trigger] self.queue.tasks@[q0.len() + j].id@ == d1[j]
                                    && self.queue.tasks@[q0.len() + j].last_run == Some(now) by {
                                    if j < d0.len() {
                                        assert(self.queue.tasks@[q0.len() + j] == qi[q0.len() + j]);
                                    }
                                }
                            }
                        }
                    },
                    None => {
                        u.next_run = self.calculate_next_run(u.cron_expression.as_str(), now);
                    },
                }
            }
            let ghost pre = self.tasks.pairs().subrange(0, i as int);
            let ghost next_pairs = self.tasks.pairs().subrange(0, i + 1);
            proof {
                assert(next_pairs =~= pre.push(self.tasks.pairs()[i as int]));
                assert forall|k: Seq<char>| crate::collections::has_key(next_pairs, k)
                    <==> (crate::collections::has_key(pre, k) || k == key@) by {
                    if crate::collections::has_key(next_pairs, k) {
                        let j = choose|j: int| 0 <= j < next_pairs.len() && #[trigger] next_pairs[j].0 == k;
                        if j < pre.len() { assert(pre[j].0 == k); }
                    }
                    if crate::collections::has_key(pre, k) {
                        let j = choose|j: int| 0 <= j < pre.len() && #[trigger] pre[j].0 == k;
                        assert(next_pairs[j].0 == k);
                    }
                    if k == key@ {
                        assert(next_pairs[i as int].0 == k);
                    }
                }
            }
            updated.insert(key.clone(), u);
            proof {
                assert(updated@.dom() =~= crate::collections::pairs_to_map(next_pairs).dom());
            }
            i = i + 1;
        }
        proof {
            assert(self.tasks.pairs().subrange(0, n as int) =~= self.tasks.pairs());
            assert(updated@.dom() =~= before.dom());
        }
        self.tasks = updated;
    }

    /// Takes out up to `max_concurrent_tasks` tasks, most urgent first, for
    /// the caller to run.
    pub fn process_task_queue(&mut self) -> (batch: Vec<ScheduledTask>)
        ensures
            batch@.len() <= old(self).config.max_concurrent_tasks,
            batch@.len() + final(self).queue.tasks@.len() == old(self).queue.tasks@.len(),
            batch@.len() < old(self).config.max_concurrent_tasks ==> final(self).queue.tasks@.len() == 0,
            forall|i: int| 0 <= i < batch@.len() ==> old(self).queue.tasks@.contains(#[trigger] batch@[i]),
            forall|i: int| 0 <= i < final(self).queue.tasks@.len() ==> old(self).queue.tasks@.contains(#[trigger] final(self).queue.tasks@[i]),
            forall|i: int, j: int| 0 <= i < j < batch@.len() ==> !outranks(#[trigger] batch@[j], #[trigger] batch@[i]),
            forall|i: int, j: int| 0 <= i < batch@.len() && 0 <= j < final(self).queue.tasks@.len()
                ==> !outranks(#[trigger] final(self).queue.tasks@[j], #[trigger] batch@[i]),
            final(self).tasks == old(self).tasks,
            final(self).config == old(self).config,
    {
        let mut batch: Vec<ScheduledTask> = Vec::new();
        let mut processed: usize = 0;
        let mut drained = false;
        while processed < self.config.max_concurrent_tasks && !drained
            invariant
                drained ==> self.queue.tasks@.len() == 0,
                processed == batch@.len(),
                processed <= self.config.max_concurrent_tasks,
                batch@.len() + self.queue.tasks@.len() == old(self).queue.tasks@.len(),
                self.tasks == old(self).tasks,
                self.config == old(self).config,
                forall|i: int| 0 <= i < batch@.len() ==> old(self).queue.tasks@.contains(#[trigger] batch@[i]),
                forall|i: int| 0 <= i < self.queue.tasks@.len() ==> old(self).queue.tasks@.contains(#[trigger] self.queue.tasks@[i]),
                forall|i: int, j: int| 0 <= i < j < batch@.len() ==> !outranks(#[trigger] batch@[j], #[trigger] batch@[i]),
                forall|i: int, j: int| 0 <= i < batch@.len() && 0 <= j < self.queue.tasks@.len()
                    ==> !outranks(#[trigger] self.queue.tasks@[j], #[trigger] batch@[i]),
            decreases self.config.max_concurrent_tasks - processed, if drained { 0int } else { 1int },
        {
            let ghost q = self.queue.tasks@;
            let ghost b = batch@;
            match self.queue.get_next_task() {
                Some(t) => {
                    let ghost k = choose|k: int| 0 <= k < q.len() && q[k] == t
                        && (forall|j: int| 0 <= j < q.len() ==> !outranks(#[trigger] q[j], t))
                        && self.queue.tasks@ == q.remove(k);
                    proof {
                        assert forall|j: int| 0 <= j < self.queue.tasks@.len() implies
                            #[trigger] self.queue.tasks@[j] == q[if j < k { j } else { j + 1 }] by {}
                        assert(old(self).queue.tasks@.contains(q[k]));
                    }
                    batch.push(t);
                    processed = processed + 1;
                    proof {
                        assert(batch@ == b.push(t));
                        assert forall|i: int, j: int| 0 <= i < batch@.len() && 0 <= j < self.queue.tasks@.len()
                            implies !outranks(#[trigger] self.queue.tasks@[j], #[trigger] batch@[i]) by {
                            let jj = if j < k { j } else { j + 1 };
                            assert(self.queue.tasks@[j] == q[jj]);
                            if i < b.len() {
                                assert(batch@[i] == b[i]);
                            }
                        }
                        assert forall|i: int, j: int| 0 <= i < j < batch@.len() implies
                            !outranks(#[trigger] batch@[j], #[trigger] batch@[i]) by {
                            if j == b.len() as int {
                                assert(batch@[i] == b[i]);
                                assert(q[k] == t);
                            } else {
                                assert(batch@[i] == b[i] && batch@[j] == b[j]);
                            }
                        }
                        assert forall|i: int| 0 <= i < batch@.len() implies old(self).queue.tasks@.contains(#[trigger] batch@[i]) by {
                            if i < b.len() {
                                assert(batch@[i] == b[i]);
                            }
                        }
                        assert forall|i: int| 0 <= i < self.queue.tasks@.len() implies old(self).queue.tasks@.contains(#[trigger] self.queue.tasks@[i]) by {
                            let ii = if i < k { i } else { i + 1 };
                            assert(self.queue.tasks@[i] == q[ii]);
                        }
                    }
                },
                None => {
                    drained = true;
                },
            }
        }
        batch
    }

    /// The scheduler's status.
    pub fn get_task_status(&self) -> (s: TaskStatus)
        ensures
            s.total_tasks == self.tasks.pairs().len(),
            s.enabled_tasks == enabled_count(self.tasks.pairs()),
            s.running_tasks == self.queue.running_tasks.pairs().len(),
            s.completed_tasks == self.queue.completed_tasks@.len(),
            s.tasks@.len() == self.tasks.pairs().len(),
            forall|i: int| 0 <= i < s.tasks@.len() ==> summarizes(#[trigger] s.tasks@[i], self.tasks.pairs()[i].1),
    {
        let n = self.tasks.len();
        let mut enabled: usize = 0;
        let mut list: Vec<TaskSummary> = Vec::new();
        let mut i: usize = 0;
        while i < n
            invariant
                n == self.tasks.pairs().len(),
                i <= n,
                enabled == enabled_count(self.tasks.pairs().subrange(0, i as int)),
                enabled <= i,
                list@.len() == i,
                forall|j: int| 0 <= j < i ==> summarizes(#[trigger] list@[j], self.tasks.pairs()[j].1),
            decreases n - i,
        {
            let (_, t) = self.tasks.entry_at(i);
            let ghost pre = self.tasks.pairs().subrange(0, i as int);
            let ghost next = self.tasks.pairs().subrange(0, i + 1);
            assert(next.drop_last() =~= pre);
            if t.enabled {
                enabled = enabled + 1;
            }
            list.push(TaskSummary {
                id: t.id.clone(),
                name: t.name.clone(),
                task_type: copy_task_type(&t.task_type),
                priority: t.priority,
                enabled: t.enabled,
                last_run: t.last_run,
                next_run: t.next_run,
                retry_count: t.retry_count,
            });
            i = i + 1;
        }
        assert(self.tasks.pairs().subrange(0, n as int) =~= self.tasks.pairs());
        TaskStatus {
            total_tasks: n,
            enabled_tasks: enabled,
            running_tasks: self.queue.running_tasks.len(),
            completed_tasks: self.queue.completed_tasks.len(),
            tasks: list,
        }
    }

    /// The newest results first, `limit` of them when given.
    pub fn get_task_history(&self, limit: Option<usize>) -> (r: Vec<TaskResult>)
        ensures
            ({
                let n = self.queue.completed_tasks@.len();
                let want = match limit { Some(l) => if l < n { l as nat } else { n }, None => n };
                &&& r@.len() == want
                &&& forall|i: int| 0 <= i < r@.len() ==> #[trigger] r@[i] == self.queue.completed_tasks@[n - 1 - i]
            }),
    {
        let h = &self.queue.completed_tasks;
        let n = h.len();
        let cap = match limit { Some(l) => l, None => n };
        let mut r: Vec<TaskResult> = Vec::new();
        let mut i: usize = 0;
        while i < n && i < cap
            invariant
                n == h@.len(),
                h == self.queue.completed_tasks,
                cap == (match limit { Some(l) => l, None => n }),
                i <= n,
                i <= cap,
                r@.len() == i,
                forall|j: int| 0 <= j < i ==> #[trigger] r@[j] == h@[n - 1 - j],
            decreases n - i,
        {
            let e = &h[n - 1 - i];
            r.push(TaskResult {
                task_id: e.task_id.clone(),
                success: e.success,
                duration_ms: e.duration_ms,
                error_message: match &e.error_message { Some(m) => Some(m.clone()), None => None },
                timestamp: e.timestamp,
                retry_count: e.retry_count,
            });
            i = i + 1;
        }
        r
    }
}

/// The task is due at `now`: enabled, with a next run that is not after `now`.
pub open spec fn is_due(t: ScheduledTask, now: u64) -> bool {
    t.enabled && t.next_run is Some && now >= t.next_run->0
}

/// The identifiers of the due tasks among registry entries, in order.
pub open spec fn due_ids(p: Seq<(Seq<char>, ScheduledTask)>, now: u64) -> Seq<Seq<char>>
    decreases p.len(),
{
    if p.len() == 0 {
        Seq::empty()
    } else {
        let rest = due_ids(p.drop_last(), now);
        if is_due(p.last().1, now) { rest.push(p.last().1.id@) } else { rest }
    }
}

/// `u` is the task `t` after the scheduling pass at `now`.
pub open spec fn scheduled(t: ScheduledTask, u: ScheduledTask, now: u64) -> bool {
    &&& u.enabled == t.enabled && u.id == t.id && u.cron_expression == t.cron_expression
    &&& (!t.enabled ==> u.next_run == t.next_run && u.last_run == t.last_run)
    &&& (t.enabled && t.next_run is Some && now >= t.next_run->0 ==>
            u.last_run == Some(now)
            && u.next_run == (match next_run_after(t.cron_expression@, now) { Some(n) => Some(n), None => t.next_run }))
    &&& (t.enabled && t.next_run is Some && now < t.next_run->0 ==> u.next_run == t.next_run && u.last_run == t.last_run)
    &&& (t.enabled && t.next_run is None ==> u.next_run == next_run_after(t.cron_expression@, now) && u.last_run == t.last_run)
}

/// `s` is the status line of `t`.
pub open spec fn summarizes(s: TaskSummary, t: ScheduledTask) -> bool {
    &&& s.id == t.id && s.name == t.name && s.task_type == t.task_type && s.priority == t.priority
    &&& s.enabled == t.enabled && s.last_run == t.last_run && s.next_run == t.next_run && s.retry_count == t.retry_count
}

/// A copy of a task.
pub fn copy_task(t: &ScheduledTask) -> (r: ScheduledTask)
    ensures
        r.id == t.id && r.name == t.name && r.cron_expression == t.cron_expression && r.task_type == t.task_type,
        r.priority == t.priority && r.enabled == t.enabled && r.last_run == t.last_run && r.next_run == t.next_run,
        r.retry_count == t.retry_count && r.max_retries == t.max_retries && r.retry_delay_ms == t.retry_delay_ms,
        crate::logger::values_view(r.metadata@) == crate::logger::values_view(t.metadata@),
{
    let context = copy_metadata(&t.metadata);
    ScheduledTask {
        id: t.id.clone(),
        name: t.name.clone(),
        cron_expression: t.cron_expression.clone(),
        task_type: copy_task_type(&t.task_type),
        priority: t.priority,
        enabled: t.enabled,
        last_run: t.last_run,
        next_run: t.next_run,
        retry_count: t.retry_count,
        max_retries: t.max_retries,
        retry_delay_ms: t.retry_delay_ms,
        metadata: context,
    }
}

fn copy_metadata(m: &StrMap<LogValue>) -> (r: StrMap<LogValue>)
    ensures
        crate::logger::values_view(r@) == crate::logger::values_view(m@),
{
    let mut r: StrMap<LogValue> = StrMap::new();
    crate::logger::merge_values(&mut r, m);
    assert(crate::logger::values_view(r@) =~= crate::logger::values_view(m@));
    r
}

/// What a handler does with a task.
pub trait TaskHandler {
    /// Runs the task; on success, the line to log.
    fn execute(&self, task: &ScheduledTask) -> Result<LogLine, String>;

    /// The handler's name.
    fn get_name(&self) -> String;
}

/// The backup handler.
pub struct BackupTaskHandler;

/// The cleanup handler.
pub struct CleanupTaskHandler;

/// The health check handler.
pub struct HealthCheckTaskHandler;

/// The metrics collection handler.
pub struct MetricsCollectionTaskHandler;

impl TaskHandler for BackupTaskHandler {
    fn execute(&self, task: &ScheduledTask) -> (r: Result<LogLine, String>)
        ensures r is Ok && r->Ok_0.message@ == "Executing backup task: "@ + task.name@,
    {
        Ok(LogLine { level: LogLevel::Info, message: concat2("Executing backup task: ", task.name.as_str()) })
    }

    fn get_name(&self) -> (s: String)
        ensures s@ == "BackupTaskHandler"@,
    {
        owned("BackupTaskHandler")
    }
}

impl TaskHandler for CleanupTaskHandler {
    fn execute(&self, task: &ScheduledTask) -> (r: Result<LogLine, String>)
        ensures r is Ok && r->Ok_0.message@ == "Executing cleanup task: "@ + task.name@,
    {
        Ok(LogLine { level: LogLevel::Info, message: concat2("Executing cleanup task: ", task.name.as_str()) })
    }

    fn get_name(&self) -> (s: String)
        ensures s@ == "CleanupTaskHandler"@,
    {
        owned("CleanupTaskHandler")
    }
}

impl TaskHandler for HealthCheckTaskHandler {
    fn execute(&self, task: &ScheduledTask) -> (r: Result<LogLine, String>)
        ensures r is Ok && r->Ok_0.message@ == "Executing health check task: "@ + task.name@,
    {
        Ok(LogLine { level: LogLevel::Info, message: concat2("Executing health check task: ", task.name.as_str()) })
    }

    fn get_name(&self) -> (s: String)
        ensures s@ == "HealthCheckTaskHandler"@,
    {
        owned("HealthCheckTaskHandler")
    }
}

impl TaskHandler for MetricsCollectionTaskHandler {
    fn execute(&self, task: &ScheduledTask) -> (r: Result<LogLine, String>)
        ensures r is Ok && r->Ok_0.message@ == "Executing metrics collection task: "@ + task.name@,
    {
        Ok(LogLine { level: LogLevel::Info, message: concat2("Executing metrics collection task: ", task.name.as_str()) })
    }

    fn get_name(&self) -> (s: String)
        ensures s@ == "MetricsCollectionTaskHandler"@,
    {
        owned("MetricsCollectionTaskHandler")
    }
}

/// The history never grows past a thousand results once within that
/// limit, and its newest result is the one just recorded.
pub proof fn lemma_history_bounded(h: Seq<TaskResult>, r: TaskResult)
    requires
        h.len() <= MAX_TASK_HISTORY,
    ensures
        history_after(h, r).len() <= MAX_TASK_HISTORY,
        history_after(h, r).last() == r,
{
}

} // verus!
