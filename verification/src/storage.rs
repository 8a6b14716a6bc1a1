//! The relay's records: a log of the last thousand transactions, devices by
//! identifier, and counters. Times are RFC 3339 texts that the caller
//! supplies; persisting the records is the caller's part.
use vstd::prelude::*;
use crate::collections::StrMap;
use crate::digest::{hex_encode, hex_of, new_uuid, sha256_digest, sha256_of};
use crate::text::{concat2, owned, str_eq, u64_to_string, decimal};

verus! {

/// How many transactions the log keeps.
pub const MAX_STORED_TRANSACTIONS: usize = 1000;

/// Integrity data stamped on a transaction when it is received.
pub struct TransactionSecurity {
    /// SHA-256, in lowercase hex, of the signed transaction, the chain
    /// identifier in decimal and the device identifier (or nothing).
    pub hash: String,
    pub created_at: String,
    pub server_id: String,
}

/// A received transaction.
pub struct Transaction {
    pub id: String,
    pub signed_tx: String,
    pub chain_id: u64,
    pub device_id: Option<String>,
    pub timestamp: String,
    pub status: String,
    pub tx_hash: Option<String>,
    pub security: TransactionSecurity,
}

/// A known device.
pub struct Device {
    pub id: String,
    pub name: Option<String>,
    pub public_key: Option<String>,
    pub status: String,
    pub last_seen: String,
    pub auth_attempts: u32,
    pub blocked_until: Option<String>,
}

/// The relay's counters.
pub struct Metrics {
    pub transactions_received: u64,
    pub transactions_processed: u64,
    pub transactions_failed: u64,
    pub ble_connections: u64,
    pub auth_failures: u64,
    pub last_updated: String,
}

/// The current time from `chrono::Utc::now`, in RFC 3339. Nothing is stated
/// of the value.
#[verifier::external_body]
fn now_rfc3339() -> (r: String) {
    chrono::Utc::now().to_rfc3339()
}

/// The UTF-8 bytes of a text.
pub open spec fn utf8(s: Seq<char>) -> Seq<u8> {
    vstd::utf8::encode_utf8(s)
}

/// The bytes that a transaction's integrity hash covers.
pub open spec fn security_input(signed_tx: Seq<char>, chain_id: u64, device_id: Option<Seq<char>>) -> Seq<u8> {
    utf8(signed_tx) + utf8(decimal(chain_id as nat)) + utf8(match device_id { Some(d) => d, None => Seq::empty() })
}

/// The view of an optional string.
pub open spec fn opt_view(o: Option<String>) -> Option<Seq<char>> {
    match o { Some(s) => Some(s@), None => None }
}

fn append_bytes(v: &mut Vec<u8>, s: &str)
    ensures
        final(v)@ == old(v)@ + utf8(s@),
{
    let b = s.as_bytes();
    let mut i: usize = 0;
    while i < b.len()
        invariant
            b@ == utf8(s@),
            i <= b@.len(),
            v@ == old(v)@ + b@.subrange(0, i as int),
        decreases b.len() - i,
    {
        v.push(b[i]);
        i = i + 1;
        assert(v@ =~= old(v)@ + b@.subrange(0, i as int));
    }
    assert(b@.subrange(0, b@.len() as int) =~= b@);
}

fn copy_opt(o: &Option<String>) -> (r: Option<String>)
    ensures
        r == *o,
{
    match o {
        Some(s) => Some(s.clone()),
        None => None,
    }
}

impl TransactionSecurity {
    /// An identical copy.
    pub fn copy(&self) -> (r: Self)
        ensures
            r == *self,
    {
        TransactionSecurity { hash: self.hash.clone(), created_at: self.created_at.clone(), server_id: self.server_id.clone() }
    }
}

impl Transaction {
    /// An identical copy.
    pub fn copy(&self) -> (r: Self)
        ensures
            r == *self,
    {
        Transaction {
            id: self.id.clone(),
            signed_tx: self.signed_tx.clone(),
            chain_id: self.chain_id,
            device_id: copy_opt(&self.device_id),
            timestamp: self.timestamp.clone(),
            status: self.status.clone(),
            tx_hash: copy_opt(&self.tx_hash),
            security: self.security.copy(),
        }
    }

    /// A pending transaction with the given identifier and receipt time,
    /// stamped with its integrity hash and the server's identifier.
    pub fn assemble(signed_tx: String, chain_id: u64, device_id: Option<String>, id: String, timestamp: String, server_id: String) -> (t: Self)
        ensures
            t.id == id,
            t.signed_tx == signed_tx,
            t.chain_id == chain_id,
            t.device_id == device_id,
            t.timestamp == timestamp,
            t.status@ == "pending"@,
            t.tx_hash is None,
            t.security.hash@ == hex_of(sha256_of(security_input(signed_tx@, chain_id, opt_view(device_id)))),
            t.security.created_at == timestamp,
            t.security.server_id == server_id,
    {
        let mut data: Vec<u8> = Vec::new();
        append_bytes(&mut data, signed_tx.as_str());
        append_bytes(&mut data, u64_to_string(chain_id).as_str());
        match &device_id {
            Some(d) => append_bytes(&mut data, d.as_str()),
            None => append_bytes(&mut data, ""),
        }
        proof {
            assert(""@ =~= Seq::<char>::empty()) by { reveal_strlit(""); }
            assert(data@ =~= security_input(signed_tx@, chain_id, opt_view(device_id)));
        }
        let hash = hex_encode(&sha256_digest(&data));
        let created_at = timestamp.clone();
        Transaction {
            id,
            signed_tx,
            chain_id,
            device_id,
            timestamp,
            status: owned("pending"),
            tx_hash: None,
            security: TransactionSecurity { hash, created_at, server_id },
        }
    }

    /// A pending transaction received now, with a fresh identifier (see `assemble`).
    pub fn new(signed_tx: String, chain_id: u64, device_id: Option<String>, server_id: String) -> (t: Self)
        ensures
            t.signed_tx == signed_tx,
            t.chain_id == chain_id,
            t.device_id == device_id,
            t.status@ == "pending"@,
            t.tx_hash is None,
            t.security.hash@ == hex_of(sha256_of(security_input(signed_tx@, chain_id, opt_view(device_id)))),
            t.security.created_at == t.timestamp,
            t.security.server_id == server_id,
    {
        let id = new_uuid();
        let timestamp = now_rfc3339();
        Self::assemble(signed_tx, chain_id, device_id, id, timestamp, server_id)
    }
}

impl Device {
    /// A newly seen device: disconnected, no attempts, not blocked.
    pub fn new(id: String, now: String) -> (d: Self)
        ensures
            d.id == id,
            d.name is None,
            d.public_key is None,
            d.status@ == "disconnected"@,
            d.last_seen == now,
            d.auth_attempts == 0,
            d.blocked_until is None,
    {
        Device { id, name: None, public_key: None, status: owned("disconnected"), last_seen: now, auth_attempts: 0, blocked_until: None }
    }

    /// An identical copy.
    pub fn copy(&self) -> (r: Self)
        ensures
            r == *self,
    {
        Device {
            id: self.id.clone(),
            name: copy_opt(&self.name),
            public_key: copy_opt(&self.public_key),
            status: self.status.clone(),
            last_seen: self.last_seen.clone(),
            auth_attempts: self.auth_attempts,
            blocked_until: copy_opt(&self.blocked_until),
        }
    }
}

impl Metrics {
    /// Zero counters, stamped `now`.
    pub fn new(now: String) -> (m: Self)
        ensures
            m.transactions_received == 0 && m.transactions_processed == 0 && m.transactions_failed == 0,
            m.ble_connections == 0 && m.auth_failures == 0,
            m.last_updated == now,
    {
        Metrics {
            transactions_received: 0,
            transactions_processed: 0,
            transactions_failed: 0,
            ble_connections: 0,
            auth_failures: 0,
            last_updated: now,
        }
    }

    /// An identical copy.
    pub fn copy(&self) -> (r: Self)
        ensures
            r == *self,
    {
        Metrics {
            transactions_received: self.transactions_received,
            transactions_processed: self.transactions_processed,
            transactions_failed: self.transactions_failed,
            ble_connections: self.ble_connections,
            auth_failures: self.auth_failures,
            last_updated: self.last_updated.clone(),
        }
    }
}

/// The names of the counters.
pub open spec fn metric_names() -> Set<Seq<char>> {
    set!["transactions_received"@, "transactions_processed"@, "transactions_failed"@, "ble_connections"@, "auth_failures"@]
}

/// The counter called `field`.
pub open spec fn metric_value(m: Metrics, field: Seq<char>) -> u64 {
    if field == "transactions_received"@ { m.transactions_received }
    else if field == "transactions_processed"@ { m.transactions_processed }
    else if field == "transactions_failed"@ { m.transactions_failed }
    else if field == "ble_connections"@ { m.ble_connections }
    else { m.auth_failures }
}

/// The log after saving `t`: appended, then cut to the last thousand.
pub open spec fn log_after_save(log: Seq<Transaction>, t: Transaction) -> Seq<Transaction> {
    let s = log.push(t);
    if s.len() > MAX_STORED_TRANSACTIONS { s.subrange(s.len() - MAX_STORED_TRANSACTIONS, s.len() as int) } else { s }
}

/// The transactions still pending for a device, in log order.
pub open spec fn pending_for(log: Seq<Transaction>, device_id: Seq<char>) -> Seq<Transaction>
    decreases log.len(),
{
    if log.len() == 0 {
        Seq::empty()
    } else {
        let rest = pending_for(log.drop_last(), device_id);
        let t = log.last();
        if opt_view(t.device_id) == Some(device_id) && t.status@ == "pending"@ { rest.push(t) } else { rest }
    }
}

/// The first position in the log of a transaction with this identifier.
pub open spec fn first_with_id(log: Seq<Transaction>, id: Seq<char>, k: int) -> bool {
    &&& 0 <= k < log.len()
    &&& log[k].id@ == id
    &&& forall|j: int| 0 <= j < k ==> log[j].id@ != id
}

/// No transaction in the log has this identifier.
pub open spec fn no_id(log: Seq<Transaction>, id: Seq<char>) -> bool {
    forall|j: int| 0 <= j < log.len() ==> log[j].id@ != id
}

/// The relay's records.
pub struct Storage {
    pub transactions: Vec<Transaction>,
    pub devices: StrMap<Device>,
    pub metrics: Metrics,
}

impl Storage {
    /// Empty records with zero counters stamped `now`.
    pub fn new(now: String) -> (s: Self)
        ensures
            s.transactions@.len() == 0,
            s.devices@ == Map::<Seq<char>, Device>::empty(),
            s.metrics == Metrics::new_spec(now),
    {
        Storage { transactions: Vec::new(), devices: StrMap::new(), metrics: Metrics::new(now) }
    }

    /// Records restored from a previous run.
    pub fn restore(transactions: Vec<Transaction>, devices: StrMap<Device>, metrics: Metrics) -> (s: Self)
        ensures
            s.transactions == transactions,
            s.devices == devices,
            s.metrics == metrics,
    {
        Storage { transactions, devices, metrics }
    }

    /// Appends a transaction, keeping only the last thousand.
    pub fn save_transaction(&mut self, transaction: Transaction)
        ensures
            final(self).transactions@ == log_after_save(old(self).transactions@, transaction),
            final(self).devices == old(self).devices,
            final(self).metrics == old(self).metrics,
    {
        self.transactions.push(transaction);
        let len = self.transactions.len();
        if len > MAX_STORED_TRANSACTIONS {
            let kept = self.transactions.split_off(len - MAX_STORED_TRANSACTIONS);
            self.transactions = kept;
        }
    }

    /// The newest `limit` transactions, newest first.
    pub fn get_transactions(&self, limit: usize) -> (r: Vec<Transaction>)
        ensures
            r@.len() == if limit < self.transactions@.len() { limit as nat } else { self.transactions@.len() },
            forall|i: int| 0 <= i < r@.len() ==> #[trigger] r@[i] == self.transactions@[self.transactions@.len() - 1 - i],
    {
        let n = self.transactions.len();
        let mut r: Vec<Transaction> = Vec::new();
        let mut i: usize = 0;
        while i < n && i < limit
            invariant
                n == self.transactions@.len(),
                i <= n,
                i <= limit,
                r@.len() == i,
                forall|j: int| 0 <= j < i ==> #[trigger] r@[j] == self.transactions@[n - 1 - j],
            decreases n - i,
        {
            r.push(self.transactions[n - 1 - i].copy());
            i = i + 1;
        }
        r
    }

    /// The position of the first transaction with this identifier.
    fn find_transaction(&self, id: &str) -> (r: Option<usize>)
        ensures
            match r {
                Some(k) => first_with_id(self.transactions@, id@, k as int),
                None => no_id(self.transactions@, id@),
            },
    {
        let mut i: usize = 0;
        while i < self.transactions.len()
            invariant
                i <= self.transactions@.len(),
                forall|j: int| 0 <= j < i ==> self.transactions@[j].id@ != id@,
            decreases self.transactions.len() - i,
        {
            if str_eq(self.transactions[i].id.as_str(), id) {
                return Some(i);
            }
            i = i + 1;
        }
        None
    }

    /// Records the chain hash of the first transaction with this
    /// identifier; says whether there was one.
    pub fn save_transaction_hash(&mut self, transaction_id: &str, tx_hash: &str) -> (found: bool)
        ensures
            found <==> !no_id(old(self).transactions@, transaction_id@),
            found ==> exists|k: int| first_with_id(old(self).transactions@, transaction_id@, k)
                && final(self).transactions@ == old(self).transactions@.update(k,
                    Transaction { tx_hash: Some(final(self).transactions@[k].tx_hash->0), ..old(self).transactions@[k] })
                && final(self).transactions@[k].tx_hash->0@ == tx_hash@,
            !found ==> final(self).transactions@ == old(self).transactions@,
            final(self).devices == old(self).devices,
            final(self).metrics == old(self).metrics,
    {
        match self.find_transaction(transaction_id) {
            Some(k) => {
                let mut t = self.transactions[k].copy();
                t.tx_hash = Some(owned(tx_hash));
                self.transactions.set(k, t);
                true
            },
            None => false,
        }
    }

    /// Replaces the first transaction with the same identifier; says whether there was one.
    pub fn update_transaction(&mut self, transaction: Transaction) -> (found: bool)
        ensures
            found <==> !no_id(old(self).transactions@, transaction.id@),
            found ==> exists|k: int| first_with_id(old(self).transactions@, transaction.id@, k)
                && final(self).transactions@ == old(self).transactions@.update(k, transaction),
            !found ==> final(self).transactions@ == old(self).transactions@,
            final(self).devices == old(self).devices,
            final(self).metrics == old(self).metrics,
    {
        match self.find_transaction(transaction.id.as_str()) {
            Some(k) => {
                self.transactions.set(k, transaction);
                true
            },
            None => false,
        }
    }

    /// The pending transactions of a device, in log order.
    pub fn get_pending_transactions_for_device(&self, device_id: &str) -> (r: Vec<Transaction>)
        ensures
            r@ == pending_for(self.transactions@, device_id@),
    {
        let n = self.transactions.len();
        let mut r: Vec<Transaction> = Vec::new();
        let mut i: usize = 0;
        while i < n
            invariant
                n == self.transactions@.len(),
                i <= n,
                r@ == pending_for(self.transactions@.subrange(0, i as int), device_id@),
            decreases n - i,
        {
            let t = &self.transactions[i];
            let ghost pre = self.transactions@.subrange(0, i as int);
            let ghost next = self.transactions@.subrange(0, i + 1);
            assert(next.drop_last() =~= pre);
            let matches = match &t.device_id {
                Some(d) => str_eq(d.as_str(), device_id),
                None => false,
            };
            if matches && str_eq(t.status.as_str(), "pending") {
                r.push(t.copy());
            }
            i = i + 1;
        }
        assert(self.transactions@.subrange(0, n as int) =~= self.transactions@);
        r
    }

    /// The first transaction with this identifier.
    pub fn get_transaction(&self, transaction_id: &str) -> (r: Option<Transaction>)
        ensures
            match r {
                Some(t) => exists|k: int| first_with_id(self.transactions@, transaction_id@, k) && t == self.transactions@[k],
                None => no_id(self.transactions@, transaction_id@),
            },
    {
        match self.find_transaction(transaction_id) {
            Some(k) => Some(self.transactions[k].copy()),
            None => None,
        }
    }

    /// Every stored transaction, oldest first.
    pub fn get_all_transactions(&self) -> (r: Vec<Transaction>)
        ensures
            r@ == self.transactions@,
    {
        let n = self.transactions.len();
        let mut r: Vec<Transaction> = Vec::new();
        let mut i: usize = 0;
        while i < n
            invariant
                n == self.transactions@.len(),
                i <= n,
                r@ == self.transactions@.subrange(0, i as int),
            decreases n - i,
        {
            r.push(self.transactions[i].copy());
            i = i + 1;
        }
        r
    }

    /// Stores a device under its identifier, replacing any earlier record.
    pub fn save_device(&mut self, device: Device)
        ensures
            final(self).devices@ == old(self).devices@.insert(device.id@, device),
            final(self).transactions == old(self).transactions,
            final(self).metrics == old(self).metrics,
    {
        let id = device.id.clone();
        self.devices.insert(id, device);
    }

    /// The device with this identifier.
    pub fn get_device(&self, device_id: &str) -> (r: Option<Device>)
        ensures
            match r {
                Some(d) => self.devices@.dom().contains(device_id@) && d == self.devices@[device_id@],
                None => !self.devices@.dom().contains(device_id@),
            },
    {
        match self.devices.get(device_id) {
            Some(d) => Some(d.copy()),
            None => None,
        }
    }

    /// Adds `value` to the counter called `field`; an unknown name is an error.
    pub fn update_metrics(&mut self, field: &str, value: u64) -> (r: Result<(), String>)
        requires
            metric_names().contains(field@) ==> metric_value(old(self).metrics, field@) + value <= u64::MAX,
        ensures
            match r {
                Ok(_) => metric_names().contains(field@)
                    && metric_value(final(self).metrics, field@) == metric_value(old(self).metrics, field@) + value
                    && forall|g: Seq<char>| metric_names().contains(g) && g != field@
                        ==> metric_value(final(self).metrics, g) == metric_value(old(self).metrics, g),
                Err(e) => !metric_names().contains(field@) && e@ == "Unknown metric field: "@ + field@
                    && final(self).metrics == old(self).metrics,
            },
            final(self).metrics.last_updated == old(self).metrics.last_updated,
            final(self).transactions == old(self).transactions,
            final(self).devices == old(self).devices,
    {
        proof {
            reveal_strlit("transactions_received");
            reveal_strlit("transactions_processed");
            reveal_strlit("transactions_failed");
            reveal_strlit("ble_connections");
            reveal_strlit("auth_failures");
            assert("transactions_received"@[13] != "transactions_processed"@[13]);
            assert("transactions_received"@.len() != "transactions_failed"@.len());
            assert("transactions_processed"@.len() != "transactions_failed"@.len());
            assert("ble_connections"@.len() != "auth_failures"@.len());
            assert("ble_connections"@[0] != "transactions_received"@[0]);
            assert("ble_connections"@[0] != "transactions_processed"@[0]);
            assert("ble_connections"@[0] != "transactions_failed"@[0]);
            assert("auth_failures"@[0] != "transactions_received"@[0]);
            assert("auth_failures"@[0] != "transactions_processed"@[0]);
            assert("auth_failures"@[0] != "transactions_failed"@[0]);
        }
        if str_eq(field, "transactions_received") {
            self.metrics.transactions_received = self.metrics.transactions_received + value;
        } else if str_eq(field, "transactions_processed") {
            self.metrics.transactions_processed = self.metrics.transactions_processed + value;
        } else if str_eq(field, "transactions_failed") {
            self.metrics.transactions_failed = self.metrics.transactions_failed + value;
        } else if str_eq(field, "ble_connections") {
            self.metrics.ble_connections = self.metrics.ble_connections + value;
        } else if str_eq(field, "auth_failures") {
            self.metrics.auth_failures = self.metrics.auth_failures + value;
        } else {
            return Err(concat2("Unknown metric field: ", field));
        }
        Ok(())
    }

    /// A copy of the counters.
    pub fn get_metrics(&self) -> (m: Metrics)
        ensures
            m == self.metrics,
    {
        self.metrics.copy()
    }
}

impl Metrics {
    /// The counters of `Metrics::new(now)`.
    pub open spec fn new_spec(now: String) -> Metrics {
        Metrics {
            transactions_received: 0,
            transactions_processed: 0,
            transactions_failed: 0,
            ble_connections: 0,
            auth_failures: 0,
            last_updated: now,
        }
    }
}

/// The log never holds more than a thousand transactions after a save.
pub proof fn lemma_log_bounded(log: Seq<Transaction>, t: Transaction)
    ensures
        log_after_save(log, t).len() <= MAX_STORED_TRANSACTIONS,
        log_after_save(log, t).len() > 0,
        log_after_save(log, t).last() == t,
{
}

/// A transaction saved under an identifier that the log does not hold yet
/// is what a lookup of that identifier finds afterwards.
pub proof fn law_saved_transaction_found(log: Seq<Transaction>, t: Transaction)
    requires
        no_id(log, t.id@),
    ensures
        !no_id(log_after_save(log, t), t.id@),
        forall|k: int| first_with_id(log_after_save(log, t), t.id@, k) ==> log_after_save(log, t)[k] == t,
{
    let s = log.push(t);
    let r = log_after_save(log, t);
    assert(forall|j: int| 0 <= j < s.len() - 1 ==> s[j].id@ != t.id@);
    if s.len() > MAX_STORED_TRANSACTIONS {
        let off = s.len() - MAX_STORED_TRANSACTIONS;
        assert(forall|j: int| 0 <= j < r.len() - 1 ==> r[j] == s[j + off]);
    }
    assert(forall|j: int| 0 <= j < r.len() - 1 ==> r[j].id@ != t.id@);
    assert(r[r.len() - 1] == t);
    assert forall|k: int| first_with_id(r, t.id@, k) implies r[k] == t by {
        if k < r.len() - 1 {
            assert(r[k].id@ != t.id@);
        }
    }
}

/// A device saved is what a lookup of its identifier finds afterwards.
pub proof fn law_saved_device_found(devices: Map<Seq<char>, Device>, d: Device)
    ensures
        devices.insert(d.id@, d).dom().contains(d.id@),
        devices.insert(d.id@, d)[d.id@] == d,
{
}

} // verus!
