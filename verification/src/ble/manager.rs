//! The BLE side of the relay, without the radio: the registry of discovered
//! devices, per-device rate limits over sliding windows, blocking,
//! authentication, key exchange and session keys, and the transactions
//! received from devices. Times are milliseconds since the Unix epoch,
//! read by the caller; the radio work (scanning, connecting) is the
//! caller's, which hands its results in.
use vstd::prelude::*;
use crate::collections::StrMap;
use crate::digest::{hex_encode, hex_of, new_uuid, random_below, random_bytes, sha256_digest, sha256_of};
use crate::storage::utf8;
use crate::text::{contains, owned, seq_contains};

verus! {

/// Connection attempts allowed per device per window.
pub const MAX_CONNECTS_PER_MINUTE: u32 = 5;
/// Transactions allowed per device per window.
pub const MAX_TX_PER_MINUTE: u32 = 10;
/// The rate-limit window, in milliseconds.
pub const RATE_WINDOW_MS: u64 = 60000;
/// How long a blocked device stays blocked, in milliseconds.
pub const AUTH_BLOCK_DURATION_MS: u64 = 300000;
/// Failed authentication attempts after which a device is blocked.
pub const MAX_AUTH_ATTEMPTS: u32 = 3;
/// Simultaneous connections the relay accepts.
pub const MAX_CONNECTIONS: usize = 10;

#[derive(Debug, Clone, Copy, PartialEq, Eq, Structural)]
pub enum TransactionStatus {
    Pending,
    Processing,
    Completed,
    Failed,
    Cancelled,
}

#[derive(Debug, Clone, Copy, PartialEq, Eq, Structural)]
pub enum DeviceStatus {
    Connected,
    Disconnected,
    Blocked,
    Authenticated,
    Unauthenticated,
}

#[derive(Debug, Clone, Copy, PartialEq, Eq, Structural)]
pub enum AuthStatus {
    Pending,
    Authenticated,
    Failed,
    Blocked,
}

#[derive(Debug, Clone, Copy, PartialEq, Eq, Structural)]
pub enum KeyExchangeStatus {
    Pending,
    Completed,
    Failed,
}

/// A device seen by the relay.
pub struct BLEDevice {
    pub id: String,
    pub name: Option<String>,
    pub address: String,
    pub rssi: Option<i16>,
    pub is_connected: bool,
    /// Seconds since the Unix epoch.
    pub last_seen: u64,
    pub status: DeviceStatus,
    pub auth_status: AuthStatus,
    pub key_exchange_status: KeyExchangeStatus,
}

/// A transaction received from a device.
pub struct BLETransaction {
    pub id: String,
    pub device_id: String,
    pub transaction_data: String,
    pub status: TransactionStatus,
    /// Seconds since the Unix epoch.
    pub timestamp: u64,
    pub signature: Option<String>,
    pub encrypted: bool,
}

/// A device's authentication request.
pub struct AuthRequest {
    pub device_id: String,
    pub public_key: String,
    pub challenge: String,
}

/// The answer to a device's authentication.
pub struct AuthResponse {
    pub token: String,
    pub expires_at: String,
    pub status: String,
    pub signature: String,
}

/// A device's key exchange request.
pub struct KeyExchangeRequest {
    pub device_id: String,
    pub public_key: String,
    pub nonce: String,
}

/// The answer to a key exchange.
pub struct KeyExchangeResponse {
    pub session_key: String,
    pub expires_at: String,
    pub status: String,
}

/// The BLE counters (rates and uptime are the caller's).
pub struct BLEStatus {
    pub enabled: bool,
    pub initialized: bool,
    pub is_advertising: bool,
    pub connected_devices: u32,
    pub authenticated_devices: u32,
    pub blocked_devices: u32,
    /// Milliseconds since the Unix epoch.
    pub last_scan_time: Option<u64>,
    pub scan_duration_ms: u64,
    pub total_devices_discovered: u32,
    pub active_connections: u32,
    pub failed_connections: u32,
    pub last_error: Option<String>,
    pub key_exchange_completed: u32,
    pub key_exchange_failed: u32,
}

/// A challenge sent to a device that is authenticating.
pub struct AuthChallenge {
    pub challenge: String,
    pub created_at: u64,
    pub attempts: u32,
}

/// The state of a key exchange with a device.
pub struct KeyExchangeState {
    pub status: KeyExchangeStatus,
    pub dh_public_key: String,
    pub session_key: Option<String>,
    pub timestamp: u64,
    pub attempts: u32,
}

/// A blocked device: why, and until when.
pub struct BlockedDevice {
    pub reason: String,
    pub blocked_until: u64,
}

/// Event times kept for a sliding window: at most `max_events` within
/// `window_ms` of the latest check.
pub struct RateLimitTracker {
    pub timestamps: Vec<u64>,
    pub max_events: u32,
    pub window_ms: u64,
}

/// The events left after dropping, from the front, those older than `cutoff`.
pub open spec fn drop_old(ts: Seq<u64>, cutoff: u64) -> Seq<u64>
    decreases ts.len(),
{
    if ts.len() > 0 && ts[0] < cutoff { drop_old(ts.drop_first(), cutoff) } else { ts }
}

/// The start of the window ending at `now`.
pub open spec fn window_start(now: u64, window_ms: u64) -> u64 {
    if now >= window_ms { (now - window_ms) as u64 } else { 0 }
}

/// The events after a check at `now`, and whether the event was admitted:
/// old events go, then the new one is recorded if there is room.
pub open spec fn tracker_step(ts: Seq<u64>, max_events: u32, window_ms: u64, now: u64) -> (Seq<u64>, bool) {
    let kept = drop_old(ts, window_start(now, window_ms));
    if kept.len() < max_events { (kept.push(now), true) } else { (kept, false) }
}

proof fn lemma_drop_old_shorter(ts: Seq<u64>, cutoff: u64)
    ensures
        drop_old(ts, cutoff).len() <= ts.len(),
    decreases ts.len(),
{
    if ts.len() > 0 && ts[0] < cutoff {
        lemma_drop_old_shorter(ts.drop_first(), cutoff);
    }
}

impl RateLimitTracker {
    /// An empty tracker.
    pub fn new(max_events: u32, window_ms: u64) -> (t: Self)
        ensures
            t.timestamps@.len() == 0,
            t.max_events == max_events,
            t.window_ms == window_ms,
    {
        RateLimitTracker { timestamps: Vec::new(), max_events, window_ms }
    }

    /// Drops the events older than the window ending at `now` and records
    /// one more if fewer than `max_events` remain (see `tracker_step`).
    pub fn check_and_record(&mut self, now: u64) -> (admitted: bool)
        ensures
            (final(self).timestamps@, admitted) == tracker_step(old(self).timestamps@, old(self).max_events, old(self).window_ms, now),
            final(self).max_events == old(self).max_events,
            final(self).window_ms == old(self).window_ms,
    {
        let cutoff: u64 = if now >= self.window_ms { now - self.window_ms } else { 0 };
        let mut start: usize = 0;
        let ghost all = self.timestamps@;
        assert(all.subrange(0, all.len() as int) =~= all);
        while start < self.timestamps.len() && self.timestamps[start] < cutoff
            invariant
                self.timestamps@ == all,
                start <= all.len(),
                drop_old(all, cutoff) == drop_old(all.subrange(start as int, all.len() as int), cutoff),
            decreases all.len() - start,
        {
            let ghost rest = all.subrange(start as int, all.len() as int);
            assert(rest.drop_first() =~= all.subrange(start + 1, all.len() as int));
            start = start + 1;
        }
        let kept = self.timestamps.split_off(start);
        self.timestamps = kept;
        proof {
            assert(all.subrange(0, all.len() as int) =~= all);
            let rest = all.subrange(start as int, all.len() as int);
            assert(drop_old(rest, cutoff) == rest);
        }
        if self.timestamps.len() < self.max_events as usize {
            self.timestamps.push(now);
            true
        } else {
            false
        }
    }
}

/// A tracker never holds more events than it allows, once it has been
/// checked: what a check leaves is bounded by the limit whenever it started so.
pub proof fn lemma_tracker_bounded(ts: Seq<u64>, max_events: u32, window_ms: u64, now: u64)
    requires
        ts.len() <= max_events,
    ensures
        tracker_step(ts, max_events, window_ms, now).0.len() <= max_events,
        tracker_step(ts, max_events, window_ms, now).1 ==> tracker_step(ts, max_events, window_ms, now).0.last() == now,
        !tracker_step(ts, max_events, window_ms, now).1 ==> drop_old(ts, window_start(now, window_ms)).len() >= max_events,
{
    lemma_drop_old_shorter(ts, window_start(now, window_ms));
}

proof fn lemma_drop_old_keeps(ts: Seq<u64>, cutoff: u64, i: int)
    requires
        0 <= i < ts.len(),
        cutoff <= ts[i],
    ensures
        drop_old(ts, cutoff).contains(ts[i]),
    decreases ts.len(),
{
    if ts.len() > 0 && ts[0] < cutoff {
        assert(i != 0);
        assert(ts.drop_first()[i - 1] == ts[i]);
        lemma_drop_old_keeps(ts.drop_first(), cutoff, i - 1);
    } else {
        assert(drop_old(ts, cutoff) == ts);
        assert(ts[i] == ts[i]);
    }
}

/// A check forgets only events older than its window: every recorded event
/// no more than `window_ms` before `now` is still held afterwards, and an
/// admitted check is recorded at `now`; so within any `window_ms` span a
/// tracker keeps counting every event it admitted there. A tracker holding
/// fewer events than its limit admits the check.
pub proof fn lemma_tracker_keeps_window(ts: Seq<u64>, max_events: u32, window_ms: u64, now: u64)
    ensures
        forall|i: int| 0 <= i < ts.len() && now - window_ms <= ts[i]
            ==> #[trigger] tracker_step(ts, max_events, window_ms, now).0.contains(ts[i]),
        tracker_step(ts, max_events, window_ms, now).1 ==> tracker_step(ts, max_events, window_ms, now).0.contains(now),
        ts.len() < max_events ==> tracker_step(ts, max_events, window_ms, now).1,
{
    lemma_drop_old_shorter(ts, window_start(now, window_ms));
    assert forall|i: int| 0 <= i < ts.len() && now - window_ms <= ts[i]
        implies #[trigger] tracker_step(ts, max_events, window_ms, now).0.contains(ts[i]) by {
        let cutoff = window_start(now, window_ms);
        lemma_drop_old_keeps(ts, cutoff, i);
        let kept = drop_old(ts, cutoff);
        let j = choose|j: int| 0 <= j < kept.len() && kept[j] == ts[i];
        if kept.len() < max_events {
            assert(kept.push(now)[j] == ts[i]);
        }
    }
    let kept = drop_old(ts, window_start(now, window_ms));
    if kept.len() < max_events {
        assert(kept.push(now)[kept.len() as int] == now);
    }
}

/// The events a device's tracker holds (none before its first check).
pub open spec fn tracker_events(m: Map<Seq<char>, RateLimitTracker>, id: Seq<char>) -> Seq<u64> {
    if m.dom().contains(id) { m[id].timestamps@ } else { Seq::empty() }
}

/// The event limit of a device's tracker (`default` before its first check).
pub open spec fn tracker_limit(m: Map<Seq<char>, RateLimitTracker>, id: Seq<char>, default: u32) -> u32 {
    if m.dom().contains(id) { m[id].max_events } else { default }
}

/// The window of a device's tracker (a minute before its first check).
pub open spec fn tracker_window(m: Map<Seq<char>, RateLimitTracker>, id: Seq<char>) -> u64 {
    if m.dom().contains(id) { m[id].window_ms } else { RATE_WINDOW_MS }
}

/// A device found by a scan: its identifier, advertised name and signal.
pub struct ScannedPeripheral {
    pub id: String,
    pub local_name: Option<String>,
    pub rssi: Option<i16>,
}

/// The peripherals that a scan keeps: those advertising a name that holds `AirChainPay`.
pub open spec fn relay_peripherals(p: Seq<ScannedPeripheral>) -> Seq<ScannedPeripheral>
    decreases p.len(),
{
    if p.len() == 0 {
        Seq::empty()
    } else {
        let rest = relay_peripherals(p.drop_last());
        match p.last().local_name {
            Some(n) => if seq_contains(n@, "AirChainPay"@) { rest.push(p.last()) } else { rest },
            None => rest,
        }
    }
}

/// The last peripheral in `s` with the identifier `id`, if any.
pub open spec fn last_with_id(s: Seq<ScannedPeripheral>, id: Seq<char>) -> Option<ScannedPeripheral>
    decreases s.len(),
{
    if s.len() == 0 {
        None
    } else if s.last().id@ == id {
        Some(s.last())
    } else {
        last_with_id(s.drop_last(), id)
    }
}

/// The device record made for a scanned peripheral at `now_secs`.
pub open spec fn scanned_device(d: BLEDevice, p: ScannedPeripheral, now_secs: u64) -> bool {
    &&& d.id@ == p.id@
    &&& d.address@ == p.id@
    &&& d.name is Some && p.local_name is Some && d.name->0@ == p.local_name->0@
    &&& d.rssi == p.rssi
    &&& !d.is_connected
    &&& d.last_seen == now_secs
    &&& d.status == DeviceStatus::Disconnected
    &&& d.auth_status == AuthStatus::Pending
    &&& d.key_exchange_status == KeyExchangeStatus::Pending
}

/// The session key for an exchange: SHA-256, in hex, of the relay's
/// exchange key, the device's key, the device identifier and the relay's
/// private key.
pub open spec fn session_key_of(ours: Seq<char>, theirs: Seq<char>, device_id: Seq<char>, relay_private: Seq<char>) -> Seq<char> {
    hex_of(sha256_of(utf8(ours) + utf8(theirs) + utf8(device_id) + utf8(relay_private)))
}

/// A key pair: a private key of 32 random bytes in hex, and the hex of its digest.
pub open spec fn is_key_pair(private_key: Seq<char>, public_key: Seq<char>) -> bool {
    exists|b: Seq<u8>| b.len() == 32 && private_key == hex_of(b) && public_key == hex_of(sha256_of(b))
}

/// The BLE registry.
pub struct BLEManager {
    pub devices: StrMap<BLEDevice>,
    pub transactions: StrMap<BLETransaction>,
    pub status: BLEStatus,
    /// Milliseconds since the Unix epoch.
    pub start_time: u64,
    /// Devices with a live connection, with the time it was made.
    pub connected_devices: StrMap<u64>,
    /// Device identifier to public key.
    pub authenticated_devices: StrMap<String>,
    pub auth_challenges: StrMap<AuthChallenge>,
    pub blocked_devices: StrMap<BlockedDevice>,
    pub key_exchange_state: StrMap<KeyExchangeState>,
    pub session_keys: StrMap<String>,
    pub connection_timestamps: StrMap<RateLimitTracker>,
    pub tx_timestamps: StrMap<RateLimitTracker>,
    pub encryption_keys: StrMap<String>,
    pub relay_private_key: String,
    pub relay_public_key: String,
}

/// Writes `s` as bytes after `v`.
fn push_text_bytes(v: &mut Vec<u8>, s: &str)
    ensures
        final(v)@ == old(v)@ + utf8(s@),
{
    let b = s.as_bytes();
    let mut i: usize = 0;
    while i < b.len()
        invariant
            b@ == utf8(s@),
            i <= b@.len(),
            v@ == old(v)@ + b@.subrange(0, i as int),
        decreases b.len() - i,
    {
        v.push(b[i]);
        i = i + 1;
        assert(v@ =~= old(v)@ + b@.subrange(0, i as int));
    }
    assert(b@.subrange(0, b@.len() as int) =~= b@);
}

/// Sets the connection, status and key fields of the device `id`, if it is known.
fn set_device_state(
    devices: &mut StrMap<BLEDevice>,
    id: &str,
    status: Option<DeviceStatus>,
    auth: Option<AuthStatus>,
    key_exchange: Option<KeyExchangeStatus>,
)
    ensures
        final(devices)@.dom() == old(devices)@.dom(),
        forall|k: Seq<char>| k != id@ && old(devices)@.dom().contains(k) ==> final(devices)@[k] == old(devices)@[k],
        old(devices)@.dom().contains(id@) ==> {
            let before = old(devices)@[id@];
            let after = final(devices)@[id@];
            &&& after.id == before.id && after.name == before.name && after.address == before.address
            &&& after.rssi == before.rssi && after.is_connected == before.is_connected && after.last_seen == before.last_seen
            &&& after.status == (match status { Some(s) => s, None => before.status })
            &&& after.auth_status == (match auth { Some(a) => a, None => before.auth_status })
            &&& after.key_exchange_status == (match key_exchange { Some(x) => x, None => before.key_exchange_status })
        },
{
    match devices.get(id) {
        Some(d) => {
            let updated = BLEDevice {
                id: d.id.clone(),
                name: match &d.name { Some(n) => Some(n.clone()), None => None },
                address: d.address.clone(),
                rssi: d.rssi,
                is_connected: d.is_connected,
                last_seen: d.last_seen,
                status: match status { Some(s) => s, None => d.status },
                auth_status: match auth { Some(a) => a, None => d.auth_status },
                key_exchange_status: match key_exchange { Some(x) => x, None => d.key_exchange_status },
            };
            devices.insert(owned(id), updated);
        },
        None => {},
    }
}

impl BLEManager {
    /// An empty registry with the relay's key pair, started at `now`.
    pub fn new(now: u64) -> (m: Self)
        ensures
            m.devices@ == Map::<Seq<char>, BLEDevice>::empty(),
            m.transactions@ == Map::<Seq<char>, BLETransaction>::empty(),
            m.authenticated_devices@ == Map::<Seq<char>, String>::empty(),
            m.blocked_devices@ == Map::<Seq<char>, BlockedDevice>::empty(),
            m.session_keys@ == Map::<Seq<char>, String>::empty(),
            m.connected_devices@ == Map::<Seq<char>, u64>::empty(),
            m.status.enabled && m.status.initialized && !m.status.is_advertising,
            m.status.connected_devices == 0 && m.status.authenticated_devices == 0 && m.status.blocked_devices == 0,
            m.status.last_scan_time is None && m.status.scan_duration_ms == 0,
            m.status.total_devices_discovered == 0 && m.status.active_connections == 0,
            m.status.failed_connections == 0 && m.status.last_error is None,
            m.status.key_exchange_completed == 0 && m.status.key_exchange_failed == 0,
            m.start_time == now,
            is_key_pair(m.relay_private_key@, m.relay_public_key@),
    {
        let (relay_private_key, relay_public_key) = Self::generate_key_pair();
        BLEManager {
            devices: StrMap::new(),
            transactions: StrMap::new(),
            status: BLEStatus {
                enabled: true,
                initialized: true,
                is_advertising: false,
                connected_devices: 0,
                authenticated_devices: 0,
                blocked_devices: 0,
                last_scan_time: None,
                scan_duration_ms: 0,
                total_devices_discovered: 0,
                active_connections: 0,
                failed_connections: 0,
                last_error: None,
                key_exchange_completed: 0,
                key_exchange_failed: 0,
            },
            start_time: now,
            connected_devices: StrMap::new(),
            authenticated_devices: StrMap::new(),
            auth_challenges: StrMap::new(),
            blocked_devices: StrMap::new(),
            key_exchange_state: StrMap::new(),
            session_keys: StrMap::new(),
            connection_timestamps: StrMap::new(),
            tx_timestamps: StrMap::new(),
            encryption_keys: StrMap::new(),
            relay_private_key,
            relay_public_key,
        }
    }

    /// A fresh key pair (see `is_key_pair`).
    pub fn generate_key_pair() -> (r: (String, String))
        ensures
            is_key_pair(r.0@, r.1@),
            r.0@.len() == 64,
    {
        let private_key = random_bytes(32);
        let public_key = sha256_digest(&private_key);
        let p = hex_encode(&private_key);
        let q = hex_encode(&public_key);
        proof { crate::digest::lemma_hex_len(private_key@); }
        (p, q)
    }

    /// Records the result of a scan at `now` (milliseconds) that took
    /// `scan_duration_ms`: the peripherals advertising `AirChainPay` become
    /// disconnected devices awaiting authentication, and are returned.
    pub fn record_scan(&mut self, peripherals: Vec<ScannedPeripheral>, now: u64, scan_duration_ms: u64) -> (found: Vec<BLEDevice>)
        requires
            old(self).status.total_devices_discovered + peripherals@.len() <= u32::MAX,
        ensures
            found@.len() == relay_peripherals(peripherals@).len(),
            forall|i: int| 0 <= i < found@.len() ==>
                scanned_device(#[trigger] found@[i], relay_peripherals(peripherals@)[i], now / 1000),
            final(self).status.last_scan_time == Some(now),
            final(self).status.scan_duration_ms == scan_duration_ms,
            final(self).status.total_devices_discovered == old(self).status.total_devices_discovered + found@.len(),
            forall|i: int| 0 <= i < found@.len() ==> final(self).devices@.dom().contains(#[trigger] found@[i].id@),
            final(self).devices@.dom() == old(self).devices@.dom().union(
                relay_peripherals(peripherals@).map_values(|p: ScannedPeripheral| p.id@).to_set()),
            forall|k: Seq<char>| #[trigger] final(self).devices@.dom().contains(k) ==>
                match last_with_id(relay_peripherals(peripherals@), k) {
                    Some(p) => scanned_device(final(self).devices@[k], p, now / 1000),
                    None => final(self).devices@[k] == old(self).devices@[k],
                },
    {
        let now_secs = now / 1000;
        let mut found: Vec<BLEDevice> = Vec::new();
        let mut i: usize = 0;
        let ghost start_dom = self.devices@.dom();
        while i < peripherals.len()
            invariant
                i <= peripherals.len(),
                now_secs == now / 1000,
                found@.len() == relay_peripherals(peripherals@.subrange(0, i as int)).len(),
                found@.len() <= i,
                forall|j: int| 0 <= j < found@.len() ==>
                    scanned_device(#[trigger] found@[j], relay_peripherals(peripherals@.subrange(0, i as int))[j], now_secs),
                self.devices@.dom() == start_dom.union(
                    relay_peripherals(peripherals@.subrange(0, i as int)).map_values(|p: ScannedPeripheral| p.id@).to_set()),
                forall|j: int| 0 <= j < found@.len() ==> self.devices@.dom().contains(#[trigger] found@[j].id@),
                forall|k: Seq<char>| #[trigger] self.devices@.dom().contains(k) ==>
                    match last_with_id(relay_peripherals(peripherals@.subrange(0, i as int)), k) {
                        Some(q) => scanned_device(self.devices@[k], q, now_secs),
                        None => self.devices@[k] == old(self).devices@[k],
                    },
                start_dom == old(self).devices@.dom(),
                self.status == old(self).status,
            decreases peripherals.len() - i,
        {
            let p = &peripherals[i];
            let ghost pre = peripherals@.subrange(0, i as int);
            let ghost next = peripherals@.subrange(0, i + 1);
            assert(next.drop_last() =~= pre);
            let keep = match &p.local_name {
                Some(n) => contains(n.as_str(), "AirChainPay"),
                None => false,
            };
            if keep {
                let name = match &p.local_name { Some(n) => n.clone(), None => String::new() };
                let device = BLEDevice {
                    id: p.id.clone(),
                    name: Some(name),
                    address: p.id.clone(),
                    rssi: p.rssi,
                    is_connected: false,
                    last_seen: now_secs,
                    status: DeviceStatus::Disconnected,
                    auth_status: AuthStatus::Pending,
                    key_exchange_status: KeyExchangeStatus::Pending,
                };
                let copy = BLEDevice {
                    id: p.id.clone(),
                    name: match &p.local_name { Some(n) => Some(n.clone()), None => None },
                    address: p.id.clone(),
                    rssi: p.rssi,
                    is_connected: false,
                    last_seen: now_secs,
                    status: DeviceStatus::Disconnected,
                    auth_status: AuthStatus::Pending,
                    key_exchange_status: KeyExchangeStatus::Pending,
                };
                let ghost before = self.devices@;
                let ghost copy_v = copy;
                self.devices.insert(p.id.clone(), copy);
                found.push(device);
                proof {
                    let rp = relay_peripherals(pre);
                    assert(relay_peripherals(next) == rp.push(peripherals@[i as int]));
                    assert(rp.push(peripherals@[i as int]).drop_last() =~= rp);
                    assert(scanned_device(copy_v, peripherals@[i as int], now_secs));
                    assert forall|k: Seq<char>| #[trigger] self.devices@.dom().contains(k) implies
                        match last_with_id(relay_peripherals(next), k) {
                            Some(q) => scanned_device(self.devices@[k], q, now_secs),
                            None => self.devices@[k] == old(self).devices@[k],
                        } by {
                        if k != p.id@ {
                            assert(before.dom().contains(k));
                            assert(last_with_id(relay_peripherals(next), k) == last_with_id(rp, k));
                        }
                    }
                    assert(rp.push(peripherals@[i as int]).map_values(|q: ScannedPeripheral| q.id@)
                        =~= rp.map_values(|q: ScannedPeripheral| q.id@).push(p.id@));
                    rp.map_values(|q: ScannedPeripheral| q.id@).lemma_push_to_set_commute(p.id@);
                    assert(self.devices@.dom() =~= start_dom.union(
                        relay_peripherals(next).map_values(|q: ScannedPeripheral| q.id@).to_set()));
                }
            } else {
                assert(relay_peripherals(next) == relay_peripherals(pre));
            }
            i = i + 1;
        }
        assert(peripherals@.subrange(0, peripherals@.len() as int) =~= peripherals@);
        self.status.last_scan_time = Some(now);
        self.status.scan_duration_ms = scan_duration_ms;
        assert(found@.len() <= peripherals@.len());
        let count: u32 = found.len() as u32;
        self.status.total_devices_discovered = self.status.total_devices_discovered + count;
        found
    }

    /// Whether the device is blocked at `now`: it has a block that lasts past `now`.
    pub fn is_device_blocked(&self, device_id: &str, now: u64) -> (r: bool)
        ensures
            r == (self.blocked_devices@.dom().contains(device_id@) && self.blocked_devices@[device_id@].blocked_until > now),
    {
        match self.blocked_devices.get(device_id) {
            Some(b) => b.blocked_until > now,
            None => false,
        }
    }

    /// Whether the device has authenticated.
    pub fn is_device_authenticated(&self, device_id: &str) -> (r: bool)
        ensures
            r == self.authenticated_devices@.dom().contains(device_id@),
    {
        self.authenticated_devices.contains_key(device_id)
    }

    /// Checks and records a connection attempt against the device's limit
    /// (5 a minute); a device's tracker is made on its first attempt.
    pub fn check_connection_rate_limit(&mut self, device_id: &str, now: u64) -> (admitted: bool)
        ensures
            ({
                let m = old(self).connection_timestamps@;
                let step = tracker_step(tracker_events(m, device_id@), tracker_limit(m, device_id@, MAX_CONNECTS_PER_MINUTE),
                    tracker_window(m, device_id@), now);
                &&& admitted == step.1
                &&& final(self).connection_timestamps@.dom() == m.dom().insert(device_id@)
                &&& final(self).connection_timestamps@[device_id@].timestamps@ == step.0
            }),
            final(self).tx_timestamps == old(self).tx_timestamps,
            final(self).devices == old(self).devices,
            final(self).blocked_devices == old(self).blocked_devices,
            final(self).authenticated_devices == old(self).authenticated_devices,
            final(self).status == old(self).status,
    {
        let mut tracker = match self.connection_timestamps.remove(device_id) {
            Some(t) => t,
            None => RateLimitTracker::new(MAX_CONNECTS_PER_MINUTE, RATE_WINDOW_MS),
        };
        let admitted = tracker.check_and_record(now);
        self.connection_timestamps.insert(owned(device_id), tracker);
        admitted
    }

    /// Checks and records a transaction against the device's limit (10 a minute).
    pub fn check_transaction_rate_limit(&mut self, device_id: &str, now: u64) -> (admitted: bool)
        ensures
            ({
                let m = old(self).tx_timestamps@;
                let step = tracker_step(tracker_events(m, device_id@), tracker_limit(m, device_id@, MAX_TX_PER_MINUTE),
                    tracker_window(m, device_id@), now);
                &&& admitted == step.1
                &&& final(self).tx_timestamps@.dom() == m.dom().insert(device_id@)
                &&& final(self).tx_timestamps@[device_id@].timestamps@ == step.0
            }),
            final(self).connection_timestamps == old(self).connection_timestamps,
            final(self).devices == old(self).devices,
            final(self).blocked_devices == old(self).blocked_devices,
            final(self).authenticated_devices == old(self).authenticated_devices,
            final(self).session_keys == old(self).session_keys,
            final(self).transactions == old(self).transactions,
            final(self).status == old(self).status,
    {
        let mut tracker = match self.tx_timestamps.remove(device_id) {
            Some(t) => t,
            None => RateLimitTracker::new(MAX_TX_PER_MINUTE, RATE_WINDOW_MS),
        };
        let admitted = tracker.check_and_record(now);
        self.tx_timestamps.insert(owned(device_id), tracker);
        admitted
    }

    /// The checks before connecting to a device at `now`: the connection
    /// rate limit (checked and recorded first), then the block.
    pub fn prepare_connect(&mut self, device_id: &str, now: u64) -> (r: Result<(), String>)
        ensures
            final(self).connection_timestamps@.dom() == old(self).connection_timestamps@.dom().insert(device_id@),
            final(self).blocked_devices == old(self).blocked_devices,
            final(self).devices == old(self).devices,
            final(self).status == old(self).status,
            ({
                let m = old(self).connection_timestamps@;
                let step = tracker_step(tracker_events(m, device_id@), tracker_limit(m, device_id@, MAX_CONNECTS_PER_MINUTE),
                    tracker_window(m, device_id@), now);
                let blocked = old(self).blocked_devices@.dom().contains(device_id@)
                    && old(self).blocked_devices@[device_id@].blocked_until > now;
                &&& final(self).connection_timestamps@[device_id@].timestamps@ == step.0
                &&& !step.1 ==> r is Err && r->Err_0@ == "Connection rate limit exceeded for device"@
                &&& step.1 && blocked ==> r is Err && r->Err_0@ == "Device is blocked"@
                &&& step.1 && !blocked ==> r is Ok
            }),
    {
        if !self.check_connection_rate_limit(device_id, now) {
            return Err(owned("Connection rate limit exceeded for device"));
        }
        if self.is_device_blocked(device_id, now) {
            return Err(owned("Device is blocked"));
        }
        Ok(())
    }

    /// Records the outcome of a connection attempt at `now`: a connected
    /// device is marked connected and counted; a failure is counted and
    /// reported.
    pub fn finish_connect(&mut self, device_id: &str, connected: bool, now: u64) -> (r: Result<(), String>)
        requires
            connected ==> old(self).status.connected_devices < u32::MAX && old(self).status.active_connections < u32::MAX,
            !connected ==> old(self).status.failed_connections < u32::MAX,
        ensures
            connected ==> r is Ok
                && final(self).status.connected_devices == old(self).status.connected_devices + 1
                && final(self).status.active_connections == old(self).status.active_connections + 1
                && final(self).devices@.dom() == old(self).devices@.dom()
                && (old(self).devices@.dom().contains(device_id@) ==> {
                    let d = final(self).devices@[device_id@];
                    d.is_connected && d.status == DeviceStatus::Connected && d.last_seen == now / 1000
                }),
            !connected ==> r is Err && r->Err_0@ == "Failed to establish connection"@
                && final(self).status.failed_connections == old(self).status.failed_connections + 1
                && final(self).devices == old(self).devices,
    {
        if connected {
            match self.devices.get(device_id) {
                Some(d) => {
                    let updated = BLEDevice {
                        id: d.id.clone(),
                        name: match &d.name { Some(n) => Some(n.clone()), None => None },
                        address: d.address.clone(),
                        rssi: d.rssi,
                        is_connected: true,
                        last_seen: now / 1000,
                        status: DeviceStatus::Connected,
                        auth_status: d.auth_status,
                        key_exchange_status: d.key_exchange_status,
                    };
                    self.devices.insert(owned(device_id), updated);
                },
                None => {},
            }
            self.status.connected_devices = self.status.connected_devices + 1;
            self.status.active_connections = self.status.active_connections + 1;
            Ok(())
        } else {
            self.status.failed_connections = self.status.failed_connections + 1;
            Err(owned("Failed to establish connection"))
        }
    }

    /// Drops a live connection: the device becomes disconnected and the
    /// active count goes down (not below zero). Nothing happens for a
    /// device without a live connection.
    pub fn disconnect_device(&mut self, device_id: &str)
        ensures
            final(self).connected_devices@ == old(self).connected_devices@.remove(device_id@),
            old(self).connected_devices@.dom().contains(device_id@) ==> {
                &&& final(self).status.active_connections == if old(self).status.active_connections > 0 {
                        (old(self).status.active_connections - 1) as u32
                    } else {
                        0
                    }
                &&& (old(self).devices@.dom().contains(device_id@) ==>
                        !final(self).devices@[device_id@].is_connected
                        && final(self).devices@[device_id@].status == DeviceStatus::Disconnected)
            },
            !old(self).connected_devices@.dom().contains(device_id@) ==> final(self).status == old(self).status
                && final(self).devices == old(self).devices,
    {
        if self.connected_devices.remove(device_id).is_some() {
            match self.devices.get(device_id) {
                Some(d) => {
                    let updated = BLEDevice {
                        id: d.id.clone(),
                        name: match &d.name { Some(n) => Some(n.clone()), None => None },
                        address: d.address.clone(),
                        rssi: d.rssi,
                        is_connected: false,
                        last_seen: d.last_seen,
                        status: DeviceStatus::Disconnected,
                        auth_status: d.auth_status,
                        key_exchange_status: d.key_exchange_status,
                    };
                    self.devices.insert(owned(device_id), updated);
                },
                None => {},
            }
            if self.status.active_connections > 0 {
                self.status.active_connections = self.status.active_connections - 1;
            }
        }
    }

    /// Accepts a transaction from a device at `now` under the identifier
    /// `transaction_id`: the transaction limit is checked and recorded
    /// first, then the device must have authenticated. The data is stored
    /// as given, marked encrypted and pending.
    pub fn send_transaction_with(&mut self, device_id: &str, transaction_data: &str, now: u64, transaction_id: String) -> (r: Result<String, String>)
        ensures
            final(self).tx_timestamps@.dom() == old(self).tx_timestamps@.dom().insert(device_id@),
            final(self).authenticated_devices == old(self).authenticated_devices,
            tx_admitted(old(self).tx_timestamps@, device_id@, now)
                && old(self).authenticated_devices@.dom().contains(device_id@) <==> r is Ok,
            !tx_admitted(old(self).tx_timestamps@, device_id@, now) ==> r is Err
                && r->Err_0@ == "Transaction rate limit exceeded"@,
            tx_admitted(old(self).tx_timestamps@, device_id@, now) && !old(self).authenticated_devices@.dom().contains(device_id@)
                ==> r is Err && r->Err_0@ == "Device not authenticated"@,
            match r {
                Ok(id) => id == transaction_id
                    && final(self).transactions@ == old(self).transactions@.insert(transaction_id@, BLETransaction {
                        id: final(self).transactions@[transaction_id@].id,
                        device_id: final(self).transactions@[transaction_id@].device_id,
                        transaction_data: final(self).transactions@[transaction_id@].transaction_data,
                        status: TransactionStatus::Pending,
                        timestamp: now / 1000,
                        signature: None,
                        encrypted: true,
                    })
                    && final(self).transactions@[transaction_id@].id@ == transaction_id@
                    && final(self).transactions@[transaction_id@].device_id@ == device_id@
                    && final(self).transactions@[transaction_id@].transaction_data@ == transaction_data@,
                Err(e) => final(self).transactions == old(self).transactions && (e@ == "Transaction rate limit exceeded"@
                    || (e@ == "Device not authenticated"@ && !old(self).authenticated_devices@.dom().contains(device_id@))),
            },
    {
        if !self.check_transaction_rate_limit(device_id, now) {
            return Err(owned("Transaction rate limit exceeded"));
        }
        if !self.is_device_authenticated(device_id) {
            return Err(owned("Device not authenticated"));
        }
        let transaction = BLETransaction {
            id: transaction_id.clone(),
            device_id: owned(device_id),
            transaction_data: owned(transaction_data),
            status: TransactionStatus::Pending,
            timestamp: now / 1000,
            signature: None,
            encrypted: true,
        };
        self.transactions.insert(transaction_id.clone(), transaction);
        Ok(transaction_id)
    }

    /// Accepts a transaction from a device at `now` under a fresh identifier
    /// (see `send_transaction_with`).
    pub fn send_transaction(&mut self, device_id: &str, transaction_data: &str, now: u64) -> (r: Result<String, String>)
        ensures
            tx_admitted(old(self).tx_timestamps@, device_id@, now)
                && old(self).authenticated_devices@.dom().contains(device_id@) <==> r is Ok,
            !tx_admitted(old(self).tx_timestamps@, device_id@, now) ==> r is Err
                && r->Err_0@ == "Transaction rate limit exceeded"@,
            tx_admitted(old(self).tx_timestamps@, device_id@, now) && !old(self).authenticated_devices@.dom().contains(device_id@)
                ==> r is Err && r->Err_0@ == "Device not authenticated"@,
            match r {
                Ok(id) => final(self).transactions@.dom() == old(self).transactions@.dom().insert(id@)
                    && final(self).transactions@[id@].device_id@ == device_id@
                    && final(self).transactions@[id@].transaction_data@ == transaction_data@
                    && final(self).transactions@[id@].status == TransactionStatus::Pending,
                Err(e) => final(self).transactions == old(self).transactions && (e@ == "Transaction rate limit exceeded"@
                    || (e@ == "Device not authenticated"@ && !old(self).authenticated_devices@.dom().contains(device_id@))),
            },
    {
        let id = new_uuid();
        self.send_transaction_with(device_id, transaction_data, now, id)
    }

    /// The status of a received transaction.
    pub fn get_transaction_status(&self, transaction_id: &str) -> (r: Option<TransactionStatus>)
        ensures
            match r {
                Some(s) => self.transactions@.dom().contains(transaction_id@) && s == self.transactions@[transaction_id@].status,
                None => !self.transactions@.dom().contains(transaction_id@),
            },
    {
        match self.transactions.get(transaction_id) {
            Some(t) => Some(t.status),
            None => None,
        }
    }

    /// Authenticates a device at `now`, given the challenge issued to it and
    /// the outcome of the check: a blocked device is refused; otherwise the
    /// challenge is recorded with no attempts, the device's key is stored,
    /// and the outcome is counted (a failure blocks the device only once
    /// its challenge has seen three attempts).
    pub fn authenticate_device_with(&mut self, device_id: &str, public_key: &str, now: u64, challenge: String, success: bool) -> (r: Result<bool, String>)
        requires
            success ==> old(self).status.authenticated_devices < u32::MAX,
            !success ==> old(self).status.failed_connections < u32::MAX,
        ensures
            old(self).blocked_devices@.dom().contains(device_id@) && old(self).blocked_devices@[device_id@].blocked_until > now
                ==> r is Err && r->Err_0@ == "Device is blocked"@ && final(self).authenticated_devices == old(self).authenticated_devices,
            !(old(self).blocked_devices@.dom().contains(device_id@) && old(self).blocked_devices@[device_id@].blocked_until > now) ==> {
                &&& r == Ok::<bool, String>(success)
                &&& final(self).auth_challenges@.dom().contains(device_id@)
                &&& final(self).auth_challenges@[device_id@].challenge == challenge
                &&& final(self).auth_challenges@[device_id@].attempts == 0
                &&& final(self).authenticated_devices@.dom() == old(self).authenticated_devices@.dom().insert(device_id@)
                &&& final(self).authenticated_devices@[device_id@]@ == public_key@
                &&& (success ==> final(self).status.authenticated_devices == old(self).status.authenticated_devices + 1
                    && (old(self).devices@.dom().contains(device_id@) ==>
                        final(self).devices@[device_id@].auth_status == AuthStatus::Authenticated))
                &&& (!success ==> final(self).status.failed_connections == old(self).status.failed_connections + 1
                    && final(self).devices == old(self).devices && final(self).blocked_devices == old(self).blocked_devices)
            },
    {
        if self.is_device_blocked(device_id, now) {
            return Err(owned("Device is blocked"));
        }
        self.auth_challenges.insert(owned(device_id), AuthChallenge { challenge, created_at: now, attempts: 0 });
        self.authenticated_devices.insert(owned(device_id), owned(public_key));
        if success {
            set_device_state(&mut self.devices, device_id, None, Some(AuthStatus::Authenticated), None);
            self.status.authenticated_devices = self.status.authenticated_devices + 1;
        } else {
            self.status.failed_connections = self.status.failed_connections + 1;
            let should_block = match self.auth_challenges.get(device_id) {
                Some(c) => c.attempts >= MAX_AUTH_ATTEMPTS,
                None => false,
            };
            if should_block {
                if self.status.blocked_devices < u32::MAX {
                    self.block_device(device_id, "Too many failed authentication attempts", now);
                }
            }
        }
        Ok(success)
    }

    /// Authenticates a device at `now` with a fresh 32-byte challenge; the
    /// check succeeds four times in five, at random (see
    /// `authenticate_device_with`).
    pub fn authenticate_device(&mut self, device_id: &str, public_key: &str, now: u64) -> (r: Result<bool, String>)
        requires
            old(self).status.authenticated_devices < u32::MAX,
            old(self).status.failed_connections < u32::MAX,
        ensures
            old(self).blocked_devices@.dom().contains(device_id@) && old(self).blocked_devices@[device_id@].blocked_until > now
                ==> r is Err && r->Err_0@ == "Device is blocked"@,
            !(old(self).blocked_devices@.dom().contains(device_id@) && old(self).blocked_devices@[device_id@].blocked_until > now)
                ==> r is Ok && final(self).authenticated_devices@.dom() == old(self).authenticated_devices@.dom().insert(device_id@)
                    && final(self).authenticated_devices@[device_id@]@ == public_key@
                    && final(self).auth_challenges@[device_id@].challenge@.len() == 64,
    {
        let bytes = random_bytes(32);
        let challenge = hex_encode(&bytes);
        proof { crate::digest::lemma_hex_len(bytes@); }
        let success = random_below(5) < 4;
        self.authenticate_device_with(device_id, public_key, now, challenge, success)
    }

    /// Blocks a device for five minutes from `now`, with a reason.
    pub fn block_device(&mut self, device_id: &str, reason: &str, now: u64)
        requires
            old(self).status.blocked_devices < u32::MAX,
        ensures
            final(self).blocked_devices@.dom() == old(self).blocked_devices@.dom().insert(device_id@),
            final(self).blocked_devices@[device_id@].reason@ == reason@,
            final(self).blocked_devices@[device_id@].blocked_until == if now <= u64::MAX - AUTH_BLOCK_DURATION_MS {
                (now + AUTH_BLOCK_DURATION_MS) as u64 } else { u64::MAX },
            final(self).status.blocked_devices == old(self).status.blocked_devices + 1,
            final(self).devices@.dom() == old(self).devices@.dom(),
            old(self).devices@.dom().contains(device_id@) ==>
                final(self).devices@[device_id@].status == DeviceStatus::Blocked
                && final(self).devices@[device_id@].auth_status == AuthStatus::Blocked,
            final(self).authenticated_devices == old(self).authenticated_devices,
    {
        let until = if now <= u64::MAX - AUTH_BLOCK_DURATION_MS { now + AUTH_BLOCK_DURATION_MS } else { u64::MAX };
        self.blocked_devices.insert(owned(device_id), BlockedDevice { reason: owned(reason), blocked_until: until });
        set_device_state(&mut self.devices, device_id, Some(DeviceStatus::Blocked), Some(AuthStatus::Blocked), None);
        self.status.blocked_devices = self.status.blocked_devices + 1;
    }

    /// Lifts a device's block: it becomes disconnected and pending
    /// authentication, and the blocked count goes down (not below zero).
    pub fn unblock_device(&mut self, device_id: &str)
        ensures
            final(self).blocked_devices@ == old(self).blocked_devices@.remove(device_id@),
            final(self).status.blocked_devices == if old(self).status.blocked_devices > 0 {
                (old(self).status.blocked_devices - 1) as u32 } else { 0 },
            final(self).devices@.dom() == old(self).devices@.dom(),
            old(self).devices@.dom().contains(device_id@) ==>
                final(self).devices@[device_id@].status == DeviceStatus::Disconnected
                && final(self).devices@[device_id@].auth_status == AuthStatus::Pending,
    {
        let _ = self.blocked_devices.remove(device_id);
        set_device_state(&mut self.devices, device_id, Some(DeviceStatus::Disconnected), Some(AuthStatus::Pending), None);
        if self.status.blocked_devices > 0 {
            self.status.blocked_devices = self.status.blocked_devices - 1;
        }
    }

    /// Starts a key exchange with an authenticated device at `now`, with a
    /// fresh exchange key pair.
    pub fn initiate_key_exchange(&mut self, device_id: &str, now: u64) -> (r: Result<bool, String>)
        ensures
            !old(self).authenticated_devices@.dom().contains(device_id@) ==> r is Err
                && r->Err_0@ == "Device not authenticated"@ && final(self).key_exchange_state == old(self).key_exchange_state,
            old(self).authenticated_devices@.dom().contains(device_id@) ==> r == Ok::<bool, String>(true)
                && final(self).key_exchange_state@.dom() == old(self).key_exchange_state@.dom().insert(device_id@)
                && final(self).key_exchange_state@[device_id@].status == KeyExchangeStatus::Pending
                && final(self).key_exchange_state@[device_id@].session_key is None
                && final(self).key_exchange_state@[device_id@].timestamp == now
                && final(self).key_exchange_state@[device_id@].attempts == 0
                && exists|p: Seq<char>| is_key_pair(p, final(self).key_exchange_state@[device_id@].dh_public_key@),
    {
        if !self.is_device_authenticated(device_id) {
            return Err(owned("Device not authenticated"));
        }
        let (private_key, public_key) = Self::generate_key_pair();
        assert(is_key_pair(private_key@, public_key@));
        self.key_exchange_state.insert(owned(device_id), KeyExchangeState {
            status: KeyExchangeStatus::Pending,
            dh_public_key: public_key,
            session_key: None,
            timestamp: now,
            attempts: 0,
        });
        assert(is_key_pair(private_key@, self.key_exchange_state@[device_id@].dh_public_key@));
        Ok(true)
    }

    /// The session key for an exchange (see `session_key_of`).
    pub fn derive_session_key(&self, our_public_key: &str, device_public_key: &str, device_id: &str) -> (k: String)
        ensures
            k@ == session_key_of(our_public_key@, device_public_key@, device_id@, self.relay_private_key@),
    {
        let mut data: Vec<u8> = Vec::new();
        push_text_bytes(&mut data, our_public_key);
        push_text_bytes(&mut data, device_public_key);
        push_text_bytes(&mut data, device_id);
        push_text_bytes(&mut data, self.relay_private_key.as_str());
        hex_encode(&sha256_digest(&data))
    }

    /// Completes a key exchange with the device's key: the session key is
    /// derived and stored, the exchange and the device are marked completed.
    pub fn complete_key_exchange(&mut self, device_id: &str, device_public_key: &str) -> (r: Result<bool, String>)
        requires
            old(self).status.key_exchange_completed < u32::MAX,
        ensures
            !old(self).key_exchange_state@.dom().contains(device_id@) ==> r is Err
                && r->Err_0@ == "No key exchange in progress"@ && final(self).session_keys == old(self).session_keys,
            old(self).key_exchange_state@.dom().contains(device_id@) ==> {
                let key = session_key_of(old(self).key_exchange_state@[device_id@].dh_public_key@, device_public_key@,
                    device_id@, old(self).relay_private_key@);
                &&& r == Ok::<bool, String>(true)
                &&& final(self).session_keys@.dom() == old(self).session_keys@.dom().insert(device_id@)
                &&& final(self).session_keys@[device_id@]@ == key
                &&& final(self).key_exchange_state@[device_id@].status == KeyExchangeStatus::Completed
                &&& final(self).key_exchange_state@[device_id@].session_key is Some
                &&& final(self).key_exchange_state@[device_id@].session_key->0@ == key
                &&& final(self).status.key_exchange_completed == old(self).status.key_exchange_completed + 1
                &&& (old(self).devices@.dom().contains(device_id@) ==>
                    final(self).devices@[device_id@].key_exchange_status == KeyExchangeStatus::Completed)
            },
    {
        let state = match self.key_exchange_state.remove(device_id) {
            Some(s) => s,
            None => return Err(owned("No key exchange in progress")),
        };
        let session_key = self.derive_session_key(state.dh_public_key.as_str(), device_public_key, device_id);
        self.session_keys.insert(owned(device_id), session_key.clone());
        self.key_exchange_state.insert(owned(device_id), KeyExchangeState {
            status: KeyExchangeStatus::Completed,
            dh_public_key: state.dh_public_key,
            session_key: Some(session_key),
            timestamp: state.timestamp,
            attempts: state.attempts,
        });
        set_device_state(&mut self.devices, device_id, None, None, Some(KeyExchangeStatus::Completed));
        self.status.key_exchange_completed = self.status.key_exchange_completed + 1;
        Ok(true)
    }

    /// Replaces a device's session key with one derived from a fresh exchange key.
    pub fn rotate_session_key(&mut self, device_id: &str) -> (r: bool)
        ensures
            r,
            final(self).session_keys@.dom() == old(self).session_keys@.dom().insert(device_id@),
            exists|p: Seq<char>, q: Seq<char>| is_key_pair(p, q) && final(self).session_keys@[device_id@]@
                == session_key_of(q, "device_key"@, device_id@, old(self).relay_private_key@),
    {
        let (p, q) = Self::generate_key_pair();
        let key = self.derive_session_key(q.as_str(), "device_key", device_id);
        self.session_keys.insert(owned(device_id), key);
        true
    }

    /// The key exchange status of a device.
    pub fn get_key_exchange_status(&self, device_id: &str) -> (r: Option<KeyExchangeStatus>)
        ensures
            match r {
                Some(s) => self.key_exchange_state@.dom().contains(device_id@) && s == self.key_exchange_state@[device_id@].status,
                None => !self.key_exchange_state@.dom().contains(device_id@),
            },
    {
        match self.key_exchange_state.get(device_id) {
            Some(s) => Some(s.status),
            None => None,
        }
    }

    /// Whether the relay has as many live connections as it accepts.
    pub fn is_connection_cap_reached(&self) -> (r: bool)
        ensures
            r == (self.connected_devices.pairs().len() >= MAX_CONNECTIONS),
    {
        self.connected_devices.len() >= MAX_CONNECTIONS
    }

    /// The counters as they stand (the caller adds the uptime and the rates).
    pub fn get_status(&self) -> (r: BLEStatus)
        ensures
            r == (BLEStatus { last_error: r.last_error, ..self.status }),
            match (r.last_error, self.status.last_error) {
                (Some(a), Some(b)) => a@ == b@,
                (None, None) => true,
                _ => false,
            },
    {
        let st = &self.status;
        BLEStatus {
            enabled: st.enabled,
            initialized: st.initialized,
            is_advertising: st.is_advertising,
            connected_devices: st.connected_devices,
            authenticated_devices: st.authenticated_devices,
            blocked_devices: st.blocked_devices,
            last_scan_time: st.last_scan_time,
            scan_duration_ms: st.scan_duration_ms,
            total_devices_discovered: st.total_devices_discovered,
            active_connections: st.active_connections,
            failed_connections: st.failed_connections,
            last_error: match &st.last_error {
                Some(e) => Some(owned(e.as_str())),
                None => None,
            },
            key_exchange_completed: st.key_exchange_completed,
            key_exchange_failed: st.key_exchange_failed,
        }
    }

    /// Records the latest error.
    pub fn record_error(&mut self, error: String)
        ensures
            final(self).status.last_error == Some(error),
            final(self).devices == old(self).devices,
    {
        self.status.last_error = Some(error);
    }

    /// The identifiers of the devices that satisfy `pick`, in registry order.
    fn device_ids_where(&self, which: DeviceFilter) -> (r: Vec<String>)
        ensures
            texts_of(r@) == filter_ids(self.devices.pairs(), which, self.authenticated_devices@, self.blocked_devices@),
    {
        let n = self.devices.len();
        let mut r: Vec<String> = Vec::new();
        let mut i: usize = 0;
        while i < n
            invariant
                n == self.devices.pairs().len(),
                i <= n,
                texts_of(r@) == filter_ids(self.devices.pairs().subrange(0, i as int), which, self.authenticated_devices@, self.blocked_devices@),
            decreases n - i,
        {
            let (_, d) = self.devices.entry_at(i);
            let ghost pre = self.devices.pairs().subrange(0, i as int);
            let ghost next = self.devices.pairs().subrange(0, i + 1);
            assert(next.drop_last() =~= pre);
            let pick = match which {
                DeviceFilter::Connected => d.is_connected,
                DeviceFilter::Authenticated => self.authenticated_devices.contains_key(d.id.as_str()),
                DeviceFilter::Blocked => self.blocked_devices.contains_key(d.id.as_str()),
            };
            if pick {
                let ghost before = r@;
                r.push(d.id.clone());
                assert(texts_of(r@) =~= texts_of(before).push(d.id@));
            }
            i = i + 1;
        }
        assert(self.devices.pairs().subrange(0, n as int) =~= self.devices.pairs());
        r
    }

    /// The identifiers of the connected devices, in registry order.
    pub fn get_connected_devices(&self) -> (r: Vec<String>)
        ensures
            texts_of(r@) == filter_ids(self.devices.pairs(), DeviceFilter::Connected, self.authenticated_devices@, self.blocked_devices@),
    {
        self.device_ids_where(DeviceFilter::Connected)
    }

    /// The identifiers of the known devices that have authenticated, in registry order.
    pub fn get_authenticated_devices(&self) -> (r: Vec<String>)
        ensures
            texts_of(r@) == filter_ids(self.devices.pairs(), DeviceFilter::Authenticated, self.authenticated_devices@, self.blocked_devices@),
    {
        self.device_ids_where(DeviceFilter::Authenticated)
    }

    /// The identifiers of the known devices that have a block on record, in registry order.
    pub fn get_blocked_devices(&self) -> (r: Vec<String>)
        ensures
            texts_of(r@) == filter_ids(self.devices.pairs(), DeviceFilter::Blocked, self.authenticated_devices@, self.blocked_devices@),
    {
        self.device_ids_where(DeviceFilter::Blocked)
    }
}

/// Which devices a listing keeps.
#[derive(Debug, Clone, Copy, PartialEq, Eq, Structural)]
pub enum DeviceFilter {
    Connected,
    Authenticated,
    Blocked,
}

/// The views of a list of strings.
pub open spec fn texts_of(v: Seq<String>) -> Seq<Seq<char>> {
    v.map_values(|s: String| s@)
}

/// The identifiers of the registry entries that a listing keeps, in order.
pub open spec fn filter_ids(
    p: Seq<(Seq<char>, BLEDevice)>,
    which: DeviceFilter,
    authenticated: Map<Seq<char>, String>,
    blocked: Map<Seq<char>, BlockedDevice>,
) -> Seq<Seq<char>>
    decreases p.len(),
{
    if p.len() == 0 {
        Seq::empty()
    } else {
        let rest = filter_ids(p.drop_last(), which, authenticated, blocked);
        let d = p.last().1;
        let keep = match which {
            DeviceFilter::Connected => d.is_connected,
            DeviceFilter::Authenticated => authenticated.dom().contains(d.id@),
            DeviceFilter::Blocked => blocked.dom().contains(d.id@),
        };
        if keep { rest.push(d.id@) } else { rest }
    }
}

/// The transaction limit admits a transaction from the device at `now`
/// (10 a minute; see `tracker_step`).
pub open spec fn tx_admitted(m: Map<Seq<char>, RateLimitTracker>, device_id: Seq<char>, now: u64) -> bool {
    tracker_step(tracker_events(m, device_id), tracker_limit(m, device_id, MAX_TX_PER_MINUTE),
        tracker_window(m, device_id), now).1
}

/// The device counts as blocked at `now`: it has a block that lasts past `now`.
pub open spec fn blocked_at(blocked: Map<Seq<char>, BlockedDevice>, device_id: Seq<char>, now: u64) -> bool {
    blocked.dom().contains(device_id) && blocked[device_id].blocked_until > now
}

/// A device blocked at `t` (its block lasting five minutes) counts as
/// blocked at every time from `t` until the block ends; once it is
/// unblocked it counts as blocked at no time.
pub proof fn law_block_window(blocked: Map<Seq<char>, BlockedDevice>, device_id: Seq<char>, b: BlockedDevice, t: u64, s: u64)
    requires
        t <= u64::MAX - AUTH_BLOCK_DURATION_MS,
        b.blocked_until == t + AUTH_BLOCK_DURATION_MS,
    ensures
        t <= s < t + AUTH_BLOCK_DURATION_MS ==> blocked_at(blocked.insert(device_id, b), device_id, s),
        s >= t + AUTH_BLOCK_DURATION_MS ==> !blocked_at(blocked.insert(device_id, b), device_id, s),
        !blocked_at(blocked.insert(device_id, b).remove(device_id), device_id, s),
{
}

} // verus!
