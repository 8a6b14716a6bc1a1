//! The chain side of the relay, without the network: which chains it
//! serves, and the rule for waiting on a transaction receipt (one query
//! every five seconds, at most sixty queries).
use vstd::prelude::*;
use crate::config::{ChainConfig, Config};
use crate::text::{concat2, owned, u64_to_string, decimal};

verus! {

broadcast use vstd::std_specs::hash::group_hash_axioms;

/// How many times a receipt is asked for before giving up.
pub const MAX_RECEIPT_ATTEMPTS: u32 = 60;

/// Seconds between two receipt queries.
pub const RECEIPT_POLL_INTERVAL_SECS: u64 = 5;

/// What to do after a receipt query.
#[derive(Debug, Clone, Copy, PartialEq, Eq, Structural)]
pub enum ReceiptAction {
    /// The receipt came back: return it.
    Done,
    /// Wait, then ask again; the count of queries made so far.
    WaitThenPoll(u32),
    /// Wait, then give up.
    WaitThenGiveUp,
}

/// The action after the query numbered `attempts + 1`, given whether it
/// found the receipt.
pub open spec fn receipt_action(attempts: u32, found: bool) -> ReceiptAction {
    if found {
        ReceiptAction::Done
    } else if attempts + 1 < MAX_RECEIPT_ATTEMPTS {
        ReceiptAction::WaitThenPoll((attempts + 1) as u32)
    } else {
        ReceiptAction::WaitThenGiveUp
    }
}

/// The action after a receipt query (see `receipt_action`).
pub fn next_receipt_action(attempts: u32, found: bool) -> (a: ReceiptAction)
    requires
        attempts < MAX_RECEIPT_ATTEMPTS,
    ensures
        a == receipt_action(attempts, found),
{
    if found {
        ReceiptAction::Done
    } else if attempts + 1 < MAX_RECEIPT_ATTEMPTS {
        ReceiptAction::WaitThenPoll(attempts + 1)
    } else {
        ReceiptAction::WaitThenGiveUp
    }
}

/// The error when no receipt came back.
pub fn receipt_timeout_message() -> (s: String)
    ensures
        s@ == "Transaction receipt not found after "@ + decimal(MAX_RECEIPT_ATTEMPTS as nat) + " attempts"@,
{
    let head = concat2("Transaction receipt not found after ", u64_to_string(MAX_RECEIPT_ATTEMPTS as u64).as_str());
    concat2(head.as_str(), " attempts")
}

/// The wait for a receipt never asks more than sixty times: every count it
/// carries forward stays below the limit.
pub proof fn lemma_receipt_attempts_bounded(attempts: u32, found: bool)
    requires
        attempts < MAX_RECEIPT_ATTEMPTS,
    ensures
        receipt_action(attempts, found) matches ReceiptAction::WaitThenPoll(n) ==> n == attempts + 1 && n < MAX_RECEIPT_ATTEMPTS,
        attempts + 1 == MAX_RECEIPT_ATTEMPTS && !found ==> receipt_action(attempts, found) == ReceiptAction::WaitThenGiveUp,
{
}

/// The chains the relay serves.
pub struct BlockchainManager {
    pub config: Config,
}

impl BlockchainManager {
    /// A manager for the configuration's chains.
    pub fn new(config: Config) -> (m: Self)
        ensures
            m.config == config,
    {
        BlockchainManager { config }
    }

    /// The chain with this identifier.
    pub fn get_chain_config(&self, chain_id: u64) -> (r: Option<&ChainConfig>)
        ensures
            match r {
                Some(c) => self.config.supported_chains@.dom().contains(chain_id) && *c == self.config.supported_chains@[chain_id],
                None => !self.config.supported_chains@.dom().contains(chain_id),
            },
    {
        self.config.get_chain_config(chain_id)
    }

    /// The error when a chain has no endpoint.
    pub fn missing_provider_message(chain_id: u64) -> (s: String)
        ensures
            s@ == "No provider found for chain ID: "@ + decimal(chain_id as nat),
    {
        concat2("No provider found for chain ID: ", u64_to_string(chain_id).as_str())
    }

    /// The network summary: always healthy, with the number of chains served.
    pub fn get_network_status(&self) -> (r: (String, usize))
        ensures
            r.0@ == "healthy"@,
            r.1 == self.config.supported_chains@.len(),
    {
        (owned("healthy"), self.config.supported_chains.len())
    }
}

} // verus!
