//! The decisions of the validator details server: the storage keys it reads, which
//! finalized blocks it publishes, and what update it sends a subscriber.
use crate::strings::{copy_str, decimal, push_decimal, push_str};
use vstd::prelude::*;

verus! {

/// What the server's bus carries to its subscriptions.
#[derive(Clone, Copy, Debug, Eq, PartialEq)]
pub enum BusEvent {
    NewFinalizedBlock(u64),
    Error,
}

/// The validator details server.
#[derive(Clone, Copy, Debug, Default)]
pub struct ValidatorDetailsServer;

/// The storage key of a validator's details at a finalized block:
/// `subvt:{chain}:validators:{block}:{active|inactive}:validator:{account}`.
pub open spec fn validator_key(chain: Seq<char>, block: u64, active: bool, account: Seq<char>) -> Seq<char> {
    "subvt:"@ + chain + ":validators:"@ + decimal(block as nat) + (if active {
        ":active:validator:"@
    } else {
        ":inactive:validator:"@
    }) + account
}

/// The channel on which the finalized block numbers are published.
pub open spec fn finalized_block_channel(chain: Seq<char>) -> Seq<char> {
    "subvt:"@ + chain + ":validators:publish:finalized_block_number"@
}

/// What a published finalized block number `n` brings when `last` is the last one seen:
/// nothing where they are equal, else the news of the block.
pub open spec fn finalized_block_event(last: u64, n: u64) -> Option<BusEvent> {
    if last == n {
        None
    } else {
        Some(BusEvent::NewFinalizedBlock(n))
    }
}

/// The last finalized block number seen after the numbers `ns` were published in turn,
/// starting from `last`: each one that brings news becomes the last one seen.
pub open spec fn last_seen_block(last: u64, ns: Seq<u64>) -> u64
    decreases ns.len(),
{
    if ns.len() == 0 {
        last
    } else {
        let l = last_seen_block(last, ns.drop_last());
        if finalized_block_event(l, ns.last()) is Some {
            ns.last()
        } else {
            l
        }
    }
}

/// The events that the bus carries, in order, when the numbers `ns` are published in turn,
/// starting from `last`.
pub open spec fn finalized_block_events(last: u64, ns: Seq<u64>) -> Seq<BusEvent>
    decreases ns.len(),
{
    if ns.len() == 0 {
        Seq::empty()
    } else {
        let before = finalized_block_events(last, ns.drop_last());
        match finalized_block_event(last_seen_block(last, ns.drop_last()), ns.last()) {
            Some(e) => before.push(e),
            None => before,
        }
    }
}

impl ValidatorDetailsServer {
    /// The storage key of a validator's details at a finalized block, among the active or
    /// the inactive validators.
    pub fn validator_storage_key(chain: &str, finalized_block_number: u64, active: bool, account: &str) -> (k: String)
        ensures
            k@ == validator_key(chain@, finalized_block_number, active, account@),
    {
        let mut k = copy_str("subvt:");
        push_str(&mut k, chain);
        push_str(&mut k, ":validators:");
        push_decimal(&mut k, finalized_block_number as u128);
        if active {
            push_str(&mut k, ":active:validator:");
        } else {
            push_str(&mut k, ":inactive:validator:");
        }
        push_str(&mut k, account);
        k
    }

    /// The key of the hash of the details stored under `prefix`.
    pub fn hash_key(prefix: &str) -> (k: String)
        ensures
            k@ == prefix@ + ":hash"@,
    {
        let mut k = copy_str(prefix);
        push_str(&mut k, ":hash");
        k
    }

    /// The channel on which the finalized block numbers of `chain` are published.
    pub fn finalized_block_channel(chain: &str) -> (k: String)
        ensures
            k@ == finalized_block_channel(chain@),
    {
        let mut k = copy_str("subvt:");
        push_str(&mut k, chain);
        push_str(&mut k, ":validators:publish:finalized_block_number");
        k
    }

    /// What to do with a published finalized block number: nothing where it is the last
    /// one seen, else tell the subscriptions.
    pub fn on_finalized_block(last_finalized_block_number: u64, finalized_block_number: u64) -> (r: Option<BusEvent>)
        ensures
            r == finalized_block_event(last_finalized_block_number, finalized_block_number),
    {
        if last_finalized_block_number == finalized_block_number {
            None
        } else {
            Some(BusEvent::NewFinalizedBlock(finalized_block_number))
        }
    }

    /// Whether a subscriber must be sent the changes of the stored details: whether their
    /// hash differs from that of the details it was last sent.
    pub fn needs_update(sent_hash: u64, stored_hash: u64) -> (b: bool)
        ensures
            b == (sent_hash != stored_hash),
    {
        sent_hash != stored_hash
    }
}

} // verus!
