//! Substrate-related types of the SubVT domain: accounts and identities, stakes,
//! nominations, eras and epochs, validator preferences.
use crate::codec::{
    codec_byte_vec, codec_bytes20, codec_bytes32, codec_string, codec_u32, codec_u64, codec_u8,
    compact_len, compact_spec, le_at, lemma_compact_len, read_compact_u32, rest, string_len,
    string_text,
};
use crate::crypto::{account_hex_bytes, hex_decode, sp_core_set_default_ss58_version, AccountId};
use crate::error::DecodeError;
use crate::strings::{copy_str, push_str, str_equals, trim_hex_prefix, trim_hex_prefix_spec};
use crate::text::{can_condense, condensed, get_condensed_address};
use vstd::prelude::*;
use vstd::relations::{sorted_by, total_ordering};
use vstd::seq_lib::lemma_sorted_unique;
use vstd::string::*;

verus! {

/// An amount of the native token, in its smallest unit.
pub type Balance = u128;

/// A block number.
pub type BlockNumber = u32;

/// A copy of an optional text.
pub fn clone_opt_string(o: &Option<String>) -> (r: Option<String>)
    ensures
        r == *o,
{
    match o {
        Some(s) => Some(s.clone()),
        None => None,
    }
}

/// The on-chain identity of an account, as far as SubVT shows it.
#[derive(Debug, Default, Eq, Hash, PartialEq)]
pub struct IdentityRegistration {
    pub display: Option<String>,
    pub email: Option<String>,
    pub riot: Option<String>,
    pub twitter: Option<String>,
    pub web: Option<String>,
    pub confirmed: bool,
}

impl Clone for IdentityRegistration {
    fn clone(&self) -> (r: Self)
        ensures
            r == *self,
    {
        IdentityRegistration {
            display: clone_opt_string(&self.display),
            email: clone_opt_string(&self.email),
            riot: clone_opt_string(&self.riot),
            twitter: clone_opt_string(&self.twitter),
            web: clone_opt_string(&self.web),
            confirmed: self.confirmed,
        }
    }
}

/// An account: its id, its address, its identity, and its parent account where it is a
/// sub-identity.
#[derive(Debug, Default, Eq, Hash, PartialEq)]
pub struct Account {
    pub id: AccountId,
    pub address: String,
    pub identity: Option<IdentityRegistration>,
    pub parent: Box<Option<Account>>,
    pub child_display: Option<String>,
    pub discovered_at: Option<u64>,
    pub killed_at: Option<u64>,
}

impl Clone for Account {
    fn clone(&self) -> (r: Self)
        ensures
            r == *self,
        decreases self,
    {
        let identity = match &self.identity {
            Some(i) => Some(i.clone()),
            None => None,
        };
        let parent = match &*self.parent {
            Some(p) => Some(p.clone()),
            None => None,
        };
        Account {
            id: self.id,
            address: self.address.clone(),
            identity,
            parent: Box::new(parent),
            child_display: clone_opt_string(&self.child_display),
            discovered_at: self.discovered_at,
            killed_at: self.killed_at,
        }
    }
}

/// Whether the account's identity, or that of an ancestor, is confirmed.
pub open spec fn account_confirmed(a: Account) -> bool
    decreases a,
{
    let own = match a.identity {
        Some(i) => i.confirmed,
        None => false,
    };
    let parent = match *a.parent {
        Some(p) => account_confirmed(p),
        None => false,
    };
    own || parent
}

/// The display name of the account's own identity.
pub open spec fn account_display(a: Account) -> Option<String> {
    match a.identity {
        Some(i) => i.display,
        None => None,
    }
}

/// The display name of the parent account's identity.
pub open spec fn account_parent_display(a: Account) -> Option<String> {
    match *a.parent {
        Some(p) => match p.identity {
            Some(i) => i.display,
            None => None,
        },
        None => None,
    }
}

/// The full display of an account: its own display name; for an account without an
/// identity, its parent's display name and its child display joined by ` / `.
pub open spec fn account_full_display(a: Account) -> Option<Seq<char>> {
    match a.identity {
        Some(i) => match i.display {
            Some(d) => Some(d@),
            None => None,
        },
        None => match *a.parent {
            Some(p) => match p.identity {
                Some(pi) => match pi.display {
                    Some(pd) => match a.child_display {
                        Some(c) => Some(pd@ + " / "@ + c@),
                        None => None,
                    },
                    None => None,
                },
                None => None,
            },
            None => None,
        },
    }
}

/// The text an account is shown as: for a sub-identity, its parent's text and its child
/// display joined by ` / `; else its identity's display name; else its address.
pub open spec fn account_text(a: Account) -> Seq<char>
    decreases a,
{
    match *a.parent {
        Some(p) => match a.child_display {
            Some(c) => account_text(p) + " / "@ + c@,
            None => a.address@,
        },
        None => match a.identity {
            Some(i) => match i.display {
                Some(d) => d@,
                None => a.address@,
            },
            None => a.address@,
        },
    }
}

impl Account {
    /// Whether the account's identity, or that of an ancestor, is confirmed.
    pub fn get_confirmed(&self) -> (b: bool)
        ensures
            b == account_confirmed(*self),
        decreases self,
    {
        let self_confirmed = match &self.identity {
            Some(identity) => identity.confirmed,
            None => false,
        };
        let parent_confirmed = match &*self.parent {
            Some(parent) => parent.get_confirmed(),
            None => false,
        };
        self_confirmed || parent_confirmed
    }

    /// The text the account is shown as.
    pub fn to_display_string(&self) -> (s: String)
        ensures
            s@ == account_text(*self),
        decreases self,
    {
        match &*self.parent {
            Some(parent) => match &self.child_display {
                Some(child) => {
                    let mut s = parent.to_display_string();
                    push_str(&mut s, " / ");
                    push_str(&mut s, child.as_str());
                    s
                },
                None => self.address.clone(),
            },
            None => match &self.identity {
                Some(identity) => match &identity.display {
                    Some(display) => display.clone(),
                    None => self.address.clone(),
                },
                None => self.address.clone(),
            },
        }
    }

    /// The display name of the account's identity.
    pub fn get_display(&self) -> (r: Option<String>)
        ensures
            r == account_display(*self),
    {
        match &self.identity {
            Some(identity) => clone_opt_string(&identity.display),
            None => None,
        }
    }

    /// The display name of the parent account's identity.
    pub fn get_parent_display(&self) -> (r: Option<String>)
        ensures
            r == account_parent_display(*self),
    {
        match &*self.parent {
            Some(parent) => match &parent.identity {
                Some(identity) => clone_opt_string(&identity.display),
                None => None,
            },
            None => None,
        }
    }

    /// The account's own display name, or for an account without an identity, its
    /// parent's display name and child display joined by ` / `.
    pub fn get_full_display(&self) -> (r: Option<String>)
        ensures
            match account_full_display(*self) {
                Some(d) => r matches Some(s) && s@ == d,
                None => r is None,
            },
    {
        match &self.identity {
            Some(identity) => match &identity.display {
                Some(display) => Some(display.clone()),
                None => None,
            },
            None => match &*self.parent {
                Some(parent) => match &parent.identity {
                    Some(identity) => match &identity.display {
                        Some(parent_display) => match &self.child_display {
                            Some(child_display) => {
                                let mut s = parent_display.clone();
                                push_str(&mut s, " / ");
                                push_str(&mut s, child_display.as_str());
                                Some(s)
                            },
                            None => None,
                        },
                        None => None,
                    },
                    None => None,
                },
                None => None,
            },
        }
    }

    /// The full display of the account, or its address condensed to `address_side_limit`
    /// (5 where none is given) bytes on each side.
    pub fn get_display_or_condensed_address(&self, address_side_limit: Option<usize>) -> (s: String)
        requires
            account_full_display(*self) is None ==> can_condense(
                self.address@,
                address_side_limit.unwrap_or(5) as nat,
                address_side_limit.unwrap_or(5) as nat,
            ),
        ensures
            s@ == match account_full_display(*self) {
                Some(d) => d,
                None => condensed(
                    self.address@,
                    address_side_limit.unwrap_or(5) as nat,
                    address_side_limit.unwrap_or(5) as nat,
                ),
            },
    {
        match self.get_full_display() {
            Some(display) => display,
            None => get_condensed_address(self.address.as_str(), address_side_limit),
        }
    }
}

/// The display name and confirmation of an identity.
#[derive(Debug, Eq, Hash, PartialEq)]
pub struct IdentityRegistrationSummary {
    pub display: Option<String>,
    pub confirmed: bool,
}

impl IdentityRegistrationSummary {
    /// The summary of an identity.
    pub fn from(identity: &IdentityRegistration) -> (s: IdentityRegistrationSummary)
        ensures
            s.display == identity.display,
            s.confirmed == identity.confirmed,
    {
        IdentityRegistrationSummary {
            display: clone_opt_string(&identity.display),
            confirmed: identity.confirmed,
        }
    }
}

} // verus!

verus! {

/// A stash account's bonded amounts.
#[derive(Clone, Copy, Debug, Default, Eq, Hash, PartialEq)]
pub struct Stake {
    pub stash_account_id: AccountId,
    pub total_amount: Balance,
    pub active_amount: Balance,
}

/// A stash account's active bonded amount.
#[derive(Clone, Copy, Debug, Default, Eq, Hash, PartialEq)]
pub struct StakeSummary {
    pub stash_account_id: AccountId,
    pub active_amount: Balance,
}

impl StakeSummary {
    /// The summary of a stake.
    pub fn from(stake: &Stake) -> (s: StakeSummary)
        ensures
            s.stash_account_id == stake.stash_account_id,
            s.active_amount == stake.active_amount,
    {
        StakeSummary { stash_account_id: stake.stash_account_id, active_amount: stake.active_amount }
    }
}

/// A nominator's active stake on a validator.
#[derive(Debug, Default, Eq, Hash, PartialEq)]
pub struct NominatorStake {
    pub account: Account,
    pub stake: Balance,
}

impl Clone for NominatorStake {
    fn clone(&self) -> (r: Self)
        ensures
            r == *self,
    {
        NominatorStake { account: self.account.clone(), stake: self.stake }
    }
}

/// The active stake on one active validator: its self stake, its total stake and each
/// nominator's stake.
#[derive(Debug, Default, Eq, Hash, PartialEq)]
pub struct ValidatorStake {
    pub account: Account,
    pub self_stake: Balance,
    pub total_stake: Balance,
    pub nominators: Vec<NominatorStake>,
}

/// A copy of a list of nominator stakes.
pub fn clone_nominator_stakes(v: &Vec<NominatorStake>) -> (r: Vec<NominatorStake>)
    ensures
        r@ == v@,
{
    let mut r: Vec<NominatorStake> = Vec::new();
    let mut i: usize = 0;
    while i < v.len()
        invariant
            i <= v.len(),
            r@ == v@.subrange(0, i as int),
        decreases v.len() - i,
    {
        r.push(v[i].clone());
        assert(r@ =~= v@.subrange(0, i + 1));
        i = i + 1;
    }
    assert(v@.subrange(0, v.len() as int) =~= v@);
    r
}

impl Clone for ValidatorStake {
    fn clone(&self) -> (r: Self)
        ensures
            r.account == self.account,
            r.self_stake == self.self_stake,
            r.total_stake == self.total_stake,
            r.nominators@ == self.nominators@,
    {
        let nominators = clone_nominator_stakes(&self.nominators);
        let r = ValidatorStake {
            account: self.account.clone(),
            self_stake: self.self_stake,
            total_stake: self.total_stake,
            nominators,
        };
        r
    }
}

/// An era: its index and its start and end times in milliseconds.
#[derive(Clone, Copy, Debug, Default, Eq, PartialEq)]
pub struct Era {
    pub index: u32,
    pub start_timestamp: u64,
    pub end_timestamp: u64,
}

/// An epoch: its index, its first block and its start and end times in milliseconds.
#[derive(Clone, Copy, Debug, Default, Eq, PartialEq)]
pub struct Epoch {
    pub index: u64,
    pub start_block_number: u32,
    pub start_timestamp: u64,
    pub end_timestamp: u64,
}

/// All active stakers of an era.
pub struct EraStakers {
    pub era: Era,
    pub stakers: Vec<ValidatorStake>,
}

/// The sum of the total stakes of `s`.
pub open spec fn sum_total_stakes(s: Seq<ValidatorStake>) -> nat
    decreases s.len(),
{
    if s.len() == 0 {
        0
    } else {
        (sum_total_stakes(s.drop_last()) + s.last().total_stake) as nat
    }
}

/// The position of the first staker of `s[..n]` with the least total stake.
pub open spec fn min_stake_index(s: Seq<ValidatorStake>, n: nat) -> nat
    decreases n,
{
    if n <= 1 {
        0
    } else {
        let k = min_stake_index(s, (n - 1) as nat);
        if s[n - 1].total_stake < s[k as int].total_stake {
            (n - 1) as nat
        } else {
            k
        }
    }
}

/// The position of the last staker of `s[..n]` with the greatest total stake.
pub open spec fn max_stake_index(s: Seq<ValidatorStake>, n: nat) -> nat
    decreases n,
{
    if n <= 1 {
        0
    } else {
        let k = max_stake_index(s, (n - 1) as nat);
        if s[n - 1].total_stake >= s[k as int].total_stake {
            (n - 1) as nat
        } else {
            k
        }
    }
}

/// The index found among the first `n` stakers is one of them.
pub proof fn lemma_stake_index_bounds(s: Seq<ValidatorStake>, n: nat)
    requires
        n >= 1,
    ensures
        min_stake_index(s, n) < n,
        max_stake_index(s, n) < n,
    decreases n,
{
    if n > 1 {
        lemma_stake_index_bounds(s, (n - 1) as nat);
    }
}

impl EraStakers {
    /// The total stake of the era.
    pub fn total_stake(&self) -> (t: Balance)
        requires
            sum_total_stakes(self.stakers@) <= u128::MAX,
        ensures
            t == sum_total_stakes(self.stakers@),
    {
        let mut t: u128 = 0;
        let mut i: usize = 0;
        while i < self.stakers.len()
            invariant
                i <= self.stakers.len(),
                sum_total_stakes(self.stakers@) <= u128::MAX,
                t == sum_total_stakes(self.stakers@.subrange(0, i as int)),
            decreases self.stakers.len() - i,
        {
            proof {
                lemma_sum_prefix_le(self.stakers@, i + 1);
                assert(self.stakers@.subrange(0, i + 1).drop_last() =~= self.stakers@.subrange(0, i as int));
            }
            t = t + self.stakers[i].total_stake;
            i = i + 1;
        }
        assert(self.stakers@.subrange(0, i as int) =~= self.stakers@);
        t
    }

    /// The active validator with the least total stake (the first of them), and that stake.
    pub fn min_stake(&self) -> (r: (Account, Balance))
        requires
            self.stakers.len() > 0,
        ensures
            r.0 == self.stakers@[min_stake_index(self.stakers@, self.stakers.len() as nat) as int].account,
            r.1 == self.stakers@[min_stake_index(self.stakers@, self.stakers.len() as nat) as int].total_stake,
    {
        let mut k: usize = 0;
        let mut i: usize = 1;
        while i < self.stakers.len()
            invariant
                1 <= i <= self.stakers.len(),
                k == min_stake_index(self.stakers@, i as nat),
            decreases self.stakers.len() - i,
        {
            proof {
                lemma_stake_index_bounds(self.stakers@, i as nat);
            }
            if self.stakers[i].total_stake < self.stakers[k].total_stake {
                k = i;
            }
            i = i + 1;
        }
        proof {
            lemma_stake_index_bounds(self.stakers@, i as nat);
        }
        (self.stakers[k].account.clone(), self.stakers[k].total_stake)
    }

    /// The active validator with the greatest total stake (the last of them), and that stake.
    pub fn max_stake(&self) -> (r: (Account, Balance))
        requires
            self.stakers.len() > 0,
        ensures
            r.0 == self.stakers@[max_stake_index(self.stakers@, self.stakers.len() as nat) as int].account,
            r.1 == self.stakers@[max_stake_index(self.stakers@, self.stakers.len() as nat) as int].total_stake,
    {
        let mut k: usize = 0;
        let mut i: usize = 1;
        while i < self.stakers.len()
            invariant
                1 <= i <= self.stakers.len(),
                k == max_stake_index(self.stakers@, i as nat),
            decreases self.stakers.len() - i,
        {
            proof {
                lemma_stake_index_bounds(self.stakers@, i as nat);
            }
            if self.stakers[i].total_stake >= self.stakers[k].total_stake {
                k = i;
            }
            i = i + 1;
        }
        proof {
            lemma_stake_index_bounds(self.stakers@, i as nat);
        }
        (self.stakers[k].account.clone(), self.stakers[k].total_stake)
    }

    /// The average total stake of the active validators, rounded down.
    pub fn average_stake(&self) -> (a: Balance)
        requires
            self.stakers.len() > 0,
            sum_total_stakes(self.stakers@) <= u128::MAX,
        ensures
            a == sum_total_stakes(self.stakers@) / (self.stakers.len() as nat),
    {
        let sum = self.total_stake();
        sum / self.stakers.len() as u128
    }

    /// The median of the stakes backing the active validators: the middle one of their total
    /// stakes in ascending order (the upper middle one where their number is even).
    pub fn median_stake(&self) -> (m: Balance)
        requires
            self.stakers.len() > 0,
        ensures
            m == stake_totals(self.stakers@).sort_by(stake_le())[(self.stakers.len() / 2) as int],
    {
        let sorted = sorted_total_stakes(&self.stakers);
        proof {
            let totals = stake_totals(self.stakers@);
            lemma_stake_le_total();
            totals.lemma_sort_by_ensures(stake_le());
            lemma_sorted_unique(sorted@, totals.sort_by(stake_le()), stake_le());
        }
        let mid = self.stakers.len() / 2;
        sorted[mid]
    }
}

/// The total stakes of `s`, in order.
pub open spec fn stake_totals(s: Seq<ValidatorStake>) -> Seq<u128> {
    s.map_values(|v: ValidatorStake| v.total_stake)
}

/// The ascending order of stakes.
pub open spec fn stake_le() -> spec_fn(u128, u128) -> bool {
    |a: u128, b: u128| a <= b
}

/// The ascending order of stakes is a total order.
pub proof fn lemma_stake_le_total()
    ensures
        total_ordering(stake_le()),
{
}

/// The total stakes of `stakers` in ascending order.
fn sorted_total_stakes(stakers: &Vec<ValidatorStake>) -> (r: Vec<u128>)
    ensures
        sorted_by(r@, stake_le()),
        r@.to_multiset() == stake_totals(stakers@).to_multiset(),
        r.len() == stakers.len(),
{
    let mut out: Vec<u128> = Vec::new();
    let mut i: usize = 0;
    assert(out@ =~= stake_totals(stakers@).take(0));
    while i < stakers.len()
        invariant
            i <= stakers.len(),
            sorted_by(out@, stake_le()),
            out@.to_multiset() == stake_totals(stakers@).take(i as int).to_multiset(),
        decreases stakers.len() - i,
    {
        let t = stakers[i].total_stake;
        let mut p: usize = 0;
        while p < out.len() && out[p] <= t
            invariant
                p <= out.len(),
                forall|k: int| 0 <= k < p ==> out@[k] <= t,
            decreases out.len() - p,
        {
            p = p + 1;
        }
        let ghost before = out@;
        out.insert(p, t);
        proof {
            assert forall|a: int, b: int| 0 <= a < b < out@.len() implies #[trigger] stake_le()(
                out@[a],
                out@[b],
            ) by {
                if b < p {
                    assert(stake_le()(before[a], before[b]));
                } else if b == p {
                } else if a < p {
                    if p < before.len() {
                        assert(stake_le()(before[p as int], before[b - 1]) || p == b - 1);
                    }
                } else if a == p {
                    if p < b - 1 {
                        assert(stake_le()(before[p as int], before[b - 1]));
                    }
                } else {
                    assert(stake_le()(before[a - 1], before[b - 1]));
                }
            }
            let totals = stake_totals(stakers@);
            assert(out@ == before.insert(p as int, t));
            vstd::seq_lib::to_multiset_insert(before, p as int, t);
            assert(totals[i as int] == t);
            assert(totals.take(i + 1) =~= totals.take(i as int).push(t));
            vstd::seq_lib::to_multiset_build(totals.take(i as int), t);
        }
        i = i + 1;
    }
    proof {
        assert(stake_totals(stakers@).take(i as int) =~= stake_totals(stakers@));
        vstd::seq_lib::to_multiset_len(out@);
        vstd::seq_lib::to_multiset_len(stake_totals(stakers@));
    }
    out
}

/// The sum over a prefix is at most the sum over the whole.
pub proof fn lemma_sum_prefix_le(s: Seq<ValidatorStake>, n: int)
    requires
        0 <= n <= s.len(),
    ensures
        sum_total_stakes(s.subrange(0, n)) <= sum_total_stakes(s),
    decreases s.len(),
{
    if n < s.len() {
        assert(s.drop_last().subrange(0, n) =~= s.subrange(0, n));
        lemma_sum_prefix_le(s.drop_last(), n);
    } else {
        assert(s.subrange(0, n) =~= s);
    }
}

} // verus!

verus! {

// ---------------------------------------------------------------------------
// Chains.
// ---------------------------------------------------------------------------

/// A network that SubVT serves.
#[derive(Clone, Copy, Debug, Eq, PartialEq, Structural)]
pub enum Chain {
    Kusama,
    Polkadot,
    Westend,
}

/// The chain named by a lower-case text: its name or its token symbol.
pub open spec fn chain_of_lowercase(s: Seq<char>) -> Option<Chain> {
    if s == "kusama"@ || s == "ksm"@ {
        Some(Chain::Kusama)
    } else if s == "polkadot"@ || s == "dot"@ {
        Some(Chain::Polkadot)
    } else if s == "westend"@ || s == "wnd"@ {
        Some(Chain::Westend)
    } else {
        None
    }
}

/// The lower-case form of a text, as `str::to_lowercase` gives it.
pub uninterp spec fn lowercase(s: Seq<char>) -> Seq<char>;

/// `str::to_lowercase`: a function of the text alone (Unicode's lower-case mapping).
#[verifier::external_body]
pub(crate) fn to_lowercase(s: &str) -> (r: String)
    ensures
        r@ == lowercase(s@),
{
    s.to_lowercase()
}

/// The SS58 address format of a chain.
pub open spec fn ss58_prefix(chain: Chain) -> u16 {
    match chain {
        Chain::Kusama => 2,
        Chain::Polkadot => 0,
        Chain::Westend => 42,
    }
}

impl Chain {
    /// The chain named by an already lower-case text, if any.
    pub fn from_lowercase(s: &str) -> (r: Option<Chain>)
        ensures
            r == chain_of_lowercase(s@),
    {
        if str_equals(s, "kusama") || str_equals(s, "ksm") {
            Some(Chain::Kusama)
        } else if str_equals(s, "polkadot") || str_equals(s, "dot") {
            Some(Chain::Polkadot)
        } else if str_equals(s, "westend") || str_equals(s, "wnd") {
            Some(Chain::Westend)
        } else {
            None
        }
    }

    /// The chain named by `s`, in any case: its name or its token symbol.
    pub fn from_str(s: &str) -> (r: Chain)
        requires
            chain_of_lowercase(lowercase(s@)) is Some,
        ensures
            r == chain_of_lowercase(lowercase(s@)).unwrap(),
    {
        let lower = to_lowercase(s);
        match Chain::from_lowercase(lower.as_str()) {
            Some(c) => c,
            None => Chain::Kusama,
        }
    }

    /// The chain named by `s`, in any case, or `None` where `s` names none.
    pub fn parse(s: &str) -> (r: Option<Chain>)
        ensures
            r == chain_of_lowercase(lowercase(s@)),
    {
        let lower = to_lowercase(s);
        match Chain::from_lowercase(lower.as_str()) {
            Some(_) => Some(Chain::from_str(s)),
            None => None,
        }
    }

    /// The SS58 address format of the chain.
    fn get_ss58_address_format(&self) -> (p: u16)
        ensures
            p == ss58_prefix(*self),
    {
        match self {
            Chain::Kusama => 2,
            Chain::Polkadot => 0,
            Chain::Westend => 42,
        }
    }

    /// Makes the chain's address format the process-wide default of SS58 encoding.
    pub fn sp_core_set_default_ss58_version(&self) {
        let p = self.get_ss58_address_format();
        sp_core_set_default_ss58_version(p);
    }
}

/// The system properties of a node, as its RPC interface gives them.
#[derive(Clone, Debug, Eq, PartialEq)]
pub struct SystemProperties {
    pub ss_58_format: u8,
    pub token_decimals: u32,
    pub token_symbol: String,
}

// ---------------------------------------------------------------------------
// Addresses.
// ---------------------------------------------------------------------------

/// The address forms that a runtime accepts.
#[derive(Debug, Eq, PartialEq)]
pub enum MultiAddress {
    Id(AccountId),
    Index(u32),
    Raw(Vec<u8>),
    Address32([u8; 32]),
    Address20([u8; 20]),
}

/// Whether two addresses hold the same form and the same value.
pub open spec fn multi_address_same(a: MultiAddress, b: MultiAddress) -> bool {
    match (a, b) {
        (MultiAddress::Id(x), MultiAddress::Id(y)) => x == y,
        (MultiAddress::Index(x), MultiAddress::Index(y)) => x == y,
        (MultiAddress::Raw(x), MultiAddress::Raw(y)) => x@ == y@,
        (MultiAddress::Address32(x), MultiAddress::Address32(y)) => x == y,
        (MultiAddress::Address20(x), MultiAddress::Address20(y)) => x == y,
        _ => false,
    }
}

impl Clone for MultiAddress {
    fn clone(&self) -> (r: Self)
        ensures
            multi_address_same(r, *self),
    {
        match self {
            MultiAddress::Id(a) => MultiAddress::Id(*a),
            MultiAddress::Index(i) => MultiAddress::Index(*i),
            MultiAddress::Raw(v) => {
                let c = v.clone();
                assert(c@ =~= v@);
                MultiAddress::Raw(c)
            },
            MultiAddress::Address32(x) => MultiAddress::Address32(*x),
            MultiAddress::Address20(x) => MultiAddress::Address20(*x),
        }
    }
}

impl MultiAddress {
    /// The account id of an `Id` address.
    pub fn get_account_id(&self) -> (r: Option<AccountId>)
        ensures
            r == (match self {
                MultiAddress::Id(a) => Some(*a),
                _ => None,
            }),
    {
        match self {
            MultiAddress::Id(account_id) => Some(*account_id),
            _ => None,
        }
    }
}

/// The tag and the encoded length of the address at `pos` in `b`; `None` where it does not
/// decode.
pub open spec fn multi_address_len(b: Seq<u8>, pos: int) -> Option<nat> {
    if pos >= b.len() {
        None
    } else if b[pos] == 0 || b[pos] == 3 {
        if pos + 33 <= b.len() {
            Some(33)
        } else {
            None
        }
    } else if b[pos] == 1 {
        match compact_spec(rest(b, pos + 1), 4) {
            Some((_, l)) => Some(1 + l),
            None => None,
        }
    } else if b[pos] == 2 {
        match compact_spec(rest(b, pos + 1), 4) {
            Some((n, l)) => if pos + 1 + l + n <= b.len() {
                Some(1 + l + n)
            } else {
                None
            },
            None => None,
        }
    } else if b[pos] == 4 {
        if pos + 21 <= b.len() {
            Some(21)
        } else {
            None
        }
    } else {
        None
    }
}

/// Whether `a` is the address at `pos` in `b`, which decodes.
pub open spec fn multi_address_at(b: Seq<u8>, pos: int, a: MultiAddress) -> bool {
    match a {
        MultiAddress::Id(id) => b[pos] == 0 && id.0@ == b.subrange(pos + 1, pos + 33),
        MultiAddress::Index(i) => b[pos] == 1 && i as nat == compact_spec(rest(b, pos + 1), 4).unwrap().0,
        MultiAddress::Raw(v) => b[pos] == 2 && {
            let (n, l) = compact_spec(rest(b, pos + 1), 4).unwrap();
            v@ == b.subrange(pos + 1 + l, pos + 1 + l + n)
        },
        MultiAddress::Address32(x) => b[pos] == 3 && x@ == b.subrange(pos + 1, pos + 33),
        MultiAddress::Address20(x) => b[pos] == 4 && x@ == b.subrange(pos + 1, pos + 21),
    }
}

impl MultiAddress {
    /// The address at `pos`, and the position after it.
    pub fn decode(bytes: &[u8], pos: usize) -> (r: Result<(MultiAddress, usize), DecodeError>)
        requires
            pos <= bytes.len(),
        ensures
            r is Ok <==> multi_address_len(bytes@, pos as int) is Some,
            r matches Ok((a, next)) ==> {
                &&& multi_address_at(bytes@, pos as int, a)
                &&& next == pos + multi_address_len(bytes@, pos as int).unwrap()
            },
    {
        let tag = match codec_u8(bytes, pos) {
            Ok(t) => t,
            Err(e) => return Err(DecodeError::Error(e)),
        };
        if tag == 0 || tag == 3 {
            let x = match codec_bytes32(bytes, pos + 1) {
                Ok(x) => x,
                Err(e) => return Err(DecodeError::Error(e)),
            };
            if tag == 0 {
                Ok((MultiAddress::Id(AccountId(x)), pos + 33))
            } else {
                Ok((MultiAddress::Address32(x), pos + 33))
            }
        } else if tag == 1 {
            match read_compact_u32(bytes, pos + 1) {
                Ok((i, next)) => Ok((MultiAddress::Index(i), next)),
                Err(e) => Err(DecodeError::Error(e)),
            }
        } else if tag == 2 {
            match codec_byte_vec(bytes, pos + 1) {
                Ok(v) => {
                    proof {
                        lemma_compact_len(rest(bytes@, pos + 1), 4);
                    }
                    let l = compact_len(bytes[pos + 1]);
                    let next = pos + 1 + l + v.len();
                    proof {
                        let (n, cl) = compact_spec(rest(bytes@, pos + 1), 4).unwrap();
                        assert(rest(bytes@, pos + 1).subrange(cl as int, (cl + n) as int) =~= bytes@.subrange(
                            pos + 1 + cl,
                            pos + 1 + cl + n,
                        ));
                    }
                    Ok((MultiAddress::Raw(v), next))
                },
                Err(e) => Err(DecodeError::Error(e)),
            }
        } else if tag == 4 {
            match codec_bytes20(bytes, pos + 1) {
                Ok(x) => Ok((MultiAddress::Address20(x), pos + 21)),
                Err(e) => Err(DecodeError::Error(e)),
            }
        } else {
            Err(DecodeError::Error(copy_str("Could not decode `MultiAddress`, variant doesn't exist")))
        }
    }
}

// ---------------------------------------------------------------------------
// Blocks.
// ---------------------------------------------------------------------------

/// The logs of a block header.
#[derive(Clone, Debug, Eq, PartialEq)]
pub struct EventDigest {
    pub logs: Vec<String>,
}

/// A block's header, as the node's RPC interface gives it: hashes and the number in hex.
#[derive(Clone, Debug, Eq, PartialEq)]
pub struct BlockHeader {
    pub digest: EventDigest,
    pub extrinsics_root: String,
    pub number: String,
    pub parent_hash: String,
    pub state_root: String,
}

/// A block: its header and its extrinsics, each in hex.
#[derive(Clone, Debug, Eq, PartialEq)]
pub struct Block {
    pub header: BlockHeader,
    pub extrinsics: Vec<String>,
}

/// The block as the RPC method wraps it.
#[derive(Clone, Debug, Eq, PartialEq)]
pub struct BlockWrapper {
    pub block: Block,
}

/// The value of the hex digit `c`, either case.
pub open spec fn hex_char_value(c: char) -> Option<nat> {
    if '0' <= c <= '9' {
        Some((c as nat - '0' as nat) as nat)
    } else if 'a' <= c <= 'f' {
        Some((c as nat - 'a' as nat + 10) as nat)
    } else if 'A' <= c <= 'F' {
        Some((c as nat - 'A' as nat + 10) as nat)
    } else {
        None
    }
}

/// Whether every character of `s` is a hex digit.
pub open spec fn all_hex_chars(s: Seq<char>) -> bool {
    forall|i: int| 0 <= i < s.len() ==> (#[trigger] hex_char_value(s[i])) is Some
}

/// The value of the hex digits `s`, most significant first.
pub open spec fn hex_chars_value(s: Seq<char>) -> nat
    decreases s.len(),
{
    if s.len() == 0 {
        0
    } else {
        hex_chars_value(s.drop_last()) * 16 + hex_char_value(s.last()).unwrap()
    }
}

/// The digits of a base-16 text: all of it but a leading `+`.
pub open spec fn radix16_digits(s: Seq<char>) -> Seq<char> {
    if s.len() > 0 && s[0] == '+' {
        s.subrange(1, s.len() as int)
    } else {
        s
    }
}

/// The `u64` that `s` writes in base 16, as `u64::from_str_radix(s, 16)` reads it: an
/// optional `+`, then one or more hex digits, whose value must fit in 64 bits.
pub open spec fn radix16_u64(s: Seq<char>) -> Option<u64> {
    let d = radix16_digits(s);
    if d.len() > 0 && all_hex_chars(d) && hex_chars_value(d) <= u64::MAX {
        Some(hex_chars_value(d) as u64)
    } else {
        None
    }
}

/// The value of a prefix of hex digits is at most that of the whole.
pub proof fn lemma_hex_prefix_le(s: Seq<char>, i: int)
    requires
        0 <= i <= s.len(),
        all_hex_chars(s),
    ensures
        hex_chars_value(s.subrange(0, i)) <= hex_chars_value(s),
    decreases s.len(),
{
    if i < s.len() {
        let t = s.drop_last();
        assert(t.subrange(0, i) =~= s.subrange(0, i));
        assert(all_hex_chars(t)) by {
            assert forall|k: int| 0 <= k < t.len() implies (#[trigger] hex_char_value(t[k])) is Some by {
                assert(t[k] == s[k]);
            }
        }
        lemma_hex_prefix_le(t, i);
    } else {
        assert(s.subrange(0, i) =~= s);
    }
}

/// The value of the hex digit `c`.
fn hex_char_digit(c: char) -> (r: Option<u64>)
    ensures
        r matches Some(v) ==> hex_char_value(c) == Some(v as nat),
        r is None ==> hex_char_value(c) is None,
{
    if '0' <= c && c <= '9' {
        Some((c as u32 - '0' as u32) as u64)
    } else if 'a' <= c && c <= 'f' {
        Some((c as u32 - 'a' as u32 + 10) as u64)
    } else if 'A' <= c && c <= 'F' {
        Some((c as u32 - 'A' as u32 + 10) as u64)
    } else {
        None
    }
}

/// `u64::from_str_radix(s, 16)`.
pub fn parse_radix16_u64(s: &str) -> (r: Result<u64, DecodeError>)
    ensures
        r is Ok <==> radix16_u64(s@) is Some,
        r matches Ok(v) ==> v == radix16_u64(s@).unwrap(),
{
    let n = s.unicode_len();
    let start: usize = if n > 0 && s.get_char(0) == '+' {
        1
    } else {
        0
    };
    let ghost d = s@.subrange(start as int, n as int);
    assert(d =~= radix16_digits(s@));
    if n == start {
        return Err(DecodeError::Error(copy_str("cannot parse integer from empty string")));
    }
    let mut v: u64 = 0;
    let mut i: usize = start;
    while i < n
        invariant
            start <= i <= n,
            n == s@.len(),
            d == s@.subrange(start as int, n as int),
            d == radix16_digits(s@),
            all_hex_chars(d.subrange(0, i - start)),
            v as nat == hex_chars_value(d.subrange(0, i - start)),
        decreases n - i,
    {
        let c = s.get_char(i);
        let ghost pre = d.subrange(0, i - start);
        let ghost next = d.subrange(0, i + 1 - start);
        assert(next.drop_last() =~= pre);
        assert(next.last() == c);
        let digit = match hex_char_digit(c) {
            Some(x) => x,
            None => {
                proof {
                    assert(d[i - start] == c);
                    assert(hex_char_value(d[i - start]) is None);
                    assert(!all_hex_chars(d));
                }
                return Err(DecodeError::Error(copy_str("invalid digit found in string")));
            },
        };
        proof {
            assert forall|k: int| 0 <= k < next.len() implies (#[trigger] hex_char_value(next[k])) is Some by {
                if k < pre.len() {
                    assert(next[k] == pre[k]);
                }
            }
        }
        if v > (u64::MAX - digit) / 16 {
            proof {
                assert(v * 16 + digit > u64::MAX) by (nonlinear_arith)
                    requires
                        v > (u64::MAX - digit) / 16,
                        digit < 16,
                ;
                assert(hex_chars_value(next) == v * 16 + digit);
                assert(d.subrange(0, i + 1 - start) == next);
                if all_hex_chars(d) {
                    lemma_hex_prefix_le(d, i + 1 - start);
                    assert(hex_chars_value(d) > u64::MAX);
                }
            }
            return Err(DecodeError::Error(copy_str("number too large to fit in target type")));
        }
        proof {
            assert(v * 16 + digit <= u64::MAX) by (nonlinear_arith)
                requires
                    v <= (u64::MAX - digit) / 16,
                    digit < 16,
            ;
        }
        v = v * 16 + digit;
        i = i + 1;
    }
    assert(d.subrange(0, n - start) =~= d);
    Ok(v)
}

impl BlockHeader {
    /// The block number, from the hex text of the header (with or without a `0x` prefix).
    pub fn get_number(&self) -> (r: Result<u64, DecodeError>)
        ensures
            r is Ok <==> radix16_u64(trim_hex_prefix_spec(self.number@)) is Some,
            r matches Ok(v) ==> v == radix16_u64(trim_hex_prefix_spec(self.number@)).unwrap(),
    {
        let trimmed = trim_hex_prefix(self.number.as_str());
        parse_radix16_u64(trimmed)
    }
}

// ---------------------------------------------------------------------------
// Eras from the runtime.
// ---------------------------------------------------------------------------

/// The bytes that a hex text writes, after any leading `0x`.
pub fn decode_hex_bytes(hex_string: &str) -> (r: Vec<u8>)
    requires
        account_hex_bytes(hex_string@) is Some,
    ensures
        r@ == account_hex_bytes(hex_string@).unwrap(),
{
    let trimmed = trim_hex_prefix(hex_string);
    proof {
        assert(trimmed.spec_bytes() == vstd::utf8::encode_utf8(trimmed@));
    }
    match hex_decode(trimmed) {
        Ok(b) => b,
        Err(_) => Vec::new(),
    }
}

/// The index and the start (in milliseconds, where it has one) of the active era recorded
/// at the start of `b`: a 4-byte index, then an optional 8-byte time (tag 0 for none, 1 for
/// some). `None` where it does not decode.
pub open spec fn active_era_spec(b: Seq<u8>) -> Option<(u32, Option<u64>)> {
    if b.len() < 5 {
        None
    } else if b[4] == 0 {
        Some((le_at(b, 0, 4) as u32, None))
    } else if b[4] == 1 && b.len() >= 13 {
        Some((le_at(b, 0, 4) as u32, Some(le_at(b, 5, 8) as u64)))
    } else {
        None
    }
}

/// The bytes of the active era record written in hex by `hex_string`.
pub open spec fn active_era_of_hex(hex_string: Seq<char>) -> Option<(u32, Option<u64>)> {
    active_era_spec(account_hex_bytes(hex_string).unwrap())
}

impl Era {
    /// The active era written in hex by `hex_string` (with or without a `0x` prefix); it
    /// ends `era_duration_millis` after it starts.
    pub fn from(hex_string: &str, era_duration_millis: u64) -> (r: Result<Era, DecodeError>)
        requires
            account_hex_bytes(hex_string@) is Some,
            active_era_of_hex(hex_string@) matches Some((_, start)) ==> start is Some
                && start.unwrap() + era_duration_millis <= u64::MAX,
        ensures
            r is Ok <==> active_era_of_hex(hex_string@) is Some,
            r matches Ok(e) ==> {
                &&& e.index == active_era_of_hex(hex_string@).unwrap().0
                &&& e.start_timestamp == active_era_of_hex(hex_string@).unwrap().1.unwrap()
                &&& e.end_timestamp == e.start_timestamp + era_duration_millis
            },
    {
        let bytes = decode_hex_bytes(hex_string);
        let index = match codec_u32(bytes.as_slice(), 0) {
            Ok(i) => i,
            Err(e) => return Err(DecodeError::Error(e)),
        };
        let tag = match codec_u8(bytes.as_slice(), 4) {
            Ok(t) => t,
            Err(e) => return Err(DecodeError::Error(e)),
        };
        if tag == 0 {
            // A missing start is a panic that `requires` rules out; this branch is not taken.
            return Err(DecodeError::Error(copy_str("Active era has no start.")));
        }
        if tag != 1 {
            return Err(DecodeError::Error(copy_str("Could not decode `Option`, variant doesn't exist")));
        }
        let start = match codec_u64(bytes.as_slice(), 5) {
            Ok(s) => s,
            Err(e) => return Err(DecodeError::Error(e)),
        };
        Ok(Era { index, start_timestamp: start, end_timestamp: start + era_duration_millis })
    }
}

// ---------------------------------------------------------------------------
// Runtime upgrades.
// ---------------------------------------------------------------------------

/// The spec version and spec name of the last runtime upgrade.
#[derive(Clone, Debug, Default, Eq, PartialEq)]
pub struct LastRuntimeUpgradeInfo {
    pub spec_version: u32,
    pub spec_name: String,
}

/// The record at the start of `b`: a compact spec version, then the spec name as a SCALE
/// string; `None` where it does not decode.
pub open spec fn runtime_upgrade_spec(b: Seq<u8>) -> Option<(nat, Seq<char>)> {
    match compact_spec(b, 4) {
        Some((v, l)) => if string_len(rest(b, l as int)) is Some {
            Some((v, string_text(rest(b, l as int))))
        } else {
            None
        },
        None => None,
    }
}

impl LastRuntimeUpgradeInfo {
    /// The last runtime upgrade recorded in the hex text `hex_string`.
    pub fn from_substrate_hex_string(hex_string: &str) -> (r: Result<LastRuntimeUpgradeInfo, DecodeError>)
        requires
            account_hex_bytes(hex_string@) is Some,
        ensures
            r is Ok <==> runtime_upgrade_spec(account_hex_bytes(hex_string@).unwrap()) is Some,
            r matches Ok(u) ==> {
                let (v, name) = runtime_upgrade_spec(account_hex_bytes(hex_string@).unwrap()).unwrap();
                u.spec_version == v && u.spec_name@ == name
            },
    {
        let bytes = decode_hex_bytes(hex_string);
        proof {
            assert(rest(bytes@, 0) =~= bytes@);
        }
        let (version, p) = match read_compact_u32(bytes.as_slice(), 0) {
            Ok(x) => x,
            Err(e) => return Err(DecodeError::Error(e)),
        };
        match codec_string(bytes.as_slice(), p) {
            Ok(name) => Ok(LastRuntimeUpgradeInfo { spec_version: version, spec_name: name }),
            Err(e) => Err(DecodeError::Error(e)),
        }
    }
}

} // verus!
