//! The events of on-chain governance: those of the democracy pallet and those of the
//! referenda of open governance.
use crate::codec::{codec_byte_vec, codec_u16, codec_u8, le_at, rest};
use crate::crypto::AccountId;
use crate::dispatch_events::hash_at;
use crate::error::DecodeError;
use crate::event::{acct, bal, decoded_as, read_account, read_balance, read_word, word};
use crate::governance::DemocracyConviction;
use crate::staking::compact_at;
use crate::strings::{copy_str, str_equals};
use crate::substrate::Balance;
use vstd::prelude::*;

verus! {

// ---------------------------------------------------------------------------
// Democracy events.
// ---------------------------------------------------------------------------

/// The majority that a democracy referendum needs to pass.
#[derive(Clone, Copy, Debug, PartialEq, Eq)]
pub enum VoteThreshold {
    SuperMajorityApprove,
    SuperMajorityAgainst,
    SimpleMajority,
}

/// A vote for or against, with the conviction that locks its balance.
#[derive(Clone, Copy, Debug, PartialEq, Eq)]
pub struct Vote {
    pub aye: bool,
    pub conviction: DemocracyConviction,
}

/// A vote of an account: a standard vote with its balance, or a balance split for and
/// against.
#[derive(Clone, Copy, Debug, PartialEq, Eq)]
pub enum AccountVote {
    Standard { vote: Vote, balance: Balance },
    Split { aye: Balance, nay: Balance },
}

/// The democracy events that SubVT follows.
#[derive(Clone, Copy, Debug, PartialEq, Eq)]
pub enum DemocracyEvent {
    Cancelled { extrinsic_index: Option<u32>, referendum_index: u32 },
    Delegated { extrinsic_index: Option<u32>, original_account_id: AccountId, delegate_account_id: AccountId },
    NotPassed { extrinsic_index: Option<u32>, referendum_index: u32 },
    Passed { extrinsic_index: Option<u32>, referendum_index: u32 },
    Proposed { extrinsic_index: Option<u32>, proposal_index: u32, deposit: Balance },
    Seconded { extrinsic_index: Option<u32>, account_id: AccountId, proposal_index: u32 },
    Started { extrinsic_index: Option<u32>, referendum_index: u32, vote_threshold: VoteThreshold },
    Undelegated { extrinsic_index: Option<u32>, account_id: AccountId },
    Voted { extrinsic_index: Option<u32>, account_id: AccountId, referendum_index: u32, vote: AccountVote },
}

/// The extrinsic index that a democracy event carries.
pub open spec fn democracy_extrinsic_index(e: DemocracyEvent) -> Option<u32> {
    match e {
        DemocracyEvent::Cancelled { extrinsic_index, .. } => extrinsic_index,
        DemocracyEvent::Delegated { extrinsic_index, .. } => extrinsic_index,
        DemocracyEvent::NotPassed { extrinsic_index, .. } => extrinsic_index,
        DemocracyEvent::Passed { extrinsic_index, .. } => extrinsic_index,
        DemocracyEvent::Proposed { extrinsic_index, .. } => extrinsic_index,
        DemocracyEvent::Seconded { extrinsic_index, .. } => extrinsic_index,
        DemocracyEvent::Started { extrinsic_index, .. } => extrinsic_index,
        DemocracyEvent::Undelegated { extrinsic_index, .. } => extrinsic_index,
        DemocracyEvent::Voted { extrinsic_index, .. } => extrinsic_index,
    }
}

impl DemocracyEvent {
    /// The index of the extrinsic that raised the event, if one did.
    pub fn get_extrinsic_index(&self) -> (r: Option<u32>)
        ensures
            r == democracy_extrinsic_index(*self),
    {
        match self {
            DemocracyEvent::Cancelled { extrinsic_index, .. } => *extrinsic_index,
            DemocracyEvent::Delegated { extrinsic_index, .. } => *extrinsic_index,
            DemocracyEvent::NotPassed { extrinsic_index, .. } => *extrinsic_index,
            DemocracyEvent::Passed { extrinsic_index, .. } => *extrinsic_index,
            DemocracyEvent::Proposed { extrinsic_index, .. } => *extrinsic_index,
            DemocracyEvent::Seconded { extrinsic_index, .. } => *extrinsic_index,
            DemocracyEvent::Started { extrinsic_index, .. } => *extrinsic_index,
            DemocracyEvent::Undelegated { extrinsic_index, .. } => *extrinsic_index,
            DemocracyEvent::Voted { extrinsic_index, .. } => *extrinsic_index,
        }
    }
}

/// The conviction whose number is `c`.
pub open spec fn conviction_of(c: int) -> Option<DemocracyConviction> {
    if c == 0 {
        Some(DemocracyConviction::NoLock)
    } else if c == 1 {
        Some(DemocracyConviction::Locked1x)
    } else if c == 2 {
        Some(DemocracyConviction::Locked2x)
    } else if c == 3 {
        Some(DemocracyConviction::Locked3x)
    } else if c == 4 {
        Some(DemocracyConviction::Locked4x)
    } else if c == 5 {
        Some(DemocracyConviction::Locked5x)
    } else if c == 6 {
        Some(DemocracyConviction::Locked6x)
    } else {
        None
    }
}

/// The vote that the byte `v` encodes: its high bit for an aye, the rest for the
/// conviction, which must be at most six.
pub open spec fn vote_of(v: u8) -> Option<Vote> {
    match conviction_of((v % 128) as int) {
        Some(c) => Some(Vote { aye: v >= 128, conviction: c }),
        None => None,
    }
}

/// The account vote at `pos` in `b`.
pub open spec fn account_vote_at(b: Seq<u8>, pos: int) -> Option<AccountVote> {
    if pos < 0 || pos >= b.len() {
        None
    } else if b[pos] == 0 {
        if pos + 18 <= b.len() {
            match vote_of(b[pos + 1]) {
                Some(v) => Some(AccountVote::Standard { vote: v, balance: bal(b, pos + 2) }),
                None => None,
            }
        } else {
            None
        }
    } else if b[pos] == 1 {
        if pos + 33 <= b.len() {
            Some(AccountVote::Split { aye: bal(b, pos + 1), nay: bal(b, pos + 17) })
        } else {
            None
        }
    } else {
        None
    }
}

/// The vote threshold whose tag is `t`.
pub open spec fn vote_threshold_of(t: u8) -> Option<VoteThreshold> {
    if t == 0 {
        Some(VoteThreshold::SuperMajorityApprove)
    } else if t == 1 {
        Some(VoteThreshold::SuperMajorityAgainst)
    } else if t == 2 {
        Some(VoteThreshold::SimpleMajority)
    } else {
        None
    }
}

/// What the democracy event named `name` with the fields `b` decodes to: `None` where its
/// fields do not decode, `Some(None)` where SubVT does not follow that event.
pub open spec fn democracy_event_spec(name: Seq<char>, xi: Option<u32>, b: Seq<u8>) -> Option<Option<DemocracyEvent>> {
    if name == "Cancelled"@ {
        if b.len() >= 4 {
            Some(Some(DemocracyEvent::Cancelled { extrinsic_index: xi, referendum_index: word(b, 0) }))
        } else {
            None
        }
    } else if name == "Delegated"@ {
        if b.len() >= 64 {
            Some(
                Some(
                    DemocracyEvent::Delegated {
                        extrinsic_index: xi,
                        original_account_id: acct(b, 0),
                        delegate_account_id: acct(b, 32),
                    },
                ),
            )
        } else {
            None
        }
    } else if name == "NotPassed"@ {
        if b.len() >= 4 {
            Some(Some(DemocracyEvent::NotPassed { extrinsic_index: xi, referendum_index: word(b, 0) }))
        } else {
            None
        }
    } else if name == "Passed"@ {
        if b.len() >= 4 {
            Some(Some(DemocracyEvent::Passed { extrinsic_index: xi, referendum_index: word(b, 0) }))
        } else {
            None
        }
    } else if name == "Proposed"@ {
        if b.len() >= 20 {
            Some(Some(DemocracyEvent::Proposed { extrinsic_index: xi, proposal_index: word(b, 0), deposit: bal(b, 4) }))
        } else {
            None
        }
    } else if name == "Seconded"@ {
        if b.len() >= 36 {
            Some(Some(DemocracyEvent::Seconded { extrinsic_index: xi, account_id: acct(b, 0), proposal_index: word(b, 32) }))
        } else {
            None
        }
    } else if name == "Started"@ {
        if b.len() >= 5 {
            match vote_threshold_of(b[4]) {
                Some(t) => Some(
                    Some(DemocracyEvent::Started { extrinsic_index: xi, referendum_index: word(b, 0), vote_threshold: t }),
                ),
                None => None,
            }
        } else {
            None
        }
    } else if name == "Undelegated"@ {
        if b.len() >= 32 {
            Some(Some(DemocracyEvent::Undelegated { extrinsic_index: xi, account_id: acct(b, 0) }))
        } else {
            None
        }
    } else if name == "Voted"@ {
        if b.len() >= 36 {
            match account_vote_at(b, 36) {
                Some(v) => Some(
                    Some(
                        DemocracyEvent::Voted {
                            extrinsic_index: xi,
                            account_id: acct(b, 0),
                            referendum_index: word(b, 32),
                            vote: v,
                        },
                    ),
                ),
                None => None,
            }
        } else {
            None
        }
    } else {
        Some(None)
    }
}

/// The error of a value that could not be read.
fn cannot_decode(what: &str) -> (e: DecodeError)
    ensures
        e matches DecodeError::Error(m) && m@ == what@,
{
    DecodeError::Error(copy_str(what))
}

/// Reads the byte at `pos`.
fn read_byte(bytes: &[u8], pos: usize) -> (r: Result<u8, DecodeError>)
    requires
        pos <= bytes.len(),
    ensures
        r is Ok <==> pos < bytes.len(),
        r matches Ok(v) ==> v == bytes@[pos as int],
{
    match codec_u8(bytes, pos) {
        Ok(v) => Ok(v),
        Err(e) => Err(DecodeError::Error(e)),
    }
}

/// Reads the account vote at `pos`.
fn read_account_vote(bytes: &[u8], pos: usize) -> (r: Result<AccountVote, DecodeError>)
    requires
        pos <= bytes.len(),
    ensures
        r is Ok <==> account_vote_at(bytes@, pos as int) is Some,
        r matches Ok(v) ==> account_vote_at(bytes@, pos as int) == Some(v),
{
    let t = read_byte(bytes, pos)?;
    if t == 0 {
        let v = read_byte(bytes, pos + 1)?;
        let c = v % 128;
        let conviction = if c == 0 {
            DemocracyConviction::NoLock
        } else if c == 1 {
            DemocracyConviction::Locked1x
        } else if c == 2 {
            DemocracyConviction::Locked2x
        } else if c == 3 {
            DemocracyConviction::Locked3x
        } else if c == 4 {
            DemocracyConviction::Locked4x
        } else if c == 5 {
            DemocracyConviction::Locked5x
        } else if c == 6 {
            DemocracyConviction::Locked6x
        } else {
            return Err(cannot_decode("Invalid conviction"));
        };
        let balance = read_balance(bytes, pos + 2)?;
        Ok(AccountVote::Standard { vote: Vote { aye: v >= 128, conviction }, balance })
    } else if t == 1 {
        let aye = read_balance(bytes, pos + 1)?;
        let nay = read_balance(bytes, pos + 17)?;
        Ok(AccountVote::Split { aye, nay })
    } else {
        Err(cannot_decode("Could not decode `AccountVote`, variant doesn't exist"))
    }
}

impl DemocracyEvent {
    /// Reads the democracy event named `name` from its fields `bytes`; `None` where SubVT
    /// does not follow that event.
    pub fn decode(name: &str, extrinsic_index: Option<u32>, bytes: &[u8]) -> (r: Result<Option<DemocracyEvent>, DecodeError>)
        ensures
            decoded_as(democracy_event_spec(name@, extrinsic_index, bytes@), r),
    {
        let xi = extrinsic_index;
        if str_equals(name, "Cancelled") {
            let i = read_word(bytes, 0)?;
            Ok(Some(DemocracyEvent::Cancelled { extrinsic_index: xi, referendum_index: i }))
        } else if str_equals(name, "Delegated") {
            let o = read_account(bytes, 0)?;
            let d = read_account(bytes, 32)?;
            Ok(Some(DemocracyEvent::Delegated { extrinsic_index: xi, original_account_id: o, delegate_account_id: d }))
        } else if str_equals(name, "NotPassed") {
            let i = read_word(bytes, 0)?;
            Ok(Some(DemocracyEvent::NotPassed { extrinsic_index: xi, referendum_index: i }))
        } else if str_equals(name, "Passed") {
            let i = read_word(bytes, 0)?;
            Ok(Some(DemocracyEvent::Passed { extrinsic_index: xi, referendum_index: i }))
        } else if str_equals(name, "Proposed") {
            let i = read_word(bytes, 0)?;
            let d = read_balance(bytes, 4)?;
            Ok(Some(DemocracyEvent::Proposed { extrinsic_index: xi, proposal_index: i, deposit: d }))
        } else if str_equals(name, "Seconded") {
            let a = read_account(bytes, 0)?;
            let i = read_word(bytes, 32)?;
            Ok(Some(DemocracyEvent::Seconded { extrinsic_index: xi, account_id: a, proposal_index: i }))
        } else if str_equals(name, "Started") {
            let i = read_word(bytes, 0)?;
            let t = read_byte(bytes, 4)?;
            let threshold = if t == 0 {
                VoteThreshold::SuperMajorityApprove
            } else if t == 1 {
                VoteThreshold::SuperMajorityAgainst
            } else if t == 2 {
                VoteThreshold::SimpleMajority
            } else {
                return Err(cannot_decode("Could not decode `VoteThreshold`, variant doesn't exist"));
            };
            Ok(Some(DemocracyEvent::Started { extrinsic_index: xi, referendum_index: i, vote_threshold: threshold }))
        } else if str_equals(name, "Undelegated") {
            let a = read_account(bytes, 0)?;
            Ok(Some(DemocracyEvent::Undelegated { extrinsic_index: xi, account_id: a }))
        } else if str_equals(name, "Voted") {
            let a = read_account(bytes, 0)?;
            let i = read_word(bytes, 32)?;
            let v = read_account_vote(bytes, 36)?;
            Ok(Some(DemocracyEvent::Voted { extrinsic_index: xi, account_id: a, referendum_index: i, vote: v }))
        } else {
            Ok(None)
        }
    }
}

// ---------------------------------------------------------------------------
// Referenda events.
// ---------------------------------------------------------------------------

/// The tally of a referendum: the votes for, the votes against, and the turnout that
/// supports it.
#[derive(Clone, Copy, Debug, PartialEq, Eq)]
pub struct Tally {
    pub ayes: Balance,
    pub nays: Balance,
    pub support: Balance,
}

/// A proposal as a referendum holds it: by the hash of a legacy preimage, inline (at most
/// 128 bytes), or by the hash and length of a preimage to look up.
#[derive(Clone, Debug, PartialEq, Eq)]
pub enum Bounded {
    Legacy { hash: [u8; 32] },
    Inline(Vec<u8>),
    Lookup { hash: [u8; 32], len: u32 },
}

/// The referenda events that SubVT follows.
#[derive(Clone, Debug, PartialEq, Eq)]
pub enum ReferendaEvent {
    Approved { extrinsic_index: Option<u32>, referendum_index: u32 },
    Cancelled { extrinsic_index: Option<u32>, referendum_index: u32, tally: Tally },
    Confirmed { extrinsic_index: Option<u32>, referendum_index: u32, tally: Tally },
    Killed { extrinsic_index: Option<u32>, referendum_index: u32, tally: Tally },
    Rejected { extrinsic_index: Option<u32>, referendum_index: u32, tally: Tally },
    Submitted { extrinsic_index: Option<u32>, referendum_index: u32, track_id: u16, proposal: Bounded },
}

/// The extrinsic index that a referenda event carries.
pub open spec fn referenda_extrinsic_index(e: ReferendaEvent) -> Option<u32> {
    match e {
        ReferendaEvent::Approved { extrinsic_index, .. } => extrinsic_index,
        ReferendaEvent::Cancelled { extrinsic_index, .. } => extrinsic_index,
        ReferendaEvent::Confirmed { extrinsic_index, .. } => extrinsic_index,
        ReferendaEvent::Killed { extrinsic_index, .. } => extrinsic_index,
        ReferendaEvent::Rejected { extrinsic_index, .. } => extrinsic_index,
        ReferendaEvent::Submitted { extrinsic_index, .. } => extrinsic_index,
    }
}

impl ReferendaEvent {
    /// The index of the extrinsic that raised the event, if one did.
    pub fn get_extrinsic_index(&self) -> (r: Option<u32>)
        ensures
            r == referenda_extrinsic_index(*self),
    {
        match self {
            ReferendaEvent::Approved { extrinsic_index, .. } => *extrinsic_index,
            ReferendaEvent::Cancelled { extrinsic_index, .. } => *extrinsic_index,
            ReferendaEvent::Confirmed { extrinsic_index, .. } => *extrinsic_index,
            ReferendaEvent::Killed { extrinsic_index, .. } => *extrinsic_index,
            ReferendaEvent::Rejected { extrinsic_index, .. } => *extrinsic_index,
            ReferendaEvent::Submitted { extrinsic_index, .. } => *extrinsic_index,
        }
    }
}

/// The tally that starts at `pos` in `b`.
pub open spec fn tally_at(b: Seq<u8>, pos: int) -> Tally {
    Tally { ayes: bal(b, pos), nays: bal(b, pos + 16), support: bal(b, pos + 32) }
}

/// Whether the proposal at `pos` in `b` decodes.
pub open spec fn bounded_ok(b: Seq<u8>, pos: int) -> bool {
    &&& 0 <= pos < b.len()
    &&& b[pos] == 0 ==> pos + 33 <= b.len()
    &&& b[pos] == 1 ==> (compact_at(b, pos + 1, 4) matches Some((n, l)) && pos + 1 + l + n <= b.len() && n <= 128)
    &&& b[pos] == 2 ==> pos + 37 <= b.len()
    &&& b[pos] <= 2
}

/// Whether `x` is the proposal at `pos` in `b`, which decodes.
pub open spec fn bounded_is(b: Seq<u8>, pos: int, x: Bounded) -> bool {
    match x {
        Bounded::Legacy { hash } => b[pos] == 0 && hash == hash_at(b, pos + 1),
        Bounded::Inline(v) => {
            let (n, l) = compact_at(b, pos + 1, 4).unwrap();
            &&& b[pos] == 1
            &&& v@ == b.subrange(pos + 1 + l, pos + 1 + l + n)
        },
        Bounded::Lookup { hash, len } => b[pos] == 2 && hash == hash_at(b, pos + 1) && len == word(b, pos + 33),
    }
}

/// Whether the fields `b` of the referenda event named `name` decode, for the events that
/// SubVT follows.
pub open spec fn referenda_fields_ok(name: Seq<char>, b: Seq<u8>) -> bool {
    if name == "Approved"@ {
        b.len() >= 4
    } else if name == "Cancelled"@ || name == "Confirmed"@ || name == "Killed"@ || name == "Rejected"@ {
        b.len() >= 52
    } else if name == "Submitted"@ {
        b.len() >= 6 && bounded_ok(b, 6)
    } else {
        true
    }
}

/// Whether `o` is the referenda event named `name` with the fields `b`, which decode;
/// `None` where SubVT does not follow that event.
pub open spec fn referenda_event_is(name: Seq<char>, xi: Option<u32>, b: Seq<u8>, o: Option<ReferendaEvent>) -> bool {
    if name == "Approved"@ {
        o == Some(ReferendaEvent::Approved { extrinsic_index: xi, referendum_index: word(b, 0) })
    } else if name == "Cancelled"@ {
        o == Some(ReferendaEvent::Cancelled { extrinsic_index: xi, referendum_index: word(b, 0), tally: tally_at(b, 4) })
    } else if name == "Confirmed"@ {
        o == Some(ReferendaEvent::Confirmed { extrinsic_index: xi, referendum_index: word(b, 0), tally: tally_at(b, 4) })
    } else if name == "Killed"@ {
        o == Some(ReferendaEvent::Killed { extrinsic_index: xi, referendum_index: word(b, 0), tally: tally_at(b, 4) })
    } else if name == "Rejected"@ {
        o == Some(ReferendaEvent::Rejected { extrinsic_index: xi, referendum_index: word(b, 0), tally: tally_at(b, 4) })
    } else if name == "Submitted"@ {
        o matches Some(ReferendaEvent::Submitted { extrinsic_index, referendum_index, track_id, proposal }) && {
            &&& extrinsic_index == xi
            &&& referendum_index == word(b, 0)
            &&& track_id as nat == le_at(b, 4, 2)
            &&& bounded_is(b, 6, proposal)
        }
    } else {
        o is None
    }
}

/// Reads the tally at `pos`.
fn read_tally(bytes: &[u8], pos: usize) -> (r: Result<Tally, DecodeError>)
    requires
        pos <= bytes.len(),
    ensures
        r is Ok <==> pos + 48 <= bytes.len(),
        r matches Ok(t) ==> t == tally_at(bytes@, pos as int),
{
    let ayes = read_balance(bytes, pos)?;
    let nays = read_balance(bytes, pos + 16)?;
    let support = read_balance(bytes, pos + 32)?;
    Ok(Tally { ayes, nays, support })
}

/// Reads the 32 bytes at `pos`.
fn read_hash(bytes: &[u8], pos: usize) -> (r: Result<[u8; 32], DecodeError>)
    requires
        pos <= bytes.len(),
    ensures
        r is Ok <==> pos + 32 <= bytes.len(),
        r matches Ok(h) ==> h == hash_at(bytes@, pos as int),
{
    let a = read_account(bytes, pos)?;
    proof {
        let c = hash_at(bytes@, pos as int);
        assert(c@ == a.0@);
        assert(c =~= a.0);
    }
    Ok(a.0)
}

/// Reads the proposal at `pos`.
fn read_bounded(bytes: &[u8], pos: usize) -> (r: Result<Bounded, DecodeError>)
    requires
        pos <= bytes.len(),
    ensures
        r is Ok <==> bounded_ok(bytes@, pos as int),
        r matches Ok(x) ==> bounded_is(bytes@, pos as int, x),
{
    let t = read_byte(bytes, pos)?;
    if t == 0 {
        let hash = read_hash(bytes, pos + 1)?;
        Ok(Bounded::Legacy { hash })
    } else if t == 1 {
        let v = match codec_byte_vec(bytes, pos + 1) {
            Ok(v) => v,
            Err(e) => return Err(DecodeError::Error(e)),
        };
        proof {
            let (n, l) = compact_at(bytes@, pos + 1, 4).unwrap();
            assert(rest(bytes@, pos + 1).subrange(l as int, (l + n) as int) =~= bytes@.subrange(
                pos + 1 + l,
                pos + 1 + l + n,
            ));
        }
        if v.len() > 128 {
            return Err(cannot_decode("BoundedVec exceeds its limit"));
        }
        Ok(Bounded::Inline(v))
    } else if t == 2 {
        let hash = read_hash(bytes, pos + 1)?;
        let len = read_word(bytes, pos + 33)?;
        Ok(Bounded::Lookup { hash, len })
    } else {
        Err(cannot_decode("Could not decode `Bounded`, variant doesn't exist"))
    }
}

impl ReferendaEvent {
    /// Reads the referenda event named `name` from its fields `bytes`; `None` where SubVT
    /// does not follow that event.
    pub fn decode(name: &str, extrinsic_index: Option<u32>, bytes: &[u8]) -> (r: Result<Option<ReferendaEvent>, DecodeError>)
        ensures
            r is Ok <==> referenda_fields_ok(name@, bytes@),
            r matches Ok(o) ==> referenda_event_is(name@, extrinsic_index, bytes@, o),
    {
        let xi = extrinsic_index;
        if str_equals(name, "Approved") {
            let i = read_word(bytes, 0)?;
            Ok(Some(ReferendaEvent::Approved { extrinsic_index: xi, referendum_index: i }))
        } else if str_equals(name, "Cancelled") {
            let i = read_word(bytes, 0)?;
            let t = read_tally(bytes, 4)?;
            Ok(Some(ReferendaEvent::Cancelled { extrinsic_index: xi, referendum_index: i, tally: t }))
        } else if str_equals(name, "Confirmed") {
            let i = read_word(bytes, 0)?;
            let t = read_tally(bytes, 4)?;
            Ok(Some(ReferendaEvent::Confirmed { extrinsic_index: xi, referendum_index: i, tally: t }))
        } else if str_equals(name, "Killed") {
            let i = read_word(bytes, 0)?;
            let t = read_tally(bytes, 4)?;
            Ok(Some(ReferendaEvent::Killed { extrinsic_index: xi, referendum_index: i, tally: t }))
        } else if str_equals(name, "Rejected") {
            let i = read_word(bytes, 0)?;
            let t = read_tally(bytes, 4)?;
            Ok(Some(ReferendaEvent::Rejected { extrinsic_index: xi, referendum_index: i, tally: t }))
        } else if str_equals(name, "Submitted") {
            let i = read_word(bytes, 0)?;
            let track_id = match codec_u16(bytes, 4) {
                Ok(v) => v,
                Err(e) => return Err(DecodeError::Error(e)),
            };
            let proposal = read_bounded(bytes, 6)?;
            Ok(Some(ReferendaEvent::Submitted { extrinsic_index: xi, referendum_index: i, track_id, proposal }))
        } else {
            Ok(None)
        }
    }
}

} // verus!
